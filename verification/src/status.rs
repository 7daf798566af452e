//! HTTP status codes: which of them mean success, and how a status is
//! written out in an error message.

use vstd::prelude::*;

verus! {

/// What stands in for the reason phrase of a code that has none.
pub const UNKNOWN_REASON: &'static str = "<unknown status code>";

/// A status code means success when it lies in 200..=299.
pub open spec fn is_success_code(code: u16) -> bool {
    200 <= code <= 299
}

/// Whether a response with this status code counts as a success.
pub fn is_success(code: u16) -> (ok: bool)
    ensures
        ok == is_success_code(code),
{
    200 <= code && code <= 299
}

/// The character for one decimal digit.
pub open spec fn digit_char(d: int) -> char {
    ('0' as int + d) as char
}

/// A number in decimal, without sign or leading zeros.
pub open spec fn decimal(n: nat) -> Seq<char>
    decreases n,
{
    if n < 10 {
        seq![digit_char(n as int)]
    } else {
        decimal(n / 10) + seq![digit_char((n % 10) as int)]
    }
}

/// The reason phrase that the `http` crate knows for a status code, as
/// `reason_phrase` hands it out; `None` where it knows none.
pub uninterp spec fn canonical_reason(code: u16) -> Option<Seq<char>>;

/// A status as it appears in messages: the code in decimal, a space, and the
/// given reason phrase, or `<unknown status code>` where there is none.
pub open spec fn status_text_with(code: u16, reason: Option<Seq<char>>) -> Seq<char> {
    decimal(code as nat) + seq![' '] + match reason {
        Some(phrase) => phrase,
        None => UNKNOWN_REASON@,
    }
}

/// A status as it appears in messages, with its canonical reason phrase.
pub open spec fn status_text(code: u16) -> Seq<char> {
    status_text_with(code, canonical_reason(code))
}

/// Every status text opens with its code in decimal.
pub proof fn lemma_status_text_opens_with_code(code: u16, reason: Option<Seq<char>>)
    ensures
        status_text_with(code, reason).len() > decimal(code as nat).len(),
        status_text_with(code, reason).subrange(0, decimal(code as nat).len() as int) == decimal(
            code as nat,
        ),
{
    let digits = decimal(code as nat);
    let text = status_text_with(code, reason);
    assert(text.subrange(0, digits.len() as int) =~= digits);
}

fn digit_str(d: u16) -> (s: &'static str)
    requires
        d < 10,
    ensures
        s@ == seq![digit_char(d as int)],
{
    proof {
        reveal_strlit("0");
        reveal_strlit("1");
        reveal_strlit("2");
        reveal_strlit("3");
        reveal_strlit("4");
        reveal_strlit("5");
        reveal_strlit("6");
        reveal_strlit("7");
        reveal_strlit("8");
        reveal_strlit("9");
    }
    let s = if d == 0 {
        "0"
    } else if d == 1 {
        "1"
    } else if d == 2 {
        "2"
    } else if d == 3 {
        "3"
    } else if d == 4 {
        "4"
    } else if d == 5 {
        "5"
    } else if d == 6 {
        "6"
    } else if d == 7 {
        "7"
    } else if d == 8 {
        "8"
    } else {
        "9"
    };
    assert(s@ =~= seq![digit_char(d as int)]);
    s
}

/// Writes a number in decimal.
pub fn decimal_string(n: u16) -> (s: String)
    ensures
        s@ == decimal(n as nat),
    decreases n,
{
    if n < 10 {
        String::from_str(digit_str(n))
    } else {
        decimal_string(n / 10).concat(digit_str(n % 10))
    }
}

/// Looks the reason phrase up with `StatusCode::canonical_reason` of the
/// `http` crate, reached through `reqwest::StatusCode`. A number that is no
/// status code at all (`StatusCode::from_u16` refuses it) has no phrase. The
/// contract only names the phrase: it is a fixed table in that crate, and
/// the same code always gives the same answer.
#[verifier::external_body]
fn reason_phrase(code: u16) -> (reason: Option<&'static str>)
    ensures
        match reason {
            Some(phrase) => canonical_reason(code) == Some(phrase@),
            None => canonical_reason(code) is None,
        },
{
    match reqwest::StatusCode::from_u16(code) {
        Ok(status) => status.canonical_reason(),
        Err(_) => None,
    }
}

/// Writes a status out from its code and the reason phrase that goes with it.
pub fn render_status(code: u16, reason: Option<&str>) -> (text: String)
    ensures
        text@ == status_text_with(
            code,
            match reason {
                Some(phrase) => Some(phrase@),
                None => None,
            },
        ),
{
    let head = decimal_string(code).concat(" ");
    proof {
        reveal_strlit(" ");
        assert(" "@ =~= seq![' ']);
    }
    match reason {
        Some(phrase) => head.concat(phrase),
        None => head.concat(UNKNOWN_REASON),
    }
}

/// Writes a status out as `<code> <canonical reason>`, for example
/// `404 Not Found`.
pub fn status_line(code: u16) -> (text: String)
    ensures
        text@ == status_text(code),
{
    render_status(code, reason_phrase(code))
}

} // verus!
