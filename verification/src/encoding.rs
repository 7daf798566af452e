//! Standard base64 and the `data:` URI that carries a fetched image.

use base64::Engine;
use vstd::prelude::*;

verus! {

/// The literal that opens every data URI this crate produces. The media type
/// is always `image/jpeg`, whatever the bytes really are.
pub const DATA_URI_PREFIX: &'static str = "data:image/jpeg;base64,";

/// The character of the standard alphabet (RFC 4648, section 4) that stands
/// for the six-bit value `v`.
pub open spec fn sextet_char(v: int) -> char {
    if 0 <= v < 26 {
        ('A' as int + v) as char
    } else if 26 <= v < 52 {
        ('a' as int + (v - 26)) as char
    } else if 52 <= v < 62 {
        ('0' as int + (v - 52)) as char
    } else if v == 62 {
        '+'
    } else {
        '/'
    }
}

/// The four characters that encode the 24 bits `b0 b1 b2`, most significant
/// six bits first.
pub open spec fn encode_triple(b0: u8, b1: u8, b2: u8) -> Seq<char> {
    seq![
        sextet_char(b0 as int / 4),
        sextet_char((b0 as int % 4) * 16 + b1 as int / 16),
        sextet_char((b1 as int % 16) * 4 + b2 as int / 64),
        sextet_char(b2 as int % 64),
    ]
}

/// Base64 of `bytes` in the standard alphabet, padded with `=` to a multiple
/// of four characters.
pub open spec fn standard_base64(bytes: Seq<u8>) -> Seq<char>
    decreases bytes.len(),
{
    if bytes.len() == 0 {
        Seq::empty()
    } else if bytes.len() == 1 {
        encode_triple(bytes[0], 0, 0).subrange(0, 2) + seq!['=', '=']
    } else if bytes.len() == 2 {
        encode_triple(bytes[0], bytes[1], 0).subrange(0, 3) + seq!['=']
    } else {
        encode_triple(bytes[0], bytes[1], bytes[2]) + standard_base64(bytes.skip(3))
    }
}

/// Number of characters that padded base64 needs for `n` bytes.
pub open spec fn encoded_len(n: nat) -> nat {
    4 * ((n + 2) / 3)
}

/// Padded base64 is as long as `encoded_len` says.
pub proof fn lemma_standard_base64_len(bytes: Seq<u8>)
    ensures
        standard_base64(bytes).len() == encoded_len(bytes.len()),
    decreases bytes.len(),
{
    if bytes.len() >= 3 {
        lemma_standard_base64_len(bytes.skip(3));
    }
}

/// Whether `n` bytes can be encoded at all: no buffer holds more than
/// `isize::MAX` bytes, and the padded base64 text has to fit in one.
pub open spec fn encodable(n: nat) -> bool {
    encoded_len(n) <= isize::MAX
}

/// Whether a body of `len` bytes can be encoded.
pub fn fits_encoded(len: usize) -> (fits: bool)
    ensures
        fits == encodable(len as nat),
{
    let most: usize = isize::MAX as usize;
    len / 3 <= most / 4 - 1 || (len % 3 == 0 && len / 3 <= most / 4)
}

/// Encodes with `Engine::encode` of the base64 crate, on its
/// `general_purpose::STANDARD` engine: the RFC 4648 alphabet with `+` and `/`,
/// and `=` padding. The contract restates that format as `standard_base64`;
/// it is taken from the crate's documentation and is not proved here. The
/// crate panics when the length of the text overflows, or when the buffer
/// for it cannot exist, so such inputs are left out.
#[verifier::external_body]
fn encode_standard(bytes: &[u8]) -> (text: String)
    requires
        encodable(bytes@.len()),
    ensures
        text@ == standard_base64(bytes@),
{
    base64::engine::general_purpose::STANDARD.encode(bytes)
}

/// The data URI of a body: the prefix, then the body in padded base64.
pub open spec fn data_uri_of(body: Seq<u8>) -> Seq<char> {
    DATA_URI_PREFIX@ + standard_base64(body)
}

/// Builds `data:image/jpeg;base64,<payload>` from the bytes of a body that is
/// short enough to be encoded.
pub fn data_uri(body: &[u8]) -> (uri: String)
    requires
        encodable(body@.len()),
    ensures
        uri@ == data_uri_of(body@),
{
    let payload = encode_standard(body);
    String::from_str(DATA_URI_PREFIX).concat(payload.as_str())
}

/// Builds the data URI of a body, if the body is short enough to be encoded:
/// `None` exactly for a body that is not.
pub fn try_data_uri(body: &[u8]) -> (uri: Option<String>)
    ensures
        match uri {
            Some(text) => encodable(body@.len()) && text@ == data_uri_of(body@),
            None => !encodable(body@.len()),
        },
{
    if fits_encoded(body.len()) {
        Some(data_uri(body))
    } else {
        None
    }
}

/// The six-bit value that a character of the standard alphabet stands for;
/// `None` for every other character, `=` among them.
pub open spec fn sextet_value(c: char) -> Option<int> {
    let n: int = c as int;
    if 'A' as int <= n <= 'Z' as int {
        Some(n - 'A' as int)
    } else if 'a' as int <= n <= 'z' as int {
        Some(n - 'a' as int + 26)
    } else if '0' as int <= n <= '9' as int {
        Some(n - '0' as int + 52)
    } else if c == '+' {
        Some(62)
    } else if c == '/' {
        Some(63)
    } else {
        None
    }
}

/// The bytes that one group of four characters stands for: one byte for
/// `xx==`, two for `xxx=`, three for `xxxx`. The bits that a shortened group
/// leaves unused must be zero.
pub open spec fn decode_group(group: Seq<char>) -> Option<Seq<u8>>
    recommends
        group.len() == 4,
{
    match (sextet_value(group[0]), sextet_value(group[1])) {
        (Some(v0), Some(v1)) => {
            let b0: u8 = (v0 * 4 + v1 / 16) as u8;
            if group[2] == '=' && group[3] == '=' {
                if v1 % 16 == 0 {
                    Some(seq![b0])
                } else {
                    None
                }
            } else {
                match sextet_value(group[2]) {
                    Some(v2) => {
                        let b1: u8 = ((v1 % 16) * 16 + v2 / 4) as u8;
                        if group[3] == '=' {
                            if v2 % 4 == 0 {
                                Some(seq![b0, b1])
                            } else {
                                None
                            }
                        } else {
                            match sextet_value(group[3]) {
                                Some(v3) => Some(seq![b0, b1, ((v2 % 4) * 64 + v3) as u8]),
                                None => None,
                            }
                        }
                    },
                    None => None,
                }
            }
        },
        _ => None,
    }
}

/// The bytes that a padded base64 text stands for, or `None` where the text
/// is not the standard encoding of any bytes. Padding may only close the
/// last group.
pub open spec fn standard_base64_decode(text: Seq<char>) -> Option<Seq<u8>>
    decreases text.len(),
{
    if text.len() == 0 {
        Some(Seq::empty())
    } else if text.len() < 4 {
        None
    } else if text.len() == 4 {
        decode_group(text)
    } else {
        match (decode_group(text.subrange(0, 4)), standard_base64_decode(text.skip(4))) {
            (Some(head), Some(tail)) => if head.len() == 3 {
                Some(head + tail)
            } else {
                None
            },
            _ => None,
        }
    }
}

/// The body that a data URI of this crate carries: the text after the prefix,
/// decoded. `None` where the prefix is missing or the rest is not base64.
pub open spec fn data_uri_body(uri: Seq<char>) -> Option<Seq<u8>> {
    let n: int = DATA_URI_PREFIX@.len() as int;
    if uri.len() >= n && uri.subrange(0, n) == DATA_URI_PREFIX@ {
        standard_base64_decode(uri.skip(n))
    } else {
        None
    }
}

/// Each six-bit value is found again from its character, and no character
/// of the alphabet is the padding sign.
pub proof fn lemma_sextet_round_trip(v: int)
    requires
        0 <= v < 64,
    ensures
        sextet_value(sextet_char(v)) == Some(v),
        sextet_char(v) != '=',
{
}

/// A full group decodes to the three bytes it was made from.
pub proof fn lemma_triple_round_trip(b0: u8, b1: u8, b2: u8)
    ensures
        decode_group(encode_triple(b0, b1, b2)) == Some(seq![b0, b1, b2]),
{
    let g = encode_triple(b0, b1, b2);
    lemma_sextet_round_trip(b0 as int / 4);
    lemma_sextet_round_trip((b0 as int % 4) * 16 + b1 as int / 16);
    lemma_sextet_round_trip((b1 as int % 16) * 4 + b2 as int / 64);
    lemma_sextet_round_trip(b2 as int % 64);
    assert(decode_group(g).unwrap() =~= seq![b0, b1, b2]);
}

/// A group that carries one byte decodes to that byte.
pub proof fn lemma_single_round_trip(b0: u8)
    ensures
        decode_group(standard_base64(seq![b0])) == Some(seq![b0]),
{
    let g = standard_base64(seq![b0]);
    lemma_sextet_round_trip(b0 as int / 4);
    lemma_sextet_round_trip((b0 as int % 4) * 16);
    assert(g =~= seq![sextet_char(b0 as int / 4), sextet_char((b0 as int % 4) * 16), '=', '=']);
    assert(decode_group(g).unwrap() =~= seq![b0]);
}

/// A group that carries two bytes decodes to those bytes.
pub proof fn lemma_pair_round_trip(b0: u8, b1: u8)
    ensures
        decode_group(standard_base64(seq![b0, b1])) == Some(seq![b0, b1]),
{
    let g = standard_base64(seq![b0, b1]);
    lemma_sextet_round_trip(b0 as int / 4);
    lemma_sextet_round_trip((b0 as int % 4) * 16 + b1 as int / 16);
    lemma_sextet_round_trip((b1 as int % 16) * 4);
    assert(g =~= seq![
        sextet_char(b0 as int / 4),
        sextet_char((b0 as int % 4) * 16 + b1 as int / 16),
        sextet_char((b1 as int % 16) * 4),
        '=',
    ]);
    assert(decode_group(g).unwrap() =~= seq![b0, b1]);
}

/// Decoding undoes encoding: every byte sequence comes back unchanged.
pub proof fn lemma_base64_round_trip(bytes: Seq<u8>)
    ensures
        standard_base64_decode(standard_base64(bytes)) == Some(bytes),
    decreases bytes.len(),
{
    let text = standard_base64(bytes);
    lemma_standard_base64_len(bytes);
    if bytes.len() == 0 {
        assert(bytes =~= Seq::empty());
    } else if bytes.len() == 1 {
        assert(bytes =~= seq![bytes[0]]);
        lemma_single_round_trip(bytes[0]);
    } else if bytes.len() == 2 {
        assert(bytes =~= seq![bytes[0], bytes[1]]);
        lemma_pair_round_trip(bytes[0], bytes[1]);
    } else {
        let head = encode_triple(bytes[0], bytes[1], bytes[2]);
        let first = seq![bytes[0], bytes[1], bytes[2]];
        let rest = bytes.skip(3);
        lemma_triple_round_trip(bytes[0], bytes[1], bytes[2]);
        assert(first + rest =~= bytes);
        if bytes.len() == 3 {
            assert(rest =~= Seq::empty());
            assert(text =~= head);
        } else {
            lemma_base64_round_trip(rest);
            lemma_standard_base64_len(rest);
            assert(text.subrange(0, 4) =~= head);
            assert(text.skip(4) =~= standard_base64(rest));
        }
    }
}

/// The body is found again from its data URI: the prefix is there, and what
/// follows it decodes to exactly the bytes that went in.
pub proof fn lemma_data_uri_round_trip(body: Seq<u8>)
    ensures
        data_uri_body(data_uri_of(body)) == Some(body),
{
    let n: int = DATA_URI_PREFIX@.len() as int;
    let uri = data_uri_of(body);
    assert(uri.subrange(0, n) =~= DATA_URI_PREFIX@);
    assert(uri.skip(n) =~= standard_base64(body));
    lemma_base64_round_trip(body);
}

} // verus!
