//! Which proxy, if any, a fetch goes through.

use vstd::prelude::*;

verus! {

/// What was decided about the proxy of one fetch.
#[derive(Debug, PartialEq, Eq)]
pub enum ProxyChoice {
    /// No proxy: the client connects directly.
    Direct,
    /// All traffic goes through the proxy at this address.
    Via(String),
    /// A proxy was asked for, but its address was refused; the text says why.
    Rejected(String),
}

/// A `ProxyChoice` as a mathematical value.
pub enum ProxyChoiceView {
    Direct,
    Via(Seq<char>),
    Rejected(Seq<char>),
}

impl View for ProxyChoice {
    type V = ProxyChoiceView;

    open spec fn view(&self) -> ProxyChoiceView {
        match *self {
            ProxyChoice::Direct => ProxyChoiceView::Direct,
            ProxyChoice::Via(address) => ProxyChoiceView::Via(address@),
            ProxyChoice::Rejected(reason) => ProxyChoiceView::Rejected(reason@),
        }
    }
}

/// An optional text as a mathematical value.
pub open spec fn text_of(text: Option<String>) -> Option<Seq<char>> {
    match text {
        Some(t) => Some(t@),
        None => None,
    }
}

/// The proxy address that counts: an absent address and an empty one both
/// mean that there is no proxy.
pub open spec fn effective_proxy(proxy_url: Option<Seq<char>>) -> Option<Seq<char>> {
    match proxy_url {
        Some(address) => if address.len() == 0 {
            None
        } else {
            Some(address)
        },
        None => None,
    }
}

/// Why `reqwest` refuses a proxy address, in its own words, as
/// `proxy_rejection_of` hands it out; `None` where it accepts the address.
pub uninterp spec fn proxy_rejection(address: Seq<char>) -> Option<Seq<char>>;

/// The choice that follows from an address and from what the check of that
/// address said.
pub open spec fn choice_for(
    address: Option<Seq<char>>,
    rejection: Option<Seq<char>>,
) -> ProxyChoiceView {
    match address {
        None => ProxyChoiceView::Direct,
        Some(a) => match rejection {
            None => ProxyChoiceView::Via(a),
            Some(reason) => ProxyChoiceView::Rejected(reason),
        },
    }
}

/// The choice for a proxy address as the caller gave it.
pub open spec fn resolved(proxy_url: Option<Seq<char>>) -> ProxyChoiceView {
    match effective_proxy(proxy_url) {
        None => ProxyChoiceView::Direct,
        Some(address) => choice_for(Some(address), proxy_rejection(address)),
    }
}

/// Drops an empty proxy address: what is left is the address to use, if any.
pub fn select_proxy(proxy_url: Option<String>) -> (address: Option<String>)
    ensures
        text_of(address) == effective_proxy(text_of(proxy_url)),
{
    match proxy_url {
        Some(address) => {
            if address.as_str().is_empty() {
                None
            } else {
                Some(address)
            }
        },
        None => None,
    }
}

/// Tries the address with `reqwest::Proxy::all`, which parses it as the URL
/// of a proxy for all schemes, and turns a refusal into the text that
/// `reqwest::Error` displays. The contract only names the outcome: it
/// depends on the address alone, so the same address always gives the same
/// answer.
#[verifier::external_body]
fn proxy_rejection_of(address: &str) -> (rejection: Option<String>)
    ensures
        text_of(rejection) == proxy_rejection(address@),
{
    match reqwest::Proxy::all(address) {
        Ok(_) => None,
        Err(error) => Some(error.to_string()),
    }
}

/// Decides from an address and the outcome of its check: no address means a
/// direct connection, an accepted address is used, a refused one is reported
/// with the reason.
pub fn choose_proxy(address: Option<String>, rejection: Option<String>) -> (choice: ProxyChoice)
    ensures
        choice@ == choice_for(text_of(address), text_of(rejection)),
{
    match address {
        None => ProxyChoice::Direct,
        Some(a) => match rejection {
            None => ProxyChoice::Via(a),
            Some(reason) => ProxyChoice::Rejected(reason),
        },
    }
}

/// Decides about the proxy of a fetch. An absent or empty address gives a
/// direct connection without any check; any other address is checked, and is
/// either used for all traffic or refused.
pub fn resolve_proxy(proxy_url: Option<String>) -> (choice: ProxyChoice)
    ensures
        choice@ == resolved(text_of(proxy_url)),
{
    match select_proxy(proxy_url) {
        None => ProxyChoice::Direct,
        Some(address) => {
            let rejection = proxy_rejection_of(address.as_str());
            choose_proxy(Some(address), rejection)
        },
    }
}

} // verus!
