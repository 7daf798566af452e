//! The settings of the HTTP client that serves one fetch.

use vstd::prelude::*;

verus! {

/// The user agent that every request announces.
pub const USER_AGENT: &'static str =
    "Mozilla/5.0 (Macintosh; Intel Mac OS X 10_15_7) AppleWebKit/537.36";

/// How many idle connections per host the client keeps.
pub const POOL_MAX_IDLE_PER_HOST: usize = 5;

/// After how many seconds an idle connection is dropped.
pub const POOL_IDLE_TIMEOUT_SECS: u64 = 30;

/// After how many seconds a request is given up.
pub const REQUEST_TIMEOUT_SECS: u64 = 30;

/// Everything the caller needs to build the HTTP client for one fetch.
///
/// Certificate validation is switched off on purpose: the client accepts
/// invalid, self-signed and expired certificates. Whoever builds a client
/// from these settings extends that trust to every host it talks to.
#[derive(Debug, PartialEq, Eq)]
pub struct ClientConfig {
    pub user_agent: String,
    pub accept_invalid_certs: bool,
    pub pool_max_idle_per_host: usize,
    pub pool_idle_timeout_secs: u64,
    pub timeout_secs: u64,
    /// The one proxy that carries all traffic, HTTP and HTTPS alike, or
    /// `None` for a direct connection.
    pub proxy: Option<String>,
}

/// A `ClientConfig` as a mathematical value.
pub struct ClientConfigView {
    pub user_agent: Seq<char>,
    pub accept_invalid_certs: bool,
    pub pool_max_idle_per_host: nat,
    pub pool_idle_timeout_secs: nat,
    pub timeout_secs: nat,
    pub proxy: Option<Seq<char>>,
}

impl View for ClientConfig {
    type V = ClientConfigView;

    open spec fn view(&self) -> ClientConfigView {
        ClientConfigView {
            user_agent: self.user_agent@,
            accept_invalid_certs: self.accept_invalid_certs,
            pool_max_idle_per_host: self.pool_max_idle_per_host as nat,
            pool_idle_timeout_secs: self.pool_idle_timeout_secs as nat,
            timeout_secs: self.timeout_secs as nat,
            proxy: match self.proxy {
                Some(address) => Some(address@),
                None => None,
            },
        }
    }
}

impl ClientConfigView {
    /// The fixed settings, with the given proxy.
    pub open spec fn standard(proxy: Option<Seq<char>>) -> ClientConfigView {
        ClientConfigView {
            user_agent: USER_AGENT@,
            accept_invalid_certs: true,
            pool_max_idle_per_host: POOL_MAX_IDLE_PER_HOST as nat,
            pool_idle_timeout_secs: POOL_IDLE_TIMEOUT_SECS as nat,
            timeout_secs: REQUEST_TIMEOUT_SECS as nat,
            proxy,
        }
    }
}

impl ClientConfig {
    /// The settings for one fetch: the fixed user agent, certificate
    /// validation off, at most five idle connections per host, thirty
    /// seconds for an idle connection and for a request, and the given
    /// proxy.
    pub fn new(proxy: Option<String>) -> (config: ClientConfig)
        ensures
            config@ == ClientConfigView::standard(
                match proxy {
                    Some(address) => Some(address@),
                    None => None,
                },
            ),
    {
        ClientConfig {
            user_agent: String::from_str(USER_AGENT),
            accept_invalid_certs: true,
            pool_max_idle_per_host: POOL_MAX_IDLE_PER_HOST,
            pool_idle_timeout_secs: POOL_IDLE_TIMEOUT_SECS,
            timeout_secs: REQUEST_TIMEOUT_SECS,
            proxy,
        }
    }
}

} // verus!
