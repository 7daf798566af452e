//! The ways a fetch can fail, and the message that each failure shows.

use crate::status::{status_line, status_text};
use vstd::prelude::*;

verus! {

/// Opens the message of a proxy address that could not be used.
pub const INVALID_PROXY_PREFIX: &'static str = "Failed to create proxy: ";

/// Opens the message of a client that could not be built.
pub const CLIENT_BUILD_PREFIX: &'static str = "Failed to build client: ";

/// Opens the message of a request that never got a response.
pub const NETWORK_PREFIX: &'static str = "Request failed: ";

/// Opens the message of a response whose status is not a success.
pub const HTTP_STATUS_PREFIX: &'static str = "Failed to fetch image: ";

/// Opens the message of a body that could not be read to its end.
pub const BODY_READ_PREFIX: &'static str = "Failed to read bytes: ";

/// Why a fetch failed. The text that a variant carries is the detail that
/// the HTTP client gave; a status error carries the status code.
#[derive(Debug, PartialEq, Eq)]
pub enum FetchError {
    /// The proxy address was not accepted.
    InvalidProxy(String),
    /// The HTTP client could not be built.
    ClientBuildFailed(String),
    /// The request failed before any response arrived.
    NetworkError(String),
    /// The response arrived with a status outside 200..=299.
    HttpStatusError(u16),
    /// The response body could not be read in full.
    BodyReadError(String),
}

/// A `FetchError` as a mathematical value.
pub enum FetchErrorView {
    InvalidProxy(Seq<char>),
    ClientBuildFailed(Seq<char>),
    NetworkError(Seq<char>),
    HttpStatusError(u16),
    BodyReadError(Seq<char>),
}

impl View for FetchError {
    type V = FetchErrorView;

    open spec fn view(&self) -> FetchErrorView {
        match *self {
            FetchError::InvalidProxy(detail) => FetchErrorView::InvalidProxy(detail@),
            FetchError::ClientBuildFailed(detail) => FetchErrorView::ClientBuildFailed(detail@),
            FetchError::NetworkError(detail) => FetchErrorView::NetworkError(detail@),
            FetchError::HttpStatusError(code) => FetchErrorView::HttpStatusError(code),
            FetchError::BodyReadError(detail) => FetchErrorView::BodyReadError(detail@),
        }
    }
}

/// Whether `part` stands in `text` from position `at` on.
pub open spec fn occurs_at(text: Seq<char>, part: Seq<char>, at: int) -> bool {
    0 <= at && at + part.len() <= text.len() && text.subrange(at, at + part.len()) == part
}

/// Whether `part` stands somewhere in `text`.
pub open spec fn contains_text(text: Seq<char>, part: Seq<char>) -> bool {
    exists|at: int| occurs_at(text, part, at)
}

impl FetchErrorView {
    /// The fixed words that open the message of this kind of failure.
    pub open spec fn prefix(self) -> Seq<char> {
        match self {
            FetchErrorView::InvalidProxy(_) => INVALID_PROXY_PREFIX@,
            FetchErrorView::ClientBuildFailed(_) => CLIENT_BUILD_PREFIX@,
            FetchErrorView::NetworkError(_) => NETWORK_PREFIX@,
            FetchErrorView::HttpStatusError(_) => HTTP_STATUS_PREFIX@,
            FetchErrorView::BodyReadError(_) => BODY_READ_PREFIX@,
        }
    }

    /// What follows the prefix: the client's detail, or the status written
    /// out as `<code> <reason>`.
    pub open spec fn detail(self) -> Seq<char> {
        match self {
            FetchErrorView::InvalidProxy(detail) => detail,
            FetchErrorView::ClientBuildFailed(detail) => detail,
            FetchErrorView::NetworkError(detail) => detail,
            FetchErrorView::HttpStatusError(code) => status_text(code),
            FetchErrorView::BodyReadError(detail) => detail,
        }
    }

    /// The message shown to the caller.
    pub open spec fn message(self) -> Seq<char> {
        self.prefix() + self.detail()
    }
}

impl FetchError {
    /// The message shown to the caller: the words for this kind of failure,
    /// then the detail.
    pub fn message(&self) -> (text: String)
        ensures
            text@ == self@.message(),
    {
        match self {
            FetchError::InvalidProxy(detail) => String::from_str(INVALID_PROXY_PREFIX).concat(
                detail.as_str(),
            ),
            FetchError::ClientBuildFailed(detail) => String::from_str(CLIENT_BUILD_PREFIX).concat(
                detail.as_str(),
            ),
            FetchError::NetworkError(detail) => String::from_str(NETWORK_PREFIX).concat(
                detail.as_str(),
            ),
            FetchError::HttpStatusError(code) => {
                let status = status_line(*code);
                String::from_str(HTTP_STATUS_PREFIX).concat(status.as_str())
            },
            FetchError::BodyReadError(detail) => String::from_str(BODY_READ_PREFIX).concat(
                detail.as_str(),
            ),
        }
    }
}

} // verus!
