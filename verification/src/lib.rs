//! The decisions of an image fetcher, verified.
//!
//! A fetch takes a URL and, optionally, the address of a proxy, and hands the
//! image back either as `data:image/jpeg;base64,<payload>` or as the bytes
//! that arrived. This crate holds everything that is decided along the way:
//! whether a proxy is used, which settings the HTTP client gets, which status
//! codes count as success, what each failure is called and what its message
//! says, and how the body is encoded. It does not touch the network. The
//! caller builds the client, sends the request and reads the body, one
//! [`fetch::Action`] at a time, and reports each outcome back as an
//! [`fetch::Event`].
//!
//! The client settings switch certificate validation off. That is part of
//! what this crate describes, not an oversight; see [`config::ClientConfig`].

pub mod config;
pub mod encoding;
pub mod error;
pub mod fetch;
pub mod laws;
pub mod proxy;
pub mod status;
