//! Client library for the Google Reader-compatible synchronization protocol,
//! as served by FreshRSS and similar feed aggregators.
//!
//! The library owns the protocol logic: the session and its two cached
//! credentials (auth token and write token), lazy token acquisition, the
//! construction of every request the protocol needs, and the parsing rules
//! for the response bodies. The HTTP transport and JSON body decoding are
//! left to the caller, who drives the session by asking it for the next
//! request to send and handing back each response body.

pub mod error;
pub mod items;
pub mod laws;
pub mod parse;
pub mod session;
pub mod urls;
