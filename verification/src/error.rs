use vstd::prelude::*;

verus! {

/// The endpoints whose response bodies must decode into a structure, used
/// to say which operation a parse error belongs to.
#[derive(Clone, Copy, Debug, PartialEq, Eq, Structural)]
pub enum Endpoint {
    ListUnread,
    UnreadCount,
}

/// The error surface of the client.
#[derive(Debug, PartialEq, Eq)]
pub enum ReaderError {
    /// The server URL handed to the constructor is not a usable absolute URL.
    /// No network activity has taken place.
    Config,
    /// A network or connection failure, wrapped by the transport layer with
    /// a description of the underlying cause.
    Transport(String),
    /// The login response body holds no auth token.
    TokenNotFound,
    /// A response body failed to decode into the expected shape; carries the
    /// endpoint and the byte length of the offending body for diagnostics.
    Parse { endpoint: Endpoint, body_len: usize },
}

} // verus!
