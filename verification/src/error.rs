use vstd::prelude::*;

verus! {

/// Errors that the client reports to its caller.
#[derive(Debug)]
pub enum NubilaError {
    /// The URL of a WebSocket request does not parse.
    InvalidUrl,
    /// The URL of a WebSocket request names no host.
    NoUrlHost,
    /// A header name of the opening request is refused by the `http` crate.
    InvalidHeaderName,
    /// A header value of the opening request is refused by the `http` crate.
    InvalidHeaderValue,
    /// The server answered the opening handshake with the first status
    /// instead of the second (101 Switching Protocols).
    WsInvalidStatusCode(u16, u16),
    /// The `Upgrade` header of the handshake answer is not `websocket`.
    WsInvalidUpgradeHeader(String),
    /// The `Connection` header of the handshake answer is not `Upgrade`.
    WsInvalidConnectionHeader(String),
    /// A message handed to `send` is neither text nor binary data.
    WsInvalidPayload(String),
    /// A request body could not be read into bytes.
    InvalidPayload,
    /// A streaming request body could not be turned into a byte stream.
    StreamingBodyConvertFailed(String),
    /// A streaming request body could not be split in two.
    StreamingBodyTeeFailed(String),
    /// An I/O failure, with its description.
    Io(String),
    /// A WebSocket protocol failure, with its description.
    WebSocket(String),
    /// An HTTP failure, with its description.
    Http(String),
}

} // verus!
