//! Verified core of the Nubila web client: the WebSocket opening handshake
//! (request headers and response checks), the frames the client sends and
//! what the reader does with each frame it receives, and the rule that turns
//! a TLS `close_notify` at end of stream into a clean end of file.
use vstd::prelude::*;

pub mod error;
pub mod handshake;
pub mod frame;
mod text;
pub mod tls;

verus! {

} // verus!
