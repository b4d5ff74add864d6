//! A WebSocket-to-network gateway's protocol core: the JSON frame codec,
//! the per-connection stream table and id allocator, and the dispatcher
//! and reader step functions that decide every frame the gateway emits.
//! The I/O shell around it performs the connects, handshakes, reads and
//! writes these functions call for, and hands their outcomes back in.

use vstd::prelude::*;

/// Body and data coding: base64 and UTF-8, in both directions.
pub mod codec;
/// The dispatcher's decisions for fetch, open, write, close and read.
pub mod dispatch;
/// Validation and framing of HTTP fetch requests and responses.
pub mod fetch;
/// The exact wire text of every outbound frame.
pub mod frames;
/// Inbound message texts parsed into requests.
pub mod parse;
/// The stream table and the stream-id allocator.
pub mod session;

verus! {

/// Loopback port on which the gateway listens for WebSocket clients.
pub fn gateway_port() -> (p: u16)
    ensures
        p == 5772,
{
    5772
}

} // verus!
