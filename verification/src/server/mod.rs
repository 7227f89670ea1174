//! The HTTP and WebSocket server: routing, responses and the WebSocket
//! session's decisions.
use vstd::prelude::*;

pub mod http_handler;
pub mod pages;
pub mod router;
pub mod ws;

verus! {

/// What happens to a connection after a request was handled.
#[derive(Debug, Clone, Copy, PartialEq, Eq, Structural)]
pub enum ConnectionState {
    Close,
}

} // verus!
