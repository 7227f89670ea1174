use vstd::prelude::*;

verus! {

/// The life cycle of a VPN connection, with its transitional states.
#[derive(Debug, Clone, Copy, PartialEq, Eq, Structural)]
pub enum CoreState {
    Connected,
    Disconnected,
    Connecting,
    Disconnecting,
    Reconnecting,
}

} // verus!
