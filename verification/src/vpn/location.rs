use vstd::prelude::*;

verus! {

/// One row of the VPN client's location list.
#[derive(Debug, Clone)]
pub struct Location {
    pub iso: String,
    pub city: String,
    pub country: String,
    pub ping_ms: i32,
}

} // verus!
