//! Reading the connection state out of the VPN client's status text.
use vstd::prelude::*;

use crate::text::{chars_of, contains, contains_chars, lower, lower_chars};
use crate::vpn::core_state::CoreState;

verus! {

/// The first of `reconnecting`, `disconnected`, `connected` that the
/// lower-cased output contains decides; any other output reads as
/// disconnected.
pub open spec fn spec_parse_status(output: Seq<char>) -> CoreState {
    let l = lower(output);
    if contains(l, "reconnecting"@) {
        CoreState::Reconnecting
    } else if contains(l, "disconnected"@) {
        CoreState::Disconnected
    } else if contains(l, "connected"@) {
        CoreState::Connected
    } else {
        CoreState::Disconnected
    }
}

pub fn parse_status(output: String) -> (res: CoreState)
    ensures
        res == spec_parse_status(output@),
{
    let l = lower_chars(chars_of(output.as_str()).as_slice());
    if contains_chars(l.as_slice(), chars_of("reconnecting").as_slice()) {
        CoreState::Reconnecting
    } else if contains_chars(l.as_slice(), chars_of("disconnected").as_slice()) {
        CoreState::Disconnected
    } else if contains_chars(l.as_slice(), chars_of("connected").as_slice()) {
        CoreState::Connected
    } else {
        CoreState::Disconnected
    }
}

} // verus!
