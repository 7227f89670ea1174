use vstd::prelude::*;

use crate::vpn::commands::location::Location;
use crate::vpn::commands::restart_time::RestartTime;

verus! {

/// The operations that the command builder turns into command lines.
#[derive(Debug, Clone)]
pub enum CoreCommand {
    Connect(Location),
    Disconnect,
    Restart(RestartTime),
    Status,
    GetSSID,
    ReconnectToSSID(String),
}

} // verus!
