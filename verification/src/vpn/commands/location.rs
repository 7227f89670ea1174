use vstd::prelude::*;

use crate::text::owned;

verus! {

/// The locations that the command builder can connect to.
#[derive(Debug, Clone, Copy, PartialEq, Eq, Structural)]
pub enum Location {
    DE,
    FI,
}

impl Location {
    pub open spec fn spec_name(&self) -> Seq<char> {
        match self {
            Location::DE => "DE"@,
            Location::FI => "FI"@,
        }
    }

    /// The location's code as the VPN client takes it.
    pub fn get_name(&self) -> (res: String)
        ensures
            res@ == self.spec_name(),
    {
        match self {
            Location::DE => owned("DE"),
            Location::FI => owned("FI"),
        }
    }
}

} // verus!
