use vstd::prelude::*;

verus! {

/// When a restart takes place.
#[derive(Debug, Clone, Copy, PartialEq, Eq, Structural)]
pub enum RestartTime {
    Now,
    AfterSeconds(u32),
}

} // verus!
