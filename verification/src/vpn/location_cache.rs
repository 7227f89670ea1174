//! The last location list fetched from the VPN client.
use vstd::prelude::*;

use crate::vpn::location::Location;
use crate::vpn::CoreResult;

verus! {

impl Location {
    /// A field-by-field copy.
    pub fn copy(&self) -> (res: Location)
        ensures
            res == *self,
    {
        Location {
            iso: self.iso.clone(),
            city: self.city.clone(),
            country: self.country.clone(),
            ping_ms: self.ping_ms,
        }
    }
}

/// Holds the most recently fetched location list.
#[derive(Debug)]
pub struct LocationCache {
    locations: Vec<Location>,
}

impl LocationCache {
    pub closed spec fn contents(&self) -> Seq<Location> {
        self.locations@
    }

    /// An empty cache.
    pub fn new() -> (res: Self)
        ensures
            res.contents() == Seq::<Location>::empty(),
    {
        Self { locations: Vec::new() }
    }

    /// Replaces the cached list.
    pub fn set(&mut self, locations: Vec<Location>)
        ensures
            final(self).contents() == locations@,
    {
        self.locations = locations;
    }

    /// Takes in the result of a refresh: a fetched list replaces the cached
    /// one; after a failed fetch the cache keeps what it had. Returns whether
    /// the cache was replaced.
    pub fn apply_refresh(&mut self, fetched: CoreResult<Vec<Location>>) -> (res: bool)
        ensures
            match fetched {
                Ok(v) => res && final(self).contents() == v@,
                Err(_) => !res && final(self).contents() == old(self).contents(),
            },
    {
        match fetched {
            Ok(v) => {
                self.set(v);
                true
            },
            Err(_) => false,
        }
    }

    /// A copy of the cached list.
    pub fn get(&self) -> (res: Vec<Location>)
        ensures
            res@ == self.contents(),
    {
        let mut out: Vec<Location> = Vec::new();
        let mut i: usize = 0;
        while i < self.locations.len()
            invariant
                i <= self.locations@.len(),
                out@ == self.locations@.take(i as int),
            decreases self.locations@.len() - i,
        {
            out.push(self.locations[i].copy());
            assert(self.locations@.take(i + 1) == self.locations@.take(i as int).push(
                self.locations@[i as int],
            ));
            i = i + 1;
        }
        assert(self.locations@.take(self.locations@.len() as int) == self.locations@);
        out
    }
}

} // verus!
