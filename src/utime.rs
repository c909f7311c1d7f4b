//! Durations in milliseconds.
use vstd::prelude::*;

verus! {

/// A span of time, in milliseconds.
#[derive(Clone, Copy, Debug, PartialEq, Eq, Structural)]
pub struct UTime(pub u64);

impl UTime {
    pub fn from_millis(millis: u64) -> (r: UTime)
        ensures
            r.0 == millis,
    {
        UTime(millis)
    }

    pub fn to_millis(&self) -> (r: u64)
        ensures
            r == self.0,
    {
        self.0
    }
}

} // verus!
