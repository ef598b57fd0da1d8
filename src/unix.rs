use vstd::prelude::*;

use crate::integral::Integer;
use crate::units::Days;

verus! {

/// A count of seconds.
#[derive(Debug, PartialEq, Eq, Clone, Copy)]
pub struct UnixSeconds(pub Integer);

/// A second counted from the Unix epoch, 1970-01-01T00:00:00Z.
#[derive(Debug, PartialEq, Eq, Clone, Copy)]
pub struct UnixSecond(pub Integer);

/// A day counted from the Unix epoch.
#[derive(Debug, PartialEq, Eq, Clone, Copy)]
pub struct Day(pub Integer);

impl UnixSecond {
    /// The count of seconds from the epoch to this second.
    pub fn seconds(self) -> (r: UnixSeconds)
        ensures
            r.0 == self.0,
    {
        UnixSeconds(self.0)
    }
}

impl Day {
    /// The count of days from the epoch to this day.
    pub fn days(self) -> (r: Days)
        ensures
            r.0 == self.0,
    {
        Days(self.0)
    }
}

} // verus!
