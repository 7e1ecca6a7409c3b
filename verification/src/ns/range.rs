//! The location-and-length range that container operations take.

use vstd::prelude::*;

verus! {

/// A range of character positions: `length` positions starting at
/// `location`.
#[derive(Clone, Copy, PartialEq, Eq, Structural, Debug)]
pub struct Range {
    /// The first position covered.
    pub location: usize,
    /// How many positions are covered.
    pub length: usize,
}

impl Range {
    /// The position one past the last covered one. Stated over `int`, so a
    /// range whose end does not fit the machine word still has an end.
    pub open spec fn end(self) -> int {
        self.location + self.length
    }

    /// Whether a position lies inside the range.
    pub open spec fn contains(self, i: int) -> bool {
        self.location <= i < self.end()
    }

    /// Whether the range stays inside a container of `len` positions.
    pub open spec fn within(self, len: int) -> bool {
        self.end() <= len
    }

    pub fn new(location: usize, length: usize) -> (r: Range)
        ensures
            r.location == location,
            r.length == length,
    {
        Range { location, length }
    }

    /// The executable bounds test: true exactly when the range stays inside
    /// a container of `len` positions.
    pub fn fits(&self, len: usize) -> (r: bool)
        ensures
            r == self.within(len as int),
    {
        self.location <= len && self.length <= len - self.location
    }
}

} // verus!
