//! Musical time, counted in the smallest units that the sequencer resolves.

use vstd::prelude::*;

verus! {

/// A point in musical time, or a duration, as a count of units.
#[derive(Clone, Copy, Debug, Default, PartialEq, Eq, PartialOrd, Ord, Hash, Structural)]
pub struct MusicalTime {
    units: usize,
}

impl MusicalTime {
    pub closed spec fn units_spec(&self) -> nat {
        self.units as nat
    }

    pub fn new_with_units(units: usize) -> (r: Self)
        ensures
            r.units_spec() == units,
    {
        MusicalTime { units }
    }

    pub fn total_units(&self) -> (r: usize)
        ensures
            r == self.units_spec(),
    {
        self.units
    }

    /// The time `other` after `self`.
    pub fn plus(&self, other: MusicalTime) -> (r: MusicalTime)
        requires
            self.units_spec() + other.units_spec() <= usize::MAX,
        ensures
            r.units_spec() == self.units_spec() + other.units_spec(),
    {
        MusicalTime { units: self.units + other.units }
    }
}

/// The half-open span of time from `start` up to, not including, `end`.
#[derive(Clone, Copy, Debug, Default, PartialEq, Eq, Hash, Structural)]
pub struct TimeRange {
    pub start: MusicalTime,
    pub end: MusicalTime,
}

impl TimeRange {
    pub open spec fn contains_spec(&self, t: MusicalTime) -> bool {
        self.start.units_spec() <= t.units_spec() < self.end.units_spec()
    }

    pub fn contains(&self, t: MusicalTime) -> (r: bool)
        ensures
            r == self.contains_spec(t),
    {
        self.start.total_units() <= t.total_units() && t.total_units() < self.end.total_units()
    }
}

} // verus!
