//! The time-trigger descriptor handed to the scheduling service.

use vstd::prelude::*;

verus! {

/// Describes when a registered callback fires: a first trigger time, an
/// interval between repetitions, and how many times it fires in all.
///
/// The scheduling service accepts a descriptor only if it is well formed:
/// it must describe at least one occurrence, and a recurring descriptor
/// (more than one occurrence) must have a positive period.
#[derive(Clone, Copy, PartialEq, Eq, Debug)]
pub struct Schedule {
    /// The time of the first trigger, in the scheduler's time unit.
    pub start: u64,
    /// The interval between consecutive triggers.
    pub period: u64,
    /// How many times the callback fires.
    pub occurrences: u32,
}

impl Schedule {
    /// The scheduling service accepts exactly the well-formed descriptors.
    pub open spec fn valid(&self) -> bool {
        self.occurrences > 0 && (self.occurrences == 1 || self.period > 0)
    }

    /// Decides `valid` executably.
    pub fn is_well_formed(&self) -> (r: bool)
        ensures
            r == self.valid(),
    {
        self.occurrences > 0 && (self.occurrences == 1 || self.period > 0)
    }
}

} // verus!
