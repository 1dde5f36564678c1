//! Calendar dates as the tracker stores them.

use vstd::prelude::*;

verus! {

/// A day, a month and a year, kept as entered: no calendar rule is applied,
/// so day 32 or month 0 are as good as any other value.
#[derive(Clone, Copy, PartialEq, Eq, Debug, Structural)]
pub struct Date {
    pub day: usize,
    pub month: usize,
    pub year: usize,
}

impl Date {
    /// The date of a goal or log entry that has none yet: all three parts zero.
    pub open spec fn spec_zero() -> Date {
        Date { day: 0, month: 0, year: 0 }
    }

    /// The date with all three parts zero.
    #[verifier::when_used_as_spec(spec_zero)]
    pub fn zero() -> (date: Date)
        ensures
            date == Date::spec_zero(),
    {
        Date { day: 0, month: 0, year: 0 }
    }
}

} // verus!
