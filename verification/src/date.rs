//! Calendar dates as day numbers.

use vstd::prelude::*;

verus! {

/// A calendar date, held as its day number in the proleptic Gregorian
/// calendar: day 1 is the first of January of the year 1.
#[derive(Clone, Copy, Debug, PartialEq, Eq, Structural)]
pub struct Date {
    pub days: i32,
}

impl Date {
    /// The date with the given day number.
    pub fn from_days(days: i32) -> (r: Date)
        ensures
            r.days == days,
    {
        Date { days }
    }

    /// Whether the date `n` days after this one (before it, for a negative
    /// `n`) has a day number that can be held.
    pub open spec fn can_shift(&self, n: int) -> bool {
        i32::MIN <= self.days + n <= i32::MAX
    }

    /// The date `n` days after this one; before it, for a negative `n`.
    pub fn plus_days(&self, n: i32) -> (r: Date)
        requires
            self.can_shift(n as int),
        ensures
            r.days == self.days + n,
    {
        Date { days: self.days + n }
    }

    /// The date `n` days after this one, or nothing where its day number
    /// cannot be held.
    pub fn checked_plus_days(&self, n: i32) -> (r: Option<Date>)
        ensures
            r == (if self.can_shift(n as int) {
                Some(Date { days: (self.days + n) as i32 })
            } else {
                None
            }),
    {
        match self.days.checked_add(n) {
            Some(days) => Some(Date { days }),
            None => None,
        }
    }
}

} // verus!
