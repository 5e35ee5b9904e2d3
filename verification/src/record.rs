//! Goals, and the record of one calendar day.

use crate::bedtime::Bedtime;
use vstd::prelude::*;

verus! {

/// The targets that a day is scored against.
#[derive(Clone, Copy, Debug, PartialEq, Eq, Structural)]
pub struct WorkSleepGoals {
    /// The points, out of 100, that work can earn; sleep earns the rest.
    pub work_sleep_balance: i64,
    /// The number of work periods that earns all the work points.
    pub target_work_count: i64,
    pub target_bedtime: Bedtime,
    /// The minutes of deviation from the target bedtime that halve the sleep points.
    pub bedtime_pts_halflife: i64,
}

impl WorkSleepGoals {
    pub open spec fn wf(&self) -> bool {
        &&& 0 <= self.work_sleep_balance <= 100
        &&& self.target_work_count >= 0
        &&& self.bedtime_pts_halflife > 0
        &&& self.target_bedtime.wf()
    }
}

/// One calendar day: the goals it is held to, and what was achieved.
#[derive(Clone, Copy, Debug, PartialEq, Eq, Structural)]
pub struct WorkSleep {
    /// The day's own copy of the goals.
    pub goals: WorkSleepGoals,
    pub actual_work_count: i64,
    pub actual_bedtime: Option<Bedtime>,
}

impl WorkSleep {
    pub open spec fn wf(&self) -> bool {
        &&& self.goals.wf()
        &&& self.actual_work_count >= 0
        &&& match self.actual_bedtime {
            Some(b) => b.wf(),
            None => true,
        }
    }

    /// The record of a day on which nothing has happened yet.
    pub open spec fn spec_fresh(goals: WorkSleepGoals) -> WorkSleep {
        WorkSleep { goals, actual_work_count: 0, actual_bedtime: None }
    }

    /// A record with a copy of `goals`, no work done and no bedtime.
    pub fn fresh(goals: &WorkSleepGoals) -> (r: WorkSleep)
        ensures
            r == Self::spec_fresh(*goals),
    {
        WorkSleep { goals: *goals, actual_work_count: 0, actual_bedtime: None }
    }
}

} // verus!
