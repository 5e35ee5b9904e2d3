//! The day records, by date, and the week that is on display.

use crate::bedtime::Bedtime;
use crate::date::Date;
use crate::record::{WorkSleep, WorkSleepGoals};
use std::collections::BTreeMap;
use vstd::prelude::*;

verus! {

/// Whether some day after `date` has a record.
pub open spec fn has_record_after(records: Map<i32, WorkSleep>, date: Date) -> bool {
    exists|k: i32| #[trigger] records.contains_key(k) && k > date.days
}

/// The record of `date` as it is, or a fresh one with `goals` where the day
/// has none yet.
pub open spec fn record_or_fresh(
    records: Map<i32, WorkSleep>,
    date: Date,
    goals: WorkSleepGoals,
) -> WorkSleep {
    if records.contains_key(date.days) {
        records[date.days]
    } else {
        WorkSleep::spec_fresh(goals)
    }
}

/// `rec` with one more work period counted.
pub open spec fn with_one_more(rec: WorkSleep) -> WorkSleep {
    WorkSleep { actual_work_count: (rec.actual_work_count + 1) as i64, ..rec }
}

/// Whether one more work period can be counted for `date`.
pub open spec fn can_count_work(records: Map<i32, WorkSleep>, date: Date) -> bool {
    records.contains_key(date.days) ==> records[date.days].actual_work_count < i64::MAX
}

/// No day after `date` has a record where there are no records at all, and
/// where every day with a record is `date` or before it.
pub proof fn lemma_no_record_after(records: Map<i32, WorkSleep>, date: Date)
    requires
        forall|k: i32| records.contains_key(k) ==> k <= date.days,
    ensures
        !has_record_after(records, date),
{
}

/// The records of all days touched so far, keyed by day number, and the
/// first day of the week on display.
#[derive(Debug)]
pub struct WorkSleepData {
    week_start: Date,
    data: BTreeMap<i32, WorkSleep>,
    /// The greatest day number that has a record.
    latest: Option<i32>,
}

impl WorkSleepData {
    /// The greatest day number on record is kept beside the records.
    pub closed spec fn wf(&self) -> bool {
        match self.latest {
            Some(k) => self.data@.contains_key(k) && forall|j: i32|
                self.data@.contains_key(j) ==> j <= k,
            None => forall|j: i32| !self.data@.contains_key(j),
        }
    }

    /// The records, by day number.
    pub closed spec fn records(&self) -> Map<i32, WorkSleep> {
        self.data@
    }

    /// The first day of the week on display.
    pub closed spec fn spec_week_start(&self) -> Date {
        self.week_start
    }

    /// The entry of the week on display `i` days after its first day.
    pub open spec fn week_entry(&self, i: int) -> (Date, Option<WorkSleep>) {
        let days = (self.spec_week_start().days + i) as i32;
        (
            Date { days },
            if self.records().contains_key(days) {
                Some(self.records()[days])
            } else {
                None
            },
        )
    }

    /// A store without records, showing the week from `week_start`.
    pub fn new(week_start: Date) -> (r: Self)
        ensures
            r.wf(),
            r.records() == Map::<i32, WorkSleep>::empty(),
            r.spec_week_start() == week_start,
    {
        WorkSleepData { week_start, data: BTreeMap::new(), latest: None }
    }

    #[verifier::when_used_as_spec(spec_week_start)]
    pub fn week_start(&self) -> (r: Date)
        ensures
            r == self.spec_week_start(),
    {
        self.week_start
    }

    /// The record of `date`, where it has one.
    pub fn get(&self, date: &Date) -> (r: Option<WorkSleep>)
        ensures
            r == (if self.records().contains_key(date.days) {
                Some(self.records()[date.days])
            } else {
                None
            }),
    {
        match self.data.get(&date.days) {
            Some(rec) => Some(*rec),
            None => None,
        }
    }

    /// Stores `rec` as the record of `date`, in place of any it had.
    fn put(&mut self, date: &Date, rec: WorkSleep)
        requires
            old(self).wf(),
        ensures
            final(self).wf(),
            final(self).records() == old(self).records().insert(date.days, rec),
            final(self).spec_week_start() == old(self).spec_week_start(),
    {
        self.data.insert(date.days, rec);
        let newer: bool = match self.latest {
            Some(k) => k < date.days,
            None => true,
        };
        if newer {
            self.latest = Some(date.days);
        }
    }

    /// The record of `date`; a day without one first gets a fresh record
    /// with a copy of `goals`. A record that exists is left as it is.
    pub fn get_mut_or_create(&mut self, date: &Date, goals: &WorkSleepGoals) -> (r: WorkSleep)
        requires
            old(self).wf(),
        ensures
            final(self).wf(),
            r == record_or_fresh(old(self).records(), *date, *goals),
            final(self).records() == old(self).records().insert(date.days, r),
            old(self).records().contains_key(date.days) ==> final(self).records() == old(
                self,
            ).records(),
            final(self).spec_week_start() == old(self).spec_week_start(),
    {
        match self.get(date) {
            Some(rec) => {
                assert(self.records().insert(date.days, rec) =~= self.records());
                rec
            },
            None => {
                let rec = WorkSleep::fresh(goals);
                self.put(date, rec);
                rec
            },
        }
    }

    /// Gives the record of `date` a fresh copy of `goals`, creating the
    /// record where the day has none. What was achieved that day stays, and
    /// so does every other day's record.
    pub fn resync_goals(&mut self, date: &Date, goals: &WorkSleepGoals)
        requires
            old(self).wf(),
        ensures
            final(self).wf(),
            final(self).records() == old(self).records().insert(
                date.days,
                WorkSleep { goals: *goals, ..record_or_fresh(old(self).records(), *date, *goals) },
            ),
            final(self).records()[date.days].actual_work_count == record_or_fresh(
                old(self).records(),
                *date,
                *goals,
            ).actual_work_count,
            final(self).records()[date.days].actual_bedtime == record_or_fresh(
                old(self).records(),
                *date,
                *goals,
            ).actual_bedtime,
            forall|k: i32|
                k != date.days ==> (final(self).records().contains_key(k) <==> old(
                    self,
                ).records().contains_key(k)) && final(self).records()[k] == old(self).records()[k],
            final(self).spec_week_start() == old(self).spec_week_start(),
    {
        let rec = self.get_mut_or_create(date, goals);
        self.put(
            date,
            WorkSleep {
                goals: *goals,
                actual_work_count: rec.actual_work_count,
                actual_bedtime: rec.actual_bedtime,
            },
        );
        assert(self.records() =~= old(self).records().insert(
            date.days,
            WorkSleep { goals: *goals, ..rec },
        ));
    }

    /// Counts one more finished work period for `date`, creating the record
    /// with a copy of `goals` where the day has none.
    pub fn add_work(&mut self, date: &Date, goals: &WorkSleepGoals)
        requires
            old(self).wf(),
            can_count_work(old(self).records(), *date),
        ensures
            final(self).wf(),
            final(self).records() == old(self).records().insert(
                date.days,
                with_one_more(record_or_fresh(old(self).records(), *date, *goals)),
            ),
            final(self).spec_week_start() == old(self).spec_week_start(),
    {
        let rec = self.get_mut_or_create(date, goals);
        self.put(
            date,
            WorkSleep {
                goals: rec.goals,
                actual_work_count: rec.actual_work_count + 1,
                actual_bedtime: rec.actual_bedtime,
            },
        );
        assert(self.records() =~= old(self).records().insert(date.days, with_one_more(rec)));
    }

    /// Records `bedtime` as the bedtime of `date`, creating the record with
    /// a copy of `goals` where the day has none.
    pub fn set_bedtime(&mut self, date: &Date, goals: &WorkSleepGoals, bedtime: Bedtime)
        requires
            old(self).wf(),
        ensures
            final(self).wf(),
            final(self).records() == old(self).records().insert(
                date.days,
                WorkSleep {
                    actual_bedtime: Some(bedtime),
                    ..record_or_fresh(old(self).records(), *date, *goals)
                },
            ),
            final(self).spec_week_start() == old(self).spec_week_start(),
    {
        let rec = self.get_mut_or_create(date, goals);
        self.put(
            date,
            WorkSleep {
                goals: rec.goals,
                actual_work_count: rec.actual_work_count,
                actual_bedtime: Some(bedtime),
            },
        );
        assert(self.records() =~= old(self).records().insert(
            date.days,
            WorkSleep { actual_bedtime: Some(bedtime), ..rec },
        ));
    }

    /// The seven days of the week on display, in order, each with its
    /// record where it has one.
    pub fn get_current_week(&self) -> (week: Vec<(Date, Option<WorkSleep>)>)
        requires
            self.spec_week_start().can_shift(6),
        ensures
            week@.len() == 7,
            forall|i: int| 0 <= i < 7 ==> week@[i] == #[trigger] self.week_entry(i),
    {
        let mut week: Vec<(Date, Option<WorkSleep>)> = Vec::new();
        let mut i: i32 = 0;
        while i < 7
            invariant
                0 <= i <= 7,
                self.spec_week_start().can_shift(6),
                week@.len() == i,
                forall|j: int| 0 <= j < i ==> week@[j] == #[trigger] self.week_entry(j),
            decreases 7 - i,
        {
            let current = self.week_start.plus_days(i);
            let rec = self.get(&current);
            week.push((current, rec));
            i = i + 1;
        }
        week
    }

    /// Chooses the week to display for `current_date`: where no later day
    /// has a record the week ends on `current_date`; where one has, the week
    /// has `current_date` in the middle.
    pub fn set_week_start(&mut self, current_date: &Date)
        requires
            old(self).wf(),
            current_date.can_shift(-6),
        ensures
            final(self).wf(),
            final(self).spec_week_start().days == current_date.days - (if has_record_after(
                old(self).records(),
                *current_date,
            ) {
                3int
            } else {
                6int
            }),
            final(self).records() == old(self).records(),
    {
        let is_latest: bool = match self.latest {
            Some(last_date) => last_date <= current_date.days,
            None => true,
        };
        proof {
            if is_latest {
                assert forall|k: i32| #[trigger] self.records().contains_key(k) implies k
                    <= current_date.days by {
                    assert(self.data@.contains_key(k));
                }
            } else {
                assert(self.records().contains_key(self.latest->0));
            }
        }
        assert(is_latest <==> !has_record_after(self.records(), *current_date));
        self.week_start = if is_latest {
            current_date.plus_days(-6)
        } else {
            current_date.plus_days(-3)
        };
    }

    /// Whether the week on display can move `n` days.
    pub open spec fn can_move_week(&self, n: int) -> bool {
        self.spec_week_start().can_shift(n)
    }

    /// Moves the week on display seven days on.
    pub fn advance_week(&mut self)
        requires
            old(self).wf(),
            old(self).can_move_week(7),
        ensures
            final(self).wf(),
            final(self).spec_week_start().days == old(self).spec_week_start().days + 7,
            final(self).records() == old(self).records(),
    {
        self.week_start = self.week_start.plus_days(7);
    }

    /// Moves the week on display seven days back.
    pub fn retreat_week(&mut self)
        requires
            old(self).wf(),
            old(self).can_move_week(-7),
        ensures
            final(self).wf(),
            final(self).spec_week_start().days == old(self).spec_week_start().days - 7,
            final(self).records() == old(self).records(),
    {
        self.week_start = self.week_start.plus_days(-7);
    }
}

} // verus!
