//! The session: the day being edited, the input fields, the queue, the
//! goals and the day records, and the commands that change them.

use crate::bedtime::{Bedtime, TimeOfDay};
use crate::date::Date;
use crate::queue::{
    spec_enqueued, spec_move_to_front, spec_move_up, spec_remove, Period, TaskQueue,
};
use crate::record::{WorkSleep, WorkSleepGoals};
use crate::store::{
    can_count_work, has_record_after, lemma_no_record_after, record_or_fresh, with_one_more,
    WorkSleepData,
};
use crate::text::{parse_i64, parse_quantity, spec_parse_i64, spec_quantity};
use vstd::prelude::*;

verus! {

/// The input fields for a new task.
#[derive(Debug)]
pub struct NewTask {
    pub name: String,
    /// The number of periods to add, as typed.
    pub quantity: String,
}

/// The input fields for the bedtime of the current date.
#[derive(Debug)]
pub struct BedtimeInput {
    /// The time of day, as typed.
    pub time: String,
    pub next_day: bool,
}

/// A command from the user.
#[derive(Debug)]
pub enum Msg {
    SetCurrentDate(Date),
    AddNewTask,
    DeleteTask(u128),
    MoveTaskToTop(u128),
    MoveTaskUp(u128),
    FinishedTopTask,
    NewTaskNameChanged(String),
    NewTaskQuantityChanged(String),
    BedtimeTimeChanged(String),
    BedtimeNextDayChanged(bool),
    SetBedtime,
    ViewNextWeek,
    ViewPreviousWeek,
    SetWorkSleepBalance(String),
    SetTargetWorkCount(String),
    SetTargetBedtime(String, bool),
    SetBedtimePtsHalflife(String),
}

/// The whole state of the tracker.
#[derive(Debug)]
pub struct Session {
    /// The day that is being edited.
    pub current_date: Date,
    pub new_task: NewTask,
    pub current_date_bedtime: BedtimeInput,
    pub planned_work_periods: TaskQueue,
    /// The goals that a day gets when its record is made.
    pub default_work_sleep_goals: WorkSleepGoals,
    pub work_sleep_data: WorkSleepData,
}

/// What a session holds, as mathematical values.
#[verifier::ext_equal]
pub struct SessionView {
    pub current_date: Date,
    pub new_task_name: Seq<char>,
    pub new_task_quantity: Seq<char>,
    pub bedtime_text: Seq<char>,
    pub bedtime_next_day: bool,
    pub queue: Seq<Period>,
    pub goals: WorkSleepGoals,
    pub week_start: Date,
    pub records: Map<i32, WorkSleep>,
}

/// Goals that a day can be scored against: well-formed, with a target of at
/// least one work period.
pub open spec fn scorable(goals: WorkSleepGoals) -> bool {
    goals.wf() && goals.target_work_count >= 1
}

impl SessionView {
    /// The goals, and the goals of every record, can be scored against, and
    /// every record is well-formed.
    pub open spec fn wf(self) -> bool {
        &&& scorable(self.goals)
        &&& forall|k: i32| #[trigger]
            self.records.contains_key(k) ==> self.records[k].wf() && scorable(
                self.records[k].goals,
            )
    }

    /// The record of the current date, or a fresh one where it has none.
    pub open spec fn current_record(self) -> WorkSleep {
        record_or_fresh(self.records, self.current_date, self.goals)
    }

    /// This state with `rec` as the record of the current date.
    pub open spec fn with_current_record(self, rec: WorkSleep) -> SessionView {
        SessionView { records: self.records.insert(self.current_date.days, rec), ..self }
    }

    /// This state with `goals` as the goals, and as the goals of the current
    /// date's record, which is made where there is none. No other day's
    /// record changes.
    pub open spec fn with_goals(self, goals: WorkSleepGoals) -> SessionView {
        SessionView {
            goals,
            records: self.records.insert(
                self.current_date.days,
                WorkSleep { goals, ..record_or_fresh(self.records, self.current_date, goals) },
            ),
            ..self
        }
    }

    /// The current date becomes `date`. The week on display ends on `date`
    /// where no later day has a record, and has `date` in the middle where
    /// one has.
    pub open spec fn set_current_date(self, date: Date) -> SessionView {
        SessionView {
            current_date: date,
            week_start: Date {
                days: (date.days - if has_record_after(self.records, date) {
                    3int
                } else {
                    6int
                }) as i32,
            },
            ..self
        }
    }

    /// Whether `post` is this state with `count` periods added at the back
    /// of the queue, named as the name field says; none for a `count` below
    /// one.
    pub open spec fn adds_tasks(self, count: i64, post: SessionView) -> bool {
        &&& post == SessionView { queue: post.queue, ..self }
        &&& exists|ids: Seq<u128>|
            ids.len() == (if count > 0 {
                count as int
            } else {
                0
            }) && #[trigger] spec_enqueued(self.queue, post.queue, self.new_task_name, ids)
    }

    pub open spec fn delete_task(self, id: u128) -> SessionView {
        SessionView { queue: spec_remove(self.queue, id), ..self }
    }

    pub open spec fn move_task_to_top(self, id: u128) -> SessionView {
        SessionView { queue: spec_move_to_front(self.queue, id), ..self }
    }

    pub open spec fn move_task_up(self, id: u128) -> SessionView {
        SessionView { queue: spec_move_up(self.queue, id), ..self }
    }

    /// The head leaves the queue and the current date counts one more work
    /// period. With an empty queue nothing changes.
    pub open spec fn finish_top_task(self) -> SessionView {
        if self.queue.len() > 0 {
            SessionView {
                queue: self.queue.subrange(1, self.queue.len() as int),
                ..self.with_current_record(with_one_more(self.current_record()))
            }
        } else {
            self
        }
    }

    /// The current date gets the bedtime `time`, on the next day or not as
    /// the bedtime fields say. Without a time nothing changes.
    pub open spec fn record_bedtime(self, time: Option<TimeOfDay>) -> SessionView {
        match time {
            Some(time) => self.with_current_record(
                WorkSleep {
                    actual_bedtime: Some(Bedtime { time, next_day: self.bedtime_next_day }),
                    ..self.current_record()
                },
            ),
            None => self,
        }
    }

    pub open spec fn view_next_week(self) -> SessionView {
        SessionView { week_start: Date { days: (self.week_start.days + 7) as i32 }, ..self }
    }

    pub open spec fn view_previous_week(self) -> SessionView {
        SessionView { week_start: Date { days: (self.week_start.days - 7) as i32 }, ..self }
    }

    /// The work points become `value` where it is a number from 0 to 100;
    /// otherwise nothing changes.
    pub open spec fn set_work_sleep_balance(self, value: Option<i64>) -> SessionView {
        match value {
            Some(v) => if 0 <= v <= 100 {
                self.with_goals(WorkSleepGoals { work_sleep_balance: v, ..self.goals })
            } else {
                self
            },
            None => self,
        }
    }

    /// The target becomes `value` where it is a number of at least one;
    /// otherwise nothing changes.
    pub open spec fn set_target_work_count(self, value: Option<i64>) -> SessionView {
        match value {
            Some(v) => if v >= 1 {
                self.with_goals(WorkSleepGoals { target_work_count: v, ..self.goals })
            } else {
                self
            },
            None => self,
        }
    }

    /// The target bedtime becomes `time`, on the next day or not as
    /// `next_day` says. Without a time nothing changes.
    pub open spec fn set_target_bedtime(self, time: Option<TimeOfDay>, next_day: bool)
        -> SessionView {
        match time {
            Some(time) => self.with_goals(
                WorkSleepGoals { target_bedtime: Bedtime { time, next_day }, ..self.goals },
            ),
            None => self,
        }
    }

    /// The half-life becomes `value` where it is a number of at least one;
    /// otherwise nothing changes.
    pub open spec fn set_bedtime_pts_halflife(self, value: Option<i64>) -> SessionView {
        match value {
            Some(v) => if v >= 1 {
                self.with_goals(WorkSleepGoals { bedtime_pts_halflife: v, ..self.goals })
            } else {
                self
            },
            None => self,
        }
    }

    /// Whether `msg` can be carried out within the limits of the machine's
    /// numbers: the dates it leads to have day numbers that can be held, and
    /// the work count of the current date can grow by one.
    pub open spec fn accepts(self, msg: Msg) -> bool {
        match msg {
            Msg::SetCurrentDate(date) => date.can_shift(-6),
            Msg::FinishedTopTask => self.queue.len() > 0 ==> can_count_work(
                self.records,
                self.current_date,
            ),
            Msg::ViewNextWeek => self.week_start.can_shift(7),
            Msg::ViewPreviousWeek => self.week_start.can_shift(-7),
            _ => true,
        }
    }

    /// Whether `post` is the state that `msg` leads to from this one.
    pub open spec fn steps(self, msg: Msg, post: SessionView) -> bool {
        match msg {
            Msg::SetCurrentDate(date) => post == self.set_current_date(date),
            Msg::AddNewTask => self.adds_tasks(
                spec_quantity(spec_parse_i64(self.new_task_quantity)),
                post,
            ),
            Msg::DeleteTask(id) => post == self.delete_task(id),
            Msg::MoveTaskToTop(id) => post == self.move_task_to_top(id),
            Msg::MoveTaskUp(id) => post == self.move_task_up(id),
            Msg::FinishedTopTask => post == self.finish_top_task(),
            Msg::NewTaskNameChanged(name) => post == SessionView { new_task_name: name@, ..self },
            Msg::NewTaskQuantityChanged(quantity) => post == SessionView {
                new_task_quantity: quantity@,
                ..self
            },
            Msg::BedtimeTimeChanged(time) => post == SessionView { bedtime_text: time@, ..self },
            Msg::BedtimeNextDayChanged(next_day) => post == SessionView {
                bedtime_next_day: next_day,
                ..self
            },
            Msg::SetBedtime => post == self.record_bedtime(
                TimeOfDay::spec_parse(self.bedtime_text),
            ),
            Msg::ViewNextWeek => post == self.view_next_week(),
            Msg::ViewPreviousWeek => post == self.view_previous_week(),
            Msg::SetWorkSleepBalance(text) => post == self.set_work_sleep_balance(
                spec_parse_i64(text@),
            ),
            Msg::SetTargetWorkCount(text) => post == self.set_target_work_count(
                spec_parse_i64(text@),
            ),
            Msg::SetTargetBedtime(text, next_day) => post == self.set_target_bedtime(
                TimeOfDay::spec_parse(text@),
                next_day,
            ),
            Msg::SetBedtimePtsHalflife(text) => post == self.set_bedtime_pts_halflife(
                spec_parse_i64(text@),
            ),
        }
    }
}

/// Where no day after `date` has a record, and so where there is no record
/// at all, making `date` the current date shows the week that ends on it.
pub proof fn lemma_week_ends_on_latest_day(pre: SessionView, date: Date)
    requires
        date.can_shift(-6),
        forall|k: i32| pre.records.contains_key(k) ==> k <= date.days,
    ensures
        pre.set_current_date(date).week_start.days == date.days - 6,
{
    lemma_no_record_after(pre.records, date);
}

/// Where a day after `date` has a record, making `date` the current date
/// shows the week with `date` in the middle.
pub proof fn lemma_week_centres_within_history(pre: SessionView, date: Date, later: i32)
    requires
        date.can_shift(-6),
        pre.records.contains_key(later),
        later > date.days,
    ensures
        pre.set_current_date(date).week_start.days == date.days - 3,
{
}

/// A change of goals reaches the record of the current date and no other:
/// every other day has a record after it exactly where it had one before,
/// and the same one.
pub proof fn lemma_goals_reach_current_date_only(pre: SessionView, goals: WorkSleepGoals, k: i32)
    requires
        k != pre.current_date.days,
    ensures
        pre.with_goals(goals).records.contains_key(k) == pre.records.contains_key(k),
        pre.with_goals(goals).records[k] == pre.records[k],
{
}

/// A change of goals leaves what the current date has achieved as it was:
/// its work count and its bedtime, or none of either where it had no record.
pub proof fn lemma_goals_keep_achievements(pre: SessionView, goals: WorkSleepGoals)
    ensures
        pre.with_goals(goals).records.contains_key(pre.current_date.days),
        pre.with_goals(goals).records[pre.current_date.days].goals == goals,
        pre.with_goals(goals).records[pre.current_date.days].actual_work_count
            == pre.current_record().actual_work_count,
        pre.with_goals(goals).records[pre.current_date.days].actual_bedtime
            == pre.current_record().actual_bedtime,
{
}

/// No command that sets a goal changes the record of a day other than the
/// current date.
pub proof fn lemma_goal_commands_keep_other_days(
    pre: SessionView,
    msg: Msg,
    post: SessionView,
    k: i32,
)
    requires
        pre.steps(msg, post),
        msg is SetWorkSleepBalance || msg is SetTargetWorkCount || msg is SetTargetBedtime
            || msg is SetBedtimePtsHalflife,
        k != pre.current_date.days,
    ensures
        post.records.contains_key(k) == pre.records.contains_key(k),
        post.records[k] == pre.records[k],
{
}

/// Finishing the top task with an empty queue changes nothing: no work is
/// counted and no record is made.
pub proof fn lemma_finish_on_empty_queue(pre: SessionView)
    requires
        pre.queue.len() == 0,
    ensures
        pre.finish_top_task() == pre,
{
}

/// Every state that a command leads to from a well-formed state, within
/// the limits of the machine's numbers, is well-formed.
pub proof fn lemma_steps_keep_wf(pre: SessionView, msg: Msg, post: SessionView)
    requires
        pre.wf(),
        pre.accepts(msg),
        pre.steps(msg, post),
    ensures
        post.wf(),
{
}

/// The goals that a session starts with: 70 points for work, six work
/// periods, bed at 11:00, and a half-life of 30 minutes.
pub open spec fn spec_initial_goals() -> WorkSleepGoals {
    WorkSleepGoals {
        work_sleep_balance: 70,
        target_work_count: 6,
        target_bedtime: Bedtime { time: TimeOfDay { secs: 39_600 }, next_day: false },
        bedtime_pts_halflife: 30,
    }
}

/// The state that a session starts in on `current_date`.
pub open spec fn spec_init(current_date: Date) -> SessionView {
    SessionView {
        current_date,
        new_task_name: Seq::empty(),
        new_task_quantity: "1"@,
        bedtime_text: Seq::empty(),
        bedtime_next_day: false,
        queue: Seq::empty(),
        goals: spec_initial_goals(),
        week_start: Date { days: (current_date.days - 6) as i32 },
        records: Map::empty(),
    }
}

impl View for Session {
    type V = SessionView;

    open spec fn view(&self) -> SessionView {
        SessionView {
            current_date: self.current_date,
            new_task_name: self.new_task.name@,
            new_task_quantity: self.new_task.quantity@,
            bedtime_text: self.current_date_bedtime.time@,
            bedtime_next_day: self.current_date_bedtime.next_day,
            queue: self.planned_work_periods@,
            goals: self.default_work_sleep_goals,
            week_start: self.work_sleep_data.spec_week_start(),
            records: self.work_sleep_data.records(),
        }
    }
}

impl Session {
    pub open spec fn wf(&self) -> bool {
        self.work_sleep_data.wf() && self@.wf()
    }

    /// A new session on `current_date`: an empty queue, no records, the
    /// quantity field at one, and the week that ends on `current_date`.
    pub fn init(current_date: Date) -> (r: Session)
        requires
            current_date.can_shift(-6),
        ensures
            r.wf(),
            r@ == spec_init(current_date),
    {
        let r = Session {
            current_date,
            new_task: NewTask { name: String::new(), quantity: "1".to_owned() },
            current_date_bedtime: BedtimeInput { time: String::new(), next_day: false },
            planned_work_periods: TaskQueue::new(),
            default_work_sleep_goals: WorkSleepGoals {
                work_sleep_balance: 70,
                target_work_count: 6,
                target_bedtime: Bedtime { time: TimeOfDay { secs: 39_600 }, next_day: false },
                bedtime_pts_halflife: 30,
            },
            work_sleep_data: WorkSleepData::new(current_date.plus_days(-6)),
        };
        assert(r@ =~= spec_init(current_date));
        r
    }

    /// Makes `date` the current date and chooses the week to display for it.
    pub fn set_current_date(&mut self, date: Date)
        requires
            old(self).wf(),
            date.can_shift(-6),
        ensures
            final(self).wf(),
            final(self)@ == old(self)@.set_current_date(date),
    {
        self.current_date = date;
        self.work_sleep_data.set_week_start(&date);
        assert(self@ =~= old(self)@.set_current_date(date));
    }

    /// Adds `count` periods, named as the name field says, at the back of
    /// the queue.
    pub fn add_tasks(&mut self, count: i64)
        requires
            old(self).wf(),
        ensures
            final(self).wf(),
            old(self)@.adds_tasks(count, final(self)@),
    {
        self.planned_work_periods.enqueue_many(self.new_task.name.as_str(), count);
        proof {
            let added = if count > 0 {
                count as int
            } else {
                0
            };
            let ids = choose|ids: Seq<u128>|
                ids.len() == added && #[trigger] spec_enqueued(
                    old(self).planned_work_periods@,
                    self.planned_work_periods@,
                    self.new_task.name@,
                    ids,
                );
            assert(spec_enqueued(old(self)@.queue, self@.queue, old(self)@.new_task_name, ids));
            assert(self@ =~= SessionView { queue: self@.queue, ..old(self)@ });
        }
    }

    /// Takes every period that has `id` out of the queue.
    pub fn delete_task(&mut self, id: u128)
        requires
            old(self).wf(),
        ensures
            final(self).wf(),
            final(self)@ == old(self)@.delete_task(id),
    {
        self.planned_work_periods.remove(id);
        assert(self@ =~= old(self)@.delete_task(id));
    }

    /// Moves the first period that has `id` to the head of the queue.
    pub fn move_task_to_top(&mut self, id: u128)
        requires
            old(self).wf(),
        ensures
            final(self).wf(),
            final(self)@ == old(self)@.move_task_to_top(id),
    {
        self.planned_work_periods.move_to_front(id);
        assert(self@ =~= old(self)@.move_task_to_top(id));
    }

    /// Moves the first period that has `id` one place towards the head.
    pub fn move_task_up(&mut self, id: u128)
        requires
            old(self).wf(),
        ensures
            final(self).wf(),
            final(self)@ == old(self)@.move_task_up(id),
    {
        self.planned_work_periods.move_up(id);
        assert(self@ =~= old(self)@.move_task_up(id));
    }

    /// Finishes the current period: it leaves the queue, and the current
    /// date counts one more. Nothing is counted where the queue is empty.
    pub fn finish_top_task(&mut self)
        requires
            old(self).wf(),
            old(self)@.queue.len() > 0 ==> can_count_work(
                old(self)@.records,
                old(self)@.current_date,
            ),
        ensures
            final(self).wf(),
            final(self)@ == old(self)@.finish_top_task(),
            old(self)@.queue.len() == 0 ==> final(self)@ == old(self)@,
    {
        match self.planned_work_periods.complete_front() {
            Some(_) => {
                let date = self.current_date;
                let goals = self.default_work_sleep_goals;
                self.work_sleep_data.add_work(&date, &goals);
                assert(self@ =~= old(self)@.finish_top_task());
            },
            None => {
                assert(self@ =~= old(self)@);
            },
        }
    }

    /// Records `time` as the bedtime of the current date, with the next-day
    /// mark of the bedtime fields; without a time it does nothing.
    pub fn record_bedtime(&mut self, time: Option<TimeOfDay>)
        requires
            old(self).wf(),
            time matches Some(t) ==> t.wf(),
        ensures
            final(self).wf(),
            final(self)@ == old(self)@.record_bedtime(time),
    {
        match time {
            Some(time) => {
                let date = self.current_date;
                let goals = self.default_work_sleep_goals;
                let bedtime = Bedtime { time, next_day: self.current_date_bedtime.next_day };
                self.work_sleep_data.set_bedtime(&date, &goals, bedtime);
                assert(self@ =~= old(self)@.record_bedtime(Some(time)));
            },
            None => {},
        }
    }

    /// Shows the week after the one on display.
    pub fn view_next_week(&mut self)
        requires
            old(self).wf(),
            old(self)@.week_start.can_shift(7),
        ensures
            final(self).wf(),
            final(self)@ == old(self)@.view_next_week(),
    {
        self.work_sleep_data.advance_week();
        assert(self@ =~= old(self)@.view_next_week());
    }

    /// Shows the week before the one on display.
    pub fn view_previous_week(&mut self)
        requires
            old(self).wf(),
            old(self)@.week_start.can_shift(-7),
        ensures
            final(self).wf(),
            final(self)@ == old(self)@.view_previous_week(),
    {
        self.work_sleep_data.retreat_week();
        assert(self@ =~= old(self)@.view_previous_week());
    }

    /// Makes `goals` the goals of the session and of the current date.
    fn apply_goals(&mut self, goals: WorkSleepGoals)
        requires
            old(self).wf(),
            scorable(goals),
        ensures
            final(self).wf(),
            final(self)@ == old(self)@.with_goals(goals),
    {
        let date = self.current_date;
        self.default_work_sleep_goals = goals;
        self.work_sleep_data.resync_goals(&date, &goals);
        assert(self@ =~= old(self)@.with_goals(goals));
    }

    /// Sets the points that work can earn, where `value` is a number from 0
    /// to 100, and gives the current date the new goals.
    pub fn set_work_sleep_balance(&mut self, value: Option<i64>)
        requires
            old(self).wf(),
        ensures
            final(self).wf(),
            final(self)@ == old(self)@.set_work_sleep_balance(value),
    {
        match value {
            Some(v) => {
                if 0 <= v && v <= 100 {
                    let goals = WorkSleepGoals {
                        work_sleep_balance: v,
                        ..self.default_work_sleep_goals
                    };
                    self.apply_goals(goals);
                }
            },
            None => {},
        }
    }

    /// Sets the target number of work periods, where `value` is a number of
    /// at least one, and gives the current date the new goals.
    pub fn set_target_work_count(&mut self, value: Option<i64>)
        requires
            old(self).wf(),
        ensures
            final(self).wf(),
            final(self)@ == old(self)@.set_target_work_count(value),
    {
        match value {
            Some(v) => {
                if v >= 1 {
                    let goals = WorkSleepGoals {
                        target_work_count: v,
                        ..self.default_work_sleep_goals
                    };
                    self.apply_goals(goals);
                }
            },
            None => {},
        }
    }

    /// Sets the target bedtime, where there is a `time`, and gives the
    /// current date the new goals.
    pub fn set_target_bedtime(&mut self, time: Option<TimeOfDay>, next_day: bool)
        requires
            old(self).wf(),
            time matches Some(t) ==> t.wf(),
        ensures
            final(self).wf(),
            final(self)@ == old(self)@.set_target_bedtime(time, next_day),
    {
        match time {
            Some(time) => {
                let goals = WorkSleepGoals {
                    target_bedtime: Bedtime { time, next_day },
                    ..self.default_work_sleep_goals
                };
                self.apply_goals(goals);
            },
            None => {},
        }
    }

    /// Sets the half-life of the sleep points, where `value` is a number of
    /// at least one, and gives the current date the new goals.
    pub fn set_bedtime_pts_halflife(&mut self, value: Option<i64>)
        requires
            old(self).wf(),
        ensures
            final(self).wf(),
            final(self)@ == old(self)@.set_bedtime_pts_halflife(value),
    {
        match value {
            Some(v) => {
                if v >= 1 {
                    let goals = WorkSleepGoals {
                        bedtime_pts_halflife: v,
                        ..self.default_work_sleep_goals
                    };
                    self.apply_goals(goals);
                }
            },
            None => {},
        }
    }

    /// Carries out one command.
    pub fn update(&mut self, msg: Msg)
        requires
            old(self).wf(),
            old(self)@.accepts(msg),
        ensures
            final(self).wf(),
            old(self)@.steps(msg, final(self)@),
    {
        match msg {
            Msg::SetCurrentDate(date) => {
                self.set_current_date(date);
            },
            Msg::AddNewTask => {
                let quantity: i64 = parse_quantity(self.new_task.quantity.as_str());
                self.add_tasks(quantity);
            },
            Msg::DeleteTask(id) => {
                self.delete_task(id);
            },
            Msg::MoveTaskToTop(id) => {
                self.move_task_to_top(id);
            },
            Msg::MoveTaskUp(id) => {
                self.move_task_up(id);
            },
            Msg::FinishedTopTask => {
                self.finish_top_task();
            },
            Msg::NewTaskNameChanged(name) => {
                self.new_task.name = name;
                assert(self@ =~= SessionView { new_task_name: name@, ..old(self)@ });
            },
            Msg::NewTaskQuantityChanged(quantity) => {
                self.new_task.quantity = quantity;
                assert(self@ =~= SessionView { new_task_quantity: quantity@, ..old(self)@ });
            },
            Msg::BedtimeTimeChanged(time) => {
                self.current_date_bedtime.time = time;
                assert(self@ =~= SessionView { bedtime_text: time@, ..old(self)@ });
            },
            Msg::BedtimeNextDayChanged(next_day) => {
                self.current_date_bedtime.next_day = next_day;
                assert(self@ =~= SessionView { bedtime_next_day: next_day, ..old(self)@ });
            },
            Msg::SetBedtime => {
                let time = TimeOfDay::parse(self.current_date_bedtime.time.as_str());
                self.record_bedtime(time);
            },
            Msg::ViewNextWeek => {
                self.view_next_week();
            },
            Msg::ViewPreviousWeek => {
                self.view_previous_week();
            },
            Msg::SetWorkSleepBalance(text) => {
                self.set_work_sleep_balance(parse_i64(text.as_str()));
            },
            Msg::SetTargetWorkCount(text) => {
                self.set_target_work_count(parse_i64(text.as_str()));
            },
            Msg::SetTargetBedtime(text, next_day) => {
                self.set_target_bedtime(TimeOfDay::parse(text.as_str()), next_day);
            },
            Msg::SetBedtimePtsHalflife(text) => {
                self.set_bedtime_pts_halflife(parse_i64(text.as_str()));
            },
        }
    }
}

} // verus!
