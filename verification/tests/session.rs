use work_sleep::text::parse_quantity;
use work_sleep::{Bedtime, Date, Msg, Session, TimeOfDay, WorkSleep, WorkSleepGoals};

fn today() -> Date {
    Date::from_days(738_000)
}

fn names(session: &Session) -> Vec<String> {
    let queue = &session.planned_work_periods;
    (0..queue.len()).map(|i| queue.get(i).unwrap().name.clone()).collect()
}

fn ids(session: &Session) -> Vec<u128> {
    let queue = &session.planned_work_periods;
    (0..queue.len()).map(|i| queue.get(i).unwrap().id).collect()
}

fn add(session: &mut Session, name: &str, quantity: &str) {
    session.update(Msg::NewTaskNameChanged(name.to_owned()));
    session.update(Msg::NewTaskQuantityChanged(quantity.to_owned()));
    session.update(Msg::AddNewTask);
}

fn initial_goals() -> WorkSleepGoals {
    WorkSleepGoals {
        work_sleep_balance: 70,
        target_work_count: 6,
        target_bedtime: Bedtime { time: TimeOfDay::from_hms(11, 0, 0).unwrap(), next_day: false },
        bedtime_pts_halflife: 30,
    }
}

#[test]
fn init_state() {
    let session = Session::init(today());
    assert_eq!(session.current_date, today());
    assert_eq!(session.new_task.name, "");
    assert_eq!(session.new_task.quantity, "1");
    assert_eq!(session.current_date_bedtime.time, "");
    assert!(!session.current_date_bedtime.next_day);
    assert_eq!(session.planned_work_periods.len(), 0);
    assert_eq!(session.default_work_sleep_goals, initial_goals());
    assert_eq!(session.work_sleep_data.week_start(), Date::from_days(737_994));
    assert_eq!(session.work_sleep_data.get(&today()), None);
}

#[test]
fn add_new_task_reads_the_fields() {
    let mut session = Session::init(today());
    add(&mut session, "x", "3");
    assert_eq!(names(&session), vec!["x", "x", "x"]);
    let got = ids(&session);
    assert!(got[0] != got[1] && got[0] != got[2] && got[1] != got[2]);
    add(&mut session, "y", "+2");
    assert_eq!(names(&session), vec!["x", "x", "x", "y", "y"]);
    assert_eq!(ids(&session)[..3], got[..]);
}

#[test]
fn add_new_task_defaults_to_one() {
    let mut session = Session::init(today());
    session.update(Msg::NewTaskNameChanged("first".to_owned()));
    session.update(Msg::AddNewTask);
    assert_eq!(names(&session), vec!["first"]);
    add(&mut session, "x", "many");
    add(&mut session, "y", "");
    add(&mut session, "z", "2.5");
    add(&mut session, "w", " 2");
    assert_eq!(names(&session), vec!["first", "x", "y", "z", "w"]);
}

#[test]
fn add_new_task_with_quantity_below_one() {
    let mut session = Session::init(today());
    add(&mut session, "x", "0");
    add(&mut session, "x", "-3");
    assert_eq!(session.planned_work_periods.len(), 0);
}

#[test]
fn quantity_field() {
    assert_eq!(parse_quantity("3"), 3);
    assert_eq!(parse_quantity("+3"), 3);
    assert_eq!(parse_quantity("-3"), -3);
    assert_eq!(parse_quantity("007"), 7);
    assert_eq!(parse_quantity("9223372036854775807"), i64::MAX);
    assert_eq!(parse_quantity("-9223372036854775808"), i64::MIN);
    assert_eq!(parse_quantity("9223372036854775808"), 1);
    assert_eq!(parse_quantity(""), 1);
    assert_eq!(parse_quantity("+"), 1);
    assert_eq!(parse_quantity("-"), 1);
    assert_eq!(parse_quantity("x"), 1);
    assert_eq!(parse_quantity("3 "), 1);
    assert_eq!(parse_quantity("1_000"), 1);
    assert_eq!(parse_quantity("-0"), 0);
    assert_eq!(parse_quantity("+-3"), 1);
    assert_eq!(parse_quantity("--3"), 1);
    assert_eq!(parse_quantity("0x10"), 1);
    assert_eq!(parse_quantity("\u{ff13}"), 1);
    assert_eq!(parse_quantity("0000000000000000000000000000000000000012"), 12);
    assert_eq!(parse_quantity("-9223372036854775809"), 1);
}

#[test]
fn queue_commands() {
    let mut session = Session::init(today());
    add(&mut session, "a", "1");
    add(&mut session, "b", "1");
    add(&mut session, "c", "1");
    let id = ids(&session);
    session.update(Msg::MoveTaskToTop(id[2]));
    assert_eq!(names(&session), vec!["c", "a", "b"]);
    session.update(Msg::MoveTaskUp(id[1]));
    assert_eq!(names(&session), vec!["c", "b", "a"]);
    session.update(Msg::MoveTaskUp(id[2]));
    assert_eq!(names(&session), vec!["c", "b", "a"]);
    session.update(Msg::MoveTaskToTop(id[2]));
    assert_eq!(names(&session), vec!["c", "b", "a"]);
    session.update(Msg::DeleteTask(id[1]));
    assert_eq!(names(&session), vec!["c", "a"]);
    session.update(Msg::DeleteTask(id[1]));
    assert_eq!(names(&session), vec!["c", "a"]);
    assert_eq!(session.work_sleep_data.get(&today()), None);
}

#[test]
fn finished_top_task_counts_work() {
    let mut session = Session::init(today());
    add(&mut session, "a", "2");
    session.update(Msg::FinishedTopTask);
    assert_eq!(session.planned_work_periods.len(), 1);
    assert_eq!(
        session.work_sleep_data.get(&today()),
        Some(WorkSleep { goals: initial_goals(), actual_work_count: 1, actual_bedtime: None })
    );
    session.update(Msg::FinishedTopTask);
    assert_eq!(session.planned_work_periods.len(), 0);
    assert_eq!(session.work_sleep_data.get(&today()).unwrap().actual_work_count, 2);
}

#[test]
fn finished_top_task_on_empty_queue_counts_nothing() {
    let mut session = Session::init(today());
    session.update(Msg::FinishedTopTask);
    assert_eq!(session.planned_work_periods.len(), 0);
    assert_eq!(session.work_sleep_data.get(&today()), None);
    add(&mut session, "a", "1");
    session.update(Msg::FinishedTopTask);
    session.update(Msg::FinishedTopTask);
    assert_eq!(session.work_sleep_data.get(&today()).unwrap().actual_work_count, 1);
}

#[test]
fn set_current_date_on_latest_day_shows_the_week_before() {
    let mut session = Session::init(today());
    add(&mut session, "a", "1");
    session.update(Msg::FinishedTopTask);
    session.update(Msg::SetCurrentDate(Date::from_days(738_010)));
    assert_eq!(session.current_date, Date::from_days(738_010));
    assert_eq!(session.work_sleep_data.week_start(), Date::from_days(738_004));
    session.update(Msg::SetCurrentDate(today()));
    assert_eq!(session.work_sleep_data.week_start(), Date::from_days(737_994));
}

#[test]
fn set_current_date_in_history_shows_the_week_around() {
    let mut session = Session::init(today());
    add(&mut session, "a", "1");
    session.update(Msg::FinishedTopTask);
    session.update(Msg::SetCurrentDate(Date::from_days(737_990)));
    assert_eq!(session.current_date, Date::from_days(737_990));
    assert_eq!(session.work_sleep_data.week_start(), Date::from_days(737_987));
    let week = session.work_sleep_data.get_current_week();
    assert_eq!(week[3].0, Date::from_days(737_990));
}

#[test]
fn week_commands_move_seven_days() {
    let mut session = Session::init(today());
    session.update(Msg::ViewNextWeek);
    assert_eq!(session.work_sleep_data.week_start(), Date::from_days(738_001));
    session.update(Msg::ViewPreviousWeek);
    session.update(Msg::ViewPreviousWeek);
    assert_eq!(session.work_sleep_data.week_start(), Date::from_days(737_987));
    assert_eq!(session.current_date, today());
}

#[test]
fn set_bedtime_records_the_fields() {
    let mut session = Session::init(today());
    session.update(Msg::BedtimeTimeChanged("00:30".to_owned()));
    session.update(Msg::BedtimeNextDayChanged(true));
    assert_eq!(session.work_sleep_data.get(&today()), None);
    session.update(Msg::SetBedtime);
    let bedtime = Bedtime { time: TimeOfDay::from_hms(0, 30, 0).unwrap(), next_day: true };
    assert_eq!(
        session.work_sleep_data.get(&today()),
        Some(WorkSleep {
            goals: initial_goals(),
            actual_work_count: 0,
            actual_bedtime: Some(bedtime)
        })
    );
}

#[test]
fn set_bedtime_ignores_what_is_no_time() {
    let mut session = Session::init(today());
    session.update(Msg::SetBedtime);
    assert_eq!(session.work_sleep_data.get(&today()), None);
    session.update(Msg::BedtimeTimeChanged("22:15".to_owned()));
    session.update(Msg::SetBedtime);
    session.update(Msg::BedtimeTimeChanged("late".to_owned()));
    session.update(Msg::SetBedtime);
    session.update(Msg::BedtimeTimeChanged("25:00".to_owned()));
    session.update(Msg::SetBedtime);
    assert_eq!(
        session.work_sleep_data.get(&today()).unwrap().actual_bedtime,
        Some(Bedtime { time: TimeOfDay::from_hms(22, 15, 0).unwrap(), next_day: false })
    );
}

#[test]
fn goal_commands_set_the_goals() {
    let mut session = Session::init(today());
    session.update(Msg::SetWorkSleepBalance("40".to_owned()));
    session.update(Msg::SetTargetWorkCount("8".to_owned()));
    session.update(Msg::SetTargetBedtime("23:00".to_owned(), false));
    session.update(Msg::SetBedtimePtsHalflife("45".to_owned()));
    let goals = WorkSleepGoals {
        work_sleep_balance: 40,
        target_work_count: 8,
        target_bedtime: Bedtime { time: TimeOfDay::from_hms(23, 0, 0).unwrap(), next_day: false },
        bedtime_pts_halflife: 45,
    };
    assert_eq!(session.default_work_sleep_goals, goals);
    assert_eq!(
        session.work_sleep_data.get(&today()),
        Some(WorkSleep { goals, actual_work_count: 0, actual_bedtime: None })
    );
}

#[test]
fn goal_commands_ignore_what_is_not_allowed() {
    let mut session = Session::init(today());
    session.update(Msg::SetWorkSleepBalance("101".to_owned()));
    session.update(Msg::SetWorkSleepBalance("-1".to_owned()));
    session.update(Msg::SetWorkSleepBalance("half".to_owned()));
    session.update(Msg::SetTargetWorkCount("0".to_owned()));
    session.update(Msg::SetTargetWorkCount("".to_owned()));
    session.update(Msg::SetTargetBedtime("noon".to_owned(), true));
    session.update(Msg::SetBedtimePtsHalflife("0".to_owned()));
    session.update(Msg::SetBedtimePtsHalflife("-30".to_owned()));
    assert_eq!(session.default_work_sleep_goals, initial_goals());
    assert_eq!(session.work_sleep_data.get(&today()), None);
    session.update(Msg::SetWorkSleepBalance("0".to_owned()));
    assert_eq!(session.default_work_sleep_goals.work_sleep_balance, 0);
    session.update(Msg::SetWorkSleepBalance("100".to_owned()));
    assert_eq!(session.default_work_sleep_goals.work_sleep_balance, 100);
    session.update(Msg::SetTargetWorkCount("1".to_owned()));
    assert_eq!(session.default_work_sleep_goals.target_work_count, 1);
}

#[test]
fn goal_commands_keep_what_the_day_achieved() {
    let mut session = Session::init(today());
    add(&mut session, "a", "2");
    session.update(Msg::FinishedTopTask);
    session.update(Msg::FinishedTopTask);
    session.update(Msg::BedtimeTimeChanged("11:30".to_owned()));
    session.update(Msg::SetBedtime);
    session.update(Msg::SetWorkSleepBalance("50".to_owned()));
    let rec = session.work_sleep_data.get(&today()).unwrap();
    assert_eq!(rec.goals.work_sleep_balance, 50);
    assert_eq!(rec.actual_work_count, 2);
    assert_eq!(
        rec.actual_bedtime,
        Some(Bedtime { time: TimeOfDay::from_hms(11, 30, 0).unwrap(), next_day: false })
    );
    // 2 of 6 periods at 50 points, and one half-life off the target of 11:00.
    assert_eq!(rec.calc_score(), Some(42));
}

#[test]
fn goal_commands_leave_other_days() {
    let mut session = Session::init(today());
    add(&mut session, "a", "2");
    session.update(Msg::FinishedTopTask);
    let yesterday = session.work_sleep_data.get(&today());
    session.update(Msg::SetCurrentDate(Date::from_days(738_001)));
    session.update(Msg::FinishedTopTask);
    session.update(Msg::SetWorkSleepBalance("50".to_owned()));
    session.update(Msg::SetTargetWorkCount("2".to_owned()));
    assert_eq!(session.work_sleep_data.get(&today()), yesterday);
    assert_eq!(yesterday.unwrap().goals, initial_goals());
    let rec = session.work_sleep_data.get(&Date::from_days(738_001)).unwrap();
    assert_eq!(rec.goals, session.default_work_sleep_goals);
    assert_eq!(rec.actual_work_count, 1);
    assert_eq!(session.work_sleep_data.get(&Date::from_days(738_002)), None);
}

#[test]
fn a_new_day_gets_the_goals_of_the_moment() {
    let mut session = Session::init(today());
    session.update(Msg::SetCurrentDate(Date::from_days(738_005)));
    assert_eq!(session.work_sleep_data.get(&today()), None);
    session.update(Msg::SetWorkSleepBalance("50".to_owned()));
    session.update(Msg::SetCurrentDate(today()));
    add(&mut session, "a", "1");
    session.update(Msg::FinishedTopTask);
    assert_eq!(session.work_sleep_data.get(&today()).unwrap().goals.work_sleep_balance, 50);
}
