use work_sleep::{Bedtime, Date, TimeOfDay, WorkSleep, WorkSleepData, WorkSleepGoals};

fn goals(balance: i64) -> WorkSleepGoals {
    WorkSleepGoals {
        work_sleep_balance: balance,
        target_work_count: 6,
        target_bedtime: Bedtime { time: TimeOfDay::from_hms(23, 0, 0).unwrap(), next_day: false },
        bedtime_pts_halflife: 30,
    }
}

fn late() -> Bedtime {
    Bedtime { time: TimeOfDay::from_hms(0, 30, 0).unwrap(), next_day: true }
}

#[test]
fn new_store_is_empty() {
    let store = WorkSleepData::new(Date::from_days(100));
    assert_eq!(store.week_start(), Date::from_days(100));
    assert_eq!(store.get(&Date::from_days(100)), None);
}

#[test]
fn get_or_create_makes_a_fresh_record() {
    let mut store = WorkSleepData::new(Date::from_days(100));
    let day = Date::from_days(103);
    let rec = store.get_mut_or_create(&day, &goals(70));
    assert_eq!(rec, WorkSleep { goals: goals(70), actual_work_count: 0, actual_bedtime: None });
    assert_eq!(store.get(&day), Some(rec));
    assert_eq!(store.get(&Date::from_days(102)), None);
}

#[test]
fn get_or_create_keeps_what_is_there() {
    let mut store = WorkSleepData::new(Date::from_days(100));
    let day = Date::from_days(103);
    store.add_work(&day, &goals(70));
    store.set_bedtime(&day, &goals(70), late());
    let rec = store.get_mut_or_create(&day, &goals(20));
    assert_eq!(
        rec,
        WorkSleep { goals: goals(70), actual_work_count: 1, actual_bedtime: Some(late()) }
    );
    assert_eq!(store.get(&day), Some(rec));
    assert_eq!(store.get_mut_or_create(&day, &goals(20)), rec);
}

#[test]
fn add_work_counts_up() {
    let mut store = WorkSleepData::new(Date::from_days(100));
    let day = Date::from_days(100);
    store.add_work(&day, &goals(70));
    store.add_work(&day, &goals(70));
    store.add_work(&day, &goals(70));
    assert_eq!(store.get(&day).unwrap().actual_work_count, 3);
    assert_eq!(store.get(&day).unwrap().actual_bedtime, None);
}

#[test]
fn resync_goals_keeps_achievements() {
    let mut store = WorkSleepData::new(Date::from_days(100));
    let day = Date::from_days(103);
    store.add_work(&day, &goals(70));
    store.add_work(&day, &goals(70));
    store.set_bedtime(&day, &goals(70), late());
    store.resync_goals(&day, &goals(40));
    assert_eq!(
        store.get(&day),
        Some(WorkSleep { goals: goals(40), actual_work_count: 2, actual_bedtime: Some(late()) })
    );
}

#[test]
fn resync_goals_makes_a_record() {
    let mut store = WorkSleepData::new(Date::from_days(100));
    let day = Date::from_days(103);
    store.resync_goals(&day, &goals(40));
    assert_eq!(
        store.get(&day),
        Some(WorkSleep { goals: goals(40), actual_work_count: 0, actual_bedtime: None })
    );
}

#[test]
fn resync_goals_leaves_other_days() {
    let mut store = WorkSleepData::new(Date::from_days(100));
    let monday = Date::from_days(101);
    let tuesday = Date::from_days(102);
    store.add_work(&monday, &goals(70));
    store.add_work(&tuesday, &goals(70));
    let before = store.get(&monday);
    store.resync_goals(&tuesday, &goals(40));
    assert_eq!(store.get(&monday), before);
    assert_eq!(store.get(&monday).unwrap().goals, goals(70));
    assert_eq!(store.get(&tuesday).unwrap().goals, goals(40));
    assert_eq!(store.get(&Date::from_days(103)), None);
}

#[test]
fn current_week_has_seven_days() {
    let mut store = WorkSleepData::new(Date::from_days(100));
    store.add_work(&Date::from_days(99), &goals(70));
    store.add_work(&Date::from_days(102), &goals(70));
    store.add_work(&Date::from_days(106), &goals(70));
    store.add_work(&Date::from_days(107), &goals(70));
    let week = store.get_current_week();
    assert_eq!(week.len(), 7);
    for (i, (date, rec)) in week.iter().enumerate() {
        assert_eq!(*date, Date::from_days(100 + i as i32));
        assert_eq!(*rec, store.get(date));
        assert_eq!(rec.is_some(), i == 2 || i == 6);
    }
}

#[test]
fn week_start_with_empty_store() {
    let mut store = WorkSleepData::new(Date::from_days(0));
    store.set_week_start(&Date::from_days(100));
    assert_eq!(store.week_start(), Date::from_days(94));
}

#[test]
fn week_start_on_latest_day() {
    let mut store = WorkSleepData::new(Date::from_days(0));
    store.add_work(&Date::from_days(90), &goals(70));
    store.add_work(&Date::from_days(100), &goals(70));
    store.set_week_start(&Date::from_days(100));
    assert_eq!(store.week_start(), Date::from_days(94));
    store.set_week_start(&Date::from_days(150));
    assert_eq!(store.week_start(), Date::from_days(144));
}

#[test]
fn week_start_within_history() {
    let mut store = WorkSleepData::new(Date::from_days(0));
    store.add_work(&Date::from_days(100), &goals(70));
    store.add_work(&Date::from_days(90), &goals(70));
    store.set_week_start(&Date::from_days(99));
    assert_eq!(store.week_start(), Date::from_days(96));
    store.set_week_start(&Date::from_days(50));
    assert_eq!(store.week_start(), Date::from_days(47));
}

#[test]
fn week_moves_by_seven_days() {
    let mut store = WorkSleepData::new(Date::from_days(100));
    store.add_work(&Date::from_days(100), &goals(70));
    store.advance_week();
    assert_eq!(store.week_start(), Date::from_days(107));
    store.retreat_week();
    store.retreat_week();
    assert_eq!(store.week_start(), Date::from_days(93));
    assert_eq!(store.get(&Date::from_days(100)).unwrap().actual_work_count, 1);
}

#[test]
fn dates_shift_by_days() {
    let d = Date::from_days(738_000);
    assert_eq!(d.plus_days(6), Date { days: 738_006 });
    assert_eq!(d.plus_days(-6), Date { days: 737_994 });
    assert_eq!(d.checked_plus_days(7), Some(Date { days: 738_007 }));
    assert_eq!(Date::from_days(i32::MAX).checked_plus_days(1), None);
    assert_eq!(Date::from_days(i32::MIN).checked_plus_days(-1), None);
    assert_eq!(Date::from_days(i32::MIN).checked_plus_days(0), Some(Date { days: i32::MIN }));
}
