use backend::clock::{LocalClock, TimestampOutOfRange};
use backend::schedule::{
    check_task, check_task_at, import_insert, import_lookup, import_lookup_at, purge_plan,
    purge_plan_at, CheckAction, Purge,
};
use backend::task::Task;

// 1700000000 is 2023-11-14 22:13:20 UTC; 1700003600 is 23:13:20 the same day.
const START: i64 = 1700000000;
const END: i64 = 1700003600;

fn task(task_type: &str, name: &str, start: i64, end: i64, is_done: i64) -> Task {
    Task::from_row(task_type.to_string(), name.to_string(), start, end, is_done)
}

fn at(day0: u32, hour: u32, minute: u32) -> LocalClock {
    LocalClock { day0, hour, minute }
}

const MARK_STANDUP: &str =
    "UPDATE tasks SET is_done=1 WHERE name = 'Standup' AND start_time = 1700000000 AND end_time = 1700003600";

#[test]
fn check_shuts_down_during_task() {
    let t = task("A", "Standup", START, END, 0);
    assert_eq!(check_task_at(&t, &at(13, 22, 30)), Ok(CheckAction::Shutdown));
    assert_eq!(check_task_at(&t, &at(13, 23, 0)), Ok(CheckAction::Shutdown));
    assert_eq!(check_task_at(&t, &at(13, 23, 12)), Ok(CheckAction::Shutdown));
}

#[test]
fn check_window_bounds_are_strict() {
    let t = task("F", "Standup", START, END, 0);
    // 22:13 is the start minute itself, 23:13 the end minute itself.
    assert_eq!(check_task_at(&t, &at(13, 22, 13)), Ok(CheckAction::MarkDone(MARK_STANDUP.to_string())));
    assert_eq!(check_task_at(&t, &at(13, 23, 13)), Ok(CheckAction::MarkDone(MARK_STANDUP.to_string())));
    assert_eq!(check_task_at(&t, &at(13, 22, 14)), Ok(CheckAction::Shutdown));
}

#[test]
fn check_marks_open_calendar_task_done() {
    let t = task("F", "Standup", START, END, 0);
    assert_eq!(check_task_at(&t, &at(2, 8, 0)), Ok(CheckAction::MarkDone(MARK_STANDUP.to_string())));
}

#[test]
fn check_keeps_user_and_done_tasks() {
    let user = task("A", "Standup", START, END, 0);
    let done = task("F", "Standup", START, END, 1);
    assert_eq!(check_task_at(&user, &at(2, 8, 0)), Ok(CheckAction::Keep));
    assert_eq!(check_task_at(&done, &at(2, 8, 0)), Ok(CheckAction::Keep));
}

#[test]
fn check_uses_utc_time_of_day_of_negative_timestamps() {
    // -120 is 23:58 UTC, 173400 is 00:10 UTC.
    let t = task("F", "Late", -120, 173400, 0);
    assert_eq!(
        check_task_at(&t, &at(0, 23, 59)),
        Ok(CheckAction::MarkDone(
            "UPDATE tasks SET is_done=1 WHERE name = 'Late' AND start_time = -120 AND end_time = 173400"
                .to_string()
        ))
    );
    let u = task("A", "Late", -120, 86399, 0);
    // -120 is 23:58 and 86399 is 23:59 UTC.
    assert_eq!(check_task_at(&u, &at(0, 23, 58)), Ok(CheckAction::Keep));
}

#[test]
fn check_refuses_timestamps_off_the_calendar() {
    let t = task("F", "Far", i64::MAX, END, 0);
    assert_eq!(check_task_at(&t, &at(0, 0, 0)), Err(TimestampOutOfRange { secs: i64::MAX }));
    let u = task("F", "Far", START, i64::MIN, 0);
    assert_eq!(check_task_at(&u, &at(0, 0, 0)), Err(TimestampOutOfRange { secs: i64::MIN }));
}

#[test]
fn check_now_gives_an_allowed_action() {
    let user = task("A", "Standup", START, END, 0);
    match check_task(&user) {
        Ok(CheckAction::Shutdown) | Ok(CheckAction::Keep) => {}
        other => panic!("unexpected {:?}", other),
    }
    let fixed = task("F", "Standup", START, END, 0);
    match check_task(&fixed) {
        Ok(CheckAction::Shutdown) => {}
        Ok(CheckAction::MarkDone(q)) => assert_eq!(q, MARK_STANDUP),
        other => panic!("unexpected {:?}", other),
    }
}

#[test]
fn purge_removes_past_calendar_task() {
    let t = task("F", "Standup", START, END, 0);
    assert_eq!(
        purge_plan_at(&t, "C:\\Users\\me", 20),
        Ok(Some(Purge {
            delete_query: "DELETE FROM tasks WHERE name = 'Standup'".to_string(),
            log_path: "C:\\Users\\me\\tm_db\\db_log\\13.txt".to_string(),
            log_line: "Standup:F:1700000000:1700003600".to_string(),
        }))
    );
}

#[test]
fn purge_keeps_current_and_user_tasks() {
    let fixed = task("F", "Standup", START, END, 0);
    let user = task("A", "Standup", START, END, 0);
    assert_eq!(purge_plan_at(&fixed, "h", 13), Ok(None));
    assert_eq!(purge_plan_at(&fixed, "h", 0), Ok(None));
    assert_eq!(purge_plan_at(&user, "h", 30), Ok(None));
    assert_eq!(purge_plan(&user, "h"), Ok(None));
}

#[test]
fn purge_refuses_timestamp_off_the_calendar() {
    let t = task("A", "Far", i64::MIN, 0, 0);
    assert_eq!(purge_plan_at(&t, "h", 5), Err(TimestampOutOfRange { secs: i64::MIN }));
}

#[test]
fn import_looks_up_todays_events_only() {
    let e = task("F", "Standup", START, END, 0);
    assert_eq!(
        import_lookup_at(&e, 13),
        Ok(Some("SELECT * FROM tasks WHERE name = 'Standup'".to_string()))
    );
    assert_eq!(import_lookup_at(&e, 14), Ok(None));
    let far = task("F", "Far", i64::MAX, 0, 0);
    assert_eq!(import_lookup_at(&far, 0), Err(TimestampOutOfRange { secs: i64::MAX }));
    assert_eq!(import_lookup(&far), Err(TimestampOutOfRange { secs: i64::MAX }));
}

#[test]
fn import_inserts_new_event() {
    let e = task("F", "Standup", START, END, 0);
    let stored: Vec<(i64, i64)> = vec![(START, 1), (1, END)];
    assert_eq!(
        import_insert(&e, &stored),
        Some("INSERT INTO tasks VALUES ('F', 'Standup', '1700000000', '1700003600', 0)".to_string())
    );
    assert_eq!(
        import_insert(&e, &Vec::new()),
        Some("INSERT INTO tasks VALUES ('F', 'Standup', '1700000000', '1700003600', 0)".to_string())
    );
}

#[test]
fn import_skips_stored_event() {
    let e = task("F", "Standup", START, END, 0);
    let stored: Vec<(i64, i64)> = vec![(1, 2), (START, END), (3, 4)];
    assert_eq!(import_insert(&e, &stored), None);
}

#[test]
fn import_twice_stores_once() {
    let e = task("F", "Standup", START, END, 0);
    let mut stored: Vec<(i64, i64)> = vec![(7, 8)];
    assert!(import_insert(&e, &stored).is_some());
    stored.push((e.start_time, e.end_time));
    assert_eq!(import_insert(&e, &stored), None);
    stored.push((9, 10));
    assert_eq!(import_insert(&e, &stored), None);
}
