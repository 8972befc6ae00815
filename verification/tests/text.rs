use backend::calendar::{has_saved_token, task_from_event, EVENT_SHIFT_SECS};
use backend::decimal::i64_text;
use backend::paths::{data_dir, db_path, purge_log_file, purge_log_record, token_path};
use backend::query::{
    create_task_query, delete_by_name_query, delete_task_query, find_by_name_query,
    import_task_query, mark_done_query, update_task_query, CREATE_TABLE, FIND_BY_NAME_PARAM,
    LIST_TASKS,
};
use backend::reply::{delete_task_reply, update_task_outcome, GREETING, SUCCESS};
use backend::task::{is_fixed, CreatedTask, DeleteTask, Task, UpdateTask};

fn task(task_type: &str, name: &str, start: i64, end: i64, is_done: i64) -> Task {
    Task::from_row(task_type.to_string(), name.to_string(), start, end, is_done)
}

#[test]
fn decimal_text_matches_display() {
    let values: Vec<i64> = vec![
        0, 1, 9, 10, 11, 99, 100, 101, -1, -9, -10, -123456, 1700000000, i64::MAX, i64::MIN,
        i64::MIN + 1, 1_000_000_007, -9_007_199_254_740_993,
    ];
    for v in values {
        assert_eq!(i64_text(v), v.to_string());
    }
}

#[test]
fn decimal_text_exact_values() {
    assert_eq!(i64_text(0), "0");
    assert_eq!(i64_text(-42), "-42");
    assert_eq!(i64_text(i64::MIN), "-9223372036854775808");
}

#[test]
fn row_becomes_task() {
    let t = task("A", "Read", 10, 20, 1);
    assert_eq!(t.task_type, "A");
    assert_eq!(t.name, "Read");
    assert_eq!(t.start_time, 10);
    assert_eq!(t.end_time, 20);
    assert_eq!(t.is_done, 1);
}

#[test]
fn fixed_kind_is_exactly_f() {
    assert!(is_fixed(&"F".to_string()));
    assert!(!is_fixed(&"f".to_string()));
    assert!(!is_fixed(&"FF".to_string()));
    assert!(!is_fixed(&String::new()));
}

#[test]
fn constant_statements() {
    assert_eq!(LIST_TASKS, "SELECT * FROM tasks");
    assert_eq!(FIND_BY_NAME_PARAM, "SELECT * FROM tasks WHERE name = ?");
    assert_eq!(
        CREATE_TABLE,
        "CREATE TABLE tasks (type TEXT, name TEXT, start_time INTEGER, end_time INTEGER, is_done INTEGER)"
    );
    assert_eq!(GREETING, "Hello World");
    assert_eq!(SUCCESS, "Success");
}

#[test]
fn create_statement() {
    let t = CreatedTask {
        task_type: "A".to_string(),
        name: "Read".to_string(),
        start_time: 10,
        end_time: -20,
    };
    assert_eq!(create_task_query(&t), "INSERT INTO tasks VALUES ('A', 'Read', 10, -20, 0)");
}

#[test]
fn import_statement_quotes_times() {
    let t = task("F", "Standup", 1700000000, 1700003600, 0);
    assert_eq!(
        import_task_query(&t),
        "INSERT INTO tasks VALUES ('F', 'Standup', '1700000000', '1700003600', 0)"
    );
}

#[test]
fn lookup_and_delete_statements() {
    assert_eq!(find_by_name_query("Standup"), "SELECT * FROM tasks WHERE name = 'Standup'");
    assert_eq!(delete_by_name_query("Standup"), "DELETE FROM tasks WHERE name = 'Standup'");
    let req = DeleteTask { name: "Gym".to_string() };
    assert_eq!(delete_task_query(&req), "DELETE FROM tasks WHERE name = 'Gym'");
}

#[test]
fn set_done_statements() {
    let yes = UpdateTask { name: "Gym".to_string(), is_done: true };
    let no = UpdateTask { name: "Gym".to_string(), is_done: false };
    assert_eq!(
        update_task_query(&yes),
        "UPDATE tasks SET is_done = TRUE WHERE name = 'Gym' AND NOT type = 'F'"
    );
    assert_eq!(
        update_task_query(&no),
        "UPDATE tasks SET is_done = FALSE WHERE name = 'Gym' AND NOT type = 'F'"
    );
}

#[test]
fn mark_done_statement() {
    let t = task("F", "Standup", -120, 173400, 0);
    assert_eq!(
        mark_done_query(&t),
        "UPDATE tasks SET is_done=1 WHERE name = 'Standup' AND start_time = -120 AND end_time = 173400"
    );
}

#[test]
fn file_paths_under_home() {
    let home = "C:\\Users\\me";
    assert_eq!(data_dir(home), "C:\\Users\\me\\tm_db");
    assert_eq!(db_path(home), "C:\\Users\\me\\tm_db\\task_data.db");
    assert_eq!(token_path(home), "C:\\Users\\me\\tm_db./token.json");
    assert_eq!(purge_log_file(home, 13), "C:\\Users\\me\\tm_db\\db_log\\13.txt");
    assert_eq!(purge_log_file(home, 0), "C:\\Users\\me\\tm_db\\db_log\\0.txt");
}

#[test]
fn purge_log_record_fields() {
    let t = task("F", "Standup", 1700000000, -5, 0);
    assert_eq!(purge_log_record(&t), "Standup:F:1700000000:-5");
}

#[test]
fn event_becomes_shifted_calendar_task() {
    let t = task_from_event("Meeting".to_string(), 1000, 4000);
    assert_eq!(t, task("F", "Meeting", 4600, 7600, 0));
    assert_eq!(EVENT_SHIFT_SECS, 3600);
}

#[test]
fn event_keeps_its_length() {
    let t = task_from_event("Long".to_string(), -7200, 86400);
    assert_eq!(t.end_time - t.start_time, 86400 + 7200);
}

#[test]
fn saved_token_needs_more_than_one_byte() {
    assert!(!has_saved_token(""));
    assert!(!has_saved_token("x"));
    assert!(has_saved_token("{}"));
    assert!(!has_saved_token("\n"));
    assert!(has_saved_token("é"));
}

#[test]
fn update_found_runs_statement() {
    let req = UpdateTask { name: "Gym".to_string(), is_done: true };
    assert_eq!(
        update_task_outcome(&req, true),
        Ok("UPDATE tasks SET is_done = TRUE WHERE name = 'Gym' AND NOT type = 'F'".to_string())
    );
}

#[test]
fn update_not_found_names_task() {
    let req = UpdateTask { name: "Gym".to_string(), is_done: false };
    assert_eq!(update_task_outcome(&req, false), Err("Gym".to_string()));
}

#[test]
fn delete_replies() {
    let req = DeleteTask { name: "Gym".to_string() };
    assert_eq!(delete_task_reply(&req, true), Ok("Success".to_string()));
    assert_eq!(delete_task_reply(&req, false), Err("Gym".to_string()));
}
