//! The SQL statements the program sends to its `tasks` table.

use vstd::prelude::*;
use crate::decimal::{append_i64, dec_int};
use crate::task::{CreatedTask, DeleteTask, Task, UpdateTask};

verus! {

/// Reads every stored task.
pub const LIST_TASKS: &'static str = "SELECT * FROM tasks";

/// Looks a task up by name; the name is bound as the first parameter.
pub const FIND_BY_NAME_PARAM: &'static str = "SELECT * FROM tasks WHERE name = ?";

/// Creates the `tasks` table of a fresh database.
pub const CREATE_TABLE: &'static str = "CREATE TABLE tasks (type TEXT, name TEXT, start_time INTEGER, end_time INTEGER, is_done INTEGER)";

/// `INSERT INTO tasks VALUES ('<type>', '<name>', <start>, <end>, 0)`
pub open spec fn insert_created_sql(task_type: Seq<char>, name: Seq<char>, start: int, end: int) -> Seq<char> {
    "INSERT INTO tasks VALUES ('"@ + task_type + "', '"@ + name + "', "@ + dec_int(start) + ", "@
        + dec_int(end) + ", 0)"@
}

/// `INSERT INTO tasks VALUES ('<type>', '<name>', '<start>', '<end>', 0)`
pub open spec fn insert_imported_sql(task_type: Seq<char>, name: Seq<char>, start: int, end: int) -> Seq<char> {
    "INSERT INTO tasks VALUES ('"@ + task_type + "', '"@ + name + "', '"@ + dec_int(start) + "', '"@
        + dec_int(end) + "', 0)"@
}

/// `SELECT * FROM tasks WHERE name = '<name>'`
pub open spec fn find_by_name_sql(name: Seq<char>) -> Seq<char> {
    "SELECT * FROM tasks WHERE name = '"@ + name + "'"@
}

/// `DELETE FROM tasks WHERE name = '<name>'`
pub open spec fn delete_by_name_sql(name: Seq<char>) -> Seq<char> {
    "DELETE FROM tasks WHERE name = '"@ + name + "'"@
}

/// The SQL literal for a done flag sent by a client.
pub open spec fn bool_sql(b: bool) -> Seq<char> {
    if b { "TRUE"@ } else { "FALSE"@ }
}

/// `UPDATE tasks SET is_done = <TRUE|FALSE> WHERE name = '<name>' AND NOT type = 'F'`:
/// a client sets the flag of its own tasks, never of calendar ones.
pub open spec fn set_done_sql(name: Seq<char>, is_done: bool) -> Seq<char> {
    "UPDATE tasks SET is_done = "@ + bool_sql(is_done) + " WHERE name = '"@ + name
        + "' AND NOT type = 'F'"@
}

/// `UPDATE tasks SET is_done=1 WHERE name = '<name>' AND start_time = <start> AND end_time = <end>`
pub open spec fn mark_done_sql(name: Seq<char>, start: int, end: int) -> Seq<char> {
    "UPDATE tasks SET is_done=1 WHERE name = '"@ + name + "' AND start_time = "@ + dec_int(start)
        + " AND end_time = "@ + dec_int(end)
}

/// The statement that stores a task a client submitted.
pub fn create_task_query(task: &CreatedTask) -> (q: String)
    ensures
        q@ == insert_created_sql(task.task_type@, task.name@, task.start_time as int, task.end_time as int),
{
    let mut q = String::from_str("INSERT INTO tasks VALUES ('");
    q.append(task.task_type.as_str());
    q.append("', '");
    q.append(task.name.as_str());
    q.append("', ");
    append_i64(&mut q, task.start_time);
    q.append(", ");
    append_i64(&mut q, task.end_time);
    q.append(", 0)");
    q
}

/// The statement that stores a task imported from the calendar.
pub fn import_task_query(task: &Task) -> (q: String)
    ensures
        q@ == insert_imported_sql(task.task_type@, task.name@, task.start_time as int, task.end_time as int),
{
    let mut q = String::from_str("INSERT INTO tasks VALUES ('");
    q.append(task.task_type.as_str());
    q.append("', '");
    q.append(task.name.as_str());
    q.append("', '");
    append_i64(&mut q, task.start_time);
    q.append("', '");
    append_i64(&mut q, task.end_time);
    q.append("', 0)");
    q
}

/// The statement that reads the stored tasks with a name.
pub fn find_by_name_query(name: &str) -> (q: String)
    ensures
        q@ == find_by_name_sql(name@),
{
    let mut q = String::from_str("SELECT * FROM tasks WHERE name = '");
    q.append(name);
    q.append("'");
    q
}

/// The statement that deletes the tasks with a name.
pub fn delete_by_name_query(name: &str) -> (q: String)
    ensures
        q@ == delete_by_name_sql(name@),
{
    let mut q = String::from_str("DELETE FROM tasks WHERE name = '");
    q.append(name);
    q.append("'");
    q
}

/// The statement that deletes the tasks a client names.
pub fn delete_task_query(req: &DeleteTask) -> (q: String)
    ensures
        q@ == delete_by_name_sql(req.name@),
{
    delete_by_name_query(req.name.as_str())
}

/// The statement that sets the done flag a client sends.
pub fn update_task_query(req: &UpdateTask) -> (q: String)
    ensures
        q@ == set_done_sql(req.name@, req.is_done),
{
    let mut q = String::from_str("UPDATE tasks SET is_done = ");
    if req.is_done {
        q.append("TRUE");
    } else {
        q.append("FALSE");
    }
    q.append(" WHERE name = '");
    q.append(req.name.as_str());
    q.append("' AND NOT type = 'F'");
    q
}

/// The statement that marks one task (by name, start and end) done.
pub fn mark_done_query(task: &Task) -> (q: String)
    ensures
        q@ == mark_done_sql(task.name@, task.start_time as int, task.end_time as int),
{
    let mut q = String::from_str("UPDATE tasks SET is_done=1 WHERE name = '");
    q.append(task.name.as_str());
    q.append("' AND start_time = ");
    append_i64(&mut q, task.start_time);
    q.append(" AND end_time = ");
    append_i64(&mut q, task.end_time);
    q
}

} // verus!
