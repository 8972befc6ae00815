//! The task records that the program stores, lists and receives.

use vstd::prelude::*;

verus! {

/// One row of the `tasks` table.
#[derive(Debug, Clone, PartialEq, Eq)]
pub struct Task {
    /// `F` for a task imported from the calendar; any other text for a
    /// task that the user entered.
    pub task_type: String,
    pub name: String,
    /// Start, in seconds since the Unix epoch.
    pub start_time: i64,
    /// End, in seconds since the Unix epoch.
    pub end_time: i64,
    /// `0` while the task is open.
    pub is_done: i64,
}

/// A task as a client submits it for creation.
#[derive(Debug, Clone, PartialEq, Eq)]
pub struct CreatedTask {
    pub task_type: String,
    pub name: String,
    pub start_time: i64,
    pub end_time: i64,
}

/// A client's request to set the done flag of the tasks with a name.
#[derive(Debug, Clone, PartialEq, Eq)]
pub struct UpdateTask {
    pub name: String,
    pub is_done: bool,
}

/// A client's request to delete the tasks with a name.
#[derive(Debug, Clone, PartialEq, Eq)]
pub struct DeleteTask {
    pub name: String,
}

/// Tasks of this type come from the calendar: they are cleaned up once their
/// day has passed and marked done once checked outside their time window.
pub open spec fn is_fixed_kind(task_type: Seq<char>) -> bool {
    task_type == "F"@
}

/// Whether a task type is the calendar type `F`.
pub fn is_fixed(task_type: &String) -> (b: bool)
    ensures
        b == is_fixed_kind(task_type@),
{
    let fixed = String::from_str("F");
    *task_type == fixed
}

impl Task {
    /// A task from the values of one row, in the order the table keeps them.
    pub fn from_row(task_type: String, name: String, start_time: i64, end_time: i64, is_done: i64) -> (t: Task)
        ensures
            t.task_type == task_type,
            t.name == name,
            t.start_time == start_time,
            t.end_time == end_time,
            t.is_done == is_done,
    {
        Task { task_type, name, start_time, end_time, is_done }
    }
}

} // verus!
