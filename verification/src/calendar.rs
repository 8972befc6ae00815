//! Tasks that come from the user's calendar.

use vstd::prelude::*;
use crate::task::{is_fixed_kind, Task};

verus! {

/// Seconds added to an event's times when it becomes a task.
pub const EVENT_SHIFT_SECS: i64 = 3600;

/// The task an event becomes: calendar type, open, named by the event's
/// summary, with start and end an hour later than the event's.
pub fn task_from_event(summary: String, start: i64, end: i64) -> (t: Task)
    requires
        start + EVENT_SHIFT_SECS <= i64::MAX,
        end + EVENT_SHIFT_SECS <= i64::MAX,
    ensures
        is_fixed_kind(t.task_type@),
        t.name == summary,
        t.start_time == start + EVENT_SHIFT_SECS,
        t.end_time == end + EVENT_SHIFT_SECS,
        t.is_done == 0,
        t.end_time - t.start_time == end - start,
{
    Task {
        task_type: String::from_str("F"),
        name: summary,
        start_time: start + EVENT_SHIFT_SECS,
        end_time: end + EVENT_SHIFT_SECS,
        is_done: 0,
    }
}

/// Whether the saved token file holds a token: more than one byte.
pub fn has_saved_token(token_json: &str) -> (b: bool)
    ensures
        b == (token_json.len() > 1),
{
    token_json.len() > 1
}

} // verus!
