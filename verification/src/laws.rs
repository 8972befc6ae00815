//! Properties that hold across the decisions of the background work.

use vstd::prelude::*;
use crate::clock::{utc_day0, utc_hour, utc_in_range, utc_minute, LocalClock, TimestampOutOfRange};
use crate::paths::{purge_log_line, purge_log_path};
use crate::query::{delete_by_name_sql, find_by_name_sql, mark_done_sql};
use crate::schedule::{
    already_stored, check_result, import_lookup_result, in_progress, purge_due, purge_result,
    task_in_progress, CheckAction, Purge,
};
use crate::task::{is_fixed_kind, Task};

verus! {

/// Minutes past midnight of a clock time.
pub open spec fn minute_of_day(hour: int, minute: int) -> int {
    hour * 60 + minute
}

/// A time window holds `now` exactly when, counted in minutes past
/// midnight, its start lies before `now` and `now` lies before its end.
pub proof fn in_progress_is_between_in_minutes(sh: int, sm: int, eh: int, em: int, nh: int, nm: int)
    requires
        0 <= sm < 60,
        0 <= em < 60,
        0 <= nm < 60,
    ensures
        in_progress(sh, sm, eh, em, nh, nm) <==> (minute_of_day(sh, sm) < minute_of_day(nh, nm)
            && minute_of_day(nh, nm) < minute_of_day(eh, em)),
{
}

/// The UTC hour and minute of a timestamp count, together, the whole
/// minutes since the last UTC midnight.
pub proof fn utc_minute_of_day(secs: i64)
    ensures
        minute_of_day(utc_hour(secs), utc_minute(secs)) == (secs as int % 86400) / 60,
        0 <= utc_minute(secs) < 60,
        0 <= utc_hour(secs) < 24,
{
    let s: int = secs as int % 86400;
    let t: int = s / 60;
    assert(0 <= s < 86400);
    assert(s == 60 * t + s % 60);
    assert(t == 60 * (t / 60) + t % 60);
    assert(s == 3600 * (t / 60) + (60 * (t % 60) + s % 60));
    assert(s / 3600 == t / 60);
}

/// A task is in progress at the local time `now` exactly when the minute of
/// the (UTC) day of its start lies before the minute of the day of `now`,
/// and that of its end after it.
pub proof fn task_in_progress_is_between_in_minutes(task: &Task, now: LocalClock)
    requires
        now.wf(),
    ensures
        task_in_progress(task, now) <==> ((task.start_time as int % 86400) / 60 < minute_of_day(
            now.hour as int,
            now.minute as int,
        ) && minute_of_day(now.hour as int, now.minute as int) < (task.end_time as int % 86400)
            / 60),
{
    utc_minute_of_day(task.start_time);
    utc_minute_of_day(task.end_time);
    in_progress_is_between_in_minutes(
        utc_hour(task.start_time),
        utc_minute(task.start_time),
        utc_hour(task.end_time),
        utc_minute(task.end_time),
        now.hour as int,
        now.minute as int,
    );
}

/// Importing an event twice stores it once: once its (start, end) pair is
/// among the stored ones, the import finds it there; and a pair stays found
/// as further tasks are stored.
pub proof fn import_finds_what_it_stored(stored: Seq<(i64, i64)>, start: i64, end: i64, other: (i64, i64))
    ensures
        already_stored(stored.push((start, end)), start, end),
        already_stored(stored, start, end) ==> already_stored(stored.push(other), start, end),
{
    assert(stored.push((start, end))[stored.len() as int] == (start, end));
    if already_stored(stored, start, end) {
        let i: int = choose|i: int| 0 <= i < stored.len() && #[trigger] stored[i] == (start, end);
        assert(stored.push(other)[i] == (start, end));
    }
}

/// The clean-up keeps every task the user entered, and every calendar task
/// whose day of the month is today's or later.
pub proof fn purge_keeps_user_and_current_tasks(task: &Task, today0: int)
    ensures
        !is_fixed_kind(task.task_type@) ==> !purge_due(task, today0),
        utc_day0(task.start_time) >= today0 ==> !purge_due(task, today0),
{
}

/// Every calendar task whose (UTC) day of the month lies before today's is
/// due for removal.
pub proof fn past_calendar_tasks_are_due(task: &Task, today0: int)
    ensures
        is_fixed_kind(task.task_type@) && today0 > utc_day0(task.start_time) ==> purge_due(task, today0),
{
}

/// The clean-up removes a task exactly when it is a calendar task whose UTC
/// day of the month lies before today's, deleting it by name and logging it
/// under the day it started; it stops only on a start chrono cannot place.
pub proof fn purge_removes_exactly_past_calendar_tasks(
    task: &Task,
    home: Seq<char>,
    today0: int,
    r: Result<Option<Purge>, TimestampOutOfRange>,
)
    requires
        purge_result(task, home, today0, r),
    ensures
        (r matches Ok(Some(_))) <==> (utc_in_range(task.start_time) && is_fixed_kind(task.task_type@)
            && today0 > utc_day0(task.start_time)),
        (r is Err) <==> !utc_in_range(task.start_time),
        r matches Ok(Some(p)) ==> {
            &&& p.delete_query@ == delete_by_name_sql(task.name@)
            &&& p.log_path@ == purge_log_path(home, utc_day0(task.start_time) as int)
            &&& p.log_line@ == purge_log_line(task.name@, task.task_type@, task.start_time as int, task.end_time as int)
        },
{
}

/// The import looks an event up exactly when it starts on today's (UTC) day
/// of the month, and then by the event's name.
pub proof fn import_looks_up_exactly_todays_events(event: &Task, today0: int, r: Result<Option<String>, TimestampOutOfRange>)
    requires
        import_lookup_result(event, today0, r),
    ensures
        (r matches Ok(Some(_))) <==> (utc_in_range(event.start_time) && utc_day0(event.start_time) == today0),
        (r is Err) <==> !utc_in_range(event.start_time),
        r matches Ok(Some(q)) ==> q@ == find_by_name_sql(event.name@),
{
}

/// The check shuts the machine down exactly when, counted in minutes past
/// midnight, the task's start lies before the local time and its end after
/// it; it marks done only an open calendar task outside that window, by its
/// name, start and end; it stops only on a timestamp chrono cannot place.
pub proof fn check_shuts_down_exactly_during_task(task: &Task, now: LocalClock, r: Result<CheckAction, TimestampOutOfRange>)
    requires
        now.wf(),
        check_result(task, now, r),
    ensures
        (r matches Ok(CheckAction::Shutdown)) <==> (utc_in_range(task.start_time) && utc_in_range(
            task.end_time,
        ) && (task.start_time as int % 86400) / 60 < minute_of_day(now.hour as int, now.minute as int)
            && minute_of_day(now.hour as int, now.minute as int) < (task.end_time as int % 86400) / 60),
        r matches Ok(CheckAction::MarkDone(q)) ==> (is_fixed_kind(task.task_type@) && task.is_done == 0
            && q@ == mark_done_sql(task.name@, task.start_time as int, task.end_time as int)),
        (r matches Ok(CheckAction::MarkDone(_))) <==> (utc_in_range(task.start_time) && utc_in_range(
            task.end_time,
        ) && !task_in_progress(task, now) && is_fixed_kind(task.task_type@) && task.is_done == 0),
        (r is Err) <==> (!utc_in_range(task.start_time) || !utc_in_range(task.end_time)),
{
    task_in_progress_is_between_in_minutes(task, now);
}

} // verus!
