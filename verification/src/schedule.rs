//! The decisions of the background work: the periodic check of the tasks
//! against the clock, the clean-up of past calendar tasks, and the import
//! of calendar events.

use vstd::prelude::*;
use crate::clock::{
    local_clock_now, utc_day0, utc_day0_of, utc_hour, utc_hour_minute_of, utc_in_range, utc_minute,
    LocalClock, TimestampOutOfRange,
};
use crate::paths::{purge_log_file, purge_log_line, purge_log_path, purge_log_record};
use crate::query::{
    delete_by_name_query, delete_by_name_sql, find_by_name_query, find_by_name_sql, import_task_query,
    insert_imported_sql, mark_done_query, mark_done_sql,
};
use crate::task::{is_fixed, is_fixed_kind, Task};
use crate::laws::{
    check_shuts_down_exactly_during_task, import_looks_up_exactly_todays_events, minute_of_day,
    purge_removes_exactly_past_calendar_tasks,
};

verus! {

// ---------------------------------------------------------------------------
// The periodic check
// ---------------------------------------------------------------------------

/// What the periodic check does about one task.
#[derive(Debug, Clone, PartialEq, Eq)]
pub enum CheckAction {
    /// The task is going on now: the machine is shut down.
    Shutdown,
    /// The statement that marks the task done.
    MarkDone(String),
    /// Nothing.
    Keep,
}

/// A time window holds `now`: its start (hour, minute) lies before now and
/// its end lies after it.
pub open spec fn in_progress(sh: int, sm: int, eh: int, em: int, nh: int, nm: int) -> bool {
    &&& (sh < nh || (sh == nh && sm < nm))
    &&& (eh > nh || (eh == nh && nm < em))
}

/// The task's UTC start and end times of day hold the local time `now`.
pub open spec fn task_in_progress(task: &Task, now: LocalClock) -> bool {
    in_progress(
        utc_hour(task.start_time),
        utc_minute(task.start_time),
        utc_hour(task.end_time),
        utc_minute(task.end_time),
        now.hour as int,
        now.minute as int,
    )
}

/// `r` is what the check does about `task` at the local time `now`: a task
/// in progress shuts the machine down, an open calendar task outside its
/// window is marked done, any other task is kept as it is; a timestamp that
/// cannot be placed on the calendar stops the check.
pub open spec fn check_result(task: &Task, now: LocalClock, r: Result<CheckAction, TimestampOutOfRange>) -> bool {
    if !utc_in_range(task.start_time) {
        r == Err::<CheckAction, TimestampOutOfRange>(TimestampOutOfRange { secs: task.start_time })
    } else if !utc_in_range(task.end_time) {
        r == Err::<CheckAction, TimestampOutOfRange>(TimestampOutOfRange { secs: task.end_time })
    } else if task_in_progress(task, now) {
        r matches Ok(CheckAction::Shutdown)
    } else if is_fixed_kind(task.task_type@) && task.is_done == 0 {
        r matches Ok(CheckAction::MarkDone(q)) && q@ == mark_done_sql(
            task.name@,
            task.start_time as int,
            task.end_time as int,
        )
    } else {
        r matches Ok(CheckAction::Keep)
    }
}

/// The check of one task at the local time `now`.
pub fn check_task_at(task: &Task, now: &LocalClock) -> (r: Result<CheckAction, TimestampOutOfRange>)
    ensures
        check_result(task, *now, r),
        (r is Err) <==> (!utc_in_range(task.start_time) || !utc_in_range(task.end_time)),
        now.wf() ==> ((r matches Ok(CheckAction::Shutdown)) <==> (utc_in_range(task.start_time)
            && utc_in_range(task.end_time) && (task.start_time as int % 86400) / 60 < minute_of_day(
            now.hour as int,
            now.minute as int,
        ) && minute_of_day(now.hour as int, now.minute as int) < (task.end_time as int % 86400) / 60)),
        r matches Ok(CheckAction::MarkDone(q)) ==> (is_fixed_kind(task.task_type@) && task.is_done == 0
            && q@ == mark_done_sql(task.name@, task.start_time as int, task.end_time as int)),
{
    let start = match utc_hour_minute_of(task.start_time) {
        Some(hm) => hm,
        None => {
            return Err(TimestampOutOfRange { secs: task.start_time });
        },
    };
    let end = match utc_hour_minute_of(task.end_time) {
        Some(hm) => hm,
        None => {
            return Err(TimestampOutOfRange { secs: task.end_time });
        },
    };
    let started = start.hour < now.hour || (start.hour == now.hour && start.minute < now.minute);
    let not_ended = end.hour > now.hour || (end.hour == now.hour && now.minute < end.minute);
    let r = if started && not_ended {
        Ok(CheckAction::Shutdown)
    } else if is_fixed(&task.task_type) && task.is_done == 0 {
        Ok(CheckAction::MarkDone(mark_done_query(task)))
    } else {
        Ok(CheckAction::Keep)
    };
    proof {
        if now.wf() {
            check_shuts_down_exactly_during_task(task, *now, r);
        }
    }
    r
}

/// The check of one task at the current local time.
pub fn check_task(task: &Task) -> (r: Result<CheckAction, TimestampOutOfRange>)
    ensures
        exists|now: LocalClock| #![trigger check_result(task, now, r)] now.wf() && check_result(task, now, r),
        (r is Err) <==> (!utc_in_range(task.start_time) || !utc_in_range(task.end_time)),
        r matches Ok(CheckAction::MarkDone(q)) ==> (is_fixed_kind(task.task_type@) && task.is_done == 0
            && q@ == mark_done_sql(task.name@, task.start_time as int, task.end_time as int)),
{
    let now = local_clock_now();
    let r = check_task_at(task, &now);
    assert(now.wf() && check_result(task, now, r));
    r
}

// ---------------------------------------------------------------------------
// The clean-up of past calendar tasks
// ---------------------------------------------------------------------------

/// What the clean-up does with a task it removes: the statement that
/// deletes it, and the record written to the log file of its day.
#[derive(Debug, Clone, PartialEq, Eq)]
pub struct Purge {
    pub delete_query: String,
    pub log_path: String,
    pub log_line: String,
}

/// A calendar task whose (UTC) day of the month lies before today's (local)
/// one is removed; tasks the user entered are kept.
pub open spec fn purge_due(task: &Task, today0: int) -> bool {
    is_fixed_kind(task.task_type@) && today0 > utc_day0(task.start_time)
}

/// `r` is what the clean-up does about `task` on the day `today0` (day of
/// month from 0), with the program's files under `home`.
pub open spec fn purge_result(task: &Task, home: Seq<char>, today0: int, r: Result<Option<Purge>, TimestampOutOfRange>) -> bool {
    if !utc_in_range(task.start_time) {
        r == Err::<Option<Purge>, TimestampOutOfRange>(TimestampOutOfRange { secs: task.start_time })
    } else if purge_due(task, today0) {
        r matches Ok(Some(p)) && {
            &&& p.delete_query@ == delete_by_name_sql(task.name@)
            &&& p.log_path@ == purge_log_path(home, utc_day0(task.start_time) as int)
            &&& p.log_line@ == purge_log_line(task.name@, task.task_type@, task.start_time as int, task.end_time as int)
        }
    } else {
        r == Ok::<Option<Purge>, TimestampOutOfRange>(None)
    }
}

/// The clean-up of one task on the day `today0`.
pub fn purge_plan_at(task: &Task, home: &str, today0: u32) -> (r: Result<Option<Purge>, TimestampOutOfRange>)
    ensures
        purge_result(task, home@, today0 as int, r),
        (r matches Ok(Some(_))) <==> (utc_in_range(task.start_time) && is_fixed_kind(task.task_type@)
            && today0 > utc_day0(task.start_time)),
        (r is Err) <==> !utc_in_range(task.start_time),
        r matches Ok(Some(p)) ==> {
            &&& p.delete_query@ == delete_by_name_sql(task.name@)
            &&& p.log_path@ == purge_log_path(home@, utc_day0(task.start_time) as int)
            &&& p.log_line@ == purge_log_line(task.name@, task.task_type@, task.start_time as int, task.end_time as int)
        },
{
    let day0: u32 = match utc_day0_of(task.start_time) {
        Some(d) => d,
        None => {
            return Err(TimestampOutOfRange { secs: task.start_time });
        },
    };
    let r = if is_fixed(&task.task_type) && today0 > day0 {
        Ok(Some(Purge {
            delete_query: delete_by_name_query(task.name.as_str()),
            log_path: purge_log_file(home, day0),
            log_line: purge_log_record(task),
        }))
    } else {
        Ok(None)
    };
    proof {
        purge_removes_exactly_past_calendar_tasks(task, home@, today0 as int, r);
    }
    r
}

/// The clean-up of one task on the current local day.
pub fn purge_plan(task: &Task, home: &str) -> (r: Result<Option<Purge>, TimestampOutOfRange>)
    ensures
        exists|now: LocalClock| #![trigger purge_result(task, home@, now.day0 as int, r)]
            now.wf() && purge_result(task, home@, now.day0 as int, r),
        (r is Err) <==> !utc_in_range(task.start_time),
        r matches Ok(Some(p)) ==> {
            &&& is_fixed_kind(task.task_type@)
            &&& p.delete_query@ == delete_by_name_sql(task.name@)
            &&& p.log_path@ == purge_log_path(home@, utc_day0(task.start_time) as int)
            &&& p.log_line@ == purge_log_line(task.name@, task.task_type@, task.start_time as int, task.end_time as int)
        },
{
    let now = local_clock_now();
    let r = purge_plan_at(task, home, now.day0);
    assert(now.wf() && purge_result(task, home@, now.day0 as int, r));
    r
}

// ---------------------------------------------------------------------------
// The import of calendar events
// ---------------------------------------------------------------------------

/// `r` is the first step of importing `event` on the day `today0`: an event
/// of today is looked up by name among the stored tasks; any other event is
/// left out.
pub open spec fn import_lookup_result(event: &Task, today0: int, r: Result<Option<String>, TimestampOutOfRange>) -> bool {
    if !utc_in_range(event.start_time) {
        r == Err::<Option<String>, TimestampOutOfRange>(TimestampOutOfRange { secs: event.start_time })
    } else if utc_day0(event.start_time) == today0 {
        r matches Ok(Some(q)) && q@ == find_by_name_sql(event.name@)
    } else {
        r == Ok::<Option<String>, TimestampOutOfRange>(None)
    }
}

/// The first step of importing `event` on the day `today0`.
pub fn import_lookup_at(event: &Task, today0: u32) -> (r: Result<Option<String>, TimestampOutOfRange>)
    ensures
        import_lookup_result(event, today0 as int, r),
        (r matches Ok(Some(_))) <==> (utc_in_range(event.start_time) && utc_day0(event.start_time) == today0),
        (r is Err) <==> !utc_in_range(event.start_time),
        r matches Ok(Some(q)) ==> q@ == find_by_name_sql(event.name@),
{
    let day0: u32 = match utc_day0_of(event.start_time) {
        Some(d) => d,
        None => {
            return Err(TimestampOutOfRange { secs: event.start_time });
        },
    };
    let r = if day0 == today0 {
        Ok(Some(find_by_name_query(event.name.as_str())))
    } else {
        Ok(None)
    };
    proof {
        import_looks_up_exactly_todays_events(event, today0 as int, r);
    }
    r
}

/// The first step of importing `event` on the current local day.
pub fn import_lookup(event: &Task) -> (r: Result<Option<String>, TimestampOutOfRange>)
    ensures
        exists|now: LocalClock| #![trigger import_lookup_result(event, now.day0 as int, r)]
            now.wf() && import_lookup_result(event, now.day0 as int, r),
        (r is Err) <==> !utc_in_range(event.start_time),
        r matches Ok(Some(q)) ==> q@ == find_by_name_sql(event.name@),
{
    let now = local_clock_now();
    let r = import_lookup_at(event, now.day0);
    assert(now.wf() && import_lookup_result(event, now.day0 as int, r));
    r
}

/// Some stored task with the event's name has the event's start and end.
pub open spec fn already_stored(stored: Seq<(i64, i64)>, start: i64, end: i64) -> bool {
    exists|i: int| 0 <= i < stored.len() && #[trigger] stored[i] == (start, end)
}

/// The second step of importing `event`, given the (start, end) pairs of
/// the stored tasks with its name: the statement that stores it, unless one
/// of them has its start and end already.
pub fn import_insert(event: &Task, stored: &Vec<(i64, i64)>) -> (r: Option<String>)
    ensures
        already_stored(stored@, event.start_time, event.end_time) ==> r is None,
        !already_stored(stored@, event.start_time, event.end_time) ==> (r matches Some(q) && q@
            == insert_imported_sql(
            event.task_type@,
            event.name@,
            event.start_time as int,
            event.end_time as int,
        )),
{
    let mut found = false;
    let mut i: usize = 0;
    while i < stored.len()
        invariant
            i <= stored.len(),
            found <==> exists|j: int| 0 <= j < i && #[trigger] stored@[j] == (event.start_time, event.end_time),
        decreases stored.len() - i,
    {
        let (s, e): (i64, i64) = stored[i];
        if s == event.start_time && e == event.end_time {
            found = true;
        }
        i = i + 1;
    }
    if found {
        None
    } else {
        Some(import_task_query(event))
    }
}

} // verus!
