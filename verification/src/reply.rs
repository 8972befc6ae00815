//! What the web service answers its clients.

use vstd::prelude::*;
use crate::query::{set_done_sql, update_task_query};
use crate::task::{DeleteTask, UpdateTask};

verus! {

/// The answer to a request for the service's root.
pub const GREETING: &'static str = "Hello World";

/// The answer to a request that changed the stored tasks.
pub const SUCCESS: &'static str = "Success";

/// What a request to set a task's done flag does, once the service has
/// looked the name up: with a stored task of that name, the statement to
/// run (after which the service answers `SUCCESS`); without one, the
/// request is refused as not found, naming the task.
pub fn update_task_outcome(req: &UpdateTask, found: bool) -> (r: Result<String, String>)
    ensures
        found ==> (r matches Ok(q) && q@ == set_done_sql(req.name@, req.is_done)),
        !found ==> (r matches Err(n) && n@ == req.name@),
{
    if found {
        Ok(update_task_query(req))
    } else {
        Err(req.name.clone())
    }
}

/// The answer to a request to delete the tasks with a name, once the
/// delete statement has run (`deleted`) or failed: `SUCCESS`, or a refusal
/// as not found that names the task.
pub fn delete_task_reply(req: &DeleteTask, deleted: bool) -> (r: Result<String, String>)
    ensures
        deleted ==> (r matches Ok(s) && s@ == SUCCESS@),
        !deleted ==> (r matches Err(n) && n@ == req.name@),
{
    if deleted {
        Ok(String::from_str(SUCCESS))
    } else {
        Err(req.name.clone())
    }
}

} // verus!
