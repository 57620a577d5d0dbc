use vstd::prelude::*;

use crate::errors::{not_found, AppError, AppErrorView};
use crate::ids::{uuid_text, uuid_to_string};

verus! {

pub open spec fn conflict_unless(ok: bool, message: Seq<char>) -> Result<(), AppErrorView> {
    if ok { Ok(()) } else { Err(AppErrorView::Conflict { message }) }
}

pub open spec fn matches_check(r: Result<(), AppError>, expected: Result<(), AppErrorView>) -> bool {
    match expected {
        Ok(()) => r is Ok,
        Err(e) => r matches Err(x) && x@ == e,
    }
}

/// The 404 for a task that is not there (`Task`).
pub fn task_not_found(task_id: u128) -> (e: AppError)
    ensures
        e@ == (AppErrorView::NotFound { entity_type: "Task"@, entity_id: uuid_text(task_id) }),
{
    not_found("Task", uuid_to_string(task_id).as_str())
}

/// The 404 for a task that is not in the trash (`Task in trash`).
pub fn trashed_task_not_found(task_id: u128) -> (e: AppError)
    ensures
        e@ == (AppErrorView::NotFound { entity_type: "Task in trash"@, entity_id: uuid_text(task_id) }),
{
    not_found("Task in trash", uuid_to_string(task_id).as_str())
}

} // verus!
