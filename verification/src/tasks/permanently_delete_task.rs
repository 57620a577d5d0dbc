use vstd::prelude::*;

use crate::errors::{conflict, AppError};
use crate::tasks::lifecycle::{conflict_unless, matches_check};

verus! {

/// What `DELETE /api/tasks/:id/permanently` answers.
#[derive(Debug)]
pub struct PermanentlyDeleteTaskResponse {
    pub success: bool,
}

/// A task can be deleted for good only from the trash.
pub fn check_can_permanently_delete(is_deleted: bool) -> (r: Result<(), AppError>)
    ensures
        matches_check(r, conflict_unless(is_deleted, "Task is not in trash, cannot permanently delete"@)),
{
    if !is_deleted {
        return Err(conflict("Task is not in trash, cannot permanently delete"));
    }
    Ok(())
}

} // verus!
