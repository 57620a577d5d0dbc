use vstd::prelude::*;

use crate::errors::{conflict, AppError};
use crate::tasks::lifecycle::{conflict_unless, matches_check};

verus! {

/// A task can be restored only from the trash.
pub fn check_can_restore(is_deleted: bool) -> (r: Result<(), AppError>)
    ensures
        matches_check(r, conflict_unless(is_deleted, "Task is not in trash"@)),
{
    if !is_deleted {
        return Err(conflict("Task is not in trash"));
    }
    Ok(())
}

} // verus!
