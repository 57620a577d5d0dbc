use vstd::prelude::*;

use crate::errors::{conflict, AppError};
use crate::tasks::lifecycle::{conflict_unless, matches_check};
use crate::tasks::transaction::TaskTransactionResult;

verus! {

/// The task after it was taken out of the archive.
#[derive(Debug)]
pub struct UnarchiveTaskResponse<Card, Block> {
    pub result: TaskTransactionResult<Card, Block>,
}

/// A task can be taken out of the archive only when it is archived.
pub fn check_can_unarchive(is_archived: bool) -> (r: Result<(), AppError>)
    ensures
        matches_check(r, conflict_unless(is_archived, "任务未归档"@)),
{
    if !is_archived {
        return Err(conflict("任务未归档"));
    }
    Ok(())
}

} // verus!
