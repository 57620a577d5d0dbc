use vstd::prelude::*;

use crate::errors::{conflict, AppError};
use crate::tasks::lifecycle::{conflict_unless, matches_check};
use crate::tasks::transaction::TaskTransactionResult;

verus! {

/// The task after it was reopened, as answered and as carried by the event.
#[derive(Debug)]
pub struct ReopenTaskResponse<Card, Block> {
    pub result: TaskTransactionResult<Card, Block>,
}

/// A task can be reopened only when it is completed.
pub fn check_can_reopen(is_completed: bool) -> (r: Result<(), AppError>)
    ensures
        matches_check(r, conflict_unless(is_completed, "任务尚未完成"@)),
{
    if !is_completed {
        return Err(conflict("任务尚未完成"));
    }
    Ok(())
}

/// Completing and reopening are each allowed in exactly the state the other is refused in.
pub proof fn complete_and_reopen_are_complementary(is_completed: bool)
    ensures
        conflict_unless(!is_completed, "任务已经完成"@) is Ok <==> conflict_unless(is_completed, "任务尚未完成"@) is Err,
{
}

} // verus!
