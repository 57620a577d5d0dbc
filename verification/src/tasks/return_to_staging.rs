use vstd::prelude::*;

verus! {

/// The task after it went back to staging.
#[derive(Debug)]
pub struct ReturnToStagingResponse<Card> {
    pub task_card: Card,
}

/// Whether a task going back to staging is reopened: when it was completed.
pub fn reopens_on_return_to_staging(is_completed: bool) -> (r: bool)
    ensures
        r == is_completed,
{
    is_completed
}

} // verus!
