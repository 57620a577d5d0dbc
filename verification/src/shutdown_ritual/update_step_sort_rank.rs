use vstd::prelude::*;

use crate::errors::{single_field_error, validation_error, AppError, AppErrorView};

verus! {

/// The body of `PATCH /api/shutdown-ritual/steps/:id/order-rank`: the steps the moved one
/// lands between.
#[derive(Debug)]
pub struct UpdateShutdownRitualStepSortRequest {
    pub prev_step_id: Option<u128>,
    pub next_step_id: Option<u128>,
}

/// The two neighbours of a moved step cannot be the same step.
pub open spec fn neighbors_check(prev: Option<u128>, next: Option<u128>) -> Result<(), AppErrorView> {
    if prev is Some && prev == next {
        Err(single_field_error("prev_step_id"@, "prev_step_id and next_step_id cannot be the same"@, "INVALID_NEIGHBORS"@))
    } else {
        Ok(())
    }
}

/// Checks the neighbours named in a reorder request.
pub fn check_neighbors(request: &UpdateShutdownRitualStepSortRequest) -> (r: Result<(), AppError>)
    ensures
        match neighbors_check(request.prev_step_id, request.next_step_id) {
            Ok(()) => r is Ok,
            Err(e) => r matches Err(x) && x@ == e,
        },
{
    match (request.prev_step_id, request.next_step_id) {
        (Some(p), Some(n)) => {
            if p == n {
                return Err(validation_error("prev_step_id", "prev_step_id and next_step_id cannot be the same", "INVALID_NEIGHBORS"));
            }
            Ok(())
        },
        _ => Ok(()),
    }
}

} // verus!
