use vstd::prelude::*;

use crate::errors::{not_found, AppError, AppErrorView};
use crate::ids::{uuid_text, uuid_to_string};

verus! {

/// A write that touched no row of the step means there is no such step.
pub fn step_written(affected: u64, step_id: u128) -> (r: Result<(), AppError>)
    ensures
        affected > 0 ==> r is Ok,
        affected == 0 ==> (r matches Err(e) && e@ == (AppErrorView::NotFound {
            entity_type: "ShutdownRitualStep"@,
            entity_id: uuid_text(step_id),
        })),
{
    if affected == 0 {
        return Err(not_found("ShutdownRitualStep", uuid_to_string(step_id).as_str()));
    }
    Ok(())
}

/// A step that no row counts is not there.
pub fn check_step_exists(count: i64, step_id: u128) -> (r: Result<(), AppError>)
    ensures
        count > 0 ==> r is Ok,
        count <= 0 ==> (r matches Err(e) && e@ == (AppErrorView::NotFound {
            entity_type: "ShutdownRitualStep"@,
            entity_id: uuid_text(step_id),
        })),
{
    if count <= 0 {
        return Err(not_found("ShutdownRitualStep", uuid_to_string(step_id).as_str()));
    }
    Ok(())
}

} // verus!
