use vstd::prelude::*;

use crate::errors::{result_is, single_field_error, validation_error, AppError, AppErrorView};
use crate::ids::{uuid_text, uuid_to_string};
use crate::tasks::batch_init_ranks::{validate_view_context, view_context_check};

verus! {

/// The body of `PATCH /api/tasks/:id/sort-position`: the view and the task's new
/// neighbours there (`None` for the start or the end).
#[derive(Debug)]
pub struct UpdateSortPositionRequest {
    pub view_context: String,
    pub prev_task_id: Option<u128>,
    pub next_task_id: Option<u128>,
}

/// The task's new rank in the view, and when it was set.
#[derive(Debug)]
pub struct UpdateSortPositionResponse {
    pub task_id: u128,
    pub view_context: String,
    pub new_rank: String,
    pub updated_at: String,
}

/// Checks the request: the view must not be blank; no neighbour at all is fine.
pub fn validate(request: &UpdateSortPositionRequest) -> (r: Result<(), AppError>)
    ensures
        result_is(r, view_context_check(request.view_context@)),
{
    validate_view_context(request.view_context.as_str())
}

/// A neighbour of the moved task must already have a rank in the view.
pub fn rank_or_fail(rank: Option<String>, task_id: u128, view_context: &str) -> (r: Result<String, AppError>)
    ensures
        match rank {
            Some(x) => r == Ok::<String, AppError>(x),
            None => r matches Err(e) && e@ == single_field_error(
                "neighbor_task"@,
                "Task "@ + uuid_text(task_id) + " has no rank in view "@ + view_context@,
                "NEIGHBOR_TASK_MISSING_RANK"@,
            ),
        },
{
    match rank {
        Some(x) => Ok(x),
        None => {
            let mut message = "Task ".to_owned();
            let id = uuid_to_string(task_id);
            message.append(id.as_str());
            message.append(" has no rank in view ");
            message.append(view_context);
            Err(validation_error("neighbor_task", message.as_str(), "NEIGHBOR_TASK_MISSING_RANK"))
        },
    }
}

} // verus!
