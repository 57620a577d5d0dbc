use vstd::prelude::*;

use crate::errors::{result_is, single_field_error, validation_error, AppError, AppErrorView};
use crate::ranks::{chain_ranks, ranks_for, seq_result};
use crate::text::{is_blank, is_blank_text};

verus! {

/// The body of `POST /api/tasks/ranks/batch-init`: the tasks of a view, in the order they
/// are to get ranks.
#[derive(Debug)]
pub struct BatchInitRanksRequest {
    pub view_context: String,
    pub task_ids: Vec<u128>,
}

/// The rank given to one task.
#[derive(Debug)]
pub struct TaskRankAssignment {
    pub task_id: u128,
    pub new_rank: String,
}

/// The ranks given, and when.
#[derive(Debug)]
pub struct BatchInitRanksResponse {
    pub view_context: String,
    pub assigned: Vec<TaskRankAssignment>,
    pub updated_at: String,
}

/// The view of a sort request must not be blank.
pub open spec fn view_context_check(view_context: Seq<char>) -> Result<(), AppErrorView> {
    if is_blank(view_context) {
        Err(single_field_error("view_context"@, "view_context cannot be empty"@, "VIEW_CONTEXT_REQUIRED"@))
    } else {
        Ok(())
    }
}

/// Checks the view named in a sort request.
pub fn validate_view_context(view_context: &str) -> (r: Result<(), AppError>)
    ensures
        result_is(r, view_context_check(view_context@)),
{
    if is_blank_text(view_context) {
        return Err(validation_error("view_context", "view_context cannot be empty", "VIEW_CONTEXT_REQUIRED"));
    }
    Ok(())
}

/// Checks the request; an empty list of tasks is fine.
pub fn validate(request: &BatchInitRanksRequest) -> (r: Result<(), AppError>)
    ensures
        result_is(r, view_context_check(request.view_context@)),
{
    validate_view_context(request.view_context.as_str())
}

/// Ranks for the tasks, in their order: after one another in an empty view, or in front of
/// the view's first rank when it has one (see `chain_ranks`).
pub fn generate_ranks<F: Fn(Option<String>, Option<String>) -> Result<String, AppError>>(
    existing_first: Option<String>,
    task_ids: &Vec<u128>,
    between: &F,
) -> (r: Result<Vec<TaskRankAssignment>, AppError>)
    requires
        forall|a: Option<String>, b: Option<String>| call_requires(*between, (a, b)),
    ensures
        match r {
            Ok(v) => v@.len() == task_ids@.len() && (forall|i: int| 0 <= i < v@.len() ==> (#[trigger] v@[i]).task_id == task_ids@[i])
                && ranks_for(*between, existing_first, task_ids@.len(), Ok::<Seq<String>, AppError>(task_ranks(v@))),
            Err(e) => ranks_for(*between, existing_first, task_ids@.len(), Err::<Seq<String>, AppError>(e)),
        },
{
    let ranks = match chain_ranks(&existing_first, task_ids.len(), between) {
        Ok(v) => v,
        Err(e) => {
            return Err(e);
        },
    };
    let mut out: Vec<TaskRankAssignment> = Vec::new();
    let mut i: usize = 0;
    while i < ranks.len()
        invariant
            i <= ranks@.len(),
            ranks@.len() == task_ids@.len(),
            out@.len() == i,
            forall|k: int| 0 <= k < i ==> (#[trigger] out@[k]).task_id == task_ids@[k] && out@[k].new_rank == ranks@[k],
        decreases ranks@.len() - i,
    {
        out.push(TaskRankAssignment { task_id: task_ids[i], new_rank: ranks[i].clone() });
        i = i + 1;
    }
    proof {
        assert(task_ranks(out@) =~= ranks@);
    }
    Ok(out)
}

pub open spec fn task_ranks(v: Seq<TaskRankAssignment>) -> Seq<String> {
    v.map_values(|a: TaskRankAssignment| a.new_rank)
}

} // verus!
