use vstd::prelude::*;

verus! {

/// What `DELETE /api/tasks/:id` answers.
#[derive(Debug)]
pub struct DeleteTaskResponse {
    pub success: bool,
}

} // verus!
