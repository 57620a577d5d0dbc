use vstd::prelude::*;

use crate::tasks::transaction::none_if_empty;

verus! {

/// What deleting a project took with it: its tasks and the orphaned time blocks; an
/// empty list is left out.
#[derive(Debug)]
pub struct DeleteProjectSideEffects<Card, Block> {
    pub deleted_tasks: Option<Vec<Card>>,
    pub deleted_time_blocks: Option<Vec<Block>>,
}

impl<Card, Block> DeleteProjectSideEffects<Card, Block> {
    /// Nothing else was deleted.
    pub fn is_empty(&self) -> (r: bool)
        ensures
            r == (self.deleted_tasks is None && self.deleted_time_blocks is None),
    {
        self.deleted_tasks.is_none() && self.deleted_time_blocks.is_none()
    }

    /// The side effects of deleting the given tasks and blocks.
    pub fn from_lists(tasks: Vec<Card>, blocks: Vec<Block>) -> (r: Self)
        ensures
            tasks@.len() == 0 ==> r.deleted_tasks is None,
            tasks@.len() > 0 ==> r.deleted_tasks == Some(tasks),
            blocks@.len() == 0 ==> r.deleted_time_blocks is None,
            blocks@.len() > 0 ==> r.deleted_time_blocks == Some(blocks),
    {
        DeleteProjectSideEffects { deleted_tasks: none_if_empty(tasks), deleted_time_blocks: none_if_empty(blocks) }
    }
}

/// The answer to `DELETE /api/projects/:id`, which the `project.deleted` event carries too.
#[derive(Debug)]
pub struct DeleteProjectResponse<Card, Block> {
    pub id: String,
    pub side_effects: DeleteProjectSideEffects<Card, Block>,
}

} // verus!
