use vstd::prelude::*;

verus! {

/// Time blocks that an operation on a task deleted or cut short.
#[derive(Debug)]
pub struct SideEffects<Block> {
    pub deleted_time_blocks: Option<Vec<Block>>,
    pub truncated_time_blocks: Option<Vec<Block>>,
}

/// What a task operation answers, and what its event carries: the task and the side effects.
#[derive(Debug)]
pub struct TaskTransactionResult<Card, Block> {
    pub task: Card,
    pub side_effects: SideEffects<Block>,
}

/// `None` for an empty list, the list otherwise.
pub fn none_if_empty<T>(items: Vec<T>) -> (r: Option<Vec<T>>)
    ensures
        items@.len() == 0 ==> r is None,
        items@.len() > 0 ==> r == Some(items),
{
    if items.len() == 0 {
        None
    } else {
        Some(items)
    }
}

impl<Block> SideEffects<Block> {
    /// No side effects.
    pub fn empty() -> (r: Self)
        ensures
            r.deleted_time_blocks is None,
            r.truncated_time_blocks is None,
    {
        SideEffects { deleted_time_blocks: None, truncated_time_blocks: None }
    }

    /// The side effects of deleting and cutting the given blocks; an empty list is left out.
    pub fn from_blocks(deleted: Vec<Block>, truncated: Vec<Block>) -> (r: Self)
        ensures
            deleted@.len() == 0 ==> r.deleted_time_blocks is None,
            deleted@.len() > 0 ==> r.deleted_time_blocks == Some(deleted),
            truncated@.len() == 0 ==> r.truncated_time_blocks is None,
            truncated@.len() > 0 ==> r.truncated_time_blocks == Some(truncated),
    {
        SideEffects { deleted_time_blocks: none_if_empty(deleted), truncated_time_blocks: none_if_empty(truncated) }
    }
}

} // verus!
