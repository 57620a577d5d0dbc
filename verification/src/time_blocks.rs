use vstd::prelude::*;

verus! {

/// The source type of a time block that was made by dragging a task onto the calendar.
pub open spec fn from_task_source() -> Seq<char> {
    "native::from_task"@
}

/// The block's source says it was made from a task.
pub open spec fn made_from_task(source_type: Option<String>) -> bool {
    source_type matches Some(s) && s@ == from_task_source()
}

/// Whether a time block that lost a task is to be deleted along with it: only when no task
/// is linked to it any more and it was made from a task. Blocks made by hand, imported
/// ones and old ones without a source are kept.
pub fn should_delete_orphan_block(remaining_tasks: i64, source_type: &Option<String>) -> (r: bool)
    ensures
        r == (remaining_tasks <= 0 && made_from_task(*source_type)),
{
    if remaining_tasks > 0 {
        return false;
    }
    match source_type {
        Some(s) => crate::text::str_eq(s.as_str(), "native::from_task"),
        None => false,
    }
}

/// A time block that was linked to a task being deleted: how many tasks are still linked
/// to it, and the source type it was made with.
#[derive(Debug)]
pub struct LinkedBlock {
    pub id: u128,
    pub remaining_tasks: i64,
    pub source_type: Option<String>,
}

/// The ids of the blocks to delete with the task, in order.
pub open spec fn orphan_block_ids(blocks: Seq<LinkedBlock>) -> Seq<u128>
    decreases blocks.len(),
{
    if blocks.len() == 0 {
        seq![]
    } else {
        let prev = orphan_block_ids(blocks.drop_last());
        let b = blocks.last();
        if b.remaining_tasks <= 0 && made_from_task(b.source_type) {
            prev.push(b.id)
        } else {
            prev
        }
    }
}

/// The linked blocks that deleting a task leaves orphaned and that were made from a task.
pub fn orphan_blocks_to_delete(blocks: &Vec<LinkedBlock>) -> (r: Vec<u128>)
    ensures
        r@ == orphan_block_ids(blocks@),
{
    let mut out: Vec<u128> = Vec::new();
    let mut i: usize = 0;
    while i < blocks.len()
        invariant
            i <= blocks@.len(),
            out@ == orphan_block_ids(blocks@.subrange(0, i as int)),
        decreases blocks@.len() - i,
    {
        let ghost prefix = blocks@.subrange(0, i + 1);
        assert(prefix.drop_last() =~= blocks@.subrange(0, i as int));
        let b = &blocks[i];
        if should_delete_orphan_block(b.remaining_tasks, &b.source_type) {
            out.push(b.id);
        }
        i = i + 1;
    }
    assert(blocks@.subrange(0, i as int) =~= blocks@);
    out
}

/// No id occurs twice.
pub open spec fn no_duplicates(ids: Seq<u128>) -> bool {
    forall|i: int, j: int| 0 <= i < j < ids.len() ==> ids[i] != ids[j]
}

/// Adds a block to the list of blocks to delete unless it is already there.
pub fn push_unique(ids: &mut Vec<u128>, id: u128)
    ensures
        old(ids)@.contains(id) ==> final(ids)@ == old(ids)@,
        !old(ids)@.contains(id) ==> final(ids)@ == old(ids)@.push(id),
{
    let mut i: usize = 0;
    while i < ids.len()
        invariant
            i <= ids@.len(),
            ids@ == old(ids)@,
            forall|k: int| 0 <= k < i ==> ids@[k] != id,
        decreases ids@.len() - i,
    {
        if ids[i] == id {
            return;
        }
        i = i + 1;
    }
    ids.push(id);
}

/// Adding with `push_unique` keeps a list free of duplicates, and the id is in the list
/// afterwards.
pub proof fn push_unique_keeps_ids_distinct(before: Seq<u128>, after: Seq<u128>, id: u128)
    requires
        no_duplicates(before),
        before.contains(id) ==> after == before,
        !before.contains(id) ==> after == before.push(id),
    ensures
        no_duplicates(after),
        after.contains(id),
        forall|x: u128| before.contains(x) ==> after.contains(x),
{
    if !before.contains(id) {
        assert forall|i: int, j: int| 0 <= i < j < after.len() implies after[i] != after[j] by {
            if j == before.len() {
                assert(after[i] == before[i]);
                assert(after[j] == id);
            }
        }
        assert(after[before.len() as int] == id);
        assert forall|x: u128| before.contains(x) implies after.contains(x) by {
            let k = choose|k: int| 0 <= k < before.len() && before[k] == x;
            assert(after[k] == x);
        }
    }
}


/// Every block picked for deletion is one of the given blocks, left without tasks and made
/// from a task; blocks that still have tasks are never picked.
pub proof fn orphan_selection_is_sound(blocks: Seq<LinkedBlock>)
    ensures
        forall|j: int|
            0 <= j < orphan_block_ids(blocks).len() ==> exists|i: int|
                0 <= i < blocks.len() && #[trigger] blocks[i].id == #[trigger] orphan_block_ids(blocks)[j]
                    && blocks[i].remaining_tasks <= 0 && made_from_task(blocks[i].source_type),
    decreases blocks.len(),
{
    if blocks.len() > 0 {
        let d = blocks.drop_last();
        orphan_selection_is_sound(d);
        let r = orphan_block_ids(blocks);
        let p = orphan_block_ids(d);
        assert forall|j: int| 0 <= j < r.len() implies exists|i: int|
            0 <= i < blocks.len() && #[trigger] blocks[i].id == #[trigger] r[j] && blocks[i].remaining_tasks <= 0
                && made_from_task(blocks[i].source_type) by {
            if j < p.len() {
                assert(r[j] == p[j]);
                let i = choose|i: int|
                    0 <= i < d.len() && #[trigger] d[i].id == #[trigger] p[j] && d[i].remaining_tasks <= 0
                        && made_from_task(d[i].source_type);
                assert(blocks[i] == d[i]);
            } else {
                let i = blocks.len() - 1;
                assert(blocks[i] == blocks.last());
            }
        }
    }
}

/// Every block left without tasks and made from a task is picked for deletion.
pub proof fn orphan_selection_is_complete(blocks: Seq<LinkedBlock>)
    ensures
        forall|i: int|
            0 <= i < blocks.len() && (#[trigger] blocks[i]).remaining_tasks <= 0 && made_from_task(blocks[i].source_type)
                ==> orphan_block_ids(blocks).contains(blocks[i].id),
    decreases blocks.len(),
{
    if blocks.len() > 0 {
        let d = blocks.drop_last();
        orphan_selection_is_complete(d);
        let r = orphan_block_ids(blocks);
        let p = orphan_block_ids(d);
        let n = blocks.len() - 1;
        assert forall|i: int|
            0 <= i < blocks.len() && (#[trigger] blocks[i]).remaining_tasks <= 0 && made_from_task(blocks[i].source_type)
                implies r.contains(blocks[i].id) by {
            if i < n {
                assert(d[i] == blocks[i]);
                assert(p.contains(d[i].id));
                let k = choose|k: int| 0 <= k < p.len() && p[k] == d[i].id;
                assert(r[k] == blocks[i].id);
            } else {
                assert(r[r.len() - 1] == blocks[i].id);
            }
        }
    }
}

} // verus!
