use vstd::prelude::*;

use crate::dates::ymd_text;
use crate::tasks::delete_schedule::{ids_on_day, orphan_ids, BlockDay, BlockLinks};

verus! {

/// `x` is the id of a block of `blocks` left with no task.
pub open spec fn is_id_of_block_without_tasks(blocks: Seq<BlockLinks>, x: u128) -> bool {
    exists|i: int| #![trigger blocks[i]] 0 <= i < blocks.len() && blocks[i].remaining_links == 0 && blocks[i].id == x
}

/// Each id in `ids` is the id of a block of `blocks` left with no task.
pub open spec fn only_blocks_without_tasks(blocks: Seq<BlockLinks>, ids: Seq<u128>) -> bool {
    forall|j: int| 0 <= j < ids.len() ==> is_id_of_block_without_tasks(blocks, #[trigger] ids[j])
}

/// The id of each block of `blocks` left with no task is in `ids`.
pub open spec fn all_blocks_without_tasks(blocks: Seq<BlockLinks>, ids: Seq<u128>) -> bool {
    forall|i: int| 0 <= i < blocks.len() && #[trigger] blocks[i].remaining_links == 0 ==> ids.contains(blocks[i].id)
}

proof fn lemma_orphans_sound(blocks: Seq<BlockLinks>)
    ensures
        only_blocks_without_tasks(blocks, orphan_ids(blocks)),
    decreases blocks.len(),
{
    if blocks.len() > 0 {
        let prev = blocks.drop_last();
        lemma_orphans_sound(prev);
        let r = orphan_ids(blocks);
        let pr = orphan_ids(prev);
        let n = blocks.len() - 1;
        assert forall|j: int| 0 <= j < r.len() implies is_id_of_block_without_tasks(blocks, #[trigger] r[j]) by {
            if j < pr.len() {
                assert(r[j] == pr[j]);
                assert(is_id_of_block_without_tasks(prev, pr[j]));
                let i = choose|i: int|
                    #![trigger prev[i]]
                    0 <= i < prev.len() && prev[i].remaining_links == 0 && prev[i].id == pr[j];
                assert(blocks[i] == prev[i]);
            } else {
                assert(blocks[n].id == r[j]);
            }
        }
        assert(only_blocks_without_tasks(blocks, r));
    } else {
        assert(orphan_ids(blocks).len() == 0);
        assert(only_blocks_without_tasks(blocks, orphan_ids(blocks)));
    }
}

proof fn lemma_orphans_complete(blocks: Seq<BlockLinks>)
    ensures
        all_blocks_without_tasks(blocks, orphan_ids(blocks)),
    decreases blocks.len(),
{
    if blocks.len() > 0 {
        let prev = blocks.drop_last();
        lemma_orphans_complete(prev);
        let r = orphan_ids(blocks);
        let pr = orphan_ids(prev);
        let n = blocks.len() - 1;
        assert forall|i: int| 0 <= i < blocks.len() && #[trigger] blocks[i].remaining_links == 0 implies r.contains(
            blocks[i].id,
        ) by {
            if i < n {
                assert(prev[i] == blocks[i]);
                assert(prev[i].remaining_links == 0);
                assert(pr.contains(prev[i].id));
                let k = choose|k: int| 0 <= k < pr.len() && pr[k] == prev[i].id;
                assert(r[k] == blocks[i].id);
            } else {
                assert(r[r.len() - 1] == blocks[i].id);
            }
        }
    }
}

/// The blocks deleted with a day's schedule are exactly those left with no task: every id
/// returned is the id of a block whose remaining link count is 0, every such block's id is
/// returned, and a block that still has a task (and whose id no other block shares) is kept.
pub proof fn orphans_are_exactly_the_blocks_without_tasks(blocks: Seq<BlockLinks>)
    ensures
        only_blocks_without_tasks(blocks, orphan_ids(blocks)),
        all_blocks_without_tasks(blocks, orphan_ids(blocks)),
        forall|i: int|
            0 <= i < blocks.len() && #[trigger] blocks[i].remaining_links != 0 && (forall|k: int|
                0 <= k < blocks.len() && blocks[k].id == blocks[i].id ==> k == i) ==> !orphan_ids(blocks).contains(
                blocks[i].id,
            ),
{
    lemma_orphans_sound(blocks);
    lemma_orphans_complete(blocks);
    let r = orphan_ids(blocks);
    assert forall|i: int|
        0 <= i < blocks.len() && #[trigger] blocks[i].remaining_links != 0 && (forall|k: int|
            0 <= k < blocks.len() && blocks[k].id == blocks[i].id ==> k == i) implies !r.contains(blocks[i].id) by {
        if r.contains(blocks[i].id) {
            let j = choose|j: int| 0 <= j < r.len() && r[j] == blocks[i].id;
            assert(is_id_of_block_without_tasks(blocks, r[j]));
            let k = choose|k: int|
                #![trigger blocks[k]]
                0 <= k < blocks.len() && blocks[k].remaining_links == 0 && blocks[k].id == r[j];
            assert(k == i);
        }
    }
}

/// `x` is the id of a block whose local start day is written `day`.
pub open spec fn is_id_of_block_on_day(blocks: Seq<BlockDay>, day: Seq<char>, x: u128) -> bool {
    exists|i: int| #![trigger blocks[i]] 0 <= i < blocks.len() && ymd_text(blocks[i].local_day.ymd()) == day && blocks[i].id == x
}

proof fn lemma_ids_on_day_sound(blocks: Seq<BlockDay>, day: Seq<char>)
    ensures
        forall|j: int|
            0 <= j < ids_on_day(blocks, day).len() ==> is_id_of_block_on_day(blocks, day, #[trigger] ids_on_day(blocks, day)[j]),
    decreases blocks.len(),
{
    if blocks.len() > 0 {
        let prev = blocks.drop_last();
        lemma_ids_on_day_sound(prev, day);
        let r = ids_on_day(blocks, day);
        let pr = ids_on_day(prev, day);
        let n = blocks.len() - 1;
        assert forall|j: int| 0 <= j < r.len() implies is_id_of_block_on_day(blocks, day, #[trigger] r[j]) by {
            if j < pr.len() {
                assert(r[j] == pr[j]);
                assert(is_id_of_block_on_day(prev, day, pr[j]));
                let i = choose|i: int|
                    #![trigger prev[i]]
                    0 <= i < prev.len() && ymd_text(prev[i].local_day.ymd()) == day && prev[i].id == pr[j];
                assert(blocks[i] == prev[i]);
            } else {
                assert(blocks[n].id == r[j]);
            }
        }
    }
}

proof fn lemma_ids_on_day_complete(blocks: Seq<BlockDay>, day: Seq<char>)
    ensures
        forall|i: int|
            0 <= i < blocks.len() && ymd_text((#[trigger] blocks[i]).local_day.ymd()) == day ==> ids_on_day(blocks, day).contains(
                blocks[i].id,
            ),
    decreases blocks.len(),
{
    if blocks.len() > 0 {
        let prev = blocks.drop_last();
        lemma_ids_on_day_complete(prev, day);
        let r = ids_on_day(blocks, day);
        let pr = ids_on_day(prev, day);
        let n = blocks.len() - 1;
        assert forall|i: int| 0 <= i < blocks.len() && ymd_text((#[trigger] blocks[i]).local_day.ymd()) == day implies r.contains(
            blocks[i].id,
        ) by {
            if i < n {
                assert(prev[i] == blocks[i]);
                assert(pr.contains(prev[i].id));
                let k = choose|k: int| 0 <= k < pr.len() && pr[k] == prev[i].id;
                assert(r[k] == blocks[i].id);
            } else {
                assert(r[r.len() - 1] == blocks[i].id);
            }
        }
    }
}

/// The blocks of the deleted day are exactly those whose local start day is written as that
/// day: every id listed belongs to such a block and every such block's id is listed.
pub proof fn blocks_on_day_are_exactly_those_starting_that_day(blocks: Seq<BlockDay>, day: Seq<char>)
    ensures
        forall|j: int|
            0 <= j < ids_on_day(blocks, day).len() ==> is_id_of_block_on_day(blocks, day, #[trigger] ids_on_day(blocks, day)[j]),
        forall|i: int|
            0 <= i < blocks.len() && ymd_text((#[trigger] blocks[i]).local_day.ymd()) == day ==> ids_on_day(blocks, day).contains(
                blocks[i].id,
            ),
{
    lemma_ids_on_day_sound(blocks, day);
    lemma_ids_on_day_complete(blocks, day);
}

} // verus!
