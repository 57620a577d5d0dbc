use vstd::prelude::*;

use crate::dates::{
    calendar_date_exists, format_naive_date, instant_in_range, instant_local_date, ymd_text, ymd_format,
    ymd_format_text, CalendarDate, Instant,
};
use crate::errors::{result_is, AppError};
use crate::tasks::schedule_day::{parse_scheduled_day, scheduled_day_check};
use crate::tasks::transaction::TaskTransactionResult;
use crate::text::str_eq;

verus! {

/// The task after the schedule was removed, and the orphaned blocks deleted with it, as
/// answered and as carried by `task.schedule_deleted`.
#[derive(Debug)]
pub struct DeleteScheduleResponse<Card, Block> {
    pub result: TaskTransactionResult<Card, Block>,
}

/// Reads the day of the schedule to delete (`YYYY-MM-DD`), written back in chrono's form.
pub fn parse_date(date_str: &str) -> (r: Result<String, AppError>)
    ensures
        result_is(r, scheduled_day_check(date_str@)),
{
    parse_scheduled_day(date_str)
}

/// A floating time block linked to the task, with the day it starts on in local time.
#[derive(Debug)]
pub struct BlockDay {
    pub id: u128,
    pub local_day: CalendarDate,
}

/// The ids of the blocks whose local start day, written `YYYY-MM-DD`, is `day`, in order.
pub open spec fn ids_on_day(blocks: Seq<BlockDay>, day: Seq<char>) -> Seq<u128>
    decreases blocks.len(),
{
    if blocks.len() == 0 {
        seq![]
    } else {
        let prev = ids_on_day(blocks.drop_last(), day);
        if ymd_text(blocks.last().local_day.ymd()) == day {
            prev.push(blocks.last().id)
        } else {
            prev
        }
    }
}

pub open spec fn days_exist(blocks: Seq<BlockDay>) -> bool {
    forall|i: int| 0 <= i < blocks.len() ==> calendar_date_exists(#[trigger] blocks[i].local_day.ymd())
}

/// The blocks that belong to the scheduled day: those whose local start day is written
/// exactly as `day`.
pub fn blocks_on_day(blocks: &Vec<BlockDay>, day: &str) -> (r: Vec<u128>)
    requires
        days_exist(blocks@),
    ensures
        r@ == ids_on_day(blocks@, day@),
{
    let mut out: Vec<u128> = Vec::new();
    let mut i: usize = 0;
    while i < blocks.len()
        invariant
            i <= blocks@.len(),
            days_exist(blocks@),
            out@ == ids_on_day(blocks@.subrange(0, i as int), day@),
        decreases blocks@.len() - i,
    {
        let ghost prefix = blocks@.subrange(0, i + 1);
        assert(prefix.drop_last() =~= blocks@.subrange(0, i as int));
        assert(calendar_date_exists(blocks@[i as int].local_day.ymd()));
        let text = format_naive_date(&blocks[i].local_day, ymd_format_text());
        if str_eq(text.as_str(), day) {
            out.push(blocks[i].id);
        }
        i = i + 1;
    }
    assert(blocks@.subrange(0, i as int) =~= blocks@);
    out
}

/// A floating time block linked to the task, with its start instant.
#[derive(Debug)]
pub struct BlockStart {
    pub id: u128,
    pub start: Instant,
}

pub open spec fn starts_in_range(blocks: Seq<BlockStart>) -> bool {
    forall|i: int| 0 <= i < blocks.len() ==> instant_in_range(#[trigger] blocks[i].start)
}

/// The floating blocks of the task that start on the scheduled day in the machine's time
/// zone. Which local day a block starts on depends on the time zone; the result is what
/// `blocks_on_day` gives for some local day of each block, the ids kept in order.
pub fn find_floating_time_blocks_for_day(blocks: &Vec<BlockStart>, day: &str) -> (r: Vec<u128>)
    requires
        starts_in_range(blocks@),
    ensures
        exists|days: Seq<BlockDay>|
            #![trigger ids_on_day(days, day@)]
            days.len() == blocks@.len() && days_exist(days) && (forall|i: int|
                0 <= i < days.len() ==> (#[trigger] days[i]).id == blocks@[i].id) && r@ == ids_on_day(days, day@),
{
    let mut days: Vec<BlockDay> = Vec::new();
    let mut i: usize = 0;
    while i < blocks.len()
        invariant
            i <= blocks@.len(),
            starts_in_range(blocks@),
            days@.len() == i,
            days_exist(days@),
            forall|k: int| 0 <= k < i ==> (#[trigger] days@[k]).id == blocks@[k].id,
        decreases blocks@.len() - i,
    {
        assert(instant_in_range(blocks@[i as int].start));
        let d = instant_local_date(&blocks[i].start);
        days.push(BlockDay { id: blocks[i].id, local_day: d });
        i = i + 1;
    }
    let r = blocks_on_day(&days, day);
    assert(r@ == ids_on_day(days@, day@));
    r
}

/// A block linked to the task, with how many tasks stay linked to it once the link is gone.
#[derive(Debug)]
pub struct BlockLinks {
    pub id: u128,
    pub remaining_links: i64,
}

/// The ids of the blocks left with no task, in order.
pub open spec fn orphan_ids(blocks: Seq<BlockLinks>) -> Seq<u128>
    decreases blocks.len(),
{
    if blocks.len() == 0 {
        seq![]
    } else {
        let prev = orphan_ids(blocks.drop_last());
        if blocks.last().remaining_links == 0 {
            prev.push(blocks.last().id)
        } else {
            prev
        }
    }
}

/// The floating blocks that removing the day's schedule leaves without any task, to be
/// deleted (whatever their source).
pub fn orphaned_blocks(blocks: &Vec<BlockLinks>) -> (r: Vec<u128>)
    ensures
        r@ == orphan_ids(blocks@),
{
    let mut out: Vec<u128> = Vec::new();
    let mut i: usize = 0;
    while i < blocks.len()
        invariant
            i <= blocks@.len(),
            out@ == orphan_ids(blocks@.subrange(0, i as int)),
        decreases blocks@.len() - i,
    {
        let ghost prefix = blocks@.subrange(0, i + 1);
        assert(prefix.drop_last() =~= blocks@.subrange(0, i as int));
        if blocks[i].remaining_links == 0 {
            out.push(blocks[i].id);
        }
        i = i + 1;
    }
    assert(blocks@.subrange(0, i as int) =~= blocks@);
    out
}

} // verus!
