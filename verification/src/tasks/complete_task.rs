use vstd::prelude::*;

use crate::dates::{
    calendar_date_exists, date_before, date_is_before, format_naive_date, instant_is_before, ymd_format_text, instant_before, local_today,
    ymd_text, naive_date_parsed, parse_naive_date, ymd_format, CalendarDate, Instant,
};
use crate::entities::{ScheduleStatus, Subtask, SubtaskView, subtasks_view};
use crate::errors::{conflict, result_is, single_field_error, validation_error, AppError, AppErrorView};
use crate::tasks::transaction::TaskTransactionResult;
use crate::text::{first_piece, second_piece, split_double_colon, str_eq, str_less, text_less};

verus! {

/// The answer to completing a task: the task and the time blocks the completion removed or cut.
#[derive(Debug)]
pub struct CompleteTaskResponse<Card, Block> {
    pub result: TaskTransactionResult<Card, Block>,
}

/// The day on which completing a task from the view `view` (`{type}::{identifier}`) records
/// the completion, given today's date as `YYYY-MM-DD`: a past day of a `daily` view keeps its
/// own date, today or a later day of a `daily` view gives today, and the `misc`, `area` and
/// `project` views give today. The day of a `daily` view must read as a `YYYY-MM-DD` date.
pub open spec fn schedule_date_for_view_spec(view: Seq<char>, today: Seq<char>) -> Result<Seq<char>, AppErrorView> {
    let kind = first_piece(view);
    if kind == "daily"@ {
        match second_piece(view) {
            None => Err(
                single_field_error(
                    "view_context"@,
                    "Invalid daily context: missing date"@,
                    "MISSING_DATE"@,
                ),
            ),
            Some(day) => if naive_date_parsed(day, ymd_format()) is None {
                Err(
                    single_field_error(
                        "view_context"@,
                        "Invalid daily context: date must be YYYY-MM-DD"@,
                        "INVALID_DATE_FORMAT"@,
                    ),
                )
            } else if text_less(day, today) {
                Ok(day)
            } else {
                Ok(today)
            },
        }
    } else if kind == "misc"@ || kind == "area"@ || kind == "project"@ {
        Ok(today)
    } else {
        Err(
            single_field_error(
                "view_context"@,
                "Unknown view context type"@,
                "UNKNOWN_VIEW_CONTEXT_TYPE"@,
            ),
        )
    }
}

/// The day that completing a task from `view_context` records, with `today` as `YYYY-MM-DD`.
pub fn schedule_date_for_view(view_context: &str, today: &str) -> (r: Result<String, AppError>)
    ensures
        result_is(r, schedule_date_for_view_spec(view_context@, today@)),
{
    let (kind, day) = split_double_colon(view_context);
    if str_eq(kind, "daily") {
        match day {
            None => Err(
                validation_error(
                    "view_context",
                    "Invalid daily context: missing date",
                    "MISSING_DATE",
                ),
            ),
            Some(d) => {
                if parse_naive_date(d, ymd_format_text()).is_none() {
                    Err(
                        validation_error(
                            "view_context",
                            "Invalid daily context: date must be YYYY-MM-DD",
                            "INVALID_DATE_FORMAT",
                        ),
                    )
                } else if str_less(d, today) {
                    Ok(d.to_owned())
                } else {
                    Ok(today.to_owned())
                }
            },
        }
    } else if str_eq(kind, "misc") || str_eq(kind, "area") || str_eq(kind, "project") {
        Ok(today.to_owned())
    } else {
        Err(validation_error("view_context", "Unknown view context type", "UNKNOWN_VIEW_CONTEXT_TYPE"))
    }
}

/// The day that completing a task from `view_context` records, today being the machine's
/// local date. Which date that is depends on the clock; the result is the one
/// `schedule_date_for_view` gives for some date that chrono can hold, written `YYYY-MM-DD`.
pub fn determine_schedule_date(view_context: &str) -> (r: Result<String, AppError>)
    ensures
        exists|today: (int, int, int)|
            calendar_date_exists(today) && result_is(
                r,
                schedule_date_for_view_spec(view_context@, ymd_text(today)),
            ),
{
    let today = local_today();
    let today_str = format_naive_date(&today, ymd_format_text());
    let r = schedule_date_for_view(view_context, today_str.as_str());
    proof {
        assert(calendar_date_exists(today.ymd()));
    }
    r
}

/// What completing a task does to one of its linked time blocks.
#[derive(Clone, Copy, Debug, PartialEq, Eq, Structural)]
pub enum TimeBlockAction {
    /// The block stays as it is.
    Kept,
    /// The block is cut short at the completion time.
    Truncated,
    /// The block is deleted.
    Deleted,
}

/// Only a block linked to the task alone and carrying the task's title is touched: cut
/// short when it is running at `now`, deleted when it starts after `now`. Blocks that ended
/// before `now`, shared blocks and blocks with another title stay.
pub open spec fn time_block_action(
    is_exclusive: bool,
    block_title: Option<Seq<char>>,
    task_title: Seq<char>,
    start: Instant,
    end: Instant,
    now: Instant,
) -> TimeBlockAction {
    if !is_exclusive {
        TimeBlockAction::Kept
    } else if instant_before(end, now) {
        TimeBlockAction::Kept
    } else if block_title != Some(task_title) {
        TimeBlockAction::Kept
    } else if !instant_before(now, start) && instant_before(now, end) {
        TimeBlockAction::Truncated
    } else if instant_before(now, start) {
        TimeBlockAction::Deleted
    } else {
        TimeBlockAction::Kept
    }
}

/// Decides what completing a task at `now` does to a linked time block that spans `start`
/// to `end`; `is_exclusive` says that the block is linked to the task only.
pub fn classify_time_block_action(
    is_exclusive: bool,
    block_title: &Option<String>,
    task_title: &str,
    start: &Instant,
    end: &Instant,
    now: &Instant,
) -> (r: TimeBlockAction)
    ensures
        r == time_block_action(
            is_exclusive,
            match block_title {
                Some(t) => Some(t@),
                None => None,
            },
            task_title@,
            *start,
            *end,
            *now,
        ),
{
    if !is_exclusive {
        return TimeBlockAction::Kept;
    }
    let is_auto_created = match block_title {
        Some(t) => str_eq(t.as_str(), task_title),
        None => false,
    };
    if instant_is_before(end, now) {
        return TimeBlockAction::Kept;
    }
    if !is_auto_created {
        return TimeBlockAction::Kept;
    }
    if !instant_is_before(now, start) && instant_is_before(now, end) {
        TimeBlockAction::Truncated
    } else if instant_is_before(now, start) {
        TimeBlockAction::Deleted
    } else {
        TimeBlockAction::Kept
    }
}

/// A time block linked to the task being completed.
#[derive(Debug)]
pub struct CompletionBlock {
    pub id: u128,
    /// No other task is linked to the block.
    pub is_exclusive: bool,
    pub title: Option<String>,
    pub start: Instant,
    pub end: Instant,
}

pub open spec fn opt_title(o: Option<String>) -> Option<Seq<char>> {
    match o {
        Some(t) => Some(t@),
        None => None,
    }
}

pub open spec fn block_action(b: CompletionBlock, task_title: Seq<char>, now: Instant) -> TimeBlockAction {
    time_block_action(b.is_exclusive, opt_title(b.title), task_title, b.start, b.end, now)
}

/// The ids of the blocks that completion gives the action `which`, in order.
pub open spec fn ids_with_action(
    blocks: Seq<CompletionBlock>,
    task_title: Seq<char>,
    now: Instant,
    which: TimeBlockAction,
) -> Seq<u128>
    decreases blocks.len(),
{
    if blocks.len() == 0 {
        seq![]
    } else {
        let prev = ids_with_action(blocks.drop_last(), task_title, now, which);
        if block_action(blocks.last(), task_title, now) == which {
            prev.push(blocks.last().id)
        } else {
            prev
        }
    }
}

/// What completing the task at `now` does to its linked blocks: the ids to delete and the
/// ids to cut short, each in the order of `blocks`.
pub fn plan_block_changes(blocks: &Vec<CompletionBlock>, task_title: &str, now: &Instant) -> (r: (Vec<u128>, Vec<u128>))
    ensures
        r.0@ == ids_with_action(blocks@, task_title@, *now, TimeBlockAction::Deleted),
        r.1@ == ids_with_action(blocks@, task_title@, *now, TimeBlockAction::Truncated),
{
    let mut deleted: Vec<u128> = Vec::new();
    let mut truncated: Vec<u128> = Vec::new();
    let mut i: usize = 0;
    while i < blocks.len()
        invariant
            i <= blocks@.len(),
            deleted@ == ids_with_action(blocks@.subrange(0, i as int), task_title@, *now, TimeBlockAction::Deleted),
            truncated@ == ids_with_action(blocks@.subrange(0, i as int), task_title@, *now, TimeBlockAction::Truncated),
        decreases blocks@.len() - i,
    {
        let ghost prefix = blocks@.subrange(0, i + 1);
        assert(prefix.drop_last() =~= blocks@.subrange(0, i as int));
        let b = &blocks[i];
        assert(prefix.last() == *b);
        let action = classify_time_block_action(b.is_exclusive, &b.title, task_title, &b.start, &b.end, now);
        match action {
            TimeBlockAction::Deleted => {
                deleted.push(b.id);
            },
            TimeBlockAction::Truncated => {
                truncated.push(b.id);
            },
            TimeBlockAction::Kept => {},
        }
        i = i + 1;
    }
    assert(blocks@.subrange(0, i as int) =~= blocks@);
    (deleted, truncated)
}

/// The text reads as a date (`YYYY-MM-DD`) that is `today` or later.
pub open spec fn day_on_or_after(day: Seq<char>, today: (int, int, int)) -> bool {
    match naive_date_parsed(day, ymd_format()) {
        Some(d) => !date_before(d, today),
        None => false,
    }
}

/// Some schedule day reads as a date that is `today` or later.
pub open spec fn has_schedule_from(days: Seq<Seq<char>>, today: (int, int, int)) -> bool {
    exists|i: int| 0 <= i < days.len() && #[trigger] day_on_or_after(days[i], today)
}

pub open spec fn texts_view(v: Seq<String>) -> Seq<Seq<char>> {
    v.map_values(|s: String| s@)
}

/// Whether some schedule day of the task falls on `today` or later. Days that do not read
/// as a date count as none.
pub fn has_future_schedule(scheduled_days: &Option<Vec<String>>, today: &CalendarDate) -> (r: bool)
    ensures
        r == match scheduled_days {
            Some(days) => has_schedule_from(texts_view(days@), today.ymd()),
            None => false,
        },
{
    match scheduled_days {
        None => false,
        Some(days) => {
            let ghost dv = texts_view(days@);
            let mut i: usize = 0;
            while i < days.len()
                invariant
                    i <= days@.len(),
                    dv == texts_view(days@),
                    match scheduled_days {
                        Some(ds) => ds@ == days@,
                        None => false,
                    },
                    forall|k: int| 0 <= k < i ==> !#[trigger] day_on_or_after(dv[k], today.ymd()),
                decreases days@.len() - i,
            {
                assert(dv[i as int] == days@[i as int]@);
                match parse_naive_date(days[i].as_str(), ymd_format_text()) {
                    Some(d) => {
                        if !date_is_before(&d, today) {
                            assert(day_on_or_after(dv[i as int], today.ymd()));
                            return true;
                        }
                    },
                    None => {},
                }
                i = i + 1;
            }
            false
        },
    }
}

pub open spec fn schedule_status_for(has_future: bool) -> ScheduleStatus {
    if has_future { ScheduleStatus::Scheduled } else { ScheduleStatus::Staging }
}

/// `Scheduled` when the task has a schedule on `today` or later, `Staging` otherwise: past
/// schedules do not count.
pub fn schedule_status_on(scheduled_days: &Option<Vec<String>>, today: &CalendarDate) -> (r: ScheduleStatus)
    ensures
        r == schedule_status_for(
            match scheduled_days {
                Some(days) => has_schedule_from(texts_view(days@), today.ymd()),
                None => false,
            },
        ),
{
    if has_future_schedule(scheduled_days, today) {
        ScheduleStatus::Scheduled
    } else {
        ScheduleStatus::Staging
    }
}

/// The schedule status of a task against the machine's local date. Which date that is
/// depends on the clock; the status is the one `schedule_status_on` gives for some date
/// chrono can hold.
pub fn schedule_status_today(scheduled_days: &Option<Vec<String>>) -> (r: ScheduleStatus)
    ensures
        exists|today: (int, int, int)|
            calendar_date_exists(today) && r == schedule_status_for(
                match scheduled_days {
                    Some(days) => has_schedule_from(texts_view(days@), today),
                    None => false,
                },
            ),
{
    let today = local_today();
    schedule_status_on(scheduled_days, &today)
}

/// Every subtask marked completed; everything else as it was.
pub open spec fn all_completed(v: Seq<SubtaskView>) -> Seq<SubtaskView> {
    v.map_values(|s: SubtaskView| SubtaskView { is_completed: true, ..s })
}

/// The task's subtasks with every one marked completed (`None` stays `None`).
pub fn complete_all_subtasks(subtasks: &Option<Vec<Subtask>>) -> (r: Option<Vec<Subtask>>)
    ensures
        match subtasks {
            Some(v) => r matches Some(w) && subtasks_view(w@) == all_completed(subtasks_view(v@)),
            None => r is None,
        },
{
    match subtasks {
        None => None,
        Some(v) => {
            let mut w: Vec<Subtask> = Vec::new();
            let mut i: usize = 0;
            while i < v.len()
                invariant
                    i <= v@.len(),
                    subtasks_view(w@) == all_completed(subtasks_view(v@)).subrange(0, i as int),
                decreases v@.len() - i,
            {
                let mut s = v[i].copy();
                s.is_completed = true;
                let ghost before = w@;
                w.push(s);
                proof {
                    assert(w@ == before.push(s));
                    assert(subtasks_view(w@) =~= subtasks_view(before).push(s@));
                    assert(subtasks_view(w@) =~= all_completed(subtasks_view(v@)).subrange(0, i + 1));
                }
                i = i + 1;
            }
            proof {
                assert(all_completed(subtasks_view(v@)).subrange(0, i as int) =~= all_completed(subtasks_view(v@)));
            }
            Some(w)
        },
    }
}

/// A task can be completed only while it is not completed (409 otherwise).
pub fn check_can_complete(is_completed: bool) -> (r: Result<(), AppError>)
    ensures
        crate::tasks::lifecycle::matches_check(r, crate::tasks::lifecycle::conflict_unless(!is_completed, "任务已经完成"@)),
{
    if is_completed {
        Err(conflict("任务已经完成"))
    } else {
        Ok(())
    }
}


/// Completing from any view never records a day after today: the day is today, or an
/// earlier day named by a `daily` view.
pub proof fn completion_day_never_after_today(view: Seq<char>, today: Seq<char>)
    ensures
        schedule_date_for_view_spec(view, today) matches Ok(d) ==> (d == today || text_less(d, today)),
{
}

/// Completing a task leaves alone every block shared with another task, every block that
/// ended before the completion and every block that does not carry the task's title.
pub proof fn completion_spares_shared_past_and_foreign_blocks(
    is_exclusive: bool,
    block_title: Option<Seq<char>>,
    task_title: Seq<char>,
    start: Instant,
    end: Instant,
    now: Instant,
)
    requires
        !is_exclusive || instant_before(end, now) || block_title != Some(task_title),
    ensures
        time_block_action(is_exclusive, block_title, task_title, start, end, now) == TimeBlockAction::Kept,
{
}

} // verus!

verus! {

/// A task counts as scheduled from `today` on exactly when one of its days reads as a date
/// that is not before today: a day today or any later day makes it `Scheduled`, only past
/// or unreadable days leave it `Staging`.
pub proof fn schedule_from_today_is_a_day_not_before_today(days: Seq<Seq<char>>, today: (int, int, int))
    ensures
        forall|i: int|
            #![trigger naive_date_parsed(days[i], ymd_format())]
            0 <= i < days.len() && (naive_date_parsed(days[i], ymd_format()) matches Some(d) && !date_before(d, today))
                ==> has_schedule_from(days, today),
        forall|i: int|
            #![trigger naive_date_parsed(days[i], ymd_format())]
            0 <= i < days.len() && (naive_date_parsed(days[i], ymd_format()) matches Some(d) && date_before(today, d))
                ==> has_schedule_from(days, today),
        has_schedule_from(days, today) ==> exists|i: int|
            #![trigger naive_date_parsed(days[i], ymd_format())]
            0 <= i < days.len() && (naive_date_parsed(days[i], ymd_format()) matches Some(d) && !date_before(d, today)),
        schedule_status_for(has_schedule_from(days, today)) == ScheduleStatus::Scheduled <==> has_schedule_from(days, today),
        schedule_status_for(has_schedule_from(days, today)) == ScheduleStatus::Staging <==> !has_schedule_from(days, today),
{
    assert forall|i: int|
        #![trigger naive_date_parsed(days[i], ymd_format())]
        0 <= i < days.len() && (naive_date_parsed(days[i], ymd_format()) matches Some(d) && !date_before(d, today))
            implies has_schedule_from(days, today) by {
        assert(day_on_or_after(days[i], today));
    }
    assert forall|i: int|
        #![trigger naive_date_parsed(days[i], ymd_format())]
        0 <= i < days.len() && (naive_date_parsed(days[i], ymd_format()) matches Some(d) && date_before(today, d))
            implies has_schedule_from(days, today) by {
        assert(day_on_or_after(days[i], today));
    }
    if has_schedule_from(days, today) {
        let i = choose|i: int| 0 <= i < days.len() && #[trigger] day_on_or_after(days[i], today);
        assert(naive_date_parsed(days[i], ymd_format()) is Some);
    }
}

} // verus!

verus! {

/// A block linked to the task alone and carrying its title is cut short when the completion
/// falls while it runs, and deleted when it has not started yet.
pub proof fn completion_cuts_running_and_deletes_later_own_blocks(
    title: Seq<char>,
    start: Instant,
    end: Instant,
    now: Instant,
)
    ensures
        !instant_before(now, start) && instant_before(now, end) ==> time_block_action(true, Some(title), title, start, end, now)
            == TimeBlockAction::Truncated,
        instant_before(now, start) && !instant_before(end, now) ==> time_block_action(true, Some(title), title, start, end, now)
            == TimeBlockAction::Deleted,
{
}

/// Completing from a `daily` view of a day that reads as a date and comes before today
/// (as text, which for `YYYY-MM-DD` days is the calendar order) records that day; a daily
/// day today or later records today, and so do the `misc`, `area` and `project` views.
pub proof fn completion_day_follows_the_view(view: Seq<char>, today: Seq<char>)
    ensures
        first_piece(view) == "daily"@ ==> (second_piece(view) matches Some(day) ==> (naive_date_parsed(day, ymd_format()) is Some
            ==> schedule_date_for_view_spec(view, today) == if text_less(day, today) {
            Ok::<Seq<char>, AppErrorView>(day)
        } else {
            Ok::<Seq<char>, AppErrorView>(today)
        })),
        first_piece(view) == "misc"@ || first_piece(view) == "area"@ || first_piece(view) == "project"@
            ==> schedule_date_for_view_spec(view, today) == Ok::<Seq<char>, AppErrorView>(today),
{
    reveal_strlit("daily");
    reveal_strlit("misc");
    reveal_strlit("area");
    reveal_strlit("project");
    assert("daily"@.len() == 5 && "misc"@.len() == 4 && "area"@.len() == 4 && "project"@.len() == 7);
}

/// `x` is the id of a block that completion gives the action `which`.
pub open spec fn is_id_with_action(
    blocks: Seq<CompletionBlock>,
    task_title: Seq<char>,
    now: Instant,
    which: TimeBlockAction,
    x: u128,
) -> bool {
    exists|i: int|
        #![trigger blocks[i]]
        0 <= i < blocks.len() && block_action(blocks[i], task_title, now) == which && blocks[i].id == x
}

proof fn lemma_ids_with_action_sound(blocks: Seq<CompletionBlock>, task_title: Seq<char>, now: Instant, which: TimeBlockAction)
    ensures
        forall|j: int|
            0 <= j < ids_with_action(blocks, task_title, now, which).len() ==> is_id_with_action(
                blocks,
                task_title,
                now,
                which,
                #[trigger] ids_with_action(blocks, task_title, now, which)[j],
            ),
    decreases blocks.len(),
{
    if blocks.len() > 0 {
        let prev = blocks.drop_last();
        lemma_ids_with_action_sound(prev, task_title, now, which);
        let r = ids_with_action(blocks, task_title, now, which);
        let pr = ids_with_action(prev, task_title, now, which);
        let n = blocks.len() - 1;
        assert forall|j: int| 0 <= j < r.len() implies is_id_with_action(blocks, task_title, now, which, #[trigger] r[j]) by {
            if j < pr.len() {
                assert(r[j] == pr[j]);
                assert(is_id_with_action(prev, task_title, now, which, pr[j]));
                let i = choose|i: int|
                    #![trigger prev[i]]
                    0 <= i < prev.len() && block_action(prev[i], task_title, now) == which && prev[i].id == pr[j];
                assert(blocks[i] == prev[i]);
            } else {
                assert(blocks[n].id == r[j]);
            }
        }
    }
}

proof fn lemma_ids_with_action_complete(blocks: Seq<CompletionBlock>, task_title: Seq<char>, now: Instant, which: TimeBlockAction)
    ensures
        forall|i: int|
            0 <= i < blocks.len() && block_action(#[trigger] blocks[i], task_title, now) == which
                ==> ids_with_action(blocks, task_title, now, which).contains(blocks[i].id),
    decreases blocks.len(),
{
    if blocks.len() > 0 {
        let prev = blocks.drop_last();
        lemma_ids_with_action_complete(prev, task_title, now, which);
        let r = ids_with_action(blocks, task_title, now, which);
        let pr = ids_with_action(prev, task_title, now, which);
        let n = blocks.len() - 1;
        assert forall|i: int| 0 <= i < blocks.len() && block_action(#[trigger] blocks[i], task_title, now) == which implies r.contains(
            blocks[i].id,
        ) by {
            if i < n {
                assert(prev[i] == blocks[i]);
                assert(pr.contains(prev[i].id));
                let k = choose|k: int| 0 <= k < pr.len() && pr[k] == prev[i].id;
                assert(r[k] == blocks[i].id);
            } else {
                assert(r[r.len() - 1] == blocks[i].id);
            }
        }
    }
}

/// The blocks that completion deletes (or cuts short) are exactly those whose own action is
/// to be deleted (or cut short): every id listed belongs to such a block, and every such
/// block's id is listed.
pub proof fn completion_lists_exactly_the_blocks_with_each_action(
    blocks: Seq<CompletionBlock>,
    task_title: Seq<char>,
    now: Instant,
    which: TimeBlockAction,
)
    ensures
        forall|j: int|
            0 <= j < ids_with_action(blocks, task_title, now, which).len() ==> is_id_with_action(
                blocks,
                task_title,
                now,
                which,
                #[trigger] ids_with_action(blocks, task_title, now, which)[j],
            ),
        forall|i: int|
            0 <= i < blocks.len() && block_action(#[trigger] blocks[i], task_title, now) == which
                ==> ids_with_action(blocks, task_title, now, which).contains(blocks[i].id),
{
    lemma_ids_with_action_sound(blocks, task_title, now, which);
    lemma_ids_with_action_complete(blocks, task_title, now, which);
}

/// Completing a task marks every one of its subtasks completed and changes nothing else:
/// the same subtasks, in the same order, with the same ids, titles and sort orders.
pub proof fn completion_marks_every_subtask_done(v: Seq<SubtaskView>)
    ensures
        all_completed(v).len() == v.len(),
        forall|i: int|
            0 <= i < v.len() ==> {
                &&& (#[trigger] all_completed(v)[i]).is_completed
                &&& all_completed(v)[i].id == v[i].id
                &&& all_completed(v)[i].title == v[i].title
                &&& all_completed(v)[i].sort_order == v[i].sort_order
            },
{
}

} // verus!
