use vstd::prelude::*;

use crate::dates::{naive_date_parsed, ymd_format, CalendarDate};
use crate::entities::Subtask;
use crate::errors::{result_is, single_field_error, validation_error, AppError, AppErrorView};
use crate::tasks::schedule_day::{parse_scheduled_day, scheduled_day_check};
use crate::text::{chars_utf8_len, is_blank, is_blank_text, utf8_len_exceeds};

verus! {

/// The body of `POST /api/tasks/with-schedule`: a new task and the day it is scheduled on.
#[derive(Debug)]
pub struct CreateTaskWithScheduleRequest {
    pub title: String,
    /// `YYYY-MM-DD`.
    pub scheduled_day: String,
    pub glance_note: Option<String>,
    pub detail_note: Option<String>,
    /// Minutes.
    pub estimated_duration: Option<i32>,
    pub area_id: Option<u128>,
    pub due_date: Option<CalendarDate>,
    /// The kind of due date, as its text.
    pub due_date_type: Option<String>,
    pub subtasks: Option<Vec<Subtask>>,
    pub project_id: Option<u128>,
    pub section_id: Option<u128>,
}

/// Longest task title, in UTF-8 bytes before trimming.
pub const MAX_TASK_TITLE_BYTES: usize = 255;

/// Longest estimate: a week, in minutes.
pub const MAX_DURATION_MINUTES: i32 = 10080;

/// Most subtasks a new task can have.
pub const MAX_SUBTASKS: usize = 50;

/// The first rule a new scheduled task breaks: a blank title, a title over 255 bytes, an
/// unreadable day, a negative estimate, an estimate over a week, more than 50 subtasks.
pub open spec fn create_with_schedule_check(
    title: Seq<char>,
    scheduled_day: Seq<char>,
    estimated_duration: Option<i32>,
    subtask_count: Option<nat>,
) -> Result<(), AppErrorView> {
    if is_blank(title) {
        Err(single_field_error("title"@, "任务标题不能为空"@, "TITLE_EMPTY"@))
    } else if chars_utf8_len(title) > MAX_TASK_TITLE_BYTES {
        Err(single_field_error("title"@, "任务标题不能超过255个字符"@, "TITLE_TOO_LONG"@))
    } else if let Err(e) = scheduled_day_check(scheduled_day) {
        Err(e)
    } else if estimated_duration matches Some(d) && d < 0 {
        Err(single_field_error("estimated_duration"@, "预估时长不能为负数"@, "DURATION_NEGATIVE"@))
    } else if estimated_duration matches Some(d) && d > MAX_DURATION_MINUTES {
        Err(single_field_error("estimated_duration"@, "预估时长不能超过一周"@, "DURATION_TOO_LONG"@))
    } else if subtask_count matches Some(n) && n > MAX_SUBTASKS {
        Err(single_field_error("subtasks"@, "子任务数量不能超过50个"@, "TOO_MANY_SUBTASKS"@))
    } else {
        Ok(())
    }
}

pub open spec fn subtask_count(o: Option<Vec<Subtask>>) -> Option<nat> {
    match o {
        Some(v) => Some(v@.len()),
        None => None,
    }
}

/// Checks a new scheduled task.
pub fn validate_request(request: &CreateTaskWithScheduleRequest) -> (r: Result<(), AppError>)
    ensures
        result_is(
            r,
            create_with_schedule_check(
                request.title@,
                request.scheduled_day@,
                request.estimated_duration,
                subtask_count(request.subtasks),
            ),
        ),
{
    if is_blank_text(request.title.as_str()) {
        return Err(validation_error("title", "任务标题不能为空", "TITLE_EMPTY"));
    }
    if utf8_len_exceeds(request.title.as_str(), MAX_TASK_TITLE_BYTES) {
        return Err(validation_error("title", "任务标题不能超过255个字符", "TITLE_TOO_LONG"));
    }
    match parse_scheduled_day(request.scheduled_day.as_str()) {
        Ok(_) => {},
        Err(e) => {
            return Err(e);
        },
    }
    if let Some(d) = request.estimated_duration {
        if d < 0 {
            return Err(validation_error("estimated_duration", "预估时长不能为负数", "DURATION_NEGATIVE"));
        }
        if d > MAX_DURATION_MINUTES {
            return Err(validation_error("estimated_duration", "预估时长不能超过一周", "DURATION_TOO_LONG"));
        }
    }
    if let Some(s) = &request.subtasks {
        if s.len() > MAX_SUBTASKS {
            return Err(validation_error("subtasks", "子任务数量不能超过50个", "TOO_MANY_SUBTASKS"));
        }
    }
    Ok(())
}

/// Reads the scheduled day (`YYYY-MM-DD`), written back in chrono's form.
pub fn parse_date(date_str: &str) -> (r: Result<String, AppError>)
    ensures
        result_is(r, scheduled_day_check(date_str@)),
{
    parse_scheduled_day(date_str)
}

/// A new task is handed to automatic area classification when it was given no area and
/// does not come from a template or an outside source.
pub fn should_auto_classify(area_id: Option<u128>, has_source_info: bool) -> (r: bool)
    ensures
        r == (area_id is None && !has_source_info),
{
    area_id.is_none() && !has_source_info
}

/// A new scheduled task is accepted exactly when its title is not blank and has at most
/// 255 bytes, its day reads as `YYYY-MM-DD`, its estimate (if any) lies between 0 and a
/// week (10080 minutes), and it has at most 50 subtasks.
pub proof fn scheduled_task_accepted_exactly_within_limits(
    title: Seq<char>,
    scheduled_day: Seq<char>,
    estimated_duration: Option<i32>,
    subtask_count: Option<nat>,
)
    ensures
        create_with_schedule_check(title, scheduled_day, estimated_duration, subtask_count) is Ok <==> {
            &&& !is_blank(title)
            &&& chars_utf8_len(title) <= 255
            &&& naive_date_parsed(scheduled_day, ymd_format()) is Some
            &&& (estimated_duration matches Some(d) ==> 0 <= d <= 10080)
            &&& (subtask_count matches Some(n) ==> n <= 50)
        },
{
}

} // verus!
