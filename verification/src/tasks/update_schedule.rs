use vstd::prelude::*;

use crate::dates::{calendar_date_exists, four_digit_day, ymd_text, ymd_text_of_four_digit_year_has_ten_chars};
use crate::entities::Outcome;
use crate::errors::{conflict, result_is, single_field_error, validation_error, AppError, AppErrorView};
use crate::ids::{uuid_text, uuid_to_string};
use crate::tasks::schedule_day::{parse_scheduled_day, scheduled_day_check};
use crate::tasks::transaction::TaskTransactionResult;
use crate::text::str_eq;

verus! {

/// The body of `PATCH /api/tasks/:id/schedules/:date`: a new day, a new outcome, or both.
#[derive(Debug)]
pub struct UpdateScheduleRequest {
    pub new_date: Option<String>,
    pub outcome: Option<String>,
}

/// The task after the change, as answered and as carried by `task.schedule_updated`.
#[derive(Debug)]
pub struct UpdateScheduleResponse<Card, Block> {
    pub result: TaskTransactionResult<Card, Block>,
}

/// Reads a day of the request (`YYYY-MM-DD`), written back in chrono's form. The day it
/// gives, when its year has four digits, is ten characters long and reads back as itself.
pub fn parse_date(date_str: &str) -> (r: Result<String, AppError>)
    ensures
        result_is(r, scheduled_day_check(date_str@)),
        r matches Ok(t) ==> exists|d: (int, int, int)|
            #![trigger ymd_text(d)]
            calendar_date_exists(d) && t@ == ymd_text(d) && (four_digit_day(d) ==> t@.len() == 10),
        forall|d: (int, int, int)|
            #![trigger ymd_text(d)]
            four_digit_day(d) && date_str@ == ymd_text(d) ==> (r matches Ok(t) && t@ == date_str@),
{
    let r = parse_scheduled_day(date_str);
    proof {
        if r is Ok {
            let t = r->Ok_0@;
            let d = choose|d: (int, int, int)| #![trigger ymd_text(d)] calendar_date_exists(d) && t == ymd_text(d);
            if four_digit_day(d) {
                ymd_text_of_four_digit_year_has_ten_chars(d);
            }
        }
    }
    r
}

/// The stored text of an outcome.
pub open spec fn outcome_name(o: Outcome) -> Seq<char> {
    match o {
        Outcome::Planned => "PLANNED"@,
        Outcome::PresenceLogged => "PRESENCE_LOGGED"@,
        Outcome::CompletedOnDay => "COMPLETED_ON_DAY"@,
        Outcome::CarriedOver => "CARRIED_OVER"@,
    }
}

/// The outcome a text names, or an `INVALID_OUTCOME` error quoting the text.
pub open spec fn outcome_check(s: Seq<char>) -> Result<Outcome, AppErrorView> {
    if s == "PLANNED"@ {
        Ok(Outcome::Planned)
    } else if s == "PRESENCE_LOGGED"@ {
        Ok(Outcome::PresenceLogged)
    } else if s == "COMPLETED_ON_DAY"@ {
        Ok(Outcome::CompletedOnDay)
    } else if s == "CARRIED_OVER"@ {
        Ok(Outcome::CarriedOver)
    } else {
        Err(single_field_error("outcome"@, "无效的 outcome 值: "@ + s, "INVALID_OUTCOME"@))
    }
}

/// Reads an outcome.
pub fn parse_outcome(outcome_str: &str) -> (r: Result<Outcome, AppError>)
    ensures
        match outcome_check(outcome_str@) {
            Ok(o) => r == Ok::<Outcome, AppError>(o),
            Err(e) => r matches Err(x) && x@ == e,
        },
{
    if str_eq(outcome_str, "PLANNED") {
        Ok(Outcome::Planned)
    } else if str_eq(outcome_str, "PRESENCE_LOGGED") {
        Ok(Outcome::PresenceLogged)
    } else if str_eq(outcome_str, "COMPLETED_ON_DAY") {
        Ok(Outcome::CompletedOnDay)
    } else if str_eq(outcome_str, "CARRIED_OVER") {
        Ok(Outcome::CarriedOver)
    } else {
        let mut message = "无效的 outcome 值: ".to_owned();
        message.append(outcome_str);
        Err(validation_error("outcome", message.as_str(), "INVALID_OUTCOME"))
    }
}

/// The text an outcome is stored as.
pub fn outcome_text(o: Outcome) -> (r: &'static str)
    ensures
        r@ == outcome_name(o),
{
    match o {
        Outcome::Planned => "PLANNED",
        Outcome::PresenceLogged => "PRESENCE_LOGGED",
        Outcome::CompletedOnDay => "COMPLETED_ON_DAY",
        Outcome::CarriedOver => "CARRIED_OVER",
    }
}

/// Reading back the stored text of an outcome gives that outcome.
pub proof fn outcome_text_round_trip(o: Outcome)
    ensures
        outcome_check(outcome_name(o)) == Ok::<Outcome, AppErrorView>(o),
{
    reveal_strlit("PLANNED");
    reveal_strlit("PRESENCE_LOGGED");
    reveal_strlit("COMPLETED_ON_DAY");
    reveal_strlit("CARRIED_OVER");
}

/// A request must change the day or the outcome.
pub open spec fn update_schedule_request_check(r: UpdateScheduleRequest) -> Result<(), AppErrorView> {
    if r.new_date is None && r.outcome is None {
        Err(single_field_error("request"@, "必须提供 new_date 或 outcome 至少一个字段"@, "EMPTY_REQUEST"@))
    } else {
        Ok(())
    }
}

/// Checks that the request changes something.
pub fn validate_request(request: &UpdateScheduleRequest) -> (r: Result<(), AppError>)
    ensures
        result_is(r, update_schedule_request_check(*request)),
{
    if request.new_date.is_none() && request.outcome.is_none() {
        return Err(validation_error("request", "必须提供 new_date 或 outcome 至少一个字段", "EMPTY_REQUEST"));
    }
    Ok(())
}

/// Moving a schedule to another day that already has one is a conflict; moving it to its
/// own day is not.
pub fn check_target_day_free(current_day: &str, new_day: &str, target_has_schedule: bool) -> (r: Result<(), AppError>)
    ensures
        (current_day@ != new_day@ && target_has_schedule) ==> (r matches Err(e) && e@ == (AppErrorView::Conflict {
            message: "目标日期已有日程安排"@,
        })),
        !(current_day@ != new_day@ && target_has_schedule) ==> r is Ok,
{
    if !str_eq(current_day, new_day) && target_has_schedule {
        return Err(conflict("目标日期已有日程安排"));
    }
    Ok(())
}

/// The 404 for a task with no schedule on the given day: `Schedule` `Task <id> on <day>`.
pub fn schedule_not_found(task_id: u128, day: &str) -> (e: AppError)
    ensures
        e@ == (AppErrorView::NotFound { entity_type: "Schedule"@, entity_id: "Task "@ + uuid_text(task_id) + " on "@ + day@ }),
{
    let mut id = "Task ".to_owned();
    let t = uuid_to_string(task_id);
    id.append(t.as_str());
    id.append(" on ");
    id.append(day);
    crate::errors::not_found("Schedule", id.as_str())
}

} // verus!
