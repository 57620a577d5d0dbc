use vstd::prelude::*;

use crate::dates::{naive_date_parsed, parse_naive_date, ymd_format, ymd_format_text};
use crate::errors::{result_is, single_field_error, validation_error, AppError, AppErrorView};
use crate::ids::{parse_uuid, uuid_parse_outcome};

verus! {

/// The query of `GET /api/shutdown-ritual/state`: the day (`YYYY-MM-DD`).
#[derive(Debug)]
pub struct GetStateQuery {
    pub date: String,
}

/// A day given to the ritual endpoints must read as `YYYY-MM-DD`.
pub open spec fn ritual_date_check(date: Seq<char>) -> Result<(), AppErrorView> {
    if naive_date_parsed(date, ymd_format()) is Some {
        Ok(())
    } else {
        Err(single_field_error("date"@, "日期格式错误，请使用 YYYY-MM-DD 格式"@, "INVALID_DATE_FORMAT"@))
    }
}

/// Checks the day of a state query.
pub fn validate_date(date: &str) -> (r: Result<(), AppError>)
    ensures
        result_is(r, ritual_date_check(date@)),
{
    match parse_naive_date(date, ymd_format_text()) {
        Some(_) => Ok(()),
        None => Err(validation_error("date", "日期格式错误，请使用 YYYY-MM-DD 格式", "INVALID_DATE_FORMAT")),
    }
}

/// The step of a stored progress row must be a UUID; otherwise the state cannot be read.
pub fn progress_step_id(text: &str) -> (r: Result<u128, AppError>)
    ensures
        match uuid_parse_outcome(text@) {
            Ok(id) => r == Ok::<u128, AppError>(id),
            Err(_) => r matches Err(e) && e@ == single_field_error("step_id"@, "Invalid UUID"@, "INVALID_UUID"@),
        },
{
    match parse_uuid(text) {
        Ok(id) => Ok(id),
        Err(_) => Err(validation_error("step_id", "Invalid UUID", "INVALID_UUID")),
    }
}

} // verus!
