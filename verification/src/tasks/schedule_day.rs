use vstd::prelude::*;

use crate::dates::{
    calendar_date_exists, format_naive_date, four_digit_day, ymd_text, naive_date_parsed, parse_naive_date, ymd_format,
    ymd_format_text,
};
use crate::errors::{result_is, single_field_error, validation_error, AppError, AppErrorView};

verus! {

/// A scheduled day must read as `YYYY-MM-DD`; it is kept in the form chrono writes it back.
pub open spec fn scheduled_day_check(text: Seq<char>) -> Result<Seq<char>, AppErrorView> {
    match naive_date_parsed(text, ymd_format()) {
        Some(d) => Ok(ymd_text(d)),
        None => Err(single_field_error("scheduled_day"@, "日期格式错误，请使用 YYYY-MM-DD 格式"@, "INVALID_DATE_FORMAT"@)),
    }
}

/// The text of a day as chrono writes it, for a real date.
pub open spec fn is_written_day(t: Seq<char>) -> bool {
    exists|d: (int, int, int)| #![trigger ymd_text(d)] calendar_date_exists(d) && t == ymd_text(d)
}

/// Reads a scheduled day and writes it back as `YYYY-MM-DD`. What it gives is a written
/// day; a written day with a four-digit year reads back as itself.
pub fn parse_scheduled_day(text: &str) -> (r: Result<String, AppError>)
    ensures
        result_is(r, scheduled_day_check(text@)),
        r matches Ok(t) ==> is_written_day(t@),
        forall|d: (int, int, int)|
            #![trigger ymd_text(d)]
            four_digit_day(d) && text@ == ymd_text(d) ==> (r matches Ok(t) && t@ == text@),
{
    match parse_naive_date(text, ymd_format_text()) {
        Some(d) => Ok(format_naive_date(&d, ymd_format_text())),
        None => Err(validation_error("scheduled_day", "日期格式错误，请使用 YYYY-MM-DD 格式", "INVALID_DATE_FORMAT")),
    }
}

} // verus!
