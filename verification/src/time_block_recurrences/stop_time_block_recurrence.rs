use vstd::prelude::*;

use crate::dates::{
    at_local_offset, calendar_date_exists, date_before, days_in_month, local_datetime_to_instant, naive_date_parsed, parse_naive_date, ymd_format,
    ymd_format_text, CalendarDate, CalendarDateTime, ClockTime, Instant,
};
use crate::errors::{not_found, result_is, single_field_error, validation_error, AppError, AppErrorView};
use crate::ids::{uuid_text, uuid_to_string};
use crate::time_block_recurrences::edit_time_block_recurrence::{nullable_view, UpdateTimeBlockRecurrenceRequest};

verus! {

/// The body of `POST /api/time-block-recurrences/:id/stop`: the last day (`YYYY-MM-DD`)
/// that keeps instances.
#[derive(Debug)]
pub struct StopRecurrenceRequest {
    pub stop_date: String,
}

/// The stop day must read as `YYYY-MM-DD`.
pub open spec fn stop_date_check(text: Seq<char>) -> Result<(int, int, int), AppErrorView> {
    match naive_date_parsed(text, ymd_format()) {
        Some(d) => Ok(d),
        None => Err(single_field_error("stop_date"@, "停止日期格式无效，应为 YYYY-MM-DD"@, "INVALID_DATE_FORMAT"@)),
    }
}

/// Reads the stop day.
pub fn parse_stop_date(request: &StopRecurrenceRequest) -> (r: Result<CalendarDate, AppError>)
    ensures
        match stop_date_check(request.stop_date@) {
            Ok(d) => r matches Ok(x) && x.ymd() == d && calendar_date_exists(d),
            Err(e) => r matches Err(x) && x@ == e,
        },
{
    match parse_naive_date(request.stop_date.as_str(), ymd_format_text()) {
        Some(d) => Ok(d),
        None => Err(validation_error("stop_date", "停止日期格式无效，应为 YYYY-MM-DD", "INVALID_DATE_FORMAT")),
    }
}

/// The last year `NaiveDate` holds.
pub const MAX_CHRONO_YEAR: i32 = 262142;

/// The calendar day after `d` (`NaiveDate::succ_opt`), or `d` itself when it is the last
/// day chrono holds.
pub open spec fn next_day_spec(d: (int, int, int)) -> (int, int, int) {
    let (y, m, day) = d;
    if day < days_in_month(y, m) {
        (y, m, day + 1)
    } else if m < 12 {
        (y, m + 1, 1)
    } else if y < MAX_CHRONO_YEAR {
        (y + 1, 1, 1)
    } else {
        d
    }
}

/// `stop_date.succ_opt().unwrap_or(stop_date)`.
pub fn next_day(d: &CalendarDate) -> (r: CalendarDate)
    requires
        calendar_date_exists(d.ymd()),
    ensures
        r.ymd() == next_day_spec(d.ymd()),
        calendar_date_exists(r.ymd()),
{
    let last = days_in_month_exec(d.year, d.month);
    if d.day < last {
        CalendarDate { year: d.year, month: d.month, day: d.day + 1 }
    } else if d.month < 12 {
        CalendarDate { year: d.year, month: d.month + 1, day: 1 }
    } else if d.year < MAX_CHRONO_YEAR {
        CalendarDate { year: d.year + 1, month: 1, day: 1 }
    } else {
        CalendarDate { year: d.year, month: d.month, day: d.day }
    }
}

fn days_in_month_exec(y: i32, m: u32) -> (r: u32)
    requires
        1 <= m <= 12,
    ensures
        r == days_in_month(y as int, m as int),
{
    if m == 2 {
        if (y % 4 == 0 && y % 100 != 0) || y % 400 == 0 {
            29
        } else {
            28
        }
    } else if m == 4 || m == 6 || m == 9 || m == 11 {
        30
    } else {
        31
    }
}

/// The midnight that starts the given day, as a wall-clock time.
pub open spec fn midnight_of(d: (int, int, int)) -> CalendarDateTime {
    CalendarDateTime {
        date: CalendarDate { year: d.0 as i32, month: d.1 as u32, day: d.2 as u32 },
        time: ClockTime { hour: 0, minute: 0, second: 0 },
    }
}

/// The instant from which instances are deleted when stopping at `stop_date`: the start of
/// the next day in the machine's time zone; `None` when that wall-clock time is skipped or
/// repeated there (the caller then uses the current time).
pub fn delete_threshold(stop_date: &CalendarDate) -> (r: Option<Instant>)
    requires
        calendar_date_exists(stop_date.ymd()),
    ensures
        r matches Some(i) ==> at_local_offset(i, midnight_of(next_day_spec(stop_date.ymd()))),
{
    let next = next_day(stop_date);
    let midnight = CalendarDateTime { date: next, time: ClockTime { hour: 0, minute: 0, second: 0 } };
    local_datetime_to_instant(&midnight)
}

/// The change that stopping writes: only the end day, set to the stop day as given.
pub fn stop_update(request: &StopRecurrenceRequest) -> (r: UpdateTimeBlockRecurrenceRequest)
    ensures
        r.template_id is None && r.rule is None && r.time_type is None && r.start_date is None,
        nullable_view(r.end_date) == Some(Some(request.stop_date@)),
        r.timezone is None && r.skip_conflicts is None && r.is_active is None,
{
    UpdateTimeBlockRecurrenceRequest {
        template_id: None,
        rule: None,
        time_type: None,
        start_date: None,
        end_date: Some(Some(request.stop_date.clone())),
        timezone: None,
        skip_conflicts: None,
        is_active: None,
    }
}

/// The 404 for a time block recurrence that is not there.
pub fn recurrence_not_found(id: u128) -> (e: AppError)
    ensures
        e@ == (AppErrorView::NotFound { entity_type: "TimeBlockRecurrence"@, entity_id: uuid_text(id) }),
{
    not_found("TimeBlockRecurrence", uuid_to_string(id).as_str())
}


/// The next day comes after the day, except on the last day chrono holds, which stays.
pub proof fn next_day_is_later(d: (int, int, int))
    requires
        calendar_date_exists(d),
        d != (MAX_CHRONO_YEAR as int, 12int, 31int),
    ensures
        crate::dates::date_before(d, next_day_spec(d)),
        calendar_date_exists(next_day_spec(d)),
{
}

} // verus!

verus! {

/// The day after a date is its immediate successor: for every date chrono holds other than
/// its last one, the result is a real date after it with no real date strictly between the
/// two; the last date chrono holds is its own result.
pub proof fn next_day_is_the_immediate_successor(d: (int, int, int))
    requires
        calendar_date_exists(d),
    ensures
        d != (MAX_CHRONO_YEAR as int, 12int, 31int) ==> {
            &&& calendar_date_exists(next_day_spec(d))
            &&& date_before(d, next_day_spec(d))
            &&& forall|x: (int, int, int)|
                #![trigger date_before(d, x), date_before(x, next_day_spec(d))]
                calendar_date_exists(x) ==> !(date_before(d, x) && date_before(x, next_day_spec(d)))
        },
        d == (MAX_CHRONO_YEAR as int, 12int, 31int) ==> next_day_spec(d) == d,
{
}

} // verus!
