use vstd::prelude::*;

use crate::dates::{
    date_before, hms_format, naive_date_parsed, naive_time_parsed, parse_naive_date, parse_naive_time, ymd_format,
    ymd_format_text,
};
use crate::entities::TimeType;
use crate::errors::{AppError, FieldError, FieldErrorView};
use crate::text::{is_blank, is_blank_text};
use crate::validation::{check_result, error_if, errors_result, field_errors_view, push_error, result_of_errors};

verus! {

/// The body of `POST /api/time-block-recurrences`: the template of the blocks, the rule,
/// and optionally a block to take as the first instance.
#[derive(Debug)]
pub struct CreateTimeBlockRecurrenceFullRequest {
    pub title: Option<String>,
    pub glance_note_template: Option<String>,
    pub detail_note_template: Option<String>,
    pub duration_minutes: i32,
    /// `HH:MM:SS`.
    pub start_time_local: String,
    pub time_type: Option<TimeType>,
    pub is_all_day: Option<bool>,
    pub area_id: Option<u128>,
    pub rule: String,
    /// `YYYY-MM-DD`.
    pub start_date: Option<String>,
    /// `YYYY-MM-DD`.
    pub end_date: Option<String>,
    pub timezone: Option<String>,
    pub source_time_block_id: Option<u128>,
}

pub open spec fn bad_day(o: Option<Seq<char>>) -> bool {
    o matches Some(d) && naive_date_parsed(d, ymd_format()) is None
}

/// Both days read and the end comes before the start.
pub open spec fn reversed_range(start: Option<Seq<char>>, end: Option<Seq<char>>) -> bool {
    match (start, end) {
        (Some(s), Some(e)) => match (naive_date_parsed(s, ymd_format()), naive_date_parsed(e, ymd_format())) {
            (Some(sd), Some(ed)) => date_before(ed, sd),
            _ => false,
        },
        _ => false,
    }
}

/// Every rule a new time block recurrence breaks, in order.
pub open spec fn create_errors(
    duration_minutes: i32,
    start_time_local: Seq<char>,
    rule: Seq<char>,
    start_date: Option<Seq<char>>,
    end_date: Option<Seq<char>>,
) -> Seq<FieldErrorView> {
    error_if(duration_minutes <= 0, "duration_minutes"@, "duration_minutes must be positive"@, "DURATION_INVALID"@)
        + error_if(
        naive_time_parsed(start_time_local, hms_format()) is None,
        "start_time_local"@,
        "start_time_local must be in HH:MM:SS format"@,
        "TIME_FORMAT_INVALID"@,
    ) + error_if(is_blank(rule), "rule"@, "rule cannot be empty"@, "RULE_EMPTY"@) + error_if(
        bad_day(start_date),
        "start_date"@,
        "start_date must be in YYYY-MM-DD format"@,
        "DATE_FORMAT_INVALID"@,
    ) + error_if(bad_day(end_date), "end_date"@, "end_date must be in YYYY-MM-DD format"@, "DATE_FORMAT_INVALID"@)
        + error_if(
        reversed_range(start_date, end_date),
        "end_date"@,
        "end_date must be after or equal to start_date"@,
        "DATE_RANGE_INVALID"@,
    )
}

pub open spec fn opt_view(o: Option<String>) -> Option<Seq<char>> {
    match o {
        Some(s) => Some(s@),
        None => None,
    }
}

fn is_bad_day(o: &Option<String>) -> (r: bool)
    ensures
        r == bad_day(opt_view(*o)),
{
    match o {
        Some(d) => parse_naive_date(d.as_str(), ymd_format_text()).is_none(),
        None => false,
    }
}

fn is_reversed_range(start: &Option<String>, end: &Option<String>) -> (r: bool)
    ensures
        r == reversed_range(opt_view(*start), opt_view(*end)),
{
    match (start, end) {
        (Some(s), Some(e)) => match (parse_naive_date(s.as_str(), ymd_format_text()), parse_naive_date(e.as_str(), ymd_format_text())) {
            (Some(sd), Some(ed)) => crate::dates::date_is_before(&ed, &sd),
            _ => false,
        },
        _ => false,
    }
}

/// Checks a new time block recurrence, reporting every broken rule at once.
pub fn validate_request(request: &CreateTimeBlockRecurrenceFullRequest) -> (r: Result<(), AppError>)
    ensures
        check_result(
            r,
            errors_result(
                create_errors(
                    request.duration_minutes,
                    request.start_time_local@,
                    request.rule@,
                    opt_view(request.start_date),
                    opt_view(request.end_date),
                ),
            ),
        ),
{
    let mut errors: Vec<FieldError> = Vec::new();
    let ghost d1 = error_if(request.duration_minutes <= 0, "duration_minutes"@, "duration_minutes must be positive"@, "DURATION_INVALID"@);
    let ghost d2 = error_if(
        naive_time_parsed(request.start_time_local@, hms_format()) is None,
        "start_time_local"@,
        "start_time_local must be in HH:MM:SS format"@,
        "TIME_FORMAT_INVALID"@,
    );
    let ghost d3 = error_if(is_blank(request.rule@), "rule"@, "rule cannot be empty"@, "RULE_EMPTY"@);
    let ghost d4 = error_if(bad_day(opt_view(request.start_date)), "start_date"@, "start_date must be in YYYY-MM-DD format"@, "DATE_FORMAT_INVALID"@);
    let ghost d5 = error_if(bad_day(opt_view(request.end_date)), "end_date"@, "end_date must be in YYYY-MM-DD format"@, "DATE_FORMAT_INVALID"@);
    let ghost d6 = error_if(
        reversed_range(opt_view(request.start_date), opt_view(request.end_date)),
        "end_date"@,
        "end_date must be after or equal to start_date"@,
        "DATE_RANGE_INVALID"@,
    );
    assert(field_errors_view(errors@) =~= Seq::<FieldErrorView>::empty());
    if request.duration_minutes <= 0 {
        push_error(&mut errors, "duration_minutes", "duration_minutes must be positive", "DURATION_INVALID");
    }
    assert(field_errors_view(errors@) =~= d1);
    proof {
        reveal_strlit("%H:%M:%S");
        assert("%H:%M:%S"@ =~= hms_format());
    }
    if parse_naive_time(request.start_time_local.as_str(), "%H:%M:%S").is_none() {
        push_error(&mut errors, "start_time_local", "start_time_local must be in HH:MM:SS format", "TIME_FORMAT_INVALID");
    }
    assert(field_errors_view(errors@) =~= d1 + d2);
    if is_blank_text(request.rule.as_str()) {
        push_error(&mut errors, "rule", "rule cannot be empty", "RULE_EMPTY");
    }
    assert(field_errors_view(errors@) =~= d1 + d2 + d3);
    if is_bad_day(&request.start_date) {
        push_error(&mut errors, "start_date", "start_date must be in YYYY-MM-DD format", "DATE_FORMAT_INVALID");
    }
    assert(field_errors_view(errors@) =~= d1 + d2 + d3 + d4);
    if is_bad_day(&request.end_date) {
        push_error(&mut errors, "end_date", "end_date must be in YYYY-MM-DD format", "DATE_FORMAT_INVALID");
    }
    assert(field_errors_view(errors@) =~= d1 + d2 + d3 + d4 + d5);
    if is_reversed_range(&request.start_date, &request.end_date) {
        push_error(&mut errors, "end_date", "end_date must be after or equal to start_date", "DATE_RANGE_INVALID");
    }
    assert(field_errors_view(errors@) =~= d1 + d2 + d3 + d4 + d5 + d6);
    result_of_errors(errors)
}

/// The source block is linked as the first instance only when the recurrence has a start
/// day: the block and that day.
pub fn first_instance_link(source_time_block_id: Option<u128>, start_date: &Option<String>) -> (r: Option<(u128, String)>)
    ensures
        match (source_time_block_id, *start_date) {
            (Some(b), Some(d)) => r matches Some(p) && p.0 == b && p.1@ == d@,
            _ => r is None,
        },
{
    match (source_time_block_id, start_date) {
        (Some(b), Some(d)) => Some((b, d.clone())),
        _ => None,
    }
}

/// Some error of `errs` is on `field` with `code`.
pub open spec fn has_error(errs: Seq<FieldErrorView>, field: Seq<char>, code: Seq<char>) -> bool {
    exists|k: int| 0 <= k < errs.len() && (#[trigger] errs[k]).field == field && errs[k].code == code
}

/// Each rule a new time block recurrence breaks is reported on its field with its code, and
/// only those: a duration that is not positive; a start time that does not read as
/// `HH:MM:SS`; a blank rule; a start or end day that does not read as `YYYY-MM-DD`; and,
/// when both days read, an end day before the start day (comparing year, month and day).
pub proof fn each_time_block_rule_is_reported_exactly_when_broken(
    duration_minutes: i32,
    start_time_local: Seq<char>,
    rule: Seq<char>,
    start_date: Option<Seq<char>>,
    end_date: Option<Seq<char>>,
)
    ensures
        has_error(create_errors(duration_minutes, start_time_local, rule, start_date, end_date), "duration_minutes"@, "DURATION_INVALID"@) <==> duration_minutes <= 0,
        has_error(create_errors(duration_minutes, start_time_local, rule, start_date, end_date), "start_time_local"@, "TIME_FORMAT_INVALID"@) <==> naive_time_parsed(start_time_local, hms_format()) is None,
        has_error(create_errors(duration_minutes, start_time_local, rule, start_date, end_date), "rule"@, "RULE_EMPTY"@) <==> is_blank(rule),
        has_error(create_errors(duration_minutes, start_time_local, rule, start_date, end_date), "start_date"@, "DATE_FORMAT_INVALID"@) <==> bad_day(start_date),
        has_error(create_errors(duration_minutes, start_time_local, rule, start_date, end_date), "end_date"@, "DATE_FORMAT_INVALID"@) <==> bad_day(end_date),
        has_error(create_errors(duration_minutes, start_time_local, rule, start_date, end_date), "end_date"@, "DATE_RANGE_INVALID"@) <==> reversed_range(start_date, end_date),
        match (start_date, end_date) {
            (Some(s), Some(e)) => match (naive_date_parsed(s, ymd_format()), naive_date_parsed(e, ymd_format())) {
                (Some(sd), Some(ed)) => has_error(
                    create_errors(duration_minutes, start_time_local, rule, start_date, end_date),
                    "end_date"@,
                    "DATE_RANGE_INVALID"@,
                ) <==> date_before(ed, sd),
                _ => true,
            },
            _ => true,
        },
{
    reveal_strlit("DATE_FORMAT_INVALID");
    reveal_strlit("DATE_RANGE_INVALID");
    reveal_strlit("DURATION_INVALID");
    reveal_strlit("RULE_EMPTY");
    reveal_strlit("TIME_FORMAT_INVALID");
    reveal_strlit("duration_minutes");
    reveal_strlit("end_date");
    reveal_strlit("rule");
    reveal_strlit("start_date");
    reveal_strlit("start_time_local");
    assert("DATE_FORMAT_INVALID"@.len() == 19 && "DATE_RANGE_INVALID"@.len() == 18 && "DURATION_INVALID"@.len() == 16 && "RULE_EMPTY"@.len() == 10 && "TIME_FORMAT_INVALID"@.len() == 19 && "duration_minutes"@.len() == 16 && "end_date"@.len() == 8 && "rule"@.len() == 4 && "start_date"@.len() == 10 && "start_time_local"@.len() == 16);
    let errs = create_errors(duration_minutes, start_time_local, rule, start_date, end_date);
    let e1 = error_if(duration_minutes <= 0, "duration_minutes"@, "duration_minutes must be positive"@, "DURATION_INVALID"@);
    let e2 = error_if(naive_time_parsed(start_time_local, hms_format()) is None, "start_time_local"@, "start_time_local must be in HH:MM:SS format"@, "TIME_FORMAT_INVALID"@);
    let e3 = error_if(is_blank(rule), "rule"@, "rule cannot be empty"@, "RULE_EMPTY"@);
    let e4 = error_if(bad_day(start_date), "start_date"@, "start_date must be in YYYY-MM-DD format"@, "DATE_FORMAT_INVALID"@);
    let e5 = error_if(bad_day(end_date), "end_date"@, "end_date must be in YYYY-MM-DD format"@, "DATE_FORMAT_INVALID"@);
    let e6 = error_if(reversed_range(start_date, end_date), "end_date"@, "end_date must be after or equal to start_date"@, "DATE_RANGE_INVALID"@);
    assert(errs == e1 + e2 + e3 + e4 + e5 + e6);
    assert forall|k: int| 0 <= k < errs.len() implies (errs[k].field == "duration_minutes"@ && errs[k].code == "DURATION_INVALID"@ && duration_minutes <= 0) || (errs[k].field == "start_time_local"@ && errs[k].code == "TIME_FORMAT_INVALID"@ && naive_time_parsed(start_time_local, hms_format()) is None) || (errs[k].field == "rule"@ && errs[k].code == "RULE_EMPTY"@ && is_blank(rule)) || (errs[k].field == "start_date"@ && errs[k].code == "DATE_FORMAT_INVALID"@ && bad_day(start_date)) || (errs[k].field == "end_date"@ && errs[k].code == "DATE_FORMAT_INVALID"@ && bad_day(end_date)) || (errs[k].field == "end_date"@ && errs[k].code == "DATE_RANGE_INVALID"@ && reversed_range(start_date, end_date)) by {
    }
    if duration_minutes <= 0 {
        let k = (0) as int;
        assert(errs[k].field == "duration_minutes"@ && errs[k].code == "DURATION_INVALID"@);
    }
    if naive_time_parsed(start_time_local, hms_format()) is None {
        let k = (e1.len()) as int;
        assert(errs[k].field == "start_time_local"@ && errs[k].code == "TIME_FORMAT_INVALID"@);
    }
    if is_blank(rule) {
        let k = (e1.len() + e2.len()) as int;
        assert(errs[k].field == "rule"@ && errs[k].code == "RULE_EMPTY"@);
    }
    if bad_day(start_date) {
        let k = (e1.len() + e2.len() + e3.len()) as int;
        assert(errs[k].field == "start_date"@ && errs[k].code == "DATE_FORMAT_INVALID"@);
    }
    if bad_day(end_date) {
        let k = (e1.len() + e2.len() + e3.len() + e4.len()) as int;
        assert(errs[k].field == "end_date"@ && errs[k].code == "DATE_FORMAT_INVALID"@);
    }
    if reversed_range(start_date, end_date) {
        let k = (e1.len() + e2.len() + e3.len() + e4.len() + e5.len()) as int;
        assert(errs[k].field == "end_date"@ && errs[k].code == "DATE_RANGE_INVALID"@);
    }
}

} // verus!
