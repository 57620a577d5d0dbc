use vstd::prelude::*;

use crate::dates::{
    date_before, date_is_before, naive_date_parsed, parse_naive_date, ymd_format, ymd_format_text,
};
use crate::entities::TimeType;
use crate::errors::{
    indexed_validation, indexed_validation_result, result_is, texts_of, validation_error, AppError,
};
use crate::recurrences::rrule_text::{extract_until_from_rrule, until_date, until_readable};
use crate::text::{is_blank, is_blank_text, str_eq};

verus! {

/// The body of `POST /api/recurrences`.
#[derive(Debug)]
pub struct CreateTaskRecurrenceRequest {
    pub template_id: u128,
    pub rule: String,
    pub time_type: Option<TimeType>,
    pub start_date: Option<String>,
    pub end_date: Option<String>,
    pub timezone: Option<String>,
    pub is_active: Option<bool>,
    pub source_task_id: Option<u128>,
}

pub open spec fn opt_text(o: Option<String>) -> Option<Seq<char>> {
    match o {
        Some(s) => Some(s@),
        None => None,
    }
}

pub open spec fn message_if(cond: bool, message: Seq<char>) -> Seq<Seq<char>> {
    if cond { seq![message] } else { seq![] }
}

/// The date a `YYYY-MM-DD` field reads as, when it is given and reads at all.
pub open spec fn parsed_day(o: Option<Seq<char>>) -> Option<(int, int, int)> {
    match o {
        Some(s) => naive_date_parsed(s, ymd_format()),
        None => None,
    }
}

/// The `UNTIL` date of the rule differs from a given `end_date`.
pub open spec fn until_conflicts(rule: Seq<char>, end_date: Option<Seq<char>>) -> bool {
    match (until_date(rule), end_date) {
        (Some(u), Some(e)) => u != e,
        _ => false,
    }
}

/// Both dates read and the end comes before the start.
pub open spec fn range_reversed(start: Option<(int, int, int)>, end: Option<(int, int, int)>) -> bool {
    match (start, end) {
        (Some(s), Some(e)) => date_before(e, s),
        _ => false,
    }
}

/// Every rule that a new recurrence breaks, in the order they are checked.
pub open spec fn create_recurrence_messages(r: CreateTaskRecurrenceRequest) -> Seq<Seq<char>> {
    let start = opt_text(r.start_date);
    let end = opt_text(r.end_date);
    message_if(is_blank(r.rule@), "rule cannot be empty"@) + message_if(
        r.source_task_id is Some && r.start_date is None,
        "start_date is required when source_task_id is provided"@,
    ) + message_if(
        until_conflicts(r.rule@, end),
        "RRULE UNTIL and end_date must be consistent (or omit UNTIL and use end_date only)"@,
    ) + message_if(start is Some && parsed_day(start) is None, "start_date must be in YYYY-MM-DD format"@)
        + message_if(end is Some && parsed_day(end) is None, "end_date must be in YYYY-MM-DD format"@)
        + message_if(
        range_reversed(parsed_day(start), parsed_day(end)),
        "end_date must be after or equal to start_date"@,
    )
}

/// Reads an optional `YYYY-MM-DD` field.
pub fn parse_optional_day(o: &Option<String>) -> (r: Option<crate::dates::CalendarDate>)
    ensures
        match parsed_day(opt_text(*o)) {
            Some(t) => r matches Some(d) && d.ymd() == t,
            None => r is None,
        },
{
    match o {
        Some(s) => parse_naive_date(s.as_str(), ymd_format_text()),
        None => None,
    }
}

/// Checks a new recurrence rule: the rule is not blank; `start_date` is given when a source
/// task is; the RRULE's `UNTIL` agrees with `end_date`; both dates are `YYYY-MM-DD`; the end
/// is not before the start. All broken rules are reported together, as `field_0`,
/// `field_1`, ... with the code `VALIDATION_ERROR`.
pub fn validate_request(request: &CreateTaskRecurrenceRequest) -> (r: Result<(), AppError>)
    requires
        until_readable(request.rule@),
    ensures
        result_is(r, indexed_validation(create_recurrence_messages(*request))),
{
    let mut messages: Vec<&str> = Vec::new();
    let ghost expected = create_recurrence_messages(*request);
    let ghost start = opt_text(request.start_date);
    let ghost end = opt_text(request.end_date);

    if is_blank_text(request.rule.as_str()) {
        messages.push("rule cannot be empty");
    }
    assert(texts_of(messages@) =~= message_if(is_blank(request.rule@), "rule cannot be empty"@));
    let ghost m1 = texts_of(messages@);

    if request.source_task_id.is_some() && request.start_date.is_none() {
        messages.push("start_date is required when source_task_id is provided");
    }
    let ghost m2 = message_if(
        request.source_task_id is Some && request.start_date is None,
        "start_date is required when source_task_id is provided"@,
    );
    assert(texts_of(messages@) =~= m1 + m2);

    let mut conflict = false;
    match extract_until_from_rrule(request.rule.as_str()) {
        Some(until) => match &request.end_date {
            Some(e) => {
                conflict = !str_eq(until.as_str(), e.as_str());
            },
            None => {},
        },
        None => {},
    }
    if conflict {
        messages.push("RRULE UNTIL and end_date must be consistent (or omit UNTIL and use end_date only)");
    }
    let ghost m3 = message_if(
        until_conflicts(request.rule@, end),
        "RRULE UNTIL and end_date must be consistent (or omit UNTIL and use end_date only)"@,
    );
    assert(texts_of(messages@) =~= m1 + m2 + m3);

    let start_parsed = parse_optional_day(&request.start_date);
    if request.start_date.is_some() && start_parsed.is_none() {
        messages.push("start_date must be in YYYY-MM-DD format");
    }
    let ghost m4 = message_if(start is Some && parsed_day(start) is None, "start_date must be in YYYY-MM-DD format"@);
    assert(texts_of(messages@) =~= m1 + m2 + m3 + m4);

    let end_parsed = parse_optional_day(&request.end_date);
    if request.end_date.is_some() && end_parsed.is_none() {
        messages.push("end_date must be in YYYY-MM-DD format");
    }
    let ghost m5 = message_if(end is Some && parsed_day(end) is None, "end_date must be in YYYY-MM-DD format"@);
    assert(texts_of(messages@) =~= m1 + m2 + m3 + m4 + m5);

    let reversed = match (&start_parsed, &end_parsed) {
        (Some(s), Some(e)) => date_is_before(e, s),
        _ => false,
    };
    if reversed {
        messages.push("end_date must be after or equal to start_date");
    }
    let ghost m6 = message_if(
        range_reversed(parsed_day(start), parsed_day(end)),
        "end_date must be after or equal to start_date"@,
    );
    assert(texts_of(messages@) =~= m1 + m2 + m3 + m4 + m5 + m6);
    indexed_validation_result(&messages)
}

/// The recurrence's time type, `FLOATING` unless the request says otherwise.
pub fn resolved_time_type(requested: Option<TimeType>) -> (r: TimeType)
    ensures
        r == match requested {
            Some(t) => t,
            None => TimeType::Floating,
        },
{
    match requested {
        Some(t) => t,
        None => TimeType::Floating,
    }
}

/// A new recurrence is active unless the request says otherwise.
pub fn resolved_is_active(requested: Option<bool>) -> (r: bool)
    ensures
        r == match requested {
            Some(b) => b,
            None => true,
        },
{
    match requested {
        Some(b) => b,
        None => true,
    }
}

/// The source task of a new recurrence becomes its first instance only when its earliest
/// schedule falls on the recurrence's `start_date`.
pub open spec fn source_task_date_check(actual: Option<Seq<char>>, expected: Seq<char>) -> Result<(), crate::errors::AppErrorView> {
    match actual {
        Some(d) => if d == expected {
            Ok(())
        } else {
            Err(
                crate::errors::single_field_error(
                    "source_task_id"@,
                    "Source task is scheduled on "@ + d + ", but start_date is "@ + expected,
                    "DATE_MISMATCH"@,
                ),
            )
        },
        None => Err(
            crate::errors::single_field_error(
                "source_task_id"@,
                "Source task has no schedule date"@,
                "NO_SCHEDULE"@,
            ),
        ),
    }
}

/// Checks the earliest schedule date of the source task (`None` when it has none) against the
/// recurrence's start date.
pub fn check_source_task_date(actual_date: &Option<String>, expected_start_date: &str) -> (r: Result<(), AppError>)
    ensures
        result_is(r, source_task_date_check(opt_text(*actual_date), expected_start_date@)),
{
    match actual_date {
        Some(d) => {
            if str_eq(d.as_str(), expected_start_date) {
                Ok(())
            } else {
                let mut message = "Source task is scheduled on ".to_owned();
                message.append(d.as_str());
                message.append(", but start_date is ");
                message.append(expected_start_date);
                Err(validation_error_owned("source_task_id", message, "DATE_MISMATCH"))
            }
        },
        None => Err(validation_error("source_task_id", "Source task has no schedule date", "NO_SCHEDULE")),
    }
}

/// A validation failure on one field, with a message built at run time.
pub fn validation_error_owned(field: &str, message: String, code: &str) -> (e: AppError)
    ensures
        e@ == crate::errors::single_field_error(field@, message@, code@),
{
    validation_error(field, message.as_str(), code)
}

} // verus!

verus! {

/// The text of the message for an end date before the start date.
pub open spec fn reversed_range_message() -> Seq<char> {
    "end_date must be after or equal to start_date"@
}

/// When both dates read as dates, a new recurrence is refused for its date range exactly
/// when the end date falls on a day before the start date (comparing year, month and day);
/// an end on the start day or later is accepted. When either date does not read, the range
/// is not reported.
pub proof fn range_is_refused_exactly_when_end_is_before_start(r: CreateTaskRecurrenceRequest)
    ensures
        match (parsed_day(opt_text(r.start_date)), parsed_day(opt_text(r.end_date))) {
            (Some(s), Some(e)) => create_recurrence_messages(r).contains(reversed_range_message()) <==> date_before(
                e,
                s,
            ),
            _ => !create_recurrence_messages(r).contains(reversed_range_message()),
        },
{
    reveal_strlit("rule cannot be empty");
    reveal_strlit("start_date is required when source_task_id is provided");
    reveal_strlit("RRULE UNTIL and end_date must be consistent (or omit UNTIL and use end_date only)");
    reveal_strlit("start_date must be in YYYY-MM-DD format");
    reveal_strlit("end_date must be in YYYY-MM-DD format");
    reveal_strlit("end_date must be after or equal to start_date");
    let m = create_recurrence_messages(r);
    let msg = reversed_range_message();
    let start = opt_text(r.start_date);
    let end = opt_text(r.end_date);
    let m1 = message_if(is_blank(r.rule@), "rule cannot be empty"@);
    let m2 = message_if(
        r.source_task_id is Some && r.start_date is None,
        "start_date is required when source_task_id is provided"@,
    );
    let m3 = message_if(
        until_conflicts(r.rule@, end),
        "RRULE UNTIL and end_date must be consistent (or omit UNTIL and use end_date only)"@,
    );
    let m4 = message_if(start is Some && parsed_day(start) is None, "start_date must be in YYYY-MM-DD format"@);
    let m5 = message_if(end is Some && parsed_day(end) is None, "end_date must be in YYYY-MM-DD format"@);
    let m6 = message_if(range_reversed(parsed_day(start), parsed_day(end)), msg);
    let head = m1 + m2 + m3 + m4 + m5;
    assert(m == head + m6);
    assert("rule cannot be empty"@.len() == 20 && msg.len() == 45);
    assert("rule cannot be empty"@ != msg);
    assert("start_date is required when source_task_id is provided"@.len() == 54 && msg.len() == 45);
    assert("start_date is required when source_task_id is provided"@ != msg);
    assert("RRULE UNTIL and end_date must be consistent (or omit UNTIL and use end_date only)"@.len() == 81 && msg.len() == 45);
    assert("RRULE UNTIL and end_date must be consistent (or omit UNTIL and use end_date only)"@ != msg);
    assert("start_date must be in YYYY-MM-DD format"@.len() == 39 && msg.len() == 45);
    assert("start_date must be in YYYY-MM-DD format"@ != msg);
    assert("end_date must be in YYYY-MM-DD format"@.len() == 37 && msg.len() == 45);
    assert("end_date must be in YYYY-MM-DD format"@ != msg);
    assert forall|k: int| 0 <= k < head.len() implies head[k] != msg by {
        assert(head[k] == "rule cannot be empty"@ || head[k] == "start_date is required when source_task_id is provided"@
            || head[k] == "RRULE UNTIL and end_date must be consistent (or omit UNTIL and use end_date only)"@
            || head[k] == "start_date must be in YYYY-MM-DD format"@ || head[k] == "end_date must be in YYYY-MM-DD format"@);
    }
    if range_reversed(parsed_day(start), parsed_day(end)) {
        assert(m[m.len() - 1] == msg);
    } else {
        assert(m =~= head);
    }
}

/// Each rule a new recurrence breaks is reported, and only those: a blank rule; a source
/// task without a start date; an RRULE `UNTIL` that differs from the given end date; a start
/// or end date that does not read as `YYYY-MM-DD`. Each message appears exactly when its
/// rule is broken, and the messages come in this order.
pub proof fn each_rule_is_reported_exactly_when_broken(r: CreateTaskRecurrenceRequest)
    ensures
        create_recurrence_messages(r).contains("rule cannot be empty"@) <==> is_blank(r.rule@),
        create_recurrence_messages(r).contains("start_date is required when source_task_id is provided"@) <==> (
        r.source_task_id is Some && r.start_date is None),
        create_recurrence_messages(r).contains(
            "RRULE UNTIL and end_date must be consistent (or omit UNTIL and use end_date only)"@,
        ) <==> until_conflicts(r.rule@, opt_text(r.end_date)),
        create_recurrence_messages(r).contains("start_date must be in YYYY-MM-DD format"@) <==> (r.start_date is Some
            && parsed_day(opt_text(r.start_date)) is None),
        create_recurrence_messages(r).contains("end_date must be in YYYY-MM-DD format"@) <==> (r.end_date is Some
            && parsed_day(opt_text(r.end_date)) is None),
        create_recurrence_messages(r).len() <= 6,
{
    reveal_strlit("rule cannot be empty");
    reveal_strlit("start_date is required when source_task_id is provided");
    reveal_strlit("RRULE UNTIL and end_date must be consistent (or omit UNTIL and use end_date only)");
    reveal_strlit("start_date must be in YYYY-MM-DD format");
    reveal_strlit("end_date must be in YYYY-MM-DD format");
    reveal_strlit("end_date must be after or equal to start_date");
    let l1 = "rule cannot be empty"@;
    let l2 = "start_date is required when source_task_id is provided"@;
    let l3 = "RRULE UNTIL and end_date must be consistent (or omit UNTIL and use end_date only)"@;
    let l4 = "start_date must be in YYYY-MM-DD format"@;
    let l5 = "end_date must be in YYYY-MM-DD format"@;
    let l6 = "end_date must be after or equal to start_date"@;
    assert(l1.len() == 20 && l2.len() == 54 && l3.len() == 81 && l4.len() == 39 && l5.len() == 37 && l6.len() == 45);
    let start = opt_text(r.start_date);
    let end = opt_text(r.end_date);
    let b1 = is_blank(r.rule@);
    let b2 = r.source_task_id is Some && r.start_date is None;
    let b3 = until_conflicts(r.rule@, end);
    let b4 = start is Some && parsed_day(start) is None;
    let b5 = end is Some && parsed_day(end) is None;
    let b6 = range_reversed(parsed_day(start), parsed_day(end));
    let m1 = message_if(b1, l1);
    let m2 = message_if(b2, l2);
    let m3 = message_if(b3, l3);
    let m4 = message_if(b4, l4);
    let m5 = message_if(b5, l5);
    let m6 = message_if(b6, l6);
    let m = create_recurrence_messages(r);
    assert(m == m1 + m2 + m3 + m4 + m5 + m6);
    assert forall|k: int| 0 <= k < m.len() implies (m[k] == l1 && b1) || (m[k] == l2 && b2) || (m[k] == l3 && b3) || (m[k]
        == l4 && b4) || (m[k] == l5 && b5) || (m[k] == l6 && b6) by {
    }
    let i1 = 0int;
    let i2 = m1.len() as int;
    let i3 = (m1.len() + m2.len()) as int;
    let i4 = (m1.len() + m2.len() + m3.len()) as int;
    let i5 = (m1.len() + m2.len() + m3.len() + m4.len()) as int;
    if b1 {
        assert(m[i1] == l1);
    }
    if b2 {
        assert(m[i2] == l2);
    }
    if b3 {
        assert(m[i3] == l3);
    }
    if b4 {
        assert(m[i4] == l4);
    }
    if b5 {
        assert(m[i5] == l5);
    }
}

} // verus!
