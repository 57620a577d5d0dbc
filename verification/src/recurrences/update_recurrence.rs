use vstd::prelude::*;

use chrono::Datelike;

use crate::dates::{
    calendar_date_exists, date_before, date_is_before, format_naive_date, four_digit_day, ymd_text,
    naive_date_parse_outcome, parse_naive_date_or_error, ymd_format, ymd_format_text, CalendarDate,
};
use crate::entities::TimeType;
use crate::errors::{
    field_error, indexed_validation, indexed_validation_result, result_is, single_field_error,
    texts_of, validation_error, AppError, AppErrorView, FieldErrorView,
};
use crate::recurrences::create_recurrence::{opt_text, until_conflicts, message_if};
use crate::recurrences::rrule_text::{extract_until_from_rrule, until_readable};
use crate::text::{is_blank, is_blank_text, replace_all, replace_text, str_eq};

verus! {

/// The body of `PATCH /api/recurrences/:id`. A field left out is not changed; for the
/// nullable fields, `Some(None)` clears the value.
#[derive(Debug)]
pub struct UpdateTaskRecurrenceRequest {
    pub template_id: Option<u128>,
    pub rule: Option<String>,
    pub time_type: Option<TimeType>,
    pub start_date: Option<Option<String>>,
    pub end_date: Option<Option<String>>,
    pub timezone: Option<Option<String>>,
    pub is_active: Option<bool>,
}

/// The `end_date` that the request sets, if it sets one.
pub open spec fn new_end_date(r: UpdateTaskRecurrenceRequest) -> Option<Seq<char>> {
    match r.end_date {
        Some(Some(e)) => Some(e@),
        _ => None,
    }
}

/// Every rule that an update of a recurrence breaks, in the order they are checked.
pub open spec fn update_recurrence_messages(r: UpdateTaskRecurrenceRequest) -> Seq<Seq<char>> {
    message_if(r.start_date is Some, "Modifying start_date is not allowed"@) + match r.rule {
        Some(rule) => message_if(is_blank(rule@), "rule cannot be empty"@) + message_if(
            until_conflicts(rule@, new_end_date(r)),
            "RRULE UNTIL and end_date must be consistent (or omit UNTIL and use end_date only)"@,
        ),
        None => seq![],
    }
}

/// An update whose rule has an `UNTIL` value that can be read.
pub open spec fn update_rule_readable(r: UpdateTaskRecurrenceRequest) -> bool {
    r.rule matches Some(rule) ==> until_readable(rule@)
}

/// Checks an update of a recurrence rule: `start_date` cannot be changed; a new rule is not
/// blank and its `UNTIL` agrees with a new `end_date`. All broken rules are reported
/// together, as `field_0`, `field_1`, ... with the code `VALIDATION_ERROR`.
pub fn validate_update_request(request: &UpdateTaskRecurrenceRequest) -> (r: Result<(), AppError>)
    requires
        update_rule_readable(*request),
    ensures
        result_is(r, indexed_validation(update_recurrence_messages(*request))),
{
    let mut messages: Vec<&str> = Vec::new();
    if request.start_date.is_some() {
        messages.push("Modifying start_date is not allowed");
    }
    let ghost m1 = message_if(request.start_date is Some, "Modifying start_date is not allowed"@);
    assert(texts_of(messages@) =~= m1);
    match &request.rule {
        Some(rule) => {
            if is_blank_text(rule.as_str()) {
                messages.push("rule cannot be empty");
            }
            let ghost m2 = message_if(is_blank(rule@), "rule cannot be empty"@);
            assert(texts_of(messages@) =~= m1 + m2);
            let mut conflict = false;
            match extract_until_from_rrule(rule.as_str()) {
                Some(until) => match &request.end_date {
                    Some(Some(e)) => {
                        conflict = !str_eq(until.as_str(), e.as_str());
                    },
                    _ => {},
                },
                None => {},
            }
            if conflict {
                messages.push(
                    "RRULE UNTIL and end_date must be consistent (or omit UNTIL and use end_date only)",
                );
            }
            let ghost m3 = message_if(
                until_conflicts(rule@, new_end_date(*request)),
                "RRULE UNTIL and end_date must be consistent (or omit UNTIL and use end_date only)"@,
            );
            assert(texts_of(messages@) =~= m1 + (m2 + m3));
        },
        None => {
            assert(texts_of(messages@) =~= m1 + seq![]);
        },
    }
    indexed_validation_result(&messages)
}

/// A new `end_date` must not come before the recurrence's existing `start_date`; both must
/// read as `YYYY-MM-DD` (the error carries chrono's parse message).
pub open spec fn end_after_start_check(start: Seq<char>, end: Seq<char>) -> Result<(), AppErrorView> {
    match naive_date_parse_outcome(start, ymd_format()) {
        Err(m) => Err(single_field_error("start_date"@, "Invalid start_date format: "@ + m, "INVALID_DATE"@)),
        Ok(s) => match naive_date_parse_outcome(end, ymd_format()) {
            Err(m) => Err(single_field_error("end_date"@, "Invalid end_date format: "@ + m, "INVALID_DATE"@)),
            Ok(e) => if date_before(e, s) {
                Err(
                    single_field_error(
                        "end_date"@,
                        "end_date must be after or equal to start_date"@,
                        "INVALID_DATE_RANGE"@,
                    ),
                )
            } else {
                Ok(())
            },
        },
    }
}

fn error_with_detail(field: &str, prefix: &str, detail: &String, code: &str) -> (e: AppError)
    ensures
        e@ == single_field_error(field@, prefix@ + detail@, code@),
{
    let mut message = prefix.to_owned();
    message.append(detail.as_str());
    validation_error(field, message.as_str(), code)
}

/// Checks that `end_date` is not before `start_date`.
pub fn validate_end_date_after_start(start_date: &str, end_date: &str) -> (r: Result<(), AppError>)
    ensures
        result_is(r, end_after_start_check(start_date@, end_date@)),
{
    let start = match parse_naive_date_or_error(start_date, ymd_format_text()) {
        Ok(d) => d,
        Err(m) => {
            return Err(error_with_detail("start_date", "Invalid start_date format: ", &m, "INVALID_DATE"));
        },
    };
    let end = match parse_naive_date_or_error(end_date, ymd_format_text()) {
        Ok(d) => d,
        Err(m) => {
            return Err(error_with_detail("end_date", "Invalid end_date format: ", &m, "INVALID_DATE"));
        },
    };
    if date_is_before(&end, &start) {
        return Err(
            validation_error(
                "end_date",
                "end_date must be after or equal to start_date",
                "INVALID_DATE_RANGE",
            ),
        );
    }
    Ok(())
}

/// The start of the recurrence as `YYYY-MM-DD`: its `start_date`, else the (UTC) day it was
/// created.
pub open spec fn dtstart_day(start_date: Option<Seq<char>>, created: (int, int, int)) -> Seq<char> {
    match start_date {
        Some(s) => s,
        None => ymd_text(created),
    }
}

/// The iCalendar text that chrono's RRULE parser reads: the start day without dashes as
/// `DTSTART`, then the rule.
pub open spec fn full_rrule_text(dtstart: Seq<char>, rule: Seq<char>) -> Seq<char> {
    "DTSTART:"@ + replace_all(dtstart, "-"@, ""@) + "\nRRULE:"@ + rule
}

/// Builds the RRULE set text for a recurrence.
pub fn full_rrule(start_date: &Option<String>, created_date: &CalendarDate, rule: &str) -> (r: String)
    requires
        calendar_date_exists(created_date.ymd()),
    ensures
        r@ == full_rrule_text(dtstart_day(opt_text(*start_date), created_date.ymd()), rule@),
{
    let dtstart = match start_date {
        Some(s) => s.clone(),
        None => format_naive_date(created_date, ymd_format_text()),
    };
    proof {
        reveal_strlit("-");
    }
    let compact = replace_text(dtstart.as_str(), "-", "");
    let mut text = "DTSTART:".to_owned();
    text.append(compact.as_str());
    text.append("\nRRULE:");
    text.append(rule);
    text
}

/// Stop looking at occurrences after this many.
pub const MAX_OCCURRENCES_CHECKED: usize = 1000;

/// Walking the occurrences from index `k`: the date is found before an occurrence passes it
/// and before more than 1000 occurrences were looked at.
pub open spec fn occurrence_scan(occ: Seq<(int, int, int)>, date: (int, int, int), k: int) -> bool
    decreases occ.len() - k,
{
    if k < 0 || k >= occ.len() {
        false
    } else if occ[k] == date {
        true
    } else if date_before(date, occ[k]) {
        false
    } else if k + 1 > MAX_OCCURRENCES_CHECKED {
        false
    } else {
        occurrence_scan(occ, date, k + 1)
    }
}

pub open spec fn dates_view(v: Seq<CalendarDate>) -> Seq<(int, int, int)> {
    v.map_values(|d: CalendarDate| d.ymd())
}

/// Whether `date` is among the occurrences, looking at them in order and stopping at the
/// first one after `date` or after 1000 of them.
pub fn occurrences_include(occurrences: &Vec<CalendarDate>, date: &CalendarDate) -> (r: bool)
    ensures
        r == occurrence_scan(dates_view(occurrences@), date.ymd(), 0),
{
    let ghost ov = dates_view(occurrences@);
    let mut k: usize = 0;
    let mut count: usize = 0;
    while k < occurrences.len()
        invariant
            k <= occurrences@.len(),
            ov == dates_view(occurrences@),
            count == k,
            k <= MAX_OCCURRENCES_CHECKED,
            occurrence_scan(ov, date.ymd(), 0) == occurrence_scan(ov, date.ymd(), k as int),
        decreases occurrences@.len() - k,
    {
        let occ = &occurrences[k];
        assert(ov[k as int] == occ.ymd());
        count = count + 1;
        if occ.year == date.year && occ.month == date.month && occ.day == date.day {
            return true;
        }
        if date_is_before(date, occ) {
            return false;
        }
        if count > MAX_OCCURRENCES_CHECKED {
            return false;
        }
        k = k + 1;
    }
    false
}

/// The occurrence dates come in order (a later one never before an earlier one) and none
/// is before the day `d`.
pub open spec fn occurrences_from(occ: Seq<(int, int, int)>, d: (int, int, int)) -> bool {
    &&& forall|i: int| 0 <= i < occ.len() ==> !date_before(#[trigger] occ[i], d)
    &&& forall|i: int, j: int| 0 <= i < j < occ.len() ==> !date_before(#[trigger] occ[j], #[trigger] occ[i])
}

/// A rule of one line, so that the RRULE set text holds only its `DTSTART` and one `RRULE`.
pub open spec fn single_line(rule: Seq<char>) -> bool {
    !rule.contains('\n')
}

/// The occurrences a recurrence was judged against start on its `DTSTART` day, when that
/// day is written `YYYY-MM-DD` with a four-digit year and the rule is one line.
pub open spec fn occurrences_fit_start(
    occ: Seq<(int, int, int)>,
    start_date: Option<Seq<char>>,
    created: (int, int, int),
    rule: Seq<char>,
) -> bool {
    forall|d: (int, int, int)|
        #![trigger ymd_text(d)]
        four_digit_day(d) && single_line(rule) && dtstart_day(start_date, created) == ymd_text(d)
            ==> occurrences_from(occ, d)
}

/// The first `limit` occurrence dates of an iCalendar RRULE set text
/// (`text.parse::<rrule::RRuleSet>()`, iterated, each occurrence's `date_naive`), or the
/// debug text of the parse error. A `DTSTART` without a time zone is read in the machine's
/// time zone, so which dates come back is not claimed. Claimed: at most `limit` dates, each
/// a date chrono can hold; and when the text is a `DTSTART` day `YYYYMMDD` followed by a
/// single `RRULE` line, the dates are in order and none is before that day (the set
/// iterator yields its rule's occurrences in ascending order and the rule iterator keeps
/// only those at or after `DTSTART`, which is midnight of that day).
#[verifier::external_body]
fn rrule_occurrence_dates(text: &str, limit: usize) -> (r: Result<Vec<CalendarDate>, String>)
    ensures
        r matches Ok(v) ==> v@.len() <= limit,
        r matches Ok(v) ==> forall|i: int| 0 <= i < v@.len() ==> calendar_date_exists(#[trigger] v@[i].ymd()),
        r matches Ok(v) ==> forall|d: (int, int, int), rule: Seq<char>|
            #![trigger full_rrule_text(ymd_text(d), rule)]
            four_digit_day(d) && single_line(rule) && text@ == full_rrule_text(ymd_text(d), rule)
                ==> occurrences_from(dates_view(v@), d),
{
    match text.parse::<rrule::RRuleSet>() {
        Ok(set) => Ok(
            set.into_iter().take(limit).map(
                |o| {
                    let d = o.date_naive();
                    CalendarDate { year: d.year(), month: d.month(), day: d.day() }
                },
            ).collect(),
        ),
        Err(e) => Err(format!("{:?}", e)),
    }
}

/// Whether a recurrence (its rule, `start_date` and creation day) produces an instance on
/// `date`. Which occurrences the rule produces depends on the machine's time zone; whatever
/// they are, the answer is the one `occurrences_include` gives on them, they start on the
/// recurrence's `DTSTART` day as `occurrences_fit_start` says, and an unreadable rule is
/// reported as `INVALID_RRULE`.
pub fn check_date_matches_rrule(
    date: &CalendarDate,
    rule: &str,
    start_date: &Option<String>,
    created_date: &CalendarDate,
) -> (r: Result<bool, AppError>)
    requires
        calendar_date_exists(created_date.ymd()),
    ensures
        r matches Ok(b) ==> exists|occ: Seq<(int, int, int)>|
            #![trigger occurrence_scan(occ, date.ymd(), 0)]
            occ.len() <= MAX_OCCURRENCES_CHECKED + 1 && b == occurrence_scan(occ, date.ymd(), 0)
                && occurrences_fit_start(occ, opt_text(*start_date), created_date.ymd(), rule@),
        r matches Ok(b) ==> forall|d: (int, int, int)|
            #![trigger ymd_text(d)]
            four_digit_day(d) && single_line(rule@) && dtstart_day(opt_text(*start_date), created_date.ymd())
                == ymd_text(d) && date_before(date.ymd(), d) ==> !b,
        r matches Err(e) ==> e@ matches AppErrorView::ValidationFailed(errs) && errs.len() == 1
            && errs[0].field == "rule"@ && errs[0].code == "INVALID_RRULE"@,
{
    let text = full_rrule(start_date, created_date, rule);
    match rrule_occurrence_dates(text.as_str(), MAX_OCCURRENCES_CHECKED + 1) {
        Ok(occ) => {
            proof {
                lemma_occurrences_fit_start(text@, dates_view(occ@), opt_text(*start_date), created_date.ymd(), rule@);
                assert forall|d: (int, int, int)|
                    #![trigger ymd_text(d)]
                    four_digit_day(d) && single_line(rule@) && dtstart_day(opt_text(*start_date), created_date.ymd())
                        == ymd_text(d) && date_before(date.ymd(), d)
                        implies !occurrence_scan(dates_view(occ@), date.ymd(), 0) by {
                    day_before_start_never_matches(dates_view(occ@), d, date.ymd());
                }
            }
            Ok(occurrences_include(&occ, date))
        },
        Err(m) => Err(error_with_detail("rule", "Invalid RRULE: ", &m, "INVALID_RRULE")),
    }
}

/// A day before the day the occurrences start from is never found among them.
pub proof fn day_before_start_never_matches(occ: Seq<(int, int, int)>, start: (int, int, int), date: (int, int, int))
    requires
        occurrences_from(occ, start),
        date_before(date, start),
    ensures
        !occurrence_scan(occ, date, 0),
{
    if occ.len() > 0 {
        assert(!date_before(occ[0], start));
    }
}

/// What the RRULE wrapper claims of the text of a recurrence gives `occurrences_fit_start`.
proof fn lemma_occurrences_fit_start(
    text: Seq<char>,
    occ: Seq<(int, int, int)>,
    start_date: Option<Seq<char>>,
    created: (int, int, int),
    rule: Seq<char>,
)
    requires
        text == full_rrule_text(dtstart_day(start_date, created), rule),
        forall|d: (int, int, int), rl: Seq<char>|
            #![trigger full_rrule_text(ymd_text(d), rl)]
            four_digit_day(d) && single_line(rl) && text == full_rrule_text(ymd_text(d), rl)
                ==> occurrences_from(occ, d),
    ensures
        occurrences_fit_start(occ, start_date, created, rule),
{
    assert forall|d: (int, int, int)|
        #![trigger ymd_text(d)]
        four_digit_day(d) && single_line(rule) && dtstart_day(start_date, created) == ymd_text(d)
            implies occurrences_from(occ, d) by {
        assert(text == full_rrule_text(ymd_text(d), rule));
    }
}

/// An uncompleted instance of a recurrence: its task and the day it stands for
/// (`YYYY-MM-DD`), as stored in the recurrence links.
#[derive(Debug)]
pub struct RecurrenceInstance {
    pub task_id: String,
    pub instance_date: String,
}

pub struct RecurrenceInstanceView {
    pub task_id: Seq<char>,
    pub instance_date: Seq<char>,
}

impl View for RecurrenceInstance {
    type V = RecurrenceInstanceView;

    open spec fn view(&self) -> RecurrenceInstanceView {
        RecurrenceInstanceView { task_id: self.task_id@, instance_date: self.instance_date@ }
    }
}

pub open spec fn instances_view(v: Seq<RecurrenceInstance>) -> Seq<RecurrenceInstanceView> {
    v.map_values(|i: RecurrenceInstance| i@)
}

/// The error for an instance whose day does not read as `YYYY-MM-DD`.
pub open spec fn instance_date_error(m: Seq<char>) -> AppErrorView {
    single_field_error("instance_date"@, "Invalid date format: "@ + m, "INVALID_DATE"@)
}

/// The instances that a rule with the given occurrences no longer produces, in their
/// order; or the error for the first instance whose day cannot be read.
pub open spec fn mismatched_result(
    s: Seq<RecurrenceInstanceView>,
    occ: Seq<(int, int, int)>,
) -> Result<Seq<RecurrenceInstanceView>, AppErrorView>
    decreases s.len(),
{
    if s.len() == 0 {
        Ok(seq![])
    } else {
        match mismatched_result(s.drop_last(), occ) {
            Err(e) => Err(e),
            Ok(prev) => match naive_date_parse_outcome(s.last().instance_date, ymd_format()) {
                Err(m) => Err(instance_date_error(m)),
                Ok(d) => if occurrence_scan(occ, d, 0) {
                    Ok(prev)
                } else {
                    Ok(prev.push(s.last()))
                },
            },
        }
    }
}

/// `r` failed because the recurrence's rule could not be read.
pub open spec fn rrule_error<T>(r: Result<T, AppError>) -> bool {
    r matches Err(e) && e@ matches AppErrorView::ValidationFailed(errs) && errs.len() == 1
        && errs[0].field == "rule"@ && errs[0].code == "INVALID_RRULE"@
}

pub open spec fn mismatched_matches(
    r: Result<Vec<RecurrenceInstance>, AppError>,
    expected: Result<Seq<RecurrenceInstanceView>, AppErrorView>,
) -> bool {
    match r {
        Ok(v) => expected == Ok::<Seq<RecurrenceInstanceView>, AppErrorView>(instances_view(v@)),
        Err(e) => expected == Err::<Seq<RecurrenceInstanceView>, AppErrorView>(e@),
    }
}

fn copy_instance(i: &RecurrenceInstance) -> (r: RecurrenceInstance)
    ensures
        r@ == i@,
{
    RecurrenceInstance { task_id: i.task_id.clone(), instance_date: i.instance_date.clone() }
}

/// The instances that the occurrences of a changed rule no longer cover (each day looked
/// up as `occurrences_include` does), to be deleted; an unreadable instance day is an
/// `INVALID_DATE` error on `instance_date`.
pub fn mismatched_instances_among(
    instances: &Vec<RecurrenceInstance>,
    occurrences: &Vec<CalendarDate>,
) -> (r: Result<Vec<RecurrenceInstance>, AppError>)
    ensures
        mismatched_matches(r, mismatched_result(instances_view(instances@), dates_view(occurrences@))),
{
    let ghost s = instances_view(instances@);
    let ghost occ = dates_view(occurrences@);
    let mut out: Vec<RecurrenceInstance> = Vec::new();
    let mut i: usize = 0;
    assert(s.subrange(0, 0) =~= Seq::<RecurrenceInstanceView>::empty());
    assert(instances_view(out@) =~= Seq::<RecurrenceInstanceView>::empty());
    while i < instances.len()
        invariant
            i <= instances@.len(),
            s == instances_view(instances@),
            occ == dates_view(occurrences@),
            mismatched_result(s.subrange(0, i as int), occ) == Ok::<Seq<RecurrenceInstanceView>, AppErrorView>(
                instances_view(out@),
            ),
        decreases instances@.len() - i,
    {
        let inst = &instances[i];
        let ghost prefix = s.subrange(0, i + 1);
        assert(prefix.drop_last() =~= s.subrange(0, i as int));
        assert(prefix.last() == inst@);
        let day = match parse_naive_date_or_error(inst.instance_date.as_str(), ymd_format_text()) {
            Ok(d) => d,
            Err(m) => {
                let e = error_with_detail("instance_date", "Invalid date format: ", &m, "INVALID_DATE");
                proof {
                    lemma_mismatched_error_persists(s, occ, i as int + 1, e@);
                }
                return Err(e);
            },
        };
        if !occurrences_include(occurrences, &day) {
            let ghost before = out@;
            out.push(copy_instance(inst));
            assert(instances_view(out@) =~= instances_view(before).push(inst@));
        }
        i = i + 1;
    }
    assert(s.subrange(0, i as int) =~= s);
    Ok(out)
}

/// Once a prefix of the instances ends in an error, the whole list does.
proof fn lemma_mismatched_error_persists(
    s: Seq<RecurrenceInstanceView>,
    occ: Seq<(int, int, int)>,
    k: int,
    e: AppErrorView,
)
    requires
        0 <= k <= s.len(),
        mismatched_result(s.subrange(0, k), occ) == Err::<Seq<RecurrenceInstanceView>, AppErrorView>(e),
    ensures
        mismatched_result(s, occ) == Err::<Seq<RecurrenceInstanceView>, AppErrorView>(e),
    decreases s.len() - k,
{
    if k < s.len() {
        let next = s.subrange(0, k + 1);
        assert(next.drop_last() =~= s.subrange(0, k));
        lemma_mismatched_error_persists(s, occ, k + 1, e);
    } else {
        assert(s.subrange(0, k) =~= s);
    }
}

/// The uncompleted instances that a recurrence's changed rule no longer produces. The
/// first instance's day is read before the rule, as each instance's day is read before it
/// is looked up; which occurrences the rule yields depends on the machine's time zone, so
/// the result is the one `mismatched_result` gives for some list of at most 1001 of them
/// that starts on the recurrence's `DTSTART` day as `occurrences_fit_start` says, or the
/// rule's `INVALID_RRULE` error.
pub fn find_mismatched_instances(
    instances: &Vec<RecurrenceInstance>,
    rule: &str,
    start_date: &Option<String>,
    created_date: &CalendarDate,
) -> (r: Result<Vec<RecurrenceInstance>, AppError>)
    requires
        calendar_date_exists(created_date.ymd()),
    ensures
        instances@.len() == 0 ==> (r matches Ok(v) && v@.len() == 0),
        instances@.len() > 0 ==> match naive_date_parse_outcome(instances@[0].instance_date@, ymd_format()) {
            Err(m) => (r matches Err(e) && e@ == instance_date_error(m)),
            Ok(_) => rrule_error(r) || exists|occ: Seq<(int, int, int)>|
                #![trigger mismatched_result(instances_view(instances@), occ)]
                occ.len() <= MAX_OCCURRENCES_CHECKED + 1 && mismatched_matches(
                    r,
                    mismatched_result(instances_view(instances@), occ),
                ) && occurrences_fit_start(occ, opt_text(*start_date), created_date.ymd(), rule@),
        },
{
    if instances.len() == 0 {
        return Ok(Vec::new());
    }
    let ghost s = instances_view(instances@);
    assert(s.subrange(0, 1).drop_last() =~= Seq::<RecurrenceInstanceView>::empty());
    assert(s.subrange(0, 1).last() == instances@[0]@);
    match parse_naive_date_or_error(instances[0].instance_date.as_str(), ymd_format_text()) {
        Ok(_) => {},
        Err(m) => {
            let e = error_with_detail("instance_date", "Invalid date format: ", &m, "INVALID_DATE");
            return Err(e);
        },
    }
    let text = full_rrule(start_date, created_date, rule);
    match rrule_occurrence_dates(text.as_str(), MAX_OCCURRENCES_CHECKED + 1) {
        Ok(occ) => {
            proof {
                lemma_occurrences_fit_start(text@, dates_view(occ@), opt_text(*start_date), created_date.ymd(), rule@);
            }
            mismatched_instances_among(instances, &occ)
        },
        Err(m) => Err(error_with_detail("rule", "Invalid RRULE: ", &m, "INVALID_RRULE")),
    }
}


/// Every instance picked for deletion after a rule change is one of the given instances,
/// and its day reads as a date that the new rule's occurrences do not cover.
pub proof fn mismatched_instances_are_uncovered(s: Seq<RecurrenceInstanceView>, occ: Seq<(int, int, int)>)
    ensures
        mismatched_result(s, occ) matches Ok(v) ==> forall|j: int|
            0 <= j < v.len() ==> exists|i: int|
                0 <= i < s.len() && #[trigger] s[i] == #[trigger] v[j] && (
                naive_date_parse_outcome(s[i].instance_date, ymd_format()) matches Ok(d) && !occurrence_scan(
                    occ,
                    d,
                    0,
                )),
    decreases s.len(),
{
    if s.len() > 0 {
        let d = s.drop_last();
        mismatched_instances_are_uncovered(d, occ);
        match mismatched_result(s, occ) {
            Ok(v) => {
                let p = mismatched_result(d, occ)->Ok_0;
                assert forall|j: int| 0 <= j < v.len() implies exists|i: int|
                    0 <= i < s.len() && #[trigger] s[i] == #[trigger] v[j] && (naive_date_parse_outcome(
                        s[i].instance_date,
                        ymd_format(),
                    ) matches Ok(dd) && !occurrence_scan(occ, dd, 0)) by {
                    if j < p.len() {
                        assert(v[j] == p[j]);
                        let i = choose|i: int|
                            0 <= i < d.len() && #[trigger] d[i] == #[trigger] p[j] && (naive_date_parse_outcome(
                                d[i].instance_date,
                                ymd_format(),
                            ) matches Ok(dd) && !occurrence_scan(occ, dd, 0));
                        assert(s[i] == d[i]);
                    } else {
                        assert(s[s.len() - 1] == s.last());
                    }
                }
            },
            Err(_) => {},
        }
    }
}

/// When both days read as dates, a new end date is accepted exactly when it is not before
/// the start date (comparing year, month and day): the same day and later days are fine.
pub proof fn end_date_accepted_exactly_when_not_before_start(start: Seq<char>, end: Seq<char>)
    ensures
        match (naive_date_parse_outcome(start, ymd_format()), naive_date_parse_outcome(end, ymd_format())) {
            (Ok(s), Ok(e)) => (end_after_start_check(start, end) is Ok <==> !date_before(e, s)),
            _ => end_after_start_check(start, end) is Err,
        },
{
}

/// Each rule an update of a recurrence breaks is reported, and only those: changing the
/// start date; a blank new rule; a new rule whose `UNTIL` differs from a new end date.
pub proof fn each_update_rule_is_reported_exactly_when_broken(r: UpdateTaskRecurrenceRequest)
    ensures
        update_recurrence_messages(r).contains("Modifying start_date is not allowed"@) <==> r.start_date is Some,
        update_recurrence_messages(r).contains("rule cannot be empty"@) <==> (r.rule matches Some(rule) && is_blank(
            rule@,
        )),
        update_recurrence_messages(r).contains(
            "RRULE UNTIL and end_date must be consistent (or omit UNTIL and use end_date only)"@,
        ) <==> (r.rule matches Some(rule) && until_conflicts(rule@, new_end_date(r))),
{
    reveal_strlit("Modifying start_date is not allowed");
    reveal_strlit("rule cannot be empty");
    reveal_strlit("RRULE UNTIL and end_date must be consistent (or omit UNTIL and use end_date only)");
    let l1 = "Modifying start_date is not allowed"@;
    let l2 = "rule cannot be empty"@;
    let l3 = "RRULE UNTIL and end_date must be consistent (or omit UNTIL and use end_date only)"@;
    assert(l1.len() == 35 && l2.len() == 20 && l3.len() == 81);
    let m = update_recurrence_messages(r);
    let m1 = message_if(r.start_date is Some, l1);
    match r.rule {
        Some(rule) => {
            let b2 = is_blank(rule@);
            let b3 = until_conflicts(rule@, new_end_date(r));
            let m2 = message_if(b2, l2);
            let m3 = message_if(b3, l3);
            assert(m == m1 + (m2 + m3));
            assert forall|k: int| 0 <= k < m.len() implies (m[k] == l1 && r.start_date is Some) || (m[k] == l2 && b2) || (m[k]
                == l3 && b3) by {
            }
            if r.start_date is Some {
                assert(m[0] == l1);
            }
            if b2 {
                assert(m[m1.len() as int] == l2);
            }
            if b3 {
                assert(m[(m1.len() + m2.len()) as int] == l3);
            }
        },
        None => {
            assert(m =~= m1);
            if r.start_date is Some {
                assert(m[0] == l1);
            }
        },
    }
}

} // verus!
