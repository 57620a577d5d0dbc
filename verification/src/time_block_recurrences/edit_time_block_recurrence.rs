use vstd::prelude::*;

use crate::dates::{
    calendar_date_exists, local_datetime_to_instant, naive_date_parsed, naive_datetime_parsed, parse_naive_date,
    parse_naive_datetime, ymd_format, ymd_format_text, Instant,
};
use crate::entities::TimeType;
use crate::errors::{result_is, single_field_error, validation_error, AppError, AppErrorView, FieldError, FieldErrorView};
use crate::text::{is_blank, is_blank_text};
use crate::validation::{check_result, error_if, errors_result, field_errors_view, push_error, result_of_errors};

verus! {

/// The body of `PATCH /api/time-block-recurrences/:id/edit`: changes to the template and
/// the rule, the client's local time (`YYYY-MM-DDTHH:mm`) from which instances are
/// replaced, and whether the future instances are deleted (by default they are).
#[derive(Debug)]
pub struct EditTimeBlockRecurrenceRequest {
    pub local_now: String,
    pub delete_future_instances: Option<bool>,
    pub title: Option<Option<String>>,
    pub glance_note_template: Option<Option<String>>,
    pub detail_note_template: Option<Option<String>>,
    pub duration_minutes: Option<i32>,
    pub time_type: Option<TimeType>,
    pub is_all_day: Option<bool>,
    pub area_id: Option<Option<u128>>,
    pub rule: Option<String>,
    pub end_date: Option<Option<String>>,
    pub timezone: Option<Option<String>>,
    pub skip_conflicts: Option<bool>,
}

/// The changes to a time block template; a field left out is not changed.
#[derive(Debug)]
pub struct UpdateTimeBlockTemplateRequest {
    pub title: Option<Option<String>>,
    pub glance_note_template: Option<Option<String>>,
    pub detail_note_template: Option<Option<String>>,
    pub duration_minutes: Option<i32>,
    pub start_time_local: Option<String>,
    pub time_type: Option<TimeType>,
    pub is_all_day: Option<bool>,
    pub area_id: Option<Option<u128>>,
}

/// The changes to a time block recurrence; a field left out is not changed.
#[derive(Debug)]
pub struct UpdateTimeBlockRecurrenceRequest {
    pub template_id: Option<u128>,
    pub rule: Option<String>,
    pub time_type: Option<TimeType>,
    pub start_date: Option<Option<String>>,
    pub end_date: Option<Option<String>>,
    pub timezone: Option<Option<String>>,
    pub skip_conflicts: Option<bool>,
    pub is_active: Option<bool>,
}

pub open spec fn bad_end_date(end_date: Option<Option<String>>) -> bool {
    end_date matches Some(Some(e)) && naive_date_parsed(e@, ymd_format()) is None
}

/// Every rule an edit breaks, in order: a blank `local_now`, an unreadable new end day, a
/// blank new rule.
pub open spec fn edit_errors(r: EditTimeBlockRecurrenceRequest) -> Seq<FieldErrorView> {
    error_if(is_blank(r.local_now@), "local_now"@, "local_now is required"@, "LOCAL_NOW_REQUIRED"@) + error_if(
        bad_end_date(r.end_date),
        "end_date"@,
        "end_date must be in YYYY-MM-DD format"@,
        "INVALID_DATE"@,
    ) + error_if(r.rule matches Some(rule) && is_blank(rule@), "rule"@, "rule cannot be empty"@, "RULE_EMPTY"@)
}

/// Checks an edit, reporting every broken rule at once.
pub fn validate_request(request: &EditTimeBlockRecurrenceRequest) -> (r: Result<(), AppError>)
    ensures
        check_result(r, errors_result(edit_errors(*request))),
{
    let mut errors: Vec<FieldError> = Vec::new();
    let ghost d1 = error_if(is_blank(request.local_now@), "local_now"@, "local_now is required"@, "LOCAL_NOW_REQUIRED"@);
    let ghost d2 = error_if(bad_end_date(request.end_date), "end_date"@, "end_date must be in YYYY-MM-DD format"@, "INVALID_DATE"@);
    assert(field_errors_view(errors@) =~= Seq::<FieldErrorView>::empty());
    if is_blank_text(request.local_now.as_str()) {
        push_error(&mut errors, "local_now", "local_now is required", "LOCAL_NOW_REQUIRED");
    }
    assert(field_errors_view(errors@) =~= d1);
    if let Some(Some(e)) = &request.end_date {
        if parse_naive_date(e.as_str(), ymd_format_text()).is_none() {
            push_error(&mut errors, "end_date", "end_date must be in YYYY-MM-DD format", "INVALID_DATE");
        }
    }
    assert(field_errors_view(errors@) =~= d1 + d2);
    if let Some(rule) = &request.rule {
        if is_blank_text(rule.as_str()) {
            push_error(&mut errors, "rule", "rule cannot be empty", "RULE_EMPTY");
        }
    }
    assert(field_errors_view(errors@) =~= edit_errors(*request));
    result_of_errors(errors)
}

/// The format of `local_now`: `%Y-%m-%dT%H:%M`.
pub open spec fn local_minute_format() -> Seq<char> {
    "%Y-%m-%dT%H:%M"@
}

/// Reads `local_now` and turns it into an instant in the machine's time zone. An
/// unreadable text is `INVALID_LOCAL_NOW` with the format in the message; which instant a
/// readable one is, and whether it exists at all there, depends on the time zone: a skipped
/// or repeated wall-clock time is `INVALID_LOCAL_NOW` "Invalid local time".
pub fn parse_local_now(local_now: &str) -> (r: Result<Instant, AppError>)
    ensures
        naive_datetime_parsed(local_now@, local_minute_format()) is None ==> (r matches Err(e) && e@ == single_field_error(
            "local_now"@,
            "local_now must be in YYYY-MM-DDTHH:mm format"@,
            "INVALID_LOCAL_NOW"@,
        )),
        naive_datetime_parsed(local_now@, local_minute_format()) is Some ==> (r is Ok || (r matches Err(e) && e@
            == single_field_error("local_now"@, "Invalid local time"@, "INVALID_LOCAL_NOW"@))),
{
    let naive = match parse_naive_datetime(local_now, "%Y-%m-%dT%H:%M") {
        Some(t) => t,
        None => {
            return Err(validation_error("local_now", "local_now must be in YYYY-MM-DDTHH:mm format", "INVALID_LOCAL_NOW"));
        },
    };
    match local_datetime_to_instant(&naive) {
        Some(t) => Ok(t),
        None => Err(validation_error("local_now", "Invalid local time", "INVALID_LOCAL_NOW")),
    }
}

/// Future instances are deleted unless the request says not to.
pub fn deletes_future_instances(request: &EditTimeBlockRecurrenceRequest) -> (r: bool)
    ensures
        r == match request.delete_future_instances {
            Some(b) => b,
            None => true,
        },
{
    match request.delete_future_instances {
        Some(b) => b,
        None => true,
    }
}

fn copy_nullable_text(o: &Option<Option<String>>) -> (r: Option<Option<String>>)
    ensures
        nullable_view(r) == nullable_view(*o),
{
    match o {
        Some(Some(s)) => Some(Some(s.clone())),
        Some(None) => Some(None),
        None => None,
    }
}

pub open spec fn nullable_view(o: Option<Option<String>>) -> Option<Option<Seq<char>>> {
    match o {
        Some(Some(s)) => Some(Some(s@)),
        Some(None) => Some(None),
        None => None,
    }
}

pub open spec fn opt_view(o: Option<String>) -> Option<Seq<char>> {
    match o {
        Some(s) => Some(s@),
        None => None,
    }
}

/// The template changes of an edit: its template fields as given; the start time is never
/// changed.
pub fn build_template_update(request: &EditTimeBlockRecurrenceRequest) -> (r: UpdateTimeBlockTemplateRequest)
    ensures
        nullable_view(r.title) == nullable_view(request.title),
        nullable_view(r.glance_note_template) == nullable_view(request.glance_note_template),
        nullable_view(r.detail_note_template) == nullable_view(request.detail_note_template),
        r.duration_minutes == request.duration_minutes,
        r.start_time_local is None,
        r.time_type == request.time_type,
        r.is_all_day == request.is_all_day,
        r.area_id == request.area_id,
{
    UpdateTimeBlockTemplateRequest {
        title: copy_nullable_text(&request.title),
        glance_note_template: copy_nullable_text(&request.glance_note_template),
        detail_note_template: copy_nullable_text(&request.detail_note_template),
        duration_minutes: request.duration_minutes,
        start_time_local: None,
        time_type: request.time_type,
        is_all_day: request.is_all_day,
        area_id: request.area_id,
    }
}

/// The rule changes of an edit: rule, time type, end day, time zone and conflict handling
/// as given; the template, the start day and the active flag are never changed.
pub fn build_recurrence_update(request: &EditTimeBlockRecurrenceRequest) -> (r: UpdateTimeBlockRecurrenceRequest)
    ensures
        r.template_id is None,
        opt_view(r.rule) == opt_view(request.rule),
        r.time_type == request.time_type,
        r.start_date is None,
        nullable_view(r.end_date) == nullable_view(request.end_date),
        nullable_view(r.timezone) == nullable_view(request.timezone),
        r.skip_conflicts == request.skip_conflicts,
        r.is_active is None,
{
    let rule = match &request.rule {
        Some(s) => Some(s.clone()),
        None => None,
    };
    UpdateTimeBlockRecurrenceRequest {
        template_id: None,
        rule,
        time_type: request.time_type,
        start_date: None,
        end_date: copy_nullable_text(&request.end_date),
        timezone: copy_nullable_text(&request.timezone),
        skip_conflicts: request.skip_conflicts,
        is_active: None,
    }
}

pub open spec fn template_update_set(u: UpdateTimeBlockTemplateRequest) -> bool {
    u.title is Some || u.glance_note_template is Some || u.detail_note_template is Some
        || u.duration_minutes is Some || u.time_type is Some || u.is_all_day is Some || u.area_id is Some
}

/// The template is written when any of its editable fields is set.
pub fn has_template_updates(update: &UpdateTimeBlockTemplateRequest) -> (r: bool)
    ensures
        r == template_update_set(*update),
{
    update.title.is_some() || update.glance_note_template.is_some() || update.detail_note_template.is_some()
        || update.duration_minutes.is_some() || update.time_type.is_some() || update.is_all_day.is_some()
        || update.area_id.is_some()
}

pub open spec fn recurrence_update_set(u: UpdateTimeBlockRecurrenceRequest) -> bool {
    u.rule is Some || u.time_type is Some || u.end_date is Some || u.timezone is Some || u.skip_conflicts is Some
}

/// The rule is written when any of its editable fields is set.
pub fn has_recurrence_updates(update: &UpdateTimeBlockRecurrenceRequest) -> (r: bool)
    ensures
        r == recurrence_update_set(*update),
{
    update.rule.is_some() || update.time_type.is_some() || update.end_date.is_some() || update.timezone.is_some()
        || update.skip_conflicts.is_some()
}

/// An edit writes the template exactly when it sets one of the template's fields.
pub open spec fn edit_sets_template(r: EditTimeBlockRecurrenceRequest) -> bool {
    r.title is Some || r.glance_note_template is Some || r.detail_note_template is Some
        || r.duration_minutes is Some || r.time_type is Some || r.is_all_day is Some || r.area_id is Some
}

/// An edit writes the rule exactly when it sets one of the rule's fields.
pub open spec fn edit_sets_recurrence(r: EditTimeBlockRecurrenceRequest) -> bool {
    r.rule is Some || r.time_type is Some || r.end_date is Some || r.timezone is Some || r.skip_conflicts is Some
}

/// The template is written when the edit sets a template field, and only then; the same
/// holds of the rule and its fields.
pub proof fn edit_writes_what_it_sets(
    request: EditTimeBlockRecurrenceRequest,
    t: UpdateTimeBlockTemplateRequest,
    u: UpdateTimeBlockRecurrenceRequest,
)
    requires
        nullable_view(t.title) == nullable_view(request.title),
        nullable_view(t.glance_note_template) == nullable_view(request.glance_note_template),
        nullable_view(t.detail_note_template) == nullable_view(request.detail_note_template),
        t.duration_minutes == request.duration_minutes,
        t.time_type == request.time_type,
        t.is_all_day == request.is_all_day,
        t.area_id == request.area_id,
        opt_view(u.rule) == opt_view(request.rule),
        u.time_type == request.time_type,
        nullable_view(u.end_date) == nullable_view(request.end_date),
        nullable_view(u.timezone) == nullable_view(request.timezone),
        u.skip_conflicts == request.skip_conflicts,
    ensures
        template_update_set(t) == edit_sets_template(request),
        recurrence_update_set(u) == edit_sets_recurrence(request),
{
}

} // verus!
