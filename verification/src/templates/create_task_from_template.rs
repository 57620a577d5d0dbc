use vstd::prelude::*;

use crate::errors::{result_is, single_field_error, validation_error, AppError, AppErrorView};
use crate::tasks::schedule_day::{parse_scheduled_day, scheduled_day_check};
use crate::text::{is_blank, is_blank_text, replace_all, replace_text};

verus! {

/// Where the new task goes in a view: the view and its neighbours there.
#[derive(Debug)]
pub struct SortPositionInput {
    pub view_context: String,
    pub prev_task_id: Option<u128>,
    pub next_task_id: Option<u128>,
}

/// The body of `POST /api/templates/:id/create-task`: values for the template's
/// `{{name}}` placeholders, in the order they are applied, and optionally a day and a place.
#[derive(Debug)]
pub struct CreateTaskFromTemplateRequest {
    pub variables: Vec<(String, String)>,
    pub scheduled_day: Option<String>,
    pub sort_position: Option<SortPositionInput>,
}

/// `{{key}}`.
pub open spec fn placeholder(key: Seq<char>) -> Seq<char> {
    "{{"@ + key + "}}"@
}

pub open spec fn variables_view(v: Seq<(String, String)>) -> Seq<(Seq<char>, Seq<char>)> {
    v.map_values(|p: (String, String)| (p.0@, p.1@))
}

/// The text with each variable's placeholder replaced by its value, one variable after
/// the other in the given order.
pub open spec fn with_variables(text: Seq<char>, vars: Seq<(Seq<char>, Seq<char>)>) -> Seq<char>
    decreases vars.len(),
{
    if vars.len() == 0 {
        text
    } else {
        let (k, v) = vars.last();
        replace_all(with_variables(text, vars.drop_last()), placeholder(k), v)
    }
}

/// Fills the template text's placeholders with the variables, in order.
pub fn replace_variables(template: &str, variables: &Vec<(String, String)>) -> (r: String)
    ensures
        r@ == with_variables(template@, variables_view(variables@)),
{
    let ghost vv = variables_view(variables@);
    let mut result = template.to_owned();
    let mut i: usize = 0;
    assert(vv.subrange(0, 0) =~= Seq::<(Seq<char>, Seq<char>)>::empty());
    while i < variables.len()
        invariant
            i <= variables@.len(),
            vv == variables_view(variables@),
            result@ == with_variables(template@, vv.subrange(0, i as int)),
        decreases variables@.len() - i,
    {
        let (key, value) = &variables[i];
        let mut pat = "{{".to_owned();
        pat.append(key.as_str());
        pat.append("}}");
        proof {
            reveal_strlit("{{");
            assert(pat@.len() > 0);
            let prefix = vv.subrange(0, i + 1);
            assert(prefix.drop_last() =~= vv.subrange(0, i as int));
            assert(prefix.last() == (key@, value@));
        }
        result = replace_text(result.as_str(), pat.as_str(), value.as_str());
        i = i + 1;
    }
    assert(vv.subrange(0, i as int) =~= vv);
    result
}

/// Without variables a template text is used as it is.
pub proof fn no_variables_leave_text_unchanged(text: Seq<char>)
    ensures
        with_variables(text, seq![]) == text,
{
}

/// A sort position's view must not be blank.
pub open spec fn view_context_check(view_context: Option<Seq<char>>) -> Result<(), AppErrorView> {
    if view_context matches Some(v) && is_blank(v) {
        Err(single_field_error("sort_position.view_context"@, "view_context cannot be empty"@, "VIEW_CONTEXT_REQUIRED"@))
    } else {
        Ok(())
    }
}

/// The first rule the request breaks: an unreadable day, then a blank view of the sort
/// position.
pub open spec fn create_from_template_check(
    scheduled_day: Option<Seq<char>>,
    view_context: Option<Seq<char>>,
) -> Result<(), AppErrorView> {
    match scheduled_day {
        Some(d) => match scheduled_day_check(d) {
            Err(e) => Err(e),
            Ok(_) => view_context_check(view_context),
        },
        None => view_context_check(view_context),
    }
}

pub open spec fn opt_view(o: Option<String>) -> Option<Seq<char>> {
    match o {
        Some(s) => Some(s@),
        None => None,
    }
}

pub open spec fn view_context_of(o: Option<SortPositionInput>) -> Option<Seq<char>> {
    match o {
        Some(p) => Some(p.view_context@),
        None => None,
    }
}

/// Checks the request.
pub fn validate_request(request: &CreateTaskFromTemplateRequest) -> (r: Result<(), AppError>)
    ensures
        match create_from_template_check(opt_view(request.scheduled_day), view_context_of(request.sort_position)) {
            Ok(()) => r is Ok,
            Err(e) => r matches Err(x) && x@ == e,
        },
{
    if let Some(day) = &request.scheduled_day {
        match parse_scheduled_day(day.as_str()) {
            Ok(_) => {},
            Err(e) => {
                return Err(e);
            },
        }
    }
    if let Some(pos) = &request.sort_position {
        if is_blank_text(pos.view_context.as_str()) {
            return Err(
                validation_error("sort_position.view_context", "view_context cannot be empty", "VIEW_CONTEXT_REQUIRED"),
            );
        }
    }
    Ok(())
}

/// Reads the day to schedule the new task on (`YYYY-MM-DD`), written back in chrono's form.
pub fn parse_date(date_str: &str) -> (r: Result<String, AppError>)
    ensures
        result_is(r, scheduled_day_check(date_str@)),
{
    parse_scheduled_day(date_str)
}

/// The event the creation emits: with a schedule, `task.created_with_schedule`.
pub fn created_event_type(scheduled: bool) -> (r: &'static str)
    ensures
        scheduled ==> r@ == "task.created_with_schedule"@,
        !scheduled ==> r@ == "task.created"@,
{
    if scheduled {
        "task.created_with_schedule"
    } else {
        "task.created"
    }
}

} // verus!
