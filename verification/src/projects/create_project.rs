use vstd::prelude::*;

use crate::dates::{date_before, date_is_before, utc_today, CalendarDate};
use crate::errors::{result_is, single_field_error, validation_error, AppError, AppErrorView};
use crate::text::{is_blank, trim, trimmed};

verus! {

/// The body of `POST /api/projects`, as far as it is checked.
#[derive(Debug)]
pub struct CreateProjectRequest {
    pub name: String,
    pub description: Option<String>,
    pub due_date: Option<CalendarDate>,
}

/// Longest project name, in characters after trimming.
pub const MAX_NAME_CHARS: usize = 200;

/// Longest description, in characters.
pub const MAX_DESCRIPTION_CHARS: usize = 2000;

/// The first rule a new project breaks, given today's (UTC) date: a blank name, a name over
/// 200 characters, a description over 2000 characters, a due date before today.
pub open spec fn create_project_check(
    name: Seq<char>,
    description: Option<Seq<char>>,
    due_date: Option<(int, int, int)>,
    today: (int, int, int),
) -> Result<(), AppErrorView> {
    if is_blank(name) {
        Err(single_field_error("name"@, "名称不能为空"@, "NAME_EMPTY"@))
    } else if trimmed(name).len() > MAX_NAME_CHARS {
        Err(single_field_error("name"@, "名称长度不能超过200字符"@, "NAME_TOO_LONG"@))
    } else if description matches Some(d) && d.len() > MAX_DESCRIPTION_CHARS {
        Err(single_field_error("description"@, "描述长度不能超过2000字符"@, "DESCRIPTION_TOO_LONG"@))
    } else if due_date matches Some(d) && date_before(d, today) {
        Err(single_field_error("due_date"@, "截止日期不能早于今天"@, "DUE_DATE_IN_PAST"@))
    } else {
        Ok(())
    }
}

pub open spec fn opt_view(o: Option<String>) -> Option<Seq<char>> {
    match o {
        Some(s) => Some(s@),
        None => None,
    }
}

pub open spec fn opt_day(o: Option<CalendarDate>) -> Option<(int, int, int)> {
    match o {
        Some(d) => Some(d.ymd()),
        None => None,
    }
}

/// Checks a new project against the rules of `create_project_check` for the given day.
pub fn validate_create_request_on(request: &CreateProjectRequest, today: &CalendarDate) -> (r: Result<(), AppError>)
    ensures
        result_is(r, create_project_check(request.name@, opt_view(request.description), opt_day(request.due_date), today.ymd())),
{
    let name = trim(request.name.as_str());
    if name.unicode_len() == 0 {
        return Err(validation_error("name", "名称不能为空", "NAME_EMPTY"));
    }
    if name.unicode_len() > MAX_NAME_CHARS {
        return Err(validation_error("name", "名称长度不能超过200字符", "NAME_TOO_LONG"));
    }
    if let Some(desc) = &request.description {
        if desc.as_str().unicode_len() > MAX_DESCRIPTION_CHARS {
            return Err(validation_error("description", "描述长度不能超过2000字符", "DESCRIPTION_TOO_LONG"));
        }
    }
    if let Some(due) = &request.due_date {
        if date_is_before(due, today) {
            return Err(validation_error("due_date", "截止日期不能早于今天", "DUE_DATE_IN_PAST"));
        }
    }
    Ok(())
}

/// Checks a new project, with today taken from the UTC clock.
pub fn validate_create_request(request: &CreateProjectRequest) -> (r: Result<(), AppError>)
    ensures
        exists|today: (int, int, int)| result_is(r, #[trigger] create_project_check(request.name@, opt_view(request.description), opt_day(request.due_date), today)),
{
    let today = utc_today();
    validate_create_request_on(request, &today)
}

/// A new project is accepted exactly when its trimmed name has between 1 and 200
/// characters, its description at most 2000 characters (whatever their byte length), and its
/// due date, if any, is not before today.
pub proof fn project_limits_count_characters(
    name: Seq<char>,
    description: Option<Seq<char>>,
    due_date: Option<(int, int, int)>,
    today: (int, int, int),
)
    ensures
        create_project_check(name, description, due_date, today) is Ok <==> {
            &&& !is_blank(name)
            &&& trimmed(name).len() <= 200
            &&& (description matches Some(d) ==> d.len() <= 2000)
            &&& (due_date matches Some(d) ==> !date_before(d, today))
        },
{
}

} // verus!
