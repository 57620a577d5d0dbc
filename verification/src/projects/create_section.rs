use vstd::prelude::*;

use crate::errors::{result_is, single_field_error, validation_error, AppError, AppErrorView};
use crate::projects::create_project::{opt_view, MAX_DESCRIPTION_CHARS};
use crate::text::{is_blank, trim, trimmed};

verus! {

/// The body of `POST /api/projects/:id/sections`, as far as it is checked.
#[derive(Debug)]
pub struct CreateProjectSectionRequest {
    pub title: String,
    pub description: Option<String>,
    pub sort_order: Option<String>,
}

/// Longest section title, in characters after trimming.
pub const MAX_SECTION_TITLE_CHARS: usize = 200;

/// The first rule a section title breaks: blank, or over 200 characters once trimmed.
pub open spec fn section_title_check(title: Seq<char>) -> Result<(), AppErrorView> {
    if is_blank(title) {
        Err(single_field_error("title"@, "标题不能为空"@, "TITLE_EMPTY"@))
    } else if trimmed(title).len() > MAX_SECTION_TITLE_CHARS {
        Err(single_field_error("title"@, "标题长度不能超过200字符"@, "TITLE_TOO_LONG"@))
    } else {
        Ok(())
    }
}

/// A section description is at most 2000 characters.
pub open spec fn section_description_check(description: Option<Seq<char>>) -> Result<(), AppErrorView> {
    if description matches Some(d) && d.len() > MAX_DESCRIPTION_CHARS {
        Err(single_field_error("description"@, "描述长度不能超过2000字符"@, "DESCRIPTION_TOO_LONG"@))
    } else {
        Ok(())
    }
}

/// The first rule a new section breaks: its title, then its description.
pub open spec fn create_section_check(title: Seq<char>, description: Option<Seq<char>>) -> Result<(), AppErrorView> {
    match section_title_check(title) {
        Err(e) => Err(e),
        Ok(()) => section_description_check(description),
    }
}

/// Checks a section title.
pub fn validate_section_title(title: &str) -> (r: Result<(), AppError>)
    ensures
        result_is(r, section_title_check(title@)),
{
    let t = trim(title);
    if t.unicode_len() == 0 {
        return Err(validation_error("title", "标题不能为空", "TITLE_EMPTY"));
    }
    if t.unicode_len() > MAX_SECTION_TITLE_CHARS {
        return Err(validation_error("title", "标题长度不能超过200字符", "TITLE_TOO_LONG"));
    }
    Ok(())
}

/// Checks a section description.
pub fn validate_section_description(description: &Option<String>) -> (r: Result<(), AppError>)
    ensures
        result_is(r, section_description_check(opt_view(*description))),
{
    if let Some(d) = description {
        if d.as_str().unicode_len() > MAX_DESCRIPTION_CHARS {
            return Err(validation_error("description", "描述长度不能超过2000字符", "DESCRIPTION_TOO_LONG"));
        }
    }
    Ok(())
}

/// Checks a new section.
pub fn validate_create_request(request: &CreateProjectSectionRequest) -> (r: Result<(), AppError>)
    ensures
        result_is(r, create_section_check(request.title@, opt_view(request.description))),
{
    validate_section_title(request.title.as_str())?;
    validate_section_description(&request.description)
}

/// A section title is accepted exactly when, once trimmed, it has between 1 and 200
/// characters (whatever their byte length); a description of at most 2000 characters is
/// accepted, a longer one refused.
pub proof fn section_limits_count_characters(title: Seq<char>, description: Option<Seq<char>>)
    ensures
        section_title_check(title) is Ok <==> (!is_blank(title) && trimmed(title).len() <= 200),
        section_description_check(description) is Ok <==> (description matches Some(d) ==> d.len() <= 2000),
        create_section_check(title, description) is Ok <==> (section_title_check(title) is Ok
            && section_description_check(description) is Ok),
{
}

} // verus!
