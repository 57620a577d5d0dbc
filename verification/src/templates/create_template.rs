use vstd::prelude::*;

use crate::entities::{Subtask, TemplateCategory};
use crate::errors::{AppError, AppErrorView, FieldError, FieldErrorView};
use crate::validation::{
    check_result, error_if, errors_result, field_errors_view, push_error, push_title_errors, result_of_errors,
    title_errors,
};

verus! {

/// The body of `POST /api/templates`.
#[derive(Debug)]
pub struct CreateTemplateRequest {
    pub title: String,
    pub glance_note_template: Option<String>,
    pub detail_note_template: Option<String>,
    /// Minutes.
    pub estimated_duration_template: Option<i32>,
    pub subtasks_template: Option<Vec<Subtask>>,
    pub area_id: Option<u128>,
    pub category: Option<TemplateCategory>,
}

/// An estimate that is not positive.
pub open spec fn duration_errors(duration: Option<i32>) -> Seq<FieldErrorView> {
    error_if(
        duration matches Some(d) && d <= 0,
        "estimated_duration_template"@,
        "estimated_duration_template must be positive"@,
        "DURATION_INVALID"@,
    )
}

/// Every rule a new template breaks, in order: the title's, then the estimate's.
pub open spec fn create_template_errors(title: Seq<char>, duration: Option<i32>) -> Seq<FieldErrorView> {
    title_errors(title) + duration_errors(duration)
}

/// Adds the error of `duration_errors` to the list.
pub fn push_duration_errors(errors: &mut Vec<FieldError>, duration: Option<i32>)
    ensures
        field_errors_view(final(errors)@) == field_errors_view(old(errors)@) + duration_errors(duration),
{
    let ghost start = field_errors_view(errors@);
    let mut bad = false;
    if let Some(d) = duration {
        bad = d <= 0;
    }
    if bad {
        push_error(
            errors,
            "estimated_duration_template",
            "estimated_duration_template must be positive",
            "DURATION_INVALID",
        );
    }
    assert(field_errors_view(errors@) =~= start + duration_errors(duration));
}

/// Checks a new template, reporting every broken rule at once.
pub fn validate_request(request: &CreateTemplateRequest) -> (r: Result<(), AppError>)
    ensures
        check_result(r, errors_result(create_template_errors(request.title@, request.estimated_duration_template))),
{
    let mut errors: Vec<FieldError> = Vec::new();
    assert(field_errors_view(errors@) =~= Seq::<FieldErrorView>::empty());
    push_title_errors(&mut errors, request.title.as_str());
    push_duration_errors(&mut errors, request.estimated_duration_template);
    assert(field_errors_view(errors@) =~= create_template_errors(request.title@, request.estimated_duration_template));
    result_of_errors(errors)
}

/// The category a new template gets: the requested one, `General` by default.
pub fn category_or_default(category: Option<TemplateCategory>) -> (r: TemplateCategory)
    ensures
        r == match category {
            Some(c) => c,
            None => TemplateCategory::General,
        },
{
    match category {
        Some(c) => c,
        None => TemplateCategory::General,
    }
}

} // verus!
