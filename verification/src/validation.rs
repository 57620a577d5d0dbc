use vstd::prelude::*;

use crate::errors::{field_error, AppError, AppErrorView, FieldError, FieldErrorView};
use crate::text::{chars_utf8_len, is_blank, is_blank_text, utf8_len_exceeds};

verus! {

/// Longest title of a ritual step or a template, in UTF-8 bytes before trimming.
pub const MAX_TITLE_BYTES: usize = 255;

pub open spec fn error_if(cond: bool, field: Seq<char>, message: Seq<char>, code: Seq<char>) -> Seq<FieldErrorView> {
    if cond { seq![FieldErrorView { field, message, code }] } else { seq![] }
}

/// Every rule a title breaks, in order: blank after trimming; over 255 bytes.
pub open spec fn title_errors(title: Seq<char>) -> Seq<FieldErrorView> {
    error_if(is_blank(title), "title"@, "title cannot be empty"@, "TITLE_EMPTY"@) + error_if(
        chars_utf8_len(title) > MAX_TITLE_BYTES,
        "title"@,
        "title too long (max 255 characters)"@,
        "TITLE_TOO_LONG"@,
    )
}

/// No error is `Ok`; otherwise one `ValidationFailed` carrying all of them.
pub open spec fn errors_result(errors: Seq<FieldErrorView>) -> Result<(), AppErrorView> {
    if errors.len() == 0 {
        Ok(())
    } else {
        Err(AppErrorView::ValidationFailed(errors))
    }
}

pub open spec fn field_errors_view(v: Seq<FieldError>) -> Seq<FieldErrorView> {
    v.map_values(|e: FieldError| e@)
}

/// `r` is the result that `expected` describes.
pub open spec fn check_result(r: Result<(), AppError>, expected: Result<(), AppErrorView>) -> bool {
    match expected {
        Ok(()) => r is Ok,
        Err(e) => r matches Err(x) && x@ == e,
    }
}

/// Turns a list of broken rules into the result.
pub fn result_of_errors(errors: Vec<FieldError>) -> (r: Result<(), AppError>)
    ensures
        check_result(r, errors_result(field_errors_view(errors@))),
{
    if errors.len() == 0 {
        Ok(())
    } else {
        Err(AppError::ValidationFailed(errors))
    }
}

/// Adds one error to the list.
pub fn push_error(errors: &mut Vec<FieldError>, field: &str, message: &str, code: &str)
    ensures
        field_errors_view(final(errors)@) == field_errors_view(old(errors)@) + seq![
            FieldErrorView { field: field@, message: message@, code: code@ },
        ],
{
    let ghost before = errors@;
    errors.push(field_error(field, message, code));
    assert(field_errors_view(errors@) =~= field_errors_view(before) + seq![
        FieldErrorView { field: field@, message: message@, code: code@ },
    ]);
}

/// Adds the errors of `title_errors` to the list.
pub fn push_title_errors(errors: &mut Vec<FieldError>, title: &str)
    ensures
        field_errors_view(final(errors)@) == field_errors_view(old(errors)@) + title_errors(title@),
{
    let ghost start = field_errors_view(errors@);
    if is_blank_text(title) {
        push_error(errors, "title", "title cannot be empty", "TITLE_EMPTY");
    }
    let ghost e1 = error_if(is_blank(title@), "title"@, "title cannot be empty"@, "TITLE_EMPTY"@);
    assert(field_errors_view(errors@) =~= start + e1);
    if utf8_len_exceeds(title, MAX_TITLE_BYTES) {
        push_error(errors, "title", "title too long (max 255 characters)", "TITLE_TOO_LONG");
    }
    assert(field_errors_view(errors@) =~= start + title_errors(title@));
}

/// Checks a title, reporting every broken rule.
pub fn validate_title(title: &str) -> (r: Result<(), AppError>)
    ensures
        check_result(r, errors_result(title_errors(title@))),
{
    let mut errors: Vec<FieldError> = Vec::new();
    assert(field_errors_view(errors@) =~= Seq::<FieldErrorView>::empty());
    push_title_errors(&mut errors, title);
    assert(field_errors_view(errors@) =~= title_errors(title@));
    result_of_errors(errors)
}

} // verus!
