use vstd::prelude::*;

use crate::errors::AppError;
use crate::validation::{check_result, errors_result, title_errors, validate_title};

verus! {

/// The body of `POST /api/shutdown-ritual/steps`.
#[derive(Debug)]
pub struct CreateShutdownRitualStepRequest {
    pub title: String,
}

/// The created step, as answered and as carried by the `shutdown_ritual.step.created` event.
#[derive(Debug)]
pub struct CreateShutdownRitualStepResponse<Step> {
    pub step: Step,
}

/// Checks a new step.
pub fn validate_request(request: &CreateShutdownRitualStepRequest) -> (r: Result<(), AppError>)
    ensures
        check_result(r, errors_result(title_errors(request.title@))),
{
    validate_title(request.title.as_str())
}

} // verus!
