use vstd::prelude::*;

use crate::errors::AppError;
use crate::validation::{check_result, errors_result, title_errors, validate_title};

verus! {

/// The body of `PATCH /api/shutdown-ritual/steps/:id`.
#[derive(Debug)]
pub struct UpdateShutdownRitualStepRequest {
    pub title: String,
}

/// The updated step, as answered and as carried by the `shutdown_ritual.step.updated` event.
#[derive(Debug)]
pub struct UpdateShutdownRitualStepResponse<Step> {
    pub step: Step,
}

/// Checks a step update; the same rules as for a new step.
pub fn validate_request(request: &UpdateShutdownRitualStepRequest) -> (r: Result<(), AppError>)
    ensures
        check_result(r, errors_result(title_errors(request.title@))),
{
    validate_title(request.title.as_str())
}

} // verus!
