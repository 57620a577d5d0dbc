use vstd::prelude::*;

use crate::errors::{single_field_error, validation_error, AppError, AppErrorView};

verus! {

/// The body of `PATCH /api/templates/:id/sort-rank`: the templates the moved one lands
/// between.
#[derive(Debug)]
pub struct UpdateTemplateSortRequest {
    pub prev_template_id: Option<u128>,
    pub next_template_id: Option<u128>,
}

/// The moved template and its new rank.
#[derive(Debug)]
pub struct UpdateTemplateSortResponse {
    pub template_id: u128,
    pub new_rank: String,
}

/// The two neighbours of a moved template cannot be the same template.
pub open spec fn template_neighbors_check(prev: Option<u128>, next: Option<u128>) -> Result<(), AppErrorView> {
    if prev is Some && prev == next {
        Err(single_field_error("prev_template_id"@, "prev_template_id and next_template_id cannot be the same"@, "INVALID_NEIGHBORS"@))
    } else {
        Ok(())
    }
}

/// Checks the neighbours named in a reorder request.
pub fn check_neighbors(request: &UpdateTemplateSortRequest) -> (r: Result<(), AppError>)
    ensures
        match template_neighbors_check(request.prev_template_id, request.next_template_id) {
            Ok(()) => r is Ok,
            Err(e) => r matches Err(x) && x@ == e,
        },
{
    match (request.prev_template_id, request.next_template_id) {
        (Some(p), Some(n)) => {
            if p == n {
                return Err(validation_error("prev_template_id", "prev_template_id and next_template_id cannot be the same", "INVALID_NEIGHBORS"));
            }
            Ok(())
        },
        _ => Ok(()),
    }
}

/// The body of `POST /api/templates/ranks/batch-init`: templates in the order to rank them.
#[derive(Debug)]
pub struct BatchInitTemplateRanksRequest {
    pub template_ids: Vec<u128>,
}

} // verus!
