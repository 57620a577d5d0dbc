use vstd::prelude::*;

verus! {

/// The query of `GET /api/recurrences`: the recurrences of one template, or all active ones.
#[derive(Debug)]
pub struct ListRecurrencesQuery {
    pub template_id: Option<u128>,
}

} // verus!
