use vstd::prelude::*;

verus! {

/// What `DELETE /api/shutdown-ritual/steps/:id` answers: the id of the deleted step.
#[derive(Debug)]
pub struct DeleteShutdownRitualStepResponse {
    pub id: u128,
}

} // verus!
