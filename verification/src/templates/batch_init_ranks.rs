use vstd::prelude::*;

use crate::errors::AppError;
use crate::ranks::{chain_ranks, ranks_for};

verus! {

/// The body of `POST /api/templates/ranks/batch-init`: templates in the order to rank them.
#[derive(Debug)]
pub struct BatchInitTemplateRanksRequest {
    pub template_ids: Vec<u128>,
}

/// The rank given to one template.
#[derive(Debug)]
pub struct TemplateRankAssignment {
    pub template_id: u128,
    pub new_rank: String,
}

/// The ranks given, and when.
#[derive(Debug)]
pub struct BatchInitTemplateRanksResponse {
    pub assigned: Vec<TemplateRankAssignment>,
    pub updated_at: String,
}

/// Every request is accepted; an empty list ranks nothing.
pub fn validate(request: &BatchInitTemplateRanksRequest) -> (r: Result<(), AppError>)
    ensures
        r is Ok,
{
    Ok(())
}

pub open spec fn template_ranks(v: Seq<TemplateRankAssignment>) -> Seq<String> {
    v.map_values(|a: TemplateRankAssignment| a.new_rank)
}

/// Ranks for the templates, in their order: after one another when no template has a rank
/// yet, or in front of the first rank (see `chain_ranks`).
pub fn generate_assignments<F: Fn(Option<String>, Option<String>) -> Result<String, AppError>>(
    existing_first: Option<String>,
    template_ids: &Vec<u128>,
    between: &F,
) -> (r: Result<Vec<TemplateRankAssignment>, AppError>)
    requires
        forall|a: Option<String>, b: Option<String>| call_requires(*between, (a, b)),
    ensures
        match r {
            Ok(v) => v@.len() == template_ids@.len() && (forall|i: int|
                0 <= i < v@.len() ==> (#[trigger] v@[i]).template_id == template_ids@[i]) && ranks_for(
                *between,
                existing_first,
                template_ids@.len(),
                Ok::<Seq<String>, AppError>(template_ranks(v@)),
            ),
            Err(e) => ranks_for(*between, existing_first, template_ids@.len(), Err::<Seq<String>, AppError>(e)),
        },
{
    let ranks = match chain_ranks(&existing_first, template_ids.len(), between) {
        Ok(v) => v,
        Err(e) => {
            return Err(e);
        },
    };
    let mut out: Vec<TemplateRankAssignment> = Vec::new();
    let mut i: usize = 0;
    while i < ranks.len()
        invariant
            i <= ranks@.len(),
            ranks@.len() == template_ids@.len(),
            out@.len() == i,
            forall|k: int|
                0 <= k < i ==> (#[trigger] out@[k]).template_id == template_ids@[k] && out@[k].new_rank == ranks@[k],
        decreases ranks@.len() - i,
    {
        out.push(TemplateRankAssignment { template_id: template_ids[i], new_rank: ranks[i].clone() });
        i = i + 1;
    }
    proof {
        assert(template_ranks(out@) =~= ranks@);
    }
    Ok(out)
}

/// The assignments as (template, rank) pairs, in order.
pub fn assignments_as_tuple(assignments: &Vec<TemplateRankAssignment>) -> (r: Vec<(u128, String)>)
    ensures
        r@.len() == assignments@.len(),
        forall|i: int|
            0 <= i < r@.len() ==> (#[trigger] r@[i]).0 == assignments@[i].template_id && r@[i].1
                == assignments@[i].new_rank,
{
    let mut out: Vec<(u128, String)> = Vec::new();
    let mut i: usize = 0;
    while i < assignments.len()
        invariant
            i <= assignments@.len(),
            out@.len() == i,
            forall|k: int|
                0 <= k < i ==> (#[trigger] out@[k]).0 == assignments@[k].template_id && out@[k].1
                    == assignments@[k].new_rank,
        decreases assignments@.len() - i,
    {
        out.push((assignments[i].template_id, assignments[i].new_rank.clone()));
        i = i + 1;
    }
    out
}

} // verus!
