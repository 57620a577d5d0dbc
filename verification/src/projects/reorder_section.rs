use vstd::prelude::*;

use crate::errors::{not_found, single_field_error, validation_error, AppError, AppErrorView};
use crate::ids::{uuid_text, uuid_to_string};

verus! {

/// Which neighbour of a reordered section is looked up.
#[derive(Clone, Copy, Debug, PartialEq, Eq, Structural)]
pub enum Neighbor {
    Prev,
    Next,
}

/// The check on a neighbour of a reordered section: it must exist (else `NotFound` as
/// `ProjectSection (prev)` or `(next)`) and be in the same project (else a validation
/// error on `prev_section_id` or `next_section_id`).
pub open spec fn neighbor_check(which: Neighbor, found_in_project: Option<u128>, project_id: u128, neighbor_id: u128) -> Result<(), AppErrorView> {
    match found_in_project {
        None => Err(AppErrorView::NotFound {
            entity_type: match which {
                Neighbor::Prev => "ProjectSection (prev)"@,
                Neighbor::Next => "ProjectSection (next)"@,
            },
            entity_id: uuid_text(neighbor_id),
        }),
        Some(p) => if p == project_id {
            Ok(())
        } else {
            match which {
                Neighbor::Prev => Err(single_field_error("prev_section_id"@, "前一个章节不属于同一项目"@, "PREV_SECTION_NOT_IN_PROJECT"@)),
                Neighbor::Next => Err(single_field_error("next_section_id"@, "后一个章节不属于同一项目"@, "NEXT_SECTION_NOT_IN_PROJECT"@)),
            }
        },
    }
}

/// Checks a neighbour named in a reorder request.
pub fn check_neighbor_section(which: Neighbor, found_in_project: Option<u128>, project_id: u128, neighbor_id: u128) -> (r: Result<(), AppError>)
    ensures
        match neighbor_check(which, found_in_project, project_id, neighbor_id) {
            Ok(()) => r is Ok,
            Err(e) => r matches Err(x) && x@ == e,
        },
{
    match found_in_project {
        None => {
            let id = uuid_to_string(neighbor_id);
            match which {
                Neighbor::Prev => Err(not_found("ProjectSection (prev)", id.as_str())),
                Neighbor::Next => Err(not_found("ProjectSection (next)", id.as_str())),
            }
        },
        Some(p) => {
            if p == project_id {
                Ok(())
            } else {
                match which {
                    Neighbor::Prev => Err(validation_error("prev_section_id", "前一个章节不属于同一项目", "PREV_SECTION_NOT_IN_PROJECT")),
                    Neighbor::Next => Err(validation_error("next_section_id", "后一个章节不属于同一项目", "NEXT_SECTION_NOT_IN_PROJECT")),
                }
            }
        },
    }
}

/// The body of `PATCH /api/projects/:id/sections/:id/reorder`: the sections the moved one
/// lands between.
#[derive(Debug)]
pub struct ReorderSectionRequest {
    pub prev_section_id: Option<u128>,
    pub next_section_id: Option<u128>,
}

/// A neighbour section is accepted exactly when it exists and belongs to the same project; a
/// missing one is a 404 and one of another project is refused.
pub proof fn neighbor_accepted_exactly_in_the_same_project(
    which: Neighbor,
    found_in_project: Option<u128>,
    project_id: u128,
    neighbor_id: u128,
)
    ensures
        neighbor_check(which, found_in_project, project_id, neighbor_id) is Ok <==> found_in_project == Some(project_id),
        found_in_project is None ==> neighbor_check(which, found_in_project, project_id, neighbor_id) matches Err(
            AppErrorView::NotFound { .. },
        ),
{
}

} // verus!
