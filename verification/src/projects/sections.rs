use vstd::prelude::*;

use crate::errors::{not_found, AppError, AppErrorView};
use crate::ids::{uuid_text, uuid_to_string};

verus! {

/// A section is found for a project only when it exists and belongs to that project;
/// otherwise it is `NotFound` as a `ProjectSection`, whether it is missing or elsewhere.
pub open spec fn section_lookup_check(found_in_project: Option<u128>, project_id: u128, section_id: u128) -> Result<(), AppErrorView> {
    if found_in_project == Some(project_id) {
        Ok(())
    } else {
        Err(AppErrorView::NotFound { entity_type: "ProjectSection"@, entity_id: uuid_text(section_id) })
    }
}

/// Checks the section looked up for an update, a reorder or a delete: `found_in_project` is
/// the project of the section with `section_id`, `None` when there is no such section.
pub fn check_section_in_project(found_in_project: Option<u128>, project_id: u128, section_id: u128) -> (r: Result<(), AppError>)
    ensures
        match section_lookup_check(found_in_project, project_id, section_id) {
            Ok(()) => r is Ok,
            Err(e) => r matches Err(x) && x@ == e,
        },
{
    match found_in_project {
        Some(p) => {
            if p == project_id {
                return Ok(());
            }
        },
        None => {},
    }
    Err(not_found("ProjectSection", uuid_to_string(section_id).as_str()))
}

} // verus!
