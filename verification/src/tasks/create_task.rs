use vstd::prelude::*;

verus! {

/// The area a new task gets: the requested one; without one, the area of the task's
/// project (`project_area` is that project's area, `None` when the project was not found).
pub open spec fn new_task_area(requested: Option<u128>, project_id: Option<u128>, project_area: Option<Option<u128>>) -> Option<u128> {
    if requested is None && project_id is Some {
        match project_area {
            Some(a) => a,
            None => None,
        }
    } else {
        requested
    }
}

/// Whether the project must be looked up to find the new task's area.
pub fn needs_project_area(requested: Option<u128>, project_id: Option<u128>) -> (r: bool)
    ensures
        r == (requested is None && project_id is Some),
{
    requested.is_none() && project_id.is_some()
}

/// The area a new task gets (see `new_task_area`).
pub fn inherited_area_id(requested: Option<u128>, project_id: Option<u128>, project_area: Option<Option<u128>>) -> (r: Option<u128>)
    ensures
        r == new_task_area(requested, project_id, project_area),
{
    if requested.is_none() && project_id.is_some() {
        match project_area {
            Some(a) => a,
            None => None,
        }
    } else {
        requested
    }
}

} // verus!
