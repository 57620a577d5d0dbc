use vstd::prelude::*;

use crate::errors::{result_is, AppError};
use crate::shutdown_ritual::get_state::ritual_date_check;

verus! {

/// The body of `POST /api/shutdown-ritual/progress/toggle`: the step and the day.
#[derive(Debug)]
pub struct ToggleShutdownRitualRequest {
    pub step_id: u128,
    pub date: String,
}

/// The step's progress on that day after the toggle, as answered and as carried by the event.
#[derive(Debug)]
pub struct ToggleShutdownRitualProgressResponse<Progress> {
    pub progress: Progress,
}

/// Checks the day of a toggle; the same rule as for a state query.
pub fn validate_date(date: &str) -> (r: Result<(), AppError>)
    ensures
        result_is(r, ritual_date_check(date@)),
{
    crate::shutdown_ritual::get_state::validate_date(date)
}

/// The completion time after a toggle: a step with no progress row yet, or an open one,
/// becomes completed at the client's time; a completed one is reopened.
pub open spec fn toggled<T>(existing: Option<Option<T>>, client_time: T) -> Option<T> {
    match existing {
        Some(Some(_)) => None,
        _ => Some(client_time),
    }
}

/// Computes the completion time after a toggle. `existing` is the completion time of the
/// step's progress row for the day, `None` when there is no row.
pub fn toggled_completion<T>(existing: Option<Option<T>>, client_time: T) -> (r: Option<T>)
    ensures
        r == toggled(existing, client_time),
{
    match existing {
        Some(Some(_)) => None,
        _ => Some(client_time),
    }
}

/// A toggle always flips the step's state: done afterwards exactly when it was not before.
pub proof fn toggle_flips_completion<T>(existing: Option<Option<T>>, client_time: T)
    ensures
        (toggled(existing, client_time) is Some) == !(existing matches Some(Some(_))),
{
}

/// Toggling twice on the same day gives back a step that is not done when the first toggle
/// completed it, and one completed at the second time when the first reopened it.
pub proof fn toggle_twice<T>(existing: Option<Option<T>>, t1: T, t2: T)
    ensures
        toggled(Some(toggled(existing, t1)), t2) == match existing {
            Some(Some(_)) => Some(t2),
            _ => None,
        },
{
}

} // verus!
