use vstd::prelude::*;

use crate::errors::{single_field_error, validation_error, AppError};
use crate::time_block_recurrences::edit_time_block_recurrence::UpdateTimeBlockRecurrenceRequest;

verus! {

/// Only a stopped recurrence (one with an end day) can be resumed.
pub fn check_can_resume(end_date: &Option<String>) -> (r: Result<(), AppError>)
    ensures
        end_date is Some ==> r is Ok,
        end_date is None ==> (r matches Err(e) && e@ == single_field_error(
            "end_date"@,
            "此循环规则尚未停止，无需继续"@,
            "RECURRENCE_NOT_STOPPED"@,
        )),
{
    if end_date.is_none() {
        return Err(validation_error("end_date", "此循环规则尚未停止，无需继续", "RECURRENCE_NOT_STOPPED"));
    }
    Ok(())
}

/// The change that resuming writes: the end day cleared and the recurrence active.
pub fn resume_update() -> (r: UpdateTimeBlockRecurrenceRequest)
    ensures
        r.template_id is None && r.rule is None && r.time_type is None && r.start_date is None,
        r.end_date == Some(None::<String>),
        r.timezone is None && r.skip_conflicts is None && r.is_active == Some(true),
{
    UpdateTimeBlockRecurrenceRequest {
        template_id: None,
        rule: None,
        time_type: None,
        start_date: None,
        end_date: Some(None),
        timezone: None,
        skip_conflicts: None,
        is_active: Some(true),
    }
}

} // verus!
