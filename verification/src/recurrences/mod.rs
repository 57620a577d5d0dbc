pub mod batch_update_instances;
pub mod batch_update_template_and_instances;
pub mod create_recurrence;
pub mod delete_recurrence;
pub mod list_recurrences;
pub mod rrule_text;
pub mod update_recurrence;
