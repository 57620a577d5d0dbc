pub mod create_time_block_recurrence;
pub mod delete_time_block_recurrence;
pub mod edit_time_block_recurrence;
pub mod resume_time_block_recurrence;
pub mod stop_time_block_recurrence;
