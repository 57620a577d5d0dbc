pub mod batch_init_ranks;
pub mod complete_task;
pub mod create_task;
pub mod create_task_with_schedule;
pub mod create_template_from_task;
pub mod delete_schedule;
pub mod delete_task;
pub mod lifecycle;
pub mod orphan_blocks;
pub mod permanently_delete_task;
pub mod reopen_task;
pub mod restore_task;
pub mod return_to_staging;
pub mod schedule_day;
pub mod transaction;
pub mod unarchive_task;
pub mod update_schedule;
pub mod update_sort_position;
