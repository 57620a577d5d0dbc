pub mod batch_init_ranks;
pub mod create_task_from_template;
pub mod create_template;
pub mod update_sort_rank;
pub mod update_template;
