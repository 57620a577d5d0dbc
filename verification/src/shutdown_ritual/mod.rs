pub mod create_step;
pub mod delete_step;
pub mod get_state;
pub mod steps;
pub mod toggle_progress;
pub mod update_settings;
pub mod update_step;
pub mod update_step_sort_rank;
