pub mod create_project;
pub mod create_section;
pub mod delete_project;
pub mod reorder_section;
pub mod sections;
pub mod update_section;
