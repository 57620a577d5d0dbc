pub mod area;
pub mod dates;
pub mod entities;
pub mod errors;
pub mod ids;
pub mod projects;
pub mod ranks;
pub mod recurrences;
pub mod shutdown_ritual;
pub mod sql;
pub mod tasks;
pub mod templates;
pub mod text;
pub mod time_block_recurrences;
pub mod time_blocks;
pub mod validation;
