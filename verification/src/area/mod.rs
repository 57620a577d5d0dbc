pub mod colors;
pub mod suggest_color;
pub mod update_area;
