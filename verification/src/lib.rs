pub mod laws;
pub mod sheet;
pub mod state;
pub mod text;
pub mod web_render;
