//! Style resolution and paint planning for a native UI renderer.

pub mod units;
pub mod font_size;
pub mod font_style;
pub mod text_style;
pub mod css;
pub mod geometry;
pub mod render;
