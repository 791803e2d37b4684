//! Caches shared by the widgets.
pub mod image;
pub mod path;
