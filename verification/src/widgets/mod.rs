//! Widgets.
pub mod action;
pub mod base;
pub mod extra;
pub mod image;
pub mod inner;
pub mod list;
pub mod listbox;
pub mod window;
pub mod wbox;
