//! The built-in widgets.

pub mod attribute;
pub mod group;
pub mod raw_text;
pub mod text;
