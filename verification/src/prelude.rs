//! The names most programs need.

pub use crate::component::{Component, Drawable, Element};
pub use crate::components::group::{Group, GroupAttribute, GroupDrawable};
pub use crate::components::raw_text::{RawText, RawTextAttribute};
pub use crate::components::text::{Text, TextAttribute};
pub use crate::cursor::Cursor;
pub use crate::state::{updater, State, Store};
pub use crate::stylesheet::StyleSheet;
pub use crate::value::Value;
