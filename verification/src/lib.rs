//! A declarative toolkit for rendering trees of styled text onto a cursor.
//!
//! Widgets are declared as attribute records, built into components, and converted
//! into drawables; a drawable renders by appending its text to a [`cursor::Cursor`].
//! Fields of a component may be reactive ([`value::Value`]): a text reads its
//! content when it is converted, a group reads its children at every render.
//! Observed cells ([`state::State`]) notify an updater of every explicit update.

pub mod component;
pub mod components;
pub mod cursor;
pub mod prelude;
pub mod state;
pub mod stylesheet;
pub mod util;
pub mod value;
