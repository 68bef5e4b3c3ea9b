//! The raw text widget: a string fixed when the widget is built.

use crate::component::{Component, Drawable, Element};
use crate::cursor::Cursor;
use crate::stylesheet::StyleSheet;
use vstd::prelude::*;
use vstd::string::to_string_from_display_ensures as printed_as;

verus! {

/// The configuration of a [`RawText`]: its content, empty by default.
pub struct RawTextAttribute {
    pub content: String,
}

impl View for RawTextAttribute {
    type V = Map<Seq<char>, String>;

    /// The record as a map from the names of its fields to what they hold.
    open spec fn view(&self) -> Map<Seq<char>, String> {
        Map::empty().insert("content"@, self.content)
    }
}

impl RawTextAttribute {
    /// Overwrites the content.
    pub fn set_content(&mut self, value: String)
        ensures
            final(self).content == value,
            final(self)@ == old(self)@.insert("content"@, value),
    {
        self.content = value;
    }
}

impl Default for RawTextAttribute {
    fn default() -> (attr: Self)
        ensures
            attr.content@ == Seq::<char>::empty(),
    {
        RawTextAttribute { content: String::new() }
    }
}

/// The drawable form of a [`RawText`]: it writes its content and nothing else.
pub struct RawTextDrawable {
    pub content: String,
}

impl Drawable for RawTextDrawable {
    /// It renders its content and nothing else.
    open spec fn renders(&self, text: Seq<char>) -> bool {
        text == self.content@
    }

    fn render(&self, outer: &mut Cursor, _style: &StyleSheet)
        ensures
            final(outer)@ == old(outer)@ + self.content@,
    {
        outer.write(self.content.as_str());
        proof {
            assert(self.renders(self.content@));
        }
    }
}

impl Clone for RawTextDrawable {
    fn clone(&self) -> (copy: Self)
        ensures
            copy == *self,
    {
        RawTextDrawable { content: self.content.clone() }
    }
}

/// A piece of text that is fixed when the component is built.
pub struct RawText {
    pub content: String,
}

impl RawText {
    /// Builds the component from its attribute record.
    pub fn new(attr: RawTextAttribute) -> (text: Self)
        ensures
            text.content == attr.content,
    {
        RawText { content: attr.content }
    }
}

impl Component for RawText {
    type Attribute = RawTextAttribute;

    type Drawn = Element;

    open spec fn converts_to(&self, drawable: Element) -> bool {
        drawable == Element::RawText(RawTextDrawable { content: self.content })
    }

    fn into_drawable(self) -> (drawable: Element) {
        Element::RawText(RawTextDrawable { content: self.content })
    }
}

impl<T: core::fmt::Display + 'static> vstd::std_specs::convert::FromSpecImpl<T> for RawText {
    /// What `to_string` prints is known as a relation, not as a function of the value.
    open spec fn obeys_from_spec() -> bool {
        false
    }

    open spec fn from_spec(value: T) -> Self {
        RawText { content: choose|content: String| printed_as::<T>(&value, content) }
    }
}

impl<T: core::fmt::Display + 'static> From<T> for RawText {
    /// A raw text whose content is `value` as `to_string` prints it.
    fn from(value: T) -> (text: Self)
        ensures
            printed_as::<T>(&value, text.content),
    {
        RawText { content: value.to_string() }
    }
}

} // verus!
