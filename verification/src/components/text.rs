//! The text widget: a string that may be computed, resolved when the widget is converted.

use crate::component::{Component, Drawable, Element};
use crate::cursor::Cursor;
use crate::stylesheet::StyleSheet;
use crate::value::Value;
use vstd::prelude::*;
use vstd::string::to_string_from_display_ensures as printed_as;

verus! {

/// The configuration of a [`Text`]: its content, a constant empty string by default.
pub struct TextAttribute<F: Fn() -> String = fn() -> String> {
    pub content: Value<String, F>,
}

impl<F: Fn() -> String> View for TextAttribute<F> {
    type V = Map<Seq<char>, Value<String, F>>;

    /// The record as a map from the names of its fields to what they hold.
    open spec fn view(&self) -> Map<Seq<char>, Value<String, F>> {
        Map::empty().insert("content"@, self.content)
    }
}

impl<F: Fn() -> String> TextAttribute<F> {
    /// Overwrites the content.
    pub fn set_content(&mut self, value: Value<String, F>)
        ensures
            final(self).content == value,
            final(self)@ == old(self)@.insert("content"@, value),
    {
        self.content = value;
    }
}

impl<F: Fn() -> String> Default for TextAttribute<F> {
    fn default() -> (attr: Self)
        ensures
            attr.content matches Value::Const(content) && content@ == Seq::<char>::empty(),
    {
        TextAttribute { content: Value::from_const(String::new()) }
    }
}

/// The drawable form of a [`Text`]: the content as it was resolved at conversion.
pub struct TextDrawable {
    pub content: String,
}

impl Drawable for TextDrawable {
    /// It renders its content and nothing else.
    open spec fn renders(&self, text: Seq<char>) -> bool {
        text == self.content@
    }

    fn render(&self, outer: &mut Cursor, _style: &StyleSheet)
        ensures
            final(outer)@ == old(outer)@ + self.content@,
    {
        outer.write(self.content.as_str());
        proof {
            assert(self.renders(self.content@));
        }
    }
}

impl Clone for TextDrawable {
    fn clone(&self) -> (copy: Self)
        ensures
            copy == *self,
    {
        TextDrawable { content: self.content.clone() }
    }
}

/// A piece of text whose content is a reactive value, resolved once at conversion.
pub struct Text<F: Fn() -> String = fn() -> String> {
    content: Value<String, F>,
}

impl<F: Fn() -> String> Text<F> {
    /// The content this component was built with.
    pub closed spec fn content(&self) -> Value<String, F> {
        self.content
    }

    /// Builds the component from its attribute record.
    pub fn new(attr: TextAttribute<F>) -> (text: Self)
        ensures
            text.content() == attr.content,
    {
        Text { content: attr.content }
    }
}

impl<F: Fn() -> String> Component for Text<F> {
    type Attribute = TextAttribute<F>;

    type Drawn = Element;

    /// The drawable is a text whose content is one reading of the component's content.
    open spec fn converts_to(&self, drawable: Element) -> bool {
        drawable matches Element::Text(text) && self.content().resolves_to(text.content)
    }

    fn into_drawable(self) -> (drawable: Element) {
        Element::Text(TextDrawable { content: self.content.value() })
    }
}

impl<T: core::fmt::Display + 'static, F: Fn() -> String> vstd::std_specs::convert::FromSpecImpl<T> for Text<F> {
    /// What `to_string` prints is known as a relation, not as a function of the value.
    open spec fn obeys_from_spec() -> bool {
        false
    }

    closed spec fn from_spec(value: T) -> Self {
        Text { content: Value::Const(choose|content: String| printed_as::<T>(&value, content)) }
    }
}

impl<T: core::fmt::Display + 'static, F: Fn() -> String> From<T> for Text<F> {
    /// A text whose content is the constant that `to_string` prints for `value`.
    fn from(value: T) -> (text: Self)
        ensures
            text.content() matches Value::Const(content) && printed_as::<T>(&value, content),
    {
        Text { content: Value::from_const(value.to_string()) }
    }
}

/// A text with constant content converts to a text drawable of exactly that content.
pub proof fn lemma_constant_text_conversion<F: Fn() -> String>(text: Text<F>, drawable: Element)
    requires
        text.content() is Const,
        text.converts_to(drawable),
    ensures
        drawable == Element::Text(TextDrawable { content: text.content()->Const_0 }),
{
}

} // verus!
