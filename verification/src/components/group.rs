//! The group: a combinator that renders its children one after another.
//!
//! A group keeps its children as a reactive value. Converting the component reads
//! nothing; every render reads the value once and renders the list it got, so a
//! computed list is computed anew for each render.

use crate::component::{
    forest_output, lemma_group_output_in_order, lemma_trees_of_index, render_all, tree_output,
    trees_of, Component, Drawable, Element, Tree,
};
use crate::cursor::Cursor;
use crate::stylesheet::StyleSheet;
use crate::value::Value;
use vstd::prelude::*;

verus! {

/// The configuration of a [`Group`]: its children, a constant empty list by default.
pub struct GroupAttribute<F: Fn() -> Vec<Element> = fn() -> Vec<Element>> {
    pub content: Value<Vec<Element>, F>,
}

impl<F: Fn() -> Vec<Element>> View for GroupAttribute<F> {
    type V = Map<Seq<char>, Value<Vec<Element>, F>>;

    /// The record as a map from the names of its fields to what they hold.
    open spec fn view(&self) -> Map<Seq<char>, Value<Vec<Element>, F>> {
        Map::empty().insert("content"@, self.content)
    }
}

impl<F: Fn() -> Vec<Element>> GroupAttribute<F> {
    /// Overwrites the children.
    pub fn set_content(&mut self, value: Value<Vec<Element>, F>)
        ensures
            final(self).content == value,
            final(self)@ == old(self)@.insert("content"@, value),
    {
        self.content = value;
    }
}

impl<F: Fn() -> Vec<Element>> Default for GroupAttribute<F> {
    fn default() -> (attr: Self)
        ensures
            attr.content matches Value::Const(parts) && parts@ == Seq::<Element>::empty(),
    {
        GroupAttribute { content: Value::from_const(Vec::new()) }
    }
}

/// The text a list of children renders to: each child's output, first to last.
pub open spec fn parts_output(parts: Seq<Element>) -> Seq<char> {
    forest_output(trees_of(parts))
}

/// The drawable form of a [`Group`]: its children, still as a reactive value.
pub struct GroupDrawable<F: Fn() -> Vec<Element> = fn() -> Vec<Element>> {
    pub parts: Value<Vec<Element>, F>,
}

impl<F: Fn() -> Vec<Element>> Drawable for GroupDrawable<F> {
    /// A group renders the output of a list that one reading of its children gives.
    open spec fn renders(&self, text: Seq<char>) -> bool {
        exists|list: Vec<Element>| #[trigger]
            self.parts.resolves_to(list) && text == parts_output(list@)
    }

    /// Reads the children once and renders them in order, handing each the same
    /// cursor and style sheet; it writes nothing of its own.
    fn render(&self, outer: &mut Cursor, style: &StyleSheet)
        ensures
            exists|list: Vec<Element>| #[trigger]
                self.parts.resolves_to(list) && final(outer)@ == old(outer)@ + parts_output(
                    list@,
                ),
    {
        let list = self.parts.value();
        render_all(&list, outer, style);
        proof {
            assert(self.parts.resolves_to(list));
            assert(self.renders(parts_output(list@)));
        }
    }
}

impl<F: Fn() -> Vec<Element>> Clone for GroupDrawable<F> {
    /// A copy that duplicates a constant list and shares a computation.
    fn clone(&self) -> (copy: Self)
        ensures
            match self.parts {
                Value::Const(list) => copy.parts matches Value::Const(copied) && trees_of(
                    copied@,
                ) == trees_of(list@),
                Value::Expr(thunk) => copy.parts matches Value::Expr(shared)
                    && shared.computation() == thunk.computation(),
            },
    {
        let copy = GroupDrawable { parts: self.parts.clone() };
        proof {
            if self.parts is Const {
                lemma_copied_parts_keep_shape(self.parts->Const_0, copy.parts->Const_0);
            }
        }
        copy
    }
}

/// A combinator whose children are a reactive value, read at every render.
pub struct Group<F: Fn() -> Vec<Element> = fn() -> Vec<Element>> {
    content: Value<Vec<Element>, F>,
}

impl<F: Fn() -> Vec<Element>> Group<F> {
    /// The children this component was built with.
    pub closed spec fn content(&self) -> Value<Vec<Element>, F> {
        self.content
    }

    /// Builds the component from its attribute record.
    pub fn new(attr: GroupAttribute<F>) -> (group: Self)
        ensures
            group.content() == attr.content,
    {
        Group { content: attr.content }
    }
}

impl<F: Fn() -> Vec<Element>> Component for Group<F> {
    type Attribute = GroupAttribute<F>;

    type Drawn = GroupDrawable<F>;

    /// The drawable holds the component's children as they are; nothing is read.
    open spec fn converts_to(&self, drawable: GroupDrawable<F>) -> bool {
        drawable.parts == self.content()
    }

    fn into_drawable(self) -> (drawable: GroupDrawable<F>) {
        GroupDrawable { parts: self.content }
    }
}

/// A list of children writes what the children write, child after child in the
/// order of the list, with nothing between, before or after their outputs.
pub proof fn lemma_parts_render_in_order(parts: Seq<Element>)
    ensures
        parts_output(parts) == parts.map_values(|part: Element| part.output()).flatten(),
{
    let trees = trees_of(parts);
    lemma_trees_of_index(parts);
    lemma_group_output_in_order(trees);
    assert(trees.map_values(|tree: Tree| tree_output(tree)) =~= parts.map_values(
        |part: Element| part.output(),
    ));
}

/// A duplicate of a list of elements has the same shapes, in the same order.
pub proof fn lemma_copied_parts_keep_shape(source: Vec<Element>, copy: Vec<Element>)
    requires
        cloned::<Vec<Element>>(source, copy),
    ensures
        trees_of(copy@) == trees_of(source@),
{
    lemma_trees_of_index(source@);
    lemma_trees_of_index(copy@);
    assert(trees_of(copy@) =~= trees_of(source@));
}

/// A group with constant children renders the same text at every render: the
/// output of exactly those children, in their order.
pub proof fn lemma_constant_group_renders<F: Fn() -> Vec<Element>>(
    group: GroupDrawable<F>,
    text: Seq<char>,
)
    requires
        group.parts is Const,
    ensures
        group.renders(text) <==> text == parts_output(group.parts->Const_0@),
{
    let list = group.parts->Const_0;
    if group.renders(text) {
        let read = choose|read: Vec<Element>| #[trigger]
            group.parts.resolves_to(read) && text == parts_output(read@);
        lemma_copied_parts_keep_shape(list, read);
    }
    if text == parts_output(list@) {
        assert(group.parts.resolves_to(list));
    }
}

/// A group with computed children renders, at each render, the output of a list
/// that a call of the computation returns, and of no other list.
pub proof fn lemma_computed_group_renders<F: Fn() -> Vec<Element>>(
    group: GroupDrawable<F>,
    text: Seq<char>,
)
    requires
        group.parts is Expr,
    ensures
        group.renders(text) <==> exists|list: Vec<Element>| #[trigger]
            call_ensures(group.parts->Expr_0.computation(), (), list) && text == parts_output(
                list@,
            ),
{
    let run = group.parts->Expr_0.computation();
    if group.renders(text) {
        let read = choose|read: Vec<Element>| #[trigger]
            group.parts.resolves_to(read) && text == parts_output(read@);
        assert(call_ensures(run, (), read));
    }
    if exists|list: Vec<Element>| #[trigger]
        call_ensures(run, (), list) && text == parts_output(list@) {
        let made = choose|list: Vec<Element>| #[trigger]
            call_ensures(run, (), list) && text == parts_output(list@);
        assert(group.parts.resolves_to(made));
    }
}

} // verus!
