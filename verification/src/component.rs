//! The two capabilities every widget has, and the trees a group is made of.
//!
//! A widget is authored as a [`Component`] and consumed as a [`Drawable`]. What a
//! group reads at each render is a list of [`Element`]s: drawables whose text is
//! settled. The view of an element is its [`Tree`], and a tree determines the text
//! that rendering writes.

use crate::components::raw_text::RawTextDrawable;
use crate::components::text::TextDrawable;
use crate::cursor::Cursor;
use crate::stylesheet::StyleSheet;
use vstd::prelude::*;

verus! {

/// The rendering capability: a drawable writes itself onto a cursor.
///
/// A drawable that holds a computation may write a different text at every render,
/// so what a render writes is given as a relation.
pub trait Drawable {
    /// Whether `text` is something one render of this drawable may write.
    spec fn renders(&self, text: Seq<char>) -> bool;

    /// Appends one of the texts this drawable renders after whatever the cursor
    /// already holds. The drawable itself is left as it was.
    fn render(&self, outer: &mut Cursor, style: &StyleSheet)
        ensures
            exists|text: Seq<char>| #[trigger]
                self.renders(text) && final(outer)@ == old(outer)@ + text,
    ;
}

/// The authoring capability: a component is converted, once, into its drawable.
pub trait Component: Sized {
    /// The configuration record the component is built from.
    type Attribute;

    /// The drawable form of the component.
    type Drawn: Drawable;

    /// Whether `drawable` is a conversion of this component.
    spec fn converts_to(&self, drawable: Self::Drawn) -> bool;

    /// Consumes the component and returns its drawable form. Conversion never fails.
    fn into_drawable(self) -> (drawable: Self::Drawn)
        ensures
            self.converts_to(drawable),
    ;
}

/// A drawable whose text is settled: a text, a raw text, or a list of such
/// drawables rendered one after another. Groups read lists of elements.
pub enum Element {
    Group(Vec<Element>),
    Text(TextDrawable),
    RawText(RawTextDrawable),
}

/// The mathematical shape of a drawable tree.
pub ghost enum Tree {
    Group(Seq<Tree>),
    Text(Seq<char>),
    RawText(Seq<char>),
}

/// The shape of one element.
pub open spec fn tree_of(element: Element) -> Tree
    decreases element,
{
    match element {
        Element::Group(parts) => Tree::Group(trees_of(parts@)),
        Element::Text(text) => Tree::Text(text.content@),
        Element::RawText(text) => Tree::RawText(text.content@),
    }
}

/// The shapes of a sequence of elements, in the same order.
pub open spec fn trees_of(parts: Seq<Element>) -> Seq<Tree>
    decreases parts,
{
    if parts.len() == 0 {
        Seq::empty()
    } else {
        trees_of(parts.drop_last()).push(tree_of(parts.last()))
    }
}

/// The text a tree renders to.
pub open spec fn tree_output(tree: Tree) -> Seq<char>
    decreases tree,
{
    match tree {
        Tree::Group(parts) => forest_output(parts),
        Tree::Text(content) => content,
        Tree::RawText(content) => content,
    }
}

/// The text a sequence of trees renders to, first to last.
pub open spec fn forest_output(parts: Seq<Tree>) -> Seq<char>
    decreases parts,
{
    if parts.len() == 0 {
        Seq::empty()
    } else {
        forest_output(parts.drop_last()) + tree_output(parts.last())
    }
}

impl View for Element {
    type V = Tree;

    open spec fn view(&self) -> Tree {
        tree_of(*self)
    }
}

/// Appending an element appends its shape.
pub proof fn lemma_trees_of_push(parts: Seq<Element>, element: Element)
    ensures
        trees_of(parts.push(element)) == trees_of(parts).push(tree_of(element)),
{
    assert(parts.push(element).drop_last() =~= parts);
}

/// `trees_of` keeps length and order.
pub proof fn lemma_trees_of_index(parts: Seq<Element>)
    ensures
        trees_of(parts).len() == parts.len(),
        forall|i: int| 0 <= i < parts.len() ==> (#[trigger] trees_of(parts)[i]) == tree_of(parts[i]),
    decreases parts.len(),
{
    if parts.len() > 0 {
        lemma_trees_of_index(parts.drop_last());
    }
}

/// Appending a tree appends its output.
pub proof fn lemma_forest_output_push(parts: Seq<Tree>, tree: Tree)
    ensures
        forest_output(parts.push(tree)) == forest_output(parts) + tree_output(tree),
{
    assert(parts.push(tree).drop_last() =~= parts);
}

/// Rendering one sequence of trees after another writes the first sequence's output,
/// then the second's: the two are never interleaved.
pub proof fn lemma_forest_output_concat(first: Seq<Tree>, second: Seq<Tree>)
    ensures
        forest_output(first + second) == forest_output(first) + forest_output(second),
    decreases second.len(),
{
    if second.len() == 0 {
        assert(first + second =~= first);
        assert(forest_output(first) + forest_output(second) =~= forest_output(first));
    } else {
        lemma_forest_output_concat(first, second.drop_last());
        assert((first + second).drop_last() =~= first + second.drop_last());
        assert(forest_output(first + second) =~= forest_output(first) + forest_output(second));
    }
}

/// A group renders to the outputs of its children, joined in the children's order,
/// with nothing added between, before or after them.
pub proof fn lemma_group_output_in_order(parts: Seq<Tree>)
    ensures
        tree_output(Tree::Group(parts)) == parts.map_values(|part: Tree| tree_output(part)).flatten(),
{
    let outputs = parts.map_values(|part: Tree| tree_output(part));
    outputs.lemma_flatten_and_flatten_alt_are_equivalent();
    lemma_forest_output_is_flatten_alt(parts);
}

proof fn lemma_forest_output_is_flatten_alt(parts: Seq<Tree>)
    ensures
        forest_output(parts) == parts.map_values(|part: Tree| tree_output(part)).flatten_alt(),
    decreases parts.len(),
{
    let outputs = parts.map_values(|part: Tree| tree_output(part));
    if parts.len() > 0 {
        lemma_forest_output_is_flatten_alt(parts.drop_last());
        assert(outputs.drop_last() =~= parts.drop_last().map_values(
            |part: Tree| tree_output(part),
        ));
    }
}

impl Element {
    /// The text every render of this element writes.
    pub open spec fn output(&self) -> Seq<char> {
        tree_output(self@)
    }
}

/// Renders `parts` first to last onto `outer`, each with the same style sheet.
pub fn render_all(parts: &Vec<Element>, outer: &mut Cursor, style: &StyleSheet)
    ensures
        final(outer)@ == old(outer)@ + forest_output(trees_of(parts@)),
    decreases parts,
{
    let mut i: usize = 0;
    while i < parts.len()
        invariant
            i <= parts.len(),
            outer@ == old(outer)@ + forest_output(trees_of(parts@.take(i as int))),
        decreases parts.len() - i,
    {
        parts[i].render(outer, style);
        proof {
            let done = parts@.take(i as int);
            assert(parts@.take(i + 1) =~= done.push(parts@[i as int]));
            lemma_trees_of_push(done, parts@[i as int]);
            lemma_forest_output_push(trees_of(done), tree_of(parts@[i as int]));
        }
        i += 1;
    }
    proof {
        assert(parts@.take(i as int) =~= parts@);
    }
}

/// An independent copy of `parts`, element by element.
pub fn clone_all(parts: &Vec<Element>) -> (copy: Vec<Element>)
    ensures
        trees_of(copy@) == trees_of(parts@),
    decreases parts,
{
    let mut copy: Vec<Element> = Vec::new();
    let mut i: usize = 0;
    while i < parts.len()
        invariant
            i <= parts.len(),
            trees_of(copy@) == trees_of(parts@.take(i as int)),
        decreases parts.len() - i,
    {
        let part = parts[i].clone();
        proof {
            let done = parts@.take(i as int);
            assert(parts@.take(i + 1) =~= done.push(parts@[i as int]));
            lemma_trees_of_push(done, parts@[i as int]);
            lemma_trees_of_push(copy@, part);
        }
        copy.push(part);
        i += 1;
    }
    proof {
        assert(parts@.take(i as int) =~= parts@);
    }
    copy
}

impl Drawable for Element {
    /// An element renders its output and nothing else.
    open spec fn renders(&self, text: Seq<char>) -> bool {
        text == self.output()
    }

    fn render(&self, outer: &mut Cursor, style: &StyleSheet)
        ensures
            final(outer)@ == old(outer)@ + self.output(),
        decreases self,
    {
        match self {
            Element::Group(parts) => render_all(parts, outer, style),
            Element::Text(text) => text.render(outer, style),
            Element::RawText(text) => text.render(outer, style),
        }
        proof {
            assert(self.renders(self.output()));
        }
    }
}

impl Clone for Element {
    /// An independent copy with the same shape.
    fn clone(&self) -> (copy: Self)
        ensures
            copy@ == self@,
        decreases self,
    {
        match self {
            Element::Group(parts) => Element::Group(clone_all(parts)),
            Element::Text(text) => Element::Text(text.clone()),
            Element::RawText(text) => Element::RawText(text.clone()),
        }
    }
}

impl<T: Component<Drawn = Element>> vstd::std_specs::convert::FromSpecImpl<T> for Element {
    /// A conversion may read computed values, so it is known as a relation only.
    open spec fn obeys_from_spec() -> bool {
        false
    }

    open spec fn from_spec(component: T) -> Self {
        choose|drawable: Element| component.converts_to(drawable)
    }
}

impl<T: Component<Drawn = Element>> From<T> for Element {
    /// A component that converts to an element can stand where an element is wanted.
    fn from(component: T) -> (drawable: Self)
        ensures
            component.converts_to(drawable),
    {
        component.into_drawable()
    }
}

} // verus!
