use hydrigo::component::{Component, Drawable, Element};
use hydrigo::components::group::{Group, GroupAttribute, GroupDrawable};
use hydrigo::components::raw_text::{RawText, RawTextAttribute, RawTextDrawable};
use hydrigo::components::text::{Text, TextAttribute, TextDrawable};
use hydrigo::cursor::Cursor;
use hydrigo::stylesheet::StyleSheet;
use hydrigo::value::Value;
use std::cell::{Cell, RefCell};
use std::rc::Rc;

fn rendered<D: Drawable>(drawable: &D) -> String {
    let mut cursor = Cursor::new();
    drawable.render(&mut cursor, &StyleSheet::new());
    cursor.output().to_string()
}

fn text(content: &str) -> Element {
    let mut attr: TextAttribute = TextAttribute::default();
    attr.set_content(Value::from_const(content.to_string()));
    Text::new(attr).into_drawable()
}

fn group(parts: Vec<Element>) -> GroupDrawable {
    let mut attr: GroupAttribute = GroupAttribute::default();
    attr.set_content(Value::from_const(parts));
    Group::new(attr).into_drawable()
}

#[test]
fn text_with_content_hi_renders_hi() {
    let mut attr: TextAttribute = TextAttribute::default();
    attr.set_content(Value::from_const("hi".to_string()));
    let drawable = Text::new(attr).into_drawable();
    let mut cursor = Cursor::new();
    drawable.render(&mut cursor, &StyleSheet::new());
    assert_eq!(cursor.output(), "hi");
}

#[test]
fn group_of_two_texts_renders_their_concatenation() {
    let drawable = group(vec![text("a"), text("b")]);
    assert_eq!(rendered(&drawable), "ab");
}

#[test]
fn group_renders_three_children_in_order() {
    let drawable = group(vec![text("first,"), text("second,"), text("third")]);
    assert_eq!(rendered(&drawable), "first,second,third");
}

#[test]
fn nested_lists_render_depth_first_in_order() {
    let inner = Element::Group(vec![text("b"), text("c")]);
    let outer = group(vec![text("a"), inner, Element::Group(Vec::new()), text("d")]);
    assert_eq!(rendered(&outer), "abcd");
}

#[test]
fn default_text_renders_nothing() {
    let attr: TextAttribute = TextAttribute::default();
    assert_eq!(rendered(&Text::new(attr).into_drawable()), "");
}

#[test]
fn default_group_renders_nothing() {
    let attr: GroupAttribute = GroupAttribute::default();
    assert_eq!(rendered(&Group::new(attr).into_drawable()), "");
}

#[test]
fn default_raw_text_renders_nothing() {
    let drawable = RawText::new(RawTextAttribute::default()).into_drawable();
    assert_eq!(rendered(&drawable), "");
}

#[test]
fn raw_text_renders_its_content() {
    let mut attr = RawTextAttribute::default();
    attr.set_content("raw <b>".to_string());
    let drawable = RawText::new(attr).into_drawable();
    assert!(matches!(drawable, Element::RawText(_)));
    assert_eq!(rendered(&drawable), "raw <b>");
}

#[test]
fn render_appends_after_what_the_cursor_holds() {
    let mut cursor = Cursor::new();
    cursor.write("> ");
    text("x").render(&mut cursor, &StyleSheet::new());
    group(vec![text("y"), text("z")]).render(&mut cursor, &StyleSheet::new());
    assert_eq!(cursor.output(), "> xyz");
}

#[test]
fn rendering_a_constant_group_twice_writes_the_same_text_twice() {
    let drawable = group(vec![text("a"), text("b")]);
    let mut cursor = Cursor::new();
    let style = StyleSheet::default();
    drawable.render(&mut cursor, &style);
    drawable.render(&mut cursor, &style);
    assert_eq!(cursor.output(), "abab");
}

#[test]
fn text_from_anything_printable() {
    let from_str: Text = Text::from("plain");
    assert_eq!(rendered(&from_str.into_drawable()), "plain");
    let from_number: Text = Text::from(42);
    assert_eq!(rendered(&from_number.into_drawable()), "42");
}

#[test]
fn raw_text_from_anything_printable() {
    assert_eq!(rendered(&RawText::from("plain").into_drawable()), "plain");
    assert_eq!(rendered(&RawText::from('c').into_drawable()), "c");
    assert_eq!(RawText::from(-7).content, "-7");
}

#[test]
fn element_from_a_component() {
    let element = Element::from(RawText::from("via from"));
    assert_eq!(rendered(&element), "via from");
    let text: Text = Text::from("into");
    let element: Element = text.into();
    assert_eq!(rendered(&element), "into");
}

#[test]
fn computed_text_is_resolved_once_at_conversion() {
    let calls = Rc::new(Cell::new(0u32));
    let counter = Rc::clone(&calls);
    let mut attr = TextAttribute::default();
    attr.set_content(Value::from_expr(move || {
        counter.set(counter.get() + 1);
        format!("call {}", counter.get())
    }));
    let component = Text::new(attr);
    assert_eq!(calls.get(), 0);
    let drawable = component.into_drawable();
    assert_eq!(calls.get(), 1);
    assert_eq!(rendered(&drawable), "call 1");
    assert_eq!(rendered(&drawable), "call 1");
    assert_eq!(calls.get(), 1);
}

#[test]
fn computed_children_are_read_at_every_render_and_not_at_conversion() {
    let calls = Rc::new(Cell::new(0u32));
    let counter = Rc::clone(&calls);
    let mut attr = GroupAttribute::default();
    attr.set_content(Value::from_expr(move || {
        counter.set(counter.get() + 1);
        vec![text("x"), text("y")]
    }));
    let component = Group::new(attr);
    assert_eq!(calls.get(), 0);
    let drawable = component.into_drawable();
    assert_eq!(calls.get(), 0);
    assert_eq!(rendered(&drawable), "xy");
    assert_eq!(calls.get(), 1);
    assert_eq!(rendered(&drawable), "xy");
    assert_eq!(calls.get(), 2);
}

#[test]
fn a_change_between_two_renders_shows_in_the_second() {
    let label = Rc::new(RefCell::new("before".to_string()));
    let seen = Rc::clone(&label);
    let mut attr = GroupAttribute::default();
    attr.set_content(Value::from_expr(move || {
        vec![text("["), text(seen.borrow().as_str()), text("]")]
    }));
    let drawable = Group::new(attr).into_drawable();
    assert_eq!(rendered(&drawable), "[before]");
    *label.borrow_mut() = "after".to_string();
    assert_eq!(rendered(&drawable), "[after]");
    let mut cursor = Cursor::new();
    let style = StyleSheet::new();
    drawable.render(&mut cursor, &style);
    label.borrow_mut().push('!');
    drawable.render(&mut cursor, &style);
    assert_eq!(cursor.output(), "[after][after!]");
}

#[test]
fn conversion_of_a_group_keeps_its_content_as_it_is() {
    let calls = Rc::new(Cell::new(0u32));
    let counter = Rc::clone(&calls);
    let mut attr = GroupAttribute::default();
    attr.set_content(Value::from_expr(move || {
        counter.set(counter.get() + 1);
        Vec::new()
    }));
    let drawable = Group::new(attr).into_drawable();
    assert!(matches!(drawable.parts, Value::Expr(_)));
    assert_eq!(calls.get(), 0);
    let constant = group(vec![text("kept")]);
    assert!(matches!(&constant.parts, Value::Const(parts) if parts.len() == 1));
}

#[test]
fn cloned_group_drawable_shares_its_computation() {
    let calls = Rc::new(Cell::new(0u32));
    let counter = Rc::clone(&calls);
    let mut attr = GroupAttribute::default();
    attr.set_content(Value::from_expr(move || {
        counter.set(counter.get() + 1);
        vec![text(&counter.get().to_string())]
    }));
    let drawable = Group::new(attr).into_drawable();
    let copy = drawable.clone();
    assert_eq!(rendered(&drawable), "1");
    assert_eq!(rendered(&copy), "2");
    assert_eq!(rendered(&drawable), "3");
}

#[test]
fn cloned_constant_group_drawable_is_independent() {
    let source = group(vec![text("a"), text("b")]);
    let mut copy = source.clone();
    if let Value::Const(parts) = &mut copy.parts {
        parts.push(text("c"));
    }
    assert_eq!(rendered(&copy), "abc");
    assert_eq!(rendered(&source), "ab");
}

#[test]
fn cloned_element_renders_the_same_and_is_independent() {
    let source = Element::Group(vec![text("a"), Element::Group(vec![text("b")])]);
    let mut copy = source.clone();
    assert_eq!(rendered(&copy), "ab");
    if let Element::Group(parts) = &mut copy {
        parts.push(text("c"));
        parts[0] = text("A");
    }
    assert_eq!(rendered(&copy), "Abc");
    assert_eq!(rendered(&source), "ab");
}

#[test]
fn drawables_render_on_their_own() {
    let style = StyleSheet::new();
    let mut cursor = Cursor::new();
    TextDrawable { content: "t".to_string() }.render(&mut cursor, &style);
    RawTextDrawable { content: "r".to_string() }.render(&mut cursor, &style);
    let parts: Value<Vec<Element>> = Value::from_const(vec![text("g"), text("h")]);
    GroupDrawable { parts }.render(&mut cursor, &style);
    Element::Group(vec![text("i")]).render(&mut cursor, &style);
    assert_eq!(cursor.output(), "trghi");
}

#[test]
fn render_all_renders_first_to_last() {
    let mut cursor = Cursor::new();
    let parts = vec![text("1"), text("2"), text("3")];
    hydrigo::component::render_all(&parts, &mut cursor, &StyleSheet::new());
    assert_eq!(cursor.output(), "123");
    hydrigo::component::render_all(&Vec::new(), &mut cursor, &StyleSheet::new());
    assert_eq!(cursor.output(), "123");
}

#[test]
fn clone_all_copies_every_element_in_order() {
    let parts = vec![text("1"), Element::Group(vec![text("2")])];
    let mut copy = hydrigo::component::clone_all(&parts);
    assert_eq!(copy.len(), 2);
    copy.push(text("3"));
    let mut cursor = Cursor::new();
    hydrigo::component::render_all(&copy, &mut cursor, &StyleSheet::new());
    hydrigo::component::render_all(&parts, &mut cursor, &StyleSheet::new());
    assert_eq!(cursor.output(), "12312");
}
