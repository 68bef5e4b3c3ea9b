use hydrigo::cursor::Cursor;

#[test]
fn new_cursor_holds_nothing() {
    let cursor = Cursor::new();
    assert_eq!(cursor.output(), "");
    assert_eq!(Cursor::default().output(), "");
}

#[test]
fn writes_append_in_call_order() {
    let mut cursor = Cursor::new();
    cursor.write("one");
    cursor.write("");
    cursor.write(" two");
    cursor.write("\n三");
    assert_eq!(cursor.output(), "one two\n三");
}
