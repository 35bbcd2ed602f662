use gnome_class_gen::names::Identifier;

#[test]
fn text_is_read_back() {
    for text in ["Counter", "", "x", "\u{c9}tat", "with blank"] {
        assert_eq!(Identifier::new(text).text(), text);
    }
}

#[test]
fn names_do_not_disturb_each_other() {
    let first = Identifier::new("first");
    let second = Identifier::new("second");
    let again = Identifier::new("first");
    assert_eq!(first.text(), "first");
    assert_eq!(second.text(), "second");
    assert_eq!(again.text(), "first");
    let copy = second;
    assert_eq!(copy.text(), second.text());
}
