use ci_worker::paint::Marks;

#[test]
fn marks_follow_the_colour_switch() {
    colored::control::set_override(true);
    let coloured = Marks::current();
    assert_eq!(coloured.failure, "\u{1b}[31m\u{274c}\u{1b}[0m");
    assert_eq!(coloured.command, "\u{1b}[34m\u{1f5a5}\u{fe0f}\u{1b}[0m");
    colored::control::set_override(false);
    let bare = Marks::current();
    assert_eq!(bare, Marks::plain());
    colored::control::unset_override();
    let either = Marks::current();
    assert!(either == coloured || either == bare);
}
