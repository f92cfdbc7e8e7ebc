use secure_chat::command::{is_white_space, parse_line, trim, Command};

fn sent(line: &str) -> (String, String, Option<String>) {
    match parse_line(line) {
        Command::Send { target, visible, hidden } => (target, visible, hidden),
        other => panic!("{:?}", other),
    }
}

fn parts(target: &str, visible: &str, hidden: Option<&str>) -> (String, String, Option<String>) {
    (target.to_string(), visible.to_string(), hidden.map(|h| h.to_string()))
}

#[test]
fn white_space_is_unicodes() {
    for n in 0..=0x10ffff {
        if let Some(c) = char::from_u32(n) {
            assert_eq!(is_white_space(c), c.is_whitespace());
        }
    }
}

#[test]
fn trimming_is_the_standard_librarys() {
    for text in ["", " ", "a", "  a b\t\n", "\u{3000}x\u{a0}", "\u{e9} \u{e9}", "\r\n\r\n"] {
        assert_eq!(trim(text), text.trim());
    }
}

#[test]
fn quit() {
    assert!(matches!(parse_line(":quit"), Command::Quit));
    assert!(matches!(parse_line("  :quit\r\n"), Command::Quit));
    assert!(matches!(parse_line(":quit now"), Command::Unknown));
}

#[test]
fn a_plain_message() {
    assert_eq!(sent("@bob hello there\n"), parts("bob", "hello there", None));
    assert_eq!(sent("  @bob   hello  "), parts("bob", "hello", None));
}

#[test]
fn a_name_may_be_empty_or_strange() {
    assert_eq!(sent("@ hello"), parts("", "hello", None));
    assert_eq!(sent("@\u{e9}\t@x y"), parts("\u{e9}\t@x", "y", None));
}

#[test]
fn a_message_with_a_hidden_part() {
    assert_eq!(sent("@bob !meet at 9pm> Let's catch up"), parts("bob", "Let's catch up", Some("meet at 9pm")));
    assert_eq!(sent("@bob !<meet> hi > there"), parts("bob", "hi > there", Some("<meet")));
    assert_eq!(sent("@bob !a>b"), parts("bob", "b", Some("a")));
}

#[test]
fn the_parts_may_be_empty() {
    assert_eq!(sent("@bob !>"), parts("bob", "", Some("")));
    assert_eq!(sent("@bob !9pm> \t\n"), parts("bob", "", Some("9pm")));
    assert_eq!(sent("@bob ! x >"), parts("bob", "", Some(" x ")));
}

#[test]
fn a_bang_elsewhere_hides_nothing() {
    assert_eq!(sent("@bob hey! >"), parts("bob", "hey! >", None));
}

#[test]
fn a_hidden_part_has_to_end() {
    assert!(matches!(parse_line("@bob !"), Command::HiddenSyntax));
    assert!(matches!(
        parse_line("@bob !meet at 9pm Let's catch up sometime"),
        Command::HiddenSyntax
    ));
}

#[test]
fn a_name_alone_is_no_message() {
    assert!(matches!(parse_line("@bob"), Command::Usage));
    assert!(matches!(parse_line("@bob   "), Command::Usage));
    assert!(matches!(parse_line("@"), Command::Usage));
    assert!(matches!(parse_line("@bob\thello"), Command::Usage));
}

#[test]
fn anything_else_is_unknown() {
    assert!(matches!(parse_line(""), Command::Unknown));
    assert!(matches!(parse_line("hello @bob"), Command::Unknown));
    assert!(matches!(parse_line(":Quit"), Command::Unknown));
}
