use secure_chat::client::Client;
use secure_chat::display::{banner, menu, system_line, unsent_line};
use secure_chat::message::HIDDEN_FLAG;
use secure_chat::protocol::{Action, Event};

#[test]
fn the_menu() {
    assert_eq!(
        menu(),
        vec![
            "  Commands:",
            "    @name <message>           send an encrypted message",
            "    @name !<hidden> <visible>  send a message with an embedded hidden payload",
            "      e.g.  @bob !meet at 9pm Let's catch up sometime",
            "    :quit                     disconnect and exit",
            "",
        ]
    );
}

#[test]
fn the_banner() {
    assert_eq!(banner("alice", 3661), "  Secure Chat  |  connected as alice  |  01:01:01");
}

#[test]
fn lines_of_commands() {
    assert_eq!(Action::Quit.lines(0), vec!["Goodbye."]);
    assert_eq!(Action::Usage.lines(0), vec!["Usage: @name <message>  or  @name !<hidden> visible"]);
    assert_eq!(
        Action::HiddenSyntax.lines(0),
        vec!["Hidden syntax: @name !<hidden text> visible text"]
    );
    assert_eq!(Action::Unknown.lines(0), vec!["Unknown command. Use @name <message> or :quit"]);
}

#[test]
fn lines_of_an_exchange() {
    let request = Client::new("alice").registration(5);
    let action = Action::Exchange { target: "bob".to_string(), request };
    assert_eq!(
        action.lines(3661),
        vec![
            "[01:01:01] Initiating key exchange with bob...",
            "  Resend your message once the channel is established.",
        ]
    );
}

#[test]
fn lines_of_a_delivery() {
    let alice = Client::new("alice");
    let plain = Action::Deliver {
        target: "bob".to_string(),
        visible: "hello".to_string(),
        hidden: None,
        message: alice.chat_message("bob", &[0; 32], "hello", None, &[0; 8], 3661),
    };
    assert_eq!(plain.lines(0), vec!["[01:01:01] you -> bob: hello"]);
    let hidden = Action::Deliver {
        target: "bob".to_string(),
        visible: "hello".to_string(),
        hidden: Some("9pm".to_string()),
        message: alice.chat_message("bob", &[0; 32], "hello", Some("9pm"), &[0; 8], 3661),
    };
    assert_eq!(hidden.lines(0), vec!["[01:01:01] you -> bob [hidden: 9pm] [visible: hello]"]);
}

#[test]
fn lines_of_events() {
    let from = || "bob".to_string();
    let text = || "hello".to_string();
    let timestamp = 3661 | HIDDEN_FLAG;
    let none: Vec<String> = vec![];
    assert_eq!(Event::Ignored.lines(0), none);
    assert_eq!(Event::System.lines(0), none);
    assert_eq!(
        Event::Established { peer: from(), reply: None }.lines(3661),
        vec!["[01:01:01] Secure channel established with bob"]
    );
    assert_eq!(
        Event::NoKey { from: from() }.lines(3661),
        vec!["[01:01:01] No key for 'bob', message discarded"]
    );
    assert_eq!(
        Event::Text { from: from(), timestamp, text: text() }.lines(0),
        vec!["[01:01:01] bob: hello"]
    );
    assert_eq!(
        Event::TextAndHidden { from: from(), timestamp, text: text(), hidden: "9pm".to_string() }
            .lines(0),
        vec!["[01:01:01] bob: hello", "[01:01:01] *** hidden from bob: 9pm"]
    );
    assert_eq!(
        Event::HiddenFailed { from: from(), timestamp, text: text() }.lines(0),
        vec!["[01:01:01] bob: hello [hidden decode failed]"]
    );
}

#[test]
fn lines_beside_actions_and_events() {
    assert_eq!(unsent_line("broken pipe"), "Send failed: broken pipe");
    assert_eq!(system_line("Message", 3661), "[01:01:01] [system] Message");
}
