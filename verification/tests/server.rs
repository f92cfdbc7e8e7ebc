use secure_chat::client::Client;
use secure_chat::message::{Message, MessageKind, Payload, HIDDEN_FLAG};
use secure_chat::server::{
    can_log, connected_line, dropped_line, incoming_line, log_hidden, log_route, rejected_line,
    started_line, unread_line, unwritten_line, Directory,
};

fn message(kind: MessageKind, from: &str, to: &str, payload: Payload) -> Message {
    Message {
        kind,
        to: to.to_string(),
        from: from.to_string(),
        timestamp: 1,
        content: None,
        payload,
    }
}

fn register(from: &str) -> Message {
    message(MessageKind::System, from, "server", Payload::Empty)
}

#[test]
fn messages_go_to_who_is_registered() {
    let mut directory = Directory::new();
    assert_eq!(directory.route(&register("x")), None);
    assert!(directory.register(&register("alice"), 0));
    assert!(directory.register(&register("bob"), 1));
    let to_bob = message(MessageKind::Msg, "alice", "bob", Payload::Empty);
    let to_alice = message(MessageKind::Msg, "bob", "alice", Payload::Empty);
    let to_carol = message(MessageKind::Msg, "bob", "carol", Payload::Empty);
    assert_eq!(directory.route(&to_bob), Some(1));
    assert_eq!(directory.route(&to_alice), Some(0));
    assert_eq!(directory.route(&to_carol), None);
}

#[test]
fn the_last_registration_counts() {
    let mut directory = Directory::new();
    assert!(directory.register(&register("alice"), 0));
    assert!(directory.register(&register("bob"), 1));
    assert!(directory.register(&register("alice"), 2));
    assert_eq!(directory.route(&message(MessageKind::Pub, "", "alice", Payload::Empty)), Some(2));
    assert_eq!(directory.route(&message(MessageKind::Pub, "", "bob", Payload::Empty)), Some(1));
}

#[test]
fn nobody_registers_without_a_name() {
    let mut directory = Directory::new();
    assert!(!directory.register(&register(""), 0));
    assert_eq!(directory.route(&message(MessageKind::Pub, "a", "", Payload::Empty)), None);
    assert!(directory.register(&register(" "), 0));
}

#[test]
fn the_log_of_a_key() {
    let payload = Payload::PublicKey { hex_key: "0123456789abcdef".to_string() };
    let key = message(MessageKind::Pub, "alice", "bob", payload);
    assert_eq!(
        log_route(&key, "12:34:56"),
        "[12:34:56] [KEY] alice -> bob  (pub_key=0123456789ab...)"
    );
    assert_eq!(log_hidden(&key, "12:34:56"), None);
}

#[test]
fn the_log_of_a_chat_message() {
    let payload = Payload::Encrypted {
        nonce_hex: "0123456789abcdef".to_string(),
        cipher_hex: "fedc".to_string(),
    };
    let mut chat = message(MessageKind::Msg, "alice", "bob", payload);
    assert_eq!(
        log_route(&chat, "t"),
        "[t] [MSG] alice -> bob  (nonce=01234567... cipher=fedc...)"
    );
    assert_eq!(log_hidden(&chat, "t"), None);
    chat.timestamp |= HIDDEN_FLAG;
    assert_eq!(
        log_hidden(&chat, "t"),
        Some("[t] [HIDDEN] alice -> bob : <encrypted with DH key \u{2014} unreadable by server>".to_string())
    );
    chat.kind = MessageKind::System;
    assert_eq!(log_hidden(&chat, "t"), None);
}

#[test]
fn the_log_of_the_system() {
    assert_eq!(log_route(&register("alice"), "t"), "[t] [SYS] alice -> server  (empty)");
}

#[test]
fn characters_are_not_cut() {
    let even = Payload::PublicKey { hex_key: "\u{e9}".repeat(8) };
    assert!(can_log(&message(MessageKind::Pub, "a", "b", even.clone())));
    assert_eq!(
        log_route(&message(MessageKind::Pub, "a", "b", even), "t"),
        "[t] [KEY] a -> b  (pub_key=\u{e9}\u{e9}\u{e9}\u{e9}\u{e9}\u{e9}...)"
    );
    let odd = Payload::PublicKey { hex_key: format!("x{}", "\u{e9}".repeat(8)) };
    assert!(!can_log(&message(MessageKind::Pub, "a", "b", odd)));
    let short = Payload::PublicKey { hex_key: format!("x{}", "\u{e9}".repeat(5)) };
    assert!(can_log(&message(MessageKind::Pub, "a", "b", short)));
    let nonce = Payload::Encrypted {
        nonce_hex: "1234567\u{e9}".to_string(),
        cipher_hex: "".to_string(),
    };
    assert!(!can_log(&message(MessageKind::Msg, "a", "b", nonce)));
    let cipher = Payload::Encrypted {
        nonce_hex: "".to_string(),
        cipher_hex: "12345678901\u{e9}".to_string(),
    };
    assert!(!can_log(&message(MessageKind::Msg, "a", "b", cipher)));
    assert!(can_log(&register("a")));
}

#[test]
fn what_clients_send_can_be_logged() {
    let mut alice = Client::new("alice");
    assert!(can_log(&alice.registration(1)));
    assert!(can_log(&alice.begin_exchange("bob", [1; 32], 1)));
    let chat = alice.chat_message("bob", &[7; 32], "x", Some("y"), &[0; 8], 1);
    assert!(can_log(&chat));
    assert!(log_hidden(&chat, "t").is_some());
    let plain = alice.chat_message("bob", &[7; 32], "x", None, &[0; 8], 1);
    assert!(log_hidden(&plain, "t").is_none());
}

#[test]
fn lines_of_the_log() {
    let time = "01:02:03";
    assert_eq!(
        started_line("127.0.0.1:6000", time),
        "[01:02:03] Encrypted chat server running on 127.0.0.1:6000"
    );
    assert_eq!(
        incoming_line("127.0.0.1:9", time),
        "[01:02:03] Incoming connection from 127.0.0.1:9"
    );
    assert_eq!(
        unread_line("io error: ", time),
        "[01:02:03] Failed to read registration: io error: "
    );
    assert_eq!(rejected_line(time), "[01:02:03] Rejected connection with empty name");
    assert_eq!(connected_line("bob", time), "[01:02:03] 'bob' connected");
    assert_eq!(
        unwritten_line("bob", "broken pipe", time),
        "[01:02:03] Failed to write to 'bob': broken pipe"
    );
    assert_eq!(
        dropped_line("bob", time),
        "[01:02:03] 'bob' is not connected, message dropped"
    );
}
