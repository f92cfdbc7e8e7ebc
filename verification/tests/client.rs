use secure_chat::client::{tell_chat, Client};
use secure_chat::clock::unix_now;
use secure_chat::command::{parse_line, Command};
use secure_chat::keys::{random_nonce, random_secret};
use secure_chat::message::{Message, MessageKind, Payload, HIDDEN_FLAG};
use secure_chat::protocol::{Action, Event};
use x25519_dalek::{x25519, X25519_BASEPOINT_BYTES};

fn send(target: &str, visible: &str, hidden: Option<&str>) -> Command {
    Command::Send {
        target: target.to_string(),
        visible: visible.to_string(),
        hidden: hidden.map(|h| h.to_string()),
    }
}

fn request_of(action: Action) -> Message {
    match action {
        Action::Exchange { request, .. } => request,
        other => panic!("{:?}", other),
    }
}

fn message_of(action: Action) -> Message {
    match action {
        Action::Deliver { message, .. } => message,
        other => panic!("{:?}", other),
    }
}

fn reply_of(event: Event) -> Option<Message> {
    match event {
        Event::Established { reply, .. } => reply,
        other => panic!("{:?}", other),
    }
}

fn hex_key_of(message: &Message) -> String {
    match &message.payload {
        Payload::PublicKey { hex_key } => hex_key.clone(),
        other => panic!("{:?}", other),
    }
}

fn fields_of(message: &Message) -> (String, String) {
    match &message.payload {
        Payload::Encrypted { nonce_hex, cipher_hex } => (nonce_hex.clone(), cipher_hex.clone()),
        other => panic!("{:?}", other),
    }
}

fn connected() -> (Client, Client) {
    let mut alice = Client::new("alice");
    let mut bob = Client::new("bob");
    let request = request_of(alice.act(&send("bob", "x", None), [1; 32], [0; 8], 1));
    let reply = reply_of(bob.receive(&request, [2; 32], 2)).unwrap();
    assert!(reply_of(alice.receive(&reply, [3; 32], 3)).is_none());
    (alice, bob)
}

#[test]
fn a_name_is_trimmed() {
    assert_eq!(Client::new("  alice \n").name(), "alice");
    assert_eq!(Client::new("\n").name(), "");
}

#[test]
fn a_client_registers_with_the_server() {
    let message = Client::new("alice").registration(7);
    assert_eq!(message.kind, MessageKind::System);
    assert_eq!(message.to, "server");
    assert_eq!(message.from, "alice");
    assert_eq!(message.timestamp, 7);
    assert!(message.content.is_none());
    assert!(matches!(message.payload, Payload::Empty));
}

#[test]
fn the_public_key_is_the_base_point_times_the_secret() {
    let mut secret = [0; 32];
    secret[0] = 9;
    let request = Client::new("alice").begin_exchange("bob", secret, 5);
    assert_eq!(request.kind, MessageKind::Pub);
    assert_eq!(request.to, "bob");
    assert_eq!(request.from, "alice");
    assert_eq!(request.timestamp, 5);
    assert!(request.content.is_none());
    assert_eq!(
        hex_key_of(&request),
        "422c8e7a6227d7bca1350b3e2bb7279f7897b87bb6854b783c60e80311ae3079"
    );
    assert_eq!(hex_key_of(&request), hex::encode(x25519(secret, X25519_BASEPOINT_BYTES)));
}

#[test]
fn the_shared_key_of_the_standard() {
    let secret = [
        0xa5, 0x46, 0xe3, 0x6b, 0xf0, 0x52, 0x7c, 0x9d, 0x3b, 0x16, 0x15, 0x4b, 0x82, 0x46, 0x5e,
        0xdd, 0x62, 0x14, 0x4c, 0x0a, 0xc1, 0xfc, 0x5a, 0x18, 0x50, 0x6a, 0x22, 0x44, 0xba, 0x44,
        0x9a, 0xc4,
    ];
    let public = [
        0xe6, 0xdb, 0x68, 0x67, 0x58, 0x30, 0x30, 0xdb, 0x35, 0x94, 0xc1, 0xa4, 0x24, 0xb1, 0x5f,
        0x7c, 0x72, 0x66, 0x24, 0xec, 0x26, 0xb3, 0x35, 0x3b, 0x10, 0xa9, 0x03, 0xa6, 0xd0, 0xab,
        0x1c, 0x4c,
    ];
    let mut alice = Client::new("alice");
    assert!(alice.accept_key("bob", &public, secret, 1).is_some());
    // Zero bytes show the key that they are encrypted with.
    let zeros = "\0".repeat(32);
    let message = message_of(alice.act(&send("bob", &zeros, None), [0; 32], [0; 8], 2));
    assert_eq!(
        fields_of(&message).1,
        "c3da55379de9c6908e94ea4df28d084f32eccf03491c71f754b4075577a28552"
    );
}

#[test]
fn an_exchange_ends_with_one_key() {
    let mut alice = Client::new("alice");
    let mut bob = Client::new("bob");
    let request = request_of(alice.act(&send("bob", "x", None), [1; 32], [0; 8], 1));
    assert!(!alice.has_key("bob"));
    assert!(bob.can_receive(&request));
    let reply = reply_of(bob.receive(&request, [2; 32], 2)).unwrap();
    assert!(bob.has_key("alice"));
    assert_eq!(reply.kind, MessageKind::Pub);
    assert_eq!(reply.to, "alice");
    assert_eq!(reply.from, "bob");
    assert_eq!(reply.timestamp, 2);
    assert_eq!(hex_key_of(&reply), hex::encode(x25519([2; 32], X25519_BASEPOINT_BYTES)));
    assert!(reply_of(alice.receive(&reply, [3; 32], 3)).is_none());
    assert!(alice.has_key("bob"));

    let key = x25519([1; 32], x25519([2; 32], X25519_BASEPOINT_BYTES));
    let zeros = "\0".repeat(32);
    let from_alice = message_of(alice.act(&send("bob", &zeros, None), [0; 32], [0; 8], 4));
    let from_bob = message_of(bob.act(&send("alice", &zeros, None), [0; 32], [0; 8], 4));
    assert_eq!(fields_of(&from_alice).1, hex::encode(key));
    assert_eq!(fields_of(&from_bob).1, hex::encode(key));
}

#[test]
fn crossed_requests_end_with_one_key() {
    let mut alice = Client::new("alice");
    let mut bob = Client::new("bob");
    let to_bob = alice.begin_exchange("bob", [1; 32], 1);
    let to_alice = bob.begin_exchange("alice", [2; 32], 2);
    assert!(reply_of(alice.receive(&to_alice, [3; 32], 3)).is_none());
    assert!(reply_of(bob.receive(&to_bob, [4; 32], 4)).is_none());
    assert!(alice.has_key("bob") && bob.has_key("alice"));
    let zeros = "\0".repeat(32);
    let from_alice = message_of(alice.act(&send("bob", &zeros, None), [0; 32], [0; 8], 4));
    let from_bob = message_of(bob.act(&send("alice", &zeros, None), [0; 32], [0; 8], 4));
    assert_eq!(fields_of(&from_alice), fields_of(&from_bob));
    // Neither waits any more: another public key is answered.
    assert!(reply_of(alice.receive(&to_alice, [3; 32], 5)).is_some());
    assert!(reply_of(bob.receive(&to_bob, [4; 32], 6)).is_some());
}

#[test]
fn a_key_that_nobody_waits_for_is_answered_each_time() {
    let (mut alice, mut bob) = connected();
    let request = alice.begin_exchange("bob", [5; 32], 1);
    let reply = reply_of(bob.receive(&request, [6; 32], 2)).unwrap();
    assert_eq!(hex_key_of(&reply), hex::encode(x25519([6; 32], X25519_BASEPOINT_BYTES)));
    assert!(reply_of(alice.receive(&reply, [7; 32], 3)).is_none());
    assert!(reply_of(alice.receive(&reply, [7; 32], 3)).is_some());
}

#[test]
fn a_chat_message_is_encrypted_with_key_and_nonce() {
    let (mut alice, _) = connected();
    let key = x25519([1; 32], x25519([2; 32], X25519_BASEPOINT_BYTES));
    let nonce = [10, 20, 30, 40, 50, 60, 70, 80];
    let visible = "a text of more than forty bytes, so that the key repeats";
    let message = message_of(alice.act(&send("bob", visible, None), [0; 32], nonce, 99));
    let mut k = key.to_vec();
    k.extend(nonce);
    let cipher: Vec<u8> =
        visible.bytes().enumerate().map(|(i, b)| b ^ k[i % k.len()]).collect();
    assert_eq!(message.kind, MessageKind::Msg);
    assert_eq!(message.to, "bob");
    assert_eq!(message.from, "alice");
    assert_eq!(message.timestamp, 99);
    assert!(message.content.is_none());
    assert_eq!(fields_of(&message), ("0a141e28323c4650".to_string(), hex::encode(cipher)));
}

#[test]
fn a_hidden_text_goes_beside_the_message() {
    let (mut alice, _) = connected();
    let message = message_of(alice.act(&send("bob", "see you", Some("hi")), [0; 32], [0; 8], 99));
    assert_eq!(message.timestamp, 99 | HIDDEN_FLAG);
    assert_eq!(message.content, Some("0058".to_string()));
}

#[test]
fn what_is_sent_is_read() {
    let (mut alice, mut bob) = connected();
    let message = message_of(alice.act(&send("bob", "gr\u{fc}\u{df} dich", None), [0; 32], [9; 8], 50));
    match bob.receive(&message, [8; 32], 60) {
        Event::Text { from, timestamp, text } => {
            assert_eq!((from.as_str(), timestamp, text.as_str()), ("alice", 50, "gr\u{fc}\u{df} dich"));
        }
        other => panic!("{:?}", other),
    }
    let secret = message_of(alice.act(&send("bob", "", Some("9pm")), [0; 32], [9; 8], 50));
    match bob.receive(&secret, [8; 32], 60) {
        Event::TextAndHidden { from, timestamp, text, hidden } => {
            assert_eq!((from.as_str(), timestamp), ("alice", 50 | HIDDEN_FLAG));
            assert_eq!((text.as_str(), hidden.as_str()), ("", "9pm"));
        }
        other => panic!("{:?}", other),
    }
}

#[test]
fn without_a_key_nothing_is_read() {
    let (mut alice, _) = connected();
    let mut carol = Client::new("carol");
    let message = message_of(alice.act(&send("bob", "hello", None), [0; 32], [9; 8], 50));
    assert!(matches!(carol.receive(&message, [8; 32], 60), Event::NoKey { from } if from == "alice"));
}

#[test]
fn bytes_that_are_no_text_are_replaced() {
    let (mut alice, mut bob) = connected();
    let mut message = message_of(alice.act(&send("bob", "ab", None), [0; 32], [0; 8], 50));
    let (nonce_hex, cipher_hex) = fields_of(&message);
    let mut cipher = hex::decode(cipher_hex).unwrap();
    cipher[0] ^= b'a' ^ 0xff;
    message.payload = Payload::Encrypted { nonce_hex, cipher_hex: hex::encode(cipher) };
    assert!(matches!(bob.receive(&message, [8; 32], 60), Event::Text { text, .. } if text == "\u{fffd}b"));
}

#[test]
fn a_hidden_text_at_a_time_with_the_top_bit() {
    let (mut alice, mut bob) = connected();
    let sent = HIDDEN_FLAG | 50;
    let message = message_of(alice.act(&send("bob", "hello", Some("9pm")), [0; 32], [9; 8], sent));
    match bob.receive(&message, [0; 32], 60) {
        Event::TextAndHidden { timestamp, text, hidden, .. } => {
            assert_eq!((timestamp, text.as_str(), hidden.as_str()), (sent, "hello", "9pm"));
        }
        other => panic!("{:?}", other),
    }
}

#[test]
fn a_hidden_text_that_cannot_be_read() {
    let (mut alice, mut bob) = connected();
    let mut message = message_of(alice.act(&send("bob", "hello", Some("hi")), [0; 32], [9; 8], 50));
    message.content = Some("0".to_string());
    assert!(matches!(bob.receive(&message, [8; 32], 60), Event::HiddenFailed { text, .. } if text == "hello"));
}

#[test]
fn an_announced_text_that_is_not_there() {
    let (mut alice, mut bob) = connected();
    let mut message = message_of(alice.act(&send("bob", "hello", Some("hi")), [0; 32], [9; 8], 50));
    message.content = None;
    assert!(matches!(bob.receive(&message, [8; 32], 60), Event::Ignored));
}

#[test]
fn content_without_the_flag_is_not_read() {
    let (mut alice, mut bob) = connected();
    let mut message = message_of(alice.act(&send("bob", "hello", None), [0; 32], [9; 8], 50));
    message.content = Some("0058".to_string());
    assert!(matches!(bob.receive(&message, [8; 32], 60), Event::Text { text, .. } if text == "hello"));
}

#[test]
fn a_decrypted_text_is_told_as_it_is() {
    let message = Client::new("alice").chat_message("bob", &[0; 32], "x", Some("hi"), &[0; 8], 3);
    assert!(matches!(
        tell_chat(&message, "text".to_string()),
        Event::TextAndHidden { text, hidden, .. } if text == "text" && hidden == "hi"
    ));
}

#[test]
fn a_kind_without_its_payload_is_ignored() {
    let (mut alice, mut bob) = connected();
    let mut message = message_of(alice.act(&send("bob", "hello", None), [0; 32], [9; 8], 50));
    message.kind = MessageKind::Pub;
    assert!(matches!(bob.receive(&message, [8; 32], 60), Event::Ignored));
    message.kind = MessageKind::System;
    assert!(matches!(bob.receive(&message, [8; 32], 60), Event::System));
    let mut request = alice.begin_exchange("carol", [4; 32], 1);
    request.kind = MessageKind::Msg;
    assert!(matches!(bob.receive(&request, [8; 32], 60), Event::Ignored));
}

#[test]
fn what_can_be_received() {
    let (mut alice, bob) = connected();
    let carol = Client::new("carol");
    let mut request = alice.begin_exchange("dave", [4; 32], 1);
    assert!(carol.can_receive(&request));
    for bad in ["", "0", "zz", "00"] {
        request.payload = Payload::PublicKey { hex_key: bad.to_string() };
        assert!(!carol.can_receive(&request));
    }
    request.payload = Payload::PublicKey { hex_key: "AB".repeat(32) };
    assert!(carol.can_receive(&request));
    request.payload = Payload::PublicKey { hex_key: "ab".repeat(33) };
    assert!(!carol.can_receive(&request));

    let mut message = message_of(alice.act(&send("bob", "hello", None), [0; 32], [9; 8], 50));
    assert!(bob.can_receive(&message));
    message.payload = Payload::Encrypted { nonce_hex: "0".to_string(), cipher_hex: "00".to_string() };
    assert!(!bob.can_receive(&message));
    message.payload = Payload::Encrypted { nonce_hex: "00".to_string(), cipher_hex: "x".to_string() };
    assert!(!bob.can_receive(&message));
    // Whoever shares no key with the sender does not look at the fields.
    assert!(carol.can_receive(&message));
}

#[test]
fn commands_that_send_nothing() {
    let mut alice = Client::new("alice");
    assert!(matches!(alice.act(&parse_line(":quit"), [0; 32], [0; 8], 0), Action::Quit));
    assert!(matches!(alice.act(&parse_line("@bob"), [0; 32], [0; 8], 0), Action::Usage));
    assert!(matches!(alice.act(&parse_line("@bob !x"), [0; 32], [0; 8], 0), Action::HiddenSyntax));
    assert!(matches!(alice.act(&parse_line("hello"), [0; 32], [0; 8], 0), Action::Unknown));
}

#[test]
fn lines_and_messages_of_two_clients() {
    let mut alice = Client::new("alice");
    let mut bob = Client::new("bob");
    assert!(matches!(alice.on_line(":quit"), Some(Action::Quit)));
    let request = request_of(alice.on_line("@bob hello").unwrap());
    let reply = reply_of(bob.on_message(&request).unwrap()).unwrap();
    assert!(reply_of(alice.on_message(&reply).unwrap()).is_none());
    let message = message_of(alice.on_line("@bob !9pm> see you").unwrap());
    match bob.on_message(&message).unwrap() {
        Event::TextAndHidden { text, hidden, .. } => {
            assert_eq!((text.as_str(), hidden.as_str()), ("see you", "9pm"));
        }
        other => panic!("{:?}", other),
    }
}

#[test]
fn lines_and_messages_are_answered_at_the_present_time() {
    let mut alice = Client::new("alice");
    let mut bob = Client::new("bob");
    let before = unix_now().unwrap();
    let request = request_of(alice.on_line("@bob hello").unwrap());
    let reply = reply_of(bob.on_message(&request).unwrap()).unwrap();
    alice.on_message(&reply).unwrap();
    let message = message_of(alice.on_line("@bob hello").unwrap());
    let after = unix_now().unwrap();
    let times = [before, request.timestamp, reply.timestamp, message.timestamp, after];
    assert!(times.windows(2).all(|pair| pair[0] <= pair[1]));
}

#[test]
fn every_line_has_a_secret_of_its_own() {
    let mut alice = Client::new("alice");
    let first = request_of(alice.on_line("@bob hello").unwrap());
    let second = request_of(alice.on_line("@bob hello").unwrap());
    assert_ne!(hex_key_of(&first), hex_key_of(&second));
}

#[test]
fn random_numbers_differ() {
    assert_ne!(random_secret(), random_secret());
    assert_ne!(random_nonce(), random_nonce());
    assert_ne!(random_secret(), [0; 32]);
}

#[test]
fn an_exchange_leaves_other_keys_alone() {
    let (mut alice, mut bob) = connected();
    let mut carol = Client::new("carol");
    let before = message_of(alice.act(&send("bob", "hello", None), [0; 32], [9; 8], 50));
    let request = request_of(alice.act(&send("carol", "x", None), [5; 32], [0; 8], 1));
    let reply = reply_of(carol.receive(&request, [6; 32], 2)).unwrap();
    assert!(reply_of(alice.receive(&reply, [7; 32], 3)).is_none());
    let after = message_of(alice.act(&send("bob", "hello", None), [0; 32], [9; 8], 50));
    assert_eq!(fields_of(&before), fields_of(&after));
    assert!(matches!(bob.receive(&after, [8; 32], 60), Event::Text { text, .. } if text == "hello"));
}

#[test]
fn a_stored_key_is_used() {
    let mut alice = Client::new("alice");
    alice.begin_exchange("bob", [1; 32], 1);
    alice.store_key("bob", [0x20; 32]);
    let message = message_of(alice.act(&send("bob", "AB", None), [0; 32], [0; 8], 4));
    assert_eq!(fields_of(&message).1, "6162");
    // The exchange is over: another public key is answered.
    assert!(alice.accept_key("bob", &[9; 32], [2; 32], 5).is_some());
}
