use secure_chat::message::{Message, MessageKind, Payload};
use secure_chat::wire::RecvError;

fn chat() -> Message {
    Message {
        kind: MessageKind::Msg,
        to: "bob".to_string(),
        from: "\u{e9}va".to_string(),
        timestamp: 0x0102_0304_0506_0708,
        content: Some("0058".to_string()),
        payload: Payload::Encrypted { nonce_hex: "00ff".to_string(), cipher_hex: "a".to_string() },
    }
}

fn key() -> Message {
    Message {
        kind: MessageKind::Pub,
        to: "a".to_string(),
        from: "".to_string(),
        timestamp: 1,
        content: None,
        payload: Payload::PublicKey { hex_key: "xy".to_string() },
    }
}

fn system() -> Message {
    Message {
        kind: MessageKind::System,
        to: "".to_string(),
        from: "".to_string(),
        timestamp: u64::MAX,
        content: Some("".to_string()),
        payload: Payload::Empty,
    }
}

fn same(a: &Message, b: &Message) -> bool {
    format!("{:?}", a) == format!("{:?}", b)
}

fn chat_body() -> Vec<u8> {
    let mut bytes = vec![1, 0, 0, 0];
    bytes.extend([3, 0, 0, 0, 0, 0, 0, 0, b'b', b'o', b'b']);
    bytes.extend([4, 0, 0, 0, 0, 0, 0, 0, 0xc3, 0xa9, b'v', b'a']);
    bytes.extend([8, 7, 6, 5, 4, 3, 2, 1]);
    bytes.extend([1, 4, 0, 0, 0, 0, 0, 0, 0, b'0', b'0', b'5', b'8']);
    bytes.extend([1, 0, 0, 0]);
    bytes.extend([4, 0, 0, 0, 0, 0, 0, 0, b'0', b'0', b'f', b'f']);
    bytes.extend([1, 0, 0, 0, 0, 0, 0, 0, b'a']);
    bytes
}

fn framed(body: &[u8]) -> Vec<u8> {
    let mut frame = (body.len() as u32).to_be_bytes().to_vec();
    frame.extend(body);
    frame
}

fn missing_of(received: Result<Message, RecvError>) -> usize {
    match received {
        Err(RecvError::UnexpectedEof { missing }) => missing,
        other => panic!("{:?}", other),
    }
}

fn cause_of(body: &[u8]) -> String {
    match Message::recv_from(&framed(body)) {
        Err(RecvError::Malformed { cause }) => cause.to_string(),
        other => panic!("{:?}", other),
    }
}

#[test]
fn a_chat_message_on_the_wire() {
    assert_eq!(chat().encode(), chat_body());
    assert_eq!(chat().send_to(), framed(&chat_body()));
    assert_eq!(chat().send_to()[..4], [0, 0, 0, 73]);
}

#[test]
fn a_key_message_on_the_wire() {
    let mut bytes = vec![0, 0, 0, 0];
    bytes.extend([1, 0, 0, 0, 0, 0, 0, 0, b'a']);
    bytes.extend([0, 0, 0, 0, 0, 0, 0, 0]);
    bytes.extend([1, 0, 0, 0, 0, 0, 0, 0]);
    bytes.extend([0]);
    bytes.extend([0, 0, 0, 0]);
    bytes.extend([2, 0, 0, 0, 0, 0, 0, 0, b'x', b'y']);
    assert_eq!(key().encode(), bytes);
}

#[test]
fn a_system_message_on_the_wire() {
    let mut bytes = vec![2, 0, 0, 0];
    bytes.extend([0, 0, 0, 0, 0, 0, 0, 0]);
    bytes.extend([0, 0, 0, 0, 0, 0, 0, 0]);
    bytes.extend([255, 255, 255, 255, 255, 255, 255, 255]);
    bytes.extend([1, 0, 0, 0, 0, 0, 0, 0, 0]);
    bytes.extend([2, 0, 0, 0]);
    assert_eq!(system().encode(), bytes);
}

#[test]
fn what_is_received_is_what_was_sent() {
    for message in [chat(), key(), system()] {
        let received = Message::recv_from(&message.send_to()).unwrap();
        assert!(same(&received, &message));
        assert_eq!(received.send_to(), message.send_to());
    }
}

#[test]
fn what_follows_a_frame_is_left_alone() {
    let mut bytes = chat().send_to();
    bytes.extend(key().send_to());
    assert!(same(&Message::recv_from(&bytes).unwrap(), &chat()));
}

#[test]
fn a_length_of_more_than_one_byte() {
    let mut long = key();
    long.to = "x".repeat(70000);
    let frame = long.send_to();
    let len = frame.len() - 4;
    assert_eq!(frame[..4], [0, 1, (len >> 8) as u8, len as u8]);
    assert!(same(&Message::recv_from(&frame).unwrap(), &long));
}

#[test]
fn a_part_of_a_frame_is_waited_for() {
    let frame = chat().send_to();
    for end in 0..frame.len() {
        let missing = if end < 4 { 4 - end } else { frame.len() - end };
        assert_eq!(missing_of(Message::recv_from(&frame[..end])), missing);
    }
}

#[test]
fn the_longest_frame_is_waited_for() {
    assert_eq!(missing_of(Message::recv_from(&[255, 255, 255, 255])), 0xffff_ffff);
}

#[test]
fn what_follows_a_message_in_its_frame_is_ignored() {
    let mut body = chat_body();
    body.extend([1, 2, 3]);
    assert!(same(&Message::recv_from(&framed(&body)).unwrap(), &chat()));
    assert!(same(&Message::decode(&body).unwrap(), &chat()));
}

#[test]
fn what_ends_early_is_malformed() {
    let body = chat_body();
    for end in 0..body.len() {
        assert!(cause_of(&body[..end]).starts_with("io error: "));
    }
    assert_eq!(cause_of(&[]), "io error: unexpected end of file");
    assert_eq!(cause_of(&body[..3]), "io error: unexpected end of file");
    assert_eq!(cause_of(&body[..7]), "io error: unexpected end of file");
    assert_eq!(cause_of(&body[..body.len() - 1]), "io error: ");
}

#[test]
fn an_unknown_kind_is_malformed() {
    let mut body = chat_body();
    body[0] = 3;
    let cause = "invalid value: integer `3`, expected variant index 0 <= i < 3";
    assert_eq!(cause_of(&body), cause);
    // The kind comes first, whatever else is wrong.
    assert_eq!(cause_of(&body[..4]), cause);
}

#[test]
fn an_unknown_payload_is_malformed() {
    let mut body = system().encode();
    let end = body.len();
    body[end - 2] = 1;
    assert_eq!(
        cause_of(&body),
        "invalid value: integer `65538`, expected variant index 0 <= i < 3"
    );
}

#[test]
fn a_bad_tag_is_malformed() {
    let mut body = key().encode();
    assert_eq!(body[29], 0);
    body[29] = 2;
    assert_eq!(cause_of(&body), "tag for enum is not valid, found 2");
    assert_eq!(
        Message::decode(&body).unwrap_err().to_string(),
        "tag for enum is not valid, found 2"
    );
}

#[test]
fn a_text_that_is_no_text_is_malformed() {
    let cause = "string is not valid utf8: invalid utf-8 sequence of 1 bytes from index 0";
    let mut body = chat_body();
    body[12] = 0xff;
    assert_eq!(cause_of(&body), cause);
    let mut body = chat_body();
    let end = body.len();
    body[end - 1] = 0xff;
    assert_eq!(cause_of(&body), cause);
}

#[test]
fn a_length_beyond_the_frame_is_malformed() {
    let mut body = chat_body();
    body[11] = 0xff;
    assert_eq!(cause_of(&body), "io error: ");
}
