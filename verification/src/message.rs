//! What clients and server say to each other.

use vstd::prelude::*;

verus! {

/// Bit 63 of a timestamp: set on a message that carries a hidden payload.
pub const HIDDEN_FLAG: u64 = 0x8000_0000_0000_0000;

/// What a message is about.
#[derive(Debug, Clone, Copy, PartialEq, Eq, Structural)]
pub enum MessageKind {
    /// A public key.
    Pub,
    /// An encrypted chat message.
    Msg,
    /// Housekeeping, such as a registration.
    System,
}

/// What a message carries.
#[derive(Debug, Clone)]
pub enum Payload {
    PublicKey { hex_key: String },
    Encrypted { nonce_hex: String, cipher_hex: String },
    Empty,
}

/// A message as it travels between two clients.
#[derive(Debug, Clone)]
pub struct Message {
    pub kind: MessageKind,
    pub to: String,
    pub from: String,
    pub timestamp: u64,
    /// The encoded hidden payload, where there is one.
    pub content: Option<String>,
    pub payload: Payload,
}

/// The mathematical value of a [`Payload`].
#[verifier::ext_equal]
pub enum PayloadView {
    PublicKey { hex_key: Seq<char> },
    Encrypted { nonce_hex: Seq<char>, cipher_hex: Seq<char> },
    Empty,
}

/// The mathematical value of a [`Message`].
#[verifier::ext_equal]
pub struct MessageView {
    pub kind: MessageKind,
    pub to: Seq<char>,
    pub from: Seq<char>,
    pub timestamp: u64,
    pub content: Option<Seq<char>>,
    pub payload: PayloadView,
}

/// The text of an optional string.
pub open spec fn text_of(s: Option<String>) -> Option<Seq<char>> {
    match s {
        Some(t) => Some(t@),
        None => None,
    }
}

/// The text of an optional string slice.
pub open spec fn slice_text_of(s: Option<&str>) -> Option<Seq<char>> {
    match s {
        Some(t) => Some(t@),
        None => None,
    }
}

impl View for Payload {
    type V = PayloadView;

    open spec fn view(&self) -> PayloadView {
        match *self {
            Payload::PublicKey { hex_key } => PayloadView::PublicKey { hex_key: hex_key@ },
            Payload::Encrypted { nonce_hex, cipher_hex } => PayloadView::Encrypted {
                nonce_hex: nonce_hex@,
                cipher_hex: cipher_hex@,
            },
            Payload::Empty => PayloadView::Empty,
        }
    }
}

impl View for Message {
    type V = MessageView;

    open spec fn view(&self) -> MessageView {
        MessageView {
            kind: self.kind,
            to: self.to@,
            from: self.from@,
            timestamp: self.timestamp,
            content: text_of(self.content),
            payload: self.payload@,
        }
    }
}

/// A timestamp announces a hidden payload when its top bit is set.
pub open spec fn is_flagged(timestamp: u64) -> bool {
    timestamp >= HIDDEN_FLAG
}

/// Whether the sentinel bit of a timestamp is set.
pub fn has_hidden_flag(timestamp: u64) -> (flagged: bool)
    ensures
        flagged == is_flagged(timestamp),
{
    assert((timestamp & 0x8000_0000_0000_0000 != 0) == (timestamp >= 0x8000_0000_0000_0000))
        by (bit_vector);
    timestamp & HIDDEN_FLAG != 0
}

/// A timestamp is flagged exactly when its top bit is set.
pub proof fn flag_is_top_bit(timestamp: u64)
    ensures
        is_flagged(timestamp) <==> timestamp & (1u64 << 63) != 0,
{
    assert((timestamp & (1u64 << 63) != 0) == (timestamp >= 0x8000_0000_0000_0000u64))
        by (bit_vector);
}

/// The value of a message holds each of its fields.
pub proof fn message_fields(message: Message)
    ensures
        message@.kind == message.kind,
        message@.to == message.to@,
        message@.from == message.from@,
        message@.timestamp == message.timestamp,
        message.content is None ==> message@.content is None,
        message.content matches Some(c) ==> message@.content == Some(c@),
        message.payload matches Payload::PublicKey { hex_key } ==> message@.payload == (
        PayloadView::PublicKey { hex_key: hex_key@ }),
        message.payload matches Payload::Encrypted { nonce_hex, cipher_hex } ==> message@.payload
            == (PayloadView::Encrypted { nonce_hex: nonce_hex@, cipher_hex: cipher_hex@ }),
        message.payload is Empty ==> message@.payload == PayloadView::Empty,
{
}

} // verus!
