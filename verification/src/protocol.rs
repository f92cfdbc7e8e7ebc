//! The protocol between clients: what a client does on a command and on a
//! message, as functions of its state.

use crate::cipher::{hidden_code, hidden_text, lossy_text, xor_bytes};
use crate::command::CommandView;
use crate::hexadecimal::{hex_bytes, hex_text, is_hex};
use crate::keys::{exchange_agrees, x25519_public, x25519_shared};
use crate::message::{
    is_flagged, text_of, Message, MessageKind, MessageView, PayloadView, HIDDEN_FLAG,
};
use vstd::prelude::*;
use vstd::utf8::encode_utf8;

verus! {

/// The mathematical value of a [`Client`](crate::client::Client).
#[verifier::ext_equal]
pub struct ClientView {
    pub name: Seq<char>,
    pub pending: Map<Seq<char>, Seq<u8>>,
    pub shared: Map<Seq<char>, Seq<u8>>,
}

impl ClientView {
    /// Secrets and keys have thirty-two bytes.
    pub open spec fn wf(self) -> bool {
        &&& forall|peer: Seq<char>| #[trigger]
            self.pending.contains_key(peer) ==> self.pending[peer].len() == 32
        &&& forall|peer: Seq<char>| #[trigger]
            self.shared.contains_key(peer) ==> self.shared[peer].len() == 32
    }

    /// The client once it shares a key with `peer`.
    pub open spec fn with_key(self, peer: Seq<char>, key: Seq<u8>) -> ClientView {
        ClientView { shared: self.shared.insert(peer, key), ..self }
    }

    /// The client while it waits for `peer`'s public key.
    pub open spec fn with_pending(self, peer: Seq<char>, secret: Seq<u8>) -> ClientView {
        ClientView { pending: self.pending.insert(peer, secret), ..self }
    }

    /// The client once it waits for `peer`'s public key no more.
    pub open spec fn without_pending(self, peer: Seq<char>) -> ClientView {
        ClientView { pending: self.pending.remove(peer), ..self }
    }
}

/// The first message of a client, by which the server learns its name.
pub open spec fn registration_message(name: Seq<char>, now: u64) -> MessageView {
    MessageView {
        kind: MessageKind::System,
        to: "server"@,
        from: name,
        timestamp: now,
        content: None,
        payload: PayloadView::Empty,
    }
}

/// The message that carries a public key.
pub open spec fn key_message(
    name: Seq<char>,
    to: Seq<char>,
    public: Seq<u8>,
    now: u64,
) -> MessageView {
    MessageView {
        kind: MessageKind::Pub,
        to,
        from: name,
        timestamp: now,
        content: None,
        payload: PayloadView::PublicKey { hex_key: hex_text(public) },
    }
}

/// A time with the sentinel bit set.
pub open spec fn flagged(time: u64) -> u64 {
    if time < HIDDEN_FLAG {
        (time + HIDDEN_FLAG) as u64
    } else {
        time
    }
}

/// A chat message: the visible text is encrypted under the shared key and the
/// nonce, and a hidden text goes beside it, announced by the sentinel bit.
pub open spec fn chat_message(
    name: Seq<char>,
    to: Seq<char>,
    key: Seq<u8>,
    visible: Seq<char>,
    hidden: Option<Seq<char>>,
    nonce: Seq<u8>,
    now: u64,
) -> MessageView {
    MessageView {
        kind: MessageKind::Msg,
        to,
        from: name,
        timestamp: if hidden is Some {
            flagged(now)
        } else {
            now
        },
        content: match hidden {
            Some(text) => Some(hidden_code(text)),
            None => None,
        },
        payload: PayloadView::Encrypted {
            nonce_hex: hex_text(nonce),
            cipher_hex: hex_text(xor_bytes(encode_utf8(visible), key + nonce)),
        },
    }
}

/// What is to be done on a command.
#[derive(Debug, Clone)]
pub enum Action {
    Quit,
    Usage,
    HiddenSyntax,
    Unknown,
    /// There is no key yet: send the request, and let the user try again.
    Exchange { target: String, request: Message },
    /// Send the message.
    Deliver { target: String, visible: String, hidden: Option<String>, message: Message },
}

/// The mathematical value of an [`Action`].
#[verifier::ext_equal]
pub enum ActionView {
    Quit,
    Usage,
    HiddenSyntax,
    Unknown,
    Exchange { target: Seq<char>, request: MessageView },
    Deliver {
        target: Seq<char>,
        visible: Seq<char>,
        hidden: Option<Seq<char>>,
        message: MessageView,
    },
}

impl View for Action {
    type V = ActionView;

    open spec fn view(&self) -> ActionView {
        match *self {
            Action::Quit => ActionView::Quit,
            Action::Usage => ActionView::Usage,
            Action::HiddenSyntax => ActionView::HiddenSyntax,
            Action::Unknown => ActionView::Unknown,
            Action::Exchange { target, request } => ActionView::Exchange {
                target: target@,
                request: request@,
            },
            Action::Deliver { target, visible, hidden, message } => ActionView::Deliver {
                target: target@,
                visible: visible@,
                hidden: text_of(hidden),
                message: message@,
            },
        }
    }
}

/// What a client does on a command, with a fresh secret and nonce at a time.
pub open spec fn acted(
    client: ClientView,
    command: CommandView,
    secret: Seq<u8>,
    nonce: Seq<u8>,
    now: u64,
) -> (ClientView, ActionView) {
    match command {
        CommandView::Quit => (client, ActionView::Quit),
        CommandView::Usage => (client, ActionView::Usage),
        CommandView::HiddenSyntax => (client, ActionView::HiddenSyntax),
        CommandView::Unknown => (client, ActionView::Unknown),
        CommandView::Send { target, visible, hidden } => if client.shared.contains_key(target) {
            (
                client,
                ActionView::Deliver {
                    target,
                    visible,
                    hidden,
                    message: chat_message(
                        client.name,
                        target,
                        client.shared[target],
                        visible,
                        hidden,
                        nonce,
                        now,
                    ),
                },
            )
        } else {
            (
                client.with_pending(target, secret),
                ActionView::Exchange {
                    target,
                    request: key_message(client.name, target, x25519_public(secret), now),
                },
            )
        },
    }
}

/// What has happened on a message.
#[derive(Debug, Clone)]
pub enum Event {
    /// Nothing to tell.
    Ignored,
    /// A key is shared with a peer, who is owed the reply where there is one.
    Established { peer: String, reply: Option<Message> },
    /// A chat message came from someone with whom no key is shared.
    NoKey { from: String },
    /// A chat message.
    Text { from: String, timestamp: u64, text: String },
    /// A chat message and the text that was hidden beside it.
    TextAndHidden { from: String, timestamp: u64, text: String, hidden: String },
    /// A chat message whose hidden text cannot be read.
    HiddenFailed { from: String, timestamp: u64, text: String },
    /// A message of the system.
    System,
}

/// The mathematical value of an [`Event`].
#[verifier::ext_equal]
pub enum EventView {
    Ignored,
    Established { peer: Seq<char>, reply: Option<MessageView> },
    NoKey { from: Seq<char> },
    Text { from: Seq<char>, timestamp: u64, text: Seq<char> },
    TextAndHidden { from: Seq<char>, timestamp: u64, text: Seq<char>, hidden: Seq<char> },
    HiddenFailed { from: Seq<char>, timestamp: u64, text: Seq<char> },
    System,
}

impl View for Event {
    type V = EventView;

    open spec fn view(&self) -> EventView {
        match *self {
            Event::Ignored => EventView::Ignored,
            Event::Established { peer, reply } => EventView::Established {
                peer: peer@,
                reply: match reply {
                    Some(message) => Some(message@),
                    None => None,
                },
            },
            Event::NoKey { from } => EventView::NoKey { from: from@ },
            Event::Text { from, timestamp, text } => EventView::Text {
                from: from@,
                timestamp,
                text: text@,
            },
            Event::TextAndHidden { from, timestamp, text, hidden } => EventView::TextAndHidden {
                from: from@,
                timestamp,
                text: text@,
                hidden: hidden@,
            },
            Event::HiddenFailed { from, timestamp, text } => EventView::HiddenFailed {
                from: from@,
                timestamp,
                text: text@,
            },
            Event::System => EventView::System,
        }
    }
}

/// What a chat message tells whose visible text has been decrypted. One that
/// announces a hidden text and carries none tells nothing.
pub open spec fn chat_event(
    from: Seq<char>,
    timestamp: u64,
    content: Option<Seq<char>>,
    text: Seq<char>,
) -> EventView {
    if !is_flagged(timestamp) {
        EventView::Text { from, timestamp, text }
    } else {
        match content {
            None => EventView::Ignored,
            Some(code) => match hidden_text(code) {
                Some(hidden) => EventView::TextAndHidden { from, timestamp, text, hidden },
                None => EventView::HiddenFailed { from, timestamp, text },
            },
        }
    }
}

/// The visible text of an encrypted payload, under a key.
pub open spec fn visible_text(
    key: Seq<u8>,
    nonce_hex: Seq<char>,
    cipher_hex: Seq<char>,
) -> Seq<char> {
    lossy_text(xor_bytes(hex_bytes(cipher_hex), key + hex_bytes(nonce_hex)))
}

/// A public key is thirty-two bytes in hexadecimal; and what a message holds
/// that is to be decrypted is hexadecimal.
pub open spec fn receivable(client: ClientView, message: MessageView) -> bool {
    match (message.kind, message.payload) {
        (MessageKind::Pub, PayloadView::PublicKey { hex_key }) => {
            is_hex(hex_key) && hex_bytes(hex_key).len() == 32
        },
        (MessageKind::Msg, PayloadView::Encrypted { nonce_hex, cipher_hex }) => {
            client.shared.contains_key(message.from) ==> is_hex(nonce_hex) && is_hex(cipher_hex)
        },
        _ => true,
    }
}

/// The secret that answers a peer's public key: the one that waits for it,
/// or else a fresh one.
pub open spec fn own_secret(client: ClientView, peer: Seq<char>, fresh: Seq<u8>) -> Seq<u8> {
    if client.pending.contains_key(peer) {
        client.pending[peer]
    } else {
        fresh
    }
}

/// Whether the sender of a message is owed a reply: it carries a public key,
/// and no secret waits for that key.
pub open spec fn owes_reply(client: ClientView, message: MessageView) -> bool {
    &&& message.kind == MessageKind::Pub
    &&& message.payload is PublicKey
    &&& !client.pending.contains_key(message.from)
}

/// Where a message carries the public key of a secret, whoever holds that
/// secret computes the key that the client does.
pub open spec fn key_agreed(client: ClientView, message: MessageView, fresh: Seq<u8>) -> bool {
    match (message.kind, message.payload) {
        (MessageKind::Pub, PayloadView::PublicKey { hex_key }) => forall|theirs: Seq<u8>|
            theirs.len() == 32 && hex_bytes(hex_key) == #[trigger] x25519_public(theirs)
                ==> exchange_agrees(own_secret(client, message.from, fresh), theirs),
        _ => true,
    }
}

/// What happens on a message, with a fresh secret at a time.
pub open spec fn received(
    client: ClientView,
    message: MessageView,
    fresh: Seq<u8>,
    now: u64,
) -> (ClientView, EventView) {
    let from = message.from;
    match (message.kind, message.payload) {
        (MessageKind::Pub, PayloadView::PublicKey { hex_key }) => {
            let own = own_secret(client, from, fresh);
            let reply = if client.pending.contains_key(from) {
                None
            } else {
                Some(key_message(client.name, from, x25519_public(own), now))
            };
            (
                client.without_pending(from).with_key(from, x25519_shared(own, hex_bytes(hex_key))),
                EventView::Established { peer: from, reply },
            )
        },
        (MessageKind::Msg, PayloadView::Encrypted { nonce_hex, cipher_hex }) => {
            if client.shared.contains_key(from) {
                let text = visible_text(client.shared[from], nonce_hex, cipher_hex);
                (client, chat_event(from, message.timestamp, message.content, text))
            } else {
                (client, EventView::NoKey { from })
            }
        },
        (MessageKind::System, _) => (client, EventView::System),
        _ => (client, EventView::Ignored),
    }
}

} // verus!
