//! A client: its keys, and its part in the protocol.

use crate::cipher::{decode_hidden, encode_hidden, from_utf8_lossy, xor_cipher};
use crate::clock::{clock_tells, unix_now};
use crate::command::{command_of, parse_line, trim, trimmed, Command};
use crate::hexadecimal::{hex_bytes, hex_decode, hex_encode, is_hex};
use crate::keys::{
    diffie_hellman, exchange_agrees, is_drawn, public_key, random_nonce, random_secret, x25519_public,
    x25519_shared,
};
use crate::message::{
    has_hidden_flag, slice_text_of, Message, MessageKind, Payload, HIDDEN_FLAG,
};
use crate::protocol::{
    acted, chat_event, chat_message, key_agreed, key_message, own_secret, owes_reply, receivable,
    received, registration_message, Action, ClientView, Event,
};
use vstd::hash_map::StringHashMap;
use vstd::prelude::*;
use vstd::string::StringExecFns;

verus! {

/// A client, with the keys that it shares and those that it waits for.
pub struct Client {
    name: String,
    /// The secrets of the exchanges that wait for the other side.
    pending: StringHashMap<[u8; 32]>,
    /// The keys that are shared with others.
    shared: StringHashMap<[u8; 32]>,
}

/// The bytes of the keys in a map.
spec fn key_bytes(keys: Map<Seq<char>, [u8; 32]>) -> Map<Seq<char>, Seq<u8>> {
    keys.map_values(|key: [u8; 32]| key@)
}

impl View for Client {
    type V = ClientView;

    closed spec fn view(&self) -> ClientView {
        ClientView {
            name: self.name@,
            pending: key_bytes(self.pending@),
            shared: key_bytes(self.shared@),
        }
    }
}

/// Bytes behind other bytes.
fn join(a: &[u8], b: &[u8]) -> (joined: Vec<u8>)
    ensures
        joined@ == a@ + b@,
{
    let mut joined: Vec<u8> = Vec::new();
    joined.extend_from_slice(a);
    joined.extend_from_slice(b);
    assert(joined@ =~= a@ + b@);
    joined
}

/// Thirty-two bytes as an array.
fn to_key(bytes: &Vec<u8>) -> (key: Option<[u8; 32]>)
    ensures
        match key {
            Some(k) => k@ == bytes@,
            None => bytes@.len() != 32,
        },
{
    if bytes.len() != 32 {
        return None;
    }
    let mut key: [u8; 32] = [0u8; 32];
    let mut i: usize = 0;
    while i < 32
        invariant
            i <= 32,
            bytes@.len() == 32,
            forall|j: int| 0 <= j < i ==> key@[j] == bytes@[j],
        decreases 32 - i,
    {
        key[i] = bytes[i];
        i += 1;
    }
    assert(key@ =~= bytes@);
    Some(key)
}

/// The public key that a payload holds.
fn parse_key(hex_key: &str) -> (key: Option<[u8; 32]>)
    ensures
        match key {
            Some(k) => is_hex(hex_key@) && k@ == hex_bytes(hex_key@),
            None => !(is_hex(hex_key@) && hex_bytes(hex_key@).len() == 32),
        },
{
    match hex_decode(hex_key) {
        Ok(bytes) => to_key(&bytes),
        Err(_) => None,
    }
}

/// The keys of a map once one is put in.
proof fn key_bytes_insert(keys: Map<Seq<char>, [u8; 32]>, peer: Seq<char>, key: [u8; 32])
    ensures
        key_bytes(keys.insert(peer, key)) == key_bytes(keys).insert(peer, key@),
{
    assert(key_bytes(keys.insert(peer, key)) =~= key_bytes(keys).insert(peer, key@));
}

/// The keys of a map once one is taken out.
proof fn key_bytes_remove(keys: Map<Seq<char>, [u8; 32]>, peer: Seq<char>)
    ensures
        key_bytes(keys.remove(peer)) == key_bytes(keys).remove(peer),
{
    assert(key_bytes(keys.remove(peer)) =~= key_bytes(keys).remove(peer));
}

impl Client {
    /// A client that shares no keys yet, under the name that its user typed.
    pub fn new(typed_name: &str) -> (client: Client)
        ensures
            client@ == (ClientView {
                name: trimmed(typed_name@),
                pending: Map::empty(),
                shared: Map::empty(),
            }),
            client@.wf(),
    {
        let client = Client {
            name: String::from_str(trim(typed_name)),
            pending: StringHashMap::new(),
            shared: StringHashMap::new(),
        };
        assert(client@.pending =~= Map::empty());
        assert(client@.shared =~= Map::empty());
        client
    }

    /// The client's name.
    pub fn name(&self) -> (name: &str)
        ensures
            name@ == self@.name,
    {
        self.name.as_str()
    }

    /// Whether a key is shared with `peer`.
    pub fn has_key(&self, peer: &str) -> (known: bool)
        ensures
            known == self@.shared.contains_key(peer@),
    {
        self.shared.contains_key(peer)
    }

    /// The message by which the server learns the client's name.
    pub fn registration(&self, now: u64) -> (message: Message)
        ensures
            message@ == registration_message(self@.name, now),
    {
        Message {
            kind: MessageKind::System,
            to: String::from_str("server"),
            from: self.name.clone(),
            timestamp: now,
            content: None,
            payload: Payload::Empty,
        }
    }

    /// The message that carries a public key of this client.
    pub fn key_message(&self, to: &str, public: &[u8; 32], now: u64) -> (message: Message)
        ensures
            message@ == key_message(self@.name, to@, public@, now),
    {
        Message {
            kind: MessageKind::Pub,
            to: String::from_str(to),
            from: self.name.clone(),
            timestamp: now,
            content: None,
            payload: Payload::PublicKey { hex_key: hex_encode(public) },
        }
    }

    /// A chat message from this client, encrypted under a key and a nonce.
    pub fn chat_message(
        &self,
        to: &str,
        key: &[u8; 32],
        visible: &str,
        hidden: Option<&str>,
        nonce: &[u8; 8],
        now: u64,
    ) -> (message: Message)
        ensures
            message@ == chat_message(
                self@.name,
                to@,
                key@,
                visible@,
                slice_text_of(hidden),
                nonce@,
                now,
            ),
    {
        let k = join(key, nonce);
        let cipher = xor_cipher(visible.as_bytes(), &k);
        let (timestamp, content): (u64, Option<String>) = match hidden {
            Some(text) => {
                assert(now | 0x8000_0000_0000_0000 == if now < 0x8000_0000_0000_0000 {
                    (now + 0x8000_0000_0000_0000) as u64
                } else {
                    now
                }) by (bit_vector);
                (now | HIDDEN_FLAG, Some(encode_hidden(text)))
            },
            None => (now, None),
        };
        Message {
            kind: MessageKind::Msg,
            to: String::from_str(to),
            from: self.name.clone(),
            timestamp,
            content,
            payload: Payload::Encrypted {
                nonce_hex: hex_encode(nonce),
                cipher_hex: hex_encode(&cipher),
            },
        }
    }

    /// Asks `target` for a key: its public key will be answered with `secret`.
    pub fn begin_exchange(&mut self, target: &str, secret: [u8; 32], now: u64) -> (request: Message)
        ensures
            final(self)@ == old(self)@.with_pending(target@, secret@),
            final(self)@.wf(),
            request@ == key_message(old(self)@.name, target@, x25519_public(secret@), now),
            x25519_public(secret@).len() == 32,
    {
        proof {
            key_bytes_insert(self.pending@, target@, secret);
        }
        self.pending.insert(String::from_str(target), secret);
        let public = public_key(&secret);
        self.key_message(target, &public, now)
    }

    /// Does what a command asks for, with a fresh secret and nonce at a time.
    pub fn act(&mut self, command: &Command, secret: [u8; 32], nonce: [u8; 8], now: u64) -> (action:
        Action)
        ensures
            (final(self)@, action@) == acted(old(self)@, command@, secret@, nonce@, now),
            final(self)@.wf(),
            action@ is Exchange ==> x25519_public(secret@).len() == 32,
    {
        match command {
            Command::Quit => Action::Quit,
            Command::Usage => Action::Usage,
            Command::HiddenSyntax => Action::HiddenSyntax,
            Command::Unknown => Action::Unknown,
            Command::Send { target, visible, hidden } => {
                let shared_key: Option<[u8; 32]> = match self.shared.get(target.as_str()) {
                    Some(key) => Some(*key),
                    None => None,
                };
                match shared_key {
                    Some(key) => {
                        let hidden_str: Option<&str> = match hidden {
                            Some(text) => Some(text.as_str()),
                            None => None,
                        };
                        let message = self.chat_message(
                            target.as_str(),
                            &key,
                            visible.as_str(),
                            hidden_str,
                            &nonce,
                            now,
                        );
                        let hidden_copy: Option<String> = match hidden {
                            Some(text) => Some(text.clone()),
                            None => None,
                        };
                        Action::Deliver {
                            target: target.clone(),
                            visible: visible.clone(),
                            hidden: hidden_copy,
                            message,
                        }
                    },
                    None => {
                        let request = self.begin_exchange(target.as_str(), secret, now);
                        Action::Exchange { target: target.clone(), request }
                    },
                }
            },
        }
    }

    /// Does what a typed line asks for, now, with a secret and a nonce drawn
    /// for it. Nothing is done where a message is to be sent and the system
    /// clock stands before the Unix epoch.
    pub fn on_line(&mut self, line: &str) -> (action: Option<Action>)
        ensures
            final(self)@.wf(),
            match action {
                Some(a) => exists|secret: [u8; 32], nonce: [u8; 8], now: u64|
                    {
                        &&& is_drawn(secret)
                        &&& is_drawn(nonce)
                        &&& command_of(line@) is Send ==> clock_tells(Some(now))
                        &&& a@ is Exchange ==> x25519_public(secret@).len() == 32
                        &&& (final(self)@, a@) == #[trigger] acted(
                            old(self)@,
                            command_of(line@),
                            secret@,
                            nonce@,
                            now,
                        )
                    },
                None => {
                    &&& final(self)@ == old(self)@
                    &&& command_of(line@) is Send
                    &&& clock_tells(None)
                },
            },
    {
        let command = parse_line(line);
        let now: u64 = match &command {
            Command::Send { .. } => match unix_now() {
                Some(now) => now,
                None => {
                    return None;
                },
            },
            _ => 0,
        };
        let secret = random_secret();
        let nonce = random_nonce();
        Some(self.act(&command, secret, nonce, now))
    }

    /// Whether the hexadecimal fields of a message can be read.
    pub fn can_receive(&self, message: &Message) -> (can: bool)
        ensures
            can == receivable(self@, message@),
    {
        match (message.kind, &message.payload) {
            (MessageKind::Pub, Payload::PublicKey { hex_key }) => {
                match parse_key(hex_key.as_str()) {
                    Some(_) => true,
                    None => false,
                }
            },
            (MessageKind::Msg, Payload::Encrypted { nonce_hex, cipher_hex }) => {
                if self.has_key(message.from.as_str()) {
                    match (hex_decode(nonce_hex.as_str()), hex_decode(cipher_hex.as_str())) {
                        (Ok(_), Ok(_)) => true,
                        _ => false,
                    }
                } else {
                    true
                }
            },
            _ => true,
        }
    }

    /// Shares a key with a peer, and waits for the peer's public key no more.
    pub fn store_key(&mut self, peer: &str, key: [u8; 32])
        ensures
            final(self)@ == old(self)@.without_pending(peer@).with_key(peer@, key@),
            final(self)@.wf(),
    {
        proof {
            key_bytes_remove(self.pending@, peer@);
            key_bytes_insert(self.shared@, peer@, key);
        }
        self.pending.remove(peer);
        self.shared.insert(String::from_str(peer), key);
    }

    /// Takes a peer's public key: the secret that waits for it makes the
    /// shared key, or else `fresh` does, and the peer is then owed the public
    /// key of `fresh`. The peer computes the same key from its own secret and
    /// the public key of the one that was used.
    pub fn accept_key(&mut self, peer: &str, public: &[u8; 32], fresh: [u8; 32], now: u64) -> (reply:
        Option<Message>)
        ensures
            final(self)@ == old(self)@.without_pending(peer@).with_key(
                peer@,
                x25519_shared(own_secret(old(self)@, peer@, fresh@), public@),
            ),
            final(self)@.wf(),
            match reply {
                None => old(self)@.pending.contains_key(peer@),
                Some(r) => !old(self)@.pending.contains_key(peer@) && r@ == key_message(
                    old(self)@.name,
                    peer@,
                    x25519_public(fresh@),
                    now,
                ),
            },
            reply is Some ==> x25519_public(fresh@).len() == 32,
            forall|theirs: Seq<u8>|
                theirs.len() == 32 && public@ == #[trigger] x25519_public(theirs)
                    ==> exchange_agrees(own_secret(old(self)@, peer@, fresh@), theirs),
    {
        let waiting: Option<[u8; 32]> = match self.pending.get(peer) {
            Some(secret) => Some(*secret),
            None => None,
        };
        let (own, reply): ([u8; 32], Option<Message>) = match waiting {
            Some(secret) => (secret, None),
            None => {
                let public = public_key(&fresh);
                (fresh, Some(self.key_message(peer, &public, now)))
            },
        };
        let key = diffie_hellman(&own, public);
        self.store_key(peer, key);
        reply
    }

    /// Receives a message, with a fresh secret at a time. Where it carries the
    /// public key of a secret, whoever holds that secret computes the key that
    /// this client now shares with the sender.
    pub fn receive(&mut self, message: &Message, fresh: [u8; 32], now: u64) -> (event: Event)
        requires
            receivable(old(self)@, message@),
        ensures
            (final(self)@, event@) == received(old(self)@, message@, fresh@, now),
            final(self)@.wf(),
            owes_reply(old(self)@, message@) ==> x25519_public(fresh@).len() == 32,
            key_agreed(old(self)@, message@, fresh@),
    {
        match (message.kind, &message.payload) {
            (MessageKind::Pub, Payload::PublicKey { hex_key }) => {
                match parse_key(hex_key.as_str()) {
                    Some(public) => {
                        let reply = self.accept_key(message.from.as_str(), &public, fresh, now);
                        Event::Established { peer: message.from.clone(), reply }
                    },
                    None => Event::Ignored,
                }
            },
            (MessageKind::Msg, Payload::Encrypted { nonce_hex, cipher_hex }) => {
                match self.shared.get(message.from.as_str()) {
                    Some(key) => {
                        match (hex_decode(nonce_hex.as_str()), hex_decode(cipher_hex.as_str())) {
                            (Ok(nonce), Ok(cipher)) => {
                                let k = join(key, &nonce);
                                let plain = xor_cipher(&cipher, &k);
                                tell_chat(message, from_utf8_lossy(&plain))
                            },
                            _ => Event::Ignored,
                        }
                    },
                    None => Event::NoKey { from: message.from.clone() },
                }
            },
            (MessageKind::System, _) => Event::System,
            _ => Event::Ignored,
        }
    }

    /// Receives a message now, with a secret drawn for it. Nothing is done
    /// where a reply is owed and the system clock stands before the Unix
    /// epoch.
    pub fn on_message(&mut self, message: &Message) -> (event: Option<Event>)
        requires
            receivable(old(self)@, message@),
        ensures
            final(self)@.wf(),
            match event {
                Some(e) => exists|fresh: [u8; 32], now: u64|
                    {
                        &&& is_drawn(fresh)
                        &&& owes_reply(old(self)@, message@) ==> clock_tells(Some(now))
                            && x25519_public(fresh@).len() == 32
                        &&& key_agreed(old(self)@, message@, fresh@)
                        &&& (final(self)@, e@) == #[trigger] received(
                            old(self)@,
                            message@,
                            fresh@,
                            now,
                        )
                    },
                None => {
                    &&& final(self)@ == old(self)@
                    &&& owes_reply(old(self)@, message@)
                    &&& clock_tells(None)
                },
            },
    {
        let replies: bool = match (message.kind, &message.payload) {
            (MessageKind::Pub, Payload::PublicKey { .. }) => !self.pending.contains_key(
                message.from.as_str(),
            ),
            _ => false,
        };
        let now: u64 = if replies {
            match unix_now() {
                Some(now) => now,
                None => {
                    return None;
                },
            }
        } else {
            0
        };
        let fresh = random_secret();
        Some(self.receive(message, fresh, now))
    }
}

/// What a chat message tells whose visible text has been decrypted.
pub fn tell_chat(message: &Message, text: String) -> (event: Event)
    ensures
        event@ == chat_event(message@.from, message@.timestamp, message@.content, text@),
{
    let from = message.from.clone();
    let timestamp: u64 = message.timestamp;
    if !has_hidden_flag(timestamp) {
        return Event::Text { from, timestamp, text };
    }
    match &message.content {
        Some(code) => match decode_hidden(code.as_str()) {
            Some(hidden) => Event::TextAndHidden { from, timestamp, text, hidden },
            None => Event::HiddenFailed { from, timestamp, text },
        },
        None => Event::Ignored,
    }
}

} // verus!
