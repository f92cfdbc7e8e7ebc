//! What the parts promise together.

use crate::cipher::{
    hidden_code, hidden_round_trip, hidden_text, lossy_text, xor_bytes, xor_round_trip,
};
use crate::clock::stamp_text;
use crate::command::CommandView;
use crate::hexadecimal::{hex_bytes, hex_round_trip, hex_text, is_hex, is_hex_digit};
use crate::keys::{exchange_agrees, x25519_public, x25519_shared};
use crate::message::{MessageKind, MessageView, PayloadView, HIDDEN_FLAG};
use crate::protocol::{
    acted, chat_message, flagged, key_agreed, key_message, owes_reply, receivable, received,
    registration_message, Action, ActionView, ClientView, Event, EventView,
};
use crate::server::{announces_hidden, loggable, logged_len, splits};
use vstd::prelude::*;
use vstd::utf8::{
    encode_utf8, encode_utf8_decode_utf8, encode_utf8_valid_utf8, is_ascii_chars,
    is_ascii_chars_encode_utf8, is_char_boundary_iff_not_is_continuation_byte,
    is_char_boundary_start_end_of_seq,
};

verus! {

/// The sentinel bit does not show: a message is displayed with the time at
/// which it was sent.
pub proof fn flag_does_not_show(time: u64)
    ensures
        stamp_text(flagged(time)) == stamp_text(time),
{
}

/// Every client can receive a public key that another one sends. That it has
/// thirty-two bytes is what `Client::act` promises of a request and
/// `Client::receive` of a reply.
pub proof fn keys_are_receivable(
    client: ClientView,
    name: Seq<char>,
    public: Seq<u8>,
    sent: u64,
)
    requires
        public.len() == 32,
    ensures
        receivable(client, key_message(name, client.name, public, sent)),
{
    hex_round_trip(public);
}

/// Two clients that have exchanged public keys share one key. The first asks
/// for a key, the second answers with its own public key, and the answer
/// closes the exchange. Both messages can be received. That the exchange
/// agrees on the two secrets is what `Client::receive` promises of them.
pub proof fn exchange(
    alice: ClientView,
    bob: ClientView,
    visible: Seq<char>,
    hidden: Option<Seq<char>>,
    alice_secret: Seq<u8>,
    bob_secret: Seq<u8>,
    nonce: Seq<u8>,
    unused: Seq<u8>,
    sent: u64,
    answered: u64,
    closed: u64,
)
    requires
        exchange_agrees(alice_secret, bob_secret),
        !alice.shared.contains_key(bob.name),
        !bob.pending.contains_key(alice.name),
    ensures
        ({
            let command = CommandView::Send { target: bob.name, visible, hidden };
            let (alice1, action) = acted(alice, command, alice_secret, nonce, sent);
            let request = key_message(alice.name, bob.name, x25519_public(alice_secret), sent);
            let (bob1, answer) = received(bob, request, bob_secret, answered);
            let reply = key_message(bob.name, alice.name, x25519_public(bob_secret), answered);
            let (alice2, end) = received(alice1, reply, unused, closed);
            &&& action == (ActionView::Exchange { target: bob.name, request })
            &&& receivable(bob, request)
            &&& answer == (EventView::Established { peer: alice.name, reply: Some(reply) })
            &&& receivable(alice1, reply)
            &&& end == (EventView::Established { peer: bob.name, reply: None })
            &&& alice2.shared.contains_key(bob.name)
            &&& bob1.shared.contains_key(alice.name)
            &&& alice2.shared[bob.name] == bob1.shared[alice.name]
            &&& !alice2.pending.contains_key(bob.name)
        }),
{
    hex_round_trip(x25519_public(alice_secret));
    hex_round_trip(x25519_public(bob_secret));
}

/// Two clients that ask each other for a key at the same time share one key
/// too. Neither owes the other a reply, and neither waits any more.
pub proof fn crossed_exchange(
    alice: ClientView,
    bob: ClientView,
    alice_unused: Seq<u8>,
    bob_unused: Seq<u8>,
    alice_sent: u64,
    bob_sent: u64,
    alice_received: u64,
    bob_received: u64,
)
    requires
        alice.pending.contains_key(bob.name),
        bob.pending.contains_key(alice.name),
        exchange_agrees(alice.pending[bob.name], bob.pending[alice.name]),
    ensures
        ({
            let to_bob = key_message(
                alice.name,
                bob.name,
                x25519_public(alice.pending[bob.name]),
                alice_sent,
            );
            let to_alice = key_message(
                bob.name,
                alice.name,
                x25519_public(bob.pending[alice.name]),
                bob_sent,
            );
            let (alice1, at_alice) = received(alice, to_alice, alice_unused, alice_received);
            let (bob1, at_bob) = received(bob, to_bob, bob_unused, bob_received);
            &&& receivable(alice, to_alice)
            &&& receivable(bob, to_bob)
            &&& at_alice == (EventView::Established { peer: bob.name, reply: None })
            &&& at_bob == (EventView::Established { peer: alice.name, reply: None })
            &&& alice1.shared.contains_key(bob.name)
            &&& bob1.shared.contains_key(alice.name)
            &&& alice1.shared[bob.name] == bob1.shared[alice.name]
            &&& !alice1.pending.contains_key(bob.name)
            &&& !bob1.pending.contains_key(alice.name)
        }),
{
    hex_round_trip(x25519_public(alice.pending[bob.name]));
    hex_round_trip(x25519_public(bob.pending[alice.name]));
}

/// What one client sends under a shared key the other one reads: the visible
/// text, the hidden one where there is one, and the time. Neither client's
/// keys change.
pub proof fn delivery(
    alice: ClientView,
    bob: ClientView,
    visible: Seq<char>,
    hidden: Option<Seq<char>>,
    nonce: Seq<u8>,
    alice_unused: Seq<u8>,
    bob_unused: Seq<u8>,
    sent: u64,
    received_at: u64,
)
    requires
        alice.shared.contains_key(bob.name),
        bob.shared.contains_key(alice.name),
        alice.shared[bob.name] == bob.shared[alice.name],
        hidden is None ==> sent < HIDDEN_FLAG,
    ensures
        ({
            let command = CommandView::Send { target: bob.name, visible, hidden };
            let (alice1, action) = acted(alice, command, alice_unused, nonce, sent);
            let message = action->message;
            let (bob1, event) = received(bob, message, bob_unused, received_at);
            &&& alice1 == alice
            &&& action is Deliver
            &&& message.to == bob.name
            &&& receivable(bob, message)
            &&& bob1 == bob
            &&& event == match hidden {
                None => EventView::Text { from: alice.name, timestamp: sent, text: visible },
                Some(text) => EventView::TextAndHidden {
                    from: alice.name,
                    timestamp: flagged(sent),
                    text: visible,
                    hidden: text,
                },
            }
        }),
{
    let key = alice.shared[bob.name];
    let plain = encode_utf8(visible);
    hex_round_trip(nonce);
    hex_round_trip(xor_bytes(plain, key + nonce));
    xor_round_trip(plain, key + nonce);
    encode_utf8_valid_utf8(visible);
    encode_utf8_decode_utf8(visible);
    if hidden is Some {
        hidden_round_trip(hidden->0);
    }
}

/// The server sees of a chat message that it carries a hidden text exactly
/// when it does.
pub proof fn server_sees_hidden(
    name: Seq<char>,
    to: Seq<char>,
    key: Seq<u8>,
    visible: Seq<char>,
    hidden: Option<Seq<char>>,
    nonce: Seq<u8>,
    sent: u64,
)
    requires
        hidden is None ==> sent < HIDDEN_FLAG,
    ensures
        announces_hidden(chat_message(name, to, key, visible, hidden, nonce, sent)) <==> hidden
            is Some,
{
}

/// Commands never change a client's name or the keys that it shares; they
/// change at most what it waits for from whom they are addressed to.
pub proof fn commands_keep_keys(
    client: ClientView,
    command: CommandView,
    secret: Seq<u8>,
    nonce: Seq<u8>,
    now: u64,
    other: Seq<char>,
)
    requires
        command matches CommandView::Send { target, .. } ==> target != other,
    ensures
        ({
            let next = acted(client, command, secret, nonce, now).0;
            &&& next.name == client.name
            &&& next.shared == client.shared
            &&& next.pending.contains_key(other) == client.pending.contains_key(other)
            &&& next.pending.contains_key(other) ==> next.pending[other] == client.pending[other]
        }),
{
}

/// A message changes nothing between a client and anyone but its sender, and
/// one that is no public key changes nothing at all.
pub proof fn messages_keep_keys(
    client: ClientView,
    message: MessageView,
    fresh: Seq<u8>,
    now: u64,
    other: Seq<char>,
)
    requires
        other != message.from,
    ensures
        ({
            let next = received(client, message, fresh, now).0;
            &&& next.name == client.name
            &&& next.shared.contains_key(other) == client.shared.contains_key(other)
            &&& next.shared.contains_key(other) ==> next.shared[other] == client.shared[other]
            &&& next.pending.contains_key(other) == client.pending.contains_key(other)
            &&& next.pending.contains_key(other) ==> next.pending[other] == client.pending[other]
            &&& message.kind != MessageKind::Pub || !(message.payload is PublicKey) ==> next
                == client
        }),
{
}

/// Hexadecimal text can be cut anywhere.
proof fn hex_splits(text: Seq<char>, most: int)
    requires
        is_hex(text),
        most >= 0,
    ensures
        splits(text, most),
{
    let bytes = encode_utf8(text);
    let len = logged_len(text, most);
    encode_utf8_valid_utf8(text);
    assert(is_ascii_chars(text));
    is_ascii_chars_encode_utf8(text);
    if len < bytes.len() {
        is_char_boundary_iff_not_is_continuation_byte(bytes, len);
        assert(is_hex_digit(text[len]));
        assert(bytes[len] == text[len] as u8);
    } else {
        is_char_boundary_start_end_of_seq(bytes);
    }
}

/// The server can log every message that clients exchange.
pub proof fn messages_are_loggable(
    name: Seq<char>,
    to: Seq<char>,
    public: Seq<u8>,
    key: Seq<u8>,
    visible: Seq<char>,
    hidden: Option<Seq<char>>,
    nonce: Seq<u8>,
    now: u64,
)
    ensures
        loggable(key_message(name, to, public, now)),
        loggable(chat_message(name, to, key, visible, hidden, nonce, now)),
{
    let cipher = xor_bytes(encode_utf8(visible), key + nonce);
    hex_round_trip(public);
    hex_round_trip(nonce);
    hex_round_trip(cipher);
    hex_splits(hex_text(public), 12);
    hex_splits(hex_text(nonce), 8);
    hex_splits(hex_text(cipher), 12);
}

/// Setting the sentinel bit sets the top bit of a time and nothing else.
pub proof fn flagging_sets_top_bit(time: u64)
    ensures
        flagged(time) == time | (1u64 << 63),
{
    assert(time | (1u64 << 63) == if time < 0x8000_0000_0000_0000u64 {
        (time + 0x8000_0000_0000_0000u64) as u64
    } else {
        time
    }) by (bit_vector);
}

/// A registration tells the server the name and the time, and nothing more.
pub proof fn registration_holds(name: Seq<char>, now: u64)
    ensures
        ({
            let message = registration_message(name, now);
            &&& message.kind == MessageKind::System
            &&& message.to == "server"@
            &&& message.from == name
            &&& message.timestamp == now
            &&& message.content is None
            &&& message.payload is Empty
        }),
{
}

/// A key message goes from its sender to its addressee at its time, and the
/// public key can be read from it.
pub proof fn key_message_holds(name: Seq<char>, to: Seq<char>, public: Seq<u8>, now: u64)
    ensures
        ({
            let message = key_message(name, to, public, now);
            &&& message.kind == MessageKind::Pub
            &&& message.to == to
            &&& message.from == name
            &&& message.timestamp == now
            &&& message.content is None
            &&& message.payload matches PayloadView::PublicKey { hex_key }
            &&& hex_key == hex_text(public)
            &&& is_hex(hex_key)
            &&& hex_bytes(hex_key) == public
        }),
{
    hex_round_trip(public);
}

/// A chat message goes from its sender to its addressee. Every byte of the
/// visible text is encrypted, with the byte at its place of the key and the
/// nonce behind it, which repeat. A hidden text goes into the content, and the
/// top bit of the time tells; without one there is no content, and the time is
/// left as it is.
pub proof fn chat_message_holds(
    name: Seq<char>,
    to: Seq<char>,
    key: Seq<u8>,
    visible: Seq<char>,
    hidden: Option<Seq<char>>,
    nonce: Seq<u8>,
    now: u64,
)
    requires
        key.len() > 0,
    ensures
        ({
            let message = chat_message(name, to, key, visible, hidden, nonce, now);
            let plain = encode_utf8(visible);
            &&& message.kind == MessageKind::Msg
            &&& message.to == to
            &&& message.from == name
            &&& hidden is None ==> message.timestamp == now && message.content is None
            &&& hidden matches Some(text) ==> {
                &&& message.timestamp == now | (1u64 << 63)
                &&& message.content == Some(hidden_code(text))
            }
            &&& message.payload matches PayloadView::Encrypted { nonce_hex, cipher_hex }
            &&& nonce_hex == hex_text(nonce)
            &&& cipher_hex == hex_text(hex_bytes(cipher_hex))
            &&& hex_bytes(cipher_hex).len() == plain.len()
            &&& forall|i: int|
                0 <= i < plain.len() ==> #[trigger] hex_bytes(cipher_hex)[i] == plain[i] ^ (key
                    + nonce)[i % (key.len() + nonce.len()) as int]
        }),
{
    flagging_sets_top_bit(now);
    hex_round_trip(xor_bytes(encode_utf8(visible), key + nonce));
}

/// Where a key is shared with whom a message is for, the message is delivered:
/// the action names the target, the visible text and the hidden one of the
/// command, and its message goes from this client to that target, under the
/// key that is shared with it. Nothing changes at the client.
pub proof fn send_delivers(
    client: ClientView,
    target: Seq<char>,
    visible: Seq<char>,
    hidden: Option<Seq<char>>,
    secret: Seq<u8>,
    nonce: Seq<u8>,
    now: u64,
)
    requires
        client.shared.contains_key(target),
    ensures
        ({
            let command = CommandView::Send { target, visible, hidden };
            let (next, action) = acted(client, command, secret, nonce, now);
            &&& next == client
            &&& action matches ActionView::Deliver { target: t, visible: v, hidden: h, message }
            &&& t == target && v == visible && h == hidden
            &&& message.to == target
            &&& message.from == client.name
            &&& message == chat_message(
                client.name,
                target,
                client.shared[target],
                visible,
                hidden,
                nonce,
                now,
            )
        }),
{
}

/// Where no key is shared with whom a message is for, nothing of the message
/// is sent: the client asks the target for a key with the public key of the
/// secret, and keeps that secret for the answer.
pub proof fn send_asks_for_key(
    client: ClientView,
    target: Seq<char>,
    visible: Seq<char>,
    hidden: Option<Seq<char>>,
    secret: Seq<u8>,
    nonce: Seq<u8>,
    now: u64,
)
    requires
        !client.shared.contains_key(target),
    ensures
        ({
            let command = CommandView::Send { target, visible, hidden };
            let (next, action) = acted(client, command, secret, nonce, now);
            &&& action matches ActionView::Exchange { target: t, request }
            &&& t == target
            &&& request.to == target
            &&& request.from == client.name
            &&& request == key_message(client.name, target, x25519_public(secret), now)
            &&& next.pending.contains_key(target)
            &&& next.pending[target] == secret
            &&& next.name == client.name
            &&& next.shared == client.shared
        }),
{
}

/// A command that sends nothing is carried out as what it is, and changes
/// nothing at the client.
pub proof fn other_commands_change_nothing(
    client: ClientView,
    command: CommandView,
    secret: Seq<u8>,
    nonce: Seq<u8>,
    now: u64,
)
    requires
        !(command is Send),
    ensures
        ({
            let (next, action) = acted(client, command, secret, nonce, now);
            &&& next == client
            &&& action is Quit <==> command is Quit
            &&& action is Usage <==> command is Usage
            &&& action is HiddenSyntax <==> command is HiddenSyntax
            &&& action is Unknown <==> command is Unknown
        }),
{
}

/// A chat message is decrypted byte by byte, with the key that is shared with
/// its sender and the nonce behind it, which repeat. What is told is who sent
/// it, when, and the text; a hidden text is told where the top bit of the time
/// announces one, and where it is announced and there is none at all, nothing
/// is told. The client stays as it is.
pub proof fn chat_is_read(
    client: ClientView,
    message: MessageView,
    plain: Seq<u8>,
    fresh: Seq<u8>,
    now: u64,
)
    requires
        message.kind == MessageKind::Msg,
        message.payload is Encrypted,
        client.shared.contains_key(message.from),
        client.shared[message.from].len() > 0,
        plain.len() == hex_bytes(message.payload->cipher_hex).len(),
        ({
            let k = client.shared[message.from] + hex_bytes(message.payload->nonce_hex);
            forall|i: int|
                0 <= i < plain.len() ==> #[trigger] plain[i] == hex_bytes(
                    message.payload->cipher_hex,
                )[i] ^ k[i % k.len() as int]
        }),
    ensures
        ({
            let (next, event) = received(client, message, fresh, now);
            let from = message.from;
            let timestamp = message.timestamp;
            let text = lossy_text(plain);
            let announced = timestamp >= 0x8000_0000_0000_0000;
            &&& next == client
            &&& !announced ==> event == (EventView::Text { from, timestamp, text })
            &&& announced && message.content is None ==> event == EventView::Ignored
            &&& announced && message.content is Some ==> match hidden_text(message.content->0) {
                Some(hidden) => event == (EventView::TextAndHidden { from, timestamp, text, hidden }),
                None => event == (EventView::HiddenFailed { from, timestamp, text }),
            }
        }),
{
    let key = client.shared[message.from];
    assert(plain =~= xor_bytes(
        hex_bytes(message.payload->cipher_hex),
        key + hex_bytes(message.payload->nonce_hex),
    ));
}

/// Messages that are no chat under a shared key and no public key tell what
/// they are, and change nothing.
pub proof fn other_messages_change_nothing(
    client: ClientView,
    message: MessageView,
    fresh: Seq<u8>,
    now: u64,
)
    ensures
        ({
            let (next, event) = received(client, message, fresh, now);
            let from = message.from;
            &&& message.kind == MessageKind::System ==> next == client && event
                == EventView::System
            &&& message.kind == MessageKind::Pub && !(message.payload is PublicKey) ==> next
                == client && event == EventView::Ignored
            &&& message.kind == MessageKind::Msg && !(message.payload is Encrypted) ==> next
                == client && event == EventView::Ignored
            &&& message.kind == MessageKind::Msg && message.payload is Encrypted
                && !client.shared.contains_key(from) ==> next == client && event == (
            EventView::NoKey { from })
        }),
{
}

/// A public key ends the exchange with its sender: the secret that waited for
/// it makes the key that is now shared, and no reply is owed; where none
/// waited, the fresh one makes the key, and the sender is sent its public key.
pub proof fn public_key_ends_exchange(
    client: ClientView,
    message: MessageView,
    fresh: Seq<u8>,
    now: u64,
)
    requires
        message.kind == MessageKind::Pub,
        message.payload is PublicKey,
    ensures
        ({
            let (next, event) = received(client, message, fresh, now);
            let from = message.from;
            let public = hex_bytes(message.payload->hex_key);
            &&& next.name == client.name
            &&& next.shared.contains_key(from)
            &&& !next.pending.contains_key(from)
            &&& event matches EventView::Established { peer, reply }
            &&& peer == from
            &&& client.pending.contains_key(from) ==> {
                &&& next.shared[from] == x25519_shared(client.pending[from], public)
                &&& reply is None
            }
            &&& !client.pending.contains_key(from) ==> {
                &&& next.shared[from] == x25519_shared(fresh, public)
                &&& reply == Some(key_message(client.name, from, x25519_public(fresh), now))
            }
        }),
{
}

/// A reply is owed exactly where receiving a message gives one.
pub proof fn owed_replies_are_given(
    client: ClientView,
    message: MessageView,
    fresh: Seq<u8>,
    now: u64,
)
    ensures
        owes_reply(client, message) <==> match received(client, message, fresh, now).1 {
            EventView::Established { reply, .. } => reply is Some,
            _ => false,
        },
{
}

/// What a client promises of a public key that it has received: whoever holds
/// the secret of that key computes the key that is now shared, from the public
/// key of the secret that the client used.
pub proof fn received_key_is_shared(
    client: ClientView,
    message: MessageView,
    fresh: Seq<u8>,
    now: u64,
    theirs: Seq<u8>,
)
    requires
        message.kind == MessageKind::Pub,
        message.payload is PublicKey,
        key_agreed(client, message, fresh),
        theirs.len() == 32,
        hex_bytes(message.payload->hex_key) == x25519_public(theirs),
    ensures
        ({
            let used = if client.pending.contains_key(message.from) {
                client.pending[message.from]
            } else {
                fresh
            };
            received(client, message, fresh, now).0.shared[message.from] == x25519_shared(
                theirs,
                x25519_public(used),
            )
        }),
{
}

/// The messages that can be received: a public key is sixty-four hexadecimal
/// digits, and both parts of a chat message from whom a key is shared with are
/// hexadecimal. Any other message can be.
pub proof fn receivable_messages(client: ClientView, message: MessageView)
    ensures
        message.kind == MessageKind::Pub && message.payload is PublicKey ==> (receivable(
            client,
            message,
        ) <==> is_hex(message.payload->hex_key) && message.payload->hex_key.len() == 64),
        message.kind == MessageKind::Msg && message.payload is Encrypted
            && client.shared.contains_key(message.from) ==> (receivable(client, message) <==> is_hex(
            message.payload->nonce_hex,
        ) && is_hex(message.payload->cipher_hex)),
        message.kind == MessageKind::System ==> receivable(client, message),
        message.kind == MessageKind::Pub && !(message.payload is PublicKey) ==> receivable(
            client,
            message,
        ),
        message.kind == MessageKind::Msg && !(message.payload is Encrypted
            && client.shared.contains_key(message.from)) ==> receivable(client, message),
{
}

/// In a client that is well formed every secret and every key has thirty-two
/// bytes.
pub proof fn keys_have_thirty_two_bytes(client: ClientView, peer: Seq<char>)
    requires
        client.wf(),
    ensures
        client.pending.contains_key(peer) ==> client.pending[peer].len() == 32,
        client.shared.contains_key(peer) ==> client.shared[peer].len() == 32,
{
}

/// The value of an action holds each of its parts.
pub proof fn action_parts(action: Action)
    ensures
        action@ is Quit <==> action is Quit,
        action@ is Usage <==> action is Usage,
        action@ is HiddenSyntax <==> action is HiddenSyntax,
        action@ is Unknown <==> action is Unknown,
        action matches Action::Exchange { target, request } ==> action@ == (ActionView::Exchange {
            target: target@,
            request: request@,
        }),
        action matches Action::Deliver { target, visible, hidden, message } ==> {
            &&& action@ matches ActionView::Deliver { target: t, visible: v, hidden: h, message: m }
            &&& t == target@ && v == visible@ && m == message@
            &&& hidden is None ==> h is None
            &&& hidden matches Some(text) ==> h == Some(text@)
        },
{
}

/// The value of an event holds each of its parts.
pub proof fn event_parts(event: Event)
    ensures
        event@ is Ignored <==> event is Ignored,
        event@ is System <==> event is System,
        event matches Event::NoKey { from } ==> event@ == (EventView::NoKey { from: from@ }),
        event matches Event::Established { peer, reply } ==> {
            &&& event@ matches EventView::Established { peer: p, reply: r }
            &&& p == peer@
            &&& reply is None ==> r is None
            &&& reply matches Some(message) ==> r == Some(message@)
        },
        event matches Event::Text { from, timestamp, text } ==> event@ == (EventView::Text {
            from: from@,
            timestamp,
            text: text@,
        }),
        event matches Event::TextAndHidden { from, timestamp, text, hidden } ==> event@ == (
        EventView::TextAndHidden { from: from@, timestamp, text: text@, hidden: hidden@ }),
        event matches Event::HiddenFailed { from, timestamp, text } ==> event@ == (
        EventView::HiddenFailed { from: from@, timestamp, text: text@ }),
{
}

} // verus!
