//! What callers can rely on: laws on what the functions of the library return,
//! whenever they return.

use crate::cipher::{
    decode_hidden, encode_hidden, hidden_round_trip, hidden_text, xor_bytes, xor_cipher,
    xor_round_trip, HIDDEN_KEY,
};
use crate::client::{tell_chat, Client};
use crate::clock::{
    clock_reads_back, clock_tells, clock_text, fmt_clock, fmt_reading, fmt_ts, reading_text,
    stamp_text, unix_now, whole_seconds,
};
use crate::command::{
    command_of, is_white, is_white_space, lines_without_message, parse_line, trim, trimmed,
    trimming_leaves_the_inside, Command, CommandView,
};
use crate::display::{
    banner, delivery_is_shown, exchange_is_shown, failure_is_shown, hidden_is_shown,
    hints_are_shown, lines_are_shown, menu, peers_are_named, system_line, text_is_shown, texts_of,
    unsent_line,
};
use crate::hexadecimal::{hex_bytes, hex_round_trip, hex_text, is_hex};
use crate::keys::{is_drawn, random_nonce, random_secret, x25519_public, x25519_shared};
use crate::laws::{
    chat_message_holds, flagging_sets_top_bit, key_message_holds, public_key_ends_exchange,
    receivable_messages, registration_holds, send_asks_for_key, send_delivers,
};
use crate::message::{
    has_hidden_flag, slice_text_of, text_of, Message, MessageKind, MessageView, Payload,
};
use crate::protocol::{
    chat_message, key_message, owes_reply, receivable, received, Action, Event, EventView,
};
use crate::server::{
    can_log, connected_line, dropped_line, hidden_note_shows_no_text, incoming_line, log_hidden,
    log_route, loggable, register_one_name, rejected_line, route_by_addressee, route_text,
    started_line, unread_line, unwritten_line, Directory,
};
use crate::wire::{
    encodes, frame_body, frame_len, length_comes_first, message_bytes, message_unique, refused,
    send_receive, RecvError,
};
use std::time::SystemTimeError;
use vstd::prelude::*;
use vstd::utf8::encode_utf8;

verus! {

/// What is encrypted has the data's length, and each of its bytes is the byte
/// of the data at its place, combined with the byte of the key at that place,
/// counted round the key.
pub proof fn xor_cipher_combines_each_byte(data: &[u8], key: &[u8], out: Vec<u8>)
    requires
        data@.len() > 0 ==> key@.len() > 0,
        call_ensures(xor_cipher, (data, key), out),
    ensures
        out@.len() == data@.len(),
        forall|i: int|
            0 <= i < data@.len() ==> #[trigger] out@[i] == data@[i] ^ key@[i % key@.len() as int],
{
}

/// Encrypting what was encrypted with the same key gives the data back.
pub proof fn xor_cipher_undoes_itself(
    data: &[u8],
    key: &[u8],
    out: Vec<u8>,
    cipher: &[u8],
    again: Vec<u8>,
)
    requires
        call_ensures(xor_cipher, (data, key), out),
        cipher@ == out@,
        call_ensures(xor_cipher, (cipher, key), again),
    ensures
        again@ == data@,
{
    xor_round_trip(data@, key@);
}

/// A hidden payload holds the bytes of its text, each combined with the byte of
/// the hidden key at its place, in hexadecimal.
pub proof fn encode_hidden_combines_each_byte(text: &str, code: String)
    requires
        call_ensures(encode_hidden, (text,), code),
    ensures
        is_hex(code@),
        code@ == hex_text(hex_bytes(code@)),
        hex_bytes(code@).len() == encode_utf8(text@).len(),
        forall|i: int|
            0 <= i < encode_utf8(text@).len() ==> #[trigger] hex_bytes(code@)[i] == encode_utf8(
                text@,
            )[i] ^ HIDDEN_KEY@[i % 15],
{
    let cipher = xor_bytes(encode_utf8(text@), HIDDEN_KEY@);
    hex_round_trip(cipher);
}

/// What was hidden is read back, and what is read from a payload is what the
/// payload stands for.
pub proof fn decode_hidden_reads_back(
    text: &str,
    code: String,
    payload: &str,
    read: Option<String>,
)
    requires
        call_ensures(encode_hidden, (text,), code),
        call_ensures(decode_hidden, (payload,), read),
    ensures
        payload@ == code@ ==> read is Some && read->0@ == text@,
        read is Some <==> hidden_text(payload@) is Some,
        read is Some ==> Some(read->0@) == hidden_text(payload@),
{
    hidden_round_trip(text@);
}

/// The hours, minutes and seconds that are written are those that have passed
/// of the day, and a timestamp is written as its seconds are.
pub proof fn clocks_are_written(secs: u64, text: String, unix: u64, stamp: String)
    requires
        call_ensures(fmt_clock, (secs,), text),
        call_ensures(fmt_ts, (unix,), stamp),
    ensures
        ({
            let digit = |i: int| text@[i] as int - '0' as int;
            &&& text@.len() == 8 && text@[2] == ':' && text@[5] == ':'
            &&& 3600 * (10 * digit(0) + digit(1)) + 60 * (10 * digit(3) + digit(4)) + 10 * digit(6)
                + digit(7) == secs % 86400
            &&& 10 * digit(3) + digit(4) < 60
            &&& 10 * digit(6) + digit(7) < 60
        }),
        stamp@ == clock_text(unix as int % 0x8000_0000_0000_0000),
{
    clock_reads_back(secs as int);
}

/// A reading gives its whole seconds and their time of day; a clock before the
/// epoch gives neither.
pub proof fn readings_are_passed_on(
    elapsed: Result<(u64, u32), SystemTimeError>,
    secs: Option<u64>,
    told: Option<u64>,
    text: Option<String>,
)
    requires
        call_ensures(whole_seconds, (elapsed,), secs),
        call_ensures(fmt_reading, (told,), text),
    ensures
        elapsed matches Ok((whole, _)) ==> secs == Some(whole),
        elapsed is Err ==> secs is None,
        told matches Some(s) ==> text is Some && text->0@ == clock_text(s as int),
        told is None ==> text is None,
{
}

/// The present time is one that the system clock tells, as seconds and as a
/// time of day.
pub proof fn present_is_told(secs: Option<u64>, text: Option<String>)
    requires
        call_ensures(unix_now, (), secs),
        call_ensures(crate::clock::now, (), text),
    ensures
        clock_tells(secs),
        text is None ==> clock_tells(None),
        text matches Some(t) ==> exists|s: u64|
            #![trigger clock_text(s as int)]
            clock_tells(Some(s)) && t@ == clock_text(s as int),
{
    let told = choose|told: Option<u64>| #[trigger]
        clock_tells(told) && text_of(text) == reading_text(told);
    if text is Some {
        assert(clock_tells(Some(told->0)) && text->0@ == clock_text(told->0 as int));
    }
}

/// Secrets and nonces are drawn at random.
pub proof fn secrets_are_drawn(secret: [u8; 32], nonce: [u8; 8])
    requires
        call_ensures(random_secret, (), secret),
        call_ensures(random_nonce, (), nonce),
    ensures
        is_drawn(secret),
        is_drawn(nonce),
{
}

/// Trimming leaves what stands between the white space at both ends.
pub proof fn trim_leaves_the_inside(
    text: &str,
    before: Seq<char>,
    inner: Seq<char>,
    behind: Seq<char>,
    left: &str,
    c: char,
    white: bool,
)
    requires
        call_ensures(trim, (text,), left),
        call_ensures(is_white_space, (c,), white),
        text@ == before + inner + behind,
        forall|i: int| 0 <= i < before.len() ==> is_white(#[trigger] before[i]),
        forall|i: int| 0 <= i < behind.len() ==> is_white(#[trigger] behind[i]),
        inner.len() > 0 ==> !is_white(inner[0]) && !is_white(inner.last()),
    ensures
        left@ == inner,
        white == is_white(c),
{
    trimming_leaves_the_inside(before, inner, behind);
}

/// A line is parsed to what it means.
pub proof fn lines_are_parsed(line: &str, command: Command)
    requires
        call_ensures(parse_line, (line,), command),
    ensures
        command@ == command_of(line@),
        command is Quit <==> trimmed(line@) == ":quit"@,
        command is Unknown <==> trimmed(line@) != ":quit"@ && !(trimmed(line@).len() > 0 && trimmed(
            line@,
        )[0] == '@'),
{
    lines_without_message(line@);
}

/// The sentinel bit is the top bit.
pub proof fn top_bit_is_seen(timestamp: u64, flagged: bool)
    requires
        call_ensures(has_hidden_flag, (timestamp,), flagged),
    ensures
        flagged == (timestamp >= 0x8000_0000_0000_0000),
{
}

/// A new client has the name that was typed, without white space around it, and
/// neither waits for anyone nor shares a key.
pub proof fn new_clients_know_no_one(typed: &str, client: Client, peer: Seq<char>)
    requires
        call_ensures(Client::new, (typed,), client),
    ensures
        client@.name == trimmed(typed@),
        !client@.pending.contains_key(peer),
        !client@.shared.contains_key(peer),
        client@.wf(),
{
}

/// A client tells its name, with whom it shares a key, and what it can receive.
pub proof fn clients_answer(
    client: &Client,
    name: &str,
    peer: &str,
    known: bool,
    message: &Message,
    can: bool,
)
    requires
        call_ensures(Client::name, (client,), name),
        call_ensures(Client::has_key, (client, peer), known),
        call_ensures(Client::can_receive, (client, message), can),
    ensures
        name@ == client@.name,
        known == client@.shared.contains_key(peer@),
        can == receivable(client@, message@),
        message@.kind == MessageKind::Pub ==> (message.payload matches Payload::PublicKey {
            hex_key,
        } ==> can == (is_hex(hex_key@) && hex_key@.len() == 64)),
{
    receivable_messages(client@, message@);
}

/// The registration and the key messages of a client hold its name, and go to
/// whom they are for.
pub proof fn messages_are_addressed(
    client: &Client,
    to: &str,
    public: &[u8; 32],
    now: u64,
    registration: Message,
    message: Message,
)
    requires
        call_ensures(Client::registration, (client, now), registration),
        call_ensures(Client::key_message, (client, to, public, now), message),
    ensures
        registration.kind == MessageKind::System,
        registration.to@ == "server"@,
        registration.from@ == client@.name,
        registration.timestamp == now,
        registration.content is None,
        registration.payload is Empty,
        message.kind == MessageKind::Pub,
        message.to@ == to@,
        message.from@ == client@.name,
        message.timestamp == now,
        message.content is None,
        message.payload matches Payload::PublicKey { hex_key } && is_hex(hex_key@) && hex_bytes(
            hex_key@,
        ) == public@,
{
    registration_holds(client@.name, now);
    key_message_holds(client@.name, to@, public@, now);
    assert(message@.content is None);
    assert(registration@.content is None);
}

/// A chat message of a client goes to whom it is for, and every byte of its
/// visible text is encrypted under the key and the nonce.
pub proof fn chat_is_encrypted(
    client: &Client,
    to: &str,
    key: &[u8; 32],
    visible: &str,
    hidden: Option<&str>,
    nonce: &[u8; 8],
    now: u64,
    message: Message,
)
    requires
        call_ensures(Client::chat_message, (client, to, key, visible, hidden, nonce, now), message),
    ensures
        ({
            let plain = encode_utf8(visible@);
            &&& message.kind == MessageKind::Msg
            &&& message.to@ == to@
            &&& message.from@ == client@.name
            &&& hidden is None ==> message.timestamp == now && message.content is None
            &&& hidden matches Some(text) ==> {
                &&& message.timestamp == now | (1u64 << 63)
                &&& message.content is Some
                &&& hidden_text(message.content->0@) == Some(text@)
            }
            &&& message.payload matches Payload::Encrypted { nonce_hex, cipher_hex }
            &&& is_hex(nonce_hex@) && hex_bytes(nonce_hex@) == nonce@
            &&& is_hex(cipher_hex@) && hex_bytes(cipher_hex@).len() == plain.len()
            &&& forall|i: int|
                0 <= i < plain.len() ==> #[trigger] hex_bytes(cipher_hex@)[i] == plain[i] ^ (key@
                    + nonce@)[i % 40]
        }),
{
    let h = slice_text_of(hidden);
    chat_message_holds(client@.name, to@, key@, visible@, h, nonce@, now);
    hex_round_trip(nonce@);
    hex_round_trip(xor_bytes(encode_utf8(visible@), key@ + nonce@));
    if hidden is Some {
        hidden_round_trip(hidden->0@);
        assert(message@.content is Some);
    } else {
        assert(message@.content is None);
    }
}

/// A message to whom a key is shared with is delivered: the action names the
/// target and the texts of the command, its message goes from the client to
/// that target at that time, and the client stays as it is.
pub proof fn act_delivers(
    client: &mut Client,
    command: &Command,
    secret: [u8; 32],
    nonce: [u8; 8],
    now: u64,
    action: Action,
)
    requires
        call_ensures(Client::act, (client, command, secret, nonce, now), action),
        command is Send,
        old(client)@.shared.contains_key(command->target@),
    ensures
        final(client)@ == old(client)@,
        action matches Action::Deliver { target, visible, hidden, message } && {
            &&& target@ == command->target@
            &&& visible@ == command->visible@
            &&& hidden is Some <==> command->hidden is Some
            &&& hidden is Some ==> hidden->0@ == command->hidden->0@
            &&& message.kind == MessageKind::Msg
            &&& message.to@ == target@
            &&& message.from@ == old(client)@.name
            &&& hidden is None ==> message.timestamp == now
            &&& hidden is Some ==> message.timestamp == now | (1u64 << 63)
            &&& message@ == chat_message(
                old(client)@.name,
                target@,
                old(client)@.shared[target@],
                visible@,
                text_of(hidden),
                nonce@,
                now,
            )
        },
{
    let hidden = text_of(command->hidden);
    send_delivers(
        old(client)@,
        command->target@,
        command->visible@,
        hidden,
        secret@,
        nonce@,
        now,
    );
    flagging_sets_top_bit(now);
}

/// A message to whom no key is shared with is not sent: the action asks the
/// target for a key, and the client keeps the secret for the answer.
pub proof fn act_asks_for_key(
    client: &mut Client,
    command: &Command,
    secret: [u8; 32],
    nonce: [u8; 8],
    now: u64,
    action: Action,
)
    requires
        call_ensures(Client::act, (client, command, secret, nonce, now), action),
        command is Send,
        !old(client)@.shared.contains_key(command->target@),
    ensures
        final(client)@.pending.contains_key(command->target@),
        final(client)@.pending[command->target@] == secret@,
        final(client)@.shared == old(client)@.shared,
        final(client)@.name == old(client)@.name,
        x25519_public(secret@).len() == 32,
        action matches Action::Exchange { target, request } && {
            &&& target@ == command->target@
            &&& request.kind == MessageKind::Pub
            &&& request.to@ == target@
            &&& request.from@ == old(client)@.name
            &&& request.timestamp == now
            &&& request@.content is None
            &&& request@ == key_message(
                old(client)@.name,
                target@,
                x25519_public(secret@),
                now,
            )
        },
{
    let hidden = text_of(command->hidden);
    send_asks_for_key(
        old(client)@,
        command->target@,
        command->visible@,
        hidden,
        secret@,
        nonce@,
        now,
    );
}

/// A command that sends nothing is carried out as what it is.
pub proof fn act_changes_nothing(
    client: &mut Client,
    command: &Command,
    secret: [u8; 32],
    nonce: [u8; 8],
    now: u64,
    action: Action,
)
    requires
        call_ensures(Client::act, (client, command, secret, nonce, now), action),
        !(command is Send),
    ensures
        final(client)@ == old(client)@,
        action is Quit <==> command is Quit,
        action is Usage <==> command is Usage,
        action is HiddenSyntax <==> command is HiddenSyntax,
        action is Unknown <==> command is Unknown,
{
}

/// A typed line is carried out as what it means: what is to be sent is
/// delivered or asked for at a time that the clock tells, and what is not
/// changes nothing. Only the clock can keep a message from being sent.
pub proof fn on_line_does_what_is_meant(
    client: &mut Client,
    line: &str,
    action: Option<Action>,
)
    requires
        call_ensures(Client::on_line, (client, line), action),
    ensures
        action is None ==> {
            &&& final(client)@ == old(client)@
            &&& command_of(line@) is Send
            &&& clock_tells(None)
        },
        action matches Some(a) ==> {
            &&& final(client)@.name == old(client)@.name
            &&& final(client)@.shared == old(client)@.shared
            &&& a is Quit <==> command_of(line@) is Quit
            &&& a is Usage <==> command_of(line@) is Usage
            &&& a is HiddenSyntax <==> command_of(line@) is HiddenSyntax
            &&& a is Unknown <==> command_of(line@) is Unknown
            &&& a is Deliver || a is Exchange <==> command_of(line@) is Send
            &&& !(a is Exchange) ==> final(client)@ == old(client)@
        },
        action matches Some(Action::Deliver { target, visible, hidden, message }) ==> {
            &&& command_of(line@) == (CommandView::Send {
                target: target@,
                visible: visible@,
                hidden: text_of(hidden),
            })
            &&& old(client)@.shared.contains_key(target@)
            &&& message.to@ == target@
            &&& message.from@ == old(client)@.name
            &&& exists|nonce: [u8; 8], now: u64|
                is_drawn(nonce) && clock_tells(Some(now)) && message@ == #[trigger] chat_message(
                    old(client)@.name,
                    target@,
                    old(client)@.shared[target@],
                    visible@,
                    text_of(hidden),
                    nonce@,
                    now,
                )
        },
        action matches Some(Action::Exchange { target, request }) ==> {
            &&& command_of(line@)->target == target@
            &&& !old(client)@.shared.contains_key(target@)
            &&& final(client)@.pending.contains_key(target@)
            &&& request.to@ == target@
            &&& request.from@ == old(client)@.name
            &&& clock_tells(Some(request.timestamp))
            &&& exists|secret: [u8; 32]|
                is_drawn(secret) && final(client)@.pending[target@] == #[trigger] secret@
                    && request@ == key_message(
                    old(client)@.name,
                    target@,
                    x25519_public(secret@),
                    request.timestamp,
                ) && x25519_public(secret@).len() == 32
        },
{
}

/// Asking for a key keeps the secret and sends its public key.
pub proof fn begin_exchange_keeps_secret(
    client: &mut Client,
    target: &str,
    secret: [u8; 32],
    now: u64,
    request: Message,
)
    requires
        call_ensures(Client::begin_exchange, (client, target, secret, now), request),
    ensures
        final(client)@.pending == old(client)@.pending.insert(target@, secret@),
        final(client)@.shared == old(client)@.shared,
        final(client)@.name == old(client)@.name,
        request@ == key_message(
            old(client)@.name,
            target@,
            x25519_public(secret@),
            now,
        ),
        x25519_public(secret@).len() == 32,
{
}

/// A stored key is shared with the peer alone, and the peer is not waited for
/// any more.
pub proof fn store_key_shares_key(client: &mut Client, peer: &str, key: [u8; 32])
    requires
        call_ensures(Client::store_key, (client, peer, key), ()),
    ensures
        final(client)@.shared == old(client)@.shared.insert(peer@, key@),
        final(client)@.pending == old(client)@.pending.remove(peer@),
        final(client)@.name == old(client)@.name,
{
}

/// A public key makes a shared key with the secret that waited for it, or else
/// with the fresh one, whose public key the peer is then sent.
pub proof fn accept_key_shares_key(
    client: &mut Client,
    peer: &str,
    public: &[u8; 32],
    fresh: [u8; 32],
    now: u64,
    reply: Option<Message>,
)
    requires
        call_ensures(Client::accept_key, (client, peer, public, fresh, now), reply),
    ensures
        ({
            let waits = old(client)@.pending.contains_key(peer@);
            let own = if waits {
                old(client)@.pending[peer@]
            } else {
                fresh@
            };
            &&& final(client)@.shared == old(client)@.shared.insert(
                peer@,
                x25519_shared(own, public@),
            )
            &&& final(client)@.pending == old(client)@.pending.remove(peer@)
            &&& final(client)@.name == old(client)@.name
            &&& reply is Some <==> !waits
            &&& reply is Some ==> reply->0@ == key_message(
                old(client)@.name,
                peer@,
                x25519_public(fresh@),
                now,
            )
        }),
{
}

/// A received public key ends the exchange with its sender.
pub proof fn receive_ends_exchange(
    client: &mut Client,
    message: &Message,
    fresh: [u8; 32],
    now: u64,
    event: Event,
)
    requires
        receivable(old(client)@, message@),
        call_ensures(Client::receive, (client, message, fresh, now), event),
        message.kind == MessageKind::Pub,
        message.payload is PublicKey,
    ensures
        ({
            let from = message.from@;
            let waits = old(client)@.pending.contains_key(from);
            let own = if waits {
                old(client)@.pending[from]
            } else {
                fresh@
            };
            &&& final(client)@.shared.contains_key(from)
            &&& final(client)@.shared[from] == x25519_shared(
                own,
                hex_bytes(message.payload->hex_key@),
            )
            &&& !final(client)@.pending.contains_key(from)
            &&& final(client)@.name == old(client)@.name
            &&& event matches Event::Established { peer, reply }
            &&& peer@ == from
            &&& reply is Some <==> !waits
            &&& reply is Some ==> reply->0@ == key_message(
                old(client)@.name,
                from,
                x25519_public(fresh@),
                now,
            )
        }),
{
    public_key_ends_exchange(old(client)@, message@, fresh@, now);
}

/// A received message other than a public key leaves the client as it is, and
/// what it tells rests on the message and the shared key alone.
pub proof fn receive_reads_chat(
    client: &mut Client,
    message: &Message,
    fresh: [u8; 32],
    now: u64,
    event: Event,
    other_fresh: Seq<u8>,
    other_now: u64,
)
    requires
        receivable(old(client)@, message@),
        call_ensures(Client::receive, (client, message, fresh, now), event),
        message.kind != MessageKind::Pub,
    ensures
        final(client)@ == old(client)@,
        event@ == received(old(client)@, message@, other_fresh, other_now).1,
        event matches Event::NoKey { from } ==> from@ == message.from@
            && !old(client)@.shared.contains_key(from@),
        event matches Event::Text { from, timestamp, .. } ==> from@ == message.from@ && timestamp
            == message.timestamp,
        event matches Event::TextAndHidden { from, timestamp, .. } ==> from@ == message.from@
            && timestamp == message.timestamp,
        event matches Event::HiddenFailed { from, timestamp, .. } ==> from@ == message.from@
            && timestamp == message.timestamp,
{
}

/// A message is received now as it is at any time: only where a reply is owed
/// is the clock asked, and the reply holds the time that it tells.
pub proof fn on_message_receives(
    client: &mut Client,
    message: &Message,
    event: Option<Event>,
    fresh: Seq<u8>,
    now: u64,
)
    requires
        receivable(old(client)@, message@),
        call_ensures(Client::on_message, (client, message), event),
    ensures
        event is None ==> {
            &&& final(client)@ == old(client)@
            &&& owes_reply(old(client)@, message@)
            &&& clock_tells(None)
        },
        event is Some && !owes_reply(old(client)@, message@) ==> {
            &&& final(client)@ == received(old(client)@, message@, fresh, now).0
            &&& event->0@ == received(old(client)@, message@, fresh, now).1
        },
        event matches Some(Event::Established { peer, reply: Some(reply) }) ==> {
            &&& owes_reply(old(client)@, message@)
            &&& peer@ == message.from@
            &&& reply.to@ == message.from@
            &&& reply.from@ == old(client)@.name
            &&& clock_tells(Some(reply.timestamp))
            &&& final(client)@.shared.contains_key(peer@)
            &&& exists|drawn: [u8; 32]|
                is_drawn(drawn) && final(client)@.shared[peer@] == x25519_shared(
                    #[trigger] drawn@,
                    hex_bytes(message.payload->hex_key@),
                ) && reply@ == key_message(
                    old(client)@.name,
                    peer@,
                    x25519_public(drawn@),
                    reply.timestamp,
                )
        },
{
}

/// What is told of a decrypted chat message is its sender, its time and its
/// text, and the hidden text where it announces one that can be read.
pub proof fn tell_chat_tells(message: &Message, text: String, event: Event)
    requires
        call_ensures(tell_chat, (message, text), event),
    ensures
        ({
            let announced = message.timestamp >= 0x8000_0000_0000_0000;
            let from = message@.from;
            let timestamp = message.timestamp;
            &&& !announced ==> event@ == (EventView::Text { from, timestamp, text: text@ })
            &&& announced && message.content is None ==> event@ == EventView::Ignored
            &&& announced && message.content is Some ==> match hidden_text(message.content->0@) {
                Some(hidden) => event@ == (EventView::TextAndHidden {
                    from,
                    timestamp,
                    text: text@,
                    hidden,
                }),
                None => event@ == (EventView::HiddenFailed { from, timestamp, text: text@ }),
            }
        }),
{
}

/// What is shown of an event: a plain message in one line with its time, its
/// sender and the whole text; a hidden text in a second one; what concerns a
/// peer at the present time; and nothing of the rest.
pub proof fn events_are_shown(event: &Event, now: u64, lines: Vec<String>)
    requires
        call_ensures(Event::lines, (event, now), lines),
    ensures
        event matches Event::Text { from, timestamp, text } ==> {
            &&& lines@.len() == 1
            &&& lines@[0]@ == "["@ + stamp_text(*timestamp) + "] "@ + from@ + ": "@ + text@
        },
        event matches Event::TextAndHidden { from, timestamp, text, hidden } ==> {
            &&& lines@.len() == 2
            &&& lines@[0]@ == "["@ + stamp_text(*timestamp) + "] "@ + from@ + ": "@ + text@
            &&& lines@[1]@ == "["@ + stamp_text(*timestamp) + "] *** hidden from "@ + from@ + ": "@
                + hidden@
        },
        event matches Event::HiddenFailed { from, timestamp, text } ==> {
            &&& lines@.len() == 1
            &&& lines@[0]@ == "["@ + stamp_text(*timestamp) + "] "@ + from@ + ": "@ + text@
                + " [hidden decode failed]"@
        },
        event matches Event::Established { peer, .. } ==> {
            &&& lines@.len() == 1
            &&& lines@[0]@ == "["@ + stamp_text(now) + "] Secure channel established with "@ + peer@
        },
        event matches Event::NoKey { from } ==> {
            &&& lines@.len() == 1
            &&& lines@[0]@ == "["@ + stamp_text(now) + "] No key for '"@ + from@
                + "', message discarded"@
        },
        event is Ignored || event is System ==> lines@.len() == 0,
{
    lines_are_shown(lines@);
    match *event {
        Event::Text { from, timestamp, text } => {
            text_is_shown(from@, timestamp, text@, now);
            assert(texts_of(lines@)[0] == lines@[0]@);
        },
        Event::TextAndHidden { from, timestamp, text, hidden } => {
            text_is_shown(from@, timestamp, text@, now);
            hidden_is_shown(from@, timestamp, text@, hidden@, now);
            assert(texts_of(lines@)[0] == lines@[0]@);
            assert(texts_of(lines@)[1] == lines@[1]@);
        },
        Event::HiddenFailed { from, timestamp, text } => {
            text_is_shown(from@, timestamp, text@, now);
            failure_is_shown(from@, timestamp, text@, now);
            assert(texts_of(lines@)[0] == lines@[0]@);
        },
        Event::Established { peer, reply } => {
            peers_are_named(peer@, None, now);
            peers_are_named(
                peer@,
                match reply {
                    Some(message) => Some(message@),
                    None => None,
                },
                now,
            );
            assert(texts_of(lines@)[0] == lines@[0]@);
        },
        Event::NoKey { from } => {
            peers_are_named(from@, None, now);
            assert(texts_of(lines@)[0] == lines@[0]@);
        },
        _ => {
            peers_are_named(Seq::empty(), None, now);
        },
    }
}

/// What is shown of an action: what was sent to whom at the time of its
/// message, with whom a key is asked for at the present time, or a hint.
pub proof fn actions_are_shown(action: &Action, now: u64, lines: Vec<String>)
    requires
        call_ensures(Action::lines, (action, now), lines),
    ensures
        action matches Action::Deliver { target, visible, hidden, message } ==> {
            let start = "["@ + stamp_text(message.timestamp) + "] you -> "@ + target@;
            &&& lines@.len() == 1
            &&& hidden is None ==> lines@[0]@ == start + ": "@ + visible@
            &&& hidden matches Some(text) ==> lines@[0]@ == start + " [hidden: "@ + text@
                + "] [visible: "@ + visible@ + "]"@
        },
        action matches Action::Exchange { target, .. } ==> {
            &&& lines@.len() == 2
            &&& lines@[0]@ == "["@ + stamp_text(now) + "] Initiating key exchange with "@ + target@
                + "..."@
            &&& lines@[1]@ == "  Resend your message once the channel is established."@
        },
        action is Quit ==> lines@.len() == 1 && lines@[0]@ == "Goodbye."@,
        action is Usage ==> lines@.len() == 1 && lines@[0]@
            == "Usage: @name <message>  or  @name !<hidden> visible"@,
        action is HiddenSyntax ==> lines@.len() == 1 && lines@[0]@
            == "Hidden syntax: @name !<hidden text> visible text"@,
        action is Unknown ==> lines@.len() == 1 && lines@[0]@
            == "Unknown command. Use @name <message> or :quit"@,
{
    lines_are_shown(lines@);
    hints_are_shown(now);
    match *action {
        Action::Deliver { target, visible, hidden, message } => {
            let text = match hidden {
                Some(h) => h@,
                None => Seq::empty(),
            };
            delivery_is_shown(target@, visible@, text, message@, now);
            assert(texts_of(lines@)[0] == lines@[0]@);
        },
        Action::Exchange { target, request } => {
            exchange_is_shown(target@, request@, now);
            assert(texts_of(lines@)[0] == lines@[0]@);
            assert(texts_of(lines@)[1] == lines@[1]@);
        },
        _ => {
            assert(texts_of(lines@)[0] == lines@[0]@);
        },
    }
}

/// The greeting names the user and the time of day; the lines beside it hold
/// what they are given, whole.
pub proof fn other_lines_are_shown(
    name: &str,
    now: u64,
    greeting: String,
    reason: &str,
    unsent: String,
    written_out: &str,
    system: String,
)
    requires
        call_ensures(banner, (name, now), greeting),
        call_ensures(unsent_line, (reason,), unsent),
        call_ensures(system_line, (written_out, now), system),
    ensures
        greeting@ == "  Secure Chat  |  connected as "@ + name@ + "  |  "@ + stamp_text(now),
        unsent@ == "Send failed: "@ + reason@,
        system@ == "["@ + stamp_text(now) + "] "@ + "[system] "@ + written_out@,
{
    assert("["@ + stamp_text(now) + "] "@ + ("[system] "@ + written_out@) =~= "["@ + stamp_text(now)
        + "] "@ + "[system] "@ + written_out@);
}

/// The menu has its six lines.
pub proof fn menu_is_shown(lines: Vec<String>)
    requires
        call_ensures(menu, (), lines),
    ensures
        lines@.len() == 6,
        lines@[0]@ == "  Commands:"@,
        lines@[1]@ == "    @name <message>           send an encrypted message"@,
        lines@[2]@
            == "    @name !<hidden> <visible>  send a message with an embedded hidden payload"@,
        lines@[3]@ == "      e.g.  @bob !meet at 9pm Let's catch up sometime"@,
        lines@[4]@ == "    :quit                     disconnect and exit"@,
        lines@[5]@ == ""@,
{
    lines_are_shown(lines@);
    let texts = texts_of(lines@);
    assert(texts[0] == lines@[0]@ && texts[1] == lines@[1]@ && texts[2] == lines@[2]@ && texts[3]
        == lines@[3]@ && texts[4] == lines@[4]@ && texts[5] == lines@[5]@);
}

/// A new directory reaches no one.
pub proof fn new_directories_are_empty(directory: Directory, name: Seq<char>)
    requires
        call_ensures(Directory::new, (), directory),
    ensures
        !directory@.contains_key(name),
{
}

/// A registration with a name is accepted and puts that name on its connection;
/// without one it is rejected and changes nothing. No other name is affected.
pub proof fn register_puts_name(
    directory: &mut Directory,
    registration: &Message,
    connection: usize,
    accepted: bool,
    other: Seq<char>,
)
    requires
        call_ensures(Directory::register, (directory, registration, connection), accepted),
        other != registration.from@,
    ensures
        accepted <==> registration.from@.len() > 0,
        accepted ==> final(directory)@.contains_key(registration.from@)
            && final(directory)@[registration.from@] == connection,
        !accepted ==> final(directory)@ == old(directory)@,
        final(directory)@.contains_key(other) == old(directory)@.contains_key(other),
        final(directory)@.contains_key(other) ==> final(directory)@[other] == old(directory)@[other],
{
    register_one_name(old(directory)@, registration.from@, connection, other);
}

/// A message goes to the connection that its addressee is registered on, and
/// to none where the addressee is not registered.
pub proof fn route_finds_addressee(
    directory: &Directory,
    message: &Message,
    connection: Option<usize>,
)
    requires
        call_ensures(Directory::route, (directory, message), connection),
    ensures
        connection is None <==> !directory@.contains_key(message.to@),
        connection matches Some(c) ==> directory@.contains_key(message.to@)
            && directory@[message.to@] == c,
{
    route_by_addressee(directory@, message@, message@, 0);
}

/// The log announces a hidden payload exactly where the top bit of a chat
/// message's timestamp does, and two messages from one sender to one addressee
/// are announced in the same words, whatever they hold.
pub proof fn log_hidden_shows_no_text(
    message: &Message,
    other: &Message,
    time: &str,
    line: Option<String>,
    other_line: Option<String>,
)
    requires
        call_ensures(log_hidden, (message, time), line),
        call_ensures(log_hidden, (other, time), other_line),
    ensures
        line is Some <==> message.kind == MessageKind::Msg && message.timestamp
            >= 0x8000_0000_0000_0000,
        line is Some && other_line is Some && message.from@ == other.from@ && message.to@
            == other.to@ ==> line->0@ == other_line->0@,
        line is Some ==> line->0@ == "["@ + time@ + "] [HIDDEN] "@ + message.from@ + " -> "@
            + message.to@ + " : <encrypted with DH key \u{2014} unreadable by server>"@,
{
    hidden_note_shows_no_text(message@, other@, time@);
}

/// The log's line of a message shows neither its content nor its timestamp.
pub proof fn log_route_shows_no_content(
    message: &Message,
    other: &Message,
    time: &str,
    line: String,
    other_line: String,
)
    requires
        loggable(message@),
        loggable(other@),
        call_ensures(log_route, (message, time), line),
        call_ensures(log_route, (other, time), other_line),
    ensures
        line@ == route_text(message@, time@),
        message.kind == other.kind && message.from@ == other.from@ && message.to@ == other.to@
            && message@.payload == other@.payload ==> line@ == other_line@,
{
}

/// Whether a message can be logged rests on its payload alone.
pub proof fn can_log_looks_at_payload(message: &Message, other: &Message, can: bool, other_can: bool)
    requires
        call_ensures(can_log, (message,), can),
        call_ensures(can_log, (other,), other_can),
    ensures
        can == loggable(message@),
        message@.payload == other@.payload ==> can == other_can,
        message.payload is Empty ==> can,
{
}

/// The other lines of the log start with the time of day and hold what they are
/// given, whole.
pub proof fn log_lines_hold(
    addr: &str,
    reason: &str,
    name: &str,
    time: &str,
    started: String,
    incoming: String,
    unread: String,
    rejected: String,
    connected: String,
    unwritten: String,
    dropped: String,
)
    requires
        call_ensures(started_line, (addr, time), started),
        call_ensures(incoming_line, (addr, time), incoming),
        call_ensures(unread_line, (reason, time), unread),
        call_ensures(rejected_line, (time,), rejected),
        call_ensures(connected_line, (name, time), connected),
        call_ensures(unwritten_line, (name, reason, time), unwritten),
        call_ensures(dropped_line, (name, time), dropped),
    ensures
        ({
            let start = "["@ + time@ + "] "@;
            &&& started@ == start + ("Encrypted chat server running on "@ + addr@)
            &&& incoming@ == start + ("Incoming connection from "@ + addr@)
            &&& unread@ == start + ("Failed to read registration: "@ + reason@)
            &&& rejected@ == start + "Rejected connection with empty name"@
            &&& connected@ == start + ("'"@ + name@ + "' connected"@)
            &&& unwritten@ == start + ("Failed to write to '"@ + name@ + "': "@ + reason@)
            &&& dropped@ == start + ("'"@ + name@ + "' is not connected, message dropped"@)
        }),
{
}

/// A frame is the encoding of its message behind the length of that encoding.
pub proof fn send_to_frames_encoding(message: &Message, body: Vec<u8>, frame: Vec<u8>)
    requires
        call_ensures(Message::encode, (message,), body),
        call_ensures(Message::send_to, (message,), frame),
    ensures
        body@ == message_bytes(message@),
        frame@.len() == 4 + body@.len(),
        frame@.skip(4) == body@,
        0x100_0000 * frame@[0] + 0x1_0000 * frame@[1] + 0x100 * frame@[2] + frame@[3] == body@.len()
            % 0x1_0000_0000,
{
    length_comes_first(message@);
}

/// What is received is what was sent, whatever stands behind it.
pub proof fn recv_from_reads_what_was_sent(
    message: &Message,
    frame: Vec<u8>,
    behind: Seq<u8>,
    bytes: &[u8],
    read: Result<Message, RecvError>,
)
    requires
        call_ensures(Message::send_to, (message,), frame),
        call_ensures(Message::recv_from, (bytes,), read),
        bytes@ == frame@ + behind,
        message_bytes(message@).len() < 0x1_0000_0000,
    ensures
        read matches Ok(m) && m@ == message@,
{
    send_receive(message@, behind);
}

/// A frame that is not complete is waited for, with the number of bytes that
/// are missing; a complete one gives the message that it encodes, or else the
/// cause why there is none.
pub proof fn recv_from_waits_for_frame(bytes: &[u8], read: Result<Message, RecvError>)
    requires
        call_ensures(Message::recv_from, (bytes,), read),
    ensures
        bytes@.len() < frame_len(bytes@) <==> read matches Err(RecvError::UnexpectedEof { .. }),
        read matches Err(RecvError::UnexpectedEof { missing }) ==> bytes@.len() + missing
            == frame_len(bytes@),
        read matches Err(RecvError::Malformed { cause }) ==> refused(frame_body(bytes@), cause),
        read matches Ok(m) ==> encodes(frame_body(bytes@), m@),
{
}

/// A body is decoded to the one message that it encodes, and refused where it
/// encodes none.
pub proof fn decode_reads_message(
    body: &[u8],
    read: Result<Message, bincode::Error>,
    message: MessageView,
)
    requires
        call_ensures(Message::decode, (body,), read),
        body@.len() <= u64::MAX,
    ensures
        encodes(body@, message) ==> (read matches Ok(m) && m@ == message),
        read matches Err(cause) ==> refused(body@, cause),
{
    if encodes(body@, message) && read is Ok {
        message_unique(read->Ok_0@, message, body@);
    }
}

} // verus!
