//! The server: who is connected, where a message goes, and what the log says.

use crate::message::{
    has_hidden_flag, is_flagged, text_of, Message, MessageKind, MessageView, Payload, PayloadView,
};
use vstd::hash_map::StringHashMap;
use vstd::prelude::*;
use vstd::string::StringExecFns;
use vstd::utf8::{
    decode_utf8, decode_utf8_encode_utf8, decode_utf8_split, encode_utf8, encode_utf8_decode_utf8,
    encode_utf8_valid_utf8, is_char_boundary, is_char_boundary_start_end_of_seq, valid_utf8_split,
};

verus! {

/// The clients by name, each with the number of its connection.
pub struct Directory {
    connections: StringHashMap<usize>,
}

impl View for Directory {
    type V = Map<Seq<char>, usize>;

    closed spec fn view(&self) -> Map<Seq<char>, usize> {
        self.connections@
    }
}

/// The directory after a registration: whoever gives a name is reached under
/// it from now on, and a registration without a name is rejected.
pub open spec fn registered(
    directory: Map<Seq<char>, usize>,
    name: Seq<char>,
    connection: usize,
) -> Map<Seq<char>, usize> {
    if name.len() == 0 {
        directory
    } else {
        directory.insert(name, connection)
    }
}

/// The connection that a message goes to: there is one when its addressee is
/// connected.
pub open spec fn routed(directory: Map<Seq<char>, usize>, message: MessageView) -> Option<usize> {
    if directory.contains_key(message.to) {
        Some(directory[message.to])
    } else {
        None
    }
}

impl Directory {
    /// A directory of no clients.
    pub fn new() -> (directory: Directory)
        ensures
            directory@ == Map::<Seq<char>, usize>::empty(),
    {
        Directory { connections: StringHashMap::new() }
    }

    /// Registers the sender of a connection's first message; false where it
    /// gives no name and is rejected.
    pub fn register(&mut self, registration: &Message, connection: usize) -> (accepted: bool)
        ensures
            accepted == (registration@.from.len() > 0),
            final(self)@ == registered(old(self)@, registration@.from, connection),
    {
        if registration.from.as_str().is_empty() {
            return false;
        }
        self.connections.insert(registration.from.clone(), connection);
        true
    }

    /// The connection that a message goes to.
    pub fn route(&self, message: &Message) -> (connection: Option<usize>)
        ensures
            connection == routed(self@, message@),
    {
        match self.connections.get(message.to.as_str()) {
            Some(connection) => Some(*connection),
            None => None,
        }
    }
}

/// The server sees that a message carries a hidden payload.
pub open spec fn announces_hidden(message: MessageView) -> bool {
    message.kind == MessageKind::Msg && is_flagged(message.timestamp)
}

/// How many bytes of a text are logged: `most`, or all of a shorter text.
pub open spec fn logged_len(text: Seq<char>, most: int) -> int {
    if encode_utf8(text).len() < most {
        encode_utf8(text).len() as int
    } else {
        most
    }
}

/// What is logged of a text: its first bytes.
pub open spec fn logged_part(text: Seq<char>, most: int) -> Seq<char> {
    decode_utf8(encode_utf8(text).subrange(0, logged_len(text, most)))
}

/// The logged part of a text ends between two characters.
pub open spec fn splits(text: Seq<char>, most: int) -> bool {
    is_char_boundary(encode_utf8(text), logged_len(text, most))
}

/// Every part of a message that is logged ends between two characters.
pub open spec fn loggable(message: MessageView) -> bool {
    match message.payload {
        PayloadView::PublicKey { hex_key } => splits(hex_key, 12),
        PayloadView::Encrypted { nonce_hex, cipher_hex } => splits(nonce_hex, 8) && splits(
            cipher_hex,
            12,
        ),
        PayloadView::Empty => true,
    }
}

/// How the log calls a kind of message.
pub open spec fn kind_tag(kind: MessageKind) -> Seq<char> {
    match kind {
        MessageKind::Pub => "KEY"@,
        MessageKind::Msg => "MSG"@,
        MessageKind::System => "SYS"@,
    }
}

/// What the log says of a payload.
pub open spec fn payload_info(payload: PayloadView) -> Seq<char> {
    match payload {
        PayloadView::PublicKey { hex_key } => "pub_key="@ + logged_part(hex_key, 12) + "..."@,
        PayloadView::Encrypted { nonce_hex, cipher_hex } => "nonce="@ + logged_part(nonce_hex, 8)
            + "... cipher="@ + logged_part(cipher_hex, 12) + "..."@,
        PayloadView::Empty => "empty"@,
    }
}

/// What the log says of a message at a time of day.
pub open spec fn route_text(message: MessageView, time: Seq<char>) -> Seq<char> {
    "["@ + time + "] ["@ + kind_tag(message.kind) + "] "@ + message.from + " -> "@ + message.to
        + "  ("@ + payload_info(message.payload) + ")"@
}

/// What the log says of a hidden payload at a time of day.
pub open spec fn hidden_note(message: MessageView, time: Seq<char>) -> Seq<char> {
    "["@ + time + "] [HIDDEN] "@ + message.from + " -> "@ + message.to
        + " : <encrypted with DH key \u{2014} unreadable by server>"@
}

/// A line of the log: a time of day in brackets, and what happened then.
pub open spec fn log_text(time: Seq<char>, what: Seq<char>) -> Seq<char> {
    "["@ + time + "] "@ + what
}

/// The start of a line of the log.
fn start_log(time: &str) -> (line: String)
    ensures
        line@ == "["@ + time@ + "] "@,
{
    let mut line = String::from_str("[");
    line.append(time);
    line.append("] ");
    line
}

/// The log's line for a server that starts at an address.
pub fn started_line(addr: &str, time: &str) -> (line: String)
    ensures
        line@ == log_text(time@, "Encrypted chat server running on "@ + addr@),
{
    let mut line = start_log(time);
    line.append("Encrypted chat server running on ");
    line.append(addr);
    assert(line@ =~= log_text(time@, "Encrypted chat server running on "@ + addr@));
    line
}

/// The log's line for a connection from an address.
pub fn incoming_line(addr: &str, time: &str) -> (line: String)
    ensures
        line@ == log_text(time@, "Incoming connection from "@ + addr@),
{
    let mut line = start_log(time);
    line.append("Incoming connection from ");
    line.append(addr);
    assert(line@ =~= log_text(time@, "Incoming connection from "@ + addr@));
    line
}

/// The log's line for a registration that could not be read.
pub fn unread_line(reason: &str, time: &str) -> (line: String)
    ensures
        line@ == log_text(time@, "Failed to read registration: "@ + reason@),
{
    let mut line = start_log(time);
    line.append("Failed to read registration: ");
    line.append(reason);
    assert(line@ =~= log_text(time@, "Failed to read registration: "@ + reason@));
    line
}

/// The log's line for a registration without a name.
pub fn rejected_line(time: &str) -> (line: String)
    ensures
        line@ == log_text(time@, "Rejected connection with empty name"@),
{
    let mut line = start_log(time);
    line.append("Rejected connection with empty name");
    line
}

/// The log's line for a client that has registered.
pub fn connected_line(name: &str, time: &str) -> (line: String)
    ensures
        line@ == log_text(time@, "'"@ + name@ + "' connected"@),
{
    let mut line = start_log(time);
    line.append("'");
    line.append(name);
    line.append("' connected");
    assert(line@ =~= log_text(time@, "'"@ + name@ + "' connected"@));
    line
}

/// The log's line for a message that could not be written to its addressee.
pub fn unwritten_line(to: &str, reason: &str, time: &str) -> (line: String)
    ensures
        line@ == log_text(time@, "Failed to write to '"@ + to@ + "': "@ + reason@),
{
    let mut line = start_log(time);
    line.append("Failed to write to '");
    line.append(to);
    line.append("': ");
    line.append(reason);
    assert(line@ =~= log_text(time@, "Failed to write to '"@ + to@ + "': "@ + reason@));
    line
}

/// The log's line for a message whose addressee is not connected.
pub fn dropped_line(to: &str, time: &str) -> (line: String)
    ensures
        line@ == log_text(time@, "'"@ + to@ + "' is not connected, message dropped"@),
{
    let mut line = start_log(time);
    line.append("'");
    line.append(to);
    line.append("' is not connected, message dropped");
    assert(line@ =~= log_text(time@, "'"@ + to@ + "' is not connected, message dropped"@));
    line
}

/// The number of bytes to log of a text.
fn len_to_log(text: &str, most: usize) -> (len: usize)
    ensures
        len == logged_len(text@, most as int),
{
    let len: usize = text.as_bytes().len();
    if len < most {
        len
    } else {
        most
    }
}

/// Whether the logged part of a text ends between two characters.
fn can_split(text: &str, most: usize) -> (can: bool)
    ensures
        can == splits(text@, most as int),
{
    text.is_char_boundary(len_to_log(text, most))
}

/// What is logged of a text.
fn part_to_log(text: &str, most: usize) -> (part: &str)
    requires
        splits(text@, most as int),
    ensures
        part@ == logged_part(text@, most as int),
{
    let (part, _) = text.split_at(len_to_log(text, most));
    proof {
        encode_utf8_decode_utf8(part@);
    }
    part
}

/// Whether a message can be logged.
pub fn can_log(message: &Message) -> (can: bool)
    ensures
        can == loggable(message@),
{
    match &message.payload {
        Payload::PublicKey { hex_key } => can_split(hex_key.as_str(), 12),
        Payload::Encrypted { nonce_hex, cipher_hex } => can_split(nonce_hex.as_str(), 8)
            && can_split(cipher_hex.as_str(), 12),
        Payload::Empty => true,
    }
}

/// The log's line for a message at a time of day.
pub fn log_route(message: &Message, time: &str) -> (line: String)
    requires
        loggable(message@),
    ensures
        line@ == route_text(message@, time@),
{
    let mut line = String::from_str("[");
    line.append(time);
    line.append("] [");
    line.append(
        match message.kind {
            MessageKind::Pub => "KEY",
            MessageKind::Msg => "MSG",
            MessageKind::System => "SYS",
        },
    );
    line.append("] ");
    line.append(message.from.as_str());
    line.append(" -> ");
    line.append(message.to.as_str());
    line.append("  (");
    match &message.payload {
        Payload::PublicKey { hex_key } => {
            line.append("pub_key=");
            line.append(part_to_log(hex_key.as_str(), 12));
            line.append("...");
        },
        Payload::Encrypted { nonce_hex, cipher_hex } => {
            line.append("nonce=");
            line.append(part_to_log(nonce_hex.as_str(), 8));
            line.append("... cipher=");
            line.append(part_to_log(cipher_hex.as_str(), 12));
            line.append("...");
        },
        Payload::Empty => {
            line.append("empty");
        },
    }
    line.append(")");
    assert(line@ =~= route_text(message@, time@));
    line
}

/// The log's second line for a message that carries a hidden payload. It says
/// that there is one, and does not show it.
pub fn log_hidden(message: &Message, time: &str) -> (line: Option<String>)
    ensures
        text_of(line) == if announces_hidden(message@) {
            Some(hidden_note(message@, time@))
        } else {
            None
        },
{
    if message.kind == MessageKind::Msg && has_hidden_flag(message.timestamp) {
        let mut line = String::from_str("[");
        line.append(time);
        line.append("] [HIDDEN] ");
        line.append(message.from.as_str());
        line.append(" -> ");
        line.append(message.to.as_str());
        line.append(" : <encrypted with DH key \u{2014} unreadable by server>");
        Some(line)
    } else {
        None
    }
}

/// Whoever registers under a name is who messages to that name go to, until
/// the name is registered again; no other name is affected.
pub proof fn register_route(
    directory: Map<Seq<char>, usize>,
    name: Seq<char>,
    connection: usize,
    message: MessageView,
)
    requires
        name.len() > 0,
    ensures
        message.to == name ==> routed(registered(directory, name, connection), message) == Some(
            connection,
        ),
        message.to != name ==> routed(registered(directory, name, connection), message) == routed(
            directory,
            message,
        ),
{
}

/// A message goes to a connection exactly when its addressee is registered
/// there: whatever else it holds makes no difference, and where no one is
/// registered under its addressee it goes nowhere.
pub proof fn route_by_addressee(
    directory: Map<Seq<char>, usize>,
    message: MessageView,
    other: MessageView,
    connection: usize,
)
    ensures
        routed(directory, message) == Some(connection) <==> directory.contains_key(message.to)
            && directory[message.to] == connection,
        routed(directory, message) is None <==> !directory.contains_key(message.to),
        message.to == other.to ==> routed(directory, message) == routed(directory, other),
{
}

/// A registration puts its name on its connection and leaves every other name
/// alone; without a name it changes nothing.
pub proof fn register_one_name(
    directory: Map<Seq<char>, usize>,
    name: Seq<char>,
    connection: usize,
    other: Seq<char>,
)
    requires
        other != name,
    ensures
        ({
            let next = registered(directory, name, connection);
            &&& name.len() > 0 ==> next.contains_key(name) && next[name] == connection
            &&& name.len() == 0 ==> next == directory
            &&& next.contains_key(other) == directory.contains_key(other)
            &&& next.contains_key(other) ==> next[other] == directory[other]
        }),
{
}

/// A message announces a hidden payload exactly when it is a chat message
/// whose timestamp has its top bit.
pub proof fn hidden_is_announced(message: MessageView)
    ensures
        announces_hidden(message) <==> message.kind == MessageKind::Msg && message.timestamp
            >= 0x8000_0000_0000_0000,
{
}

/// What the log says of a hidden payload names the sender and the addressee,
/// and depends on nothing else of the message: neither the hidden text nor the
/// visible one shows.
pub proof fn hidden_note_shows_no_text(message: MessageView, other: MessageView, time: Seq<char>)
    ensures
        message.from == other.from && message.to == other.to ==> hidden_note(message, time)
            == hidden_note(other, time),
        hidden_note(message, time) == "["@ + time + "] [HIDDEN] "@ + message.from + " -> "@
            + message.to + " : <encrypted with DH key \u{2014} unreadable by server>"@,
{
}

/// What the log says of a message does not depend on its content or its
/// timestamp.
pub proof fn route_text_shows_no_content(message: MessageView, other: MessageView, time: Seq<char>)
    requires
        message.kind == other.kind,
        message.from == other.from,
        message.to == other.to,
        message.payload == other.payload,
    ensures
        route_text(message, time) == route_text(other, time),
{
}

/// Of a text that is logged the first bytes show, as many as may, and no more:
/// what shows is the start of the text.
pub proof fn logged_part_is_start(text: Seq<char>, most: int)
    requires
        0 <= most,
        splits(text, most),
    ensures
        logged_part(text, most).is_prefix_of(text),
        encode_utf8(text).len() <= most ==> logged_part(text, most) == text,
        encode_utf8(text).len() > most ==> encode_utf8(logged_part(text, most)).len() == most,
{
    let bytes = encode_utf8(text);
    let len = if bytes.len() <= most {
        bytes.len() as int
    } else {
        most
    };
    encode_utf8_valid_utf8(text);
    encode_utf8_decode_utf8(text);
    valid_utf8_split(bytes, len);
    decode_utf8_split(bytes, len);
    decode_utf8_encode_utf8(bytes.subrange(0, len));
    if bytes.len() <= most {
        assert(bytes.subrange(0, len) =~= bytes);
    }
    let part = logged_part(text, most);
    assert(part =~= text.subrange(0, part.len() as int));
}

/// The log shows the kind, the sender and the addressee of a message, and of a
/// public key the first twelve bytes.
pub proof fn key_is_logged(
    message: MessageView,
    hex_key: Seq<char>,
    time: Seq<char>,
)
    requires
        message.kind == MessageKind::Pub,
        message.payload == (PayloadView::PublicKey { hex_key }),
    ensures
        route_text(message, time) == "["@ + time + "] [KEY] "@ + message.from + " -> "@ + message.to
            + "  (pub_key="@ + logged_part(hex_key, 12) + "...)"@,
{
    log_pieces();
    assert(route_text(message, time) =~= "["@ + time + "] [KEY] "@ + message.from + " -> "@
        + message.to + "  (pub_key="@ + logged_part(hex_key, 12) + "...)"@);
}

/// The log shows of a chat message the first eight bytes of the nonce and the
/// first twelve bytes of the cipher text.
pub proof fn chat_is_logged(
    message: MessageView,
    nonce_hex: Seq<char>,
    cipher_hex: Seq<char>,
    time: Seq<char>,
)
    requires
        message.kind == MessageKind::Msg,
        message.payload == (PayloadView::Encrypted { nonce_hex, cipher_hex }),
    ensures
        route_text(message, time) == "["@ + time + "] [MSG] "@ + message.from + " -> "@ + message.to
            + "  (nonce="@ + logged_part(nonce_hex, 8) + "... cipher="@ + logged_part(
            cipher_hex,
            12,
        ) + "...)"@,
{
    log_pieces();
    assert(route_text(message, time) =~= "["@ + time + "] [MSG] "@ + message.from + " -> "@
        + message.to + "  (nonce="@ + logged_part(nonce_hex, 8) + "... cipher="@ + logged_part(
        cipher_hex,
        12,
    ) + "...)"@);
}

/// The log shows of a message of the system that it is empty, where it is.
pub proof fn system_is_logged(message: MessageView, time: Seq<char>)
    requires
        message.kind == MessageKind::System,
        message.payload is Empty,
    ensures
        route_text(message, time) == "["@ + time + "] [SYS] "@ + message.from + " -> "@ + message.to
            + "  (empty)"@,
{
    log_pieces();
    assert(route_text(message, time) =~= "["@ + time + "] [SYS] "@ + message.from + " -> "@
        + message.to + "  (empty)"@);
}

/// What the log says of a payload does not depend on the kind of message that
/// carries it, nor what it says of the kind on the payload.
pub proof fn kind_and_payload_are_logged_apart(
    message: MessageView,
    kind: MessageKind,
    payload: PayloadView,
    time: Seq<char>,
)
    ensures
        ({
            let other = MessageView { kind, payload, ..message };
            let start = "["@ + time + "] ["@;
            let middle = "] "@ + message.from + " -> "@ + message.to + "  ("@;
            &&& route_text(message, time) == start + kind_tag(message.kind) + middle + payload_info(
                message.payload,
            ) + ")"@
            &&& route_text(other, time) == start + kind_tag(kind) + middle + payload_info(payload)
                + ")"@
        }),
{
    let other = MessageView { kind, payload, ..message };
    let start = "["@ + time + "] ["@;
    let middle = "] "@ + message.from + " -> "@ + message.to + "  ("@;
    assert(route_text(message, time) =~= start + kind_tag(message.kind) + middle + payload_info(
        message.payload,
    ) + ")"@);
    assert(route_text(other, time) =~= start + kind_tag(kind) + middle + payload_info(payload)
        + ")"@);
}

/// The pieces of a line of the log, put together.
proof fn log_pieces()
    ensures
        "] [KEY] "@ == "] ["@ + "KEY"@ + "] "@,
        "] [MSG] "@ == "] ["@ + "MSG"@ + "] "@,
        "] [SYS] "@ == "] ["@ + "SYS"@ + "] "@,
        "  (pub_key="@ == "  ("@ + "pub_key="@,
        "  (nonce="@ == "  ("@ + "nonce="@,
        "  (empty)"@ == "  ("@ + "empty"@ + ")"@,
        "...)"@ == "..."@ + ")"@,
{
    reveal_strlit("] [KEY] ");
    reveal_strlit("] [MSG] ");
    reveal_strlit("] [SYS] ");
    reveal_strlit("] [");
    reveal_strlit("KEY");
    reveal_strlit("MSG");
    reveal_strlit("SYS");
    reveal_strlit("] ");
    reveal_strlit("  (pub_key=");
    reveal_strlit("  (nonce=");
    reveal_strlit("  (empty)");
    reveal_strlit("  (");
    reveal_strlit("pub_key=");
    reveal_strlit("nonce=");
    reveal_strlit("empty");
    reveal_strlit("...)");
    reveal_strlit("...");
    reveal_strlit(")");
}

/// A message can be logged exactly when no character is cut where the logged
/// part of a text ends.
pub proof fn loggable_cuts_no_character(message: MessageView)
    ensures
        message.payload is Empty ==> loggable(message),
        message.payload matches PayloadView::PublicKey { hex_key } ==> (loggable(message)
            <==> encode_utf8(hex_key).len() < 12 || is_char_boundary(encode_utf8(hex_key), 12)),
        message.payload matches PayloadView::Encrypted { nonce_hex, cipher_hex } ==> (loggable(
            message,
        ) <==> (encode_utf8(nonce_hex).len() < 8 || is_char_boundary(encode_utf8(nonce_hex), 8)) && (
        encode_utf8(cipher_hex).len() < 12 || is_char_boundary(encode_utf8(cipher_hex), 12))),
{
    match message.payload {
        PayloadView::PublicKey { hex_key } => {
            encode_utf8_valid_utf8(hex_key);
            is_char_boundary_start_end_of_seq(encode_utf8(hex_key));
        },
        PayloadView::Encrypted { nonce_hex, cipher_hex } => {
            encode_utf8_valid_utf8(nonce_hex);
            encode_utf8_valid_utf8(cipher_hex);
            is_char_boundary_start_end_of_seq(encode_utf8(nonce_hex));
            is_char_boundary_start_end_of_seq(encode_utf8(cipher_hex));
        },
        PayloadView::Empty => {},
    }
}

/// A line of the log starts with the time of day in brackets.
pub proof fn log_starts_with_time(time: Seq<char>, what: Seq<char>)
    ensures
        log_text(time, what) == "["@ + time + "] "@ + what,
        log_text(time, what).len() == time.len() + what.len() + 3,
{
    reveal_strlit("[");
    reveal_strlit("] ");
}

} // verus!
