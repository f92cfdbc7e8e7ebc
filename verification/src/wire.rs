//! The wire format: a message in bincode's encoding, behind its length.

use crate::call::{outcome_of, outcome_of_both};
use crate::message::{
    slice_text_of, text_of, Message, MessageKind, MessageView, Payload, PayloadView,
};
use vstd::prelude::*;
use vstd::utf8::{encode_utf8, encode_utf8_decode_utf8};

verus! {

/// The four bytes of `x`, the lowest first.
#[verifier::opaque]
pub open spec fn le4(x: u32) -> Seq<u8> {
    seq![
        (x % 0x100) as u8,
        (x / 0x100 % 0x100) as u8,
        (x / 0x1_0000 % 0x100) as u8,
        (x / 0x100_0000) as u8,
    ]
}

/// The eight bytes of `x`, the lowest first.
#[verifier::opaque]
pub open spec fn le8(x: u64) -> Seq<u8> {
    le4((x % 0x1_0000_0000) as u32) + le4((x / 0x1_0000_0000) as u32)
}

/// The four bytes of `x`, the highest first.
pub open spec fn be4(x: u32) -> Seq<u8> {
    le4(x).reverse()
}

/// A string in bincode's encoding: the number of its bytes, then the bytes.
#[verifier::opaque]
pub open spec fn text_bytes(text: Seq<char>) -> Seq<u8> {
    le8(encode_utf8(text).len() as u64) + encode_utf8(text)
}

/// An optional string in bincode's encoding: a tag, then the string.
pub open spec fn optional_text_bytes(text: Option<Seq<char>>) -> Seq<u8> {
    match text {
        None => seq![0u8],
        Some(t) => seq![1u8] + text_bytes(t),
    }
}

/// What every message starts with: all but what its payload holds.
#[verifier::ext_equal]
pub struct HeadView {
    pub kind: u32,
    pub to: Seq<char>,
    pub from: Seq<char>,
    pub timestamp: u64,
    pub content: Option<Seq<char>>,
    pub variant: u32,
}

/// A head in bincode's encoding: its fields one after the other.
#[verifier::opaque]
pub open spec fn head_bytes(head: HeadView) -> Seq<u8> {
    le4(head.kind) + (text_bytes(head.to) + (text_bytes(head.from) + (le8(head.timestamp) + (
    optional_text_bytes(head.content) + le4(head.variant)))))
}

/// The index of a kind of message on the wire.
pub open spec fn kind_index(kind: MessageKind) -> u32 {
    match kind {
        MessageKind::Pub => 0,
        MessageKind::Msg => 1,
        MessageKind::System => 2,
    }
}

/// The index of a payload's variant on the wire.
pub open spec fn variant_index(payload: PayloadView) -> u32 {
    match payload {
        PayloadView::PublicKey { .. } => 0,
        PayloadView::Encrypted { .. } => 1,
        PayloadView::Empty => 2,
    }
}

/// The head of a message.
pub open spec fn head_of(message: MessageView) -> HeadView {
    HeadView {
        kind: kind_index(message.kind),
        to: message.to,
        from: message.from,
        timestamp: message.timestamp,
        content: message.content,
        variant: variant_index(message.payload),
    }
}

/// What a payload holds, in bincode's encoding.
pub open spec fn payload_bytes(payload: PayloadView) -> Seq<u8> {
    match payload {
        PayloadView::PublicKey { hex_key } => text_bytes(hex_key),
        PayloadView::Encrypted { nonce_hex, cipher_hex } => text_bytes(nonce_hex) + text_bytes(
            cipher_hex,
        ),
        PayloadView::Empty => Seq::empty(),
    }
}

/// A message in bincode's encoding.
pub open spec fn message_bytes(message: MessageView) -> Seq<u8> {
    head_bytes(head_of(message)) + payload_bytes(message.payload)
}

/// A message on the wire: the length of its encoding in four bytes, the
/// highest first, then the encoding.
pub open spec fn frame_bytes(message: MessageView) -> Seq<u8> {
    be4((message_bytes(message).len() % 0x1_0000_0000) as u32) + message_bytes(message)
}

/// The number that four bytes hold, the highest first.
pub open spec fn be_value(b: Seq<u8>) -> int {
    b[0] * 0x100_0000 + b[1] * 0x1_0000 + b[2] * 0x100 + b[3]
}

/// How many bytes a frame has, as far as its first bytes tell.
pub open spec fn frame_len(bytes: Seq<u8>) -> int {
    if bytes.len() < 4 {
        4
    } else {
        4 + be_value(bytes)
    }
}

/// What a whole frame holds behind its length.
pub open spec fn frame_body(bytes: Seq<u8>) -> Seq<u8> {
    bytes.subrange(4, frame_len(bytes))
}

/// A body encodes a message when it starts with the message's encoding; what
/// follows the encoding is ignored.
pub open spec fn encodes(body: Seq<u8>, message: MessageView) -> bool {
    message_bytes(message).is_prefix_of(body)
}

/// Why no message could be received.
#[derive(Debug)]
pub enum RecvError {
    /// The frame goes on: this many bytes are missing, as far as can be told.
    UnexpectedEof { missing: usize },
    /// The frame holds no message, for the cause that bincode gives.
    Malformed { cause: bincode::Error },
}

/// What goes wrong in bincode, behind the box of `bincode::Error`.
#[verifier::external_type_specification]
#[verifier::external_body]
pub struct ExErrorKind(bincode::ErrorKind);

/// Calls `bincode::serialize` on a head as a tuple. In bincode's default
/// configuration integers take their full width, the lowest byte first, a
/// string follows the number of its bytes in eight bytes, an option follows a
/// tag of one byte, and a tuple is its fields one after the other. Without a
/// limit on the size none of these can fail.
#[verifier::external_body]
fn serialize_head(
    kind: u32,
    to: &str,
    from: &str,
    timestamp: u64,
    content: Option<&str>,
    variant: u32,
) -> (bytes: Result<Vec<u8>, bincode::Error>)
    ensures
        bytes is Ok,
        bytes->Ok_0@ == head_bytes(
            (HeadView {
                kind,
                to: to@,
                from: from@,
                timestamp,
                content: slice_text_of(content),
                variant,
            }),
        ),
{
    bincode::serialize(&(kind, to, from, timestamp, content, variant))
}

/// Calls `bincode::serialize` on a string: the number of its bytes in eight
/// bytes, the lowest first, then the bytes. It cannot fail.
#[verifier::external_body]
fn serialize_text(text: &str) -> (bytes: Result<Vec<u8>, bincode::Error>)
    ensures
        bytes is Ok,
        bytes->Ok_0@ == text_bytes(text@),
{
    bincode::serialize(text)
}

/// Calls `bincode::deserialize` for the index of a variant: four bytes, the
/// lowest first; what follows is ignored. It fails where there are fewer bytes.
/// What the error says is not stated.
#[verifier::external_body]
fn deserialize_index(bytes: &[u8]) -> (index: Result<u32, bincode::Error>)
    ensures
        match index {
            Ok(i) => le4(i).is_prefix_of(bytes@),
            Err(_) => bytes@.len() < 4,
        },
{
    bincode::deserialize(bytes)
}

/// Calls `serde::de::Error::invalid_value` for bincode's errors: the error of
/// an index in whose place `expected` was due. What the error says of the two
/// is not stated.
#[verifier::external_body]
fn invalid_index(index: u32, expected: &str) -> (cause: bincode::Error) {
    serde::de::Error::invalid_value(serde::de::Unexpected::Unsigned(index as u64), &expected)
}

/// A head as `bincode::deserialize` gives it.
pub open spec fn head_view(head: (u32, String, String, u64, Option<String>, u32)) -> HeadView {
    HeadView {
        kind: head.0,
        to: head.1@,
        from: head.2@,
        timestamp: head.3,
        content: text_of(head.4),
        variant: head.5,
    }
}

/// Calls `bincode::deserialize` for a head as a tuple: it reads the fields one
/// after the other, in the encoding that `serialize` writes, and ignores what
/// follows. It fails where the bytes end early, a string is no UTF-8 or an
/// option's tag is neither zero nor one, that is where the bytes start with
/// the encoding of no head. What the error says is not stated.
#[verifier::external_body]
fn deserialize_head(bytes: &[u8]) -> (head: Result<
    (u32, String, String, u64, Option<String>, u32),
    bincode::Error,
>)
    ensures
        match head {
            Ok(h) => head_bytes(head_view(h)).is_prefix_of(bytes@),
            Err(_) => forall|h: HeadView|
                #![trigger head_bytes(h)]
                !head_bytes(h).is_prefix_of(bytes@),
        },
{
    bincode::deserialize(bytes)
}

/// Calls `bincode::deserialize` for a string: it reads the number of bytes and
/// the bytes, and ignores what follows. It fails where the bytes end early or
/// are no UTF-8, that is where they start with the encoding of no string. What
/// the error says is not stated.
#[verifier::external_body]
fn deserialize_text(bytes: &[u8]) -> (text: Result<String, bincode::Error>)
    ensures
        match text {
            Ok(t) => text_bytes(t@).is_prefix_of(bytes@),
            Err(_) => forall|t: Seq<char>|
                #![trigger text_bytes(t)]
                !text_bytes(t).is_prefix_of(bytes@),
        },
{
    bincode::deserialize(bytes)
}

/// The cause is bincode's error on bytes that hold no index of a variant.
pub closed spec fn index_refused(bytes: Seq<u8>, cause: bincode::Error) -> bool {
    exists|slice: &[u8]|
        slice@ == bytes && #[trigger] call_ensures(deserialize_index, (slice,), Err(cause))
}

/// The cause is bincode's error on bytes that start with no head.
pub closed spec fn head_refused(bytes: Seq<u8>, cause: bincode::Error) -> bool {
    exists|slice: &[u8]|
        slice@ == bytes && #[trigger] call_ensures(deserialize_head, (slice,), Err(cause))
}

/// The cause is bincode's error on bytes that start with no string.
pub closed spec fn text_refused(bytes: Seq<u8>, cause: bincode::Error) -> bool {
    exists|slice: &[u8]|
        slice@ == bytes && #[trigger] call_ensures(deserialize_text, (slice,), Err(cause))
}

/// The cause is the error of an index that stands for none of three variants.
pub closed spec fn variant_refused(index: u32, cause: bincode::Error) -> bool {
    exists|expected: &str|
        expected@ == "variant index 0 <= i < 3"@ && #[trigger] call_ensures(
            invalid_index,
            (index, expected),
            cause,
        )
}

/// The cause tells of the first thing that is wrong with bytes that do not
/// start with what the payload of a variant holds: the variant, or one of the
/// strings.
pub open spec fn payload_refused(bytes: Seq<u8>, variant: u32, cause: bincode::Error) -> bool {
    if variant == 0 {
        text_refused(bytes, cause)
    } else if variant == 1 {
        ||| text_refused(bytes, cause)
        ||| exists|nonce: Seq<char>|
            (#[trigger] text_bytes(nonce)).is_prefix_of(bytes) && text_refused(
                bytes.skip(text_bytes(nonce).len() as int),
                cause,
            )
    } else {
        variant > 2 && variant_refused(variant, cause)
    }
}

/// The cause tells of the first thing that is wrong with a body that encodes
/// no message: the kind, then the rest of the head, then the payload.
pub open spec fn refused(body: Seq<u8>, cause: bincode::Error) -> bool {
    ||| index_refused(body, cause)
    ||| exists|kind: u32|
        (#[trigger] le4(kind)).is_prefix_of(body) && if kind > 2 {
            variant_refused(kind, cause)
        } else {
            ||| head_refused(body, cause)
            ||| exists|head: HeadView|
                (#[trigger] head_bytes(head)).is_prefix_of(body) && payload_refused(
                    body.skip(head_bytes(head).len() as int),
                    head.variant,
                    cause,
                )
        }
}

/// A number takes as many bytes as its type.
proof fn number_len(x: u32, y: u64)
    ensures
        le4(x).len() == 4,
        le8(y).len() == 8,
{
    reveal(le4);
    reveal(le8);
}

/// A string takes eight bytes more than its own.
proof fn text_len(text: Seq<char>)
    ensures
        text_bytes(text).len() == 8 + encode_utf8(text).len(),
{
    reveal(text_bytes);
    number_len(0, encode_utf8(text).len() as u64);
}

/// The length of a head's encoding.
proof fn head_bytes_len(head: HeadView)
    ensures
        head_bytes(head).len() == 32 + encode_utf8(head.to).len() + encode_utf8(head.from).len()
            + optional_text_bytes(head.content).len(),
{
    reveal(head_bytes);
    number_len(head.kind, head.timestamp);
    number_len(head.variant, 0);
    text_len(head.to);
    text_len(head.from);
}

/// A head starts with the index of its kind.
proof fn head_starts(head: HeadView, bytes: Seq<u8>)
    requires
        head_bytes(head).is_prefix_of(bytes),
    ensures
        le4(head.kind).is_prefix_of(bytes),
{
    reveal(head_bytes);
    prefix_of_two(
        le4(head.kind),
        text_bytes(head.to) + (text_bytes(head.from) + (le8(head.timestamp) + (optional_text_bytes(
            head.content,
        ) + le4(head.variant)))),
        bytes,
    );
}

/// A number is put together again from its bytes.
proof fn le4_sum(x: u32)
    ensures
        x == le4(x)[0] + 0x100 * le4(x)[1] + 0x1_0000 * le4(x)[2] + 0x100_0000 * le4(x)[3],
{
    reveal(le4);
    assert(x == x % 0x100 + 0x100 * (x / 0x100 % 0x100) + 0x1_0000 * (x / 0x1_0000 % 0x100)
        + 0x100_0000 * (x / 0x100_0000)) by (bit_vector);
    assert(x / 0x100_0000 < 0x100) by (bit_vector);
}

/// Four bytes tell the number that they hold.
proof fn le4_injective(x: u32, y: u32)
    requires
        le4(x) == le4(y),
    ensures
        x == y,
{
    le4_sum(x);
    le4_sum(y);
}

/// Eight bytes tell the number that they hold.
proof fn le8_injective(x: u64, y: u64)
    requires
        le8(x) == le8(y),
    ensures
        x == y,
{
    reveal(le8);
    number_len((x % 0x1_0000_0000) as u32, x);
    number_len((x / 0x1_0000_0000) as u32, x);
    number_len((y % 0x1_0000_0000) as u32, y);
    number_len((y / 0x1_0000_0000) as u32, y);
    assert(le8(x).subrange(0, 4) =~= le4((x % 0x1_0000_0000) as u32));
    assert(le8(y).subrange(0, 4) =~= le4((y % 0x1_0000_0000) as u32));
    assert(le8(x).subrange(4, 8) =~= le4((x / 0x1_0000_0000) as u32));
    assert(le8(y).subrange(4, 8) =~= le4((y / 0x1_0000_0000) as u32));
    le4_injective((x % 0x1_0000_0000) as u32, (y % 0x1_0000_0000) as u32);
    le4_injective((x / 0x1_0000_0000) as u32, (y / 0x1_0000_0000) as u32);
}

/// A sequence starts with `a` and then `b` exactly when it starts with `a` and
/// what follows starts with `b`.
proof fn prefix_of_two(a: Seq<u8>, b: Seq<u8>, bytes: Seq<u8>)
    ensures
        (a + b).is_prefix_of(bytes) <==> a.is_prefix_of(bytes) && b.is_prefix_of(
            bytes.skip(a.len() as int),
        ),
{
    let ab = a + b;
    if ab.is_prefix_of(bytes) {
        assert(ab =~= bytes.subrange(0, ab.len() as int));
        assert(a =~= ab.subrange(0, a.len() as int));
        assert(a =~= bytes.subrange(0, a.len() as int));
        assert(b =~= ab.subrange(a.len() as int, ab.len() as int));
        assert(b =~= bytes.skip(a.len() as int).subrange(0, b.len() as int));
    }
    if a.is_prefix_of(bytes) && b.is_prefix_of(bytes.skip(a.len() as int)) {
        assert(a =~= bytes.subrange(0, a.len() as int));
        assert(b =~= bytes.skip(a.len() as int).subrange(0, b.len() as int));
        assert forall|i: int| 0 <= i < ab.len() implies ab[i] == bytes[i] by {
            if i < a.len() {
                assert(a[i] == bytes.subrange(0, a.len() as int)[i]);
            } else {
                let j = i - a.len();
                assert(b[j] == bytes.skip(a.len() as int).subrange(0, b.len() as int)[j]);
            }
        }
        assert(ab =~= bytes.subrange(0, ab.len() as int));
    }
}

/// Two prefixes of one length are one.
proof fn prefix_of_len(a: Seq<u8>, b: Seq<u8>, bytes: Seq<u8>)
    requires
        a.is_prefix_of(bytes),
        b.is_prefix_of(bytes),
        a.len() == b.len(),
    ensures
        a == b,
{
    assert(a =~= bytes.subrange(0, a.len() as int));
    assert(b =~= bytes.subrange(0, b.len() as int));
}

/// At most one number's bytes stand at the start.
proof fn le4_unique(x: u32, y: u32, bytes: Seq<u8>)
    requires
        le4(x).is_prefix_of(bytes),
        le4(y).is_prefix_of(bytes),
    ensures
        x == y,
{
    number_len(x, 0);
    number_len(y, 0);
    prefix_of_len(le4(x), le4(y), bytes);
    le4_injective(x, y);
}

/// At most one number's bytes stand at the start.
proof fn le8_unique(x: u64, y: u64, bytes: Seq<u8>)
    requires
        le8(x).is_prefix_of(bytes),
        le8(y).is_prefix_of(bytes),
    ensures
        x == y,
{
    number_len(0, x);
    number_len(0, y);
    prefix_of_len(le8(x), le8(y), bytes);
    le8_injective(x, y);
}

/// At most one string of a memory's size stands at the start.
proof fn text_unique(s: Seq<char>, t: Seq<char>, bytes: Seq<u8>)
    requires
        bytes.len() <= u64::MAX,
        text_bytes(s).is_prefix_of(bytes),
        text_bytes(t).is_prefix_of(bytes),
    ensures
        s == t,
{
    reveal(text_bytes);
    let m = encode_utf8(s).len();
    let n = encode_utf8(t).len();
    prefix_of_two(le8(m as u64), encode_utf8(s), bytes);
    prefix_of_two(le8(n as u64), encode_utf8(t), bytes);
    le8_unique(m as u64, n as u64, bytes);
    number_len(0, m as u64);
    prefix_of_len(encode_utf8(s), encode_utf8(t), bytes.skip(8));
    encode_utf8_decode_utf8(s);
    encode_utf8_decode_utf8(t);
}

/// At most one optional string stands at the start.
proof fn optional_text_unique(s: Option<Seq<char>>, t: Option<Seq<char>>, bytes: Seq<u8>)
    requires
        bytes.len() <= u64::MAX,
        optional_text_bytes(s).is_prefix_of(bytes),
        optional_text_bytes(t).is_prefix_of(bytes),
    ensures
        s == t,
{
    assert(optional_text_bytes(s)[0] == bytes.subrange(0, optional_text_bytes(s).len() as int)[0]);
    assert(optional_text_bytes(t)[0] == bytes.subrange(0, optional_text_bytes(t).len() as int)[0]);
    if s is Some && t is Some {
        prefix_of_two(seq![1u8], text_bytes(s->0), bytes);
        prefix_of_two(seq![1u8], text_bytes(t->0), bytes);
        text_unique(s->0, t->0, bytes.skip(1));
    }
}

/// At most one head stands at the start.
proof fn head_unique(g: HeadView, h: HeadView, bytes: Seq<u8>)
    requires
        bytes.len() <= u64::MAX,
        head_bytes(g).is_prefix_of(bytes),
        head_bytes(h).is_prefix_of(bytes),
    ensures
        g == h,
{
    reveal(head_bytes);
    number_len(g.kind, g.timestamp);
    let g5 = le4(g.variant);
    let g4 = optional_text_bytes(g.content) + g5;
    let g3 = le8(g.timestamp) + g4;
    let g2 = text_bytes(g.from) + g3;
    let g1 = text_bytes(g.to) + g2;
    let h5 = le4(h.variant);
    let h4 = optional_text_bytes(h.content) + h5;
    let h3 = le8(h.timestamp) + h4;
    let h2 = text_bytes(h.from) + h3;
    let h1 = text_bytes(h.to) + h2;
    prefix_of_two(le4(g.kind), g1, bytes);
    prefix_of_two(le4(h.kind), h1, bytes);
    le4_unique(g.kind, h.kind, bytes);
    let b1 = bytes.skip(4);
    prefix_of_two(text_bytes(g.to), g2, b1);
    prefix_of_two(text_bytes(h.to), h2, b1);
    text_unique(g.to, h.to, b1);
    let b2 = b1.skip(text_bytes(g.to).len() as int);
    prefix_of_two(text_bytes(g.from), g3, b2);
    prefix_of_two(text_bytes(h.from), h3, b2);
    text_unique(g.from, h.from, b2);
    let b3 = b2.skip(text_bytes(g.from).len() as int);
    prefix_of_two(le8(g.timestamp), g4, b3);
    prefix_of_two(le8(h.timestamp), h4, b3);
    le8_unique(g.timestamp, h.timestamp, b3);
    let b4 = b3.skip(8);
    prefix_of_two(optional_text_bytes(g.content), g5, b4);
    prefix_of_two(optional_text_bytes(h.content), h5, b4);
    optional_text_unique(g.content, h.content, b4);
    let b5 = b4.skip(optional_text_bytes(g.content).len() as int);
    le4_unique(g.variant, h.variant, b5);
}

/// No bytes encode two messages.
pub proof fn message_unique(m: MessageView, n: MessageView, body: Seq<u8>)
    requires
        body.len() <= u64::MAX,
        encodes(body, m),
        encodes(body, n),
    ensures
        m == n,
{
    prefix_of_two(head_bytes(head_of(m)), payload_bytes(m.payload), body);
    prefix_of_two(head_bytes(head_of(n)), payload_bytes(n.payload), body);
    head_unique(head_of(m), head_of(n), body);
    let rest = body.skip(head_bytes(head_of(m)).len() as int);
    match (m.payload, n.payload) {
        (PayloadView::PublicKey { hex_key: a }, PayloadView::PublicKey { hex_key: b }) => {
            text_unique(a, b, rest);
        },
        (
            PayloadView::Encrypted { nonce_hex: a, cipher_hex: c },
            PayloadView::Encrypted { nonce_hex: b, cipher_hex: d },
        ) => {
            prefix_of_two(text_bytes(a), text_bytes(c), rest);
            prefix_of_two(text_bytes(b), text_bytes(d), rest);
            text_unique(a, b, rest);
            text_unique(c, d, rest.skip(text_bytes(a).len() as int));
        },
        _ => {},
    }
    assert(m =~= n);
}

/// The index of a kind of message on the wire.
fn index_of_kind(kind: MessageKind) -> (index: u32)
    ensures
        index == kind_index(kind),
{
    match kind {
        MessageKind::Pub => 0,
        MessageKind::Msg => 1,
        MessageKind::System => 2,
    }
}

/// The kind of message that an index stands for.
fn kind_of_index(index: u32) -> (kind: Option<MessageKind>)
    ensures
        match kind {
            Some(k) => kind_index(k) == index,
            None => forall|k: MessageKind| kind_index(k) != index,
        },
{
    match index {
        0 => Some(MessageKind::Pub),
        1 => Some(MessageKind::Msg),
        2 => Some(MessageKind::System),
        _ => None,
    }
}

/// Appends a string's encoding.
fn push_text(out: &mut Vec<u8>, text: &str)
    ensures
        final(out)@ == old(out)@ + text_bytes(text@),
{
    let mut bytes = serialize_text(text).unwrap();
    out.append(&mut bytes);
}

/// Reads a string at `start`, and where it ends.
fn read_text(bytes: &[u8], start: usize) -> (text: Result<(String, usize), bincode::Error>)
    requires
        start <= bytes@.len(),
    ensures
        match text {
            Ok((t, end)) => {
                &&& text_bytes(t@).is_prefix_of(bytes@.skip(start as int))
                &&& end == start + text_bytes(t@).len()
                &&& end <= bytes@.len()
            },
            Err(cause) => {
                &&& forall|t: Seq<char>|
                    !(#[trigger] text_bytes(t)).is_prefix_of(bytes@.skip(start as int))
                &&& text_refused(bytes@.skip(start as int), cause)
            },
        },
{
    let total: usize = bytes.len();
    let (_, rest) = bytes.split_at(start);
    assert(rest@ =~= bytes@.skip(start as int));
    match outcome_of(deserialize_text, rest) {
        Ok(text) => {
            proof {
                text_len(text@);
                assert(start + text_bytes(text@).len() <= total);
            }
            let end: usize = start + 8 + text.as_str().len();
            Ok((text, end))
        },
        Err(cause) => Err(cause),
    }
}

/// The length of a head's encoding, which stands at the start of `bytes`.
fn head_len(
    bytes: &[u8],
    head: &(u32, String, String, u64, Option<String>, u32),
) -> (len: usize)
    requires
        head_bytes(head_view(*head)).is_prefix_of(bytes@),
    ensures
        len == head_bytes(head_view(*head)).len(),
        len <= bytes@.len(),
{
    let total: usize = bytes.len();
    proof {
        assert(head_bytes(head_view(*head)).len() <= total);
        head_bytes_len(head_view(*head));
        if head.4 is Some {
            text_len(head.4->0@);
        }
    }
    let content_len: usize = match &head.4 {
        None => 1,
        Some(content) => 9 + content.as_str().len(),
    };
    32 + head.1.as_str().len() + head.2.as_str().len() + content_len
}

/// The error of an index that stands for none of three variants.
fn refuse_variant(index: u32) -> (cause: bincode::Error)
    ensures
        variant_refused(index, cause),
{
    outcome_of_both(invalid_index, index, "variant index 0 <= i < 3")
}

/// Reads what the payload of a variant holds, at `start`.
fn read_payload(bytes: &[u8], start: usize, variant: u32) -> (payload: Result<
    Payload,
    bincode::Error,
>)
    requires
        start <= bytes@.len(),
    ensures
        match payload {
            Ok(p) => {
                &&& variant_index(p@) == variant
                &&& payload_bytes(p@).is_prefix_of(bytes@.skip(start as int))
            },
            Err(cause) => {
                &&& forall|p: PayloadView|
                    variant_index(p) == variant ==> !(#[trigger] payload_bytes(p)).is_prefix_of(
                        bytes@.skip(start as int),
                    )
                &&& payload_refused(bytes@.skip(start as int), variant, cause)
            },
        },
{
    let ghost rest = bytes@.skip(start as int);
    let total: usize = bytes.len();
    assert(rest.len() <= total);
    match variant {
        0 => match read_text(bytes, start) {
            Ok((hex_key, _)) => Ok(Payload::PublicKey { hex_key }),
            Err(cause) => Err(cause),
        },
        1 => match read_text(bytes, start) {
            Ok((nonce_hex, middle)) => {
                assert(bytes@.skip(middle as int) =~= rest.skip(
                    text_bytes(nonce_hex@).len() as int,
                ));
                match read_text(bytes, middle) {
                    Ok((cipher_hex, _)) => {
                        proof {
                            prefix_of_two(text_bytes(nonce_hex@), text_bytes(cipher_hex@), rest);
                        }
                        Ok(Payload::Encrypted { nonce_hex, cipher_hex })
                    },
                    Err(cause) => {
                        assert forall|p: PayloadView| variant_index(p) == variant implies !(
                        #[trigger] payload_bytes(p)).is_prefix_of(rest) by {
                            let n = p->nonce_hex;
                            prefix_of_two(text_bytes(n), text_bytes(p->cipher_hex), rest);
                            if payload_bytes(p).is_prefix_of(rest) {
                                text_unique(n, nonce_hex@, rest);
                            }
                        }
                        Err(cause)
                    },
                }
            },
            Err(cause) => {
                assert forall|p: PayloadView| variant_index(p) == variant implies !(
                #[trigger] payload_bytes(p)).is_prefix_of(rest) by {
                    prefix_of_two(text_bytes(p->nonce_hex), text_bytes(p->cipher_hex), rest);
                }
                Err(cause)
            },
        },
        2 => Ok(Payload::Empty),
        _ => Err(refuse_variant(variant)),
    }
}

impl Message {
    /// The message in bincode's encoding.
    pub fn encode(&self) -> (bytes: Vec<u8>)
        ensures
            bytes@ == message_bytes(self@),
    {
        let variant: u32 = match &self.payload {
            Payload::PublicKey { .. } => 0,
            Payload::Encrypted { .. } => 1,
            Payload::Empty => 2,
        };
        let content: Option<&str> = match &self.content {
            Some(content) => Some(content.as_str()),
            None => None,
        };
        let mut bytes: Vec<u8> = serialize_head(
            index_of_kind(self.kind),
            self.to.as_str(),
            self.from.as_str(),
            self.timestamp,
            content,
            variant,
        ).unwrap();
        match &self.payload {
            Payload::PublicKey { hex_key } => {
                push_text(&mut bytes, hex_key.as_str());
            },
            Payload::Encrypted { nonce_hex, cipher_hex } => {
                push_text(&mut bytes, nonce_hex.as_str());
                push_text(&mut bytes, cipher_hex.as_str());
            },
            Payload::Empty => {},
        }
        assert(bytes@ =~= message_bytes(self@));
        bytes
    }

    /// Reads a message from its encoding; what follows the encoding is
    /// ignored. The error is bincode's, on the first thing that is wrong.
    pub fn decode(body: &[u8]) -> (message: Result<Message, bincode::Error>)
        ensures
            match message {
                Ok(m) => encodes(body@, m@),
                Err(cause) => {
                    &&& forall|m: MessageView|
                        #![trigger encodes(body@, m)]
                        !encodes(body@, m)
                    &&& refused(body@, cause)
                },
            },
    {
        let total: usize = body.len();
        proof {
            assert(body@.len() == total);
            assert forall|m: MessageView| #[trigger] encodes(body@, m) implies head_bytes(
                head_of(m),
            ).is_prefix_of(body@) && le4(kind_index(m.kind)).is_prefix_of(body@) && payload_bytes(
                m.payload,
            ).is_prefix_of(body@.skip(head_bytes(head_of(m)).len() as int)) by {
                prefix_of_two(head_bytes(head_of(m)), payload_bytes(m.payload), body@);
                head_starts(head_of(m), body@);
            }
        }
        let index: u32 = match outcome_of(deserialize_index, body) {
            Ok(index) => index,
            Err(cause) => {
                assert forall|m: MessageView| !#[trigger] encodes(body@, m) by {
                    number_len(kind_index(m.kind), 0);
                }
                return Err(cause);
            },
        };
        proof {
            assert forall|m: MessageView| #[trigger] encodes(body@, m) implies kind_index(m.kind)
                == index by {
                le4_unique(kind_index(m.kind), index, body@);
            }
        }
        let kind = match kind_of_index(index) {
            Some(kind) => kind,
            None => {
                assert(index > 2) by {
                    assert(index != kind_index(MessageKind::Pub));
                    assert(index != kind_index(MessageKind::Msg));
                    assert(index != kind_index(MessageKind::System));
                }
                return Err(refuse_variant(index));
            },
        };
        match outcome_of(deserialize_head, body) {
            Ok(head) => {
                proof {
                    assert forall|m: MessageView| #[trigger] encodes(body@, m) implies head_of(m)
                        == head_view(head) by {
                        head_unique(head_of(m), head_view(head), body@);
                    }
                    head_starts(head_view(head), body@);
                    le4_unique(head.0, index, body@);
                }
                let start: usize = head_len(body, &head);
                match read_payload(body, start, head.5) {
                    Ok(payload) => {
                        let message = Message {
                            kind,
                            to: head.1,
                            from: head.2,
                            timestamp: head.3,
                            content: head.4,
                            payload,
                        };
                        proof {
                            assert(head_of(message@) =~= head_view(head));
                            prefix_of_two(
                                head_bytes(head_of(message@)),
                                payload_bytes(message@.payload),
                                body@,
                            );
                        }
                        Ok(message)
                    },
                    Err(cause) => Err(cause),
                }
            },
            Err(cause) => Err(cause),
        }
    }

    /// The bytes to write to a stream so that the message is sent.
    pub fn send_to(&self) -> (frame: Vec<u8>)
        ensures
            frame@ == frame_bytes(self@),
    {
        let mut encoded = self.encode();
        let len: u32 = (encoded.len() as u64 % 0x1_0000_0000) as u32;
        let mut frame: Vec<u8> = Vec::new();
        frame.push((len / 0x100_0000) as u8);
        frame.push((len / 0x1_0000 % 0x100) as u8);
        frame.push((len / 0x100 % 0x100) as u8);
        frame.push((len % 0x100) as u8);
        proof {
            reveal(le4);
            assert(frame@ =~= be4(len));
        }
        frame.append(&mut encoded);
        frame
    }

    /// Receives a message from the bytes that a stream has given so far. Where
    /// the frame is not complete, the error says how many bytes to read next.
    pub fn recv_from(bytes: &[u8]) -> (message: Result<Message, RecvError>)
        ensures
            match message {
                Err(RecvError::UnexpectedEof { missing }) => {
                    &&& bytes@.len() < frame_len(bytes@)
                    &&& missing == frame_len(bytes@) - bytes@.len()
                },
                Err(RecvError::Malformed { cause }) => {
                    &&& frame_len(bytes@) <= bytes@.len()
                    &&& forall|m: MessageView|
                        #![trigger encodes(frame_body(bytes@), m)]
                        !encodes(frame_body(bytes@), m)
                    &&& refused(frame_body(bytes@), cause)
                },
                Ok(m) => {
                    &&& frame_len(bytes@) <= bytes@.len()
                    &&& encodes(frame_body(bytes@), m@)
                },
            },
    {
        if bytes.len() < 4 {
            return Err(RecvError::UnexpectedEof { missing: 4 - bytes.len() });
        }
        let len: usize = bytes[0] as usize * 0x100_0000 + bytes[1] as usize * 0x1_0000
            + bytes[2] as usize * 0x100 + bytes[3] as usize;
        let have: usize = bytes.len() - 4;
        if have < len {
            return Err(RecvError::UnexpectedEof { missing: len - have });
        }
        let (_, rest) = bytes.split_at(4);
        let (body, _) = rest.split_at(len);
        assert(body@ =~= frame_body(bytes@));
        match Message::decode(body) {
            Ok(message) => Ok(message),
            Err(cause) => Err(RecvError::Malformed { cause }),
        }
    }
}

/// The four bytes in front of a frame hold the number that was written there.
proof fn be4_value(x: u32, behind: Seq<u8>)
    ensures
        be4(x).len() == 4,
        be_value(be4(x) + behind) == x,
{
    reveal(le4);
    let b = be4(x) + behind;
    assert(b[0] == (x / 0x100_0000) as u8);
    assert(b[1] == (x / 0x1_0000 % 0x100) as u8);
    assert(b[2] == (x / 0x100 % 0x100) as u8);
    assert(b[3] == (x % 0x100) as u8);
}

/// The body of a frame is what was framed.
proof fn framed(body: Seq<u8>, behind: Seq<u8>)
    requires
        body.len() < 0x1_0000_0000,
    ensures
        ({
            let bytes = be4(body.len() as u32) + body + behind;
            &&& frame_len(bytes) == 4 + body.len()
            &&& frame_body(bytes) == body
        }),
{
    let bytes = be4(body.len() as u32) + body + behind;
    be4_value(body.len() as u32, body + behind);
    assert(bytes =~= be4(body.len() as u32) + (body + behind));
    assert(frame_body(bytes) =~= body);
}

/// What is read is what was written: a frame that a message was sent in, with
/// anything behind it, holds that message and no other. An encoding of four
/// gigabytes or more does not fit the length in front of it.
pub proof fn send_receive(message: MessageView, behind: Seq<u8>)
    requires
        message_bytes(message).len() < 0x1_0000_0000,
    ensures
        ({
            let bytes = frame_bytes(message) + behind;
            &&& frame_len(bytes) <= bytes.len()
            &&& frame_body(bytes) == message_bytes(message)
            &&& encodes(frame_body(bytes), message)
            &&& forall|m: MessageView| #[trigger] encodes(frame_body(bytes), m) ==> m == message
        }),
{
    let body = message_bytes(message);
    framed(body, behind);
    be4_value(body.len() as u32, behind);
    assert(body.is_prefix_of(body)) by {
        assert(body =~= body.subrange(0, body.len() as int));
    }
    assert forall|m: MessageView| #[trigger] encodes(body, m) implies m == message by {
        message_unique(m, message, body);
    }
}

/// Whoever receives a message and sends it on sends the frame that arrived.
pub proof fn sent_on_unchanged(message: MessageView, behind: Seq<u8>, read: MessageView)
    requires
        message_bytes(message).len() < 0x1_0000_0000,
        encodes(frame_body(frame_bytes(message) + behind), read),
    ensures
        frame_bytes(read) == frame_bytes(message),
{
    send_receive(message, behind);
}

/// A frame that has not arrived as a whole is waited for: no part of one is
/// taken for a message or for a malformed frame.
pub proof fn part_of_frame(message: MessageView, part: Seq<u8>)
    requires
        message_bytes(message).len() < 0x1_0000_0000,
        part.is_prefix_of(frame_bytes(message)),
        part != frame_bytes(message),
    ensures
        part.len() < frame_len(part) <= frame_bytes(message).len(),
{
    let frame = frame_bytes(message);
    let body = message_bytes(message);
    framed(body, Seq::empty());
    be4_value(body.len() as u32, body);
    assert(part =~= frame.subrange(0, part.len() as int));
    if part.len() == frame.len() {
        assert(part =~= frame);
    }
    if part.len() >= 4 {
        assert(part[0] == frame[0] && part[1] == frame[1] && part[2] == frame[2] && part[3]
            == frame[3]);
    }
}

/// A number is the sum of its bytes, each of which counts for two hundred and
/// fifty-six times as much as the one before it.
pub proof fn numbers_start_low(x: u32, y: u64)
    ensures
        le4(x).len() == 4,
        le4(x)[0] + 0x100 * le4(x)[1] + 0x1_0000 * le4(x)[2] + 0x100_0000 * le4(x)[3] == x,
        le8(y).len() == 8,
        le8(y)[0] + 0x100 * le8(y)[1] + 0x1_0000 * le8(y)[2] + 0x100_0000 * le8(y)[3]
            + 0x1_0000_0000 * le8(y)[4] + 0x100_0000_0000 * le8(y)[5] + 0x1_0000_0000_0000 * le8(
            y,
        )[6] + 0x100_0000_0000_0000 * le8(y)[7] == y,
{
    let low = (y % 0x1_0000_0000) as u32;
    let high = (y / 0x1_0000_0000) as u32;
    number_len(x, y);
    number_len(low, y);
    number_len(high, y);
    le4_sum(x);
    le4_sum(low);
    le4_sum(high);
    reveal(le8);
    assert(le8(y).subrange(0, 4) =~= le4(low));
    assert(le8(y).subrange(4, 8) =~= le4(high));
    assert forall|i: int| 0 <= i < 4 implies le8(y)[i] == le4(low)[i] && le8(y)[i + 4] == le4(
        high,
    )[i] by {}
    assert(y == y % 0x1_0000_0000 + 0x1_0000_0000 * (y / 0x1_0000_0000));
}

/// A string stands behind the number of its bytes, and an optional one behind
/// a byte that is one, where there is one, and zero alone where there is none.
pub proof fn texts_follow_lengths(text: Seq<char>)
    ensures
        text_bytes(text) == le8(encode_utf8(text).len() as u64) + encode_utf8(text),
        optional_text_bytes(None) == seq![0u8],
        optional_text_bytes(Some(text)) == seq![1u8] + text_bytes(text),
{
    reveal(text_bytes);
}

/// The fields of a message follow each other on the wire: the kind as a number,
/// the addressee, the sender, the timestamp, the content, the variant of the
/// payload as a number, and what the payload holds.
pub proof fn fields_follow_each_other(message: MessageView)
    ensures
        ({
            let kind: u32 = if message.kind == MessageKind::Pub {
                0
            } else if message.kind == MessageKind::Msg {
                1
            } else {
                2
            };
            let variant: u32 = if message.payload is PublicKey {
                0
            } else if message.payload is Encrypted {
                1
            } else {
                2
            };
            let head = le4(kind) + text_bytes(message.to) + text_bytes(message.from) + le8(
                message.timestamp,
            ) + optional_text_bytes(message.content) + le4(variant);
            &&& message.payload matches PayloadView::PublicKey { hex_key } ==> message_bytes(message)
                == head + text_bytes(hex_key)
            &&& message.payload matches PayloadView::Encrypted { nonce_hex, cipher_hex }
                ==> message_bytes(message) == head + text_bytes(nonce_hex) + text_bytes(cipher_hex)
            &&& message.payload is Empty ==> message_bytes(message) == head
        }),
{
    reveal(head_bytes);
    let head = le4(kind_index(message.kind)) + text_bytes(message.to) + text_bytes(message.from)
        + le8(message.timestamp) + optional_text_bytes(message.content) + le4(
        variant_index(message.payload),
    );
    assert(head_bytes(head_of(message)) =~= head);
    match message.payload {
        PayloadView::PublicKey { hex_key } => {
            assert(message_bytes(message) =~= head + text_bytes(hex_key));
        },
        PayloadView::Encrypted { nonce_hex, cipher_hex } => {
            assert(message_bytes(message) =~= head + text_bytes(nonce_hex) + text_bytes(cipher_hex));
        },
        PayloadView::Empty => {
            assert(message_bytes(message) =~= head);
        },
    }
}

/// A frame is its body behind four bytes, which hold the length of the body,
/// the highest byte first, as far as four bytes can.
pub proof fn length_comes_first(message: MessageView)
    ensures
        ({
            let frame = frame_bytes(message);
            let body = message_bytes(message);
            &&& frame.len() == 4 + body.len()
            &&& frame.skip(4) == body
            &&& 0x100_0000 * frame[0] + 0x1_0000 * frame[1] + 0x100 * frame[2] + frame[3]
                == body.len() % 0x1_0000_0000
        }),
{
    let body = message_bytes(message);
    be4_value((body.len() % 0x1_0000_0000) as u32, body);
    assert(frame_bytes(message).skip(4) =~= body);
}

/// How long a frame is its first four bytes tell, the highest first; what it
/// holds are the bytes behind them.
pub proof fn length_is_read_first(bytes: Seq<u8>)
    ensures
        bytes.len() < 4 ==> frame_len(bytes) == 4,
        bytes.len() >= 4 ==> frame_len(bytes) == 4 + 0x100_0000 * bytes[0] + 0x1_0000 * bytes[1]
            + 0x100 * bytes[2] + bytes[3],
        4 <= frame_len(bytes) <= bytes.len() ==> {
            &&& frame_body(bytes).len() == frame_len(bytes) - 4
            &&& forall|i: int|
                0 <= i < frame_len(bytes) - 4 ==> #[trigger] frame_body(bytes)[i] == bytes[i + 4]
        },
{
}

/// A body encodes a message whatever follows the message's encoding, and no
/// body does that does not start with it.
pub proof fn rest_is_ignored(message: MessageView, behind: Seq<u8>, body: Seq<u8>)
    ensures
        encodes(message_bytes(message) + behind, message),
        encodes(body, message) ==> {
            &&& message_bytes(message).len() <= body.len()
            &&& body == message_bytes(message) + body.skip(message_bytes(message).len() as int)
        },
{
    let start = message_bytes(message);
    assert((start + behind).subrange(0, start.len() as int) =~= start);
    if encodes(body, message) {
        assert(start =~= body.subrange(0, start.len() as int));
        assert(body =~= start + body.skip(start.len() as int));
    }
}

/// The value of a head holds each of its fields.
pub proof fn head_fields(head: (u32, String, String, u64, Option<String>, u32))
    ensures
        head_view(head).kind == head.0,
        head_view(head).to == head.1@,
        head_view(head).from == head.2@,
        head_view(head).timestamp == head.3,
        head.4 is None ==> head_view(head).content is None,
        head.4 matches Some(text) ==> head_view(head).content == Some(text@),
        head_view(head).variant == head.5,
{
}

/// Bytes that bincode refuses a string in start with none.
proof fn text_refused_is_none(bytes: Seq<u8>, cause: bincode::Error, text: Seq<char>)
    requires
        text_refused(bytes, cause),
    ensures
        !text_bytes(text).is_prefix_of(bytes),
{
    let slice = choose|slice: &[u8]|
        slice@ == bytes && #[trigger] call_ensures(deserialize_text, (slice,), Err(cause));
    assert(slice@ == bytes && call_ensures(deserialize_text, (slice,), Err(cause)));
}

/// Bytes that bincode refuses a head in start with none.
proof fn head_refused_is_none(bytes: Seq<u8>, cause: bincode::Error, head: HeadView)
    requires
        head_refused(bytes, cause),
    ensures
        !head_bytes(head).is_prefix_of(bytes),
{
    let slice = choose|slice: &[u8]|
        slice@ == bytes && #[trigger] call_ensures(deserialize_head, (slice,), Err(cause));
    assert(slice@ == bytes && call_ensures(deserialize_head, (slice,), Err(cause)));
}

/// The kind is looked at first: a body without one, and a body with an unknown
/// one, are refused for that, whatever follows.
pub proof fn kind_is_refused_first(body: Seq<u8>, cause: bincode::Error, kind: u32)
    requires
        refused(body, cause),
    ensures
        body.len() < 4 ==> index_refused(body, cause),
        le4(kind).is_prefix_of(body) && kind > 2 ==> variant_refused(kind, cause),
{
    number_len(kind, 0);
    if index_refused(body, cause) {
        let slice = choose|slice: &[u8]|
            slice@ == body && #[trigger] call_ensures(deserialize_index, (slice,), Err(cause));
        assert(slice@ == body && call_ensures(deserialize_index, (slice,), Err(cause)));
        assert(body.len() < 4);
    } else {
        let found = choose|found: u32|
            (#[trigger] le4(found)).is_prefix_of(body) && if found > 2 {
                variant_refused(found, cause)
            } else {
                ||| head_refused(body, cause)
                ||| exists|head: HeadView|
                    (#[trigger] head_bytes(head)).is_prefix_of(body) && payload_refused(
                        body.skip(head_bytes(head).len() as int),
                        head.variant,
                        cause,
                    )
            };
        number_len(found, 0);
        if le4(kind).is_prefix_of(body) {
            le4_unique(kind, found, body);
        }
    }
}

/// Behind a known kind the rest of the head comes next: a body without a head
/// is refused for that, and behind a head the payload is what is wrong: an
/// unknown variant, or the first of its strings that cannot be read. A payload
/// that holds nothing is never refused.
pub proof fn payload_is_refused_last(
    body: Seq<u8>,
    cause: bincode::Error,
    head: HeadView,
    first: Seq<char>,
)
    requires
        body.len() <= u64::MAX,
        refused(body, cause),
        head.kind <= 2,
    ensures
        (forall|h: HeadView| !(#[trigger] head_bytes(h)).is_prefix_of(body)) && le4(
            head.kind,
        ).is_prefix_of(body) ==> head_refused(body, cause),
        head_bytes(head).is_prefix_of(body) ==> {
            let rest = body.skip(head_bytes(head).len() as int);
            &&& head.variant != 2
            &&& head.variant > 2 ==> variant_refused(head.variant, cause)
            &&& head.variant == 0 ==> text_refused(rest, cause)
            &&& head.variant == 1 && text_bytes(first).is_prefix_of(rest) ==> text_refused(
                rest.skip(text_bytes(first).len() as int),
                cause,
            )
            &&& head.variant == 1 && (forall|t: Seq<char>|
                !(#[trigger] text_bytes(t)).is_prefix_of(rest)) ==> text_refused(rest, cause)
        },
{
    number_len(head.kind, 0);
    if head_bytes(head).is_prefix_of(body) {
        head_starts(head, body);
    }
    if le4(head.kind).is_prefix_of(body) {
        if index_refused(body, cause) {
            let slice = choose|slice: &[u8]|
                slice@ == body && #[trigger] call_ensures(deserialize_index, (slice,), Err(cause));
            assert(slice@ == body && call_ensures(deserialize_index, (slice,), Err(cause)));
            assert(false);
        }
        assert forall|k: u32| (#[trigger] le4(k)).is_prefix_of(body) implies k == head.kind by {
            le4_unique(k, head.kind, body);
        }
        if head_bytes(head).is_prefix_of(body) {
            if head_refused(body, cause) {
                head_refused_is_none(body, cause, head);
            }
            let rest = body.skip(head_bytes(head).len() as int);
            assert forall|h: HeadView| (#[trigger] head_bytes(h)).is_prefix_of(body) implies h
                == head by {
                head_unique(h, head, body);
            }
            assert(payload_refused(rest, head.variant, cause));
            if head.variant == 1 && text_bytes(first).is_prefix_of(rest) {
                if text_refused(rest, cause) {
                    text_refused_is_none(rest, cause, first);
                }
                assert forall|t: Seq<char>| (#[trigger] text_bytes(t)).is_prefix_of(rest) implies t
                    == first by {
                    text_unique(t, first, rest);
                }
            }
        }
    }
}

} // verus!
