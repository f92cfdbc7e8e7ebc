//! The stream cipher and the encoding of hidden payloads.

use crate::hexadecimal::{hex_bytes, hex_decode, hex_encode, hex_round_trip, hex_text, is_hex};
use crate::message::text_of;
use std::string::FromUtf8Error;
use vstd::prelude::*;
use vstd::utf8::{
    decode_utf8, decode_utf8_encode_utf8, encode_utf8, encode_utf8_decode_utf8, encode_utf8_valid_utf8, valid_utf8,
};

verus! {

/// The key that every client hides payloads with: `h1dd3n_x0r_k3y!`.
pub const HIDDEN_KEY: [u8; 15] = [
    104, 49, 100, 100, 51, 110, 95, 120, 48, 114, 95, 107, 51, 121, 33,
];

/// Each byte of `data` combined by exclusive or with the key, which repeats.
pub open spec fn xor_bytes(data: Seq<u8>, key: Seq<u8>) -> Seq<u8> {
    Seq::new(data.len(), |i: int| data[i] ^ key[i % key.len() as int])
}

/// Encrypts `data`, or decrypts it: the two are the same.
pub fn xor_cipher(data: &[u8], key: &[u8]) -> (out: Vec<u8>)
    requires
        data@.len() > 0 ==> key@.len() > 0,
    ensures
        out@ == xor_bytes(data@, key@),
{
    let mut out: Vec<u8> = Vec::new();
    let mut i: usize = 0;
    while i < data.len()
        invariant
            i <= data@.len(),
            data@.len() > 0 ==> key@.len() > 0,
            out@ == xor_bytes(data@, key@).take(i as int),
        decreases data.len() - i,
    {
        out.push(data[i] ^ key[i % key.len()]);
        assert(out@ =~= xor_bytes(data@, key@).take(i + 1));
        i += 1;
    }
    assert(xor_bytes(data@, key@).take(i as int) =~= xor_bytes(data@, key@));
    out
}

/// Decrypting with the key that encrypted gives the data back.
pub proof fn xor_round_trip(data: Seq<u8>, key: Seq<u8>)
    ensures
        xor_bytes(xor_bytes(data, key), key) == data,
{
    assert forall|i: int| 0 <= i < data.len() implies xor_bytes(xor_bytes(data, key), key)[i]
        == data[i] by {
        let d = data[i];
        let k = key[i % key.len() as int];
        assert((d ^ k) ^ k == d) by (bit_vector);
    }
    assert(xor_bytes(xor_bytes(data, key), key) =~= data);
}

/// The error of `String::from_utf8`.
#[verifier::external_type_specification]
#[verifier::external_body]
pub struct ExFromUtf8Error(FromUtf8Error);

/// `String::from_utf8` succeeds on valid UTF-8 and on nothing else, and gives
/// the text that the bytes encode.
pub assume_specification[ String::from_utf8 ](bytes: Vec<u8>) -> (text: Result<
    String,
    FromUtf8Error,
>)
    ensures
        text is Ok <==> valid_utf8(bytes@),
        text matches Ok(t) ==> t@ == decode_utf8(bytes@),
;

/// What `String::from_utf8_lossy` makes of bytes that are no UTF-8, with
/// replacement characters in the place of what cannot be read.
pub uninterp spec fn replaced_text(bytes: Seq<u8>) -> Seq<char>;

/// The text of bytes that ought to be UTF-8.
pub open spec fn lossy_text(bytes: Seq<u8>) -> Seq<char> {
    if valid_utf8(bytes) {
        decode_utf8(bytes)
    } else {
        replaced_text(bytes)
    }
}

/// Calls `String::from_utf8_lossy`: valid UTF-8 gives the text that it
/// encodes; of other bytes nothing is said but that they alone determine the
/// text.
#[verifier::external_body]
pub(crate) fn from_utf8_lossy(bytes: &[u8]) -> (text: String)
    ensures
        valid_utf8(bytes@) ==> text@ == decode_utf8(bytes@),
        !valid_utf8(bytes@) ==> text@ == replaced_text(bytes@),
{
    String::from_utf8_lossy(bytes).into_owned()
}

/// The text of a hidden payload on the wire.
pub open spec fn hidden_code(text: Seq<char>) -> Seq<char> {
    hex_text(xor_bytes(encode_utf8(text), HIDDEN_KEY@))
}

/// The bytes that a hidden payload on the wire stands for.
pub open spec fn hidden_plain(code: Seq<char>) -> Seq<u8> {
    xor_bytes(hex_bytes(code), HIDDEN_KEY@)
}

/// The hidden text that a payload on the wire stands for: there is one when
/// the payload is hexadecimal and decrypts to UTF-8.
pub open spec fn hidden_text(code: Seq<char>) -> Option<Seq<char>> {
    if is_hex(code) && valid_utf8(hidden_plain(code)) {
        Some(decode_utf8(hidden_plain(code)))
    } else {
        None
    }
}

/// Encodes a hidden payload: encrypts it with the hidden key, then writes it
/// in hexadecimal.
pub fn encode_hidden(text: &str) -> (code: String)
    ensures
        code@ == hidden_code(text@),
{
    let cipher = xor_cipher(text.as_bytes(), &HIDDEN_KEY);
    hex_encode(&cipher)
}

/// Decodes a hidden payload: reads the hexadecimal text, then decrypts it with
/// the hidden key.
pub fn decode_hidden(code: &str) -> (text: Option<String>)
    ensures
        text_of(text) == hidden_text(code@),
{
    match hex_decode(code) {
        Ok(bytes) => {
            let plain = xor_cipher(&bytes, &HIDDEN_KEY);
            match String::from_utf8(plain) {
                Ok(text) => Some(text),
                Err(_) => None,
            }
        },
        Err(_) => None,
    }
}

/// Decoding an encoded hidden payload gives the text back.
pub proof fn hidden_round_trip(text: Seq<char>)
    ensures
        hidden_text(hidden_code(text)) == Some(text),
{
    let plain = encode_utf8(text);
    hex_round_trip(xor_bytes(plain, HIDDEN_KEY@));
    xor_round_trip(plain, HIDDEN_KEY@);
    encode_utf8_valid_utf8(text);
    encode_utf8_decode_utf8(text);
}

/// Every byte is combined with the byte of the key at its place, counted round
/// the key, and none is added or left out.
pub proof fn xor_each_byte(data: Seq<u8>, key: Seq<u8>)
    requires
        data.len() > 0 ==> key.len() > 0,
    ensures
        xor_bytes(data, key).len() == data.len(),
        forall|i: int|
            0 <= i < data.len() ==> #[trigger] xor_bytes(data, key)[i] == data[i] ^ key[i
                % key.len() as int],
{
}

/// Where the key has a byte other than zero the data does not show: what is
/// encrypted differs from the data at exactly these places.
pub proof fn xor_hides(data: Seq<u8>, key: Seq<u8>, i: int)
    requires
        key.len() > 0,
        0 <= i < data.len(),
    ensures
        xor_bytes(data, key)[i] == data[i] <==> key[i % key.len() as int] == 0,
{
    let d = data[i];
    let k = key[i % key.len() as int];
    assert(d ^ k == d <==> k == 0) by (bit_vector);
}

/// A text is read back from its bytes, and bytes that are no text are replaced.
pub proof fn lossy_reads(text: Seq<char>, bytes: Seq<u8>)
    ensures
        lossy_text(encode_utf8(text)) == text,
        !valid_utf8(bytes) ==> lossy_text(bytes) == replaced_text(bytes),
{
    encode_utf8_valid_utf8(text);
    encode_utf8_decode_utf8(text);
}

/// The bytes of a text are hidden one by one under the bytes of the hidden key.
pub proof fn hidden_each_byte(text: Seq<char>)
    ensures
        is_hex(hidden_code(text)),
        hex_bytes(hidden_code(text)).len() == encode_utf8(text).len(),
        forall|i: int|
            0 <= i < encode_utf8(text).len() ==> #[trigger] hex_bytes(hidden_code(text))[i]
                == encode_utf8(text)[i] ^ HIDDEN_KEY@[i % 15],
{
    hex_round_trip(xor_bytes(encode_utf8(text), HIDDEN_KEY@));
}

/// A payload stands for a hidden text exactly when it is hexadecimal and its
/// bytes are those of the text, one by one under the bytes of the hidden key.
pub proof fn hidden_text_is(code: Seq<char>, text: Seq<char>)
    ensures
        hidden_text(code) == Some(text) <==> {
            &&& is_hex(code)
            &&& hex_bytes(code).len() == encode_utf8(text).len()
            &&& forall|i: int|
                0 <= i < hex_bytes(code).len() ==> encode_utf8(text)[i] == #[trigger] hex_bytes(
                    code,
                )[i] ^ HIDDEN_KEY@[i % 15]
        },
{
    encode_utf8_valid_utf8(text);
    encode_utf8_decode_utf8(text);
    let plain = hidden_plain(code);
    if hidden_text(code) == Some(text) {
        decode_utf8_encode_utf8(plain);
        assert(plain == encode_utf8(text));
    }
    if is_hex(code) && plain.len() == encode_utf8(text).len() && forall|i: int|
        0 <= i < hex_bytes(code).len() ==> encode_utf8(text)[i] == #[trigger] hex_bytes(code)[i]
            ^ HIDDEN_KEY@[i % 15] {
        assert(plain =~= encode_utf8(text));
    }
}

/// The hidden key is the text `h1dd3n_x0r_k3y!`, byte by byte.
pub proof fn hidden_key_is()
    ensures
        HIDDEN_KEY@.len() == "h1dd3n_x0r_k3y!"@.len(),
        forall|i: int|
            0 <= i < 15 ==> #[trigger] HIDDEN_KEY@[i] as int == "h1dd3n_x0r_k3y!"@[i] as int,
{
    reveal_strlit("h1dd3n_x0r_k3y!");
}

} // verus!
