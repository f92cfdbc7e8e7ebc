use secure_chat::cipher::{decode_hidden, encode_hidden, xor_cipher, HIDDEN_KEY};

#[test]
fn the_hidden_key() {
    assert_eq!(&HIDDEN_KEY, b"h1dd3n_x0r_k3y!");
}

#[test]
fn the_key_repeats() {
    assert_eq!(xor_cipher(&[1, 2, 3, 4, 5], &[16, 32]), vec![17, 34, 19, 36, 21]);
}

#[test]
fn nothing_is_encrypted_to_nothing() {
    assert_eq!(xor_cipher(&[], &[]), Vec::<u8>::new());
    assert_eq!(xor_cipher(&[], &[1]), Vec::<u8>::new());
}

#[test]
fn decrypting_undoes_encrypting() {
    let data: Vec<u8> = (0..=255).collect();
    let key = [7, 0, 255, 128];
    let cipher = xor_cipher(&data, &key);
    assert_ne!(cipher, data);
    assert_eq!(xor_cipher(&cipher, &key), data);
}

#[test]
fn a_hidden_text_is_hexadecimal() {
    assert_eq!(encode_hidden(""), "");
    assert_eq!(encode_hidden("hi"), "0058");
    assert_eq!(encode_hidden("h1dd3n_x0r_k3y!\u{7f}"), "00000000000000000000000000000017");
}

#[test]
fn decoding_undoes_encoding() {
    for text in ["", "meet at 9pm", "Gr\u{fc}\u{df}e \u{1f600}", "a text that is longer than the key"] {
        assert_eq!(decode_hidden(&encode_hidden(text)), Some(text.to_string()));
    }
}

#[test]
fn either_case_is_decoded() {
    assert_eq!(decode_hidden("0a1B"), decode_hidden("0A1b"));
    assert_eq!(decode_hidden("005D"), Some("hl".to_string()));
}

#[test]
fn what_is_no_hidden_text_is_not_decoded() {
    assert_eq!(decode_hidden("0"), None);
    assert_eq!(decode_hidden("0g"), None);
    assert_eq!(decode_hidden(" 00"), None);
    assert_eq!(decode_hidden("\u{e9}"), None);
    // 0x97 ^ b'h' is 0xff, which is no UTF-8.
    assert_eq!(decode_hidden("97"), None);
}
