//! Decoding of UTF-8 and Shift_JIS file contents.

use boring_parser::encoding::{decode_param_text, shift_jis_to_utf8};

#[test]
fn utf8_bytes_pass_through() {
    let bytes = "MeshCode dB(sec) dL(sec)".as_bytes().to_vec();
    assert_eq!(decode_param_text(&bytes), "MeshCode dB(sec) dL(sec)");
}

#[test]
fn shift_jis_bytes_are_decoded() {
    // 0x93 0x8c 0x8b 0x9e is Shift_JIS for the two characters of "Tokyo";
    // the pair is not valid UTF-8, so the Shift_JIS path must run and the
    // output must differ from the raw input re-read as characters.
    let bytes: Vec<u8> = vec![0x93, 0x8c, 0x8b, 0x9e];
    let decoded = decode_param_text(&bytes);
    assert_eq!(decoded, "\u{6771}\u{4eac}");
    assert_ne!(decoded.as_bytes(), bytes.as_slice());
}

#[test]
fn shift_jis_to_utf8_decodes_record_bytes() {
    let bytes: Vec<u8> = vec![0x93, 0x8c, 0x8b, 0x9e];
    let decoded = shift_jis_to_utf8(bytes.as_slice());
    assert_eq!(decoded, "\u{6771}\u{4eac}");
    // ASCII is its own Shift_JIS encoding
    assert_eq!(shift_jis_to_utf8(b"abc 123"), "abc 123");
    assert_eq!(shift_jis_to_utf8(b""), "");
}
