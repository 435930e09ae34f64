use pqsp::hex::{decode_hex, encode_hex, encode_hex_prefixed};
use pqsp::text::decimal;

#[test]
fn encodes_lower_case_hex() {
    assert_eq!(encode_hex(&[0x00, 0x0f, 0xa5, 0xff]), "000fa5ff");
    assert_eq!(encode_hex(&[]), "");
    assert_eq!(encode_hex_prefixed(&[0xbe, 0xef]), "0xbeef");
}

#[test]
fn decodes_either_case() {
    assert_eq!(decode_hex(b"000fA5ff"), Some(vec![0x00, 0x0f, 0xa5, 0xff]));
    assert_eq!(decode_hex(b""), Some(vec![]));
}

#[test]
fn rejects_odd_length_and_non_hex_bytes() {
    assert_eq!(decode_hex(b"abc"), None);
    assert_eq!(decode_hex(b"0g"), None);
    assert_eq!(decode_hex(b"0x12"), None);
}

#[test]
fn hex_roundtrip_on_all_byte_values() {
    let data: Vec<u8> = (0u8..=255).collect();
    let text = encode_hex(&data);
    assert_eq!(text.len(), 512);
    assert_eq!(decode_hex(text.as_bytes()), Some(data));
}

#[test]
fn renders_decimal() {
    assert_eq!(decimal(0), "0");
    assert_eq!(decimal(7), "7");
    assert_eq!(decimal(10), "10");
    assert_eq!(decimal(1234567), "1234567");
}
