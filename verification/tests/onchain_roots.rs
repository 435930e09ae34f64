use pqsp::onchain::{parse_bytes32_hex, VerifierError};

#[test]
fn parses_valid_bytes32_hex_root() {
    let root = format!("0x{}", "11".repeat(32));

    assert!(parse_bytes32_hex(&root).is_ok());
}

#[test]
fn rejects_malformed_bytes32_hex_root() {
    assert!(parse_bytes32_hex("0x1234").is_err());
    assert!(parse_bytes32_hex("not-hex").is_err());
}

#[test]
fn rejects_zero_bytes32_hex_root() {
    let zero_root = format!("0x{}", "00".repeat(32));

    assert!(parse_bytes32_hex(&zero_root).is_err());
}

#[test]
fn parsed_root_keeps_every_byte_and_accepts_no_prefix() {
    let text: String = (0u8..32).map(|b| format!("{:02X}", b + 1)).collect();
    let parsed = parse_bytes32_hex(&text).unwrap();
    let expected: Vec<u8> = (1u8..=32).collect();
    assert_eq!(parsed.to_vec(), expected);
    let prefixed = format!("0x{}", text.to_lowercase());
    assert_eq!(parse_bytes32_hex(&prefixed).unwrap().to_vec(), expected);
}

#[test]
fn malformed_roots_are_invalid_storage_roots() {
    assert!(matches!(parse_bytes32_hex("0x123"), Err(VerifierError::InvalidStorageRoot)));
    assert!(matches!(parse_bytes32_hex(&"ab".repeat(31)), Err(VerifierError::InvalidStorageRoot)));
    assert!(matches!(parse_bytes32_hex(&format!("0x{}", "zz".repeat(32))), Err(VerifierError::InvalidStorageRoot)));
    assert!(matches!(parse_bytes32_hex(""), Err(VerifierError::InvalidStorageRoot)));
}
