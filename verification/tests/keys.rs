use ethers::signers::LocalWallet;
use ethers::types::Address;
use pqsp::keys::{parse_contract_address, parse_private_key};
use pqsp::onchain::VerifierError;
use std::str::FromStr;

fn key_message(text: &str) -> String {
    match parse_private_key(text) {
        Err(VerifierError::InvalidPrivateKey(m)) => m,
        other => panic!("expected a key error for {text:?}, got {other:?}"),
    }
}

#[test]
fn private_keys_parse_with_optional_prefixes() {
    let hex = "01".repeat(32);
    assert_eq!(parse_private_key(&hex).unwrap(), [1u8; 32]);
    assert_eq!(parse_private_key(&format!("0x{hex}")).unwrap(), [1u8; 32]);
    assert_eq!(parse_private_key(&format!("0X{hex}")).unwrap(), [1u8; 32]);
    assert_eq!(parse_private_key(&format!("0X0x{hex}")).unwrap(), [1u8; 32]);
}

#[test]
fn private_key_errors_carry_the_wallet_messages() {
    assert_eq!(key_message("abc"), "odd number of digits");
    assert_eq!(key_message("0xg1"), "invalid character 'g' at position 0");
    assert_eq!(key_message("0x0011"), "invalid string length");
    assert_eq!(key_message(&"00".repeat(32)), "signature error");
    let order = "FFFFFFFFFFFFFFFFFFFFFFFFFFFFFFFEBAAEDCE6AF48A03BBFD25E8CD0364141";
    assert_eq!(key_message(order), "signature error");
    let below = "FFFFFFFFFFFFFFFFFFFFFFFFFFFFFFFEBAAEDCE6AF48A03BBFD25E8CD0364140";
    assert!(parse_private_key(below).is_ok());
}

#[test]
fn private_keys_agree_with_local_wallet() {
    let cases = [
        "01".repeat(32),
        format!("0x{}", "ab".repeat(32)),
        format!("0X{}", "cd".repeat(32)),
        "00".repeat(32),
        "abc".to_string(),
        "zz".to_string(),
        format!("{} ", "01".repeat(31)),
        "0x".to_string(),
        String::new(),
        "é".to_string(),
    ];
    for text in cases {
        match (parse_private_key(&text), LocalWallet::from_str(&text)) {
            (Ok(k), Ok(w)) => assert_eq!(k.to_vec(), w.signer().to_bytes().to_vec()),
            (Err(VerifierError::InvalidPrivateKey(m)), Err(e)) => assert_eq!(m, e.to_string()),
            _ => panic!("outcomes differ on {text:?}"),
        }
    }
}

#[test]
fn contract_addresses_parse_like_address() {
    let hex = "5f".repeat(20);
    assert_eq!(parse_contract_address(&hex).unwrap(), [0x5f; 20]);
    assert_eq!(parse_contract_address(&format!("0x{hex}")).unwrap(), [0x5f; 20]);
    for text in [hex.clone(), format!("0x{hex}"), format!("0x{}", "5f".repeat(21)), "0x5".to_string(),
        format!("\t{hex}\n"), format!("0x{}z", "5f".repeat(10)), "0X5f".to_string()] {
        match (parse_contract_address(&text), Address::from_str(&text)) {
            (Ok(a), Ok(addr)) => assert_eq!(a, addr.0),
            (Err(VerifierError::InvalidContractAddress(m)), Err(e)) => assert_eq!(m, e.to_string()),
            _ => panic!("outcomes differ on {text:?}"),
        }
    }
    assert!(matches!(parse_contract_address("0x12"),
        Err(VerifierError::InvalidContractAddress(m)) if m == "Invalid input length"));
}
