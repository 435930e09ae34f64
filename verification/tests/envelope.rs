use pqsp::encryption::{
    EncryptedPayload, EncryptionError, EncryptionKey, PayloadEncryptor, XChaCha20Poly1305Encryptor,
    PAYLOAD_ENVELOPE_VERSION,
};
use rand_core::OsRng;

fn key(byte: u8) -> EncryptionKey {
    EncryptionKey::from_bytes([byte; 32])
}

#[test]
fn envelope_bytes_are_version_nonce_ciphertext() {
    let p = EncryptedPayload::new(1, [7u8; 24], vec![9, 8, 7]);
    let bytes = p.to_bytes();
    assert_eq!(bytes.len(), 1 + 24 + 3);
    assert_eq!(bytes[0], 1);
    assert_eq!(&bytes[1..25], &[7u8; 24]);
    assert_eq!(&bytes[25..], &[9, 8, 7]);
    assert_eq!(p.version(), 1);
    assert_eq!(p.nonce(), &[7u8; 24]);
    assert_eq!(p.ciphertext(), &[9, 8, 7]);
    assert_eq!(p.ciphertext_len(), 3);
}

#[test]
fn envelope_roundtrips_through_bytes() {
    let p = EncryptedPayload::new(PAYLOAD_ENVELOPE_VERSION, [3u8; 24], vec![1, 2, 3, 4]);
    let q = EncryptedPayload::from_bytes(&p.to_bytes()).unwrap();
    assert_eq!(q.version(), p.version());
    assert_eq!(q.nonce(), p.nonce());
    assert_eq!(q.ciphertext(), p.ciphertext());
    let empty = EncryptedPayload::from_bytes(&[1u8; 25]).unwrap();
    assert_eq!(empty.ciphertext_len(), 0);
}

#[test]
fn short_envelope_is_malformed() {
    assert!(matches!(EncryptedPayload::from_bytes(&[1u8; 24]), Err(EncryptionError::MalformedEnvelope)));
    assert!(matches!(EncryptedPayload::from_bytes(&[]), Err(EncryptionError::MalformedEnvelope)));
}

#[test]
fn other_envelope_version_is_unsupported() {
    let mut bytes = vec![2u8];
    bytes.extend_from_slice(&[0u8; 30]);
    assert!(matches!(EncryptedPayload::from_bytes(&bytes), Err(EncryptionError::UnsupportedVersion(2))));
}

#[test]
fn decrypt_recovers_plaintext() {
    let enc = XChaCha20Poly1305Encryptor::new(key(5));
    let payload = enc.encrypt(b"sovereign data", b"aad").unwrap();
    assert_eq!(payload.version(), PAYLOAD_ENVELOPE_VERSION);
    assert_eq!(payload.ciphertext_len(), b"sovereign data".len() + 16);
    assert_ne!(&payload.ciphertext()[..14], b"sovereign data");
    assert_eq!(enc.decrypt(&payload, b"aad").unwrap(), b"sovereign data".to_vec());
    let reparsed = EncryptedPayload::from_bytes(&payload.to_bytes()).unwrap();
    assert_eq!(enc.decrypt(&reparsed, b"aad").unwrap(), b"sovereign data".to_vec());
}

#[test]
fn decrypt_rejects_wrong_aad_key_or_tampering() {
    let enc = XChaCha20Poly1305Encryptor::new(key(5));
    let payload = enc.encrypt(b"hello", b"aad").unwrap();
    assert!(matches!(enc.decrypt(&payload, b"other"), Err(EncryptionError::AeadFailure)));
    let other = XChaCha20Poly1305Encryptor::new(key(6));
    assert!(matches!(other.decrypt(&payload, b"aad"), Err(EncryptionError::AeadFailure)));
    let mut ct = payload.ciphertext().to_vec();
    ct[0] ^= 1;
    let tampered = EncryptedPayload::new(1, *payload.nonce(), ct);
    assert!(matches!(enc.decrypt(&tampered, b"aad"), Err(EncryptionError::AeadFailure)));
}

#[test]
fn decrypt_rejects_unsupported_version() {
    let enc = XChaCha20Poly1305Encryptor::new(key(5));
    let payload = EncryptedPayload::new(9, [0u8; 24], vec![0u8; 20]);
    assert!(matches!(enc.decrypt(&payload, b""), Err(EncryptionError::UnsupportedVersion(9))));
}

#[test]
fn encryptions_use_fresh_nonces() {
    let enc = XChaCha20Poly1305Encryptor::new(key(1));
    let a = enc.encrypt(b"same", b"").unwrap();
    let b = enc.encrypt(b"same", b"").unwrap();
    assert_ne!(a.nonce(), b.nonce());
    assert_eq!(enc.decrypt(&a, b"").unwrap(), enc.decrypt(&b, b"").unwrap());
}

#[test]
fn key_hex_roundtrip() {
    let mut bytes = [0u8; 32];
    for (i, b) in bytes.iter_mut().enumerate() {
        *b = (i * 7) as u8;
    }
    let k = EncryptionKey::from_bytes(bytes);
    let text = k.to_hex();
    assert_eq!(text.len(), 64);
    assert_eq!(text, pqsp::hex::encode_hex(&bytes));
    let back = EncryptionKey::from_hex(&text).unwrap();
    assert_eq!(back.to_hex(), text);
    let generated = EncryptionKey::generate(&mut OsRng);
    let again = EncryptionKey::from_hex(&generated.to_hex()).unwrap();
    assert_eq!(again.to_hex(), generated.to_hex());
}

#[test]
fn key_hex_must_be_32_bytes_of_hex() {
    assert!(EncryptionKey::from_hex(&"ab".repeat(31)).is_none());
    assert!(EncryptionKey::from_hex(&"ab".repeat(33)).is_none());
    assert!(EncryptionKey::from_hex(&"zz".repeat(32)).is_none());
    assert!(EncryptionKey::from_hex("").is_none());
}

#[test]
fn a_key_decrypts_what_its_hex_copy_encrypted() {
    let k = EncryptionKey::from_bytes([42u8; 32]);
    let copy = EncryptionKey::from_hex(&k.to_hex()).unwrap();
    let payload = XChaCha20Poly1305Encryptor::new(k).encrypt(b"plaintext", b"ctx").unwrap();
    let plaintext = XChaCha20Poly1305Encryptor::new(copy).decrypt(&payload, b"ctx").unwrap();
    assert_eq!(plaintext, b"plaintext".to_vec());
}

#[test]
fn parsed_bytes_serialize_back_unchanged() {
    let mut bytes = vec![1u8];
    bytes.extend((0u8..40).map(|b| b.wrapping_mul(13)));
    let parsed = EncryptedPayload::from_bytes(&bytes).unwrap();
    assert_eq!(parsed.to_bytes(), bytes);
}
