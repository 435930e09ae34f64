use pqsp::commitment::{
    build_commitment_transcript, Shake256Committer, StateCommitment, StateCommitter,
    DEFAULT_COMMITMENT_DOMAIN,
};

fn unhex(s: &str) -> Vec<u8> {
    pqsp::hex::decode_hex(s.as_bytes()).unwrap()
}

#[test]
fn default_committer_uses_the_protocol_domain() {
    let c = Shake256Committer::default();
    assert_eq!(c.domain_separator(), DEFAULT_COMMITMENT_DOMAIN.as_bytes());
    assert_eq!(DEFAULT_COMMITMENT_DOMAIN, "pqsp:v1:state-commitment");
}

#[test]
fn commitment_is_shake256_of_the_length_prefixed_transcript() {
    let c = Shake256Committer::default();
    let commitment = c.commit(b"hello", b"ctx");
    assert_eq!(
        commitment.as_bytes().to_vec(),
        unhex("8f926432a693e965681ef46e2fe56b93a28e303c77a41e2f3a4a15c7e58bc3d7")
    );
    let custom = Shake256Committer::new(b"custom".to_vec());
    assert_eq!(
        custom.commit(b"", b"").as_bytes().to_vec(),
        unhex("098613dd640f38dfd804684374253aafdb0295692b53c61579a35a3257db8721")
    );
}

#[test]
fn transcript_prefixes_each_field_with_its_length() {
    let t = build_commitment_transcript(b"d", b"ab", b"");
    assert_eq!(
        t,
        vec![1, 0, 0, 0, 0, 0, 0, 0, b'd', 2, 0, 0, 0, 0, 0, 0, 0, b'a', b'b', 0, 0, 0, 0, 0, 0, 0, 0]
    );
}

#[test]
fn moving_bytes_between_fields_changes_the_commitment() {
    let c = Shake256Committer::default();
    let a = c.commit(b"ab", b"c");
    let b = c.commit(b"b", b"ac");
    assert!(a != b);
    assert!(a == c.commit(b"ab", b"c"));
}

#[test]
fn state_commitment_accessors() {
    let mut bytes = [0u8; 32];
    bytes[0] = 0xab;
    bytes[31] = 0x01;
    let c = StateCommitment::new(bytes);
    assert_eq!(c.as_bytes(), &bytes);
    assert_eq!(c.to_hex(), format!("0xab{}01", "00".repeat(30)));
    assert!(!c.is_zero());
    assert!(StateCommitment::new([0u8; 32]).is_zero());
}
