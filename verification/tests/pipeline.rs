use pqsp::client::{
    assemble_upload_payload, finish_upload_payload, parse_storage_root, upload_receipt, UploadFinality, UploadMode,
    UploadRoute, ZeroGStorageConfig, ZeroGStorageService,
};
use pqsp::commitment::{Shake256Committer, StateCommitter};
use pqsp::encryption::{EncryptedPayload, EncryptionKey, PayloadEncryptor, XChaCha20Poly1305Encryptor};
use pqsp::error::StorageClientError;
use pqsp::onchain::{validate_for_evm, MockOnChainVerifier};
use pqsp::payload::PreparedUpload;
use pqsp::types::{CommitmentSubmission, VerifierInput};
use pqsp::zk::{MockZkProver, MockZkVerifier, ProofSystemError, ZkProver, ZkVerifier};

fn service() -> ZeroGStorageService<Shake256Committer, XChaCha20Poly1305Encryptor> {
    ZeroGStorageService::new(
        ZeroGStorageConfig::dry_run("galileo-testnet".to_string()),
        Shake256Committer::default(),
        XChaCha20Poly1305Encryptor::new(EncryptionKey::from_bytes([7u8; 32])),
    )
}

#[test]
fn config_constructors() {
    let d = ZeroGStorageConfig::dry_run("net".to_string());
    assert!(matches!(d.mode, UploadMode::DryRun));
    assert!(d.chain_rpc_url.is_none() && d.private_key_hex.is_none() && d.indexer_url.is_none());
    assert!(d.node_urls.is_empty());
    assert_eq!((d.expected_replica, d.task_size, d.skip_tx, d.fee_wei), (1, 10, true, 0));
    assert!(matches!(d.finality, UploadFinality::TransactionPacked));

    let i = ZeroGStorageConfig::live_with_indexer("net".to_string(), "rpc".to_string(), "key".to_string(), "idx".to_string());
    assert!(matches!(i.mode, UploadMode::Live));
    assert_eq!(i.indexer_url.as_deref(), Some("idx"));
    assert_eq!(i.chain_rpc_url.as_deref(), Some("rpc"));
    assert_eq!(i.private_key_hex.as_deref(), Some("key"));

    let n = ZeroGStorageConfig::live_with_nodes("net".to_string(), "rpc".to_string(), "key".to_string(), vec!["a".to_string()]);
    assert!(n.indexer_url.is_none());
    assert_eq!(n.node_urls, vec!["a".to_string()]);
    assert!(matches!(UploadMode::default(), UploadMode::DryRun));
    assert!(matches!(UploadFinality::default(), UploadFinality::TransactionPacked));
}

#[test]
fn prepared_payload_is_bound_to_the_envelope() {
    let svc = service();
    let (envelope, payload) = svc.prepare_payload(b"file contents", b"aad", &MockZkProver).unwrap();
    assert_eq!(payload.version, 1);
    assert_eq!(payload.encrypted_blob.as_ref(), envelope.to_bytes().as_slice());
    let expected = Shake256Committer::default().commit(&envelope.to_bytes(), b"aad");
    assert!(payload.state_commitment == expected);
    assert_eq!(payload.proof_statement.context, b"aad".to_vec());
    assert_eq!(
        payload.proof_statement.public_inputs,
        vec![format!("state_commitment={}", expected.to_hex()), format!("ciphertext_bytes={}", 13 + 16)]
    );
    assert!(MockZkVerifier.verify(&payload.proof_statement, &payload.proof).is_ok());
    assert_eq!(payload.metadata.protocol_version, 1);
    assert_eq!(payload.metadata.content_type, "application/json");
    assert_eq!(payload.metadata.encryption_scheme, "XChaCha20Poly1305");
    assert_eq!(payload.metadata.commitment_scheme, "SHAKE256-256");
    assert_eq!(payload.metadata.proof_system, "mock-zk@0.1.0");
    let summary = payload.summary();
    assert_eq!(summary.version, 1);
    assert_eq!(summary.encrypted_blob_bytes, 1 + 24 + 13 + 16);
    assert_eq!(summary.state_commitment_hex, expected.to_hex());
    assert_eq!(summary.proof_system, "mock-zk@0.1.0");
}

#[test]
fn stored_blob_decrypts_to_the_plaintext() {
    let svc = service();
    let (_, payload) = svc.prepare_payload(b"recover me", b"aad", &MockZkProver).unwrap();
    let envelope = EncryptedPayload::from_bytes(payload.encrypted_blob.as_ref()).unwrap();
    let key = XChaCha20Poly1305Encryptor::new(EncryptionKey::from_bytes([7u8; 32]));
    assert_eq!(key.decrypt(&envelope, b"aad").unwrap(), b"recover me".to_vec());
}

#[test]
fn dry_run_receipt_is_deterministic_and_verifiable() {
    let svc = service();
    let (envelope, payload) = svc.prepare_payload(b"data", b"aad", &MockZkProver).unwrap();
    let prepared = PreparedUpload::assemble(envelope, payload, b"{\"encoded\":true}".to_vec());
    let storage = svc.dry_run_storage(&prepared);
    assert_eq!(storage.network, "galileo-testnet");
    assert!(storage.tx_hash.is_none());
    let expected_root = Shake256Committer::default().commit(b"{\"encoded\":true}", b"pqsp:v1:dry-run-storage-root");
    assert_eq!(storage.merkle_root, expected_root.to_hex());
    assert_eq!(svc.dry_run_storage(&prepared).merkle_root, storage.merkle_root);

    let receipt = upload_receipt(&prepared, storage.clone());
    assert_eq!(receipt.payload_bytes, 16);
    assert!(receipt.state_commitment == prepared.state_commitment);
    assert_eq!(prepared.encoded_payload(), b"{\"encoded\":true}");

    let submission = CommitmentSubmission {
        application_id: "pqsp-cli".to_string(),
        verifier_input: VerifierInput {
            proof_statement: prepared.proof_statement.clone(),
            proof: prepared.proof.clone(),
            storage,
        },
        submitter: None,
        memo: None,
    };
    assert!(MockOnChainVerifier::default().submit(&submission).unwrap().accepted);
    assert!(validate_for_evm(&submission.verifier_input).is_ok());
}

#[test]
fn live_target_requires_credentials_and_a_target() {
    let key = || XChaCha20Poly1305Encryptor::new(EncryptionKey::from_bytes([1u8; 32]));
    let dry = ZeroGStorageService::new(ZeroGStorageConfig::dry_run("n".to_string()), Shake256Committer::default(), key());
    assert!(matches!(dry.live_upload_target(), Err(StorageClientError::MissingChainCredentials)));

    let mut no_target = ZeroGStorageConfig::live_with_nodes("n".to_string(), "rpc".to_string(), "k".to_string(), vec![]);
    let svc = ZeroGStorageService::new(no_target.clone(), Shake256Committer::default(), key());
    assert!(matches!(svc.live_upload_target(), Err(StorageClientError::MissingUploadTarget)));

    no_target.node_urls = vec!["http://node".to_string()];
    let svc = ZeroGStorageService::new(no_target, Shake256Committer::default(), key());
    let target = svc.live_upload_target().unwrap();
    assert_eq!(target.chain_rpc_url, "rpc");
    assert_eq!(target.private_key_hex, "k");
    assert!(matches!(&target.route, UploadRoute::Nodes(urls) if urls == &vec!["http://node".to_string()]));

    let both = ZeroGStorageConfig {
        indexer_url: Some("http://idx".to_string()),
        node_urls: vec!["http://node".to_string()],
        ..ZeroGStorageConfig::live_with_indexer("n".to_string(), "rpc".to_string(), "k".to_string(), "x".to_string())
    };
    let svc_both = ZeroGStorageService::new(both, Shake256Committer::default(), key());
    let chosen = svc_both.live_upload_target().unwrap();
    assert!(matches!(&chosen.route, UploadRoute::Indexer(u) if u == "http://idx"));

    let receipt = svc.live_storage_receipt(&[0x0a; 32], &[0xff; 32]);
    assert_eq!(receipt.network, "n");
    assert_eq!(receipt.merkle_root, format!("0x{}", "0a".repeat(32)));
    assert_eq!(receipt.tx_hash, Some(format!("0x{}", "ff".repeat(32))));
}

#[test]
fn upload_statement_names_commitment_and_ciphertext_length() {
    let svc = service();
    let envelope = EncryptedPayload::new(1, [3u8; 24], vec![9u8; 20]);
    let statement = svc.upload_statement(&envelope, b"ctx");
    let expected = Shake256Committer::default().commit(&envelope.to_bytes(), b"ctx");
    assert_eq!(statement.state_commitment, expected);
    assert_eq!(statement.context, b"ctx".to_vec());
    assert_eq!(
        statement.public_inputs,
        vec![format!("state_commitment={}", expected.to_hex()), "ciphertext_bytes=20".to_string()]
    );
}

#[test]
fn finishing_passes_proving_errors_through() {
    let svc = service();
    let envelope = EncryptedPayload::new(1, [3u8; 24], vec![9u8; 20]);
    let statement = svc.upload_statement(&envelope, b"ctx");
    let r = finish_upload_payload(envelope, statement, Err(ProofSystemError::InvalidMockProof));
    assert!(matches!(r, Err(StorageClientError::Proof(ProofSystemError::InvalidMockProof))));
}

#[test]
fn finishing_assembles_the_payload_around_the_proof() {
    let svc = service();
    let envelope = EncryptedPayload::new(1, [3u8; 24], vec![9u8; 20]);
    let statement = svc.upload_statement(&envelope, b"ctx");
    let bundle = MockZkProver.prove(&statement, &pqsp::zk::ProofWitness::new(vec![1])).unwrap();
    let (env, payload) = finish_upload_payload(envelope.clone(), statement.clone(), Ok(bundle.clone())).unwrap();
    assert_eq!(env.to_bytes(), envelope.to_bytes());
    assert_eq!(payload.encrypted_blob(), envelope.to_bytes().as_slice());
    assert_eq!(payload.state_commitment, statement.state_commitment);
    assert_eq!(payload.proof_statement.public_inputs, statement.public_inputs);
    assert_eq!(payload.proof.proof_bytes(), bundle.proof_bytes());
    assert_eq!(payload.version, 1);
    assert_eq!(payload.metadata.proof_system, "mock-zk@0.1.0");
    assert_eq!(payload.metadata.encryption_scheme, "XChaCha20Poly1305");
    assert_eq!(payload.metadata.commitment_scheme, "SHAKE256-256");
    assert_eq!(payload.metadata.content_type, "application/json");

    let direct = assemble_upload_payload(&envelope, statement, bundle);
    assert_eq!(direct.encrypted_blob(), payload.encrypted_blob());
}

#[test]
fn encryption_errors_come_back_unchanged() {
    let svc = service();
    let r = svc.continue_after_encryption(
        Err(pqsp::encryption::EncryptionError::AeadFailure),
        b"pt",
        b"aad",
        &MockZkProver,
    );
    assert!(matches!(r, Err(StorageClientError::Encryption(pqsp::encryption::EncryptionError::AeadFailure))));
}

#[test]
fn storage_roots_parse_like_h256() {
    let hex64 = "ab".repeat(32);
    assert_eq!(parse_storage_root(&hex64).unwrap(), [0xab; 32]);
    assert_eq!(parse_storage_root(&format!("0x{}", hex64.to_uppercase())).unwrap(), [0xab; 32]);
    assert_eq!(parse_storage_root(&"00".repeat(32)).unwrap(), [0u8; 32]);
    let spaced = format!(" {}\n{} ", &hex64[..10], &hex64[10..]);
    assert_eq!(parse_storage_root(&spaced).unwrap(), [0xab; 32]);
    for text in [hex64.clone(), format!("0x{}", hex64), spaced, "0x12".to_string(), "zz".to_string(),
        format!("{}00", hex64), format!("{}g", hex64), "0X12".to_string(), String::new()] {
        let ours = parse_storage_root(&text);
        let theirs = text.parse::<ethers::types::H256>();
        match (ours, theirs) {
            (Ok(a), Ok(h)) => assert_eq!(a, h.0),
            (Err(StorageClientError::ZeroGSdk(m)), Err(e)) => assert_eq!(m, e.to_string()),
            _ => panic!("parse outcomes differ on {text:?}"),
        }
    }
    assert!(matches!(parse_storage_root("0x12"), Err(StorageClientError::ZeroGSdk(m)) if m == "Invalid input length"));
    assert!(matches!(parse_storage_root("0xq"), Err(StorageClientError::ZeroGSdk(m))
        if m == "Invalid character 'q' at position 0"));
}

#[test]
fn receipt_roots_parse_back_for_download() {
    let svc = service();
    let root = [0x3cu8; 32];
    let receipt = svc.live_storage_receipt(&root, &[1u8; 32]);
    assert_eq!(parse_storage_root(&receipt.merkle_root).unwrap(), root);
}
