use pqsp::commitment::StateCommitment;
use pqsp::onchain::{
    encode_submission, evm_receipt, validate_for_evm, MockOnChainVerifier, VerifierError,
};
use pqsp::types::{CommitmentSubmission, ProofMetadata, StorageReceiptRef, VerifierInput};
use pqsp::zk::{MockZkProver, ProofStatement, ProofSystemError, ProofWitness, ZkProver};

fn input(commitment: [u8; 32], root: &str) -> VerifierInput {
    let statement = ProofStatement {
        state_commitment: StateCommitment::new(commitment),
        context: b"ctx".to_vec(),
        public_inputs: vec!["k=v".to_string()],
    };
    let proof = MockZkProver.prove(&statement, &ProofWitness::new(vec![])).unwrap();
    VerifierInput {
        proof_statement: statement,
        proof,
        storage: StorageReceiptRef { network: "galileo-testnet".to_string(), merkle_root: root.to_string(), tx_hash: None },
    }
}

fn submission(input: VerifierInput) -> CommitmentSubmission {
    CommitmentSubmission { application_id: "app".to_string(), verifier_input: input, submitter: None, memo: None }
}

#[test]
fn mock_verifier_accepts_and_reports_the_commitment() {
    let verifier = MockOnChainVerifier::default();
    let sub = submission(input([0xab; 32], "0x1234"));
    assert!(verifier.validate(&sub.verifier_input).is_ok());
    let receipt = verifier.submit(&sub).unwrap();
    assert!(receipt.accepted);
    assert_eq!(receipt.verifier_tx_hash, Some(format!("0x{}", "ab".repeat(32))));
    assert_eq!(receipt.reason.as_deref(), Some("mock verifier accepted the commitment and proof"));
}

#[test]
fn mock_verifier_requires_a_0x_root() {
    let verifier = MockOnChainVerifier::default();
    let sub = submission(input([1; 32], "1234"));
    assert!(matches!(verifier.submit(&sub), Err(VerifierError::InvalidStorageRoot)));
}

#[test]
fn mock_verifier_rejects_a_wrong_proof() {
    let verifier = MockOnChainVerifier::default();
    let mut inp = input([1; 32], "0xaa");
    inp.proof_statement.context = b"changed".to_vec();
    assert!(matches!(
        verifier.validate(&inp),
        Err(VerifierError::InvalidProof(ProofSystemError::InvalidMockProof))
    ));
}

#[test]
fn evm_checks_order() {
    let good_root = format!("0x{}", "11".repeat(32));
    assert!(validate_for_evm(&input([2; 32], &good_root)).is_ok());
    assert!(matches!(validate_for_evm(&input([0; 32], &good_root)), Err(VerifierError::InvalidCommitment)));
    assert!(matches!(validate_for_evm(&input([2; 32], "0x1234")), Err(VerifierError::InvalidStorageRoot)));
    let mut inp = input([2; 32], &good_root);
    inp.proof.public_inputs.clear();
    assert!(matches!(validate_for_evm(&inp), Err(VerifierError::InvalidProof(ProofSystemError::InvalidMockProof))));
}

#[test]
fn encodes_submission_arguments() {
    let good_root = format!("0x{}", "11".repeat(32));
    let sub = submission(input([3; 32], &good_root));
    let enc = encode_submission(&sub).unwrap();
    assert_eq!(enc.state_commitment, [3; 32]);
    assert_eq!(enc.storage_merkle_root, [0x11; 32]);
    assert_eq!(enc.proof_context, sub.verifier_input.proof.proof_bytes().to_vec());
    assert!(matches!(encode_submission(&submission(input([0; 32], &good_root))), Err(VerifierError::InvalidCommitment)));
    assert!(matches!(
        encode_submission(&submission(input([3; 32], &format!("0x{}", "00".repeat(32))))),
        Err(VerifierError::InvalidStorageRoot)
    ));
}

#[test]
fn evm_receipt_reflects_status() {
    let ok = evm_receipt(Some(1), &[0xcd; 32]);
    assert!(ok.accepted);
    assert_eq!(ok.verifier_tx_hash, Some(format!("0x{}", "cd".repeat(32))));
    assert_eq!(ok.reason.as_deref(), Some("EVM verifier contract accepted the commitment"));
    for status in [Some(0), None, Some(2)] {
        let r = evm_receipt(status, &[0; 32]);
        assert!(!r.accepted);
        assert_eq!(r.reason.as_deref(), Some("EVM verifier transaction was mined but not successful"));
    }
}

#[test]
fn metadata_and_commitment_accessors() {
    let inp = input([9; 32], "0x00");
    assert!(inp.state_commitment() == StateCommitment::new([9; 32]));
    let m = inp.proof_metadata();
    assert_eq!(m.system_name, "mock-zk");
    assert_eq!(m.system_version, "0.1.0");
    assert_eq!(m.proof_size_bytes, 64);
    let m2 = ProofMetadata::from_bundle(&inp.proof);
    assert_eq!(m2.proof_size_bytes, 64);
}
