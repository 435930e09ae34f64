use pqsp::commitment::StateCommitment;
use pqsp::json::statement_json;
use pqsp::zk::{
    mock_proof_bytes, MockZkProver, MockZkVerifier, ProofBundle, ProofStatement, ProofSystemDescriptor,
    ProofSystemError, ProofWitness, ZkProver, ZkVerifier,
};

fn statement() -> ProofStatement {
    let mut bytes = [0u8; 32];
    for (i, b) in bytes.iter_mut().enumerate() {
        *b = i as u8 + 1;
    }
    ProofStatement {
        state_commitment: StateCommitment::new(bytes),
        context: b"aad".to_vec(),
        public_inputs: vec!["a=1".to_string(), "q\"x".to_string()],
    }
}

fn unhex(s: &str) -> Vec<u8> {
    pqsp::hex::decode_hex(s.as_bytes()).unwrap()
}

#[test]
fn canonical_statement_json_matches_serde_struct_layout() {
    let s = statement();
    let json = statement_json(s.state_commitment.as_bytes(), &s.context, &s.public_inputs).unwrap();
    assert_eq!(
        String::from_utf8(json).unwrap(),
        "{\"state_commitment\":[1,2,3,4,5,6,7,8,9,10,11,12,13,14,15,16,17,18,19,20,21,22,23,24,25,26,27,28,29,30,31,32],\"context\":[97,97,100],\"public_inputs\":[\"a=1\",\"q\\\"x\"]}"
    );
}

#[test]
fn mock_proof_is_shake256_of_the_framed_statement() {
    let proof = mock_proof_bytes(&statement()).unwrap();
    assert_eq!(
        proof,
        unhex("d72c82fbdddcc703c6559ea6f9e45a3e005981469ba09dbc4143eb583ad32651745e2bb50e08288b1c4e98e3bd9664fa186cca6f4f20654c2831b5664926d7e7")
    );
}

#[test]
fn mock_prover_output_verifies() {
    let s = statement();
    let bundle = MockZkProver.prove(&s, &ProofWitness::new(b"secret".to_vec())).unwrap();
    assert_eq!(bundle.system.name, "mock-zk");
    assert_eq!(bundle.system.version, "0.1.0");
    assert_eq!(bundle.proof_bytes().len(), 64);
    assert_eq!(bundle.public_inputs, s.public_inputs);
    assert!(MockZkVerifier.verify(&s, &bundle).is_ok());
}

#[test]
fn mock_verifier_rejects_altered_bundles() {
    let s = statement();
    let bundle = MockZkProver.prove(&s, &ProofWitness::new(vec![])).unwrap();

    let mut renamed = bundle.clone();
    renamed.system.name = "other".to_string();
    assert!(matches!(MockZkVerifier.verify(&s, &renamed), Err(ProofSystemError::InvalidMockProof)));

    let mut inputs = bundle.clone();
    inputs.public_inputs.push("extra".to_string());
    assert!(matches!(MockZkVerifier.verify(&s, &inputs), Err(ProofSystemError::InvalidMockProof)));

    let mut proof = bundle.proof_bytes().to_vec();
    proof[10] ^= 0x80;
    let forged = ProofBundle {
        system: ProofSystemDescriptor::mock(),
        proof_bytes: bytes::Bytes::from(proof),
        public_inputs: bundle.public_inputs.clone(),
    };
    assert!(matches!(MockZkVerifier.verify(&s, &forged), Err(ProofSystemError::InvalidMockProof)));

    let mut other = statement();
    other.context = b"aae".to_vec();
    assert!(matches!(MockZkVerifier.verify(&other, &bundle), Err(ProofSystemError::InvalidMockProof)));
}

#[test]
fn witness_length() {
    let w = ProofWitness::new(vec![1, 2, 3]);
    assert_eq!(w.len(), 3);
    assert!(!w.is_empty());
    assert!(ProofWitness::new(vec![]).is_empty());
}

#[test]
fn duplicates_keep_content() {
    let s = statement();
    let d = s.duplicate();
    assert_eq!(d.context, s.context);
    assert_eq!(d.public_inputs, s.public_inputs);
    assert!(d.state_commitment == s.state_commitment);
    let bundle = MockZkProver.prove(&s, &ProofWitness::new(vec![])).unwrap();
    let b = bundle.duplicate();
    assert_eq!(b.proof_bytes(), bundle.proof_bytes());
}

#[test]
fn statement_object_layout_and_mock_transcript_framing() {
    let obj = pqsp::json::assemble_statement_json(b"[1]", b"[]", b"[\"x\"]");
    assert_eq!(
        String::from_utf8(obj).unwrap(),
        "{\"state_commitment\":[1],\"context\":[],\"public_inputs\":[\"x\"]}"
    );
    let t = pqsp::zk::build_mock_transcript(b"{}");
    let domain = b"pqsp:v1:mock-proof";
    let mut expected = (domain.len() as u64).to_le_bytes().to_vec();
    expected.extend_from_slice(domain);
    expected.extend_from_slice(&2u64.to_le_bytes());
    expected.extend_from_slice(b"{}");
    assert_eq!(t, expected);
}

#[test]
fn mock_proofs_are_deterministic() {
    let a = MockZkProver.prove(&statement(), &ProofWitness::new(b"one".to_vec())).unwrap();
    let b = MockZkProver.prove(&statement(), &ProofWitness::new(b"two".to_vec())).unwrap();
    assert_eq!(a.proof_bytes(), b.proof_bytes());
    assert_eq!(a.public_inputs, b.public_inputs);
}
