use pqsp::client::UploadMode;
use pqsp::commitment::StateCommitment;
use pqsp::settings::{
    artifact_file_name, build_storage_config, configured_evm_verifier, decrypted_file_name,
    dotfile_digit_entries, download_file_name, first_storage_indexer_url, first_storage_node_url,
    indexer_download_url, node_download_url, non_blank, parse_node_urls, trim, validate_artifact, ArtifactError,
};
use pqsp::types::{CommitmentSubmission, StorageReceiptRef, VerifierInput};
use pqsp::zk::{MockZkProver, ProofStatement, ProofWitness, ZkProver};

fn s(v: &str) -> Option<String> {
    Some(v.to_string())
}

#[test]
fn node_urls_are_trimmed_and_empty_entries_dropped() {
    assert_eq!(parse_node_urls(" http://a , ,http://b,"), vec!["http://a".to_string(), "http://b".to_string()]);
    assert!(parse_node_urls("").is_empty());
    assert!(parse_node_urls(" , \t,").is_empty());
    assert_eq!(parse_node_urls("x"), vec!["x".to_string()]);
    assert_eq!(parse_node_urls("a\u{3000},b c"), vec!["a".to_string(), "b c".to_string()]);
}

#[test]
fn trims_unicode_whitespace() {
    assert_eq!(trim("\t\n hello world \r\u{a0}"), "hello world");
    assert_eq!(trim("   "), "");
}

#[test]
fn blank_values_count_as_unset() {
    assert_eq!(non_blank(s("  ")), None);
    assert_eq!(non_blank(s(" v ")), s(" v "));
    assert_eq!(non_blank(None), None);
    assert_eq!(first_storage_indexer_url(s("  http://idx  ")), s("http://idx"));
    assert_eq!(first_storage_indexer_url(s("  ")), None);
    assert_eq!(first_storage_node_url(s(" ,http://n1, http://n2")), s("http://n1"));
    assert_eq!(first_storage_node_url(s(",")), None);
    assert_eq!(first_storage_node_url(None), None);
}

#[test]
fn storage_config_prefers_indexer_then_nodes_then_dry_run() {
    let (c, mode) = build_storage_config("net", s("rpc"), s("key"), s("idx"), s("n1"));
    assert_eq!(mode, "live_with_indexer");
    assert!(matches!(c.mode, UploadMode::Live));
    assert_eq!(c.indexer_url, s("idx"));

    let (c, mode) = build_storage_config("net", s("rpc"), s("key"), s(" "), s("n1, n2"));
    assert_eq!(mode, "live_with_nodes");
    assert_eq!(c.node_urls, vec!["n1".to_string(), "n2".to_string()]);
    assert!(c.indexer_url.is_none());

    let (c, mode) = build_storage_config("net", s("rpc"), s("key"), None, s(" , "));
    assert_eq!(mode, "dry_run");
    assert!(matches!(c.mode, UploadMode::DryRun));

    let (c, mode) = build_storage_config("net", None, s("key"), s("idx"), s("n"));
    assert_eq!(mode, "dry_run");
    assert_eq!(c.network_label, "net");
}

#[test]
fn evm_verifier_needs_all_three_settings() {
    assert_eq!(
        configured_evm_verifier(s("rpc"), s("key"), s("0xabc")),
        Some(("rpc".to_string(), "key".to_string(), "0xabc".to_string()))
    );
    assert_eq!(configured_evm_verifier(s("rpc"), s(""), s("0xabc")), None);
    assert_eq!(configured_evm_verifier(None, s("key"), s("0xabc")), None);
}

#[test]
fn dotfile_keeps_digit_keyed_assignments() {
    let contents = "# comment\n0G_CHAIN_RPC_URL=\"https://rpc\"\r\nexport   0G_PRIVATE_KEY = 'abc'\nPQSP_VERIFIER=x\n 1A = v=w \n=novalue\n9NOEQ\n\n";
    assert_eq!(
        dotfile_digit_entries(contents),
        vec![
            ("0G_CHAIN_RPC_URL".to_string(), "https://rpc".to_string()),
            ("0G_PRIVATE_KEY".to_string(), "abc".to_string()),
            ("1A".to_string(), "v=w".to_string()),
        ]
    );
    assert!(dotfile_digit_entries("").is_empty());
    assert_eq!(dotfile_digit_entries("2X=\"'q'\""), vec![("2X".to_string(), "q".to_string())]);
}

#[test]
fn default_file_names() {
    assert_eq!(artifact_file_name(Some("example.txt")), "example.txt.pqsp-receipt.json");
    assert_eq!(artifact_file_name(None), "upload.pqsp-receipt.json");
    assert_eq!(decrypted_file_name(Some("payload.json")), "payload.json.decrypted");
    assert_eq!(decrypted_file_name(None), "payload.decrypted");
    assert_eq!(download_file_name("0xAbC-_9/.."), "AbC-_9___.json");
    assert_eq!(download_file_name("root"), "root.json");
    assert_eq!(download_file_name("0x"), ".json");
}

fn submission(commitment: [u8; 32]) -> CommitmentSubmission {
    let statement = ProofStatement {
        state_commitment: StateCommitment::new(commitment),
        context: vec![],
        public_inputs: vec![],
    };
    let proof = MockZkProver.prove(&statement, &ProofWitness::new(vec![])).unwrap();
    CommitmentSubmission {
        application_id: "pqsp-cli".to_string(),
        verifier_input: VerifierInput {
            proof_statement: statement,
            proof,
            storage: StorageReceiptRef { network: "n".to_string(), merkle_root: "0x00".to_string(), tx_hash: None },
        },
        submitter: Some("me".to_string()),
        memo: None,
    }
}

#[test]
fn artifact_replay_checks() {
    let sub = submission([4; 32]);
    assert_eq!(validate_artifact(1, &StateCommitment::new([4; 32]), &sub), Ok(()));
    assert_eq!(validate_artifact(2, &StateCommitment::new([4; 32]), &sub), Err(ArtifactError::UnsupportedVersion(2)));
    assert_eq!(validate_artifact(1, &StateCommitment::new([5; 32]), &sub), Err(ArtifactError::CommitmentMismatch));
}

#[test]
fn download_urls_join_endpoint_and_root() {
    assert_eq!(node_download_url("http://node:5678//", "//0xabc"), "http://node:5678/file/0xabc");
    assert_eq!(node_download_url("http://node", "0xabc"), "http://node/file/0xabc");
    assert_eq!(node_download_url("", ""), "/file/");
    assert_eq!(indexer_download_url("http://idx/", "/0xabc"), "http://idx/file//0xabc");
    assert_eq!(indexer_download_url("http://idx", "0xabc"), "http://idx/file/0xabc");
}

#[test]
fn dotfile_sets_only_digit_named_variables() {
    let entries = dotfile_digit_entries("A=1\n0G_X = 2\n# 3=4\nexport 7Y='z'\n=5\n");
    assert_eq!(entries, vec![("0G_X".to_string(), "2".to_string()), ("7Y".to_string(), "z".to_string())]);
    assert!(entries.iter().all(|(k, _)| k.chars().next().is_some_and(|c| c.is_ascii_digit())));
}
