//! The upload pipeline: encrypt, commit to the envelope, state and prove,
//! and assemble the payload and receipts around 0G Storage.

use vstd::prelude::*;
use vstd::string::StringSliceAdditionalSpecFns;
use crate::bytes_ext::{bytes_contents, bytes_from_vec, copy_bytes};
use crate::commitment::{to_array32, StateCommitter};
use crate::fixed_hex::{parse_fixed_hex, spec_fixed_hex_message, spec_fixed_hex_parse};
use crate::encryption::{spec_envelope_bytes, EncryptedPayload, EncryptionError, PayloadEncryptor, PAYLOAD_ENVELOPE_VERSION};
use crate::error::StorageClientError;
use crate::hex::{encode_hex_prefixed, spec_hex_encode};
use crate::payload::{spec_system_id, system_id, PayloadMetadata, PreparedUpload, UploadPayload, UploadReceipt};
use crate::text::{append_decimal, decimal_value, lemma_decimal_reads_back, owned, push_str, spec_decimal, strings_view};
use crate::types::StorageReceiptRef;
use crate::zk::{ProofBundle, ProofStatement, ProofSystemError, ProofWitness, StatementView, ZkProver};

verus! {

/// Upload execution mode.
#[derive(Clone, Copy, Debug, Default, PartialEq, Eq, Structural)]
pub enum UploadMode {
    /// Do not contact 0G. Produce a deterministic local receipt instead.
    #[default]
    DryRun,
    /// Stage a real payload and upload it via the official 0G Rust SDK.
    Live,
}

/// Finality level requested from the 0G upload path.
#[derive(Clone, Copy, Debug, Default, PartialEq, Eq, Structural)]
pub enum UploadFinality {
    /// Wait until the file is finalized on storage nodes.
    FileFinalized,
    /// Wait until the transaction is packed on chain.
    #[default]
    TransactionPacked,
    /// Return immediately after dispatch.
    WaitNothing,
}

/// Live-upload configuration for the 0G adapter.
#[derive(Clone, Debug)]
pub struct ZeroGStorageConfig {
    /// Human-readable network label.
    pub network_label: String,
    /// Whether the service performs a real upload or returns a deterministic stub.
    pub mode: UploadMode,
    /// 0G Chain RPC endpoint used when `mode` is `Live`.
    pub chain_rpc_url: Option<String>,
    /// Hex-encoded private key used by the SDK to sign upload transactions.
    pub private_key_hex: Option<String>,
    /// Optional indexer endpoint. When present it takes precedence over `node_urls`.
    pub indexer_url: Option<String>,
    /// Explicit node URLs used when no indexer endpoint is supplied.
    pub node_urls: Vec<String>,
    /// Desired replica count for the storage upload.
    pub expected_replica: u64,
    /// Number of segments submitted in each upload task.
    pub task_size: u64,
    /// Skip the chain transaction if the SDK detects the file already exists.
    pub skip_tx: bool,
    /// Upload fee in wei-equivalent base units.
    pub fee_wei: u128,
    /// Requested upload finality.
    pub finality: UploadFinality,
}

/// The defaults that every configuration constructor sets.
pub open spec fn has_default_upload_options(c: ZeroGStorageConfig) -> bool {
    &&& c.expected_replica == 1
    &&& c.task_size == 10
    &&& c.skip_tx
    &&& c.fee_wei == 0
    &&& c.finality == UploadFinality::TransactionPacked
}

/// The view of an optional string.
pub open spec fn opt_view(s: Option<String>) -> Option<Seq<char>> {
    match s {
        Some(t) => Some(t@),
        None => None,
    }
}

impl ZeroGStorageConfig {
    /// Build a dry-run configuration suitable for local demos and tests.
    pub fn dry_run(network_label: String) -> (c: Self)
        ensures
            c.network_label@ == network_label@,
            c.mode == UploadMode::DryRun,
            c.chain_rpc_url is None,
            c.private_key_hex is None,
            c.indexer_url is None,
            c.node_urls@.len() == 0,
            has_default_upload_options(c),
    {
        ZeroGStorageConfig {
            network_label,
            mode: UploadMode::DryRun,
            chain_rpc_url: None,
            private_key_hex: None,
            indexer_url: None,
            node_urls: Vec::new(),
            expected_replica: 1,
            task_size: 10,
            skip_tx: true,
            fee_wei: 0,
            finality: UploadFinality::TransactionPacked,
        }
    }

    /// Build a live config that resolves storage nodes through an indexer.
    pub fn live_with_indexer(
        network_label: String,
        chain_rpc_url: String,
        private_key_hex: String,
        indexer_url: String,
    ) -> (c: Self)
        ensures
            c.network_label@ == network_label@,
            c.mode == UploadMode::Live,
            opt_view(c.chain_rpc_url) == Some(chain_rpc_url@),
            opt_view(c.private_key_hex) == Some(private_key_hex@),
            opt_view(c.indexer_url) == Some(indexer_url@),
            c.node_urls@.len() == 0,
            has_default_upload_options(c),
    {
        ZeroGStorageConfig {
            network_label,
            mode: UploadMode::Live,
            chain_rpc_url: Some(chain_rpc_url),
            private_key_hex: Some(private_key_hex),
            indexer_url: Some(indexer_url),
            node_urls: Vec::new(),
            expected_replica: 1,
            task_size: 10,
            skip_tx: true,
            fee_wei: 0,
            finality: UploadFinality::TransactionPacked,
        }
    }

    /// Build a live config that targets explicit storage nodes.
    pub fn live_with_nodes(
        network_label: String,
        chain_rpc_url: String,
        private_key_hex: String,
        node_urls: Vec<String>,
    ) -> (c: Self)
        ensures
            c.network_label@ == network_label@,
            c.mode == UploadMode::Live,
            opt_view(c.chain_rpc_url) == Some(chain_rpc_url@),
            opt_view(c.private_key_hex) == Some(private_key_hex@),
            c.indexer_url is None,
            c.node_urls == node_urls,
            has_default_upload_options(c),
    {
        ZeroGStorageConfig {
            network_label,
            mode: UploadMode::Live,
            chain_rpc_url: Some(chain_rpc_url),
            private_key_hex: Some(private_key_hex),
            indexer_url: None,
            node_urls,
            expected_replica: 1,
            task_size: 10,
            skip_tx: true,
            fee_wei: 0,
            finality: UploadFinality::TransactionPacked,
        }
    }
}

/// Payload schema version written into every upload payload.
pub const UPLOAD_PAYLOAD_VERSION: u8 = 1;

/// Content type recorded in the payload metadata.
pub const PAYLOAD_CONTENT_TYPE: &'static str = "application/json";

/// Encryption scheme recorded in the payload metadata.
pub const PAYLOAD_ENCRYPTION_SCHEME: &'static str = "XChaCha20Poly1305";

/// Commitment scheme recorded in the payload metadata.
pub const PAYLOAD_COMMITMENT_SCHEME: &'static str = "SHAKE256-256";

/// Context under which a dry run commits to the encoded payload to derive a
/// stand-in storage root.
pub const DRY_RUN_ROOT_CONTEXT: &'static str = "pqsp:v1:dry-run-storage-root";

/// Prefix of the commitment public input.
pub const COMMITMENT_INPUT_PREFIX: &'static str = "state_commitment=";

/// Prefix of the ciphertext-length public input.
pub const CIPHERTEXT_INPUT_PREFIX: &'static str = "ciphertext_bytes=";

/// The public inputs of an upload's proof statement: the `0x`-hex commitment
/// and the ciphertext length in decimal.
pub open spec fn spec_upload_public_inputs(commitment: Seq<u8>, ciphertext_len: nat) -> Seq<Seq<char>> {
    seq![
        COMMITMENT_INPUT_PREFIX@ + seq!['0', 'x'] + spec_hex_encode(commitment),
        CIPHERTEXT_INPUT_PREFIX@ + spec_decimal(ciphertext_len),
    ]
}

/// The proof statement of an upload whose envelope has the given commitment
/// and ciphertext length, under associated data `aad`.
pub open spec fn spec_upload_statement(commitment: Seq<u8>, aad: Seq<u8>, ciphertext_len: nat) -> StatementView {
    StatementView {
        state_commitment: commitment,
        context: aad,
        public_inputs: spec_upload_public_inputs(commitment, ciphertext_len),
    }
}

/// The storage endpoints that a live upload goes through.
pub enum UploadRoute {
    /// An indexer, which selects the storage nodes.
    Indexer(String),
    /// Explicit storage nodes, never empty.
    Nodes(Vec<String>),
}

/// The second public input of an upload statement names the ciphertext
/// length exactly: after its prefix, its decimal digits read back as the
/// length, for every length.
pub proof fn lemma_ciphertext_input_reads_back(commitment: Seq<u8>, ciphertext_len: nat)
    ensures
        spec_upload_public_inputs(commitment, ciphertext_len).len() == 2,
        spec_upload_public_inputs(commitment, ciphertext_len)[1].take(CIPHERTEXT_INPUT_PREFIX@.len() as int)
            == CIPHERTEXT_INPUT_PREFIX@,
        decimal_value(spec_upload_public_inputs(commitment, ciphertext_len)[1].skip(
            CIPHERTEXT_INPUT_PREFIX@.len() as int,
        )) == ciphertext_len,
{
    let t = spec_upload_public_inputs(commitment, ciphertext_len)[1];
    assert(t == CIPHERTEXT_INPUT_PREFIX@ + spec_decimal(ciphertext_len));
    assert(t.take(CIPHERTEXT_INPUT_PREFIX@.len() as int) =~= CIPHERTEXT_INPUT_PREFIX@);
    assert(t.skip(CIPHERTEXT_INPUT_PREFIX@.len() as int) =~= spec_decimal(ciphertext_len));
    lemma_decimal_reads_back(ciphertext_len);
}

/// The first public input of an upload statement names the commitment
/// exactly: after its prefix and `0x`, its hex digits parse back to the
/// commitment bytes.
pub proof fn lemma_commitment_input_reads_back(commitment: Seq<u8>, ciphertext_len: nat)
    ensures
        spec_fixed_hex_parse(
            spec_upload_public_inputs(commitment, ciphertext_len)[0].skip(COMMITMENT_INPUT_PREFIX@.len() as int),
            2 * commitment.len(),
        ) == Ok::<Seq<u8>, crate::fixed_hex::FixedHexError>(commitment),
{
    let t = spec_upload_public_inputs(commitment, ciphertext_len)[0];
    assert(t.skip(COMMITMENT_INPUT_PREFIX@.len() as int) =~= seq!['0', 'x'] + spec_hex_encode(commitment));
    crate::fixed_hex::lemma_fixed_hex_roundtrip(commitment, true);
}

/// The storage location to which a live upload goes.
pub struct LiveUploadTarget {
    /// Chain RPC endpoint.
    pub chain_rpc_url: String,
    /// Signer private key in hex.
    pub private_key_hex: String,
    /// The endpoints to upload through.
    pub route: UploadRoute,
}

/// Reference implementation of the sovereign upload pipeline.
pub struct ZeroGStorageService<C, E> {
    config: ZeroGStorageConfig,
    committer: C,
    encryptor: E,
}

impl<C: StateCommitter, E: PayloadEncryptor> ZeroGStorageService<C, E> {
    /// The service's configuration.
    pub closed spec fn spec_config(&self) -> ZeroGStorageConfig {
        self.config
    }

    /// The service's committer.
    pub closed spec fn spec_committer(&self) -> C {
        self.committer
    }

    /// The service's encryptor.
    pub closed spec fn spec_encryptor(&self) -> E {
        self.encryptor
    }

    /// Create a new service from caller-supplied crypto primitives and config.
    pub fn new(config: ZeroGStorageConfig, committer: C, encryptor: E) -> (s: Self)
        ensures
            s.spec_config() == config,
            s.spec_committer() == committer,
            s.spec_encryptor() == encryptor,
    {
        ZeroGStorageService { config, committer, encryptor }
    }

    /// The service's configuration.
    pub fn config(&self) -> (c: &ZeroGStorageConfig)
        ensures
            *c == self.spec_config(),
    {
        &self.config
    }

    /// The proof statement of an upload: the committer's commitment to the
    /// encoded envelope under `aad`, the context `aad`, and the public inputs
    /// naming that commitment and the ciphertext length.
    pub fn upload_statement(&self, envelope: &EncryptedPayload, aad: &[u8]) -> (s: ProofStatement)
        ensures
            s@.state_commitment == self.spec_committer().spec_commitment(spec_envelope_bytes(envelope@), aad@),
            s@.context == aad@,
            s@.public_inputs.len() == 2,
            s@.public_inputs[0] == COMMITMENT_INPUT_PREFIX@ + seq!['0', 'x'] + spec_hex_encode(s@.state_commitment),
            s@.public_inputs[1] == CIPHERTEXT_INPUT_PREFIX@ + spec_decimal(envelope@.ciphertext.len()),
            s@ == spec_upload_statement(
                self.spec_committer().spec_commitment(spec_envelope_bytes(envelope@), aad@),
                aad@,
                envelope@.ciphertext.len(),
            ),
    {
        let envelope_bytes = envelope.to_bytes();
        let state_commitment = self.committer.commit(envelope_bytes.as_slice(), aad);

        let mut commitment_input = owned(COMMITMENT_INPUT_PREFIX);
        let commitment_hex = state_commitment.to_hex();
        push_str(&mut commitment_input, commitment_hex.as_str());
        let mut length_input = owned(CIPHERTEXT_INPUT_PREFIX);
        append_decimal(&mut length_input, envelope.ciphertext_len());
        let ghost commitment_text = commitment_input@;
        let ghost length_text = length_input@;
        let mut public_inputs: Vec<String> = Vec::new();
        public_inputs.push(commitment_input);
        public_inputs.push(length_input);
        assert(public_inputs@[0]@ == commitment_text);
        assert(commitment_text =~= COMMITMENT_INPUT_PREFIX@ + seq!['0', 'x'] + spec_hex_encode(state_commitment@));
        assert(length_text =~= CIPHERTEXT_INPUT_PREFIX@ + spec_decimal(envelope@.ciphertext.len()));
        assert(public_inputs@[1]@ == length_text);

        let proof_statement = ProofStatement {
            state_commitment,
            context: copy_bytes(aad),
            public_inputs,
        };
        assert(strings_view(proof_statement.public_inputs@)[0] == proof_statement.public_inputs@[0]@);
        assert(strings_view(proof_statement.public_inputs@)[1] == proof_statement.public_inputs@[1]@);
        assert(proof_statement@.public_inputs =~= spec_upload_public_inputs(
            state_commitment@,
            envelope@.ciphertext.len(),
        ));
        proof_statement
    }

    /// Encrypt data, commit to the resulting ciphertext envelope, state and
    /// prove the commitment with the plaintext as private witness, and
    /// assemble the upload payload.
    pub fn prepare_payload<P: ZkProver>(&self, plaintext: &[u8], aad: &[u8], prover: &P) -> (r: Result<
        (EncryptedPayload, UploadPayload),
        StorageClientError,
    >)
        ensures
            r matches Ok((envelope, payload)) ==> {
                &&& envelope@.version == PAYLOAD_ENVELOPE_VERSION
                &&& envelope@.ciphertext == self.spec_encryptor().spec_seal(envelope@.nonce, plaintext@, aad@)
                &&& payload.proof_statement@ == spec_upload_statement(
                    self.spec_committer().spec_commitment(spec_envelope_bytes(envelope@), aad@),
                    aad@,
                    envelope@.ciphertext.len(),
                )
                &&& prover.spec_produces(payload.proof_statement@, plaintext@, payload.proof@)
                &&& is_upload_payload_of(
                    payload,
                    spec_envelope_bytes(envelope@),
                    payload.proof_statement,
                    payload.proof,
                )
            },
            r matches Err(e) ==> e is Encryption || e is Proof,
    {
        let encrypted = self.encryptor.encrypt(plaintext, aad);
        self.continue_after_encryption(encrypted, plaintext, aad, prover)
    }

    /// The rest of the upload pipeline once the encryptor has answered: an
    /// encryption error comes back as `Encryption`; an envelope is stated and
    /// proved with the plaintext as witness, and a proving error comes back
    /// as `Proof`.
    pub fn continue_after_encryption<P: ZkProver>(
        &self,
        encrypted: Result<EncryptedPayload, EncryptionError>,
        plaintext: &[u8],
        aad: &[u8],
        prover: &P,
    ) -> (r: Result<(EncryptedPayload, UploadPayload), StorageClientError>)
        ensures
            encrypted matches Err(ee) ==> (r matches Err(StorageClientError::Encryption(x)) && x == ee),
            encrypted matches Ok(env) ==> match r {
                Ok((envelope, payload)) => {
                    &&& envelope == env
                    &&& payload.proof_statement@ == spec_upload_statement(
                        self.spec_committer().spec_commitment(spec_envelope_bytes(env@), aad@),
                        aad@,
                        env@.ciphertext.len(),
                    )
                    &&& prover.spec_produces(payload.proof_statement@, plaintext@, payload.proof@)
                    &&& is_upload_payload_of(
                        payload,
                        spec_envelope_bytes(env@),
                        payload.proof_statement,
                        payload.proof,
                    )
                },
                Err(e) => e is Proof,
            },
    {
        let envelope = match encrypted {
            Ok(p) => p,
            Err(e) => return Err(StorageClientError::Encryption(e)),
        };
        let proof_statement = self.upload_statement(&envelope, aad);
        let witness = ProofWitness::new(copy_bytes(plaintext));
        let proved = prover.prove(&proof_statement, &witness);
        finish_upload_payload(envelope, proof_statement, proved)
    }

    /// The storage receipt of a dry run: the network label and, as Merkle
    /// root, the hex commitment to the encoded payload under the dry-run
    /// context; no transaction.
    pub fn dry_run_storage(&self, prepared: &PreparedUpload) -> (s: StorageReceiptRef)
        ensures
            s.network@ == self.spec_config().network_label@,
            s.merkle_root@ == seq!['0', 'x'] + spec_hex_encode(
                self.spec_committer().spec_commitment(
                    bytes_contents(prepared.encoded_payload),
                    DRY_RUN_ROOT_CONTEXT.spec_bytes(),
                ),
            ),
            s.tx_hash is None,
    {
        let root = self.committer.commit(prepared.encoded_payload(), DRY_RUN_ROOT_CONTEXT.as_bytes());
        StorageReceiptRef {
            network: self.config.network_label.clone(),
            merkle_root: root.to_hex(),
            tx_hash: None,
        }
    }

    /// Check that the configuration allows a live upload and return where it
    /// goes.
    pub fn live_upload_target(&self) -> (r: Result<LiveUploadTarget, StorageClientError>)
        ensures
            r matches Ok(t) ==> {
                &&& opt_view(self.spec_config().chain_rpc_url) == Some(t.chain_rpc_url@)
                &&& opt_view(self.spec_config().private_key_hex) == Some(t.private_key_hex@)
                &&& match self.spec_config().indexer_url {
                    Some(u) => t.route matches UploadRoute::Indexer(x) && x@ == u@,
                    None => t.route matches UploadRoute::Nodes(v) && v@.len() > 0
                        && strings_view(v@) == strings_view(self.spec_config().node_urls@),
                }
            },
            r matches Err(e) ==> if self.spec_config().chain_rpc_url is None
                || self.spec_config().private_key_hex is None {
                e is MissingChainCredentials
            } else {
                e is MissingUploadTarget && self.spec_config().indexer_url is None
                    && self.spec_config().node_urls@.len() == 0
            },
            r is Err ==> (self.spec_config().chain_rpc_url is None || self.spec_config().private_key_hex is None
                || (self.spec_config().indexer_url is None && self.spec_config().node_urls@.len() == 0)),
    {
        let chain_rpc_url = match &self.config.chain_rpc_url {
            Some(u) => u.clone(),
            None => return Err(StorageClientError::MissingChainCredentials),
        };
        let private_key_hex = match &self.config.private_key_hex {
            Some(k) => k.clone(),
            None => return Err(StorageClientError::MissingChainCredentials),
        };
        if self.config.indexer_url.is_none() && self.config.node_urls.len() == 0 {
            return Err(StorageClientError::MissingUploadTarget);
        }
        let route = match &self.config.indexer_url {
            Some(u) => UploadRoute::Indexer(u.clone()),
            None => {
                let node_urls = crate::text::clone_strings(&self.config.node_urls);
                assert(strings_view(node_urls@).len() == node_urls@.len());
                assert(strings_view(self.config.node_urls@).len() == self.config.node_urls@.len());
                UploadRoute::Nodes(node_urls)
            },
        };
        Ok(LiveUploadTarget { chain_rpc_url, private_key_hex, route })
    }

    /// The storage receipt of a live upload: the network label, the file's
    /// Merkle root and the upload transaction hash, both as `0x`-hex.
    pub fn live_storage_receipt(&self, file_root: &[u8; 32], tx_hash: &[u8; 32]) -> (s: StorageReceiptRef)
        ensures
            s.network@ == self.spec_config().network_label@,
            s.merkle_root@ == seq!['0', 'x'] + spec_hex_encode(file_root@),
            s.tx_hash matches Some(h) && h@ == seq!['0', 'x'] + spec_hex_encode(tx_hash@),
    {
        StorageReceiptRef {
            network: self.config.network_label.clone(),
            merkle_root: encode_hex_prefixed(file_root.as_slice()),
            tx_hash: Some(encode_hex_prefixed(tx_hash.as_slice())),
        }
    }
}

/// `p` is the upload payload of an envelope encoded as `envelope_bytes`,
/// with `statement` and `proof`: the current schema version, the envelope
/// bytes as blob, the statement's commitment, and the fixed metadata naming
/// the proof's system.
pub open spec fn is_upload_payload_of(
    p: UploadPayload,
    envelope_bytes: Seq<u8>,
    statement: ProofStatement,
    proof: ProofBundle,
) -> bool {
    &&& p.version == UPLOAD_PAYLOAD_VERSION
    &&& bytes_contents(p.encrypted_blob) == envelope_bytes
    &&& p.state_commitment == statement.state_commitment
    &&& p.proof_statement == statement
    &&& p.proof == proof
    &&& p.metadata.protocol_version == UPLOAD_PAYLOAD_VERSION
    &&& p.metadata.content_type@ == PAYLOAD_CONTENT_TYPE@
    &&& p.metadata.encryption_scheme@ == PAYLOAD_ENCRYPTION_SCHEME@
    &&& p.metadata.commitment_scheme@ == PAYLOAD_COMMITMENT_SCHEME@
    &&& p.metadata.proof_system@ == spec_system_id(proof@.system_name, proof@.system_version)
}

/// Assembles the upload payload around an envelope, its statement and its
/// proof.
pub fn assemble_upload_payload(
    envelope: &EncryptedPayload,
    statement: ProofStatement,
    proof: ProofBundle,
) -> (p: UploadPayload)
    ensures
        is_upload_payload_of(p, spec_envelope_bytes(envelope@), statement, proof),
{
    let proof_system = system_id(&proof.system.name, &proof.system.version);
    UploadPayload {
        version: UPLOAD_PAYLOAD_VERSION,
        encrypted_blob: bytes_from_vec(envelope.to_bytes()),
        state_commitment: statement.state_commitment,
        proof_statement: statement,
        proof,
        metadata: PayloadMetadata {
            protocol_version: UPLOAD_PAYLOAD_VERSION,
            content_type: owned(PAYLOAD_CONTENT_TYPE),
            encryption_scheme: owned(PAYLOAD_ENCRYPTION_SCHEME),
            commitment_scheme: owned(PAYLOAD_COMMITMENT_SCHEME),
            proof_system,
        },
    }
}

/// The last step of the upload pipeline once the prover has answered: a
/// proving error comes back as `Proof`; a bundle is assembled with the
/// envelope and statement into the upload payload.
pub fn finish_upload_payload(
    envelope: EncryptedPayload,
    statement: ProofStatement,
    proved: Result<ProofBundle, ProofSystemError>,
) -> (r: Result<(EncryptedPayload, UploadPayload), StorageClientError>)
    ensures
        proved matches Err(pe) ==> (r matches Err(StorageClientError::Proof(x)) && x == pe),
        proved matches Ok(b) ==> (r matches Ok((e, p)) && e == envelope
            && is_upload_payload_of(p, spec_envelope_bytes(envelope@), statement, b)),
{
    match proved {
        Ok(proof) => {
            let payload = assemble_upload_payload(&envelope, statement, proof);
            Ok((envelope, payload))
        },
        Err(e) => Err(StorageClientError::Proof(e)),
    }
}

/// Parses the Merkle root of a file to download as an `H256`: an optional
/// `0x` and 64 hex digits, separators ignored; any other text is an SDK
/// error carrying the parse message.
pub fn parse_storage_root(merkle_root: &str) -> (r: Result<[u8; 32], StorageClientError>)
    ensures
        match spec_fixed_hex_parse(merkle_root@, 64) {
            Ok(b) => r matches Ok(a) && a@ == b,
            Err(e) => r matches Err(StorageClientError::ZeroGSdk(m)) && m@ == spec_fixed_hex_message(e),
        },
{
    match parse_fixed_hex(merkle_root, 64) {
        Ok(v) => Ok(to_array32(v.as_slice())),
        Err(e) => Err(StorageClientError::ZeroGSdk(e.message())),
    }
}

/// The Merkle root that a live upload records in its receipt (`0x` and the
/// lower-case hex of the 32-byte file root) parses, when the file is
/// downloaded by it, back to the same 32 bytes.
pub proof fn lemma_receipt_root_parses_back(file_root: Seq<u8>)
    requires
        file_root.len() == 32,
    ensures
        spec_fixed_hex_parse(seq!['0', 'x'] + spec_hex_encode(file_root), 64)
            == Ok::<Seq<u8>, crate::fixed_hex::FixedHexError>(file_root),
{
    crate::fixed_hex::lemma_fixed_hex_roundtrip(file_root, true);
}

/// The receipt of a staged or uploaded payload.
pub fn upload_receipt(prepared: &PreparedUpload, storage: StorageReceiptRef) -> (r: UploadReceipt)
    ensures
        r.storage == storage,
        r.state_commitment@ == prepared.state_commitment@,
        r.payload_bytes == bytes_contents(prepared.encoded_payload).len(),
{
    UploadReceipt {
        storage,
        state_commitment: prepared.state_commitment,
        payload_bytes: prepared.encoded_payload().len(),
    }
}

} // verus!
