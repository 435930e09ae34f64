//! Upload payloads, prepared uploads and receipts.

use vstd::prelude::*;
use bytes::Bytes;
use crate::bytes_ext::{bytes_as_slice, bytes_contents, bytes_from_vec};
use crate::commitment::StateCommitment;
use crate::encryption::EncryptedPayload;
use crate::hex::spec_hex_encode;
use crate::text::push_str;
use crate::types::StorageReceiptRef;
use crate::zk::{ProofBundle, ProofStatement};

verus! {

/// Descriptive metadata attached to an upload payload.
#[derive(Clone, Debug)]
pub struct PayloadMetadata {
    /// Version of the outer protocol payload schema.
    pub protocol_version: u8,
    /// Content type emitted to 0G Storage.
    pub content_type: String,
    /// Encryption scheme applied to the raw plaintext.
    pub encryption_scheme: String,
    /// Commitment scheme used to derive the state commitment.
    pub commitment_scheme: String,
    /// Proof system identifier used for `proof`.
    pub proof_system: String,
}

/// Final upload payload serialized and stored on 0G Storage.
#[derive(Clone, Debug)]
pub struct UploadPayload {
    /// Schema version of the upload payload.
    pub version: u8,
    /// Encrypted bytes encoded as `version || nonce || ciphertext`.
    pub encrypted_blob: Bytes,
    /// Post-quantum state commitment over the encrypted envelope.
    pub state_commitment: StateCommitment,
    /// Public statement for proof verification.
    pub proof_statement: ProofStatement,
    /// Proof material that can later be submitted to an on-chain verifier.
    pub proof: ProofBundle,
    /// Human-readable metadata about the outer payload.
    pub metadata: PayloadMetadata,
}

/// `name@version`, the identifier of a proof system.
pub open spec fn spec_system_id(name: Seq<char>, version: Seq<char>) -> Seq<char> {
    name + seq!['@'] + version
}

/// Writes `name@version`.
pub fn system_id(name: &String, version: &String) -> (s: String)
    ensures
        s@ == spec_system_id(name@, version@),
{
    let mut s = String::new();
    push_str(&mut s, name.as_str());
    crate::text::push_char(&mut s, '@');
    push_str(&mut s, version.as_str());
    assert(s@ =~= spec_system_id(name@, version@));
    s
}

impl UploadPayload {
    /// The encrypted blob bytes.
    pub fn encrypted_blob(&self) -> (b: &[u8])
        ensures
            b@ == bytes_contents(self.encrypted_blob),
    {
        bytes_as_slice(&self.encrypted_blob)
    }

    /// Return a compact summary useful for logging and demos.
    pub fn summary(&self) -> (s: UploadPayloadSummary)
        ensures
            s.version == self.version,
            s.encrypted_blob_bytes == bytes_contents(self.encrypted_blob).len(),
            s.state_commitment_hex@ == seq!['0', 'x'] + spec_hex_encode(self.state_commitment@),
            s.proof_system@ == spec_system_id(self.proof@.system_name, self.proof@.system_version),
    {
        UploadPayloadSummary {
            version: self.version,
            encrypted_blob_bytes: self.encrypted_blob().len(),
            state_commitment_hex: self.state_commitment.to_hex(),
            proof_system: system_id(&self.proof.system.name, &self.proof.system.version),
        }
    }
}

/// Prepared upload bundle emitted before 0G submission.
#[derive(Clone, Debug)]
pub struct PreparedUpload {
    /// Parsed encrypted envelope before outer serialization.
    pub envelope: EncryptedPayload,
    /// Public proof statement paired with the commitment.
    pub proof_statement: ProofStatement,
    /// Proof bundle generated for the statement.
    pub proof: ProofBundle,
    /// State commitment over the encrypted envelope.
    pub state_commitment: StateCommitment,
    /// Final structured payload to store on 0G.
    pub upload_payload: UploadPayload,
    /// Serialized bytes that will be sent to 0G Storage.
    pub encoded_payload: Bytes,
}

impl PreparedUpload {
    /// Pair an envelope and its upload payload with the payload's serialized
    /// bytes.
    pub fn assemble(envelope: EncryptedPayload, upload_payload: UploadPayload, encoded_payload: Vec<u8>) -> (p: Self)
        ensures
            p.envelope@ == envelope@,
            p.proof_statement@ == upload_payload.proof_statement@,
            p.proof@ == upload_payload.proof@,
            p.state_commitment@ == upload_payload.state_commitment@,
            p.upload_payload == upload_payload,
            bytes_contents(p.encoded_payload) == encoded_payload@,
    {
        let proof_statement = upload_payload.proof_statement.duplicate();
        let proof = upload_payload.proof.duplicate();
        let state_commitment = upload_payload.state_commitment;
        PreparedUpload {
            envelope,
            proof_statement,
            proof,
            state_commitment,
            upload_payload,
            encoded_payload: bytes_from_vec(encoded_payload),
        }
    }

    /// The serialized payload bytes.
    pub fn encoded_payload(&self) -> (b: &[u8])
        ensures
            b@ == bytes_contents(self.encoded_payload),
    {
        bytes_as_slice(&self.encoded_payload)
    }
}

/// Compact printable view of an upload payload.
#[derive(Clone, Debug)]
pub struct UploadPayloadSummary {
    /// Payload schema version.
    pub version: u8,
    /// Length of the encrypted blob in bytes.
    pub encrypted_blob_bytes: usize,
    /// Hex rendering of the state commitment.
    pub state_commitment_hex: String,
    /// Proof system identifier in `name@version` form.
    pub proof_system: String,
}

/// Result returned after staging or uploading a payload.
#[derive(Clone, Debug)]
pub struct UploadReceipt {
    /// 0G storage receipt produced by the uploader.
    pub storage: StorageReceiptRef,
    /// State commitment paired with the uploaded payload.
    pub state_commitment: StateCommitment,
    /// Number of payload bytes staged or uploaded.
    pub payload_bytes: usize,
}

} // verus!
