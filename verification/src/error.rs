//! Errors of the storage pipeline.

use vstd::prelude::*;
use crate::encryption::EncryptionError;
use crate::zk::ProofSystemError;

verus! {

#[verifier::external_type_specification]
#[verifier::external_body]
pub struct ExIoError(std::io::Error);

/// Errors returned by the sovereign storage pipeline.
#[derive(Debug)]
pub enum StorageClientError {
    /// Ciphertext envelope creation failed.
    Encryption(EncryptionError),
    /// Proof generation failed.
    Proof(ProofSystemError),
    /// Payload serialization failed.
    Serialization(serde_json::Error),
    /// Local filesystem staging failed.
    Io(std::io::Error),
    /// A live upload requires at least one storage target.
    MissingUploadTarget,
    /// Live upload requires chain credentials.
    MissingChainCredentials,
    /// The official 0G SDK reported an error.
    ZeroGSdk(String),
}

} // verus!
