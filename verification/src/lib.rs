//! Post-quantum sovereign privacy storage: verified protocol core.
//!
//! The library holds the logic of the storage pipeline: hash-based state
//! commitments over length-prefixed transcripts, the versioned encrypted
//! envelope, the deterministic mock proof system, verifier-side validation,
//! and the upload-pipeline assembly. Hashing, authenticated encryption,
//! randomness and JSON encoding are delegated to outside crates through small
//! trusted wrappers.

pub mod text;
pub mod hex;
pub mod fixed_hex;
pub mod hash;
pub mod bytes_ext;
pub mod commitment;
pub mod encryption;
pub mod json;
pub mod zk;
pub mod types;
pub mod onchain;
pub mod keys;
pub mod error;
pub mod payload;
pub mod client;
pub mod settings;
