//! Verifier-side validation: the local mock verifier, and the checks and
//! encodings that the EVM verifier adapter performs around its transaction.

use vstd::prelude::*;
use vstd::string::StringSliceAdditionalSpecFns;
use vstd::utf8::encode_utf8;
use crate::bytes_ext::{all_zero, copy_bytes};
use crate::commitment::to_array32;
use crate::hex::{decode_hex, encode_hex_prefixed, spec_hex_decode, spec_hex_encode};
use crate::text::owned;
use crate::types::{CommitmentSubmission, VerificationReceipt, VerifierInput};
use crate::zk::{MockZkProver, ZkProver, spec_mock_accepts, BundleView, MockZkVerifier, ProofSystemError, StatementView, ZkVerifier};

verus! {

/// Errors surfaced by an on-chain verifier adapter.
#[derive(Debug)]
pub enum VerifierError {
    /// State commitment is malformed.
    InvalidCommitment,
    /// Storage-layer receipt is malformed.
    InvalidStorageRoot,
    /// The proof could not be verified.
    InvalidProof(ProofSystemError),
    /// The configured verifier contract address is malformed.
    InvalidContractAddress(String),
    /// The configured signer private key is malformed.
    InvalidPrivateKey(String),
    /// The verifier transaction was dropped before a receipt was produced.
    TransactionDropped,
    /// A chain client or remote verifier call failed.
    Transport(String),
}

/// `value` without a leading `0x`, if it has one.
pub open spec fn strip_hex_prefix(value: Seq<u8>) -> Seq<u8> {
    // 48 is '0' and 120 is 'x'.
    if value.len() >= 2 && value[0] == 48 && value[1] == 120 {
        value.skip(2)
    } else {
        value
    }
}

/// Whether every byte is zero.
pub open spec fn is_all_zero(bytes: Seq<u8>) -> bool {
    forall|j: int| 0 <= j < bytes.len() ==> bytes[j] == 0
}

/// The 32 bytes that a `0x`-optional hex string names, when it names a
/// nonzero 32-byte value.
pub open spec fn spec_parse_bytes32_hex(value: Seq<u8>) -> Option<Seq<u8>> {
    match spec_hex_decode(strip_hex_prefix(value)) {
        Some(bytes) => if bytes.len() == 32 && !is_all_zero(bytes) {
            Some(bytes)
        } else {
            None
        },
        None => None,
    }
}

/// Parse a nonzero 32-byte value from hex, with or without a `0x` prefix.
pub fn parse_bytes32_hex(value: &str) -> (r: Result<[u8; 32], VerifierError>)
    ensures
        r matches Ok(a) ==> spec_parse_bytes32_hex(value.spec_bytes()) == Some(a@),
        r matches Err(e) ==> spec_parse_bytes32_hex(value.spec_bytes()) is None && e is InvalidStorageRoot,
{
    let raw = value.as_bytes();
    let digits = if raw.len() >= 2 && raw[0] == 48 && raw[1] == 120 {
        let (_, rest) = raw.split_at(2);
        rest
    } else {
        raw
    };
    assert(digits@ == strip_hex_prefix(raw@));
    let decoded = match decode_hex(digits) {
        Some(d) => d,
        None => return Err(VerifierError::InvalidStorageRoot),
    };
    if decoded.len() != 32 || all_zero(decoded.as_slice()) {
        return Err(VerifierError::InvalidStorageRoot);
    }
    Ok(to_array32(decoded.as_slice()))
}

/// Whether a string begins with `0x`.
pub open spec fn has_hex_prefix(value: Seq<u8>) -> bool {
    value.len() >= 2 && value[0] == 48 && value[1] == 120
}

fn starts_with_0x(value: &str) -> (r: bool)
    ensures
        r == has_hex_prefix(value.spec_bytes()),
{
    let raw = value.as_bytes();
    raw.len() >= 2 && raw[0] == 48 && raw[1] == 120
}

/// The mock verifier's answer on an input: the storage root must begin with
/// `0x` and the mock proof must verify.
pub open spec fn spec_mock_validate(root: Seq<u8>, statement: StatementView, proof: BundleView) -> bool {
    has_hex_prefix(root) && spec_mock_accepts(statement, proof)
}

/// Whether an error is the one the mock verifier reports for an input whose
/// storage root does (`true`) or does not (`false`) begin with `0x`.
pub open spec fn is_mock_rejection(root_has_prefix: bool, e: VerifierError) -> bool {
    if root_has_prefix {
        e matches VerifierError::InvalidProof(p) && p is InvalidMockProof
    } else {
        e is InvalidStorageRoot
    }
}

/// Reason the mock verifier gives when it accepts a submission.
pub const MOCK_ACCEPTED_REASON: &'static str = "mock verifier accepted the commitment and proof";

/// Reason given when the EVM verifier transaction succeeded.
pub const EVM_ACCEPTED_REASON: &'static str = "EVM verifier contract accepted the commitment";

/// Reason given when the EVM verifier transaction was mined but failed.
pub const EVM_REJECTED_REASON: &'static str = "EVM verifier transaction was mined but not successful";

/// Mock verifier that validates proof structure locally.
#[derive(Debug, Default)]
pub struct MockOnChainVerifier {
    zk_verifier: MockZkVerifier,
}

impl MockOnChainVerifier {
    /// Validate the verifier input before an on-chain submission is attempted.
    pub fn validate(&self, input: &VerifierInput) -> (r: Result<(), VerifierError>)
        ensures
            r is Ok <==> spec_mock_validate(
                encode_utf8(input.storage.merkle_root@),
                input.proof_statement@,
                input.proof@,
            ),
            r matches Err(e) ==> is_mock_rejection(has_hex_prefix(encode_utf8(input.storage.merkle_root@)), e),
    {
        if !starts_with_0x(input.storage.merkle_root.as_str()) {
            return Err(VerifierError::InvalidStorageRoot);
        }
        match self.zk_verifier.verify(&input.proof_statement, &input.proof) {
            Ok(()) => Ok(()),
            Err(e) => Err(VerifierError::InvalidProof(e)),
        }
    }

    /// Submit a verifier payload and return the result receipt: a synthetic
    /// acceptance whose transaction hash is the `0x`-prefixed commitment.
    pub fn submit(&self, submission: &CommitmentSubmission) -> (r: Result<VerificationReceipt, VerifierError>)
        ensures
            r is Ok <==> spec_mock_validate(
                encode_utf8(submission.verifier_input.storage.merkle_root@),
                submission.verifier_input.proof_statement@,
                submission.verifier_input.proof@,
            ),
            r matches Err(e) ==> is_mock_rejection(
                has_hex_prefix(encode_utf8(submission.verifier_input.storage.merkle_root@)),
                e,
            ),
            r matches Ok(receipt) ==> {
                &&& receipt.accepted
                &&& receipt.verifier_tx_hash matches Some(h) && h@ == seq!['0', 'x'] + spec_hex_encode(
                    submission.verifier_input.proof_statement.state_commitment@,
                )
                &&& receipt.reason matches Some(m) && m@ == MOCK_ACCEPTED_REASON@
            },
    {
        match self.validate(&submission.verifier_input) {
            Ok(()) => {},
            Err(e) => return Err(e),
        }
        let commitment = submission.verifier_input.state_commitment();
        let synthetic_tx_hash = commitment.to_hex();
        Ok(VerificationReceipt {
            accepted: true,
            verifier_tx_hash: Some(synthetic_tx_hash),
            reason: Some(owned(MOCK_ACCEPTED_REASON)),
        })
    }
}

/// The checks the EVM verifier adapter makes before a submission: a nonzero
/// commitment, a nonzero 32-byte hex storage root, and a mock proof that
/// verifies.
pub open spec fn spec_evm_validate(commitment: Seq<u8>, root: Seq<u8>, statement: StatementView, proof: BundleView) -> bool {
    &&& !is_all_zero(commitment)
    &&& spec_parse_bytes32_hex(root) is Some
    &&& spec_mock_accepts(statement, proof)
}

/// Whether an error is the first failing check of `spec_evm_validate`.
pub open spec fn is_evm_rejection(commitment: Seq<u8>, root: Seq<u8>, e: VerifierError) -> bool {
    if is_all_zero(commitment) {
        e is InvalidCommitment
    } else if spec_parse_bytes32_hex(root) is None {
        e is InvalidStorageRoot
    } else {
        e matches VerifierError::InvalidProof(p) && p is InvalidMockProof
    }
}

/// Validate a verifier input the way the EVM verifier adapter does before it
/// sends a transaction.
pub fn validate_for_evm(input: &VerifierInput) -> (r: Result<(), VerifierError>)
    ensures
        r is Ok <==> spec_evm_validate(
            input.proof_statement.state_commitment@,
            encode_utf8(input.storage.merkle_root@),
            input.proof_statement@,
            input.proof@,
        ),
        r matches Err(e) ==> is_evm_rejection(
            input.proof_statement.state_commitment@,
            encode_utf8(input.storage.merkle_root@),
            e,
        ),
{
    if input.state_commitment().is_zero() {
        return Err(VerifierError::InvalidCommitment);
    }
    match parse_bytes32_hex(input.storage.merkle_root.as_str()) {
        Ok(_) => {},
        Err(e) => return Err(e),
    }
    let zk_verifier = MockZkVerifier;
    match zk_verifier.verify(&input.proof_statement, &input.proof) {
        Ok(()) => Ok(()),
        Err(e) => Err(VerifierError::InvalidProof(e)),
    }
}

/// The arguments of `submitCommitment(bytes32, bytes32, bytes)`.
pub struct EncodedSubmission {
    /// The state commitment.
    pub state_commitment: [u8; 32],
    /// The storage Merkle root.
    pub storage_merkle_root: [u8; 32],
    /// The proof bytes passed as proof context.
    pub proof_context: Vec<u8>,
}

/// Encode a submission as the arguments of the verifier contract call.
pub fn encode_submission(submission: &CommitmentSubmission) -> (r: Result<EncodedSubmission, VerifierError>)
    ensures
        r is Ok <==> !is_all_zero(submission.verifier_input.proof_statement.state_commitment@)
            && spec_parse_bytes32_hex(encode_utf8(submission.verifier_input.storage.merkle_root@)) is Some,
        r matches Ok(enc) ==> {
            &&& enc.state_commitment@ == submission.verifier_input.proof_statement.state_commitment@
            &&& Some(enc.storage_merkle_root@) == spec_parse_bytes32_hex(
                encode_utf8(submission.verifier_input.storage.merkle_root@),
            )
            &&& enc.proof_context@ == submission.verifier_input.proof@.proof_bytes
        },
        r matches Err(e) ==> if is_all_zero(submission.verifier_input.proof_statement.state_commitment@) {
            e is InvalidCommitment
        } else {
            e is InvalidStorageRoot
        },
{
    let input = &submission.verifier_input;
    let commitment = input.state_commitment();
    if commitment.is_zero() {
        return Err(VerifierError::InvalidCommitment);
    }
    let storage_merkle_root = match parse_bytes32_hex(input.storage.merkle_root.as_str()) {
        Ok(root) => root,
        Err(e) => return Err(e),
    };
    let proof_context = copy_bytes(input.proof.proof_bytes());
    Ok(EncodedSubmission { state_commitment: *commitment.as_bytes(), storage_merkle_root, proof_context })
}

/// The receipt for a mined verifier transaction: accepted when the
/// transaction status is 1, with the `0x`-prefixed transaction hash.
pub fn evm_receipt(status: Option<u64>, transaction_hash: &[u8; 32]) -> (receipt: VerificationReceipt)
    ensures
        receipt.accepted == (status == Some(1u64)),
        receipt.verifier_tx_hash matches Some(h) && h@ == seq!['0', 'x'] + spec_hex_encode(transaction_hash@),
        receipt.reason matches Some(m) && m@ == (if status == Some(1u64) {
            EVM_ACCEPTED_REASON@
        } else {
            EVM_REJECTED_REASON@
        }),
{
    let accepted = match status {
        Some(s) => s == 1,
        None => false,
    };
    VerificationReceipt {
        accepted,
        verifier_tx_hash: Some(encode_hex_prefixed(transaction_hash.as_slice())),
        reason: Some(if accepted {
            owned(EVM_ACCEPTED_REASON)
        } else {
            owned(EVM_REJECTED_REASON)
        }),
    }
}

/// The bytes of `0x` followed by the hex rendering of `data` are ASCII:
/// `0`, `x`, then one byte per hex digit.
pub proof fn lemma_prefixed_hex_bytes(data: Seq<u8>)
    ensures
        ({
            let bytes = encode_utf8(seq!['0', 'x'] + spec_hex_encode(data));
            &&& bytes.len() == 2 + spec_hex_encode(data).len()
            &&& bytes[0] == 48
            &&& bytes[1] == 120
            &&& forall|i: int| 0 <= i < spec_hex_encode(data).len() ==> bytes[2 + i] == (#[trigger] spec_hex_encode(data)[i]) as u8
        }),
{
    let chars = seq!['0', 'x'] + spec_hex_encode(data);
    crate::hex::lemma_hex_encode_ascii(data);
    assert(vstd::utf8::is_ascii_chars(chars)) by {
        assert forall|i: int| 0 <= i < chars.len() implies '\0' <= #[trigger] chars[i] <= '\u{7f}' by {
            if i >= 2 {
                assert(chars[i] == spec_hex_encode(data)[i - 2]);
            }
        }
    }
    vstd::utf8::is_ascii_chars_encode_utf8(chars);
    let bytes = encode_utf8(chars);
    assert forall|i: int| 0 <= i < spec_hex_encode(data).len() implies bytes[2 + i] == (#[trigger] spec_hex_encode(data)[i]) as u8 by {
        assert(chars[2 + i] == spec_hex_encode(data)[i]);
    }
}

/// A nonzero 32-byte value written as `0x`-prefixed hex (as commitments and
/// storage roots are) parses back to the same value.
pub proof fn lemma_hex_root_parses(root: Seq<u8>)
    requires
        root.len() == 32,
        !is_all_zero(root),
    ensures
        spec_parse_bytes32_hex(encode_utf8(seq!['0', 'x'] + spec_hex_encode(root))) == Some(root),
{
    lemma_prefixed_hex_bytes(root);
    let bytes = encode_utf8(seq!['0', 'x'] + spec_hex_encode(root));
    let digits = strip_hex_prefix(bytes);
    assert(digits == bytes.skip(2));
    assert forall|i: int| 0 <= i < digits.len() implies digits[i] == (#[trigger] spec_hex_encode(root)[i]) as u8 by {
        assert(digits[i] == bytes[2 + i]);
    }
    crate::hex::lemma_hex_roundtrip(root, digits);
}

/// Every statement proved by the mock prover, stored under a `0x`-hex root,
/// is accepted by the mock on-chain verifier.
pub proof fn lemma_mock_verifier_accepts_mock_proofs(
    statement: StatementView,
    witness: Seq<u8>,
    bundle: BundleView,
    root: Seq<u8>,
)
    requires
        MockZkProver.spec_produces(statement, witness, bundle),
    ensures
        spec_mock_validate(encode_utf8(seq!['0', 'x'] + spec_hex_encode(root)), statement, bundle),
{
    lemma_prefixed_hex_bytes(root);
}

/// Every statement proved by the mock prover with a nonzero commitment,
/// stored under a nonzero 32-byte `0x`-hex root, passes the checks the EVM
/// verifier adapter makes before it submits.
pub proof fn lemma_evm_checks_accept_mock_proofs(
    statement: StatementView,
    witness: Seq<u8>,
    bundle: BundleView,
    root: Seq<u8>,
)
    requires
        MockZkProver.spec_produces(statement, witness, bundle),
        !is_all_zero(statement.state_commitment),
        root.len() == 32,
        !is_all_zero(root),
    ensures
        spec_evm_validate(
            statement.state_commitment,
            encode_utf8(seq!['0', 'x'] + spec_hex_encode(root)),
            statement,
            bundle,
        ),
{
    lemma_hex_root_parses(root);
}

} // verus!
