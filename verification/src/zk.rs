//! Proof-system interfaces and the deterministic mock prover and verifier.

use vstd::prelude::*;
use vstd::string::StringSliceAdditionalSpecFns;
use bytes::Bytes;
use zeroize::Zeroizing;
use crate::bytes_ext::{bytes_as_slice, bytes_contents, bytes_equal, bytes_from_vec};
use crate::commitment::{length_prefixed, append_length_prefixed, lemma_length_prefixed_split, StateCommitment};
use crate::hash::{shake256, shake256_output};
use crate::json::{spec_statement_json, statement_json};
use crate::text::{clone_strings, owned, string_is, strings_equal, strings_view};

verus! {

/// Domain separator of the mock proof transcript.
pub const MOCK_PROOF_DOMAIN: &'static str = "pqsp:v1:mock-proof";

/// Number of bytes in a mock proof.
pub const MOCK_PROOF_BYTES: usize = 64;

/// Name of the mock proving system.
pub const MOCK_SYSTEM_NAME: &'static str = "mock-zk";

/// Version of the mock proving system.
pub const MOCK_SYSTEM_VERSION: &'static str = "0.1.0";

/// The abstract content of a proof statement.
pub struct StatementView {
    pub state_commitment: Seq<u8>,
    pub context: Seq<u8>,
    pub public_inputs: Seq<Seq<char>>,
}

/// Public statement supplied to a proving system.
#[derive(Clone, Debug)]
pub struct ProofStatement {
    /// State commitment being proven about.
    pub state_commitment: StateCommitment,
    /// Domain or tenant-specific context bound into the proof transcript.
    pub context: Vec<u8>,
    /// Public inputs as human-readable key/value style strings for prototyping.
    pub public_inputs: Vec<String>,
}

impl View for ProofStatement {
    type V = StatementView;

    open spec fn view(&self) -> StatementView {
        StatementView {
            state_commitment: self.state_commitment@,
            context: self.context@,
            public_inputs: strings_view(self.public_inputs@),
        }
    }
}

impl ProofStatement {
    /// A second statement with the same content.
    pub fn duplicate(&self) -> (s: Self)
        ensures
            s@ == self@,
    {
        ProofStatement {
            state_commitment: self.state_commitment,
            context: crate::bytes_ext::copy_bytes(self.context.as_slice()),
            public_inputs: clone_strings(&self.public_inputs),
        }
    }
}

/// Private witness bytes held in `zeroize::Zeroizing`, which wipes them when
/// dropped.
///
/// Verus cannot declare `Zeroizing` itself (its parameter is bound by the
/// outside trait `Zeroize`), so the buffer sits in this opaque holder.
#[verifier::external_body]
pub struct WitnessBytes {
    inner: Zeroizing<Vec<u8>>,
}

/// The bytes that a witness buffer holds.
pub uninterp spec fn witness_contents(w: WitnessBytes) -> Seq<u8>;

/// `Zeroizing::new(bytes)`: the buffer holds the given bytes.
#[verifier::external_body]
fn zeroizing_new(bytes: Vec<u8>) -> (w: WitnessBytes)
    ensures
        witness_contents(w) == bytes@,
{
    WitnessBytes { inner: Zeroizing::new(bytes) }
}

/// `Vec::len` through `Zeroizing`'s `Deref`: the number of bytes held.
#[verifier::external_body]
fn zeroizing_len(w: &WitnessBytes) -> (n: usize)
    ensures
        n == witness_contents(*w).len(),
{
    w.inner.len()
}

/// Private proving witness, zeroized on drop.
pub struct ProofWitness {
    private_input: WitnessBytes,
}

impl View for ProofWitness {
    type V = Seq<u8>;

    closed spec fn view(&self) -> Seq<u8> {
        witness_contents(self.private_input)
    }
}

impl ProofWitness {
    /// Construct a new private witness from raw bytes.
    pub fn new(private_input: Vec<u8>) -> (w: Self)
        ensures
            w@ == private_input@,
    {
        ProofWitness { private_input: zeroizing_new(private_input) }
    }

    /// Return the witness length in bytes.
    pub fn len(&self) -> (n: usize)
        ensures
            n == self@.len(),
    {
        zeroizing_len(&self.private_input)
    }

    /// Check whether the witness is empty.
    pub fn is_empty(&self) -> (b: bool)
        ensures
            b == (self@.len() == 0),
    {
        self.len() == 0
    }
}

/// Descriptor of the proving backend used to create a proof bundle.
#[derive(Clone, Debug)]
pub struct ProofSystemDescriptor {
    /// Human-readable proving backend name.
    pub name: String,
    /// Version string for the proving backend or protocol.
    pub version: String,
}

impl ProofSystemDescriptor {
    /// Descriptor used by the deterministic mock proving backend.
    pub fn mock() -> (d: Self)
        ensures
            d.name@ == MOCK_SYSTEM_NAME@,
            d.version@ == MOCK_SYSTEM_VERSION@,
    {
        ProofSystemDescriptor { name: owned(MOCK_SYSTEM_NAME), version: owned(MOCK_SYSTEM_VERSION) }
    }

    /// A second descriptor with the same content.
    pub fn duplicate(&self) -> (d: Self)
        ensures
            d.name@ == self.name@,
            d.version@ == self.version@,
    {
        ProofSystemDescriptor { name: self.name.clone(), version: self.version.clone() }
    }
}

/// The abstract content of a proof bundle.
pub struct BundleView {
    pub system_name: Seq<char>,
    pub system_version: Seq<char>,
    pub proof_bytes: Seq<u8>,
    pub public_inputs: Seq<Seq<char>>,
}

/// Serialized proof output plus metadata.
#[derive(Clone, Debug)]
pub struct ProofBundle {
    /// Proving system information for the verifier boundary.
    pub system: ProofSystemDescriptor,
    /// Encoded proof bytes.
    pub proof_bytes: Bytes,
    /// Public inputs duplicated here to ease transport into verifier clients.
    pub public_inputs: Vec<String>,
}

impl View for ProofBundle {
    type V = BundleView;

    open spec fn view(&self) -> BundleView {
        BundleView {
            system_name: self.system.name@,
            system_version: self.system.version@,
            proof_bytes: bytes_contents(self.proof_bytes),
            public_inputs: strings_view(self.public_inputs@),
        }
    }
}

impl ProofBundle {
    /// A second bundle with the same content.
    pub fn duplicate(&self) -> (b: Self)
        ensures
            b@ == self@,
    {
        ProofBundle {
            system: self.system.duplicate(),
            proof_bytes: self.proof_bytes.clone(),
            public_inputs: clone_strings(&self.public_inputs),
        }
    }

    /// The proof bytes.
    pub fn proof_bytes(&self) -> (b: &[u8])
        ensures
            b@ == self@.proof_bytes,
    {
        bytes_as_slice(&self.proof_bytes)
    }
}

/// Errors produced by the proving scaffold.
#[derive(Debug)]
pub enum ProofSystemError {
    /// Canonical statement serialization failed.
    StatementEncoding(serde_json::Error),
    /// The proof bundle failed deterministic mock verification.
    InvalidMockProof,
}

/// Abstract proof generation interface.
pub trait ZkProver: Send + Sync {
    /// Whether this prover may answer `statement`, proved with the private
    /// `witness` bytes, with `bundle`.
    spec fn spec_produces(&self, statement: StatementView, witness: Seq<u8>, bundle: BundleView) -> bool;

    /// Generate a proof for a public statement and private witness.
    fn prove(&self, statement: &ProofStatement, witness: &ProofWitness) -> (r: Result<ProofBundle, ProofSystemError>)
        ensures
            r matches Ok(b) ==> self.spec_produces(statement@, witness@, b@),
    ;
}

/// Abstract proof verification interface.
pub trait ZkVerifier: Send + Sync {
    /// Whether this verifier accepts `bundle` as a proof of `statement`.
    spec fn spec_accepts(&self, statement: StatementView, bundle: BundleView) -> bool;

    /// Verify a proof bundle against the supplied public statement.
    fn verify(&self, statement: &ProofStatement, proof: &ProofBundle) -> (r: Result<(), ProofSystemError>)
        ensures
            r is Ok <==> self.spec_accepts(statement@, proof@),
    ;
}

/// The transcript hashed into a mock proof: the mock domain and the
/// canonical statement JSON, each length-prefixed.
pub open spec fn mock_transcript_of(canonical_statement: Seq<u8>) -> Seq<u8> {
    length_prefixed(MOCK_PROOF_DOMAIN.spec_bytes()) + length_prefixed(canonical_statement)
}

/// The mock-proof transcript of a statement.
pub open spec fn mock_proof_transcript(s: StatementView) -> Seq<u8> {
    mock_transcript_of(spec_statement_json(s.state_commitment, s.context, s.public_inputs))
}

/// The mock transcript frames the whole canonical statement: two statement
/// encodings with the same transcript are the same.
pub proof fn lemma_mock_transcript_unambiguous(a: Seq<u8>, b: Seq<u8>)
    requires
        a.len() <= u64::MAX,
        b.len() <= u64::MAX,
        mock_transcript_of(a) == mock_transcript_of(b),
    ensures
        a == b,
{
    let p = length_prefixed(MOCK_PROOF_DOMAIN.spec_bytes());
    assert((p + length_prefixed(a)).skip(p.len() as int) =~= length_prefixed(a));
    assert((p + length_prefixed(b)).skip(p.len() as int) =~= length_prefixed(b));
    assert(length_prefixed(a) + Seq::<u8>::empty() =~= length_prefixed(a));
    assert(length_prefixed(b) + Seq::<u8>::empty() =~= length_prefixed(b));
    lemma_length_prefixed_split(a, Seq::empty(), b, Seq::empty());
}

/// Builds the mock-proof transcript around a canonical statement encoding.
pub fn build_mock_transcript(canonical_statement: &[u8]) -> (t: Vec<u8>)
    ensures
        t@ == mock_transcript_of(canonical_statement@),
        t@.len() >= canonical_statement@.len(),
        t@.skip(t@.len() - canonical_statement@.len()) == canonical_statement@,
{
    let mut transcript: Vec<u8> = Vec::new();
    append_length_prefixed(&mut transcript, MOCK_PROOF_DOMAIN.as_bytes());
    append_length_prefixed(&mut transcript, canonical_statement);
    assert(transcript@ =~= mock_transcript_of(canonical_statement@));
    assert(transcript@.skip(transcript@.len() - canonical_statement@.len()) =~= canonical_statement@);
    transcript
}

/// The mock proof of a statement: 64 bytes of SHAKE256 over its transcript.
pub open spec fn spec_mock_proof_bytes(s: StatementView) -> Seq<u8> {
    shake256_output(mock_proof_transcript(s), MOCK_PROOF_BYTES as nat)
}

/// Computes the mock proof bytes of a statement.
pub fn mock_proof_bytes(statement: &ProofStatement) -> (r: Result<Vec<u8>, ProofSystemError>)
    ensures
        r is Ok,
        r matches Ok(v) ==> v@ == spec_mock_proof_bytes(statement@) && v@.len() == MOCK_PROOF_BYTES,
{
    let canonical_statement = match statement_json(
        statement.state_commitment.as_bytes().as_slice(),
        statement.context.as_slice(),
        &statement.public_inputs,
    ) {
        Ok(v) => v,
        Err(e) => return Err(ProofSystemError::StatementEncoding(e)),
    };
    let transcript = build_mock_transcript(canonical_statement.as_slice());
    Ok(shake256(transcript.as_slice(), MOCK_PROOF_BYTES))
}

/// The bundle the mock prover gives for a statement.
pub open spec fn spec_mock_bundle(s: StatementView) -> BundleView {
    BundleView {
        system_name: MOCK_SYSTEM_NAME@,
        system_version: MOCK_SYSTEM_VERSION@,
        proof_bytes: spec_mock_proof_bytes(s),
        public_inputs: s.public_inputs,
    }
}

/// Whether the mock verifier accepts a bundle for a statement: the system is
/// named `mock-zk`, the proof bytes are the statement's mock proof and the
/// public inputs are the statement's.
pub open spec fn spec_mock_accepts(s: StatementView, b: BundleView) -> bool {
    &&& b.system_name == MOCK_SYSTEM_NAME@
    &&& b.proof_bytes == spec_mock_proof_bytes(s)
    &&& b.public_inputs == s.public_inputs
}

/// Deterministic development prover. Not a real zero-knowledge system.
#[derive(Debug, Default)]
pub struct MockZkProver;

impl ZkProver for MockZkProver {
    /// The mock bundle depends on the statement alone: the witness is not read.
    open spec fn spec_produces(&self, statement: StatementView, witness: Seq<u8>, bundle: BundleView) -> bool {
        bundle == spec_mock_bundle(statement)
    }

    fn prove(&self, statement: &ProofStatement, _witness: &ProofWitness) -> (r: Result<ProofBundle, ProofSystemError>)
        ensures
            r is Ok,
            r matches Ok(b) ==> b@.proof_bytes.len() == MOCK_PROOF_BYTES,
    {
        let proof_bytes = match mock_proof_bytes(statement) {
            Ok(v) => v,
            Err(e) => return Err(e),
        };
        let bundle = ProofBundle {
            system: ProofSystemDescriptor::mock(),
            proof_bytes: bytes_from_vec(proof_bytes),
            public_inputs: clone_strings(&statement.public_inputs),
        };
        assert(bundle@ == spec_mock_bundle(statement@));
        Ok(bundle)
    }
}

/// Deterministic development verifier corresponding to [`MockZkProver`].
#[derive(Debug, Default)]
pub struct MockZkVerifier;

impl ZkVerifier for MockZkVerifier {
    open spec fn spec_accepts(&self, statement: StatementView, bundle: BundleView) -> bool {
        spec_mock_accepts(statement, bundle)
    }

    fn verify(&self, statement: &ProofStatement, proof: &ProofBundle) -> (r: Result<(), ProofSystemError>)
        ensures
            r matches Err(e) ==> e is InvalidMockProof,
    {
        let expected = match mock_proof_bytes(statement) {
            Ok(v) => v,
            Err(e) => return Err(e),
        };
        if !string_is(&proof.system.name, MOCK_SYSTEM_NAME) || !bytes_equal(proof.proof_bytes(), expected.as_slice())
            || !strings_equal(&proof.public_inputs, &statement.public_inputs) {
            return Err(ProofSystemError::InvalidMockProof);
        }
        Ok(())
    }
}

/// Every bundle the mock prover produces is accepted by the mock verifier for
/// the same statement.
pub proof fn lemma_mock_proof_verifies(statement: StatementView, witness: Seq<u8>, bundle: BundleView)
    requires
        MockZkProver.spec_produces(statement, witness, bundle),
    ensures
        MockZkVerifier.spec_accepts(statement, bundle),
{
}

/// The mock verifier accepts exactly one proof per statement and public
/// inputs: two accepted bundles for one statement carry the same proof bytes
/// and public inputs.
pub proof fn lemma_mock_proof_unique(statement: StatementView, b1: BundleView, b2: BundleView)
    requires
        MockZkVerifier.spec_accepts(statement, b1),
        MockZkVerifier.spec_accepts(statement, b2),
    ensures
        b1.proof_bytes == b2.proof_bytes,
        b1.public_inputs == b2.public_inputs,
        b1.system_name == b2.system_name,
{
}

} // verus!
