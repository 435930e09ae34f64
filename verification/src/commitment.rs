//! Hash-based state commitments: SHAKE256 over a length-prefixed transcript.

use vstd::prelude::*;
use vstd::string::StringSliceAdditionalSpecFns;
use vstd::bytes::{spec_u64_to_le_bytes, spec_u64_from_le_bytes, u64_to_le_bytes};
use crate::bytes_ext::{append_bytes, bytes_equal, copy_bytes};
use crate::hash::{shake256, shake256_output};
use crate::hex::{encode_hex_prefixed, spec_hex_encode};

verus! {

/// Domain separator used for protocol state commitments.
pub const DEFAULT_COMMITMENT_DOMAIN: &'static str = "pqsp:v1:state-commitment";

/// Number of bytes in a state commitment.
pub const COMMITMENT_BYTES: usize = 32;

/// Fixed-size state commitment derived from a post-quantum-resistant hash.
#[derive(Clone, Copy, Debug, Hash)]
pub struct StateCommitment([u8; 32]);

impl View for StateCommitment {
    type V = Seq<u8>;

    closed spec fn view(&self) -> Seq<u8> {
        self.0@
    }
}

impl StateCommitment {
    /// Create a new commitment from raw bytes.
    pub fn new(bytes: [u8; 32]) -> (c: Self)
        ensures
            c@ == bytes@,
    {
        StateCommitment(bytes)
    }

    /// Borrow the inner commitment bytes.
    pub fn as_bytes(&self) -> (b: &[u8; 32])
        ensures
            b@ == self@,
    {
        &self.0
    }

    /// Render the commitment as a hexadecimal string with `0x` prefix.
    pub fn to_hex(&self) -> (s: String)
        ensures
            s@ == seq!['0', 'x'] + spec_hex_encode(self@),
    {
        encode_hex_prefixed(self.0.as_slice())
    }

    /// Whether every byte of the commitment is zero.
    pub fn is_zero(&self) -> (r: bool)
        ensures
            r == (forall|j: int| 0 <= j < self@.len() ==> self@[j] == 0),
    {
        let bytes = self.0.as_slice();
        let r = crate::bytes_ext::all_zero(bytes);
        assert(bytes@ == self@);
        r
    }
}

impl PartialEq for StateCommitment {
    fn eq(&self, other: &Self) -> (r: bool) {
        bytes_equal(self.0.as_slice(), other.0.as_slice())
    }
}

impl vstd::std_specs::cmp::PartialEqSpecImpl for StateCommitment {
    open spec fn obeys_eq_spec() -> bool {
        true
    }

    open spec fn eq_spec(&self, other: &Self) -> bool {
        self@ == other@
    }
}

impl Eq for StateCommitment {}

/// Every commitment has exactly `COMMITMENT_BYTES` bytes.
pub proof fn lemma_commitment_len(c: StateCommitment)
    ensures
        c@.len() == COMMITMENT_BYTES,
{
}

/// A field preceded by its length as a little-endian `u64`.
pub open spec fn length_prefixed(field: Seq<u8>) -> Seq<u8> {
    spec_u64_to_le_bytes(field.len() as u64) + field
}

/// The transcript hashed into a commitment: domain, context and message, each
/// length-prefixed, in that order.
pub open spec fn commitment_transcript(domain: Seq<u8>, context: Seq<u8>, message: Seq<u8>) -> Seq<u8> {
    length_prefixed(domain) + length_prefixed(context) + length_prefixed(message)
}

/// The commitment of a message under a context and a domain separator.
pub open spec fn shake256_commitment(domain: Seq<u8>, context: Seq<u8>, message: Seq<u8>) -> Seq<u8> {
    shake256_output(commitment_transcript(domain, context, message), COMMITMENT_BYTES as nat)
}

/// Appends `len(data) as u64 (little-endian) || data`.
pub fn append_length_prefixed(out: &mut Vec<u8>, data: &[u8])
    ensures
        final(out)@ == old(out)@ + length_prefixed(data@),
{
    let prefix = u64_to_le_bytes(data.len() as u64);
    append_bytes(out, prefix.as_slice());
    append_bytes(out, data);
    assert(out@ =~= old(out)@ + length_prefixed(data@));
}

/// Builds the commitment transcript for a domain, context and message.
pub fn build_commitment_transcript(domain: &[u8], context: &[u8], message: &[u8]) -> (t: Vec<u8>)
    ensures
        t@ == commitment_transcript(domain@, context@, message@),
{
    let mut t: Vec<u8> = Vec::new();
    append_length_prefixed(&mut t, domain);
    append_length_prefixed(&mut t, context);
    append_length_prefixed(&mut t, message);
    assert(t@ =~= commitment_transcript(domain@, context@, message@));
    t
}

/// Copies exactly 32 bytes into an array.
pub fn to_array32(v: &[u8]) -> (a: [u8; 32])
    requires
        v@.len() == 32,
    ensures
        a@ == v@,
{
    let mut a = [0u8; 32];
    let mut i: usize = 0;
    while i < 32
        invariant
            v@.len() == 32,
            i <= 32,
            forall|j: int| 0 <= j < i ==> a@[j] == v@[j],
        decreases 32 - i,
    {
        a[i] = v[i];
        i = i + 1;
    }
    assert(a@ =~= v@);
    a
}

/// Abstraction over state-commitment primitives.
pub trait StateCommitter: Send + Sync {
    /// The commitment that `commit` derives for a message under a context.
    spec fn spec_commitment(&self, message: Seq<u8>, context: Seq<u8>) -> Seq<u8>;

    /// Commit to a message under a caller-specified context.
    fn commit(&self, message: &[u8], context: &[u8]) -> (c: StateCommitment)
        ensures
            c@ == self.spec_commitment(message@, context@),
    ;
}

/// SHAKE256-based state committer with explicit domain separation.
#[derive(Clone, Debug)]
pub struct Shake256Committer {
    domain_separator: Vec<u8>,
}

impl View for Shake256Committer {
    type V = Seq<u8>;

    /// The domain separator.
    closed spec fn view(&self) -> Seq<u8> {
        self.domain_separator@
    }
}

impl Shake256Committer {
    /// Create a committer with a custom domain separator.
    pub fn new(domain_separator: Vec<u8>) -> (c: Self)
        ensures
            c@ == domain_separator@,
    {
        Shake256Committer { domain_separator }
    }

    /// The domain separator bytes.
    pub fn domain_separator(&self) -> (d: &[u8])
        ensures
            d@ == self@,
    {
        self.domain_separator.as_slice()
    }
}

impl Default for Shake256Committer {
    fn default() -> (c: Self)
        ensures
            c@ == DEFAULT_COMMITMENT_DOMAIN.spec_bytes(),
    {
        Self::new(copy_bytes(DEFAULT_COMMITMENT_DOMAIN.as_bytes()))
    }
}

impl StateCommitter for Shake256Committer {
    open spec fn spec_commitment(&self, message: Seq<u8>, context: Seq<u8>) -> Seq<u8> {
        shake256_commitment(self@, context, message)
    }

    fn commit(&self, message: &[u8], context: &[u8]) -> (c: StateCommitment) {
        let transcript = build_commitment_transcript(self.domain_separator.as_slice(), context, message);
        let digest = shake256(transcript.as_slice(), COMMITMENT_BYTES);
        StateCommitment::new(to_array32(digest.as_slice()))
    }
}

pub(crate) proof fn lemma_length_prefixed_split(a: Seq<u8>, ra: Seq<u8>, b: Seq<u8>, rb: Seq<u8>)
    requires
        a.len() <= u64::MAX,
        b.len() <= u64::MAX,
        length_prefixed(a) + ra == length_prefixed(b) + rb,
    ensures
        a == b,
        ra == rb,
{
    vstd::bytes::lemma_auto_spec_u64_to_from_le_bytes();
    let la = spec_u64_to_le_bytes(a.len() as u64);
    let lb = spec_u64_to_le_bytes(b.len() as u64);
    let sa = length_prefixed(a) + ra;
    let sb = length_prefixed(b) + rb;
    assert(la =~= sa.take(8));
    assert(lb =~= sb.take(8));
    assert(spec_u64_from_le_bytes(la) == a.len() as u64);
    assert(spec_u64_from_le_bytes(lb) == b.len() as u64);
    assert(a.len() == b.len());
    assert(a =~= sa.subrange(8, 8 + a.len() as int));
    assert(b =~= sb.subrange(8, 8 + b.len() as int));
    assert(ra =~= sa.skip(8 + a.len() as int));
    assert(rb =~= sb.skip(8 + b.len() as int));
}

/// The commitment transcript is unambiguous: two transcripts are equal only
/// when domain, context and message are each equal.
pub proof fn lemma_transcript_unambiguous(
    d1: Seq<u8>,
    c1: Seq<u8>,
    m1: Seq<u8>,
    d2: Seq<u8>,
    c2: Seq<u8>,
    m2: Seq<u8>,
)
    requires
        d1.len() <= u64::MAX,
        c1.len() <= u64::MAX,
        m1.len() <= u64::MAX,
        d2.len() <= u64::MAX,
        c2.len() <= u64::MAX,
        m2.len() <= u64::MAX,
        commitment_transcript(d1, c1, m1) == commitment_transcript(d2, c2, m2),
    ensures
        d1 == d2,
        c1 == c2,
        m1 == m2,
{
    let r1 = length_prefixed(c1) + length_prefixed(m1);
    let r2 = length_prefixed(c2) + length_prefixed(m2);
    assert(commitment_transcript(d1, c1, m1) =~= length_prefixed(d1) + r1);
    assert(commitment_transcript(d2, c2, m2) =~= length_prefixed(d2) + r2);
    lemma_length_prefixed_split(d1, r1, d2, r2);
    lemma_length_prefixed_split(c1, length_prefixed(m1), c2, length_prefixed(m2));
    assert(length_prefixed(m1) + Seq::<u8>::empty() =~= length_prefixed(m1));
    assert(length_prefixed(m2) + Seq::<u8>::empty() =~= length_prefixed(m2));
    lemma_length_prefixed_split(m1, Seq::empty(), m2, Seq::empty());
}

} // verus!
