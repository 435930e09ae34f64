//! SHAKE256 extendable-output hashing through the `sha3` crate.

use vstd::prelude::*;
use sha3::digest::{ExtendableOutput, Update, XofReader};

verus! {

/// The first `out_len` bytes of SHAKE256 (FIPS 202) over `input`.
pub uninterp spec fn shake256_output(input: Seq<u8>, out_len: nat) -> Seq<u8>;

/// Absorbs `input` into a fresh `sha3::Shake256`, finalizes it as an XOF and
/// reads `out_len` bytes.
///
/// Trusted: the bytes read are SHAKE256 of the input, a function of the input
/// and the requested length alone, and exactly `out_len` of them are returned
/// (`XofReader::read` fills the whole buffer).
#[verifier::external_body]
pub(crate) fn shake256(input: &[u8], out_len: usize) -> (out: Vec<u8>)
    ensures
        out@ == shake256_output(input@, out_len as nat),
        out@.len() == out_len,
{
    let mut hasher = sha3::Shake256::default();
    hasher.update(input);
    let mut reader = hasher.finalize_xof();
    let mut out = vec![0u8; out_len];
    reader.read(&mut out);
    out
}

} // verus!
