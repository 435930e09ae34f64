//! Parsing of the EVM verifier's configuration: the signer's private key
//! (hex, as `LocalWallet` reads it) and the contract address (as `Address`
//! reads it).

use vstd::prelude::*;
use vstd::string::StringSliceAdditionalSpecFns;
use crate::commitment::to_array32;
use crate::fixed_hex::{parse_fixed_hex, spec_fixed_hex_message, spec_fixed_hex_parse};
use crate::hex::{decode_hex, digit_value, hex_value, spec_hex_decode};
use crate::onchain::VerifierError;
use crate::text::{append_decimal, owned, push_str, spec_decimal};

verus! {

/// The big-endian value of a byte string.
pub open spec fn be_value(s: Seq<u8>) -> nat
    decreases s.len(),
{
    if s.len() == 0 {
        0
    } else {
        be_value(s.drop_last()) * 256 + s.last() as nat
    }
}

/// The order of the secp256k1 group.
pub open spec fn secp256k1_order() -> nat {
    0xFFFFFFFFFFFFFFFFFFFFFFFFFFFFFFFEBAAEDCE6AF48A03BBFD25E8CD0364141nat
}

/// Whether 32 bytes are a valid secp256k1 secret scalar: big-endian, nonzero
/// and below the group order.
pub open spec fn is_secp256k1_scalar(key: Seq<u8>) -> bool {
    0 < be_value(key) < secp256k1_order()
}

/// The text that `format!("{:?}", c)` gives for a character: std's `Debug`
/// rendering, quoted and escaped.
pub uninterp spec fn char_debug_text(c: char) -> Seq<char>;

/// `<char as Debug>::fmt`, through `format!`.
///
/// Trusted: the text is a function of the character alone. What it is
/// (quoting and escaping) is not stated.
#[verifier::external_body]
fn char_debug(c: char) -> (s: String)
    ensures
        s@ == char_debug_text(c),
{
    format!("{:?}", c)
}

/// `k256::ecdsa::SigningKey::from_bytes` (reached as `ethers::core::k256`).
///
/// Trusted: following `SecretKey::from_bytes`, it accepts exactly the
/// big-endian scalars that are nonzero and below the secp256k1 order, and
/// otherwise fails with `ecdsa::Error::new()`, whose text is
/// `signature error`. The key it builds is dropped: only the answer is kept.
#[verifier::external_body]
fn secp256k1_signing_key_check(key: &[u8; 32]) -> (r: Result<(), String>)
    ensures
        r is Ok <==> is_secp256k1_scalar(key@),
        r matches Err(m) ==> m@ == "signature error"@,
{
    let bytes = ethers::core::k256::FieldBytes::from_slice(key.as_slice());
    match ethers::core::k256::ecdsa::SigningKey::from_bytes(bytes) {
        Ok(_) => Ok(()),
        Err(e) => Err(e.to_string()),
    }
}

/// The position of the first byte at or after `i` that is not a hex digit,
/// or the length when there is none.
pub open spec fn first_non_hex(b: Seq<u8>, i: int) -> int
    decreases b.len() - i,
{
    if i < 0 || i >= b.len() {
        b.len() as int
    } else if hex_value(b[i]) is None {
        i
    } else {
        first_non_hex(b, i + 1)
    }
}

proof fn lemma_first_non_hex(b: Seq<u8>, i: int)
    requires
        0 <= i <= b.len(),
    ensures
        i <= first_non_hex(b, i) <= b.len(),
        first_non_hex(b, i) < b.len() ==> hex_value(b[first_non_hex(b, i)]) is None,
        forall|j: int| i <= j < first_non_hex(b, i) ==> (#[trigger] hex_value(b[j])) is Some,
    decreases b.len() - i,
{
    if i < b.len() && hex_value(b[i]) is Some {
        lemma_first_non_hex(b, i + 1);
    }
}

/// `b` without one leading `0X`.
pub open spec fn strip_upper_0x(b: Seq<u8>) -> Seq<u8> {
    // 48 is '0' and 88 is 'X'.
    if b.len() >= 2 && b[0] == 48 && b[1] == 88 {
        b.skip(2)
    } else {
        b
    }
}

/// `b` without one leading `0x` or `0X`.
pub open spec fn strip_any_0x(b: Seq<u8>) -> Seq<u8> {
    // 120 is 'x'.
    if b.len() >= 2 && b[0] == 48 && (b[1] == 120 || b[1] == 88) {
        b.skip(2)
    } else {
        b
    }
}

/// The 32 key bytes that a private-key text spells, or the message of the
/// hex error: a leading `0X` is dropped, the rest must have an even length,
/// lose one more `0x` or `0X`, be hex digits only and decode to 32 bytes.
pub open spec fn spec_private_key_hex(text: Seq<u8>) -> Result<Seq<u8>, Seq<char>> {
    let a = strip_upper_0x(text);
    if a.len() % 2 != 0 {
        Err("odd number of digits"@)
    } else {
        let b = strip_any_0x(a);
        let j = first_non_hex(b, 0);
        if j < b.len() {
            Err("invalid character "@ + char_debug_text(b[j] as char) + " at position "@ + spec_decimal(j as nat))
        } else if b.len() != 64 {
            Err("invalid string length"@)
        } else {
            Ok(spec_hex_decode(b)->0)
        }
    }
}

fn strip_prefix_bytes(b: &[u8], upper_only: bool) -> (r: &[u8])
    ensures
        r@ == if upper_only { strip_upper_0x(b@) } else { strip_any_0x(b@) },
{
    if b.len() >= 2 && b[0] == 48 && (b[1] == 88 || (!upper_only && b[1] == 120)) {
        let (_, rest) = b.split_at(2);
        rest
    } else {
        b
    }
}

/// Parses the signer's private key as `LocalWallet::from_str` does: hex
/// digits for 32 bytes that form a valid secp256k1 secret scalar; any other
/// text is `InvalidPrivateKey` with the wallet's message.
pub fn parse_private_key(text: &str) -> (r: Result<[u8; 32], VerifierError>)
    ensures
        match spec_private_key_hex(text.spec_bytes()) {
            Err(m) => r matches Err(VerifierError::InvalidPrivateKey(x)) && x@ == m,
            Ok(k) => if is_secp256k1_scalar(k) {
                r matches Ok(a) && a@ == k
            } else {
                r matches Err(VerifierError::InvalidPrivateKey(x)) && x@ == "signature error"@
            },
        },
{
    let a = strip_prefix_bytes(text.as_bytes(), true);
    if a.len() % 2 != 0 {
        return Err(VerifierError::InvalidPrivateKey(owned("odd number of digits")));
    }
    let b = strip_prefix_bytes(a, false);
    let n = b.len();
    let mut j: usize = 0;
    while j < n && digit_value(b[j]).is_some()
        invariant
            n == b@.len(),
            j <= n,
            first_non_hex(b@, 0) == first_non_hex(b@, j as int),
        decreases n - j,
    {
        j = j + 1;
    }
    proof {
        lemma_first_non_hex(b@, 0);
    }
    if j < n {
        let mut m = owned("invalid character ");
        let shown = char_debug(b[j] as char);
        push_str(&mut m, shown.as_str());
        push_str(&mut m, " at position ");
        append_decimal(&mut m, j);
        return Err(VerifierError::InvalidPrivateKey(m));
    }
    if n != 64 {
        return Err(VerifierError::InvalidPrivateKey(owned("invalid string length")));
    }
    assert(spec_hex_decode(b@) is Some);
    let decoded = match decode_hex(b) {
        Some(d) => d,
        // Not reached: every byte was checked to be a hex digit above.
        None => return Err(VerifierError::InvalidPrivateKey(owned("invalid string length"))),
    };
    let key = to_array32(decoded.as_slice());
    match secp256k1_signing_key_check(&key) {
        Ok(()) => Ok(key),
        Err(m) => Err(VerifierError::InvalidPrivateKey(m)),
    }
}

fn to_array20(v: &[u8]) -> (a: [u8; 20])
    requires
        v@.len() == 20,
    ensures
        a@ == v@,
{
    let mut a = [0u8; 20];
    let mut i: usize = 0;
    while i < 20
        invariant
            v@.len() == 20,
            i <= 20,
            forall|j: int| 0 <= j < i ==> a@[j] == v@[j],
        decreases 20 - i,
    {
        a[i] = v[i];
        i = i + 1;
    }
    assert(a@ =~= v@);
    a
}

/// Parses the verifier contract address as `Address::from_str` does: an
/// optional `0x` and 40 hex digits, separators ignored; any other text is
/// `InvalidContractAddress` with the parse message.
pub fn parse_contract_address(text: &str) -> (r: Result<[u8; 20], VerifierError>)
    ensures
        match spec_fixed_hex_parse(text@, 40) {
            Ok(b) => r matches Ok(a) && a@ == b,
            Err(e) => r matches Err(VerifierError::InvalidContractAddress(m)) && m@ == spec_fixed_hex_message(e),
        },
{
    match parse_fixed_hex(text, 40) {
        Ok(v) => Ok(to_array20(v.as_slice())),
        Err(e) => Err(VerifierError::InvalidContractAddress(e.message())),
    }
}

} // verus!
