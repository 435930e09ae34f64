//! Authenticated encryption of storage payloads and the versioned envelope
//! `version || nonce || ciphertext`.

use vstd::prelude::*;
use vstd::string::StringSliceAdditionalSpecFns;
use bytes::Bytes;
use chacha20poly1305::aead::{Aead, AeadCore, Payload};
use chacha20poly1305::{KeyInit, XChaCha20Poly1305};
use rand_core::{OsRng, RngCore};
use secrecy::{ExposeSecret, SecretBox};
use crate::bytes_ext::{append_bytes, bytes_as_slice, bytes_contents, bytes_from_vec};
use crate::hex::{decode_hex, encode_hex, spec_hex_decode, spec_hex_encode, lemma_hex_roundtrip};

verus! {

/// Version byte encoded into the upload envelope.
pub const PAYLOAD_ENVELOPE_VERSION: u8 = 1;

/// Length of an encryption key in bytes.
pub const KEY_BYTES: usize = 32;

/// Length of an envelope nonce in bytes.
pub const NONCE_BYTES: usize = 24;

/// Length of the authentication tag appended to every ciphertext.
pub const TAG_BYTES: usize = 16;

/// Longest plaintext the cipher processes: ChaCha20's 32-bit block counter
/// starts at block 1, which leaves `u32::MAX - 1` blocks of 64 bytes.
pub const MAX_PLAINTEXT_BYTES: u64 = 274877906816;

// ---------------------------------------------------------------------------
// Outside types and calls.

/// Key bytes held in a `secrecy::SecretBox`, which wipes them when dropped.
///
/// Verus cannot declare `SecretBox` itself (its parameter is bound by the
/// outside trait `Zeroize`), so the box sits in this opaque holder.
#[verifier::external_body]
pub struct SecretKeyBox {
    inner: SecretBox<[u8; 32]>,
}

#[verifier::external_type_specification]
#[verifier::external_body]
pub struct ExOsRng(OsRng);

#[verifier::external_type_specification]
#[verifier::external_body]
pub struct ExAeadError(chacha20poly1305::Error);

/// The key bytes that a `SecretBox` holds.
pub uninterp spec fn secret_key_material(secret: SecretKeyBox) -> Seq<u8>;

/// `SecretBox::new(Box::new(bytes))`: the box holds the given key bytes.
#[verifier::external_body]
fn box_secret_key(bytes: [u8; 32]) -> (secret: SecretKeyBox)
    ensures
        secret_key_material(secret) == bytes@,
{
    SecretKeyBox { inner: SecretBox::new(Box::new(bytes)) }
}

/// `ExposeSecret::expose_secret`: the bytes the box was created with.
#[verifier::external_body]
fn expose_secret_key(secret: &SecretKeyBox) -> (bytes: &[u8; 32])
    ensures
        bytes@ == secret_key_material(*secret),
{
    secret.inner.expose_secret()
}

/// `RngCore::fill_bytes` on the operating-system RNG: 32 random bytes.
///
/// Trusted for nothing: the bytes are random, so no clause states them.
#[verifier::external_body]
fn random_key_bytes(rng: &mut OsRng) -> [u8; 32] {
    let mut key = [0u8; 32];
    rng.fill_bytes(&mut key);
    key
}

/// `XChaCha20Poly1305::generate_nonce(&mut OsRng)`: a fresh random nonce.
///
/// Trusted for nothing: the nonce is random, so no clause states it.
#[verifier::external_body]
fn random_nonce() -> [u8; 24] {
    let nonce = XChaCha20Poly1305::generate_nonce(&mut OsRng);
    let mut bytes = [0u8; 24];
    bytes.copy_from_slice(&nonce);
    bytes
}

/// The XChaCha20-Poly1305 ciphertext (with its 16-byte tag appended) of a
/// plaintext under a key, a nonce and associated data.
pub uninterp spec fn xchacha20poly1305_seal(
    key: Seq<u8>,
    nonce: Seq<u8>,
    plaintext: Seq<u8>,
    aad: Seq<u8>,
) -> Seq<u8>;

/// `XChaCha20Poly1305::new(key).encrypt(nonce, Payload { msg, aad })`.
///
/// Trusted: within the cipher's length limit (beyond it the keystream
/// counter overflows and the call panics or fails), encryption succeeds, and
/// the result is the seal of the arguments, the plaintext length plus the
/// 16-byte tag long.
#[verifier::external_body]
fn aead_seal(key: &[u8; 32], nonce: &[u8; 24], plaintext: &[u8], aad: &[u8]) -> (r: Result<Vec<u8>, chacha20poly1305::Error>)
    requires
        plaintext@.len() <= MAX_PLAINTEXT_BYTES,
    ensures
        r is Ok,
        r matches Ok(c) ==> c@ == xchacha20poly1305_seal(key@, nonce@, plaintext@, aad@)
            && c@.len() == plaintext@.len() + TAG_BYTES,
{
    let cipher = XChaCha20Poly1305::new(key.into());
    cipher.encrypt(nonce.into(), Payload { msg: plaintext, aad })
}

/// `XChaCha20Poly1305::new(key).decrypt(nonce, Payload { msg: ciphertext, aad })`.
///
/// Trusted: a plaintext that comes back seals to the given ciphertext (the tag
/// authenticated it), and a ciphertext that is the seal of some plaintext
/// within the cipher's length limit opens to that plaintext. Ciphertexts
/// beyond the limit are left out: an authentic one makes the call panic.
#[verifier::external_body]
fn aead_open(key: &[u8; 32], nonce: &[u8; 24], ciphertext: &[u8], aad: &[u8]) -> (r: Result<Vec<u8>, chacha20poly1305::Error>)
    requires
        ciphertext@.len() <= MAX_PLAINTEXT_BYTES + TAG_BYTES,
    ensures
        r matches Ok(p) ==> xchacha20poly1305_seal(key@, nonce@, p@, aad@) == ciphertext@,
        forall|p: Seq<u8>|
            #[trigger] xchacha20poly1305_seal(key@, nonce@, p, aad@) == ciphertext@ && p.len() <= MAX_PLAINTEXT_BYTES
                ==> (r is Ok && r->Ok_0@ == p),
{
    let cipher = XChaCha20Poly1305::new(key.into());
    cipher.decrypt(nonce.into(), Payload { msg: ciphertext, aad })
}

// ---------------------------------------------------------------------------
// Keys.

/// Symmetric encryption key stored in zeroizing memory.
pub struct EncryptionKey(SecretKeyBox);

impl View for EncryptionKey {
    type V = Seq<u8>;

    /// The key bytes.
    closed spec fn view(&self) -> Seq<u8> {
        secret_key_material(self.0)
    }
}

/// The key that a hex string names: exactly 32 bytes of hex.
pub open spec fn spec_key_from_hex(text: Seq<u8>) -> Option<Seq<u8>> {
    match spec_hex_decode(text) {
        Some(bytes) => if bytes.len() == KEY_BYTES {
            Some(bytes)
        } else {
            None
        },
        None => None,
    }
}

impl EncryptionKey {
    /// Generate a fresh random key from the operating-system RNG.
    pub fn generate(rng: &mut OsRng) -> (k: Self)
        ensures
            k@.len() == KEY_BYTES,
    {
        let key = random_key_bytes(rng);
        Self::from_bytes(key)
    }

    /// Construct a key from pre-existing key material.
    pub fn from_bytes(bytes: [u8; 32]) -> (k: Self)
        ensures
            k@ == bytes@,
    {
        EncryptionKey(box_secret_key(bytes))
    }

    fn expose(&self) -> (b: &[u8; 32])
        ensures
            b@ == self@,
    {
        expose_secret_key(&self.0)
    }

    /// Lower-case hex rendering of the key, as printed for the user to keep.
    pub fn to_hex(&self) -> (s: String)
        ensures
            s@ == spec_hex_encode(self@),
    {
        encode_hex(self.expose().as_slice())
    }

    /// Parse a key from its hex rendering: exactly 64 hex digits.
    pub fn from_hex(text: &str) -> (k: Option<Self>)
        ensures
            k matches Some(key) ==> spec_key_from_hex(text.spec_bytes()) == Some(key@),
            k is None ==> spec_key_from_hex(text.spec_bytes()) is None,
    {
        match decode_hex(text.as_bytes()) {
            Some(bytes) => {
                if bytes.len() == KEY_BYTES {
                    Some(Self::from_bytes(crate::commitment::to_array32(bytes.as_slice())))
                } else {
                    None
                }
            },
            None => None,
        }
    }
}

/// A key read back from its hex rendering is the same key.
pub proof fn lemma_key_hex_roundtrip(key: Seq<u8>)
    requires
        key.len() == KEY_BYTES,
    ensures
        spec_key_from_hex(vstd::utf8::encode_utf8(spec_hex_encode(key))) == Some(key),
{
    let chars = spec_hex_encode(key);
    crate::hex::lemma_hex_encode_ascii(key);
    vstd::utf8::is_ascii_chars_encode_utf8(chars);
    let ascii = vstd::utf8::encode_utf8(chars);
    assert forall|i: int| 0 <= i < ascii.len() implies ascii[i] == (#[trigger] spec_hex_encode(key)[i]) as u8 by {
        assert(chars[i] as u8 == ascii[i]);
    }
    lemma_hex_roundtrip(key, ascii);
}

// ---------------------------------------------------------------------------
// The envelope.

/// The abstract content of an envelope.
pub struct EnvelopeView {
    pub version: u8,
    pub nonce: Seq<u8>,
    pub ciphertext: Seq<u8>,
}

/// Versioned encrypted payload envelope.
///
/// The envelope format is `version || nonce || ciphertext`, where the
/// ciphertext includes the AEAD authentication tag.
#[derive(Clone, Debug)]
pub struct EncryptedPayload {
    version: u8,
    nonce: [u8; 24],
    ciphertext: Bytes,
}

impl View for EncryptedPayload {
    type V = EnvelopeView;

    closed spec fn view(&self) -> EnvelopeView {
        EnvelopeView { version: self.version, nonce: self.nonce@, ciphertext: bytes_contents(self.ciphertext) }
    }
}

/// Errors returned by payload encryption and decryption.
#[derive(Debug, Clone, Copy, PartialEq, Eq, Structural)]
pub enum EncryptionError {
    /// The payload envelope could not be parsed safely.
    MalformedEnvelope,
    /// The envelope version is unsupported by this crate version.
    UnsupportedVersion(u8),
    /// AEAD encryption or authentication failed.
    AeadFailure,
}

/// The upload-ready bytes of an envelope.
pub open spec fn spec_envelope_bytes(e: EnvelopeView) -> Seq<u8> {
    seq![e.version] + e.nonce + e.ciphertext
}

/// Parsing upload-ready bytes into an envelope.
pub open spec fn spec_parse_envelope(bytes: Seq<u8>) -> Result<EnvelopeView, EncryptionError> {
    if bytes.len() < 1 + NONCE_BYTES {
        Err(EncryptionError::MalformedEnvelope)
    } else if bytes[0] != PAYLOAD_ENVELOPE_VERSION {
        Err(EncryptionError::UnsupportedVersion(bytes[0]))
    } else {
        Ok(
            EnvelopeView {
                version: bytes[0],
                nonce: bytes.subrange(1, 1 + NONCE_BYTES),
                ciphertext: bytes.subrange(1 + NONCE_BYTES, bytes.len() as int),
            },
        )
    }
}

impl EncryptedPayload {
    /// Create a new payload from its structured components.
    pub fn new(version: u8, nonce: [u8; 24], ciphertext: Vec<u8>) -> (p: Self)
        ensures
            p@ == (EnvelopeView { version, nonce: nonce@, ciphertext: ciphertext@ }),
    {
        EncryptedPayload { version, nonce, ciphertext: bytes_from_vec(ciphertext) }
    }

    /// Access the ciphertext bytes.
    pub fn ciphertext(&self) -> (c: &[u8])
        ensures
            c@ == self@.ciphertext,
    {
        bytes_as_slice(&self.ciphertext)
    }

    /// Access the nonce bytes.
    pub fn nonce(&self) -> (n: &[u8; 24])
        ensures
            n@ == self@.nonce,
    {
        &self.nonce
    }

    /// Return the envelope version.
    pub fn version(&self) -> (v: u8)
        ensures
            v == self@.version,
    {
        self.version
    }

    /// Return the ciphertext length.
    pub fn ciphertext_len(&self) -> (n: usize)
        ensures
            n == self@.ciphertext.len(),
    {
        self.ciphertext().len()
    }

    /// Serialize the envelope into upload-ready bytes.
    pub fn to_bytes(&self) -> (b: Vec<u8>)
        ensures
            b@ == spec_envelope_bytes(self@),
    {
        let mut encoded: Vec<u8> = Vec::new();
        encoded.push(self.version);
        append_bytes(&mut encoded, self.nonce.as_slice());
        append_bytes(&mut encoded, self.ciphertext());
        assert(encoded@ =~= spec_envelope_bytes(self@));
        encoded
    }

    /// Deserialize an envelope from upload-ready bytes.
    pub fn from_bytes(bytes: &[u8]) -> (r: Result<Self, EncryptionError>)
        ensures
            r matches Ok(p) ==> spec_parse_envelope(bytes@) == Ok::<EnvelopeView, EncryptionError>(p@),
            r matches Err(e) ==> spec_parse_envelope(bytes@) == Err::<EnvelopeView, EncryptionError>(e),
    {
        if bytes.len() < 1 + NONCE_BYTES {
            return Err(EncryptionError::MalformedEnvelope);
        }
        let version = bytes[0];
        if version != PAYLOAD_ENVELOPE_VERSION {
            return Err(EncryptionError::UnsupportedVersion(version));
        }
        let mut nonce = [0u8; 24];
        let mut i: usize = 0;
        while i < NONCE_BYTES
            invariant
                bytes@.len() >= 1 + NONCE_BYTES,
                i <= NONCE_BYTES,
                forall|j: int| 0 <= j < i ==> nonce@[j] == bytes@[1 + j],
            decreases NONCE_BYTES - i,
        {
            nonce[i] = bytes[1 + i];
            i = i + 1;
        }
        assert(nonce@ =~= bytes@.subrange(1, 1 + NONCE_BYTES));
        let mut ciphertext: Vec<u8> = Vec::new();
        let n = bytes.len();
        let mut k: usize = 1 + NONCE_BYTES;
        while k < n
            invariant
                n == bytes@.len(),
                1 + NONCE_BYTES <= k <= n,
                ciphertext@ =~= bytes@.subrange(1 + NONCE_BYTES, k as int),
            decreases n - k,
        {
            ciphertext.push(bytes[k]);
            k = k + 1;
        }
        let p = Self::new(version, nonce, ciphertext);
        assert(p@ == spec_parse_envelope(bytes@)->Ok_0);
        Ok(p)
    }
}

/// Parsing the bytes of a current-version envelope gives back the envelope.
pub proof fn lemma_envelope_roundtrip(e: EnvelopeView)
    requires
        e.version == PAYLOAD_ENVELOPE_VERSION,
        e.nonce.len() == NONCE_BYTES,
    ensures
        spec_parse_envelope(spec_envelope_bytes(e)) == Ok::<EnvelopeView, EncryptionError>(e),
{
    let b = spec_envelope_bytes(e);
    assert(b.subrange(1, 1 + NONCE_BYTES) =~= e.nonce);
    assert(b.subrange(1 + NONCE_BYTES, b.len() as int) =~= e.ciphertext);
}

/// Every envelope's nonce has `NONCE_BYTES` bytes.
pub proof fn lemma_nonce_len(p: EncryptedPayload)
    ensures
        p@.nonce.len() == NONCE_BYTES,
{
}

/// An envelope of the current version, serialized and parsed again, is the
/// same envelope.
pub proof fn lemma_payload_bytes_roundtrip(p: EncryptedPayload)
    requires
        p@.version == PAYLOAD_ENVELOPE_VERSION,
    ensures
        spec_parse_envelope(spec_envelope_bytes(p@)) == Ok::<EnvelopeView, EncryptionError>(p@),
{
    lemma_envelope_roundtrip(p@);
}

/// Bytes that parse into an envelope are exactly that envelope's bytes.
pub proof fn lemma_envelope_bytes_of_parse(bytes: Seq<u8>)
    requires
        spec_parse_envelope(bytes) is Ok,
    ensures
        spec_envelope_bytes(spec_parse_envelope(bytes)->Ok_0) == bytes,
{
    assert(spec_envelope_bytes(spec_parse_envelope(bytes)->Ok_0) =~= bytes);
}

// ---------------------------------------------------------------------------
// Encryptors.

/// Abstraction over authenticated-encryption backends.
pub trait PayloadEncryptor: Send + Sync {
    /// The ciphertext that sealing `plaintext` with `nonce` and `aad` gives.
    spec fn spec_seal(&self, nonce: Seq<u8>, plaintext: Seq<u8>, aad: Seq<u8>) -> Seq<u8>;

    /// Encrypt plaintext with additional authenticated data.
    fn encrypt(&self, plaintext: &[u8], aad: &[u8]) -> (r: Result<EncryptedPayload, EncryptionError>)
        ensures
            r matches Ok(p) ==> p@.version == PAYLOAD_ENVELOPE_VERSION
                && p@.ciphertext == self.spec_seal(p@.nonce, plaintext@, aad@),
    ;

    /// Decrypt and authenticate a versioned payload envelope.
    fn decrypt(&self, payload: &EncryptedPayload, aad: &[u8]) -> (r: Result<Vec<u8>, EncryptionError>)
        ensures
            payload@.version != PAYLOAD_ENVELOPE_VERSION ==> r == Err::<Vec<u8>, EncryptionError>(
                EncryptionError::UnsupportedVersion(payload@.version),
            ),
            payload@.version == PAYLOAD_ENVELOPE_VERSION ==> {
                &&& r matches Ok(p) ==> self.spec_seal(payload@.nonce, p@, aad@) == payload@.ciphertext
                &&& r matches Err(e) ==> e == EncryptionError::AeadFailure
                &&& forall|p: Seq<u8>| #[trigger] self.spec_seal(payload@.nonce, p, aad@) == payload@.ciphertext
                    && p.len() <= MAX_PLAINTEXT_BYTES && payload@.ciphertext.len() <= MAX_PLAINTEXT_BYTES + TAG_BYTES
                    ==> (r matches Ok(q) && q@ == p)
            },
    ;
}

/// XChaCha20-Poly1305 encryptor for storage payloads.
pub struct XChaCha20Poly1305Encryptor {
    key: EncryptionKey,
}

impl View for XChaCha20Poly1305Encryptor {
    type V = Seq<u8>;

    /// The key bytes.
    closed spec fn view(&self) -> Seq<u8> {
        self.key@
    }
}

impl XChaCha20Poly1305Encryptor {
    /// Create a new encryptor from key material managed by the caller.
    pub fn new(key: EncryptionKey) -> (e: Self)
        ensures
            e@ == key@,
    {
        XChaCha20Poly1305Encryptor { key }
    }
}

impl PayloadEncryptor for XChaCha20Poly1305Encryptor {
    open spec fn spec_seal(&self, nonce: Seq<u8>, plaintext: Seq<u8>, aad: Seq<u8>) -> Seq<u8> {
        xchacha20poly1305_seal(self@, nonce, plaintext, aad)
    }

    fn encrypt(&self, plaintext: &[u8], aad: &[u8]) -> (r: Result<EncryptedPayload, EncryptionError>)
        ensures
            r matches Ok(p) ==> p@.nonce.len() == NONCE_BYTES
                && p@.ciphertext.len() == plaintext@.len() + TAG_BYTES,
            r is Ok <==> plaintext@.len() <= MAX_PLAINTEXT_BYTES,
            r matches Err(e) ==> e == EncryptionError::AeadFailure,
    {
        if plaintext.len() as u64 > MAX_PLAINTEXT_BYTES {
            return Err(EncryptionError::AeadFailure);
        }
        let nonce = random_nonce();
        match aead_seal(self.key.expose(), &nonce, plaintext, aad) {
            Ok(ciphertext) => Ok(EncryptedPayload::new(PAYLOAD_ENVELOPE_VERSION, nonce, ciphertext)),
            Err(_) => Err(EncryptionError::AeadFailure),
        }
    }

    fn decrypt(&self, payload: &EncryptedPayload, aad: &[u8]) -> (r: Result<Vec<u8>, EncryptionError>) {
        if payload.version() != PAYLOAD_ENVELOPE_VERSION {
            return Err(EncryptionError::UnsupportedVersion(payload.version()));
        }
        if payload.ciphertext_len() as u64 > MAX_PLAINTEXT_BYTES + TAG_BYTES as u64 {
            return Err(EncryptionError::AeadFailure);
        }
        match aead_open(self.key.expose(), payload.nonce(), payload.ciphertext(), aad) {
            Ok(plaintext) => Ok(plaintext),
            Err(_) => Err(EncryptionError::AeadFailure),
        }
    }
}

} // verus!
