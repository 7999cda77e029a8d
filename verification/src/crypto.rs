//! Authenticated encryption of byte strings under a fixed 256-bit key.
//!
//! A sealed value is a fresh 96-bit nonce followed by the AES-256-GCM
//! ciphertext and its 128-bit tag.

use aes_gcm::aead::{Aead, AeadCore, KeyInit, OsRng};
use aes_gcm::{Aes256Gcm, Key, Nonce};
use vstd::prelude::*;

verus! {

/// Width of the symmetric key in bytes.
pub const KEY_LEN: usize = 32;

/// Width of the nonce that precedes every ciphertext.
pub const NONCE_LEN: usize = 12;

/// Width of the integrity tag that ends every ciphertext.
pub const TAG_LEN: usize = 16;

/// The longest plaintext, in bytes, that the cipher accepts.
pub const MAX_PLAINTEXT_LEN: u64 = 0x10_0000_0000;

/// Symmetric key material. A key can be made and used, and never read back:
/// it has no accessor, and is neither printed nor copied.
pub struct SessionKey {
    bytes: [u8; 32],
}

impl View for SessionKey {
    type V = Seq<u8>;

    /// A key is its bytes.
    closed spec fn view(&self) -> Seq<u8> {
        self.bytes@
    }
}

/// Why a sealed value could not be opened.
#[derive(Clone, Copy, Debug, PartialEq, Eq, Structural)]
pub enum DecryptError {
    /// The input is shorter than a nonce.
    Truncated,
    /// The cipher rejected the ciphertext: it was forged, corrupted, cut
    /// short, or sealed under another key.
    Unauthentic,
}

/// The ciphertext and tag that AES-256-GCM computes for `plaintext` under
/// `key` and `nonce`, with no associated data.
pub uninterp spec fn aead_seal(key: Seq<u8>, nonce: Seq<u8>, plaintext: Seq<u8>) -> Seq<u8>;

/// The plaintext that AES-256-GCM recovers from `ciphertext` under `key` and
/// `nonce`, or `None` where it rejects the ciphertext.
pub uninterp spec fn aead_open(key: Seq<u8>, nonce: Seq<u8>, ciphertext: Seq<u8>) -> Option<
    Seq<u8>,
>;

/// Whether the cipher undoes itself on `plaintext` under `key` and `nonce`:
/// decrypting what it encrypted gives the plaintext back.
pub open spec fn cipher_inverts(key: Seq<u8>, nonce: Seq<u8>, plaintext: Seq<u8>) -> bool {
    aead_open(key, nonce, aead_seal(key, nonce, plaintext)) == Some(plaintext)
}

/// The sealed value of `plaintext` under `key` and `nonce`: the nonce, then
/// the ciphertext and tag made with it.
pub open spec fn sealed_with(key: Seq<u8>, nonce: Seq<u8>, plaintext: Seq<u8>) -> Seq<u8> {
    nonce + aead_seal(key, nonce, plaintext)
}

/// A sealed value of `plaintext` under `key`: its first twelve bytes are the
/// nonce, the rest is the ciphertext made with that nonce.
pub open spec fn is_sealed(key: Seq<u8>, plaintext: Seq<u8>, sealed: Seq<u8>) -> bool {
    &&& sealed.len() == NONCE_LEN + plaintext.len() + TAG_LEN
    &&& sealed.skip(NONCE_LEN as int) == aead_seal(key, sealed.take(NONCE_LEN as int), plaintext)
}

/// What opening `sealed` under `key` yields.
pub open spec fn opened(key: Seq<u8>, sealed: Seq<u8>) -> Result<Seq<u8>, DecryptError> {
    if sealed.len() < NONCE_LEN {
        Err(DecryptError::Truncated)
    } else {
        match aead_open(key, sealed.take(NONCE_LEN as int), sealed.skip(NONCE_LEN as int)) {
            Some(plaintext) => Ok(plaintext),
            None => Err(DecryptError::Unauthentic),
        }
    }
}

/// Opening inverts sealing: where the cipher undoes itself, a sealed value
/// opens to the plaintext that was sealed.
pub proof fn lemma_open_inverts_seal(key: Seq<u8>, plaintext: Seq<u8>, sealed: Seq<u8>)
    requires
        is_sealed(key, plaintext, sealed),
        cipher_inverts(key, sealed.take(NONCE_LEN as int), plaintext),
    ensures
        opened(key, sealed) == Ok::<Seq<u8>, DecryptError>(plaintext),
{
}

/// A sealed value starts with its nonce: sealings made with different
/// nonces differ, whatever was sealed and under whatever key.
pub proof fn lemma_nonces_tell_sealings_apart(
    key_a: Seq<u8>,
    nonce_a: Seq<u8>,
    plaintext_a: Seq<u8>,
    key_b: Seq<u8>,
    nonce_b: Seq<u8>,
    plaintext_b: Seq<u8>,
)
    requires
        nonce_a.len() == NONCE_LEN,
        nonce_b.len() == NONCE_LEN,
        nonce_a != nonce_b,
    ensures
        sealed_with(key_a, nonce_a, plaintext_a).take(NONCE_LEN as int) == nonce_a,
        sealed_with(key_b, nonce_b, plaintext_b).take(NONCE_LEN as int) == nonce_b,
        sealed_with(key_a, nonce_a, plaintext_a) != sealed_with(key_b, nonce_b, plaintext_b),
{
    assert(sealed_with(key_a, nonce_a, plaintext_a).take(NONCE_LEN as int) == nonce_a);
    assert(sealed_with(key_b, nonce_b, plaintext_b).take(NONCE_LEN as int) == nonce_b);
}

/// Calls `Aes256Gcm::generate_key` with `OsRng`, the operating system's
/// random generator, which panics where the system gives it no bytes. The
/// bytes are random, so nothing is claimed of them.
#[verifier::external_body]
fn random_key() -> (key: [u8; 32]) {
    Aes256Gcm::generate_key(&mut OsRng).into()
}

/// Calls `Aes256Gcm::generate_nonce` with `OsRng`, the operating system's
/// random generator, which panics where the system gives it no bytes. The
/// bytes are random, so nothing is claimed of them.
#[verifier::external_body]
pub(crate) fn random_nonce() -> (nonce: [u8; 12]) {
    Aes256Gcm::generate_nonce(&mut OsRng).into()
}

/// Calls `Aes256Gcm::new` and `Aead::encrypt`. The cipher refuses a plaintext
/// longer than `MAX_PLAINTEXT_LEN` and nothing else; its output is the
/// plaintext's length plus a tag; and decrypting that output under the same
/// key and nonce gives the plaintext back.
#[verifier::external_body]
fn aead_encrypt(key: &[u8; 32], nonce: &[u8; 12], plaintext: &[u8]) -> (r: Option<Vec<u8>>)
    ensures
        r is Some <==> plaintext@.len() <= MAX_PLAINTEXT_LEN,
        r matches Some(ciphertext) ==> {
            &&& ciphertext@ == aead_seal(key@, nonce@, plaintext@)
            &&& ciphertext@.len() == plaintext@.len() + TAG_LEN
            &&& cipher_inverts(key@, nonce@, plaintext@)
        },
{
    let cipher = Aes256Gcm::new(Key::<Aes256Gcm>::from_slice(key));
    match cipher.encrypt(Nonce::from_slice(nonce), plaintext) {
        Ok(ciphertext) => Some(ciphertext),
        Err(_) => None,
    }
}

/// Calls `Aes256Gcm::new` and `Aead::decrypt`. The cipher hands back a
/// plaintext only after it has split a tag off the end of the ciphertext and
/// found it genuine, so a plaintext is a tag shorter than its ciphertext.
#[verifier::external_body]
fn aead_decrypt(key: &[u8; 32], nonce: &[u8], ciphertext: &[u8]) -> (r: Option<Vec<u8>>)
    requires
        nonce@.len() == NONCE_LEN,
    ensures
        match r {
            Some(plaintext) => {
                &&& aead_open(key@, nonce@, ciphertext@) == Some(plaintext@)
                &&& ciphertext@.len() == plaintext@.len() + TAG_LEN
            },
            None => aead_open(key@, nonce@, ciphertext@) is None,
        },
{
    let cipher = Aes256Gcm::new(Key::<Aes256Gcm>::from_slice(key));
    match cipher.decrypt(Nonce::from_slice(nonce), ciphertext) {
        Ok(plaintext) => Some(plaintext),
        Err(_) => None,
    }
}

impl SessionKey {
    /// A fresh random key.
    pub fn generate() -> (key: SessionKey)
        ensures
            key@.len() == KEY_LEN,
    {
        SessionKey { bytes: random_key() }
    }

    /// The key with the given bytes.
    pub fn from_bytes(bytes: [u8; 32]) -> (key: SessionKey)
        ensures
            key@ == bytes@,
    {
        SessionKey { bytes }
    }
}

/// Seals `plaintext` under `key` with the nonce given: the result is the
/// nonce followed by the ciphertext and tag made with it.
///
/// A nonce must not serve twice under one key; [`seal`] draws a fresh one.
/// Fails only where the plaintext is longer than the cipher accepts.
pub fn seal_with_nonce(key: &SessionKey, nonce: &[u8; 12], plaintext: &[u8]) -> (r: Option<
    Vec<u8>,
>)
    ensures
        r is Some <==> plaintext@.len() <= MAX_PLAINTEXT_LEN,
        r matches Some(sealed) ==> {
            &&& sealed@ == sealed_with(key@, nonce@, plaintext@)
            &&& is_sealed(key@, plaintext@, sealed@)
            &&& opened(key@, sealed@) == Ok::<Seq<u8>, DecryptError>(plaintext@)
        },
{
    match aead_encrypt(&key.bytes, nonce, plaintext) {
        Some(ciphertext) => {
            let mut sealed: Vec<u8> = Vec::new();
            sealed.extend_from_slice(nonce.as_slice());
            sealed.extend_from_slice(ciphertext.as_slice());
            proof {
                assert(sealed@.take(NONCE_LEN as int) == nonce@);
                assert(sealed@.skip(NONCE_LEN as int) == ciphertext@);
            }
            Some(sealed)
        },
        None => None,
    }
}

/// Seals `plaintext` under `key` with a fresh random nonce.
///
/// Fails only where the plaintext is longer than the cipher accepts.
pub fn seal(key: &SessionKey, plaintext: &[u8]) -> (r: Option<Vec<u8>>)
    ensures
        r is Some <==> plaintext@.len() <= MAX_PLAINTEXT_LEN,
        r matches Some(sealed) ==> is_sealed(key@, plaintext@, sealed@) && opened(key@, sealed@)
            == Ok::<Seq<u8>, DecryptError>(plaintext@),
{
    let nonce = random_nonce();
    seal_with_nonce(key, &nonce, plaintext)
}

/// Opens a value made by [`seal`] under the same key.
///
/// Fails closed: an input shorter than a nonce, or one that the cipher does
/// not authenticate, yields an error and no plaintext. Whatever opens is
/// exactly a nonce and a tag longer than its plaintext.
pub fn open(key: &SessionKey, sealed: &[u8]) -> (r: Result<Vec<u8>, DecryptError>)
    ensures
        match r {
            Ok(plaintext) => {
                &&& opened(key@, sealed@) == Ok::<Seq<u8>, DecryptError>(plaintext@)
                &&& sealed@.len() == NONCE_LEN + plaintext@.len() + TAG_LEN
            },
            Err(e) => opened(key@, sealed@) == Err::<Seq<u8>, DecryptError>(e),
        },
{
    if sealed.len() < NONCE_LEN {
        return Err(DecryptError::Truncated);
    }
    let (nonce, ciphertext) = sealed.split_at(NONCE_LEN);
    match aead_decrypt(&key.bytes, nonce, ciphertext) {
        Some(plaintext) => Ok(plaintext),
        None => Err(DecryptError::Unauthentic),
    }
}

} // verus!
