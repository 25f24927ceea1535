//! The cryptographic envelope: `seal` and `open`.
//!
//! An envelope is one byte buffer laid out as
//! `salt(16) || nonce(12) || ciphertext-with-tag`. Sealing draws a fresh
//! random salt and nonce, derives the key from the passphrase and salt, and
//! runs AES-256-GCM over the plaintext; opening reads the two header fields
//! back, rederives the key and lets the GCM tag check decide. A failed tag
//! check is the sole signal for a wrong passphrase or altered bytes; a buffer
//! too short for the 28-byte header is rejected before any cipher work.

use vstd::prelude::*;

use aes_gcm::aead::{Aead, KeyInit};

use crate::kdf::derive_key;
use crate::kdf::derived_key;
use crate::kdf::KEY_LEN;

verus! {

/// Length in bytes of the random salt at the front of an envelope.
pub const SALT_LEN: usize = 16;

/// Length in bytes of the random nonce that follows the salt.
pub const NONCE_LEN: usize = 12;

/// Length in bytes of an envelope's header: salt, then nonce.
pub const HEADER_LEN: usize = 28;

/// Length in bytes of the GCM authentication tag at the end of an envelope.
pub const TAG_LEN: usize = 16;

/// The longest plaintext AES-GCM encrypts: 2^36 bytes.
pub const GCM_P_MAX: u64 = 0x10_0000_0000;

/// Why `open` refused an envelope.
#[derive(Debug, Clone, Copy, PartialEq, Eq, Structural)]
pub enum OpenError {
    /// The buffer is shorter than the 28-byte header, so it cannot be a vault
    /// envelope at all: no cipher operation was attempted.
    FormatError,
    /// The GCM tag check failed: the passphrase is wrong or the envelope was
    /// altered. The format offers no way to tell the two apart.
    AuthFailure,
}

/// The ciphertext-with-tag that AES-256-GCM produces for a key, nonce and
/// plaintext. A fixed function of its arguments.
pub uninterp spec fn gcm_ciphertext(key: Seq<u8>, nonce: Seq<u8>, plaintext: Seq<u8>) -> Seq<u8>;

/// What AES-256-GCM decryption yields for a key, nonce and ciphertext-with-tag
/// buffer: the plaintext when the tag verifies, nothing otherwise. A fixed
/// function of its arguments.
pub uninterp spec fn gcm_decrypted(key: Seq<u8>, nonce: Seq<u8>, data: Seq<u8>) -> Option<Seq<u8>>;

/// The exact bytes of an envelope built from a given salt, nonce, passphrase
/// and plaintext: the salt, then the nonce, then what AES-256-GCM produced
/// under the key derived from the passphrase and that same salt.
pub open spec fn envelope_bytes(
    passphrase: Seq<u8>,
    salt: Seq<u8>,
    nonce: Seq<u8>,
    plaintext: Seq<u8>,
) -> Seq<u8> {
    salt + nonce + gcm_ciphertext(derived_key(passphrase, salt), nonce, plaintext)
}

/// Holds when `envelope` is a well-formed seal of `plaintext` under
/// `passphrase`: for some 16-byte salt and 12-byte nonce, it is exactly the
/// byte layout that sealing produces.
pub open spec fn is_sealed(envelope: Seq<u8>, passphrase: Seq<u8>, plaintext: Seq<u8>) -> bool {
    &&& plaintext.len() <= GCM_P_MAX
    &&& exists|salt: Seq<u8>, nonce: Seq<u8>|
        salt.len() == SALT_LEN && nonce.len() == NONCE_LEN && envelope == #[trigger] envelope_bytes(
            passphrase,
            salt,
            nonce,
            plaintext,
        )
}

/// Relies on `aes_gcm::Aes256Gcm` through `aead::Aead::encrypt`: the result is
/// a fixed function of key, nonce and plaintext — the ciphertext followed by
/// the 16-byte tag, with no associated data — and the call fails exactly when
/// the plaintext is longer than 2^36 bytes. `Key::from_slice` and
/// `Nonce::from_slice` panic on a wrong length, which the preconditions rule
/// out.
#[verifier::external_body]
fn aes256_gcm_encrypt(key: &[u8], nonce: &[u8], plaintext: &[u8]) -> (r: Option<Vec<u8>>)
    requires
        key@.len() == KEY_LEN,
        nonce@.len() == NONCE_LEN,
    ensures
        r is Some <==> plaintext@.len() <= GCM_P_MAX,
        r is Some ==> r->0@ == gcm_ciphertext(key@, nonce@, plaintext@),
        r is Some ==> r->0@.len() == plaintext@.len() + TAG_LEN,
{
    let cipher = aes_gcm::Aes256Gcm::new(aes_gcm::Key::<aes_gcm::Aes256Gcm>::from_slice(key));
    match cipher.encrypt(aes_gcm::Nonce::from_slice(nonce), plaintext) {
        Ok(ciphertext) => Some(ciphertext),
        Err(_) => None,
    }
}

/// Relies on `aes_gcm::Aes256Gcm` through `aead::Aead::decrypt`: the result is
/// a fixed function of key, nonce and input; an input shorter than the 16-byte
/// tag is always rejected; a verified plaintext is 16 bytes shorter than the
/// input; and decryption inverts encryption — an input that
/// `aead::Aead::encrypt` produced under the same key and nonce yields exactly
/// the plaintext that was encrypted. `Key::from_slice` and `Nonce::from_slice`
/// panic on a wrong length, which the preconditions rule out.
#[verifier::external_body]
fn aes256_gcm_decrypt(key: &[u8], nonce: &[u8], data: &[u8]) -> (r: Option<Vec<u8>>)
    requires
        key@.len() == KEY_LEN,
        nonce@.len() == NONCE_LEN,
    ensures
        r is Some <==> gcm_decrypted(key@, nonce@, data@) is Some,
        r is Some ==> Some(r->0@) == gcm_decrypted(key@, nonce@, data@),
        r is Some ==> r->0@.len() + TAG_LEN == data@.len(),
        data@.len() < TAG_LEN ==> r is None,
        forall|plaintext: Seq<u8>|
            plaintext.len() <= GCM_P_MAX && data@ == #[trigger] gcm_ciphertext(
                key@,
                nonce@,
                plaintext,
            ) ==> r is Some && r->0@ == plaintext,
{
    let cipher = aes_gcm::Aes256Gcm::new(aes_gcm::Key::<aes_gcm::Aes256Gcm>::from_slice(key));
    match cipher.decrypt(aes_gcm::Nonce::from_slice(nonce), data) {
        Ok(plaintext) => Some(plaintext),
        Err(_) => None,
    }
}

/// Relies on `rand::thread_rng` and `rand::Rng::fill` for fresh
/// cryptographically secure salt bytes. Nothing is assumed about the values
/// drawn: every seal must hold for whatever salt came back.
#[verifier::external_body]
fn random_salt() -> [u8; 16] {
    let mut salt = [0u8; 16];
    rand::Rng::fill(&mut rand::thread_rng(), &mut salt);
    salt
}

/// Relies on `rand::random` for a fresh cryptographically secure 12-byte
/// nonce. Nothing is assumed about the values drawn.
#[verifier::external_body]
fn random_nonce() -> [u8; 12] {
    rand::random()
}

/// Append every byte of `bytes` to `out`, in order.
fn append_bytes(out: &mut Vec<u8>, bytes: &[u8])
    ensures
        final(out)@ == old(out)@ + bytes@,
{
    let n = bytes.len();
    for i in 0..n
        invariant
            n == bytes@.len(),
            out@ == old(out)@ + bytes@.subrange(0, i as int),
    {
        out.push(bytes[i]);
        proof {
            assert(out@ =~= old(out)@ + bytes@.subrange(0, i + 1));
        }
    }
    proof {
        assert(out@ =~= old(out)@ + bytes@);
    }
}

/// Law: an envelope determines its parts. A sealed envelope is at least header
/// plus tag long, its first 16 bytes are the salt and next 12 the nonce that
/// sealing drew, and everything past the header is exactly what AES-256-GCM
/// produced under the key derived from the passphrase and that salt.
pub proof fn lemma_sealed_parts(envelope: Seq<u8>, passphrase: Seq<u8>, plaintext: Seq<u8>)
    requires
        is_sealed(envelope, passphrase, plaintext),
    ensures
        envelope.len() >= HEADER_LEN,
        envelope.skip(HEADER_LEN as int) == gcm_ciphertext(
            derived_key(passphrase, envelope.subrange(0, SALT_LEN as int)),
            envelope.subrange(SALT_LEN as int, HEADER_LEN as int),
            plaintext,
        ),
        plaintext.len() <= GCM_P_MAX,
{
    let (salt, nonce) = choose|salt: Seq<u8>, nonce: Seq<u8>|
        salt.len() == SALT_LEN && nonce.len() == NONCE_LEN && envelope == #[trigger] envelope_bytes(
            passphrase,
            salt,
            nonce,
            plaintext,
        );
    let body = gcm_ciphertext(derived_key(passphrase, salt), nonce, plaintext);
    assert(envelope == salt + nonce + body);
    assert(envelope.subrange(0, SALT_LEN as int) =~= salt);
    assert(envelope.subrange(SALT_LEN as int, HEADER_LEN as int) =~= nonce);
    assert(envelope.skip(HEADER_LEN as int) =~= body);
}

/// Seal a plaintext under a passphrase: the complete envelope that `open` with
/// the same passphrase accepts and maps back to this plaintext.
///
/// A fresh random salt and nonce are drawn on every call — even for identical
/// inputs — so no salt or nonce is ever reused across writes. The result is
/// always exactly 44 bytes (header plus tag) longer than the plaintext.
pub fn seal(plaintext: &[u8], passphrase: &[u8]) -> (envelope: Vec<u8>)
    requires
        plaintext@.len() <= GCM_P_MAX,
    ensures
        is_sealed(envelope@, passphrase@, plaintext@),
        envelope@.len() == plaintext@.len() + HEADER_LEN + TAG_LEN,
{
    let salt = random_salt();
    let nonce = random_nonce();
    let key = derive_key(passphrase, salt.as_slice());
    let body = match aes256_gcm_encrypt(key.as_slice(), nonce.as_slice(), plaintext) {
        Some(body) => body,
        None => vstd::pervasive::unreached(),
    };
    let mut envelope: Vec<u8> = Vec::new();
    append_bytes(&mut envelope, salt.as_slice());
    append_bytes(&mut envelope, nonce.as_slice());
    append_bytes(&mut envelope, body.as_slice());
    proof {
        assert(envelope@ =~= salt@ + nonce@ + body@);
        assert(envelope@ == envelope_bytes(passphrase@, salt@, nonce@, plaintext@));
    }
    envelope
}

/// Open an envelope under a passphrase.
///
/// A buffer shorter than the 28-byte header yields `FormatError` before any
/// cipher operation; otherwise the first 16 bytes are taken as the salt, the
/// next 12 as the nonce, the key is rederived, and the GCM tag check over the
/// remainder decides: the verified plaintext, or `AuthFailure`. In particular
/// any envelope that `seal` produced for this passphrase — as `is_sealed`
/// describes its results — opens to exactly the plaintext it sealed.
pub fn open(envelope: &[u8], passphrase: &[u8]) -> (r: Result<Vec<u8>, OpenError>)
    ensures
        r == Err::<Vec<u8>, OpenError>(OpenError::FormatError) <==> envelope@.len() < HEADER_LEN,
        envelope@.len() >= HEADER_LEN ==> {
            let key = derived_key(passphrase@, envelope@.subrange(0, SALT_LEN as int));
            let nonce = envelope@.subrange(SALT_LEN as int, HEADER_LEN as int);
            let body = envelope@.skip(HEADER_LEN as int);
            match r {
                Ok(plaintext) => Some(plaintext@) == gcm_decrypted(key, nonce, body),
                Err(e) => e == OpenError::AuthFailure && gcm_decrypted(key, nonce, body) is None,
            }
        },
        r is Ok ==> r->Ok_0@.len() + HEADER_LEN + TAG_LEN == envelope@.len(),
        forall|plaintext: Seq<u8>|
            #[trigger] is_sealed(envelope@, passphrase@, plaintext) ==> r is Ok && r->Ok_0@
                == plaintext,
{
    if envelope.len() < HEADER_LEN {
        return Err(OpenError::FormatError);
    }
    let salt = vstd::slice::slice_subrange(envelope, 0, SALT_LEN);
    let nonce = vstd::slice::slice_subrange(envelope, SALT_LEN, HEADER_LEN);
    let body = vstd::slice::slice_subrange(envelope, HEADER_LEN, envelope.len());
    let key = derive_key(passphrase, salt);
    let decrypted = aes256_gcm_decrypt(key.as_slice(), nonce, body);
    proof {
        assert forall|plaintext: Seq<u8>|
            #[trigger] is_sealed(envelope@, passphrase@, plaintext) implies decrypted is Some
            && decrypted->0@ == plaintext by {
            lemma_sealed_parts(envelope@, passphrase@, plaintext);
        }
    }
    match decrypted {
        Some(plaintext) => Ok(plaintext),
        None => Err(OpenError::AuthFailure),
    }
}

} // verus!
