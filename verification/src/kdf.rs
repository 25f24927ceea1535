//! Key derivation: stretching a passphrase and a salt into a 256-bit key.

use vstd::prelude::*;

verus! {

/// PBKDF2 iteration count. A fixed constant of the envelope format: opening a
/// vault must rederive exactly the key that sealing derived, so the count may
/// not vary per vault.
pub const PBKDF2_ROUNDS: u32 = 100_000;

/// Length in bytes of a derived symmetric key (AES-256).
pub const KEY_LEN: usize = 32;

/// The 32-byte key that PBKDF2 with an HMAC-SHA-256 pseudorandom function
/// derives from a password, a salt and an iteration count. A fixed function of
/// its arguments: equal inputs always name the equal key.
pub uninterp spec fn pbkdf2_sha256_key(password: Seq<u8>, salt: Seq<u8>, rounds: u32) -> Seq<u8>;

/// The key this vault format uses: PBKDF2-HMAC-SHA-256 at [`PBKDF2_ROUNDS`]
/// iterations, 32 bytes of output.
pub open spec fn derived_key(passphrase: Seq<u8>, salt: Seq<u8>) -> Seq<u8> {
    pbkdf2_sha256_key(passphrase, salt, PBKDF2_ROUNDS)
}

/// Relies on `pbkdf2::pbkdf2_hmac_array` with `sha2::Sha256`: the output is a
/// fixed function of password, salt and iteration count, 32 bytes long; HMAC
/// accepts keys of any length, so the call cannot fail, whatever the input
/// lengths.
#[verifier::external_body]
fn pbkdf2_hmac_sha256_32(password: &[u8], salt: &[u8], rounds: u32) -> (key: [u8; 32])
    ensures
        key@ == pbkdf2_sha256_key(password@, salt@, rounds),
        key@.len() == 32,
{
    pbkdf2::pbkdf2_hmac_array::<sha2::Sha256, 32>(password, salt, rounds)
}

/// Derive the symmetric key for a passphrase and a salt.
///
/// Deterministic: the result is a function of the two inputs alone, so opening
/// an envelope with the correct passphrase and the salt read back from the file
/// reconstructs exactly the key that sealing used. Inputs of any length are
/// accepted.
pub fn derive_key(passphrase: &[u8], salt: &[u8]) -> (key: [u8; 32])
    ensures
        key@ == derived_key(passphrase@, salt@),
{
    pbkdf2_hmac_sha256_32(passphrase, salt, PBKDF2_ROUNDS)
}

/// Law: key derivation is deterministic. Any two keys derived for the same
/// passphrase and salt — as `derive_key`'s contract describes its results —
/// are equal.
pub proof fn lemma_derive_key_deterministic(
    passphrase: Seq<u8>,
    salt: Seq<u8>,
    key1: Seq<u8>,
    key2: Seq<u8>,
)
    requires
        key1 == derived_key(passphrase, salt),
        key2 == derived_key(passphrase, salt),
    ensures
        key1 == key2,
{
}

} // verus!
