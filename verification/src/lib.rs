//! A single-user encrypted credential vault.
//!
//! The heart of the crate is the cryptographic envelope in [`codec`]: a
//! passphrase and a fresh random salt are stretched into a 256-bit key
//! ([`kdf`]), the serialized vault is sealed with AES-256-GCM, and the on-disk
//! layout `salt(16) || nonce(12) || ciphertext-with-tag` makes sealing and
//! opening interoperable and tamper-evident. [`vault`] holds the decrypted
//! entry list and the operations on it, and [`cli`] the command model that a
//! front end hands in.

pub mod cli;
pub mod codec;
pub mod kdf;
pub mod vault;
