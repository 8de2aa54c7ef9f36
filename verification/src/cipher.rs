//! The AES-128-GCM cipher and the random generator behind the engine.
//!
//! Nothing in this module is proved: it states what the `aes-gcm`, `rand` and
//! `rand_chacha` crates do, and the rest of the library is verified against
//! these statements.

use aes_gcm::aead::{AeadInOut, Generate, KeyInit, Nonce};
use aes_gcm::Aes128Gcm;
use rand_chacha::ChaCha8Rng;
use vstd::prelude::*;

verus! {

/// Length of the authentication tag in bytes.
pub const TAG_SIZE: usize = 16;

/// Length of the nonce in bytes.
pub const NONCE_SIZE: usize = 12;

/// The longest plaintext, in bytes, that AES-GCM encrypts under one nonce.
pub const MAX_PLAINTEXT_LEN: u64 = 68_719_476_704;

/// The failure that `aes-gcm` reports; it carries no detail.
#[verifier::external_type_specification]
#[verifier::external_body]
pub struct ExCipherError(aes_gcm::Error);

/// The ChaCha generator with eight rounds of `rand_chacha`.
#[verifier::external_type_specification]
#[verifier::external_body]
pub struct ExChaCha8Rng(ChaCha8Rng);

/// A keyed AES-128-GCM context of `aes-gcm`: the expanded key and the hash
/// subkey derived from it. It never changes after it is made.
#[verifier::external_body]
pub struct Cipher {
    inner: Aes128Gcm,
}

/// The 16-byte key that a cipher context was made from.
pub uninterp spec fn cipher_key(cipher: Cipher) -> Seq<u8>;

/// What AES-128-GCM encryption without associated data returns for a key, a
/// nonce and a plaintext: the ciphertext followed by the tag.
pub uninterp spec fn aes128_gcm_seal(key: Seq<u8>, nonce: Seq<u8>, plaintext: Seq<u8>) -> Seq<u8>;

/// What AES-128-GCM decryption without associated data returns for a key, a
/// nonce and a ciphertext followed by a tag: the plaintext, or `None` where
/// the cipher refuses the message.
pub uninterp spec fn aes128_gcm_open(key: Seq<u8>, nonce: Seq<u8>, sealed: Seq<u8>) -> Option<
    Seq<u8>,
>;

/// `KeyInit::new` for `Aes128Gcm`: the context is a function of the key alone.
#[verifier::external_body]
pub(crate) fn cipher_new(key: &[u8; 16]) -> (cipher: Cipher)
    ensures
        cipher_key(cipher) == key@,
{
    Cipher { inner: Aes128Gcm::new(&(*key).into()) }
}

/// `Clone::clone` for `Aes128Gcm`: the copy holds the same key.
#[verifier::external_body]
pub(crate) fn cipher_clone(cipher: &Cipher) -> (copy: Cipher)
    ensures
        cipher_key(copy) == cipher_key(*cipher),
{
    Cipher { inner: cipher.inner.clone() }
}

/// `AeadInOut::encrypt_in_place` for `Aes128Gcm`, with no associated data.
///
/// It fails exactly on a plaintext longer than `MAX_PLAINTEXT_LEN`, and then
/// leaves the buffer alone. Otherwise it replaces the plaintext by a
/// ciphertext of the same length and appends the 16-byte tag; what it leaves
/// is a function of key, nonce and plaintext, and decryption under the same
/// key and nonce gives the plaintext back.
#[verifier::external_body]
pub(crate) fn seal_in_place(cipher: &Cipher, nonce: &[u8; 12], buffer: &mut Vec<u8>) -> (r: Result<
    (),
    aes_gcm::Error,
>)
    requires
        old(buffer)@.len() <= MAX_PLAINTEXT_LEN ==> old(buffer)@.len() + TAG_SIZE <= isize::MAX,
    ensures
        r is Ok <==> old(buffer)@.len() <= MAX_PLAINTEXT_LEN,
        r is Ok ==> final(buffer)@ == aes128_gcm_seal(cipher_key(*cipher), nonce@, old(buffer)@),
        r is Ok ==> final(buffer)@.len() == old(buffer)@.len() + TAG_SIZE,
        r is Ok ==> aes128_gcm_open(cipher_key(*cipher), nonce@, final(buffer)@) == Some(
            old(buffer)@,
        ),
        r is Err ==> final(buffer)@ == old(buffer)@,
{
    cipher.inner.encrypt_in_place(&(*nonce).into(), &[], buffer)
}

/// `AeadInOut::decrypt_in_place` for `Aes128Gcm`, with no associated data.
///
/// Whether it succeeds, and the plaintext it then leaves in the buffer, is a
/// function of key, nonce and the sealed message; the plaintext is 16 bytes
/// shorter than the sealed message.
#[verifier::external_body]
pub(crate) fn open_in_place(cipher: &Cipher, nonce: &[u8; 12], buffer: &mut Vec<u8>) -> (r: Result<
    (),
    aes_gcm::Error,
>)
    ensures
        r is Ok <==> aes128_gcm_open(cipher_key(*cipher), nonce@, old(buffer)@) is Some,
        r is Ok ==> aes128_gcm_open(cipher_key(*cipher), nonce@, old(buffer)@) == Some(
            final(buffer)@,
        ),
        r is Ok ==> final(buffer)@.len() + TAG_SIZE == old(buffer)@.len(),
{
    cipher.inner.decrypt_in_place(&(*nonce).into(), &[], buffer)
}

/// `rand::make_rng` for `ChaCha8Rng`: a generator seeded from the operating
/// system's entropy source. Nothing is known of its state. It panics where
/// the operating system has no entropy to give, which does not happen
/// outside of early boot.
#[verifier::external_body]
pub(crate) fn fresh_rng() -> ChaCha8Rng {
    rand::make_rng()
}

/// `Generate::generate_from_rng` for an AES-GCM nonce: twelve bytes drawn from
/// the generator, which it advances. Nothing is known of the bytes.
#[verifier::external_body]
pub(crate) fn generate_nonce(rng: &mut ChaCha8Rng) -> [u8; 12] {
    Nonce::<Aes128Gcm>::generate_from_rng(rng).into()
}

} // verus!
