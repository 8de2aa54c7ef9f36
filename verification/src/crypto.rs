//! The encryption engine: AES-128-GCM under a fresh random nonce for every
//! message, and the framing of ciphertext, tag and nonce on the wire.
//!
//! A datagram of `n` bytes is laid out as
//!
//! ```text
//! 0 .. n-28     ciphertext, as long as the plaintext
//! n-28 .. n-12  authentication tag, 16 bytes
//! n-12 .. n     nonce, 12 bytes
//! ```
//!
//! Nonces are 96 random bits. Two messages under one key may draw the same
//! nonce, which breaks both secrecy and authenticity for them; the chance
//! becomes noticeable once about 2^48 messages were sent under one key.
//! This is a known limit of the design.

use crate::cipher::{
    aes128_gcm_open, aes128_gcm_seal, cipher_clone, cipher_key, cipher_new, fresh_rng,
    generate_nonce, open_in_place, seal_in_place, Cipher, MAX_PLAINTEXT_LEN, NONCE_SIZE,
    TAG_SIZE,
};
use crate::error::CryptoError;
use crate::key::Key;
use rand_chacha::ChaCha8Rng;
use vstd::prelude::*;

verus! {

/// The nonce that a datagram carries: its last 12 bytes.
pub open spec fn nonce_of(datagram: Seq<u8>) -> Seq<u8> {
    datagram.subrange(datagram.len() - NONCE_SIZE, datagram.len() as int)
}

/// What a datagram carries before its nonce: ciphertext and tag.
pub open spec fn sealed_of(datagram: Seq<u8>) -> Seq<u8> {
    datagram.subrange(0, datagram.len() - NONCE_SIZE)
}

/// A plaintext of this length can be encrypted: the cipher takes it, and the
/// datagram still fits in memory.
pub open spec fn encryptable(len: nat) -> bool {
    len <= MAX_PLAINTEXT_LEN && len + TAG_SIZE + NONCE_SIZE <= isize::MAX
}

/// `datagram` is the encryption of `plaintext` under `key` with `nonce`:
/// what the cipher makes of the plaintext, 16 bytes longer than it and such
/// that the cipher opens it again, followed by the nonce.
pub open spec fn encrypts_to(
    key: Seq<u8>,
    nonce: Seq<u8>,
    plaintext: Seq<u8>,
    datagram: Seq<u8>,
) -> bool {
    let sealed = aes128_gcm_seal(key, nonce, plaintext);
    &&& nonce.len() == NONCE_SIZE
    &&& sealed.len() == plaintext.len() + TAG_SIZE
    &&& aes128_gcm_open(key, nonce, sealed) == Some(plaintext)
    &&& datagram == sealed + nonce
}

/// The plaintext that a datagram decrypts to under `key`, or `None` where
/// it is refused: for being shorter than tag and nonce together, or by the
/// cipher.
pub open spec fn decrypted(key: Seq<u8>, datagram: Seq<u8>) -> Option<Seq<u8>> {
    if datagram.len() < TAG_SIZE + NONCE_SIZE {
        None
    } else {
        aes128_gcm_open(key, nonce_of(datagram), sealed_of(datagram))
    }
}

/// The layout on the wire: the encryption of a plaintext is 28 bytes longer
/// than it, ends in the nonce, and holds before it what the cipher made of
/// the plaintext.
pub proof fn lemma_layout(key: Seq<u8>, nonce: Seq<u8>, plaintext: Seq<u8>, datagram: Seq<u8>)
    requires
        encrypts_to(key, nonce, plaintext, datagram),
    ensures
        datagram.len() == plaintext.len() + 28,
        nonce_of(datagram) == nonce,
        sealed_of(datagram) == aes128_gcm_seal(key, nonce, plaintext),
{
    assert(nonce_of(datagram) =~= nonce);
    assert(sealed_of(datagram) =~= aes128_gcm_seal(key, nonce, plaintext));
}

/// Decryption undoes encryption: a datagram that is the encryption of a
/// plaintext under a key decrypts to that plaintext under the same key,
/// whatever the nonce was.
pub proof fn lemma_round_trip(key: Seq<u8>, nonce: Seq<u8>, plaintext: Seq<u8>, datagram: Seq<u8>)
    requires
        encrypts_to(key, nonce, plaintext, datagram),
    ensures
        decrypted(key, datagram) == Some(plaintext),
{
    lemma_layout(key, nonce, plaintext, datagram);
}

/// The stateful engine: a cipher context made from one key, and the random
/// generator that nonces are drawn from.
pub struct Crypto {
    cipher: Cipher,
    csprng: ChaCha8Rng,
}

impl Crypto {
    /// AES-128-GCM tag size in bytes
    pub const TAG_SIZE: usize = 16;

    /// AES-128-GCM nonce size in bytes
    pub const NONCE_SIZE: usize = 12;

    /// Minimum buffer length in bytes for an encrypted message (tag + nonce)
    pub const MINIMUM_BUFFER_LENGTH: usize = Self::TAG_SIZE + Self::NONCE_SIZE;

    /// The key that the engine encrypts and decrypts under.
    pub closed spec fn key(&self) -> Seq<u8> {
        cipher_key(self.cipher)
    }

    /// Makes an engine for the key, with a generator freshly seeded from the
    /// operating system.
    pub fn new(key: Key) -> (crypto: Crypto)
        ensures
            crypto.key() == key@,
    {
        Crypto { cipher: cipher_new(key.as_bytes()), csprng: fresh_rng() }
    }

    /// Encrypts the buffer in place under the given nonce, and appends tag
    /// and nonce to it.
    ///
    /// A nonce must never be used for two messages under one key: `encrypt`
    /// draws a fresh one for each call, and is what callers want.
    pub fn encrypt_with_nonce(&self, nonce: &[u8; 12], buffer: &mut Vec<u8>) -> (r: Result<
        (),
        CryptoError,
    >)
        ensures
            r is Ok <==> encryptable(old(buffer)@.len()),
            r is Ok ==> encrypts_to(self.key(), nonce@, old(buffer)@, final(buffer)@),
            r is Err ==> final(buffer)@ == old(buffer)@,
    {
        if buffer.len() > isize::MAX as usize - Self::MINIMUM_BUFFER_LENGTH {
            return Err(CryptoError);
        }
        match seal_in_place(&self.cipher, nonce, buffer) {
            Ok(()) => {},
            Err(e) => {
                return Err(CryptoError::from(e));
            },
        }
        buffer.extend_from_slice(nonce.as_slice());
        assert(buffer@ =~= aes128_gcm_seal(self.key(), nonce@, old(buffer)@) + nonce@);
        Ok(())
    }

    /// Encrypts the buffer in place under a nonce drawn from the engine's
    /// generator: on success the buffer holds ciphertext, tag and nonce, 28
    /// bytes more than before. It fails only on a plaintext that is too long
    /// for the cipher or for the datagram to fit in memory, and then leaves
    /// the buffer as it was.
    pub fn encrypt(&mut self, buffer: &mut Vec<u8>) -> (r: Result<(), CryptoError>)
        ensures
            final(self).key() == old(self).key(),
            r is Ok <==> encryptable(old(buffer)@.len()),
            r is Ok ==> exists|nonce: Seq<u8>|
                encrypts_to(old(self).key(), nonce, old(buffer)@, final(buffer)@),
            r is Ok ==> final(buffer)@.len() == old(buffer)@.len() + 28,
            r is Ok ==> decrypted(old(self).key(), final(buffer)@) == Some(old(buffer)@),
            r is Err ==> final(buffer)@ == old(buffer)@,
    {
        let nonce = generate_nonce(&mut self.csprng);
        let r = self.encrypt_with_nonce(&nonce, buffer);
        proof {
            if r is Ok {
                lemma_round_trip(self.key(), nonce@, old(buffer)@, buffer@);
            }
        }
        r
    }

    /// Decrypts the buffer in place: on success it holds the plaintext, 28
    /// bytes less than before. A buffer shorter than 28 bytes is refused
    /// before the cipher sees it, and is left as it was; after any other
    /// failure the buffer holds nothing of meaning.
    pub fn decrypt(&mut self, buffer: &mut Vec<u8>) -> (r: Result<(), CryptoError>)
        ensures
            *final(self) == *old(self),
            r is Ok <==> decrypted(old(self).key(), old(buffer)@) is Some,
            r is Ok ==> decrypted(old(self).key(), old(buffer)@) == Some(final(buffer)@),
            r is Ok ==> final(buffer)@.len() + 28 == old(buffer)@.len(),
            old(buffer)@.len() < 28 ==> r is Err && final(buffer)@ == old(buffer)@,
    {
        let len = buffer.len();
        if len < Self::MINIMUM_BUFFER_LENGTH {
            return Err(CryptoError);
        }
        let mut nonce = [0u8; 12];
        let mut i: usize = 0;
        while i < 12
            invariant
                i <= 12,
                len == buffer@.len(),
                len >= 28,
                forall|j: int| 0 <= j < i ==> nonce@[j] == buffer@[len - 12 + j],
            decreases 12 - i,
        {
            nonce[i] = buffer[len - Self::NONCE_SIZE + i];
            i += 1;
        }
        assert(nonce@ =~= nonce_of(buffer@));
        buffer.truncate(len - Self::NONCE_SIZE);
        assert(buffer@ =~= sealed_of(old(buffer)@));
        match open_in_place(&self.cipher, &nonce, buffer) {
            Ok(()) => Ok(()),
            Err(e) => Err(CryptoError::from(e)),
        }
    }
}

impl Clone for Crypto {
    /// A second engine for the same key, with a generator of its own,
    /// freshly seeded: the two never share a nonce sequence.
    fn clone(&self) -> (copy: Crypto)
        ensures
            copy.key() == self.key(),
    {
        Crypto { cipher: cipher_clone(&self.cipher), csprng: fresh_rng() }
    }
}

} // verus!
