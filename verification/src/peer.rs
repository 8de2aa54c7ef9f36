//! The peer, without its transport.
//!
//! A peer binds the engine to a datagram endpoint whose connection filter
//! names its one correspondent. The endpoint has no operation to disconnect:
//! a peer is disconnected by pointing the filter at the unspecified address
//! of its family, and counts as connected only while the filter points
//! anywhere else. What is here decides and transforms; whoever owns the
//! endpoint asks it, and hands it the results.

use crate::address::SocketAddress;
use crate::crypto::{decrypted, encryptable, encrypts_to, Crypto};
use crate::error::CryptoError;
use crate::key::Key;
use crate::util::{is_unspecified, to_unspecified};
use vstd::prelude::*;

verus! {

/// The correspondent of a peer whose endpoint reports `peer_addr` as the
/// address its filter points at (`None` where it reports none): that
/// address, unless it is an unspecified one.
pub open spec fn correspondent(peer_addr: Option<SocketAddress>) -> Option<SocketAddress> {
    match peer_addr {
        Some(addr) if !addr.is_unspecified() => Some(addr),
        _ => None,
    }
}

/// The part of a received buffer that holds the datagram: its first
/// `received` bytes, or all of it where it has no more.
pub open spec fn received_part(buffer: Seq<u8>, received: usize) -> Seq<u8> {
    if received <= buffer.len() {
        buffer.subrange(0, received as int)
    } else {
        buffer
    }
}

/// A peer's state apart from its endpoint: the encryption engine.
pub struct Peer {
    crypto: Crypto,
}

impl Peer {
    /// The key that the peer encrypts and decrypts under.
    pub closed spec fn key(&self) -> Seq<u8> {
        self.crypto.key()
    }

    /// Creates a new peer with the given encryption key.
    pub fn new(key: Key) -> (peer: Peer)
        ensures
            peer.key() == key@,
    {
        Peer { crypto: Crypto::new(key) }
    }

    /// Returns the remote address if connected, otherwise `None`, given
    /// what the endpoint reports as its peer address.
    pub fn remote_addr_optional(peer_addr: Option<SocketAddress>) -> (remote: Option<
        SocketAddress,
    >)
        ensures
            remote == correspondent(peer_addr),
    {
        match peer_addr {
            Some(addr) => {
                if !is_unspecified(addr) {
                    Some(addr)
                } else {
                    None
                }
            },
            None => None,
        }
    }

    /// Returns the remote address, or the unspecified address of the local
    /// address's family if not connected.
    pub fn remote_addr(peer_addr: Option<SocketAddress>, local_addr: SocketAddress) -> (remote:
        SocketAddress)
        ensures
            remote == match correspondent(peer_addr) {
                Some(addr) => addr,
                None => local_addr.unspecified(),
            },
    {
        match Peer::remote_addr_optional(peer_addr) {
            Some(addr) => addr,
            None => to_unspecified(local_addr),
        }
    }

    /// Returns the address to point the filter at in order to disconnect:
    /// the unspecified address of the local address's family.
    pub fn disconnect(local_addr: SocketAddress) -> (target: SocketAddress)
        ensures
            target == local_addr.unspecified(),
            correspondent(Some(target)) is None,
    {
        to_unspecified(local_addr)
    }

    /// Encrypts the contents of the buffer for sending: on success the
    /// buffer holds the datagram to hand to the endpoint, 28 bytes longer
    /// than the message.
    pub fn send(&mut self, buffer: &mut Vec<u8>) -> (r: Result<(), CryptoError>)
        ensures
            final(self).key() == old(self).key(),
            r is Ok <==> encryptable(old(buffer)@.len()),
            r is Ok ==> exists|nonce: Seq<u8>|
                encrypts_to(old(self).key(), nonce, old(buffer)@, final(buffer)@),
            r is Ok ==> final(buffer)@.len() == old(buffer)@.len() + 28,
            r is Ok ==> decrypted(old(self).key(), final(buffer)@) == Some(old(buffer)@),
            r is Err ==> final(buffer)@ == old(buffer)@,
    {
        self.crypto.encrypt(buffer)
    }

    /// Decrypts a datagram that the endpoint received into the buffer, of
    /// which it filled the first `received` bytes: the buffer is cut to
    /// that length and decrypted in place.
    pub fn recv(&mut self, buffer: &mut Vec<u8>, received: usize) -> (r: Result<(), CryptoError>)
        ensures
            final(self).key() == old(self).key(),
            r is Ok <==> decrypted(old(self).key(), received_part(old(buffer)@, received)) is Some,
            r is Ok ==> decrypted(old(self).key(), received_part(old(buffer)@, received)) == Some(
                final(buffer)@,
            ),
            received_part(old(buffer)@, received).len() < 28 ==> r is Err,
    {
        buffer.truncate(received);
        self.crypto.decrypt(buffer)
    }
}

impl Clone for Peer {
    /// A second handle on the same peer: the same key, and an engine with a
    /// generator of its own.
    fn clone(&self) -> (copy: Peer)
        ensures
            copy.key() == self.key(),
    {
        Peer { crypto: self.crypto.clone() }
    }
}

/// The filter's sentinel: a peer whose endpoint reports no peer address has
/// no correspondent; once the filter points at an address that is not
/// unspecified, that address is the correspondent; and once it points where
/// `disconnect` says, there is none again.
pub proof fn lemma_connection_sentinel(local_addr: SocketAddress, addr: SocketAddress)
    requires
        !addr.is_unspecified(),
    ensures
        correspondent(None) is None,
        correspondent(Some(addr)) == Some(addr),
        correspondent(Some(local_addr.unspecified())) is None,
{
}

} // verus!
