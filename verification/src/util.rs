//! The unspecified address of each family, and the classification of
//! transport errors into the recoveries that make sense for them.

use crate::address::SocketAddress;
use std::io::{Error, ErrorKind};
use vstd::prelude::*;

verus! {

/// Returns an unspecified address with the same IP version as the input.
pub fn to_unspecified(addr: SocketAddress) -> (unspecified: SocketAddress)
    ensures
        unspecified == addr.unspecified(),
        unspecified.is_unspecified(),
        unspecified.same_family(addr),
{
    match addr {
        SocketAddress::V4 { .. } => SocketAddress::V4 { ip: 0, port: 0 },
        SocketAddress::V6 { .. } => SocketAddress::V6 { ip: 0, port: 0, flowinfo: 0, scope_id: 0 },
    }
}

/// Returns `true` if the address is unspecified (0.0.0.0 or ::).
pub fn is_unspecified(addr: SocketAddress) -> (unspecified: bool)
    ensures
        unspecified == addr.is_unspecified(),
{
    match addr {
        SocketAddress::V4 { ip, .. } => ip == 0,
        SocketAddress::V6 { ip, .. } => ip == 0,
    }
}

/// The kinds of I/O failure that the classification tells apart. Every other
/// kind that the platform may report is `Other`.
#[derive(Debug, Clone, Copy, PartialEq, Eq, Structural, Hash)]
pub enum IoErrorKind {
    WouldBlock,
    TimedOut,
    Interrupted,
    ConnectionReset,
    ConnectionAborted,
    ConnectionRefused,
    NotConnected,
    NetworkDown,
    AddrInUse,
    AddrNotAvailable,
    HostUnreachable,
    NetworkUnreachable,
    BrokenPipe,
    UnexpectedEof,
    Other,
}

/// `std::io::Error` carries the platform's failure; the library reads only
/// its kind.
#[verifier::external_type_specification]
#[verifier::external_body]
pub struct ExIoError(Error);

/// The kind that `std::io::Error::kind` reports for an error.
pub uninterp spec fn io_error_kind(error: Error) -> IoErrorKind;

/// `std::io::Error::kind`, with each kind of the standard library that the
/// classification knows carried over under its own name, and every other
/// kind as `Other`.
#[verifier::external_body]
fn kind_of(error: &Error) -> (kind: IoErrorKind)
    ensures
        kind == io_error_kind(*error),
{
    match error.kind() {
        ErrorKind::WouldBlock => IoErrorKind::WouldBlock,
        ErrorKind::TimedOut => IoErrorKind::TimedOut,
        ErrorKind::Interrupted => IoErrorKind::Interrupted,
        ErrorKind::ConnectionReset => IoErrorKind::ConnectionReset,
        ErrorKind::ConnectionAborted => IoErrorKind::ConnectionAborted,
        ErrorKind::ConnectionRefused => IoErrorKind::ConnectionRefused,
        ErrorKind::NotConnected => IoErrorKind::NotConnected,
        ErrorKind::HostUnreachable => IoErrorKind::HostUnreachable,
        ErrorKind::NetworkDown => IoErrorKind::NetworkDown, ErrorKind::NetworkUnreachable => IoErrorKind::NetworkUnreachable,
        ErrorKind::AddrInUse => IoErrorKind::AddrInUse, ErrorKind::AddrNotAvailable => IoErrorKind::AddrNotAvailable,
        ErrorKind::BrokenPipe => IoErrorKind::BrokenPipe, ErrorKind::UnexpectedEof => IoErrorKind::UnexpectedEof,
        _ => IoErrorKind::Other,
    }
}

/// Whether the same operation may simply be tried again: the call would
/// have blocked, ran out of time, or was interrupted.
pub open spec fn retryable(kind: IoErrorKind) -> bool {
    kind is WouldBlock || kind is TimedOut || kind is Interrupted
}

/// Whether connecting again is the way to recover: everything that can be
/// retried, and the failures of the connection or of the route to the
/// remote side.
pub open spec fn reconnectable(kind: IoErrorKind) -> bool {
    ||| retryable(kind)
    ||| kind is ConnectionReset
    ||| kind is ConnectionAborted
    ||| kind is ConnectionRefused
    ||| kind is NotConnected
    ||| kind is NetworkDown
    ||| kind is AddrInUse
    ||| kind is AddrNotAvailable
    ||| kind is HostUnreachable
    ||| kind is NetworkUnreachable
    ||| kind is BrokenPipe
    ||| kind is UnexpectedEof
}

impl IoErrorKind {
    /// Returns `true` if an error of this kind is a retryable condition.
    pub fn can_retry(self) -> (retry: bool)
        ensures
            retry == retryable(self),
    {
        match self {
            IoErrorKind::WouldBlock => true,
            IoErrorKind::TimedOut => true,
            IoErrorKind::Interrupted => true,
            _ => false,
        }
    }

    /// Returns `true` if an error of this kind is a reconnectable condition.
    pub fn can_reconnect(self) -> (reconnect: bool)
        ensures
            reconnect == reconnectable(self),
    {
        if self.can_retry() {
            return true;
        }
        match self {
            IoErrorKind::ConnectionReset => true,
            IoErrorKind::ConnectionAborted => true,
            IoErrorKind::ConnectionRefused => true,
            IoErrorKind::NotConnected => true,
            IoErrorKind::NetworkDown => true,
            IoErrorKind::AddrInUse => true,
            IoErrorKind::AddrNotAvailable => true,
            IoErrorKind::HostUnreachable => true,
            IoErrorKind::NetworkUnreachable => true,
            IoErrorKind::BrokenPipe => true,
            IoErrorKind::UnexpectedEof => true,
            _ => false,
        }
    }
}

/// Returns `true` if the I/O error indicates a retryable condition:
/// a timeout, an interruption, or a call that would have blocked.
pub fn can_retry(e: &Error) -> (retry: bool)
    ensures
        retry == retryable(io_error_kind(*e)),
{
    kind_of(e).can_retry()
}

/// Returns `true` if the I/O error indicates a reconnectable condition:
/// every retryable error, and the connection-related failures that
/// connecting again may resolve.
pub fn can_reconnect(e: &Error) -> (reconnect: bool)
    ensures
        reconnect == reconnectable(io_error_kind(*e)),
{
    kind_of(e).can_reconnect()
}

/// Whatever can be retried can also be answered by reconnecting.
pub proof fn lemma_retryable_is_reconnectable(kind: IoErrorKind)
    requires
        retryable(kind),
    ensures
        reconnectable(kind),
{
}

} // verus!
