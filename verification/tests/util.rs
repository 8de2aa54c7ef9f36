use encrypted_udp::{
    can_reconnect, can_retry, is_unspecified, to_unspecified, IoErrorKind, SocketAddress,
};
use std::io::{Error, ErrorKind};

const LOOPBACK: u32 = 0x7f00_0001;

#[test]
fn retryable_errors() {
    assert!(can_retry(&Error::from(ErrorKind::WouldBlock)));
    assert!(can_retry(&Error::from(ErrorKind::TimedOut)));
    assert!(can_retry(&Error::from(ErrorKind::Interrupted)));
}

#[test]
fn errors_that_are_not_retryable() {
    let kinds = [
        ErrorKind::ConnectionReset,
        ErrorKind::ConnectionAborted,
        ErrorKind::ConnectionRefused,
        ErrorKind::NotConnected,
        ErrorKind::NetworkDown,
        ErrorKind::AddrInUse,
        ErrorKind::AddrNotAvailable,
        ErrorKind::HostUnreachable,
        ErrorKind::NetworkUnreachable,
        ErrorKind::BrokenPipe,
        ErrorKind::UnexpectedEof,
        ErrorKind::Other,
        ErrorKind::InvalidInput,
        ErrorKind::InvalidData,
        ErrorKind::NotFound,
        ErrorKind::PermissionDenied,
    ];
    for kind in kinds {
        assert!(!can_retry(&Error::from(kind)), "{:?}", kind);
    }
}

#[test]
fn reconnectable_errors() {
    let kinds = [
        ErrorKind::WouldBlock,
        ErrorKind::TimedOut,
        ErrorKind::Interrupted,
        ErrorKind::ConnectionReset,
        ErrorKind::ConnectionAborted,
        ErrorKind::ConnectionRefused,
        ErrorKind::NotConnected,
        ErrorKind::NetworkDown,
        ErrorKind::AddrInUse,
        ErrorKind::AddrNotAvailable,
        ErrorKind::HostUnreachable,
        ErrorKind::NetworkUnreachable,
        ErrorKind::BrokenPipe,
        ErrorKind::UnexpectedEof,
    ];
    for kind in kinds {
        assert!(can_reconnect(&Error::from(kind)), "{:?}", kind);
    }
}

#[test]
fn errors_that_are_not_reconnectable() {
    let kinds = [
        ErrorKind::Other,
        ErrorKind::InvalidInput,
        ErrorKind::InvalidData,
        ErrorKind::NotFound,
        ErrorKind::PermissionDenied,
        ErrorKind::AlreadyExists,
        ErrorKind::WriteZero,
        ErrorKind::Unsupported,
        ErrorKind::OutOfMemory,
    ];
    for kind in kinds {
        assert!(!can_reconnect(&Error::from(kind)), "{:?}", kind);
    }
}

#[test]
fn an_error_with_a_payload_goes_by_its_kind() {
    assert!(can_retry(&Error::new(ErrorKind::TimedOut, "no datagram in time")));
    assert!(!can_retry(&Error::new(ErrorKind::Other, "opaque crypto error")));
    assert!(!can_reconnect(&Error::new(ErrorKind::Other, "opaque crypto error")));
    assert!(!can_reconnect(&Error::new(ErrorKind::InvalidInput, "invalid key length")));
}

#[test]
fn kinds_are_classified_as_their_errors_are() {
    let all = [
        IoErrorKind::WouldBlock,
        IoErrorKind::TimedOut,
        IoErrorKind::Interrupted,
        IoErrorKind::ConnectionReset,
        IoErrorKind::ConnectionAborted,
        IoErrorKind::ConnectionRefused,
        IoErrorKind::NotConnected,
        IoErrorKind::NetworkDown,
        IoErrorKind::AddrInUse,
        IoErrorKind::AddrNotAvailable,
        IoErrorKind::HostUnreachable,
        IoErrorKind::NetworkUnreachable,
        IoErrorKind::BrokenPipe,
        IoErrorKind::UnexpectedEof,
        IoErrorKind::Other,
    ];
    let retry: Vec<IoErrorKind> = all.iter().copied().filter(|k| k.can_retry()).collect();
    assert_eq!(
        retry,
        vec![IoErrorKind::WouldBlock, IoErrorKind::TimedOut, IoErrorKind::Interrupted]
    );
    let stay: Vec<IoErrorKind> = all.iter().copied().filter(|k| !k.can_reconnect()).collect();
    assert_eq!(stay, vec![IoErrorKind::Other]);
    for kind in all {
        assert!(!kind.can_retry() || kind.can_reconnect());
    }
}

#[test]
fn unspecified_address_of_each_family() {
    let v4 = SocketAddress::V4 { ip: LOOPBACK, port: 4000 };
    assert_eq!(to_unspecified(v4), SocketAddress::V4 { ip: 0, port: 0 });
    let v6 = SocketAddress::V6 { ip: 1, port: 4000, flowinfo: 7, scope_id: 3 };
    assert_eq!(
        to_unspecified(v6),
        SocketAddress::V6 { ip: 0, port: 0, flowinfo: 0, scope_id: 0 }
    );
    assert!(is_unspecified(to_unspecified(v4)));
    assert!(is_unspecified(to_unspecified(v6)));
    assert_eq!(to_unspecified(to_unspecified(v4)), to_unspecified(v4));
}

#[test]
fn an_address_is_unspecified_by_its_ip_alone() {
    assert!(is_unspecified(SocketAddress::V4 { ip: 0, port: 0 }));
    assert!(is_unspecified(SocketAddress::V4 { ip: 0, port: 5000 }));
    assert!(!is_unspecified(SocketAddress::V4 { ip: LOOPBACK, port: 0 }));
    assert!(!is_unspecified(SocketAddress::V4 { ip: 1, port: 0 }));
    assert!(is_unspecified(SocketAddress::V6 { ip: 0, port: 0, flowinfo: 0, scope_id: 0 }));
    assert!(is_unspecified(SocketAddress::V6 { ip: 0, port: 9, flowinfo: 1, scope_id: 2 }));
    assert!(!is_unspecified(SocketAddress::V6 { ip: 1, port: 0, flowinfo: 0, scope_id: 0 }));
    assert!(!is_unspecified(SocketAddress::V6 {
        ip: 1 << 127,
        port: 0,
        flowinfo: 0,
        scope_id: 0
    }));
}
