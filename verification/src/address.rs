//! Transport addresses, as plain values.

use vstd::prelude::*;

verus! {

/// The address of a datagram endpoint: an IP address of either family, as
/// the number that its octets spell in network order, and a port. An IPv6
/// address also carries its flow label and scope.
#[derive(Debug, Clone, Copy, PartialEq, Eq, Structural, Hash)]
#[allow(inconsistent_fields)]
pub enum SocketAddress {
    V4 { ip: u32, port: u16 },
    V6 { ip: u128, port: u16, flowinfo: u32, scope_id: u32 },
}

impl SocketAddress {
    /// The unspecified address of this address's family: all zeros, port 0.
    /// A transport whose filter points there is connected to nobody.
    pub open spec fn unspecified(self) -> SocketAddress {
        match self {
            SocketAddress::V4 { .. } => SocketAddress::V4 { ip: 0, port: 0 },
            SocketAddress::V6 { .. } => SocketAddress::V6 {
                ip: 0,
                port: 0,
                flowinfo: 0,
                scope_id: 0,
            },
        }
    }

    /// The IP address is all zeros (`0.0.0.0` or `::`), whatever the port.
    pub open spec fn is_unspecified(self) -> bool {
        match self {
            SocketAddress::V4 { ip, .. } => ip == 0,
            SocketAddress::V6 { ip, .. } => ip == 0,
        }
    }

    /// Both addresses belong to one IP family.
    pub open spec fn same_family(self, other: SocketAddress) -> bool {
        self is V4 <==> other is V4
    }
}

} // verus!
