//! Socket addresses held as plain values: the parts of an address that
//! routing and scheduling decisions read.

use vstd::prelude::*;

verus! {

/// An IP address: four octets for IPv4, sixteen for IPv6.
#[derive(Clone, Copy, Debug, PartialEq, Eq, Hash)]
pub enum IpAddress {
    V4([u8; 4]),
    V6([u8; 16]),
}

/// An IP address with a port; for IPv6 also the flow information and the
/// scope id, which are zero for IPv4.
#[derive(Clone, Copy, Debug, PartialEq, Eq, Hash)]
pub struct SocketAddress {
    pub ip: IpAddress,
    pub port: u16,
    pub flowinfo: u32,
    pub scope_id: u32,
}

/// The addresses a datagram or a connection was exchanged between.
#[derive(Clone, Copy, Debug, PartialEq, Eq, Hash)]
pub struct PacketMeta {
    pub peer_addr: Option<SocketAddress>,
    pub local_addr: Option<SocketAddress>,
}

impl Default for PacketMeta {
    fn default() -> (res: Self)
        ensures
            res.peer_addr is None,
            res.local_addr is None,
    {
        PacketMeta { peer_addr: None, local_addr: None }
    }
}

/// The octets of an IP address.
pub open spec fn spec_octets(ip: IpAddress) -> Seq<u8> {
    match ip {
        IpAddress::V4(o) => o@,
        IpAddress::V6(o) => o@,
    }
}

/// Whether every octet of the address is zero (`0.0.0.0` or `::`).
pub open spec fn spec_is_unspecified(ip: IpAddress) -> bool {
    forall|i: int| 0 <= i < spec_octets(ip).len() ==> spec_octets(ip)[i] == 0
}

/// The loopback address of the same family: `127.0.0.1` or `::1`.
pub open spec fn spec_loopback(ip: IpAddress) -> IpAddress {
    match ip {
        IpAddress::V4(_) => IpAddress::V4([127u8, 0u8, 0u8, 1u8]),
        IpAddress::V6(_) => IpAddress::V6(
            [0u8, 0u8, 0u8, 0u8, 0u8, 0u8, 0u8, 0u8, 0u8, 0u8, 0u8, 0u8, 0u8, 0u8, 0u8, 1u8],
        ),
    }
}

impl IpAddress {
    /// Whether this is an IPv4 address.
    pub fn is_ipv4(&self) -> (res: bool)
        ensures
            res == (*self is V4),
    {
        match self {
            IpAddress::V4(_) => true,
            IpAddress::V6(_) => false,
        }
    }

    /// Whether this is the unspecified address of its family.
    pub fn is_unspecified(&self) -> (res: bool)
        ensures
            res == spec_is_unspecified(*self),
    {
        match self {
            IpAddress::V4(o) => {
                let mut i: usize = 0;
                while i < 4
                    invariant
                        i <= 4,
                        spec_octets(*self) == o@,
                        forall|j: int| 0 <= j < i ==> o@[j] == 0,
                    decreases 4 - i,
                {
                    if o[i] != 0 {
                        assert(spec_octets(*self)[i as int] != 0);
                        return false;
                    }
                    i = i + 1;
                }
                true
            },
            IpAddress::V6(o) => {
                let mut i: usize = 0;
                while i < 16
                    invariant
                        i <= 16,
                        spec_octets(*self) == o@,
                        forall|j: int| 0 <= j < i ==> o@[j] == 0,
                    decreases 16 - i,
                {
                    if o[i] != 0 {
                        assert(spec_octets(*self)[i as int] != 0);
                        return false;
                    }
                    i = i + 1;
                }
                true
            },
        }
    }
}

/// The address to reach a listener bound to `addr` from this host: the
/// address itself, or, when it is bound to the unspecified address, the
/// loopback address of its family with the same port and no flow
/// information or scope.
pub open spec fn spec_wake_addr(addr: SocketAddress) -> SocketAddress {
    if spec_is_unspecified(addr.ip) {
        SocketAddress { ip: spec_loopback(addr.ip), port: addr.port, flowinfo: 0, scope_id: 0 }
    } else {
        addr
    }
}

/// Computes the address at which a local listener bound to `addr` can be
/// reached to wake it.
pub fn wake_addr(addr: SocketAddress) -> (res: SocketAddress)
    ensures
        res == spec_wake_addr(addr),
{
    if !addr.ip.is_unspecified() {
        return addr;
    }
    match addr.ip {
        IpAddress::V4(_) => SocketAddress {
            ip: IpAddress::V4([127u8, 0u8, 0u8, 1u8]),
            port: addr.port,
            flowinfo: 0,
            scope_id: 0,
        },
        IpAddress::V6(_) => SocketAddress {
            ip: IpAddress::V6(
                [0u8, 0u8, 0u8, 0u8, 0u8, 0u8, 0u8, 0u8, 0u8, 0u8, 0u8, 0u8, 0u8, 0u8, 0u8, 1u8],
            ),
            port: addr.port,
            flowinfo: 0,
            scope_id: 0,
        },
    }
}

} // verus!
