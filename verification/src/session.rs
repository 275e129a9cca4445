//! Addresses and sessions as the rules and the outbounds see them.
use vstd::prelude::*;

verus! {

/// An IPv4 address, as its 32 bits in network order.
#[derive(Debug, Clone, Copy, PartialEq, Eq, Structural)]
pub struct Ipv4Addr {
    pub bits: u32,
}

/// An IPv6 address, as its 128 bits in network order.
#[derive(Debug, Clone, Copy, PartialEq, Eq, Structural)]
pub struct Ipv6Addr {
    pub bits: u128,
}

/// An IP address of either family.
#[derive(Debug, Clone, Copy, PartialEq, Eq, Structural)]
pub enum IpAddr {
    V4(Ipv4Addr),
    V6(Ipv6Addr),
}

/// An IPv4 address with a port.
#[derive(Debug, Clone, Copy, PartialEq, Eq, Structural)]
pub struct SocketAddrV4 {
    pub ip: Ipv4Addr,
    pub port: u16,
}

/// An IPv6 address with a port, its flow information and its scope.
#[derive(Debug, Clone, Copy, PartialEq, Eq, Structural)]
pub struct SocketAddrV6 {
    pub ip: Ipv6Addr,
    pub port: u16,
    pub flowinfo: u32,
    pub scope_id: u32,
}

/// A socket address of either family.
#[derive(Debug, Clone, Copy, PartialEq, Eq, Structural)]
pub enum SocketAddr {
    V4(SocketAddrV4),
    V6(SocketAddrV6),
}

impl SocketAddr {
    /// The socket address made of `ip` and `port`, with no flow information and no
    /// scope.
    pub open spec fn of(ip: IpAddr, port: u16) -> SocketAddr {
        match ip {
            IpAddr::V4(ip) => SocketAddr::V4(SocketAddrV4 { ip, port }),
            IpAddr::V6(ip) => SocketAddr::V6(
                SocketAddrV6 { ip, port, flowinfo: 0, scope_id: 0 },
            ),
        }
    }

    /// Joins an IP address and a port.
    pub fn new(ip: IpAddr, port: u16) -> (r: SocketAddr)
        ensures
            r == SocketAddr::of(ip, port),
    {
        match ip {
            IpAddr::V4(ip) => SocketAddr::V4(SocketAddrV4 { ip, port }),
            IpAddr::V6(ip) => SocketAddr::V6(
                SocketAddrV6 { ip, port, flowinfo: 0, scope_id: 0 },
            ),
        }
    }
}

/// Where a session goes: a socket address, or a domain name with a port.
#[derive(Debug)]
pub enum SocksAddr {
    Ip(SocketAddr),
    Domain(String, u16),
}

impl Clone for SocksAddr {
    fn clone(&self) -> (r: SocksAddr)
        ensures
            r == *self,
    {
        match self {
            SocksAddr::Ip(addr) => SocksAddr::Ip(*addr),
            SocksAddr::Domain(domain, port) => SocksAddr::Domain(domain.clone(), *port),
        }
    }
}

/// One proxied connection or association, as far as routing and dialling read it.
#[derive(Debug)]
pub struct Session {
    /// The client's address.
    pub source: SocketAddr,
    /// Where the client wants to go.
    pub destination: SocksAddr,
    /// The routing mark that outgoing sockets bear.
    pub so_mark: Option<u32>,
    /// The name of the interface that outgoing sockets are bound to.
    pub iface: Option<String>,
}

/// The unspecified IPv4 address, port 0.
pub open spec fn any_ipv4() -> SocketAddr {
    SocketAddr::V4(SocketAddrV4 { ip: Ipv4Addr { bits: 0 }, port: 0 })
}

impl Default for Session {
    /// A session from nowhere to nowhere, with no socket policy.
    fn default() -> (r: Session)
        ensures
            r.source == any_ipv4(),
            r.destination == SocksAddr::Ip(any_ipv4()),
            r.so_mark is None,
            r.iface is None,
    {
        let any: SocketAddr = SocketAddr::V4(SocketAddrV4 { ip: Ipv4Addr { bits: 0 }, port: 0 });
        Session { source: any, destination: SocksAddr::Ip(any), so_mark: None, iface: None }
    }
}

} // verus!
