//! Socket addresses as the handler chain sees them.
//!
//! A filter keys its decisions on the full remote address of the inbound
//! connection: the host together with the port. Two addresses are the same
//! only when both parts agree.

use vstd::prelude::*;

verus! {

/// The host part of a remote address: an IPv4 address as its four octets,
/// or an IPv6 address as its 128-bit value.
#[derive(Clone, Copy, PartialEq, Eq, Structural, Debug)]
pub enum HostAddr {
    V4(u8, u8, u8, u8),
    V6(u128),
}

/// The remote peer of an inbound connection: host and port.
///
/// Equality is exact over both parts; an admission list treats
/// `127.0.0.1:9000` and `127.0.0.1:9001` as different callers.
#[derive(Clone, Copy, PartialEq, Eq, Structural, Debug)]
pub struct SockAddr {
    pub host: HostAddr,
    pub port: u16,
}

impl SockAddr {
    /// The IPv4 address `a.b.c.d` with the given port.
    pub fn v4(a: u8, b: u8, c: u8, d: u8, port: u16) -> (addr: SockAddr)
        ensures
            addr == (SockAddr { host: HostAddr::V4(a, b, c, d), port }),
    {
        SockAddr { host: HostAddr::V4(a, b, c, d), port }
    }

    /// The IPv6 address with the given 128-bit value and port.
    pub fn v6(ip: u128, port: u16) -> (addr: SockAddr)
        ensures
            addr == (SockAddr { host: HostAddr::V6(ip), port }),
    {
        SockAddr { host: HostAddr::V6(ip), port }
    }
}

} // verus!
