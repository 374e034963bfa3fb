//! Socket addresses as plain values.
//!
//! The proxy routes by `(address, protocol)` keys, so addresses are compared
//! and hashed by value.  An IPv4 address is its 32-bit value, an IPv6 address
//! its 128-bit value.

use vstd::prelude::*;

verus! {

/// An IP address, by value.
#[derive(Clone, Copy, Debug, PartialEq, Eq, Hash, Structural)]
pub enum IpAddr {
    /// The 32 bits of an IPv4 address, most significant octet first.
    V4(u32),
    /// The 128 bits of an IPv6 address, most significant group first.
    V6(u128),
}

/// An (IP, port) pair; compared and hashed by value.
#[derive(Clone, Copy, Debug, PartialEq, Eq, Hash, Structural)]
pub struct SockAddr {
    pub ip: IpAddr,
    pub port: u16,
}

impl SockAddr {
    /// Builds an IPv4 socket address from its four octets and a port.
    pub fn v4(a: u8, b: u8, c: u8, d: u8, port: u16) -> (r: SockAddr)
        ensures
            r.ip == IpAddr::V4(((a as u32) << 24 | (b as u32) << 16 | (c as u32) << 8
                | (d as u32)) as u32),
            r.port == port,
    {
        SockAddr {
            ip: IpAddr::V4((a as u32) << 24 | (b as u32) << 16 | (c as u32) << 8 | (d as u32)),
            port,
        }
    }
}

/// A controller location: a host name and a port, not yet resolved.
#[derive(Clone, Debug)]
pub struct HostAndPort {
    pub host: String,
    pub port: u16,
}

} // verus!
