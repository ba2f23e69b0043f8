//! Peer addresses.

use vstd::prelude::*;
use crate::octets::digits;

verus! {

/// A network endpoint: an IP address and a port.
///
/// The address is an opaque key to the detector.  It is compared by value,
/// so two endpoints are the same peer exactly when family, address and port
/// agree.
#[allow(inconsistent_fields)]
#[derive(Clone, Copy, Debug, PartialEq, Eq, PartialOrd, Ord, Hash, Structural)]
pub enum PeerAddr {
    /// An IPv4 endpoint; `ip` is the four octets of the address as one
    /// number, the first octet most significant.
    V4 { ip: u32, port: u16 },
    /// An IPv6 endpoint; `ip` is the sixteen octets of the address as one
    /// number, the first octet most significant.
    V6 { ip: u128, port: u16 },
}

impl PeerAddr {
    /// The IPv4 endpoint `a.b.c.d:port`.
    pub fn v4(a: u8, b: u8, c: u8, d: u8, port: u16) -> (addr: Self)
        ensures
            addr == (PeerAddr::V4 {
                ip: digits(0x100, a as int, b as int, c as int, d as int) as u32,
                port,
            }),
            digits(0x100, a as int, b as int, c as int, d as int) <= u32::MAX,
    {
        let high: u32 = a as u32 * 0x100_0000 + b as u32 * 0x1_0000;
        let low: u32 = c as u32 * 0x100 + d as u32;
        PeerAddr::V4 { ip: high + low, port }
    }

    /// The IPv6 endpoint with the given 128-bit address and port.
    pub fn v6(ip: u128, port: u16) -> (addr: Self)
        ensures
            addr == (PeerAddr::V6 { ip, port }),
    {
        PeerAddr::V6 { ip, port }
    }

    /// The port of the endpoint.
    pub open spec fn spec_port(&self) -> u16 {
        match *self {
            PeerAddr::V4 { port, .. } => port,
            PeerAddr::V6 { port, .. } => port,
        }
    }

    /// The port of the endpoint.
    #[verifier::when_used_as_spec(spec_port)]
    pub fn port(&self) -> (p: u16)
        ensures
            p == self.spec_port(),
    {
        match self {
            PeerAddr::V4 { port, .. } => *port,
            PeerAddr::V6 { port, .. } => *port,
        }
    }

    /// Whether the endpoint is an IPv4 endpoint.
    pub fn is_ipv4(&self) -> (v4: bool)
        ensures
            v4 == (*self is V4),
    {
        match self {
            PeerAddr::V4 { .. } => true,
            PeerAddr::V6 { .. } => false,
        }
    }
}

} // verus!
