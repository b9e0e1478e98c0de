//! IPv4 socket endpoints, and their decoding from the network-byte-order
//! fields of a kernel `sockaddr_in` record.

use vstd::prelude::*;

verus! {

/// A concrete IPv4 socket endpoint: address and port, both in host order.
#[derive(Clone, Copy, PartialEq, Eq, Structural, Debug)]
pub struct SockAddrV4 {
    pub ip: u32,
    pub port: u16,
}

/// The host-order address whose dotted-quad form is `a.b.c.d`.
pub open spec fn ip_of_octets(a: u8, b: u8, c: u8, d: u8) -> u32 {
    (a * 0x1000000 + b * 0x10000 + c * 0x100 + d) as u32
}

/// The host-order port whose network-order (big-endian) bytes are `hi`, `lo`.
pub open spec fn port_of_octets(hi: u8, lo: u8) -> u16 {
    (hi * 0x100 + lo) as u16
}

impl SockAddrV4 {
    /// Builds the endpoint `a.b.c.d:port` from the network-byte-order octets
    /// of a `sockaddr_in`: the four address octets in wire order, then the
    /// two port octets, most significant first.
    pub fn from_be_octets(a: u8, b: u8, c: u8, d: u8, port_hi: u8, port_lo: u8) -> (r: Self)
        ensures
            r.ip == ip_of_octets(a, b, c, d),
            r.port == port_of_octets(port_hi, port_lo),
    {
        SockAddrV4 {
            ip: (a as u32) * 0x1000000 + (b as u32) * 0x10000 + (c as u32) * 0x100 + (d as u32),
            port: (port_hi as u16) * 0x100 + (port_lo as u16),
        }
    }
}

} // verus!
