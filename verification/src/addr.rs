//! Addresses of the simulated network: IP addresses, socket addresses and
//! transport protocols, held as plain integers.

use vstd::prelude::*;

verus! {

/// An IP address, either version 4 or version 6.
///
/// The payload is the address as one big-endian integer: `10.0.0.1` is
/// `V4(0x0a00_0001)` and `::1` is `V6(1)`.
#[derive(Debug, Clone, Copy, PartialEq, Eq, Structural, Hash)]
pub enum IpAddr {
    /// A version 4 address of 32 bits.
    V4(u32),
    /// A version 6 address of 128 bits.
    V6(u128),
}

/// The 32-bit value of the dotted address `a.b.c.d`.
pub open spec fn v4_bits(a: u8, b: u8, c: u8, d: u8) -> int {
    a * 0x100_0000 + b * 0x1_0000 + c * 0x100 + d
}

impl IpAddr {
    /// The version 4 address `a.b.c.d`.
    pub fn v4(a: u8, b: u8, c: u8, d: u8) -> (ip: IpAddr)
        ensures
            ip == IpAddr::V4(v4_bits(a, b, c, d) as u32),
            v4_bits(a, b, c, d) <= u32::MAX,
    {
        let hi: u32 = a as u32 * 0x100_0000 + b as u32 * 0x1_0000;
        let lo: u32 = c as u32 * 0x100 + d as u32;
        IpAddr::V4(hi + lo)
    }

    /// The version 4 loopback address `127.0.0.1`.
    pub open spec fn spec_localhost() -> IpAddr {
        IpAddr::V4(0x7f00_0001)
    }

    /// The version 4 loopback address `127.0.0.1`.
    #[verifier::when_used_as_spec(spec_localhost)]
    pub fn localhost() -> (ip: IpAddr)
        ensures
            ip == Self::spec_localhost(),
    {
        IpAddr::V4(0x7f00_0001)
    }

    /// The version 4 wildcard address `0.0.0.0`.
    pub open spec fn spec_unspecified() -> IpAddr {
        IpAddr::V4(0)
    }

    /// The version 4 wildcard address `0.0.0.0`.
    #[verifier::when_used_as_spec(spec_unspecified)]
    pub fn unspecified() -> (ip: IpAddr)
        ensures
            ip == Self::spec_unspecified(),
    {
        IpAddr::V4(0)
    }

    /// Whether this is a loopback address: any of `127.0.0.0/8`, or `::1`.
    pub open spec fn spec_is_loopback(&self) -> bool {
        match *self {
            IpAddr::V4(bits) => bits / 0x100_0000 == 127,
            IpAddr::V6(bits) => bits == 1,
        }
    }

    /// Whether this is a loopback address: any of `127.0.0.0/8`, or `::1`.
    #[verifier::when_used_as_spec(spec_is_loopback)]
    pub fn is_loopback(&self) -> (b: bool)
        ensures
            b == self.spec_is_loopback(),
    {
        match *self {
            IpAddr::V4(bits) => bits / 0x100_0000 == 127,
            IpAddr::V6(bits) => bits == 1,
        }
    }

    /// Whether this is the wildcard address: `0.0.0.0` or `::`.
    pub open spec fn spec_is_unspecified(&self) -> bool {
        match *self {
            IpAddr::V4(bits) => bits == 0,
            IpAddr::V6(bits) => bits == 0,
        }
    }

    /// Whether this is the wildcard address: `0.0.0.0` or `::`.
    #[verifier::when_used_as_spec(spec_is_unspecified)]
    pub fn is_unspecified(&self) -> (b: bool)
        ensures
            b == self.spec_is_unspecified(),
    {
        match *self {
            IpAddr::V4(bits) => bits == 0,
            IpAddr::V6(bits) => bits == 0,
        }
    }
}

/// The address of a socket: an IP address and a port.
///
/// Port `0` asks `bind` for an ephemeral port.
#[derive(Debug, Clone, Copy, PartialEq, Eq, Structural, Hash)]
pub struct SocketAddr {
    /// The IP address.
    pub ip: IpAddr,
    /// The port.
    pub port: u16,
}

impl SocketAddr {
    /// The socket address `ip:port`.
    pub fn new(ip: IpAddr, port: u16) -> (addr: SocketAddr)
        ensures
            addr == (SocketAddr { ip, port }),
    {
        SocketAddr { ip, port }
    }

    /// The IP address.
    pub fn ip(&self) -> (ip: IpAddr)
        ensures
            ip == self.ip,
    {
        self.ip
    }

    /// The port.
    pub fn port(&self) -> (port: u16)
        ensures
            port == self.port,
    {
        self.port
    }

    /// Replaces the port and keeps the IP address.
    pub fn set_port(&mut self, port: u16)
        ensures
            *final(self) == (SocketAddr { ip: old(self).ip, port }),
    {
        self.port = port;
    }
}

/// Transport protocol of a socket.
#[non_exhaustive]
#[derive(Debug, Clone, Copy, PartialEq, Eq, Structural, Hash)]
pub enum IpProtocol {
    /// Stream transport.
    Tcp,
    /// Datagram transport.
    Udp,
}

} // verus!
