//! IP addresses and socket addresses as plain integers.

use vstd::prelude::*;

verus! {

/// An IPv4 address, held as its 32 bits in network order: `1.2.3.4` is
/// `0x01020304`.
#[derive(Debug, Clone, Copy, PartialEq, Eq, Hash, Structural)]
pub struct Ipv4Address {
    pub bits: u32,
}

/// An IPv6 address, held as its 128 bits in network order.
#[derive(Debug, Clone, Copy, PartialEq, Eq, Hash, Structural)]
pub struct Ipv6Address {
    pub bits: u128,
}

/// An address of either IP version.
#[derive(Debug, Clone, Copy, PartialEq, Eq, Hash, Structural)]
pub enum IpAddress {
    V4(Ipv4Address),
    V6(Ipv6Address),
}

/// An IP address together with a port.
#[derive(Debug, Clone, Copy, PartialEq, Eq, Hash, Structural)]
pub struct SocketAddress {
    pub ip: IpAddress,
    pub port: u16,
}

/// The 32 bits of the address written `a.b.c.d`.
pub open spec fn ipv4_bits(a: u8, b: u8, c: u8, d: u8) -> int {
    a * 0x100_0000 + b * 0x1_0000 + c * 0x100 + d
}

impl Ipv4Address {
    /// The address `a.b.c.d`.
    pub fn new(a: u8, b: u8, c: u8, d: u8) -> (result: Ipv4Address)
        ensures
            result.bits == ipv4_bits(a, b, c, d),
    {
        let high: u32 = (a as u32) * 0x100_0000 + (b as u32) * 0x1_0000;
        let low: u32 = (c as u32) * 0x100 + (d as u32);
        Ipv4Address { bits: high + low }
    }

    /// The address `0.0.0.0`.
    pub fn unspecified() -> (result: Ipv4Address)
        ensures
            result.bits == 0,
    {
        Ipv4Address { bits: 0 }
    }

    /// The four octets, first one first.
    pub fn octets(&self) -> (result: (u8, u8, u8, u8))
        ensures
            self.bits == ipv4_bits(result.0, result.1, result.2, result.3),
    {
        let a: u32 = self.bits / 0x100_0000;
        let b: u32 = (self.bits / 0x1_0000) % 0x100;
        let c: u32 = (self.bits / 0x100) % 0x100;
        let d: u32 = self.bits % 0x100;
        (a as u8, b as u8, c as u8, d as u8)
    }
}

impl Ipv6Address {
    /// The address `::`.
    pub fn unspecified() -> (result: Ipv6Address)
        ensures
            result.bits == 0,
    {
        Ipv6Address { bits: 0 }
    }
}

impl IpAddress {
    /// The longest prefix a network of this address family can have.
    pub open spec fn max_prefix(self) -> int {
        match self {
            IpAddress::V4(_) => 32,
            IpAddress::V6(_) => 128,
        }
    }
}

impl SocketAddress {
    /// The socket address made of `ip` and `port`.
    pub fn new(ip: IpAddress, port: u16) -> (result: SocketAddress)
        ensures
            result == (SocketAddress { ip, port }),
    {
        SocketAddress { ip, port }
    }

    /// The IP address.
    pub fn ip(&self) -> (result: IpAddress)
        ensures
            result == self.ip,
    {
        self.ip
    }

    /// The port.
    pub fn port(&self) -> (result: u16)
        ensures
            result == self.port,
    {
        self.port
    }
}

} // verus!
