//! IP networks: an address and the length of its prefix.

use vstd::prelude::*;

use super::address::{IpAddress, Ipv4Address, Ipv6Address};

verus! {

/// An IP network in CIDR form.
#[derive(Debug, Clone, Copy, PartialEq, Eq, Hash, Structural)]
pub struct IpNetwork {
    pub address: IpAddress,
    pub prefix: u8,
}

/// Returned when a prefix is longer than the address it belongs to.
#[derive(Debug, Clone, Copy, PartialEq, Eq, Structural)]
pub struct InvalidPrefix;

/// Calls `ipnetwork::Ipv4Network::new`, which accepts a prefix of at most 32
/// bits and then keeps the address and the prefix as they were given; a
/// longer prefix is its `InvalidPrefix` error, reported here as `None`.
#[verifier::external_body]
fn ipv4_network(address: Ipv4Address, prefix: u8) -> (result: Option<IpNetwork>)
    ensures
        prefix <= 32 ==> result == Some(IpNetwork { address: IpAddress::V4(address), prefix }),
        prefix > 32 ==> result is None,
{
    match ipnetwork::Ipv4Network::new(address.bits.into(), prefix) {
        Ok(network) => Some(
            IpNetwork {
                address: IpAddress::V4(Ipv4Address { bits: network.ip().into() }),
                prefix: network.prefix(),
            },
        ),
        Err(_) => None,
    }
}

/// Calls `ipnetwork::Ipv6Network::new`, which accepts a prefix of at most 128
/// bits and then keeps the address and the prefix as they were given; a
/// longer prefix is its `InvalidPrefix` error, reported here as `None`.
#[verifier::external_body]
fn ipv6_network(address: Ipv6Address, prefix: u8) -> (result: Option<IpNetwork>)
    ensures
        prefix <= 128 ==> result == Some(IpNetwork { address: IpAddress::V6(address), prefix }),
        prefix > 128 ==> result is None,
{
    match ipnetwork::Ipv6Network::new(address.bits.into(), prefix) {
        Ok(network) => Some(
            IpNetwork {
                address: IpAddress::V6(Ipv6Address { bits: network.ip().into() }),
                prefix: network.prefix(),
            },
        ),
        Err(_) => None,
    }
}

impl IpNetwork {
    /// The prefix is no longer than an address of the family.
    pub open spec fn wf(self) -> bool {
        self.prefix <= self.address.max_prefix()
    }

    /// The network of `address` with a prefix of `prefix` bits. A prefix of
    /// more than 32 bits for IPv4, or 128 for IPv6, is refused.
    pub fn new(address: IpAddress, prefix: u8) -> (result: Result<IpNetwork, InvalidPrefix>)
        ensures
            prefix <= address.max_prefix() ==> result == Ok::<IpNetwork, InvalidPrefix>(
                IpNetwork { address, prefix },
            ),
            prefix > address.max_prefix() ==> result is Err,
            result is Ok ==> result->Ok_0.wf(),
    {
        let made = match address {
            IpAddress::V4(v4) => ipv4_network(v4, prefix),
            IpAddress::V6(v6) => ipv6_network(v6, prefix),
        };
        match made {
            Some(network) => Ok(network),
            None => Err(InvalidPrefix),
        }
    }

    /// The address that the network was made with.
    pub fn ip(&self) -> (result: IpAddress)
        ensures
            result == self.address,
    {
        self.address
    }

    /// The length of the prefix in bits.
    pub fn prefix(&self) -> (result: u8)
        ensures
            result == self.prefix,
    {
        self.prefix
    }
}

/// The two networks that together hold every address: `0.0.0.0/0` and `::/0`.
pub open spec fn the_internet() -> Seq<IpNetwork> {
    seq![
        IpNetwork { address: IpAddress::V4(Ipv4Address { bits: 0 }), prefix: 0 },
        IpNetwork { address: IpAddress::V6(Ipv6Address { bits: 0 }), prefix: 0 },
    ]
}

/// Returns the IP networks that represent all of the internet, `0.0.0.0/0`
/// and `::/0`. As the allowed addresses of a WireGuard peer they route all
/// traffic to the tunnel.
pub fn all_of_the_internet() -> (result: Vec<IpNetwork>)
    ensures
        result@ == the_internet(),
        forall|i: int| 0 <= i < result@.len() ==> (#[trigger] result@[i]).wf(),
{
    let v4 = IpNetwork::new(IpAddress::V4(Ipv4Address::unspecified()), 0);
    let v6 = IpNetwork::new(IpAddress::V6(Ipv6Address::unspecified()), 0);
    let mut result = Vec::new();
    result.push(v4.unwrap());
    result.push(v6.unwrap());
    assert(result@ =~= the_internet());
    result
}

} // verus!
