//! What a relay publishes about its tunnel endpoints.

use vstd::prelude::*;

use crate::net::address::{Ipv4Address, Ipv6Address};
use crate::net::TransportProtocol;

verus! {

/// Data needed to connect to the OpenVPN endpoint of a relay.
#[derive(Debug, Clone, Copy, PartialEq, Eq, Hash, Structural)]
pub struct OpenVpnEndpointData {
    pub port: u16,
    pub protocol: TransportProtocol,
}

/// Data needed to connect to the WireGuard endpoint of a relay.
#[derive(Debug, Clone, Copy, PartialEq, Eq, Hash)]
pub struct WireguardEndpointData {
    /// Port to connect to.
    pub port: u16,
    /// Gateways to be used with the tunnel.
    pub ipv4_gateway: Ipv4Address,
    pub ipv6_gateway: Ipv6Address,
    /// The public key of the peer.
    pub public_key: [u8; 32],
}

} // verus!
