//! What a WireGuard tunnel attempt is started with.

use vstd::prelude::*;

use super::address::{Ipv4Address, Ipv6Address, SocketAddress};
use super::network::IpNetwork;
use super::{Endpoint, GenericTunnelOptions, TransportProtocol};

verus! {

/// One WireGuard peer.
#[derive(Debug, Clone, PartialEq, Eq, Hash)]
pub struct PeerConfig {
    /// The public key of the peer.
    pub public_key: [u8; 32],
    /// The networks whose traffic is routed to the peer.
    pub allowed_ips: Vec<IpNetwork>,
    /// Where the peer is reached.
    pub endpoint: SocketAddress,
}

/// The peers of a connection: the entry peer, which is dialed, and for
/// multihop the exit peer behind it.
#[derive(Debug, Clone, PartialEq, Eq, Hash)]
pub struct ConnectionConfig {
    pub peer: PeerConfig,
    pub exit_peer: Option<PeerConfig>,
    /// Gateway of the tunnel for IPv4.
    pub ipv4_gateway: Ipv4Address,
    /// Gateway of the tunnel for IPv6, where the relay has one.
    pub ipv6_gateway: Option<Ipv6Address>,
}

impl PeerConfig {
    /// The endpoint of the peer. WireGuard runs over UDP only.
    pub open spec fn endpoint(self) -> Endpoint {
        Endpoint { address: self.endpoint, protocol: TransportProtocol::Udp }
    }
}

impl ConnectionConfig {
    /// The endpoint of the entry peer.
    pub open spec fn entry_endpoint(self) -> Endpoint {
        self.peer.endpoint()
    }

    /// The endpoint of the exit peer, where there is one.
    pub open spec fn exit_endpoint(self) -> Option<Endpoint> {
        match self.exit_peer {
            Some(exit_peer) => Some(exit_peer.endpoint()),
            None => None,
        }
    }

    /// The endpoint of the entry peer: a UDP endpoint at the peer's address.
    pub fn get_endpoint(&self) -> (result: Endpoint)
        ensures
            result == self.entry_endpoint(),
    {
        Endpoint::from_socket_address(self.peer.endpoint, TransportProtocol::Udp)
    }

    /// The endpoint of the exit peer, where the connection is multihop.
    pub fn get_exit_endpoint(&self) -> (result: Option<Endpoint>)
        ensures
            result == self.exit_endpoint(),
    {
        match &self.exit_peer {
            Some(exit_peer) => Some(
                Endpoint::from_socket_address(exit_peer.endpoint, TransportProtocol::Udp),
            ),
            None => None,
        }
    }
}

/// Everything needed to start a WireGuard tunnel.
#[derive(Debug, Clone, PartialEq, Eq, Hash)]
pub struct TunnelParameters {
    pub connection: ConnectionConfig,
    pub generic_options: GenericTunnelOptions,
}

} // verus!
