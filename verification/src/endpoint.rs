//! The endpoint chosen for one connection attempt, and the relay data that
//! belongs to it.

use vstd::prelude::*;
use vstd::std_specs::convert::{FromSpec, FromSpecImpl};
use vstd::string::*;

use crate::net::address::{Ipv4Address, Ipv6Address};
use crate::net::wireguard::PeerConfig;
use crate::net::{Endpoint, TransportProtocol, TunnelType};
use crate::relay_list::{OpenVpnEndpointData, WireguardEndpointData};

verus! {

/// Contains server data needed to connect to a single endpoint.
#[derive(Debug, Clone)]
pub enum MullvadEndpoint {
    OpenVpn(Endpoint),
    Wireguard {
        peer: PeerConfig,
        exit_peer: Option<PeerConfig>,
        ipv4_gateway: Ipv4Address,
        ipv6_gateway: Ipv6Address,
    },
}

impl MullvadEndpoint {
    /// The endpoint that is dialed: the OpenVPN endpoint itself, or the
    /// address and port of the WireGuard entry peer, always over UDP.
    pub open spec fn endpoint(self) -> Endpoint {
        match self {
            MullvadEndpoint::OpenVpn(endpoint) => endpoint,
            MullvadEndpoint::Wireguard { peer, .. } => Endpoint {
                address: peer.endpoint,
                protocol: TransportProtocol::Udp,
            },
        }
    }

    /// Returns this tunnel endpoint as an `Endpoint`.
    pub fn to_endpoint(&self) -> (result: Endpoint)
        ensures
            result == self.endpoint(),
            self is Wireguard ==> result.protocol == TransportProtocol::Udp,
    {
        match self {
            MullvadEndpoint::OpenVpn(endpoint) => *endpoint,
            MullvadEndpoint::Wireguard { peer, .. } => Endpoint::new(
                peer.endpoint.ip(),
                peer.endpoint.port(),
                TransportProtocol::Udp,
            ),
        }
    }
}

/// Data required to connect to a given tunnel endpoint. Each tunnel protocol
/// has data of its own.
#[derive(Debug, Clone, Copy, PartialEq, Eq, Hash)]
pub enum TunnelEndpointData {
    /// Extra parameters for an OpenVPN tunnel endpoint.
    OpenVpn(OpenVpnEndpointData),
    /// Extra parameters for a WireGuard tunnel endpoint.
    Wireguard(WireguardEndpointData),
}

impl TunnelEndpointData {
    /// The tunnel protocol that the data is for.
    pub open spec fn tunnel_type(self) -> TunnelType {
        match self {
            TunnelEndpointData::OpenVpn(_) => TunnelType::OpenVpn,
            TunnelEndpointData::Wireguard(_) => TunnelType::Wireguard,
        }
    }

    /// The word that the text of the data starts with, with the blank that
    /// follows it.
    pub open spec fn prefix(self) -> Seq<char> {
        match self {
            TunnelEndpointData::OpenVpn(_) => "OpenVPN "@,
            TunnelEndpointData::Wireguard(_) => "Wireguard "@,
        }
    }

    /// Renders the data as the name of its protocol, a blank and the text of
    /// the wrapped data, which the caller supplies.
    pub fn to_string(&self, data: &str) -> (result: String)
        ensures
            result@ == self.prefix() + data@,
    {
        let mut result = match self {
            TunnelEndpointData::OpenVpn(_) => String::from_str("OpenVPN "),
            TunnelEndpointData::Wireguard(_) => String::from_str("Wireguard "),
        };
        result.append(data);
        result
    }

    /// The two conversions into the union lose nothing and never meet:
    /// equal results come from equal data, and OpenVPN data never converts
    /// to what WireGuard data converts to.
    pub proof fn lemma_conversions_are_injective(
        a: OpenVpnEndpointData,
        b: OpenVpnEndpointData,
        c: WireguardEndpointData,
        d: WireguardEndpointData,
    )
        ensures
            <TunnelEndpointData as FromSpec<OpenVpnEndpointData>>::from_spec(a)
                == <TunnelEndpointData as FromSpec<OpenVpnEndpointData>>::from_spec(b) ==> a == b,
            <TunnelEndpointData as FromSpec<WireguardEndpointData>>::from_spec(c)
                == <TunnelEndpointData as FromSpec<WireguardEndpointData>>::from_spec(d) ==> c
                == d,
            <TunnelEndpointData as FromSpec<OpenVpnEndpointData>>::from_spec(a)
                != <TunnelEndpointData as FromSpec<WireguardEndpointData>>::from_spec(c),
            <TunnelEndpointData as FromSpec<OpenVpnEndpointData>>::from_spec(a).tunnel_type()
                == TunnelType::OpenVpn,
            <TunnelEndpointData as FromSpec<WireguardEndpointData>>::from_spec(c).tunnel_type()
                == TunnelType::Wireguard,
    {
    }
}

impl From<OpenVpnEndpointData> for TunnelEndpointData {
    fn from(endpoint_data: OpenVpnEndpointData) -> (result: TunnelEndpointData) {
        TunnelEndpointData::OpenVpn(endpoint_data)
    }
}

impl FromSpecImpl<OpenVpnEndpointData> for TunnelEndpointData {
    open spec fn obeys_from_spec() -> bool {
        true
    }

    open spec fn from_spec(endpoint_data: OpenVpnEndpointData) -> TunnelEndpointData {
        TunnelEndpointData::OpenVpn(endpoint_data)
    }
}

impl From<WireguardEndpointData> for TunnelEndpointData {
    fn from(endpoint_data: WireguardEndpointData) -> (result: TunnelEndpointData) {
        TunnelEndpointData::Wireguard(endpoint_data)
    }
}

impl FromSpecImpl<WireguardEndpointData> for TunnelEndpointData {
    open spec fn obeys_from_spec() -> bool {
        true
    }

    open spec fn from_spec(endpoint_data: WireguardEndpointData) -> TunnelEndpointData {
        TunnelEndpointData::Wireguard(endpoint_data)
    }
}

} // verus!
