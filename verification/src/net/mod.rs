//! Endpoints, transport protocols and the parameters of one tunnel attempt,
//! with the functions that resolve which endpoints an attempt talks to.

use vstd::prelude::*;
use vstd::std_specs::convert::FromSpecImpl;
use vstd::string::*;

pub mod address;
pub mod network;
pub mod openvpn;
pub mod proxy;
pub mod wireguard;

use self::address::{IpAddress, SocketAddress};
pub use self::network::all_of_the_internet;
use self::proxy::ProxyEndpoint;

verus! {

/// Representation of a transport protocol, either UDP or TCP.
#[derive(Debug, Clone, Copy, PartialEq, Eq, Hash, Structural)]
pub enum TransportProtocol {
    /// Represents the UDP transport protocol.
    Udp,
    /// Represents the TCP transport protocol.
    Tcp,
}

/// Returned when a text does not name a [`TransportProtocol`].
#[derive(Debug, Clone, Copy, PartialEq, Eq, Structural)]
pub struct TransportProtocolParseError;

/// The protocol that a text names: only the exact lower-case words `udp`
/// and `tcp` name one.
pub open spec fn parsed_transport_protocol(s: Seq<char>) -> Option<TransportProtocol> {
    if s == seq!['u', 'd', 'p'] {
        Some(TransportProtocol::Udp)
    } else if s == seq!['t', 'c', 'p'] {
        Some(TransportProtocol::Tcp)
    } else {
        None
    }
}

impl TransportProtocol {
    /// The text shown for the protocol.
    pub open spec fn text(self) -> Seq<char> {
        match self {
            TransportProtocol::Udp => seq!['U', 'D', 'P'],
            TransportProtocol::Tcp => seq!['T', 'C', 'P'],
        }
    }

    /// The name of the protocol as it is written in configuration and in
    /// serialized data: lower case.
    pub open spec fn name(self) -> Seq<char> {
        match self {
            TransportProtocol::Udp => seq!['u', 'd', 'p'],
            TransportProtocol::Tcp => seq!['t', 'c', 'p'],
        }
    }

    /// `udp` or `tcp`: the text that [`TransportProtocol::from_str`] reads.
    pub fn as_str(&self) -> (result: &'static str)
        ensures
            result@ == self.name(),
    {
        proof {
            reveal_strlit("udp");
            reveal_strlit("tcp");
        }
        let result = match self {
            TransportProtocol::Udp => "udp",
            TransportProtocol::Tcp => "tcp",
        };
        assert(result@ =~= self.name());
        result
    }

    /// A protocol is read back from its name, and no other text is read as
    /// that protocol.
    pub proof fn lemma_name_round_trip(self, s: Seq<char>)
        ensures
            parsed_transport_protocol(self.name()) == Some(self),
            parsed_transport_protocol(s) == Some(self) <==> s == self.name(),
    {
        assert(seq!['u', 'd', 'p'][0] != seq!['t', 'c', 'p'][0]);
    }

    /// Parses `udp` or `tcp`; any other text is an error.
    pub fn from_str(s: &str) -> (result: Result<TransportProtocol, TransportProtocolParseError>)
        ensures
            result == match parsed_transport_protocol(s@) {
                Some(protocol) => Ok::<TransportProtocol, TransportProtocolParseError>(protocol),
                None => Err(TransportProtocolParseError),
            },
    {
        if s.unicode_len() != 3 {
            return Err(TransportProtocolParseError);
        }
        let first = s.get_char(0);
        let second = s.get_char(1);
        let third = s.get_char(2);
        if first == 'u' && second == 'd' && third == 'p' {
            assert(s@ =~= seq!['u', 'd', 'p']);
            Ok(TransportProtocol::Udp)
        } else if first == 't' && second == 'c' && third == 'p' {
            assert(s@ =~= seq!['t', 'c', 'p']);
            Ok(TransportProtocol::Tcp)
        } else {
            Err(TransportProtocolParseError)
        }
    }

    /// `UDP` or `TCP`.
    pub fn to_string(&self) -> (result: String)
        ensures
            result@ == self.text(),
    {
        proof {
            reveal_strlit("UDP");
            reveal_strlit("TCP");
        }
        let result = match self {
            TransportProtocol::Udp => String::from_str("UDP"),
            TransportProtocol::Tcp => String::from_str("TCP"),
        };
        assert(result@ =~= self.text());
        result
    }
}

impl TransportProtocolParseError {
    /// The text shown for the error.
    pub open spec fn text() -> Seq<char> {
        "Not a valid transport protocol"@
    }

    /// The message of the error.
    pub fn to_string(&self) -> (result: String)
        ensures
            result@ == Self::text(),
    {
        String::from_str("Not a valid transport protocol")
    }
}

/// IP protocol version.
#[derive(Debug, Clone, Copy, PartialEq, Eq, Structural)]
pub enum IpVersion {
    V4,
    V6,
}

impl Default for IpVersion {
    fn default() -> (result: IpVersion)
        ensures
            result == IpVersion::V4,
    {
        IpVersion::V4
    }
}

impl IpVersion {
    /// The text shown for the version.
    pub open spec fn text(self) -> Seq<char> {
        match self {
            IpVersion::V4 => "IPv4"@,
            IpVersion::V6 => "IPv6"@,
        }
    }

    /// `IPv4` or `IPv6`.
    pub fn to_string(&self) -> (result: String)
        ensures
            result@ == self.text(),
    {
        match self {
            IpVersion::V4 => String::from_str("IPv4"),
            IpVersion::V6 => String::from_str("IPv6"),
        }
    }
}

/// Represents a network layer IP address together with the transport layer
/// protocol and port.
#[derive(Debug, Clone, Copy, PartialEq, Eq, Hash, Structural)]
pub struct Endpoint {
    /// The socket address for the endpoint.
    pub address: SocketAddress,
    /// The protocol part of this endpoint.
    pub protocol: TransportProtocol,
}

impl Endpoint {
    /// Constructs a new `Endpoint` from the given parameters.
    pub fn new(address: IpAddress, port: u16, protocol: TransportProtocol) -> (result: Endpoint)
        ensures
            result == (Endpoint { address: SocketAddress { ip: address, port }, protocol }),
    {
        Endpoint { address: SocketAddress::new(address, port), protocol }
    }

    /// Constructs an `Endpoint` from a socket address and a protocol.
    pub fn from_socket_address(address: SocketAddress, protocol: TransportProtocol) -> (result:
        Endpoint)
        ensures
            result == (Endpoint { address, protocol }),
    {
        Endpoint { address, protocol }
    }

    /// The text shown for the endpoint, given the text of its address:
    /// the address, ` over ` and the protocol.
    pub open spec fn text(self, address: Seq<char>) -> Seq<char> {
        address + " over "@ + self.protocol.text()
    }

    /// Renders the endpoint as `<address> over <PROTOCOL>`. The caller
    /// supplies the rendered socket address.
    pub fn to_string(&self, address: &str) -> (result: String)
        ensures
            result@ == self.text(address@),
    {
        let mut result = String::from_str(address);
        result.append(" over ");
        let protocol = self.protocol.to_string();
        result.append(protocol.as_str());
        result
    }
}

/// The tunnel protocol used by a [`TunnelEndpoint`].
#[derive(Debug, Clone, Copy, PartialEq, Eq, Hash, Structural)]
pub enum TunnelType {
    OpenVpn,
    Wireguard,
}

impl TunnelType {
    /// The text shown for the tunnel protocol.
    pub open spec fn text(self) -> Seq<char> {
        match self {
            TunnelType::OpenVpn => "OpenVPN"@,
            TunnelType::Wireguard => "WireGuard"@,
        }
    }

    /// `OpenVPN` or `WireGuard`.
    pub fn to_string(&self) -> (result: String)
        ensures
            result@ == self.text(),
    {
        match self {
            TunnelType::OpenVpn => String::from_str("OpenVPN"),
            TunnelType::Wireguard => String::from_str("WireGuard"),
        }
    }
}

/// A tunnel endpoint is broadcast during the connecting and connected states
/// of the tunnel state machine.
#[derive(Debug, Clone, Copy, PartialEq, Eq, Hash, Structural)]
pub struct TunnelEndpoint {
    pub endpoint: Endpoint,
    pub tunnel_type: TunnelType,
    pub proxy: Option<ProxyEndpoint>,
    pub entry_endpoint: Option<Endpoint>,
}

impl TunnelEndpoint {
    /// What follows the endpoint in the text: the hop that the traffic goes
    /// through first, if there is one. For OpenVPN that is the proxy, for
    /// WireGuard the entry endpoint; `via` is the text of that hop's address.
    pub open spec fn via_text(self, via: Seq<char>) -> Seq<char> {
        match self.tunnel_type {
            TunnelType::OpenVpn => match self.proxy {
                Some(proxy) => " via "@ + proxy.proxy_type.text() + " "@ + proxy.endpoint.text(
                    via,
                ),
                None => Seq::empty(),
            },
            TunnelType::Wireguard => match self.entry_endpoint {
                Some(entry) => " via "@ + entry.text(via),
                None => Seq::empty(),
            },
        }
    }

    /// The text shown for the tunnel endpoint.
    pub open spec fn text(self, address: Seq<char>, via: Seq<char>) -> Seq<char> {
        self.tunnel_type.text() + " - "@ + self.endpoint.text(address) + self.via_text(via)
    }

    /// Renders the tunnel endpoint as `<tunnel type> - <endpoint>`, followed
    /// for OpenVPN through a proxy by ` via <proxy type> <proxy endpoint>`
    /// and for WireGuard multihop by ` via <entry endpoint>`. The caller
    /// supplies the rendered socket address of the endpoint, and in `via`
    /// that of the proxy or entry endpoint (unused where there is none).
    pub fn to_string(&self, address: &str, via: &str) -> (result: String)
        ensures
            result@ == self.text(address@, via@),
    {
        let mut result = self.tunnel_type.to_string();
        result.append(" - ");
        let endpoint = self.endpoint.to_string(address);
        result.append(endpoint.as_str());
        match self.tunnel_type {
            TunnelType::OpenVpn => {
                if let Some(proxy) = self.proxy {
                    let mut tail = String::from_str(" via ");
                    let proxy_type = proxy.proxy_type.to_string();
                    tail.append(proxy_type.as_str());
                    tail.append(" ");
                    let hop = proxy.endpoint.to_string(via);
                    tail.append(hop.as_str());
                    result.append(tail.as_str());
                } else {
                    assert(result@ + Seq::<char>::empty() =~= result@);
                }
            },
            TunnelType::Wireguard => {
                if let Some(entry) = self.entry_endpoint {
                    let mut tail = String::from_str(" via ");
                    let hop = entry.to_string(via);
                    tail.append(hop.as_str());
                    result.append(tail.as_str());
                } else {
                    assert(result@ + Seq::<char>::empty() =~= result@);
                }
            },
        }
        result
    }
}

/// Holds optional settings that can apply to different kinds of tunnels.
#[derive(Debug, Clone, Copy, PartialEq, Eq, Hash, Structural)]
pub struct GenericTunnelOptions {
    /// Enable configuration of IPv6 on the tunnel interface, allowing IPv6
    /// communication to be forwarded through the tunnel.
    pub enable_ipv6: bool,
}

/// Everything needed to start one tunnel attempt, for either tunnel protocol.
#[derive(Debug, Clone, PartialEq, Eq)]
pub enum TunnelParameters {
    OpenVpn(openvpn::TunnelParameters),
    Wireguard(wireguard::TunnelParameters),
}

impl TunnelParameters {
    /// What observers are told the attempt connects to.
    ///
    /// OpenVPN: the configured server, with the proxy's endpoint where a
    /// proxy is configured, and never an entry endpoint. WireGuard: with an
    /// exit peer, the exit peer's endpoint, entered through the entry
    /// peer's; without one, the entry peer's endpoint alone. WireGuard never
    /// has a proxy.
    pub open spec fn tunnel_endpoint(self) -> TunnelEndpoint {
        match self {
            TunnelParameters::OpenVpn(params) => TunnelEndpoint {
                tunnel_type: TunnelType::OpenVpn,
                endpoint: params.config.endpoint,
                proxy: match params.proxy {
                    Some(proxy) => Some(proxy.endpoint()),
                    None => None,
                },
                entry_endpoint: None,
            },
            TunnelParameters::Wireguard(params) => match params.connection.exit_endpoint() {
                Some(exit) => TunnelEndpoint {
                    tunnel_type: TunnelType::Wireguard,
                    endpoint: exit,
                    proxy: None,
                    entry_endpoint: Some(params.connection.entry_endpoint()),
                },
                None => TunnelEndpoint {
                    tunnel_type: TunnelType::Wireguard,
                    endpoint: params.connection.entry_endpoint(),
                    proxy: None,
                    entry_endpoint: None,
                },
            },
        }
    }

    /// The endpoint that is dialed first: for OpenVPN the proxy where one is
    /// configured and else the server, for WireGuard the entry peer.
    pub open spec fn next_hop_endpoint(self) -> Endpoint {
        match self {
            TunnelParameters::OpenVpn(params) => match params.proxy {
                Some(proxy) => proxy.endpoint().endpoint,
                None => params.config.endpoint,
            },
            TunnelParameters::Wireguard(params) => params.connection.entry_endpoint(),
        }
    }

    /// The endpoint that traffic leaves through where that is not the next
    /// hop: the exit peer of a WireGuard multihop connection.
    pub open spec fn exit_hop_endpoint(self) -> Option<Endpoint> {
        match self {
            TunnelParameters::OpenVpn(_) => None,
            TunnelParameters::Wireguard(params) => params.connection.exit_endpoint(),
        }
    }

    /// The options that do not depend on the tunnel protocol.
    pub open spec fn generic_options(self) -> GenericTunnelOptions {
        match self {
            TunnelParameters::OpenVpn(params) => params.generic_options,
            TunnelParameters::Wireguard(params) => params.generic_options,
        }
    }

    /// Whether traffic passes through two chained peers.
    pub open spec fn is_multihop(self) -> bool {
        self.exit_hop_endpoint() is Some
    }

    /// Returns the endpoint that is reported for this attempt.
    pub fn get_tunnel_endpoint(&self) -> (result: TunnelEndpoint)
        ensures
            result == self.tunnel_endpoint(),
    {
        match self {
            TunnelParameters::OpenVpn(params) => TunnelEndpoint {
                tunnel_type: TunnelType::OpenVpn,
                endpoint: params.config.endpoint,
                proxy: match &params.proxy {
                    Some(proxy) => Some(proxy.get_endpoint()),
                    None => None,
                },
                entry_endpoint: None,
            },
            TunnelParameters::Wireguard(params) => {
                let entry = params.connection.get_endpoint();
                match params.connection.get_exit_endpoint() {
                    Some(exit) => TunnelEndpoint {
                        tunnel_type: TunnelType::Wireguard,
                        endpoint: exit,
                        proxy: None,
                        entry_endpoint: Some(entry),
                    },
                    None => TunnelEndpoint {
                        tunnel_type: TunnelType::Wireguard,
                        endpoint: entry,
                        proxy: None,
                        entry_endpoint: None,
                    },
                }
            },
        }
    }

    /// Returns the endpoint that will be connected to.
    pub fn get_next_hop_endpoint(&self) -> (result: Endpoint)
        ensures
            result == self.next_hop_endpoint(),
    {
        match self {
            TunnelParameters::OpenVpn(params) => match &params.proxy {
                Some(proxy) => proxy.get_endpoint().endpoint,
                None => params.config.endpoint,
            },
            TunnelParameters::Wireguard(params) => params.connection.get_endpoint(),
        }
    }

    /// Returns the exit endpoint, if it differs from the next hop endpoint.
    pub fn get_exit_hop_endpoint(&self) -> (result: Option<Endpoint>)
        ensures
            result == self.exit_hop_endpoint(),
    {
        match self {
            TunnelParameters::OpenVpn(_) => None,
            TunnelParameters::Wireguard(params) => params.connection.get_exit_endpoint(),
        }
    }

    /// Returns the options that apply whatever the tunnel protocol is.
    pub fn get_generic_options(&self) -> (result: &GenericTunnelOptions)
        ensures
            *result == self.generic_options(),
    {
        match self {
            TunnelParameters::OpenVpn(params) => &params.generic_options,
            TunnelParameters::Wireguard(params) => &params.generic_options,
        }
    }

    /// An OpenVPN attempt is never multihop: it has no exit hop, and the
    /// endpoint reported for it has no entry endpoint.
    pub proof fn lemma_openvpn_is_single_hop(self)
        requires
            self is OpenVpn,
        ensures
            self.exit_hop_endpoint() is None,
            self.tunnel_endpoint().entry_endpoint is None,
            self.tunnel_endpoint().tunnel_type == TunnelType::OpenVpn,
            self.tunnel_endpoint().endpoint == self->OpenVpn_0.config.endpoint,
    {
    }

    /// A WireGuard attempt with an exit peer is multihop: the exit hop and
    /// the reported endpoint are the exit peer's endpoint, the reported entry
    /// endpoint and the next hop are the entry peer's.
    pub proof fn lemma_wireguard_multihop(self, exit_peer: wireguard::PeerConfig)
        requires
            self is Wireguard,
            self->Wireguard_0.connection.exit_peer == Some(exit_peer),
        ensures
            self.exit_hop_endpoint() == Some(exit_peer.endpoint()),
            self.tunnel_endpoint().endpoint == exit_peer.endpoint(),
            self.tunnel_endpoint().entry_endpoint == Some(
                self->Wireguard_0.connection.peer.endpoint(),
            ),
            self.next_hop_endpoint() == self->Wireguard_0.connection.peer.endpoint(),
            self.tunnel_endpoint().proxy is None,
    {
    }

    /// A WireGuard attempt without an exit peer is single-hop: there is no
    /// exit hop and no entry endpoint, and the reported endpoint is the
    /// entry peer's.
    pub proof fn lemma_wireguard_single_hop(self)
        requires
            self is Wireguard,
            self->Wireguard_0.connection.exit_peer is None,
        ensures
            self.exit_hop_endpoint() is None,
            self.tunnel_endpoint().endpoint == self->Wireguard_0.connection.peer.endpoint(),
            self.tunnel_endpoint().entry_endpoint is None,
            self.next_hop_endpoint() == self.tunnel_endpoint().endpoint,
            self.tunnel_endpoint().proxy is None,
    {
    }

    /// The next hop of an OpenVPN attempt is the proxy's endpoint where a
    /// proxy is configured, and the server's endpoint where none is.
    pub proof fn lemma_openvpn_next_hop(self)
        requires
            self is OpenVpn,
        ensures
            self->OpenVpn_0.proxy is Some ==> self.next_hop_endpoint()
                == self->OpenVpn_0.proxy->Some_0.endpoint,
            self->OpenVpn_0.proxy is Some ==> self.tunnel_endpoint().proxy == Some(
                self->OpenVpn_0.proxy->Some_0.endpoint(),
            ),
            self->OpenVpn_0.proxy is None ==> self.next_hop_endpoint()
                == self->OpenVpn_0.config.endpoint,
            self->OpenVpn_0.proxy is None ==> self.tunnel_endpoint().proxy is None,
    {
    }

    /// The reported endpoint has an entry endpoint exactly where there is an
    /// exit hop, and the exit hop is then the reported endpoint, entered
    /// through the next hop. The reported tunnel type is that of the
    /// parameters, and every endpoint of a WireGuard attempt is a UDP
    /// endpoint.
    pub proof fn lemma_multihop_is_decided_by_exit_hop(self)
        ensures
            self.tunnel_endpoint().tunnel_type == TunnelType::OpenVpn <==> self is OpenVpn,
            self.tunnel_endpoint().tunnel_type == TunnelType::Wireguard <==> self is Wireguard,
            !self.is_multihop() ==> self.tunnel_endpoint().endpoint == match self {
                TunnelParameters::OpenVpn(params) => params.config.endpoint,
                TunnelParameters::Wireguard(params) => params.connection.entry_endpoint(),
            },
            self.tunnel_endpoint().entry_endpoint is Some <==> self.is_multihop(),
            self.is_multihop() ==> self.exit_hop_endpoint() == Some(
                self.tunnel_endpoint().endpoint,
            ),
            self.is_multihop() ==> self.tunnel_endpoint().entry_endpoint == Some(
                self.next_hop_endpoint(),
            ),
            self is Wireguard ==> self.next_hop_endpoint().protocol == TransportProtocol::Udp
                && self.tunnel_endpoint().endpoint.protocol == TransportProtocol::Udp,
    {
    }
}

impl From<openvpn::TunnelParameters> for TunnelParameters {
    fn from(params: openvpn::TunnelParameters) -> (result: TunnelParameters) {
        TunnelParameters::OpenVpn(params)
    }
}

impl FromSpecImpl<openvpn::TunnelParameters> for TunnelParameters {
    open spec fn obeys_from_spec() -> bool {
        true
    }

    open spec fn from_spec(params: openvpn::TunnelParameters) -> TunnelParameters {
        TunnelParameters::OpenVpn(params)
    }
}

impl From<wireguard::TunnelParameters> for TunnelParameters {
    fn from(params: wireguard::TunnelParameters) -> (result: TunnelParameters) {
        TunnelParameters::Wireguard(params)
    }
}

impl FromSpecImpl<wireguard::TunnelParameters> for TunnelParameters {
    open spec fn obeys_from_spec() -> bool {
        true
    }

    open spec fn from_spec(params: wireguard::TunnelParameters) -> TunnelParameters {
        TunnelParameters::Wireguard(params)
    }
}

} // verus!
