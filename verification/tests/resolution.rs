use talpid_types::endpoint::MullvadEndpoint;
use talpid_types::net::address::{IpAddress, Ipv4Address, Ipv6Address, SocketAddress};
use talpid_types::net::openvpn;
use talpid_types::net::proxy::{ProxyEndpoint, ProxyType};
use talpid_types::net::wireguard;
use talpid_types::net::{
    all_of_the_internet, Endpoint, GenericTunnelOptions, TransportProtocol, TunnelEndpoint,
    TunnelParameters, TunnelType,
};

fn v4(a: u8, b: u8, c: u8, d: u8) -> IpAddress {
    IpAddress::V4(Ipv4Address::new(a, b, c, d))
}

fn server() -> Endpoint {
    Endpoint::new(v4(1, 2, 3, 4), 1194, TransportProtocol::Udp)
}

fn socks() -> Endpoint {
    Endpoint::new(v4(127, 0, 0, 1), 1080, TransportProtocol::Tcp)
}

fn openvpn_params(proxy: Option<openvpn::ProxySettings>) -> TunnelParameters {
    TunnelParameters::from(openvpn::TunnelParameters {
        config: openvpn::ConnectionConfig { endpoint: server() },
        generic_options: GenericTunnelOptions { enable_ipv6: false },
        proxy,
    })
}

fn peer(last: u8, port: u16) -> wireguard::PeerConfig {
    wireguard::PeerConfig {
        public_key: [last; 32],
        allowed_ips: all_of_the_internet(),
        endpoint: SocketAddress::new(v4(10, 0, 0, last), port),
    }
}

fn wireguard_params(exit_peer: Option<wireguard::PeerConfig>) -> TunnelParameters {
    TunnelParameters::from(wireguard::TunnelParameters {
        connection: wireguard::ConnectionConfig {
            peer: peer(1, 51820),
            exit_peer,
            ipv4_gateway: Ipv4Address::new(10, 64, 0, 1),
            ipv6_gateway: Some(Ipv6Address { bits: 1 }),
        },
        generic_options: GenericTunnelOptions { enable_ipv6: true },
    })
}

#[test]
fn openvpn_without_proxy_dials_the_server() {
    let params = openvpn_params(None);
    let reported = params.get_tunnel_endpoint();
    assert_eq!(reported.endpoint, server());
    assert_eq!(reported.proxy, None);
    assert_eq!(reported.entry_endpoint, None);
    assert_eq!(reported.tunnel_type, TunnelType::OpenVpn);
    assert_eq!(params.get_next_hop_endpoint(), server());
    assert_eq!(params.get_exit_hop_endpoint(), None);
}

#[test]
fn openvpn_with_proxy_dials_the_proxy() {
    let params = openvpn_params(Some(openvpn::ProxySettings {
        endpoint: socks(),
        proxy_type: ProxyType::Custom,
    }));
    let reported = params.get_tunnel_endpoint();
    assert_eq!(params.get_next_hop_endpoint(), socks());
    assert_eq!(reported.endpoint, server());
    assert_eq!(
        reported.proxy,
        Some(ProxyEndpoint { endpoint: socks(), proxy_type: ProxyType::Custom })
    );
    assert_eq!(reported.proxy.map(|proxy| proxy.endpoint), Some(socks()));
    assert_eq!(reported.entry_endpoint, None);
    assert_eq!(params.get_exit_hop_endpoint(), None);
}

#[test]
fn proxy_settings_give_their_endpoint() {
    let settings = openvpn::ProxySettings { endpoint: socks(), proxy_type: ProxyType::Shadowsocks };
    assert_eq!(
        settings.get_endpoint(),
        ProxyEndpoint { endpoint: socks(), proxy_type: ProxyType::Shadowsocks }
    );
}

#[test]
fn wireguard_single_hop_reports_the_entry_peer() {
    let params = wireguard_params(None);
    let entry = Endpoint::new(v4(10, 0, 0, 1), 51820, TransportProtocol::Udp);
    assert_eq!(
        params.get_tunnel_endpoint(),
        TunnelEndpoint {
            endpoint: entry,
            tunnel_type: TunnelType::Wireguard,
            proxy: None,
            entry_endpoint: None,
        }
    );
    assert_eq!(params.get_next_hop_endpoint(), entry);
    assert_eq!(params.get_exit_hop_endpoint(), None);
}

#[test]
fn wireguard_multihop_reports_the_exit_peer() {
    let params = wireguard_params(Some(peer(2, 443)));
    let entry = Endpoint::new(v4(10, 0, 0, 1), 51820, TransportProtocol::Udp);
    let exit = Endpoint::new(v4(10, 0, 0, 2), 443, TransportProtocol::Udp);
    assert_eq!(
        params.get_tunnel_endpoint(),
        TunnelEndpoint {
            endpoint: exit,
            tunnel_type: TunnelType::Wireguard,
            proxy: None,
            entry_endpoint: Some(entry),
        }
    );
    assert_eq!(params.get_next_hop_endpoint(), entry);
    assert_eq!(params.get_exit_hop_endpoint(), Some(exit));
}

#[test]
fn wireguard_connection_endpoints_are_udp() {
    let connection = wireguard::ConnectionConfig {
        peer: peer(7, 1000),
        exit_peer: Some(peer(8, 2000)),
        ipv4_gateway: Ipv4Address::unspecified(),
        ipv6_gateway: None,
    };
    assert_eq!(
        connection.get_endpoint(),
        Endpoint::new(v4(10, 0, 0, 7), 1000, TransportProtocol::Udp)
    );
    assert_eq!(
        connection.get_exit_endpoint(),
        Some(Endpoint::new(v4(10, 0, 0, 8), 2000, TransportProtocol::Udp))
    );
}

#[test]
fn generic_options_come_from_either_variant() {
    assert_eq!(
        openvpn_params(None).get_generic_options(),
        &GenericTunnelOptions { enable_ipv6: false }
    );
    assert_eq!(
        wireguard_params(None).get_generic_options(),
        &GenericTunnelOptions { enable_ipv6: true }
    );
}

#[test]
fn conversions_pick_the_matching_variant() {
    assert!(matches!(openvpn_params(None), TunnelParameters::OpenVpn(_)));
    assert!(matches!(wireguard_params(None), TunnelParameters::Wireguard(_)));
}

#[test]
fn mullvad_endpoint_of_openvpn_is_the_endpoint() {
    let tcp = Endpoint::new(v4(1, 2, 3, 4), 443, TransportProtocol::Tcp);
    assert_eq!(MullvadEndpoint::OpenVpn(tcp).to_endpoint(), tcp);
}

#[test]
fn mullvad_endpoint_of_wireguard_is_the_entry_peer_over_udp() {
    let endpoint = MullvadEndpoint::Wireguard {
        peer: peer(1, 51820),
        exit_peer: Some(peer(2, 443)),
        ipv4_gateway: Ipv4Address::new(10, 64, 0, 1),
        ipv6_gateway: Ipv6Address::unspecified(),
    };
    assert_eq!(
        endpoint.to_endpoint(),
        Endpoint {
            address: SocketAddress { ip: v4(10, 0, 0, 1), port: 51820 },
            protocol: TransportProtocol::Udp,
        }
    );
}

#[test]
fn endpoint_constructors_agree() {
    let address = SocketAddress::new(v4(192, 168, 1, 1), 53);
    assert_eq!(
        Endpoint::from_socket_address(address, TransportProtocol::Tcp),
        Endpoint::new(v4(192, 168, 1, 1), 53, TransportProtocol::Tcp)
    );
    assert_eq!(address.ip(), v4(192, 168, 1, 1));
    assert_eq!(address.port(), 53);
}
