use talpid_types::endpoint::TunnelEndpointData;
use talpid_types::net::address::{IpAddress, Ipv4Address, Ipv6Address};
use talpid_types::net::network::{InvalidPrefix, IpNetwork};
use talpid_types::net::proxy::{ProxyEndpoint, ProxyType};
use talpid_types::net::{
    all_of_the_internet, Endpoint, IpVersion, TransportProtocol, TransportProtocolParseError,
    TunnelEndpoint, TunnelType,
};
use talpid_types::relay_list::{OpenVpnEndpointData, WireguardEndpointData};

#[test]
fn transport_protocol_parses_lower_case_names() {
    assert_eq!(TransportProtocol::from_str("udp"), Ok(TransportProtocol::Udp));
    assert_eq!(TransportProtocol::from_str("tcp"), Ok(TransportProtocol::Tcp));
}

#[test]
fn transport_protocol_is_read_back_from_its_name() {
    assert_eq!(TransportProtocol::Udp.as_str(), "udp");
    assert_eq!(TransportProtocol::Tcp.as_str(), "tcp");
    for protocol in [TransportProtocol::Udp, TransportProtocol::Tcp] {
        assert_eq!(TransportProtocol::from_str(protocol.as_str()), Ok(protocol));
        assert_eq!(
            TransportProtocol::from_str(&protocol.to_string()),
            Err(TransportProtocolParseError)
        );
    }
}

#[test]
fn transport_protocol_rejects_everything_else() {
    assert_eq!(TransportProtocol::from_str("UDP"), Err(TransportProtocolParseError));
    assert_eq!(TransportProtocol::from_str("quic"), Err(TransportProtocolParseError));
    assert_eq!(TransportProtocol::from_str(""), Err(TransportProtocolParseError));
    assert_eq!(TransportProtocol::from_str("udp "), Err(TransportProtocolParseError));
    assert_eq!(TransportProtocol::from_str("tcq"), Err(TransportProtocolParseError));
    assert_eq!(TransportProtocol::from_str("Tcp"), Err(TransportProtocolParseError));
    assert_eq!(TransportProtocol::from_str("ud"), Err(TransportProtocolParseError));
    assert_eq!(TransportProtocol::from_str("üdp"), Err(TransportProtocolParseError));
}

#[test]
fn value_types_have_their_texts() {
    assert_eq!(TransportProtocol::Udp.to_string(), "UDP");
    assert_eq!(TransportProtocol::Tcp.to_string(), "TCP");
    assert_eq!(TunnelType::OpenVpn.to_string(), "OpenVPN");
    assert_eq!(TunnelType::Wireguard.to_string(), "WireGuard");
    assert_eq!(IpVersion::V4.to_string(), "IPv4");
    assert_eq!(IpVersion::V6.to_string(), "IPv6");
    assert_eq!(ProxyType::Shadowsocks.to_string(), "Shadowsocks");
    assert_eq!(ProxyType::Custom.to_string(), "custom");
    assert_eq!(TransportProtocolParseError.to_string(), "Not a valid transport protocol");
}

#[test]
fn ip_version_defaults_to_v4() {
    assert_eq!(IpVersion::default(), IpVersion::V4);
}

#[test]
fn ipv4_address_is_made_of_its_octets() {
    assert_eq!(Ipv4Address::new(1, 2, 3, 4).bits, 0x0102_0304);
    assert_eq!(Ipv4Address::new(255, 255, 255, 255).bits, u32::MAX);
    assert_eq!(Ipv4Address::new(0, 0, 0, 0), Ipv4Address::unspecified());
    assert_eq!(Ipv4Address::new(127, 0, 0, 1).octets(), (127, 0, 0, 1));
    assert_eq!(Ipv4Address { bits: 0xc0a8_01fe }.octets(), (192, 168, 1, 254));
    assert_eq!(Ipv6Address::unspecified().bits, 0);
}

#[test]
fn endpoint_text_is_address_over_protocol() {
    let endpoint =
        Endpoint::new(IpAddress::V4(Ipv4Address::new(1, 2, 3, 4)), 1194, TransportProtocol::Udp);
    assert_eq!(endpoint.to_string("1.2.3.4:1194"), "1.2.3.4:1194 over UDP");
}

fn reported(
    tunnel_type: TunnelType,
    proxy: Option<ProxyEndpoint>,
    entry_endpoint: Option<Endpoint>,
) -> TunnelEndpoint {
    TunnelEndpoint {
        endpoint: Endpoint::new(
            IpAddress::V4(Ipv4Address::new(1, 2, 3, 4)),
            1194,
            TransportProtocol::Udp,
        ),
        tunnel_type,
        proxy,
        entry_endpoint,
    }
}

#[test]
fn tunnel_endpoint_text_without_a_first_hop() {
    assert_eq!(
        reported(TunnelType::OpenVpn, None, None).to_string("1.2.3.4:1194", "unused"),
        "OpenVPN - 1.2.3.4:1194 over UDP"
    );
    assert_eq!(
        reported(TunnelType::Wireguard, None, None).to_string("1.2.3.4:1194", ""),
        "WireGuard - 1.2.3.4:1194 over UDP"
    );
}

#[test]
fn tunnel_endpoint_text_names_the_proxy() {
    let proxy = ProxyEndpoint {
        endpoint: Endpoint::new(
            IpAddress::V4(Ipv4Address::new(127, 0, 0, 1)),
            1080,
            TransportProtocol::Tcp,
        ),
        proxy_type: ProxyType::Custom,
    };
    assert_eq!(
        reported(TunnelType::OpenVpn, Some(proxy), None)
            .to_string("1.2.3.4:1194", "127.0.0.1:1080"),
        "OpenVPN - 1.2.3.4:1194 over UDP via custom 127.0.0.1:1080 over TCP"
    );
    assert_eq!(
        reported(TunnelType::Wireguard, Some(proxy), None)
            .to_string("1.2.3.4:1194", "127.0.0.1:1080"),
        "WireGuard - 1.2.3.4:1194 over UDP"
    );
}

#[test]
fn tunnel_endpoint_text_names_the_entry() {
    let entry =
        Endpoint::new(IpAddress::V4(Ipv4Address::new(10, 0, 0, 1)), 51820, TransportProtocol::Udp);
    assert_eq!(
        reported(TunnelType::Wireguard, None, Some(entry))
            .to_string("1.2.3.4:1194", "10.0.0.1:51820"),
        "WireGuard - 1.2.3.4:1194 over UDP via 10.0.0.1:51820 over UDP"
    );
    assert_eq!(
        reported(TunnelType::OpenVpn, None, Some(entry))
            .to_string("1.2.3.4:1194", "10.0.0.1:51820"),
        "OpenVPN - 1.2.3.4:1194 over UDP"
    );
}

fn wireguard_data() -> WireguardEndpointData {
    WireguardEndpointData {
        port: 51820,
        ipv4_gateway: Ipv4Address::new(10, 64, 0, 1),
        ipv6_gateway: Ipv6Address { bits: 1 },
        public_key: [7; 32],
    }
}

#[test]
fn tunnel_endpoint_data_wraps_each_protocol() {
    let openvpn = OpenVpnEndpointData { port: 1194, protocol: TransportProtocol::Udp };
    assert_eq!(TunnelEndpointData::from(openvpn), TunnelEndpointData::OpenVpn(openvpn));
    assert_eq!(
        TunnelEndpointData::from(wireguard_data()),
        TunnelEndpointData::Wireguard(wireguard_data())
    );
    assert_ne!(
        TunnelEndpointData::from(openvpn),
        TunnelEndpointData::from(OpenVpnEndpointData { port: 1195, protocol: TransportProtocol::Udp })
    );
}

#[test]
fn tunnel_endpoint_data_text_starts_with_the_protocol() {
    let openvpn = OpenVpnEndpointData { port: 1194, protocol: TransportProtocol::Udp };
    assert_eq!(
        TunnelEndpointData::OpenVpn(openvpn).to_string("UDP port 1194"),
        "OpenVPN UDP port 1194"
    );
    assert_eq!(
        TunnelEndpointData::Wireguard(wireguard_data()).to_string("port 51820"),
        "Wireguard port 51820"
    );
}

#[test]
fn all_of_the_internet_is_both_default_routes() {
    assert_eq!(
        all_of_the_internet(),
        vec![
            IpNetwork { address: IpAddress::V4(Ipv4Address { bits: 0 }), prefix: 0 },
            IpNetwork { address: IpAddress::V6(Ipv6Address { bits: 0 }), prefix: 0 },
        ]
    );
}

#[test]
fn network_keeps_address_and_prefix() {
    let address = IpAddress::V4(Ipv4Address::new(10, 9, 0, 32));
    let network = IpNetwork::new(address, 16).unwrap();
    assert_eq!(network.ip(), address);
    assert_eq!(network.prefix(), 16);
    let address = IpAddress::V6(Ipv6Address { bits: 0xff01 << 112 });
    assert_eq!(IpNetwork::new(address, 128), Ok(IpNetwork { address, prefix: 128 }));
    assert_eq!(IpNetwork::new(address, 33), Ok(IpNetwork { address, prefix: 33 }));
}

#[test]
fn network_refuses_a_prefix_that_is_too_long() {
    let v4 = IpAddress::V4(Ipv4Address::new(10, 9, 0, 32));
    assert_eq!(IpNetwork::new(v4, 32), Ok(IpNetwork { address: v4, prefix: 32 }));
    assert_eq!(IpNetwork::new(v4, 33), Err(InvalidPrefix));
    assert_eq!(IpNetwork::new(v4, 255), Err(InvalidPrefix));
    let v6 = IpAddress::V6(Ipv6Address { bits: 1 });
    assert_eq!(IpNetwork::new(v6, 129), Err(InvalidPrefix));
}
