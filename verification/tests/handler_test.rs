use bytes::Bytes;
use trojan_rust::config::base::{OutboundConfig, OutboundMode, OutboundTlsConfig};
use trojan_rust::error::{Error, ErrorKind};
use trojan_rust::protocol::common::addr::IpAddress;
use trojan_rust::protocol::common::atype::Atype;
use trojan_rust::protocol::common::command::Command;
use trojan_rust::protocol::common::request::{InboundRequest, TransportProtocol};
use trojan_rust::protocol::trojan::base::credential;
use trojan_rust::proxy::base::SupportedProtocols;
use trojan_rust::proxy::tcp::handler::{Carrier, Outbound, TcpHandler};

fn outbound(mode: OutboundMode, protocol: SupportedProtocols) -> OutboundConfig {
    OutboundConfig {
        mode,
        protocol,
        address: Some("127.0.0.1".to_string()),
        port: Some(4443),
        secret: Some("hello".to_string()),
        tls: Some(OutboundTlsConfig { host_name: "relay.example".to_string(), allow_insecure: false }),
    }
}

fn request(command: Command, proxy: SupportedProtocols) -> InboundRequest {
    let transport = match command {
        Command::Udp => TransportProtocol::UDP,
        _ => TransportProtocol::TCP,
    };
    InboundRequest::new(
        Atype::IPv4,
        IpAddress::from_u32(0x7f00_0001),
        command,
        9999,
        transport,
        proxy,
    )
}

#[test]
fn address_and_port_come_together() {
    let mut config = outbound(OutboundMode::TCP, SupportedProtocols::TROJAN);
    config.port = None;
    let e = TcpHandler::init(&config).unwrap_err();
    assert_eq!(e, Error::MissingPort);
    assert_eq!(e.kind(), ErrorKind::InvalidInput);

    let mut config = outbound(OutboundMode::TCP, SupportedProtocols::TROJAN);
    config.address = None;
    let e = TcpHandler::init(&config).unwrap_err();
    assert_eq!(e, Error::MissingAddress);
    assert_eq!(e.kind(), ErrorKind::InvalidInput);

    let mut config = outbound(OutboundMode::DIRECT, SupportedProtocols::DIRECT);
    config.address = None;
    config.port = None;
    let handler = TcpHandler::init(&config).unwrap();
    assert_eq!(handler.mode(), OutboundMode::DIRECT);
}

#[test]
fn direct_mode_serves_trojan_requests_itself() {
    let mut config = outbound(OutboundMode::DIRECT, SupportedProtocols::DIRECT);
    config.address = None;
    config.port = None;
    let handler = TcpHandler::init(&config).unwrap();

    match handler.dispatch(request(Command::Connect, SupportedProtocols::TROJAN)).unwrap() {
        Outbound::Connect(dest) => {
            assert!(dest.ip == IpAddress::from_u32(0x7f00_0001));
            assert_eq!(dest.port, 9999);
        }
        other => panic!("unexpected: {:?}", other),
    }
    match handler.dispatch(request(Command::Udp, SupportedProtocols::TROJAN)).unwrap() {
        Outbound::Associate(dest) => {
            assert!(dest.ip == IpAddress::from_u32(0x7f00_0001));
            assert_eq!(dest.port, 9999);
        }
        other => panic!("unexpected: {:?}", other),
    }
    let e = handler.dispatch(request(Command::Bind, SupportedProtocols::TROJAN)).unwrap_err();
    assert_eq!(e, Error::BindUnsupported);
    assert_eq!(e.kind(), ErrorKind::Unsupported);
    let e = handler.dispatch(request(Command::Connect, SupportedProtocols::SOCKS)).unwrap_err();
    assert_eq!(e, Error::SocksRequest);
    assert_eq!(e.message(), "Proxy request can't have socks as proxy protocol");
    let e = handler.dispatch(request(Command::Connect, SupportedProtocols::DIRECT)).unwrap_err();
    assert_eq!(e, Error::DirectRequest);
    assert_eq!(e.message(), "Proxy request can't have direct as proxy protocol");
}

#[test]
fn tcp_mode_opens_a_tunnel_with_the_handshake() {
    let handler =
        TcpHandler::init(&outbound(OutboundMode::TCP, SupportedProtocols::TROJAN)).unwrap();
    match handler.dispatch(request(Command::Connect, SupportedProtocols::SOCKS)).unwrap() {
        Outbound::Tunnel(tunnel) => {
            assert_eq!(tunnel.carrier, Carrier::Tcp);
            assert_eq!(tunnel.address, "127.0.0.1");
            assert_eq!(tunnel.port, 4443);
            assert_eq!(tunnel.server_name.as_deref(), Some("relay.example"));
            assert_eq!(tunnel.request.transport_protocol, TransportProtocol::TCP);
            assert_eq!(tunnel.request.command, Command::Connect);
            assert_eq!(tunnel.request.proxy_protocol, SupportedProtocols::SOCKS);
            assert!(tunnel.request.addr == IpAddress::from_u32(0x7f00_0001));
            assert_eq!(tunnel.request.port, 9999);
            let mut expected = credential("hello");
            expected.extend_from_slice(&[0x0d, 0x0a, 1, 1, 127, 0, 0, 1, 0x27, 0x0f, 0x0d, 0x0a]);
            assert_eq!(tunnel.handshake, expected);
        }
        other => panic!("unexpected: {:?}", other),
    }
    match handler.dispatch(request(Command::Udp, SupportedProtocols::SOCKS)).unwrap() {
        Outbound::Tunnel(tunnel) => {
            assert_eq!(tunnel.request.transport_protocol, TransportProtocol::UDP);
            assert_eq!(tunnel.handshake[58], 3);
        }
        other => panic!("unexpected: {:?}", other),
    }
}

#[test]
fn tunnel_without_tls_names_no_server() {
    let mut config = outbound(OutboundMode::TCP, SupportedProtocols::TROJAN);
    config.tls = None;
    let handler = TcpHandler::init(&config).unwrap();
    match handler.dispatch(request(Command::Connect, SupportedProtocols::SOCKS)).unwrap() {
        Outbound::Tunnel(tunnel) => assert_eq!(tunnel.server_name, None),
        other => panic!("unexpected: {:?}", other),
    }
}

#[test]
fn tunnel_modes_differ_in_the_carrier() {
    for (mode, carrier) in [
        (OutboundMode::TCP, Carrier::Tcp),
        (OutboundMode::QUIC, Carrier::Quic),
        (OutboundMode::GRPC, Carrier::Grpc),
    ] {
        let handler = TcpHandler::init(&outbound(mode, SupportedProtocols::TROJAN)).unwrap();
        assert_eq!(handler.mode(), mode);
        match handler.dispatch(request(Command::Connect, SupportedProtocols::SOCKS)).unwrap() {
            Outbound::Tunnel(tunnel) => assert_eq!(tunnel.carrier, carrier),
            other => panic!("unexpected: {:?}", other),
        }
    }
}

#[test]
fn tunnel_needs_a_remote_proxy() {
    for (mode, error, kind) in [
        (OutboundMode::TCP, Error::MissingDestination, ErrorKind::NotConnected),
        (OutboundMode::QUIC, Error::MissingDestination, ErrorKind::NotConnected),
        (OutboundMode::GRPC, Error::NullDestination, ErrorKind::Unsupported),
    ] {
        let mut config = outbound(mode, SupportedProtocols::TROJAN);
        config.address = None;
        config.port = None;
        let handler = TcpHandler::init(&config).unwrap();
        let e = handler.dispatch(request(Command::Connect, SupportedProtocols::SOCKS)).unwrap_err();
        assert_eq!(e, error);
        assert_eq!(e.kind(), kind);
    }
}

#[test]
fn tunnel_needs_trojan_and_a_credential() {
    for protocol in [SupportedProtocols::SOCKS, SupportedProtocols::DIRECT] {
        let handler = TcpHandler::init(&outbound(OutboundMode::TCP, protocol)).unwrap();
        let e = handler.dispatch(request(Command::Connect, SupportedProtocols::SOCKS)).unwrap_err();
        assert_eq!(e, Error::UnsupportedProtocol);
        assert_eq!(e.kind(), ErrorKind::Unsupported);
    }
    let mut config = outbound(OutboundMode::TCP, SupportedProtocols::TROJAN);
    config.secret = None;
    let handler = TcpHandler::init(&config).unwrap();
    let e = handler.dispatch(request(Command::Connect, SupportedProtocols::SOCKS)).unwrap_err();
    assert_eq!(e, Error::BadSecretLength);
    assert_eq!(e.kind(), ErrorKind::InvalidInput);
}

#[test]
fn tunnel_refuses_bind_and_empty_domains() {
    let handler =
        TcpHandler::init(&outbound(OutboundMode::GRPC, SupportedProtocols::TROJAN)).unwrap();
    let e = handler.dispatch(request(Command::Bind, SupportedProtocols::SOCKS)).unwrap_err();
    assert_eq!(e, Error::BindUnsupported);
    let empty = InboundRequest::new(
        Atype::DomainName,
        IpAddress::from_bytes(Bytes::new()).unwrap(),
        Command::Connect,
        80,
        TransportProtocol::TCP,
        SupportedProtocols::SOCKS,
    );
    assert_eq!(handler.dispatch(empty).unwrap_err(), Error::EmptyDomain);
}

#[test]
fn each_mode_has_its_own_entry() {
    let handler =
        TcpHandler::init(&outbound(OutboundMode::DIRECT, SupportedProtocols::TROJAN)).unwrap();
    assert!(matches!(
        handler.handle_direct_stream(request(Command::Connect, SupportedProtocols::TROJAN)),
        Ok(Outbound::Connect(_))
    ));
    assert!(matches!(
        handler.handle_tcp_stream(request(Command::Connect, SupportedProtocols::SOCKS)),
        Ok(Outbound::Tunnel(_))
    ));
    assert!(matches!(
        handler.handle_quic_stream(request(Command::Connect, SupportedProtocols::SOCKS)),
        Ok(Outbound::Tunnel(_))
    ));
    assert!(matches!(
        handler.handle_grpc_stream(request(Command::Connect, SupportedProtocols::SOCKS)),
        Ok(Outbound::Tunnel(_))
    ));
}
