use trojan_rust::error::Error;
use trojan_rust::protocol::common::addr::IpAddress;
use trojan_rust::protocol::socks5::Phase;
use trojan_rust::protocol::vless::base::{Request, Response, VERSION};
use trojan_rust::protocol::vless::inbound::VlessInboundStream;
use trojan_rust::protocol::vless::outbound::VlessOutboundStream;
use trojan_rust::protocol::vless::parser::{parse, REQUEST_HEADER_SIZE};
use trojan_rust::proxy::base::SupportedProtocols;
use trojan_rust::proxy::builder::ConnectionBuilder;

fn uuid() -> [u8; 16] {
    [0xa0, 0xa1, 0xa2, 0xa3, 0xa4, 0xa5, 0xa6, 0xa7, 0xa8, 0xa9, 0xaa, 0xab, 0xac, 0xad, 0xae, 0xaf]
}

fn ipv4_wire() -> Vec<u8> {
    let mut wire = vec![1u8];
    wire.extend_from_slice(&uuid());
    wire.extend_from_slice(&[1, 0x01, 0xbb, 1, 10, 0, 0, 7]);
    wire
}

#[test]
fn response_is_the_version_served() {
    assert_eq!(VERSION, 1);
    assert_eq!(Response::new(1).to_bytes(), vec![1]);
    assert_eq!(Response::new(9).to_bytes(), vec![1]);
}

#[test]
fn request_wire_form_depends_on_the_address_type() {
    let mut addr = [0u8; 16];
    addr[..4].copy_from_slice(&[10, 0, 0, 7]);
    let request = Request::new(1, uuid(), 1, [0x01, 0xbb], 1, addr);
    assert_eq!(request.to_bytes(), ipv4_wire());
    let dest = request.request_addr_port().unwrap();
    assert!(dest.ip == IpAddress::from_u32(0x0a00_0007));
    assert_eq!(dest.port, 443);

    let addr: [u8; 16] = [0x20, 1, 0x0d, 0xb8, 0, 0, 0, 0, 0, 0, 0, 0, 0, 0, 0, 1];
    let request = Request::new(1, uuid(), 3, [0x00, 0x35], 4, addr);
    let wire = request.to_bytes();
    assert_eq!(wire.len(), 21 + 16);
    assert_eq!(&wire[17..21], &[3, 0, 0x35, 4]);
    assert_eq!(&wire[21..], &addr);
    let dest = request.request_addr_port().unwrap();
    assert!(dest.ip == IpAddress::from_u128(0x2001_0db8_0000_0000_0000_0000_0000_0001));
    assert_eq!(dest.port, 53);

    let request = Request::new(1, uuid(), 1, [0xff, 0xfe], 3, [7; 16]);
    assert_eq!(request.to_bytes().len(), 21 + 16);
    assert!(request.request_addr_port().is_none());
}

#[test]
fn request_is_parsed_once_its_fixed_part_is_there() {
    assert_eq!(REQUEST_HEADER_SIZE, 21);
    let wire = ipv4_wire();
    for cut in 0..wire.len() {
        assert!(parse(&wire[..cut]).unwrap().is_none(), "cut at {}", cut);
    }
    let (request, n) = parse(&wire).unwrap().unwrap();
    assert_eq!(n, 25);
    assert_eq!(request.to_bytes(), wire);

    let mut v6 = vec![1u8];
    v6.extend_from_slice(&uuid());
    v6.extend_from_slice(&[2, 0, 80, 4]);
    v6.extend_from_slice(&[9; 16]);
    v6.push(0xee);
    let (request, n) = parse(&v6).unwrap().unwrap();
    assert_eq!(n, 37);
    assert_eq!(request.to_bytes(), v6[..37].to_vec());
}

#[test]
fn bad_requests_are_refused_in_order() {
    let mut wire = ipv4_wire();
    wire[0] = 2;
    wire[17] = 9;
    assert_eq!(parse(&wire).unwrap_err(), Error::IncorrectVersion);
    assert!(parse(&wire[..20]).unwrap().is_none());
    wire[0] = 1;
    wire[20] = 9;
    assert_eq!(parse(&wire).unwrap_err(), Error::VlessCommand);
    wire[17] = 1;
    assert_eq!(parse(&wire).unwrap_err(), Error::VlessAddressType);
    wire[20] = 3;
    assert_eq!(parse(&wire).unwrap_err(), Error::VlessRequestData);
}

#[test]
fn inbound_stream_notes_what_was_done() {
    let mut stream = VlessInboundStream::new(3u8);
    assert_eq!(*stream.get_mut(), 3);
    assert!(stream.read_request(&ipv4_wire()[..10]).unwrap().is_none());
    let (request, n) = stream.read_request(&ipv4_wire()).unwrap().unwrap();
    assert_eq!(n, 25);
    assert_eq!(request.request_addr_port().unwrap().port, 443);
    let mut out = vec![0xeeu8];
    stream.ack_request(&mut out);
    assert_eq!(out, vec![0xee, 1]);
    stream.poll_write(&mut out);
    assert_eq!(out, vec![0xee, 1]);

    let mut fresh = VlessInboundStream::new(());
    let mut out = Vec::new();
    fresh.poll_write(&mut out);
    assert!(out.is_empty());
}

#[test]
fn outbound_stream_starts_with_nothing_left_to_do() {
    let (request, _) = parse(&ipv4_wire()).unwrap().unwrap();
    let mut stream = VlessOutboundStream::new(4u8, request);
    assert_eq!(*stream.get_mut(), 4);
    assert_eq!(stream.poll_read(), 0);
    let mut out = vec![1u8];
    stream.poll_write(&mut out);
    assert_eq!(out, vec![1]);
}

#[test]
fn builder_wraps_socks_streams_only() {
    let wrapped = ConnectionBuilder::new(SupportedProtocols::SOCKS, false)
        .build_inbound("socket", 1080)
        .unwrap();
    assert_eq!(wrapped.phase(), Phase::Greeting);
    let mut wrapped = wrapped;
    wrapped.handshake(&[5, 1, 0]).unwrap();
    match wrapped.handshake(&[5, 1, 0, 1, 1, 2, 3, 4, 0, 80]).unwrap() {
        trojan_rust::protocol::socks5::Progress::Accepted { reply, .. } => {
            assert_eq!(reply, vec![5, 0, 0, 1, 127, 0, 0, 1, 0x04, 0x38]);
        }
        other => panic!("unexpected: {:?}", other),
    }
    assert_eq!(wrapped.into_inner(), "socket");

    assert!(ConnectionBuilder::new(SupportedProtocols::TROJAN, true)
        .build_inbound((), 1080)
        .is_none());
    assert!(ConnectionBuilder::new(SupportedProtocols::DIRECT, true)
        .build_inbound((), 1080)
        .is_none());
}

#[test]
fn builder_dials_for_a_direct_outbound_only() {
    assert_eq!(
        ConnectionBuilder::new(SupportedProtocols::DIRECT, false)
            .build_outbound("10.0.0.1:80".to_string()),
        Some("10.0.0.1:80".to_string())
    );
    assert_eq!(
        ConnectionBuilder::new(SupportedProtocols::SOCKS, false)
            .build_outbound("10.0.0.1:80".to_string()),
        None
    );
    assert_eq!(
        ConnectionBuilder::new(SupportedProtocols::TROJAN, false)
            .build_outbound("10.0.0.1:80".to_string()),
        None
    );
}
