use bytes::Bytes;
use trojan_rust::error::{Error, ErrorKind};
use trojan_rust::protocol::common::addr::IpAddress;
use trojan_rust::protocol::common::atype::Atype;
use trojan_rust::protocol::common::command::Command;
use trojan_rust::protocol::common::request::{InboundRequest, TransportProtocol};
use trojan_rust::protocol::trojan::base::{credential, to_hex_lower, Request, CRLF, HEX_SIZE};
use trojan_rust::protocol::trojan::parser::{parse_and_authenticate, truncated};
use trojan_rust::protocol::trojan::{accept, handshake};
use trojan_rust::proxy::base::SupportedProtocols;

fn domain(name: &[u8]) -> IpAddress {
    IpAddress::from_bytes(Bytes::from(name.to_vec())).unwrap()
}

fn request(atype: Atype, addr: IpAddress, command: Command, port: u16) -> InboundRequest {
    let transport = match command {
        Command::Udp => TransportProtocol::UDP,
        _ => TransportProtocol::TCP,
    };
    InboundRequest::new(atype, addr, command, port, transport, SupportedProtocols::TROJAN)
}

#[test]
fn credential_is_sha224_in_lowercase_hex() {
    assert_eq!(
        credential("hello"),
        b"ea09ae9cc6768c50fcee903ed054556e5bfc8347907f12598aa24193".to_vec()
    );
    assert_eq!(
        credential(""),
        b"d14a028c2a3a2bc9476102bb288234c415a2b01f828ea62ac5b3e42f".to_vec()
    );
    assert_eq!(
        credential("abc"),
        b"23097d223405d8228642a477bda255b32aadbce4bda0b3f7e36c9da7".to_vec()
    );
    assert_eq!(credential("hello").len(), HEX_SIZE);
    assert_ne!(credential("hello"), credential("wrong"));
}

#[test]
fn hex_is_two_lowercase_digits_per_byte() {
    assert_eq!(to_hex_lower(&[]), Vec::<u8>::new());
    assert_eq!(to_hex_lower(&[0x00, 0x09, 0x0a, 0xff, 0x5c]), b"00090aff5c".to_vec());
}

#[test]
fn constants_of_the_header() {
    assert_eq!(HEX_SIZE, 56);
    assert_eq!(CRLF, 0x0D0A);
}

#[test]
fn handshake_writes_the_header_in_order() {
    let secret = credential("hello");
    let mut stream = vec![0xeeu8];
    let r = request(Atype::IPv4, IpAddress::from_u32(0x7f00_0001), Command::Connect, 9999);
    handshake(&mut stream, &r, &secret).unwrap();
    let mut expected = vec![0xeeu8];
    expected.extend_from_slice(&secret);
    expected.extend_from_slice(&[0x0d, 0x0a, 1, 1, 127, 0, 0, 1, 0x27, 0x0f, 0x0d, 0x0a]);
    assert_eq!(stream, expected);

    let mut stream = Vec::new();
    let r = request(Atype::DomainName, domain(b"example.com"), Command::Udp, 53);
    handshake(&mut stream, &r, &secret).unwrap();
    let mut expected = secret.clone();
    expected.extend_from_slice(&[0x0d, 0x0a, 3, 3, 11]);
    expected.extend_from_slice(b"example.com");
    expected.extend_from_slice(&[0, 53, 0x0d, 0x0a]);
    assert_eq!(stream, expected);
}

#[test]
fn handshake_refuses_an_empty_domain() {
    let secret = credential("hello");
    let mut stream = vec![1u8, 2];
    let r = request(Atype::DomainName, domain(b""), Command::Connect, 80);
    assert_eq!(handshake(&mut stream, &r, &secret), Err(Error::EmptyDomain));
    assert_eq!(stream, vec![1, 2]);
}

fn round_trip(atype: Atype, addr: IpAddress, command: Command, port: u16) {
    let secret = credential("hello");
    let sent = request(atype, addr, command, port);
    let mut wire = Vec::new();
    handshake(&mut wire, &sent, &secret).unwrap();
    let header_len = wire.len();
    wire.extend_from_slice(b"payload that follows");
    let (got, consumed) = accept(&wire, &secret).unwrap().unwrap();
    assert_eq!(consumed, header_len);
    assert_eq!(got.atype, sent.atype);
    assert!(got.addr == sent.addr);
    assert_eq!(got.command, sent.command);
    assert_eq!(got.port, sent.port);
    assert_eq!(got.transport_protocol, sent.transport_protocol);
    assert_eq!(got.proxy_protocol, SupportedProtocols::TROJAN);
}

#[test]
fn header_round_trips_for_every_address_type_and_command() {
    for command in [Command::Connect, Command::Udp, Command::Bind] {
        round_trip(Atype::IPv4, IpAddress::from_u32(0xc0a8_0001), command, 443);
        round_trip(
            Atype::IPv6,
            IpAddress::from_u128(0xfe80_0000_0000_0000_0000_0000_0000_0001),
            command,
            65535,
        );
        round_trip(Atype::DomainName, domain(b"example.invalid"), command, 80);
        round_trip(Atype::DomainName, domain(&vec![b'q'; 255]), command, 0);
        round_trip(Atype::DomainName, domain(b"x"), command, 1);
    }
}

#[test]
fn udp_command_makes_a_datagram_request() {
    let secret = credential("s");
    let mut wire = secret.clone();
    wire.extend_from_slice(&[0x0d, 0x0a, 3, 1, 8, 8, 8, 8, 0, 53, 0x0d, 0x0a]);
    let (got, consumed) = accept(&wire, &secret).unwrap().unwrap();
    assert_eq!(consumed, 68);
    assert_eq!(got.command, Command::Udp);
    assert_eq!(got.transport_protocol, TransportProtocol::UDP);
    assert!(got.addr == IpAddress::from_u32(0x0808_0808));
    assert_eq!(got.port, 53);
}

#[test]
fn partial_header_waits_without_consuming() {
    let secret = credential("hello");
    let mut wire = Vec::new();
    let r = request(Atype::IPv4, IpAddress::from_u32(0x7f00_0001), Command::Connect, 9999);
    handshake(&mut wire, &r, &secret).unwrap();
    for cut in 0..wire.len() {
        assert!(
            parse_and_authenticate(&wire[..cut], &secret).unwrap().is_none(),
            "cut at {}",
            cut
        );
    }
    assert!(parse_and_authenticate(&wire[..55], &secret).unwrap().is_none());
    let (_, consumed) = parse_and_authenticate(&wire, &secret).unwrap().unwrap();
    assert_eq!(consumed, wire.len());
}

#[test]
fn partial_domain_header_waits_at_every_cut() {
    let secret = credential("hello");
    let mut wire = Vec::new();
    let r = request(Atype::DomainName, domain(b"example.com"), Command::Connect, 443);
    handshake(&mut wire, &r, &secret).unwrap();
    for cut in 0..wire.len() {
        assert!(accept(&wire[..cut], &secret).unwrap().is_none(), "cut at {}", cut);
    }
    assert!(accept(&wire, &secret).unwrap().is_some());
}

#[test]
fn wrong_credential_is_a_password_mismatch() {
    let secret = credential("hello");
    let wrong = credential("wrong");
    let mut wire = Vec::new();
    let r = request(Atype::IPv4, IpAddress::from_u32(0x7f00_0001), Command::Connect, 9999);
    handshake(&mut wire, &r, &wrong).unwrap();
    let e = accept(&wire, &secret).unwrap_err();
    assert_eq!(e, Error::PasswordMismatch);
    assert_eq!(e.kind(), ErrorKind::InvalidData);
    assert_eq!(e.message(), "Trojan password mismatch");
    assert_eq!(accept(&wire[..56], &secret).unwrap_err(), Error::PasswordMismatch);
    assert!(accept(&wire[..55], &secret).unwrap().is_none());
}

#[test]
fn any_flipped_bit_of_the_credential_is_a_mismatch() {
    let secret = credential("hello");
    let mut wire = Vec::new();
    let r = request(Atype::IPv4, IpAddress::from_u32(1), Command::Connect, 1);
    handshake(&mut wire, &r, &secret).unwrap();
    for byte in 0..56 {
        for bit in 0..8 {
            let mut bad = wire.clone();
            bad[byte] ^= 1 << bit;
            assert_eq!(accept(&bad, &secret).unwrap_err(), Error::PasswordMismatch);
        }
    }
}

#[test]
fn a_key_of_another_length_never_matches() {
    let secret = credential("hello");
    let mut wire = Vec::new();
    let r = request(Atype::IPv4, IpAddress::from_u32(1), Command::Connect, 1);
    handshake(&mut wire, &r, &secret).unwrap();
    assert_eq!(accept(&wire, &[]).unwrap_err(), Error::PasswordMismatch);
    assert_eq!(accept(&wire, &secret[..55]).unwrap_err(), Error::PasswordMismatch);
}

#[test]
fn bad_command_and_address_type_are_refused_as_soon_as_seen() {
    let secret = credential("hello");
    let mut wire = secret.clone();
    wire.extend_from_slice(&[0x0d, 0x0a, 9]);
    let e = accept(&wire, &secret).unwrap_err();
    assert_eq!(e, Error::UnsupportedCommand);
    assert_eq!(e.kind(), ErrorKind::Unsupported);

    let mut wire = secret.clone();
    wire.extend_from_slice(&[0x0d, 0x0a, 1, 2]);
    let e = accept(&wire, &secret).unwrap_err();
    assert_eq!(e, Error::UnsupportedAddressType);
    assert_eq!(e.kind(), ErrorKind::Unsupported);

    let mut wire = secret.clone();
    wire.extend_from_slice(&[0x0d, 0x0a, 1]);
    assert!(accept(&wire, &secret).unwrap().is_none());
}

#[test]
fn header_with_an_empty_domain_is_refused() {
    let secret = credential("hello");
    let mut wire = secret.clone();
    wire.extend_from_slice(&[0x0d, 0x0a, 1, 3, 0]);
    let e = accept(&wire, &secret).unwrap_err();
    assert_eq!(e, Error::EmptyDomain);
    assert_eq!(e.kind(), ErrorKind::InvalidInput);
}

#[test]
fn delimiters_are_skipped_whatever_they_hold() {
    let secret = credential("hello");
    let mut wire = secret.clone();
    wire.extend_from_slice(&[b'x', b'y', 1, 1, 10, 0, 0, 1, 0, 80, b'z', b'w']);
    let (got, consumed) = accept(&wire, &secret).unwrap().unwrap();
    assert_eq!(consumed, 68);
    assert!(got.addr == IpAddress::from_u32(0x0a00_0001));
    assert_eq!(got.port, 80);
}

#[test]
fn stream_end_inside_the_header() {
    assert_eq!(truncated(0), Error::MalformedHeader);
    assert_eq!(truncated(55), Error::MalformedHeader);
    assert_eq!(truncated(56), Error::ShortRead);
    assert_eq!(truncated(60), Error::ShortRead);
}

#[test]
fn trojan_request_turns_into_the_neutral_one() {
    let r = Request::new(
        Command::Udp,
        Atype::IPv4,
        IpAddress::from_u32(3),
        7,
        SupportedProtocols::TROJAN,
    )
    .into_request();
    assert_eq!(r.transport_protocol, TransportProtocol::UDP);
    assert_eq!(r.command, Command::Udp);
    assert_eq!(r.proxy_protocol, SupportedProtocols::TROJAN);
    let r = Request::new(
        Command::Connect,
        Atype::IPv4,
        IpAddress::from_u32(3),
        7,
        SupportedProtocols::TROJAN,
    )
    .into_request();
    assert_eq!(r.transport_protocol, TransportProtocol::TCP);
    let r = Request::new(
        Command::Bind,
        Atype::IPv4,
        IpAddress::from_u32(3),
        7,
        SupportedProtocols::TROJAN,
    )
    .into_request();
    assert_eq!(r.transport_protocol, TransportProtocol::TCP);
    assert_eq!(r.port, 7);
    assert!(r.addr == IpAddress::from_u32(3));
    assert_eq!(r.atype, Atype::IPv4);
}

#[test]
fn what_is_read_back_came_in_over_trojan() {
    let secret = credential("hello");
    let sent = InboundRequest::new(
        Atype::IPv4,
        IpAddress::from_u32(0x7f00_0001),
        Command::Connect,
        80,
        TransportProtocol::TCP,
        SupportedProtocols::SOCKS,
    );
    let mut wire = Vec::new();
    handshake(&mut wire, &sent, &secret).unwrap();
    let (got, consumed) = accept(&wire, &secret).unwrap().unwrap();
    assert_eq!(consumed, wire.len());
    assert_eq!(got.proxy_protocol, SupportedProtocols::TROJAN);
    assert_eq!(got.atype, sent.atype);
    assert!(got.addr == sent.addr);
    assert_eq!(got.command, sent.command);
    assert_eq!(got.port, sent.port);
    assert_eq!(got.transport_protocol, sent.transport_protocol);
}
