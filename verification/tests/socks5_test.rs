use bytes::Bytes;
use trojan_rust::error::{Error, ErrorKind};
use trojan_rust::protocol::common::addr::IpAddress;
use trojan_rust::protocol::common::atype::Atype;
use trojan_rust::protocol::common::command::Command;
use trojan_rust::protocol::common::request::TransportProtocol;
use trojan_rust::protocol::socks5::base::{ClientHello, Request, RequestAck, ServerHello, VERSION};
use trojan_rust::protocol::socks5::parser::parse;
use trojan_rust::protocol::socks5::stream::Socks5Stream;
use trojan_rust::protocol::socks5::{
    accept, init_ack, read_hello, write_request_ack, Phase, Progress,
};
use trojan_rust::proxy::base::SupportedProtocols;

#[test]
fn server_hello_is_version_and_method() {
    assert_eq!(VERSION, 5);
    assert_eq!(ServerHello::new(0).bytes(), [5, 0]);
    assert_eq!(ServerHello::new(0xff).bytes(), [5, 0xff]);
}

#[test]
fn greeting_of_any_content_is_accepted() {
    let (hello, n) = read_hello(&[5, 1, 0]).unwrap().unwrap();
    assert_eq!(n, 3);
    assert_eq!(hello.version(), 5);
    assert_eq!(hello.method_size(), 1);
    assert_eq!(hello.methods(), &[0]);

    let (hello, n) = read_hello(&[4, 3, 9, 8, 7, 0xaa]).unwrap().unwrap();
    assert_eq!(n, 5);
    assert_eq!(hello.version(), 4);
    assert_eq!(hello.methods(), &[9, 8, 7]);

    let (hello, n) = read_hello(&[0, 0]).unwrap().unwrap();
    assert_eq!(n, 2);
    assert_eq!(hello.methods(), &[] as &[u8]);

    assert!(read_hello(&[]).unwrap().is_none());
    assert!(read_hello(&[5]).unwrap().is_none());
    assert!(read_hello(&[5, 2, 0]).unwrap().is_none());

    let hello = ClientHello::new(5, vec![0, 2]);
    assert_eq!(hello.method_size(), 2);
    assert_eq!(ClientHello::new(5, vec![0; 300]).method_size(), 255);
    assert_eq!(hello.version(), 5);
    assert_eq!(hello.methods(), &[0, 2]);
}

#[test]
fn greeting_is_answered_with_no_authentication() {
    let mut stream = vec![0xeeu8];
    assert_eq!(init_ack(&mut stream, &[5, 2, 0, 1, 5, 1]), Some(4));
    assert_eq!(stream, vec![0xee, 5, 0]);
    let mut stream = vec![0xeeu8];
    assert_eq!(init_ack(&mut stream, &[5, 2, 0]), None);
    assert_eq!(stream, vec![0xee]);
}

#[test]
fn request_ack_names_the_loopback_and_the_advertised_port() {
    let mut stream = Vec::new();
    write_request_ack(&mut stream, 1080);
    assert_eq!(stream, vec![5, 0, 0, 1, 127, 0, 0, 1, 0x04, 0x38]);
    let mut stream = vec![1u8];
    write_request_ack(&mut stream, 0);
    assert_eq!(stream, vec![1, 5, 0, 0, 1, 127, 0, 0, 1, 0, 0]);
}

#[test]
fn request_ack_with_other_fields() {
    let ack = RequestAck::new(
        1,
        0,
        3,
        IpAddress::from_bytes(Bytes::from(b"ab".to_vec())).unwrap(),
        0x0102,
    );
    let mut out = Vec::new();
    ack.to_bytes(&mut out).unwrap();
    assert_eq!(out, vec![5, 1, 0, 3, 2, b'a', b'b', 1, 2]);

    let ack = RequestAck::new(0, 0, 3, IpAddress::from_bytes(Bytes::new()).unwrap(), 1);
    let mut out = vec![4u8];
    assert_eq!(ack.to_bytes(&mut out), Err(Error::EmptyDomain));
    assert_eq!(out, vec![4]);
}

#[test]
fn request_is_parsed_field_by_field() {
    let wire = [5u8, 1, 0, 1, 127, 0, 0, 1, 0x27, 0x0f, 0xaa];
    let (request, n) = parse(&wire).unwrap().unwrap();
    assert_eq!(n, 10);
    assert_eq!(request.version(), 5);
    let request = request.into_request();
    assert_eq!(request.command, Command::Connect);
    assert_eq!(request.atype, Atype::IPv4);
    assert!(request.addr == IpAddress::from_u32(0x7f00_0001));
    assert_eq!(request.port, 9999);
    assert_eq!(request.transport_protocol, TransportProtocol::TCP);
    assert_eq!(request.proxy_protocol, SupportedProtocols::SOCKS);
    for cut in 0..10 {
        assert!(parse(&wire[..cut]).unwrap().is_none(), "cut at {}", cut);
    }
}

#[test]
fn udp_associate_makes_a_datagram_request() {
    let mut wire = vec![5u8, 3, 0xff, 4];
    wire.extend_from_slice(&[0; 15]);
    wire.extend_from_slice(&[1, 0x27, 0x0e]);
    let (request, n) = parse(&wire).unwrap().unwrap();
    assert_eq!(n, 22);
    assert_eq!(request.version(), 5);
    assert_eq!(request.rsv(), 0xff);
    let request = request.into_request();
    assert_eq!(request.command, Command::Udp);
    assert_eq!(request.transport_protocol, TransportProtocol::UDP);
    assert!(request.addr == IpAddress::from_u128(1));
    assert_eq!(request.port, 9998);
}

#[test]
fn domain_request_keeps_the_name_unresolved() {
    let mut wire = vec![5u8, 1, 0, 3, 15];
    wire.extend_from_slice(b"example.invalid");
    wire.extend_from_slice(&[0, 80]);
    let (request, n) = parse(&wire).unwrap().unwrap();
    assert_eq!(n, wire.len());
    let request = request.into_request();
    assert_eq!(request.atype, Atype::DomainName);
    match &request.addr {
        IpAddress::Domain(name) => assert_eq!(name.as_bytes(), b"example.invalid"),
        other => panic!("not a domain: {:?}", other),
    }
    assert_eq!(request.port, 80);
}

#[test]
fn bad_requests_are_refused_as_soon_as_seen() {
    let e = parse(&[4u8]).unwrap_err();
    assert_eq!(e, Error::UnsupportedVersion);
    assert_eq!(e.kind(), ErrorKind::Unsupported);
    let e = parse(&[5u8, 0]).unwrap_err();
    assert_eq!(e, Error::UnsupportedCommand);
    assert_eq!(e.kind(), ErrorKind::Unsupported);
    let e = parse(&[5u8, 1, 0, 2]).unwrap_err();
    assert_eq!(e, Error::UnsupportedAddressType);
    assert_eq!(e.kind(), ErrorKind::Unsupported);
    assert_eq!(parse(&[5u8, 1, 0, 3, 0]).unwrap_err(), Error::EmptyDomain);
    assert!(parse(&[5u8, 1, 0]).unwrap().is_none());
    let bind = parse(&[5u8, 2, 0, 1, 1, 2, 3, 4, 0, 1]).unwrap().unwrap().0;
    assert_eq!(bind.into_request().command, Command::Bind);
}

#[test]
fn socks_request_constructor() {
    let request = Request::new(5, Command::Udp, 7, Atype::IPv4, 9, IpAddress::from_u32(8));
    assert_eq!(request.version(), 5);
    assert_eq!(request.rsv(), 7);
    let request = request.into_request();
    assert_eq!(request.port, 9);
    assert!(request.addr == IpAddress::from_u32(8));
    assert_eq!(request.transport_protocol, TransportProtocol::UDP);
    assert_eq!(request.proxy_protocol, SupportedProtocols::SOCKS);
}

#[test]
fn handshake_runs_greeting_then_request() {
    let mut phase = Phase::Greeting;
    assert!(matches!(accept(&mut phase, &[5], 1080), Ok(Progress::NeedMore)));
    assert_eq!(phase, Phase::Greeting);

    match accept(&mut phase, &[5, 1, 0], 1080).unwrap() {
        Progress::Greeted { consumed, reply } => {
            assert_eq!(consumed, 3);
            assert_eq!(reply, vec![5, 0]);
        }
        other => panic!("unexpected: {:?}", other),
    }
    assert_eq!(phase, Phase::Request);

    assert!(matches!(accept(&mut phase, &[5, 1, 0, 1], 1080), Ok(Progress::NeedMore)));
    assert_eq!(phase, Phase::Request);

    match accept(&mut phase, &[5, 1, 0, 1, 127, 0, 0, 1, 0x27, 0x0f, 1, 2], 1080).unwrap() {
        Progress::Accepted { consumed, reply, request } => {
            assert_eq!(consumed, 10);
            assert_eq!(reply, vec![5, 0, 0, 1, 127, 0, 0, 1, 0x04, 0x38]);
            assert_eq!(request.port, 9999);
            assert_eq!(request.proxy_protocol, SupportedProtocols::SOCKS);
        }
        other => panic!("unexpected: {:?}", other),
    }
    assert_eq!(phase, Phase::Established);
    assert!(matches!(accept(&mut phase, &[1, 2, 3], 1080), Ok(Progress::Established)));
    assert_eq!(phase, Phase::Established);
}

#[test]
fn handshake_fails_on_a_bad_request() {
    let mut phase = Phase::Request;
    assert_eq!(accept(&mut phase, &[4, 1], 1080).unwrap_err(), Error::UnsupportedVersion);
    assert_eq!(phase, Phase::Request);
}

#[test]
fn stream_wrapper_runs_the_same_handshake() {
    let mut stream = Socks5Stream::new("socket", [0x1f, 0x90]);
    assert_eq!(stream.phase(), Phase::Greeting);
    assert_eq!(*stream.get_mut(), "socket");
    match stream.handshake(&[5, 2, 0, 1]).unwrap() {
        Progress::Greeted { consumed, reply } => {
            assert_eq!(consumed, 4);
            assert_eq!(reply, vec![5, 0]);
        }
        other => panic!("unexpected: {:?}", other),
    }
    assert_eq!(stream.phase(), Phase::Request);
    match stream.handshake(&[5, 1, 0, 3, 1, b'x', 0, 80]).unwrap() {
        Progress::Accepted { consumed, reply, request } => {
            assert_eq!(consumed, 8);
            assert_eq!(reply, vec![5, 0, 0, 1, 127, 0, 0, 1, 0x1f, 0x90]);
            assert_eq!(request.port, 80);
        }
        other => panic!("unexpected: {:?}", other),
    }
    assert_eq!(stream.phase(), Phase::Established);
    assert_eq!(stream.into_inner(), "socket");
}
