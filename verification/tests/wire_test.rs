use trojan_rust::error::{Error, ErrorKind};
use trojan_rust::protocol::common::atype::Atype;
use trojan_rust::protocol::common::command::Command;
use trojan_rust::wire::{put_be, read_be, read_u128, read_u16, read_u32, same_bytes};

#[test]
fn big_endian_reads_most_significant_byte_first() {
    let buf = [0xffu8, 0x01, 0x02, 0x03, 0x04, 0xee];
    assert_eq!(read_u16(&buf, 1), 0x0102);
    assert_eq!(read_u32(&buf, 1), 0x0102_0304);
    assert_eq!(read_be(&buf, 0, 0), 0);
    assert_eq!(read_be(&buf, 5, 1), 0xee);
    let wide: Vec<u8> = (1u8..=16).collect();
    assert_eq!(read_u128(&wide, 0), 0x0102_0304_0506_0708_090a_0b0c_0d0e_0f10);
}

#[test]
fn big_endian_writes_what_it_reads() {
    let mut out = vec![9u8];
    put_be(&mut out, 0x1f90, 2);
    put_be(&mut out, 0x7f00_0001, 4);
    put_be(&mut out, 1, 16);
    put_be(&mut out, 0xabcd, 0);
    assert_eq!(out.len(), 1 + 2 + 4 + 16);
    assert_eq!(&out[..7], &[9, 0x1f, 0x90, 127, 0, 0, 1]);
    assert_eq!(out[22], 1);
    assert_eq!(read_u16(&out, 1), 0x1f90);
    assert_eq!(read_u32(&out, 3), 0x7f00_0001);
    assert_eq!(read_u128(&out, 7), 1);
}

#[test]
fn put_be_keeps_only_the_low_bytes() {
    let mut out = Vec::new();
    put_be(&mut out, 0x0102_0304, 2);
    assert_eq!(out, vec![3, 4]);
}

#[test]
fn same_bytes_is_equality() {
    assert!(same_bytes(b"", b""));
    assert!(same_bytes(b"abc", b"abc"));
    assert!(!same_bytes(b"abc", b"abd"));
    assert!(!same_bytes(b"abc", b"ab"));
}

#[test]
fn atype_wire_values() {
    assert_eq!(Atype::IPv4.to_byte(), 1);
    assert_eq!(Atype::DomainName.to_byte(), 3);
    assert_eq!(Atype::IPv6.to_byte(), 4);
    assert_eq!(Atype::from(1), Ok(Atype::IPv4));
    assert_eq!(Atype::from(3), Ok(Atype::DomainName));
    assert_eq!(Atype::from(4), Ok(Atype::IPv6));
    for byte in 0u8..=255 {
        match Atype::from(byte) {
            Ok(tag) => assert_eq!(tag.to_byte(), byte),
            Err(e) => {
                assert_eq!(e, Error::UnsupportedAddressType);
                assert!(byte != 1 && byte != 3 && byte != 4);
            }
        }
    }
    assert_eq!(Atype::IPv4.name(), "IPv4");
    assert_eq!(Atype::IPv6.name(), "IPv6");
    assert_eq!(Atype::DomainName.name(), "DomainName");
}

#[test]
fn command_wire_values() {
    assert_eq!(Command::Connect.to_byte(), 1);
    assert_eq!(Command::Bind.to_byte(), 2);
    assert_eq!(Command::Udp.to_byte(), 3);
    for byte in 0u8..=255 {
        match Command::from(byte) {
            Ok(command) => assert_eq!(command.to_byte(), byte),
            Err(e) => {
                assert_eq!(e, Error::UnsupportedCommand);
                assert!(byte == 0 || byte > 3);
            }
        }
    }
    assert_eq!(Command::Connect.name(), "Connect");
    assert_eq!(Command::Bind.name(), "Bind");
    assert_eq!(Command::Udp.name(), "Udp");
}

#[test]
fn every_error_has_its_kind_and_message() {
    assert_eq!(Error::PasswordMismatch.kind(), ErrorKind::InvalidData);
    assert_eq!(Error::PasswordMismatch.message(), "Trojan password mismatch");
    assert_eq!(Error::MalformedHeader.kind(), ErrorKind::InvalidData);
    assert_eq!(Error::MalformedHeader.message(), "Malformed Trojan header");
    assert_eq!(Error::UnsupportedCommand.kind(), ErrorKind::Unsupported);
    assert_eq!(Error::UnsupportedCommand.message(), "Unsupported command request");
    assert_eq!(Error::UnsupportedAddressType.kind(), ErrorKind::Unsupported);
    assert_eq!(Error::UnsupportedAddressType.message(), "Unsupported address type");
    assert_eq!(Error::UnsupportedVersion.kind(), ErrorKind::Unsupported);
    assert_eq!(Error::UnsupportedVersion.message(), "Unsupported version number");
    assert_eq!(Error::EmptyDomain.kind(), ErrorKind::InvalidInput);
    assert_eq!(Error::DomainTooLong.kind(), ErrorKind::InvalidInput);
    assert_eq!(Error::PayloadTooLarge.kind(), ErrorKind::InvalidInput);
    assert_eq!(Error::ShortRead.kind(), ErrorKind::UnexpectedEof);
    assert_eq!(Error::Unresolved.kind(), ErrorKind::AddrNotAvailable);
    assert_eq!(Error::DomainNotText.kind(), ErrorKind::InvalidData);
    assert_eq!(
        Error::DomainNotText.message(),
        "request domain name contains non-utf8 character"
    );
    assert_eq!(Error::UnsupportedInbound.kind(), ErrorKind::Unsupported);
    assert_eq!(
        Error::UnsupportedInbound.message(),
        "Failed to accept inbound stream, unsupported protocol"
    );
    assert_eq!(Error::SocksRequest.kind(), ErrorKind::Unsupported);
    assert_eq!(Error::DirectRequest.kind(), ErrorKind::Unsupported);
    assert_eq!(Error::MissingDestination.kind(), ErrorKind::NotConnected);
    assert_eq!(Error::MissingDestination.message(), "missing address of the remote server");
    assert_eq!(Error::BadSecretLength.kind(), ErrorKind::InvalidInput);
    assert_eq!(Error::BadSecretLength.message(), "Hex in trojan protocol is not 56 bytes");
    assert_eq!(Error::UnsupportedProtocol.kind(), ErrorKind::Unsupported);
    assert_eq!(Error::UnsupportedProtocol.message(), "Unsupported protocol");
    assert_eq!(Error::NullDestination.kind(), ErrorKind::Unsupported);
    assert_eq!(Error::NullDestination.message(), "Destination can not be null");
    assert_eq!(Error::BindUnsupported.kind(), ErrorKind::Unsupported);
    assert_eq!(Error::MissingPort.kind(), ErrorKind::InvalidInput);
    assert_eq!(Error::MissingPort.message(), "Missing port while address is present");
    assert_eq!(Error::MissingAddress.kind(), ErrorKind::InvalidInput);
    assert_eq!(Error::MissingAddress.message(), "Missing address while port is present");
    assert_eq!(Error::StreamClosed.kind(), ErrorKind::BrokenPipe);
    assert_eq!(Error::StreamClosed.message(), "Failed to read");
    assert_eq!(Error::QuicWithoutTls.kind(), ErrorKind::Unsupported);
    assert_eq!(Error::QuicTlsInvalid.kind(), ErrorKind::InvalidInput);
    assert_eq!(Error::IncorrectVersion.kind(), ErrorKind::InvalidInput);
    assert_eq!(Error::VlessCommand.kind(), ErrorKind::InvalidInput);
    assert_eq!(Error::VlessAddressType.kind(), ErrorKind::InvalidInput);
    assert_eq!(Error::VlessRequestData.kind(), ErrorKind::InvalidInput);
}
