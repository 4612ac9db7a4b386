//! The failures of the proxy core, each with its kind and its message.
use vstd::prelude::*;

verus! {

/// The class of a failure, as it is reported to the operator.
#[derive(Clone, Copy, Debug, PartialEq, Eq, Structural)]
pub enum ErrorKind {
    /// A malformed configuration or wire header.
    InvalidInput,
    /// A failed authentication or a truncated credential.
    InvalidData,
    /// A command, address type, version or protocol that is not served.
    Unsupported,
    /// The outbound dial failed.
    ConnectionRefused,
    /// The stream failed in the middle of a connection.
    ConnectionReset,
    /// A name resolved to no address.
    AddrNotAvailable,
    /// The carrier channel closed.
    BrokenPipe,
    /// No remote server is configured.
    NotConnected,
    /// The stream ended inside a fixed-size field.
    UnexpectedEof,
}

/// Every failure the core can report.
#[derive(Clone, Copy, Debug, PartialEq, Eq, Structural)]
pub enum Error {
    /// The stream ended before the 56 credential bytes were there.
    MalformedHeader,
    /// The presented credential differs from the configured one.
    PasswordMismatch,
    /// The command byte is none of 1, 2, 3.
    UnsupportedCommand,
    /// The address type byte is none of 1, 3, 4.
    UnsupportedAddressType,
    /// The SOCKS version byte is not 5.
    UnsupportedVersion,
    /// A domain name of length zero.
    EmptyDomain,
    /// A domain name longer than 255 bytes.
    DomainTooLong,
    /// A datagram payload longer than 8192 bytes.
    PayloadTooLarge,
    /// A domain name resolved to no address.
    Unresolved,
    /// A domain name that is to be resolved and is not UTF-8 text.
    DomainNotText,
    /// The stream ended inside a header or a record.
    ShortRead,
    /// The inbound protocol is neither SOCKS nor Trojan.
    UnsupportedInbound,
    /// A direct outbound got a request that came in over SOCKS.
    SocksRequest,
    /// A direct outbound got a request that names no proxy protocol.
    DirectRequest,
    /// The outbound needs a remote server and none is configured.
    MissingDestination,
    /// The outbound credential is not 56 bytes long.
    BadSecretLength,
    /// The protocol is not Trojan where only Trojan is served.
    UnsupportedProtocol,
    /// The gRPC outbound has no remote server.
    NullDestination,
    /// The Bind command.
    BindUnsupported,
    /// The configuration names an address and no port.
    MissingPort,
    /// The configuration names a port and no address.
    MissingAddress,
    /// The chunk stream ended or failed.
    StreamClosed,
    /// QUIC is configured without TLS material.
    QuicWithoutTls,
    /// The TLS material for QUIC could not be loaded.
    QuicTlsInvalid,
    /// The VLESS version byte is wrong.
    IncorrectVersion,
    /// The VLESS command byte is none of 1, 2, 3.
    VlessCommand,
    /// The VLESS address type byte is none of 1, 3, 4.
    VlessAddressType,
    /// A VLESS request for a domain name, which carries no address.
    VlessRequestData,
}

impl Error {
    /// The kind of this failure.
    pub open spec fn spec_kind(self) -> ErrorKind {
        match self {
            Error::MalformedHeader | Error::PasswordMismatch | Error::DomainNotText => {
                ErrorKind::InvalidData
            },
            Error::UnsupportedCommand
            | Error::UnsupportedAddressType
            | Error::UnsupportedVersion
            | Error::UnsupportedInbound
            | Error::SocksRequest
            | Error::DirectRequest
            | Error::UnsupportedProtocol
            | Error::NullDestination
            | Error::BindUnsupported
            | Error::QuicWithoutTls => ErrorKind::Unsupported,
            Error::EmptyDomain
            | Error::DomainTooLong
            | Error::PayloadTooLarge
            | Error::BadSecretLength
            | Error::MissingPort
            | Error::MissingAddress
            | Error::QuicTlsInvalid
            | Error::IncorrectVersion
            | Error::VlessCommand
            | Error::VlessAddressType
            | Error::VlessRequestData => ErrorKind::InvalidInput,
            Error::ShortRead => ErrorKind::UnexpectedEof,
            Error::Unresolved => ErrorKind::AddrNotAvailable,
            Error::MissingDestination => ErrorKind::NotConnected,
            Error::StreamClosed => ErrorKind::BrokenPipe,
        }
    }

    /// The text of this failure.
    pub open spec fn spec_message(self) -> Seq<char> {
        match self {
            Error::MalformedHeader => "Malformed Trojan header"@,
            Error::PasswordMismatch => "Trojan password mismatch"@,
            Error::UnsupportedCommand => "Unsupported command request"@,
            Error::UnsupportedAddressType => "Unsupported address type"@,
            Error::UnsupportedVersion => "Unsupported version number"@,
            Error::EmptyDomain => "Domain name is empty"@,
            Error::DomainTooLong => "Domain name is longer than 255 bytes"@,
            Error::PayloadTooLarge => "Payload is longer than 8192 bytes"@,
            Error::Unresolved => "Failed to resolve DNS name"@,
            Error::DomainNotText => "request domain name contains non-utf8 character"@,
            Error::ShortRead => "Stream ended inside a header"@,
            Error::UnsupportedInbound => "Failed to accept inbound stream, unsupported protocol"@,
            Error::SocksRequest => "Proxy request can't have socks as proxy protocol"@,
            Error::DirectRequest => "Proxy request can't have direct as proxy protocol"@,
            Error::MissingDestination => "missing address of the remote server"@,
            Error::BadSecretLength => "Hex in trojan protocol is not 56 bytes"@,
            Error::UnsupportedProtocol => "Unsupported protocol"@,
            Error::NullDestination => "Destination can not be null"@,
            Error::BindUnsupported => "Bind command is not supported in Trojan protocol"@,
            Error::MissingPort => "Missing port while address is present"@,
            Error::MissingAddress => "Missing address while port is present"@,
            Error::StreamClosed => "Failed to read"@,
            Error::QuicWithoutTls => "QUIC protocol must have TLS configuration"@,
            Error::QuicTlsInvalid => "Failed to build TLS configuration for QUIC"@,
            Error::IncorrectVersion => "Incorrect version number"@,
            Error::VlessCommand => "Unsupported command"@,
            Error::VlessAddressType => "Unsupported address type"@,
            Error::VlessRequestData => "Failed to parse request data"@,
        }
    }

    /// The kind of this failure.
    #[verifier::when_used_as_spec(spec_kind)]
    pub fn kind(self) -> (kind: ErrorKind)
        ensures
            kind == self.spec_kind(),
    {
        match self {
            Error::MalformedHeader | Error::PasswordMismatch | Error::DomainNotText => {
                ErrorKind::InvalidData
            },
            Error::UnsupportedCommand
            | Error::UnsupportedAddressType
            | Error::UnsupportedVersion
            | Error::UnsupportedInbound
            | Error::SocksRequest
            | Error::DirectRequest
            | Error::UnsupportedProtocol
            | Error::NullDestination
            | Error::BindUnsupported
            | Error::QuicWithoutTls => ErrorKind::Unsupported,
            Error::EmptyDomain
            | Error::DomainTooLong
            | Error::PayloadTooLarge
            | Error::BadSecretLength
            | Error::MissingPort
            | Error::MissingAddress
            | Error::QuicTlsInvalid
            | Error::IncorrectVersion
            | Error::VlessCommand
            | Error::VlessAddressType
            | Error::VlessRequestData => ErrorKind::InvalidInput,
            Error::ShortRead => ErrorKind::UnexpectedEof,
            Error::Unresolved => ErrorKind::AddrNotAvailable,
            Error::MissingDestination => ErrorKind::NotConnected,
            Error::StreamClosed => ErrorKind::BrokenPipe,
        }
    }

    /// The text of this failure.
    pub fn message(self) -> (text: &'static str)
        ensures
            text@ == self.spec_message(),
    {
        match self {
            Error::MalformedHeader => "Malformed Trojan header",
            Error::PasswordMismatch => "Trojan password mismatch",
            Error::UnsupportedCommand => "Unsupported command request",
            Error::UnsupportedAddressType => "Unsupported address type",
            Error::UnsupportedVersion => "Unsupported version number",
            Error::EmptyDomain => "Domain name is empty",
            Error::DomainTooLong => "Domain name is longer than 255 bytes",
            Error::PayloadTooLarge => "Payload is longer than 8192 bytes",
            Error::Unresolved => "Failed to resolve DNS name",
            Error::DomainNotText => "request domain name contains non-utf8 character",
            Error::ShortRead => "Stream ended inside a header",
            Error::UnsupportedInbound => "Failed to accept inbound stream, unsupported protocol",
            Error::SocksRequest => "Proxy request can't have socks as proxy protocol",
            Error::DirectRequest => "Proxy request can't have direct as proxy protocol",
            Error::MissingDestination => "missing address of the remote server",
            Error::BadSecretLength => "Hex in trojan protocol is not 56 bytes",
            Error::UnsupportedProtocol => "Unsupported protocol",
            Error::NullDestination => "Destination can not be null",
            Error::BindUnsupported => "Bind command is not supported in Trojan protocol",
            Error::MissingPort => "Missing port while address is present",
            Error::MissingAddress => "Missing address while port is present",
            Error::StreamClosed => "Failed to read",
            Error::QuicWithoutTls => "QUIC protocol must have TLS configuration",
            Error::QuicTlsInvalid => "Failed to build TLS configuration for QUIC",
            Error::IncorrectVersion => "Incorrect version number",
            Error::VlessCommand => "Unsupported command",
            Error::VlessAddressType => "Unsupported address type",
            Error::VlessRequestData => "Failed to parse request data",
        }
    }
}

} // verus!
