//! The inbound and outbound halves of the configuration, as plain data.
use crate::proxy::base::SupportedProtocols;
use vstd::prelude::*;

verus! {

/// The whole configuration.
#[derive(Debug)]
pub struct Config {
    pub inbound: InboundConfig,
    pub outbound: OutboundConfig,
}

/// The carrier of inbound traffic: a raw TCP byte stream, gRPC messages
/// that carry the bytes, or a QUIC stream.
#[derive(Clone, Copy, Debug, PartialEq, Eq, Structural)]
pub enum InboundMode {
    TCP,
    GRPC,
    QUIC,
}

/// Where outbound traffic goes: straight to the requested destination, or
/// to a remote proxy over TCP, gRPC or QUIC.
#[derive(Clone, Copy, Debug, PartialEq, Eq, Structural)]
pub enum OutboundMode {
    DIRECT,
    TCP,
    GRPC,
    QUIC,
}

/// The listening side.
#[derive(Clone, Debug)]
pub struct InboundConfig {
    pub mode: InboundMode,
    pub protocol: SupportedProtocols,
    pub address: String,
    pub port: u16,
    pub secret: Option<String>,
    pub tls: Option<InboundTlsConfig>,
}

/// The dialing side.
#[derive(Clone, Debug)]
pub struct OutboundConfig {
    pub mode: OutboundMode,
    pub protocol: SupportedProtocols,
    pub address: Option<String>,
    pub port: Option<u16>,
    pub secret: Option<String>,
    pub tls: Option<OutboundTlsConfig>,
}

/// Where the inbound TLS identity is stored.
#[derive(Clone, Debug)]
pub struct InboundTlsConfig {
    pub cert_path: String,
    pub key_path: String,
}

/// How the outbound TLS leg checks the server.
#[derive(Clone, Debug)]
pub struct OutboundTlsConfig {
    pub host_name: String,
    pub allow_insecure: bool,
}

} // verus!
