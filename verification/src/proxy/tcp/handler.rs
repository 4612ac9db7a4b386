//! The outbound side: from a request to the leg that serves it.
use crate::config::base::{OutboundConfig, OutboundMode};
use crate::error::Error;
use crate::protocol::common::addr::{Address, IpAddrPort};
use crate::protocol::common::command::Command;
use crate::protocol::common::request::{
    wire_address, InboundRequest, RequestModel, TransportProtocol,
};
use crate::protocol::trojan::base::HEX_SIZE;
use crate::protocol::trojan::{handshake, header_bytes};
use crate::proxy::base::SupportedProtocols;
use crate::proxy::tcp::acceptor::{make_secret, secret_len, secret_of};
use vstd::prelude::*;

verus! {

/// What carries a tunnel to the remote proxy.
#[derive(Clone, Copy, Debug, PartialEq, Eq, Structural)]
pub enum Carrier {
    /// A TCP connection, under TLS if a server name is given.
    Tcp,
    /// A bidirectional stream of a QUIC connection.
    Quic,
    /// A bidirectional gRPC stream of chunks; the handshake is its first
    /// message.
    Grpc,
}

/// A tunnel to open to the remote proxy.
#[derive(Debug)]
pub struct Tunnel {
    pub carrier: Carrier,
    /// The remote proxy.
    pub address: String,
    pub port: u16,
    /// The server name to expect under TLS; without one the carrier is not
    /// secured.
    pub server_name: Option<String>,
    /// The Trojan header to send first, in one burst.
    pub handshake: Vec<u8>,
    /// The request the tunnel is opened for. Its transport tells what
    /// follows the header: a byte relay, or datagrams framed as records for
    /// its destination.
    pub request: InboundRequest,
}

/// The outbound leg of a request.
#[derive(Debug)]
pub enum Outbound {
    /// Open a TCP connection to the destination and relay bytes both ways.
    Connect(IpAddrPort),
    /// Bind a UDP socket, send the payload of each record read to its own
    /// destination, and frame each datagram received as a record for this
    /// destination.
    Associate(IpAddrPort),
    /// Open a tunnel to the remote proxy.
    Tunnel(Tunnel),
}

/// What an outbound leg is: the model that every contract speaks of.
pub enum OutboundModel {
    Connect(Address, u16),
    Associate(Address, u16),
    Tunnel {
        carrier: Carrier,
        address: Seq<char>,
        port: u16,
        server_name: Option<Seq<char>>,
        handshake: Seq<u8>,
        request: RequestModel,
    },
}

impl View for Outbound {
    type V = OutboundModel;

    open spec fn view(&self) -> OutboundModel {
        match *self {
            Outbound::Connect(dest) => OutboundModel::Connect(dest.ip@, dest.port),
            Outbound::Associate(dest) => OutboundModel::Associate(dest.ip@, dest.port),
            Outbound::Tunnel(tunnel) => OutboundModel::Tunnel {
                carrier: tunnel.carrier,
                address: tunnel.address@,
                port: tunnel.port,
                server_name: match tunnel.server_name {
                    Some(name) => Some(name@),
                    None => None,
                },
                handshake: tunnel.handshake@,
                request: tunnel.request@,
            },
        }
    }
}

/// The view of a dispatch result.
pub open spec fn outbound_of(r: Result<Outbound, Error>) -> Result<OutboundModel, Error> {
    match r {
        Ok(outbound) => Ok(outbound@),
        Err(e) => Err(e),
    }
}

/// What the outbound side of every connection shares. It is made once and
/// only read afterwards.
#[derive(Debug)]
pub struct TcpHandler {
    mode: OutboundMode,
    protocol: SupportedProtocols,
    destination: Option<(String, u16)>,
    tls: Option<String>,
    secret: Vec<u8>,
}

/// What a handler is: the model that every contract speaks of.
pub struct HandlerModel {
    pub mode: OutboundMode,
    pub protocol: SupportedProtocols,
    /// The remote proxy, if one is configured.
    pub destination: Option<(Seq<char>, u16)>,
    /// The server name to expect under TLS, if TLS is configured.
    pub tls: Option<Seq<char>>,
    pub secret: Seq<u8>,
}

impl View for TcpHandler {
    type V = HandlerModel;

    closed spec fn view(&self) -> HandlerModel {
        HandlerModel {
            mode: self.mode,
            protocol: self.protocol,
            destination: match self.destination {
                Some((address, port)) => Some((address@, port)),
                None => None,
            },
            tls: match self.tls {
                Some(name) => Some(name@),
                None => None,
            },
            secret: self.secret@,
        }
    }
}

/// The handler that a configuration describes. An address without a port
/// and a port without an address are refused.
pub open spec fn handler_of(outbound: OutboundConfig) -> Result<HandlerModel, Error> {
    match (outbound.address, outbound.port) {
        (Some(_), None) => Err(Error::MissingPort),
        (None, Some(_)) => Err(Error::MissingAddress),
        _ => Ok(
            HandlerModel {
                mode: outbound.mode,
                protocol: outbound.protocol,
                destination: match (outbound.address, outbound.port) {
                    (Some(address), Some(port)) => Some((address@, port)),
                    _ => None,
                },
                tls: match outbound.tls {
                    Some(tls) => Some(tls.host_name@),
                    None => None,
                },
                secret: secret_of(outbound.protocol, outbound.secret),
            },
        ),
    }
}

/// The leg of a request that is served on the spot: a Trojan request goes
/// straight to its destination, by TCP or by UDP. Bind is refused, and so
/// is a request that did not come in over Trojan.
pub open spec fn direct_plan(request: RequestModel) -> Result<OutboundModel, Error> {
    match request.proxy_protocol {
        SupportedProtocols::TROJAN => if request.command == Command::Bind {
            Err(Error::BindUnsupported)
        } else {
            match request.transport_protocol {
                TransportProtocol::TCP => Ok(OutboundModel::Connect(request.addr, request.port)),
                TransportProtocol::UDP => Ok(OutboundModel::Associate(request.addr, request.port)),
            }
        },
        SupportedProtocols::SOCKS => Err(Error::SocksRequest),
        SupportedProtocols::DIRECT => Err(Error::DirectRequest),
    }
}

/// The leg of a request that is handed on to the remote proxy at
/// `address`, `port` over `carrier`: a tunnel opened with the Trojan
/// header. The outbound protocol must be Trojan, the credential 56 bytes
/// long, the command not Bind and the destination fit for the wire.
pub open spec fn tunnel_to(
    handler: HandlerModel,
    request: RequestModel,
    carrier: Carrier,
    address: Seq<char>,
    port: u16,
) -> Result<OutboundModel, Error> {
    if handler.protocol != SupportedProtocols::TROJAN {
        Err(Error::UnsupportedProtocol)
    } else if handler.secret.len() != HEX_SIZE {
        Err(Error::BadSecretLength)
    } else if request.command == Command::Bind {
        Err(Error::BindUnsupported)
    } else if !wire_address(request.addr) {
        Err(Error::EmptyDomain)
    } else {
        Ok(
            OutboundModel::Tunnel {
                carrier,
                address,
                port,
                server_name: handler.tls,
                handshake: header_bytes(handler.secret, request),
                request,
            },
        )
    }
}

/// The leg of a request under a handler in TCP or QUIC mode. Without a
/// remote proxy nothing can be dialed.
pub open spec fn tunnel_plan(handler: HandlerModel, request: RequestModel, carrier: Carrier) -> Result<
    OutboundModel,
    Error,
> {
    match handler.destination {
        None => Err(Error::MissingDestination),
        Some((address, port)) => tunnel_to(handler, request, carrier, address, port),
    }
}

/// The leg of a request under a handler in gRPC mode.
pub open spec fn grpc_plan(handler: HandlerModel, request: RequestModel) -> Result<
    OutboundModel,
    Error,
> {
    match handler.destination {
        None => Err(Error::NullDestination),
        Some((address, port)) => tunnel_to(handler, request, Carrier::Grpc, address, port),
    }
}

/// The outbound leg of a request under a handler, or the failure that
/// ends the connection before anything is dialed.
pub open spec fn plan(handler: HandlerModel, request: RequestModel) -> Result<OutboundModel, Error> {
    match handler.mode {
        OutboundMode::DIRECT => direct_plan(request),
        OutboundMode::TCP => tunnel_plan(handler, request, Carrier::Tcp),
        OutboundMode::QUIC => tunnel_plan(handler, request, Carrier::Quic),
        OutboundMode::GRPC => grpc_plan(handler, request),
    }
}

impl TcpHandler {
    /// Makes the handler that `outbound` describes. Its credential has 56
    /// bytes when the protocol is Trojan and a password is set, else none.
    pub fn init(outbound: &OutboundConfig) -> (r: Result<TcpHandler, Error>)
        ensures
            match (r, handler_of(*outbound)) {
                (Ok(handler), Ok(model)) => {
                    &&& handler@ == model
                    &&& handler@.secret.len() == secret_len(outbound.protocol, outbound.secret)
                },
                (Err(e), Err(f)) => e == f,
                _ => false,
            },
    {
        let tls = match &outbound.tls {
            Some(cfg) => Some(cfg.host_name.clone()),
            None => None,
        };
        let destination = match (&outbound.address, outbound.port) {
            (Some(addr), Some(port)) => Some((addr.clone(), port)),
            (Some(_), None) => {
                return Err(Error::MissingPort);
            },
            (None, Some(_)) => {
                return Err(Error::MissingAddress);
            },
            (None, None) => None,
        };
        let secret = make_secret(outbound.protocol, &outbound.secret);
        Ok(TcpHandler { mode: outbound.mode, protocol: outbound.protocol, destination, tls, secret })
    }

    /// The mode of the outbound side.
    pub fn mode(&self) -> (mode: OutboundMode)
        ensures
            mode == self@.mode,
    {
        self.mode
    }

    /// Chooses the outbound leg of `request`, or the failure that ends the
    /// connection before anything is dialed.
    pub fn dispatch(&self, request: InboundRequest) -> (r: Result<Outbound, Error>)
        ensures
            outbound_of(r) == plan(self@, request@),
    {
        match self.mode {
            OutboundMode::DIRECT => self.handle_direct_stream(request),
            OutboundMode::TCP => self.handle_tcp_stream(request),
            OutboundMode::QUIC => self.handle_quic_stream(request),
            OutboundMode::GRPC => self.handle_grpc_stream(request),
        }
    }

    /// Direct mode: the server edge serves a Trojan request itself.
    pub fn handle_direct_stream(&self, request: InboundRequest) -> (r: Result<Outbound, Error>)
        ensures
            outbound_of(r) == direct_plan(request@),
    {
        match request.proxy_protocol {
            SupportedProtocols::TROJAN => {
                match request.command {
                    Command::Bind => {
                        return Err(Error::BindUnsupported);
                    },
                    _ => {},
                }
                match request.transport_protocol {
                    TransportProtocol::TCP => Ok(
                        Outbound::Connect(IpAddrPort::new(request.addr, request.port)),
                    ),
                    TransportProtocol::UDP => Ok(
                        Outbound::Associate(IpAddrPort::new(request.addr, request.port)),
                    ),
                }
            },
            SupportedProtocols::SOCKS => Err(Error::SocksRequest),
            SupportedProtocols::DIRECT => Err(Error::DirectRequest),
        }
    }

    /// What the three tunnel modes share once the remote proxy is known.
    fn open_tunnel(&self, request: InboundRequest, carrier: Carrier, address: &String, port: u16) -> (r:
        Result<Outbound, Error>)
        ensures
            outbound_of(r) == tunnel_to(self@, request@, carrier, address@, port),
    {
        match self.protocol {
            SupportedProtocols::TROJAN => {},
            _ => {
                return Err(Error::UnsupportedProtocol);
            },
        }
        if self.secret.len() != HEX_SIZE {
            return Err(Error::BadSecretLength);
        }
        match request.command {
            Command::Bind => {
                return Err(Error::BindUnsupported);
            },
            _ => {},
        }
        let mut header: Vec<u8> = Vec::new();
        match handshake(&mut header, &request, self.secret.as_slice()) {
            Ok(()) => {},
            Err(e) => {
                return Err(e);
            },
        }
        assert(header@ =~= header_bytes(self@.secret, request@));
        let server_name = match &self.tls {
            Some(name) => Some(name.clone()),
            None => None,
        };
        Ok(
            Outbound::Tunnel(
                Tunnel {
                    carrier,
                    address: address.clone(),
                    port,
                    server_name,
                    handshake: header,
                    request,
                },
            ),
        )
    }

    /// TCP mode: the client edge hands the request on over TCP, under TLS
    /// if it is configured.
    pub fn handle_tcp_stream(&self, request: InboundRequest) -> (r: Result<Outbound, Error>)
        ensures
            outbound_of(r) == tunnel_plan(self@, request@, Carrier::Tcp),
    {
        match &self.destination {
            Some((address, port)) => self.open_tunnel(request, Carrier::Tcp, address, *port),
            None => Err(Error::MissingDestination),
        }
    }

    /// QUIC mode: as TCP mode, over a QUIC stream.
    pub fn handle_quic_stream(&self, request: InboundRequest) -> (r: Result<Outbound, Error>)
        ensures
            outbound_of(r) == tunnel_plan(self@, request@, Carrier::Quic),
    {
        match &self.destination {
            Some((address, port)) => self.open_tunnel(request, Carrier::Quic, address, *port),
            None => Err(Error::MissingDestination),
        }
    }

    /// gRPC mode: as TCP mode, over a gRPC stream whose first message is
    /// the handshake.
    pub fn handle_grpc_stream(&self, request: InboundRequest) -> (r: Result<Outbound, Error>)
        ensures
            outbound_of(r) == grpc_plan(self@, request@),
    {
        match &self.destination {
            Some((address, port)) => self.open_tunnel(request, Carrier::Grpc, address, *port),
            None => Err(Error::NullDestination),
        }
    }
}

} // verus!
