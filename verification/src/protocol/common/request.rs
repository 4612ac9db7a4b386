//! The request every inbound protocol is turned into.
use crate::protocol::common::addr::{Address, IpAddrPort, IpAddress, DOMAIN_MAX};
use crate::protocol::common::atype::Atype;
use crate::protocol::common::command::Command;
use crate::proxy::base::SupportedProtocols;
use vstd::prelude::*;

verus! {

/// Whether the tunnel carries a byte stream or datagrams.
#[derive(Debug, Copy, Clone, PartialEq, Eq, Structural)]
pub enum TransportProtocol {
    TCP,
    UDP,
}

/// The protocol-neutral request: where the client wants to go, how, and
/// over which proxy protocol it asked.
#[derive(Debug)]
pub struct InboundRequest {
    pub atype: Atype,
    pub addr: IpAddress,
    pub command: Command,
    pub port: u16,
    pub transport_protocol: TransportProtocol,
    pub proxy_protocol: SupportedProtocols,
}

/// What a request is: the model that every contract speaks of.
pub struct RequestModel {
    pub atype: Atype,
    pub addr: Address,
    pub command: Command,
    pub port: u16,
    pub transport_protocol: TransportProtocol,
    pub proxy_protocol: SupportedProtocols,
}

/// The address type that an address is written with.
pub open spec fn atype_of(addr: Address) -> Atype {
    match addr {
        Address::IPv4(_) => Atype::IPv4,
        Address::IPv6(_) => Atype::IPv6,
        Address::Domain(_) => Atype::DomainName,
    }
}

/// The transport that a command asks for: datagrams for Udp, a byte
/// stream for the others.
pub open spec fn transport_of(command: Command) -> TransportProtocol {
    match command {
        Command::Udp => TransportProtocol::UDP,
        _ => TransportProtocol::TCP,
    }
}

/// Whether an address can stand on the wire: a domain name has 1 to 255
/// bytes.
pub open spec fn wire_address(addr: Address) -> bool {
    addr matches Address::Domain(name) ==> 1 <= name.len() <= DOMAIN_MAX
}

impl RequestModel {
    /// Whether the fields agree with each other and the address can stand
    /// on the wire: the tag is that of the address, the transport that of
    /// the command.
    pub open spec fn valid(self) -> bool {
        &&& self.atype == atype_of(self.addr)
        &&& self.transport_protocol == transport_of(self.command)
        &&& wire_address(self.addr)
    }
}

impl View for InboundRequest {
    type V = RequestModel;

    open spec fn view(&self) -> RequestModel {
        RequestModel {
            atype: self.atype,
            addr: self.addr@,
            command: self.command,
            port: self.port,
            transport_protocol: self.transport_protocol,
            proxy_protocol: self.proxy_protocol,
        }
    }
}

impl InboundRequest {
    /// The request with these fields.
    pub fn new(
        atype: Atype,
        addr: IpAddress,
        command: Command,
        port: u16,
        transport_protocol: TransportProtocol,
        proxy_protocol: SupportedProtocols,
    ) -> (request: Self)
        ensures
            request@ == (RequestModel {
                atype,
                addr: addr@,
                command,
                port,
                transport_protocol,
                proxy_protocol,
            }),
    {
        Self { atype, addr, command, port, transport_protocol, proxy_protocol }
    }

    /// Where the request wants to go: its address and port. A domain name
    /// is handed out as it is; resolving it is left to the moment the
    /// outbound leg is dialed.
    pub fn destination_address(self) -> (dest: IpAddrPort)
        ensures
            dest@ == (self@.addr, self@.port),
    {
        IpAddrPort::new(self.addr, self.port)
    }
}

impl Clone for InboundRequest {
    fn clone(&self) -> (copy: Self)
        ensures
            copy@ == self@,
    {
        InboundRequest {
            atype: self.atype,
            addr: self.addr.clone(),
            command: self.command,
            port: self.port,
            transport_protocol: self.transport_protocol,
            proxy_protocol: self.proxy_protocol,
        }
    }
}

} // verus!
