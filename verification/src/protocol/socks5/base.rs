//! The messages of the SOCKS5 handshake.
use crate::protocol::common::addr::IpAddress;
use crate::protocol::common::atype::Atype;
use crate::protocol::common::command::Command;
use crate::buffer::{put_slice, put_u16, put_u8};
use crate::error::Error;
use crate::protocol::common::parse::{address_bytes, write_address};
use crate::protocol::common::request::wire_address;
use crate::wire::lemma_be_bytes_u16;
use crate::protocol::common::request::{
    transport_of, InboundRequest, RequestModel, TransportProtocol,
};
use crate::proxy::base::SupportedProtocols;
use vstd::prelude::*;

verus! {

/// The only SOCKS version served.
pub const VERSION: u8 = 5;

/// A SOCKS5 request as it was read off the wire.
#[derive(Debug)]
pub struct Request {
    version: u8,
    command: Command,
    rsv: u8,
    atype: Atype,
    addr: IpAddress,
    port: u16,
}

/// The client's greeting: its version and the authentication methods it
/// offers.
#[derive(Debug)]
pub struct ClientHello {
    version: u8,
    method_size: u8,
    methods: Vec<u8>,
}

/// The answer to the greeting: the version and the method chosen.
#[derive(Debug)]
pub struct ServerHello {
    version: u8,
    method: u8,
}

/// The reply to a request.
#[derive(Debug)]
pub struct RequestAck {
    version: u8,
    rep: u8,
    rsv: u8,
    atype: u8,
    addr: IpAddress,
    port: u16,
}

/// What a greeting is: the model that every contract speaks of.
pub struct HelloModel {
    pub version: u8,
    pub methods: Seq<u8>,
}

impl View for ClientHello {
    type V = HelloModel;

    closed spec fn view(&self) -> HelloModel {
        HelloModel { version: self.version, methods: self.methods@ }
    }
}

impl ClientHello {
    /// The greeting of a client of version `version` that offers
    /// `methods`. The count that goes with it is the number of methods, as
    /// far as a byte can hold it.
    pub fn new(version: u8, methods: Vec<u8>) -> (hello: ClientHello)
        ensures
            hello@ == (HelloModel { version, methods: methods@ }),
            hello.spec_method_size() == if methods@.len() > 255 {
                255
            } else {
                methods@.len() as int
            },
    {
        let method_size = if methods.len() > 255 {
            255u8
        } else {
            methods.len() as u8
        };
        ClientHello { version, method_size, methods }
    }

    /// The count of methods that goes with the greeting.
    pub closed spec fn spec_method_size(&self) -> u8 {
        self.method_size
    }

    /// The count of methods that goes with the greeting.
    #[verifier::when_used_as_spec(spec_method_size)]
    pub fn method_size(&self) -> (count: u8)
        ensures
            count == self.spec_method_size(),
    {
        self.method_size
    }

    /// The version the client speaks.
    pub fn version(&self) -> (version: u8)
        ensures
            version == self@.version,
    {
        self.version
    }

    /// The methods the client offers.
    pub fn methods(&self) -> (methods: &[u8])
        ensures
            methods@ == self@.methods,
    {
        self.methods.as_slice()
    }
}

impl View for ServerHello {
    type V = Seq<u8>;

    closed spec fn view(&self) -> Seq<u8> {
        seq![self.version, self.method]
    }
}

impl ServerHello {
    /// The answer of version 5 that chooses `method`.
    pub fn new(method: u8) -> (hello: ServerHello)
        ensures
            hello@ == seq![VERSION, method],
    {
        ServerHello { version: VERSION, method }
    }

    /// The two bytes of the answer: version, method.
    pub fn bytes(self) -> (wire: [u8; 2])
        ensures
            wire@ == self@,
    {
        let wire = [self.version, self.method];
        assert(wire@ =~= self@);
        wire
    }
}

/// The wire form of a reply with these fields: version 5, reply code,
/// reserved byte, address type, address, port.
pub open spec fn ack_bytes(
    rep: u8,
    rsv: u8,
    atype: u8,
    addr: crate::protocol::common::addr::Address,
    port: u16,
) -> Seq<u8> {
    seq![VERSION, rep, rsv, atype] + address_bytes(addr) + crate::wire::be_bytes(port as nat, 2)
}

impl View for RequestAck {
    type V = Seq<u8>;

    closed spec fn view(&self) -> Seq<u8> {
        seq![self.version, self.rep, self.rsv, self.atype] + address_bytes(self.addr@)
            + crate::wire::be_bytes(self.port as nat, 2)
    }
}

impl RequestAck {
    /// The reply of version 5 with these fields.
    pub fn new(rep: u8, rsv: u8, atype: u8, addr: IpAddress, port: u16) -> (ack: RequestAck)
        ensures
            ack@ == ack_bytes(rep, rsv, atype, addr@, port),
            ack.spec_addr() == addr@,
    {
        let ack = RequestAck { version: VERSION, rep, rsv, atype, addr, port };
        assert(ack@ =~= ack_bytes(rep, rsv, atype, addr@, port));
        ack
    }

    /// Appends the wire form of the reply to `out`.
    ///
    /// A reply that names a domain of length zero is refused and `out` is
    /// left as it was.
    pub fn to_bytes(&self, out: &mut Vec<u8>) -> (r: Result<(), Error>)
        ensures
            r is Ok ==> final(out)@ == old(out)@ + self@,
            r is Err ==> r == Err::<(), Error>(Error::EmptyDomain) && final(out)@ == old(out)@,
            r is Ok <==> wire_address(self.spec_addr()),
    {
        let mut wire: Vec<u8> = Vec::new();
        put_u8(&mut wire, self.version);
        put_u8(&mut wire, self.rep);
        put_u8(&mut wire, self.rsv);
        put_u8(&mut wire, self.atype);
        match write_address(&mut wire, &self.addr) {
            Ok(()) => {},
            Err(e) => {
                return Err(e);
            },
        }
        put_u16(&mut wire, self.port);
        proof {
            lemma_be_bytes_u16(self.port);
            assert(wire@ =~= self@);
        }
        put_slice(out, wire.as_slice());
        Ok(())
    }

    /// The address the reply names.
    pub closed spec fn spec_addr(&self) -> crate::protocol::common::addr::Address {
        self.addr@
    }
}

impl View for Request {
    type V = RequestModel;

    closed spec fn view(&self) -> RequestModel {
        RequestModel {
            atype: self.atype,
            addr: self.addr@,
            command: self.command,
            port: self.port,
            transport_protocol: transport_of(self.command),
            proxy_protocol: SupportedProtocols::SOCKS,
        }
    }
}

impl Request {
    /// The request with these fields. Its transport follows from the
    /// command, and its proxy protocol is SOCKS.
    pub fn new(version: u8, command: Command, rsv: u8, atype: Atype, port: u16, addr: IpAddress) -> (request:
        Request)
        ensures
            request@ == (RequestModel {
                atype,
                addr: addr@,
                command,
                port,
                transport_protocol: transport_of(command),
                proxy_protocol: SupportedProtocols::SOCKS,
            }),
            request.spec_version() == version,
            request.spec_rsv() == rsv,
    {
        Request { version, command, rsv, atype, port, addr }
    }

    /// The reserved byte the request came with.
    pub closed spec fn spec_rsv(&self) -> u8 {
        self.rsv
    }

    /// The reserved byte the request came with.
    #[verifier::when_used_as_spec(spec_rsv)]
    pub fn rsv(&self) -> (rsv: u8)
        ensures
            rsv == self.spec_rsv(),
    {
        self.rsv
    }

    /// The version byte the request came with.
    pub closed spec fn spec_version(&self) -> u8 {
        self.version
    }

    /// The version byte the request came with.
    #[verifier::when_used_as_spec(spec_version)]
    pub fn version(&self) -> (version: u8)
        ensures
            version == self.spec_version(),
    {
        self.version
    }

    /// Turns the request into the protocol-neutral one: datagrams for
    /// Udp, a byte stream for the other commands.
    pub fn into_request(self) -> (request: InboundRequest)
        ensures
            request@ == self@,
    {
        match self.command {
            Command::Udp => InboundRequest::new(
                self.atype,
                self.addr,
                self.command,
                self.port,
                TransportProtocol::UDP,
                SupportedProtocols::SOCKS,
            ),
            _ => InboundRequest::new(
                self.atype,
                self.addr,
                self.command,
                self.port,
                TransportProtocol::TCP,
                SupportedProtocols::SOCKS,
            ),
        }
    }
}

} // verus!
