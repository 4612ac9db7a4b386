//! The VLESS request and its answer.
use crate::buffer::{put_slice, put_u8};
use crate::protocol::common::addr::{Address, IpAddrPort, IpAddress, IPV4_SIZE, IPV6_SIZE};
use crate::protocol::common::atype::{ATYPE_IPV4, ATYPE_IPV6};
use crate::wire::{be_value, read_u128, read_u32};
use byteorder::{BigEndian, ByteOrder};
use vstd::prelude::*;
use vstd::slice::slice_subrange;

verus! {

/// The only VLESS version served.
pub const VERSION: u8 = 1;

/// `BigEndian::read_u16` of the `byteorder` crate: the first two bytes of
/// `buf` as one number, the high byte first. It panics on fewer than two
/// bytes, which the precondition rules out.
#[verifier::external_body]
pub(crate) fn read_u16_be(buf: &[u8]) -> (n: u16)
    requires
        buf@.len() >= 2,
    ensures
        n == buf@[0] as int * 256 + buf@[1] as int,
{
    BigEndian::read_u16(buf)
}

/// A VLESS request. The address holds 16 bytes, of which an IPv4 address
/// uses the first four.
#[derive(Debug)]
pub struct Request {
    version: u8,
    uuid: [u8; 16],
    command: u8,
    port: [u8; 2],
    atype: u8,
    addr: [u8; 16],
}

/// What a VLESS request is: the model that every contract speaks of.
pub struct VlessModel {
    pub version: u8,
    pub uuid: Seq<u8>,
    pub command: u8,
    pub port: Seq<u8>,
    pub atype: u8,
    pub addr: Seq<u8>,
}

impl VlessModel {
    /// The wire form of the request: version, user, command, port,
    /// address type, and the address, of which an IPv4 address takes four
    /// bytes and any other sixteen.
    pub open spec fn wire(self) -> Seq<u8> {
        seq![self.version] + self.uuid + seq![self.command] + self.port + seq![self.atype] + (
        if self.atype == ATYPE_IPV4 {
            self.addr.take(IPV4_SIZE as int)
        } else {
            self.addr
        })
    }

    /// The destination of the request, if its address type is numeric.
    pub open spec fn destination(self) -> Option<(Address, u16)> {
        let port = (self.port[0] as int * 256 + self.port[1] as int) as u16;
        if self.atype == ATYPE_IPV4 {
            Some((Address::IPv4(be_value(self.addr.take(IPV4_SIZE as int)) as u32), port))
        } else if self.atype == ATYPE_IPV6 {
            Some((Address::IPv6(be_value(self.addr) as u128), port))
        } else {
            None
        }
    }
}

impl View for Request {
    type V = VlessModel;

    closed spec fn view(&self) -> VlessModel {
        VlessModel {
            version: self.version,
            uuid: self.uuid@,
            command: self.command,
            port: self.port@,
            atype: self.atype,
            addr: self.addr@,
        }
    }
}

impl Request {
    /// The request with these fields.
    pub fn new(
        version: u8,
        uuid: [u8; 16],
        command: u8,
        port: [u8; 2],
        atype: u8,
        addr: [u8; 16],
    ) -> (request: Request)
        ensures
            request@ == (VlessModel {
                version,
                uuid: uuid@,
                command,
                port: port@,
                atype,
                addr: addr@,
            }),
    {
        Request { version, uuid, command, port, atype, addr }
    }

    /// The wire form of the request.
    pub fn to_bytes(&self) -> (wire: Vec<u8>)
        ensures
            wire@ == self@.wire(),
    {
        let mut buf: Vec<u8> = Vec::new();
        put_u8(&mut buf, self.version);
        put_slice(&mut buf, self.uuid.as_slice());
        put_u8(&mut buf, self.command);
        put_slice(&mut buf, self.port.as_slice());
        put_u8(&mut buf, self.atype);
        if self.atype == ATYPE_IPV4 {
            put_slice(&mut buf, slice_subrange(self.addr.as_slice(), 0, IPV4_SIZE));
        } else if self.atype == ATYPE_IPV6 {
            put_slice(&mut buf, slice_subrange(self.addr.as_slice(), 0, IPV6_SIZE));
            assert(self.addr@.subrange(0, IPV6_SIZE as int) =~= self.addr@);
        } else {
            put_slice(&mut buf, self.addr.as_slice());
        }
        assert(buf@ =~= self@.wire());
        buf
    }

    /// The destination of the request: its address and port as numbers.
    /// A request whose address type is not numeric has none.
    pub fn request_addr_port(&self) -> (dest: Option<IpAddrPort>)
        ensures
            match (dest, self@.destination()) {
                (Some(d), Some(m)) => d@ == m,
                (None, None) => true,
                _ => false,
            },
    {
        let port = read_u16_be(self.port.as_slice());
        if self.atype == ATYPE_IPV4 {
            let a = read_u32(self.addr.as_slice(), 0);
            assert(self.addr@.subrange(0, 4) =~= self.addr@.take(IPV4_SIZE as int));
            Some(IpAddrPort::new(IpAddress::from_u32(a), port))
        } else if self.atype == ATYPE_IPV6 {
            let a = read_u128(self.addr.as_slice(), 0);
            assert(self.addr@.subrange(0, 16) =~= self.addr@);
            Some(IpAddrPort::new(IpAddress::from_u128(a), port))
        } else {
            None
        }
    }
}

/// The answer to a request: the version.
#[derive(Debug)]
pub struct Response {
    version: u8,
}

impl Response {
    /// The version the answer was made with.
    pub closed spec fn spec_version(&self) -> u8 {
        self.version
    }

    /// The answer of version `version`.
    pub fn new(version: u8) -> (response: Response)
        ensures
            response.spec_version() == version,
    {
        Response { version }
    }

    /// The wire form of the answer: the one byte of the version served,
    /// whatever version the answer was made with.
    pub fn to_bytes(&self) -> (wire: Vec<u8>)
        ensures
            wire@ == seq![VERSION],
    {
        let mut wire: Vec<u8> = Vec::new();
        wire.push(VERSION);
        assert(wire@ =~= seq![VERSION]);
        wire
    }
}

} // verus!
