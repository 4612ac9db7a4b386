//! The outbound side of a tunnel at the server edge, and the way back to
//! the client in chunks.
use crate::error::Error;
use crate::protocol::common::addr::IpAddrPort;
use crate::protocol::common::command::Command;
use crate::protocol::common::request::{wire_address, InboundRequest, RequestModel};
use crate::protocol::trojan::packet::{record_bytes, write_packet, RecordModel, MAX_PAYLOAD};
use crate::proxy::base::SupportedProtocols;
use crate::proxy::tcp::handler::{outbound_of, Outbound, OutboundModel};
use crate::transport::grpc_stream::Hunk;
use vstd::prelude::*;
use vstd::slice::slice_to_vec;

verus! {

/// The size of the buffer that traffic from the destination is read into.
pub const BUFFER_SIZE: usize = 4096;

/// What the outbound side of every tunnel shares: the protocol, which is
/// always Trojan.
#[derive(Debug)]
pub struct GrpcHandler {
    protocol: SupportedProtocols,
}

/// The leg of a request at the server edge, by its command: Connect goes
/// to the destination by TCP, Udp by UDP, Bind is refused.
pub open spec fn hunk_plan(request: RequestModel) -> Result<OutboundModel, Error> {
    match request.command {
        Command::Connect => Ok(OutboundModel::Connect(request.addr, request.port)),
        Command::Udp => Ok(OutboundModel::Associate(request.addr, request.port)),
        Command::Bind => Err(Error::BindUnsupported),
    }
}

impl GrpcHandler {
    #[verifier::type_invariant]
    spec fn handles_trojan(&self) -> bool {
        self.protocol == SupportedProtocols::TROJAN
    }

    /// The protocol handled.
    pub closed spec fn spec_protocol(&self) -> SupportedProtocols {
        self.protocol
    }

    /// The handler, which handles Trojan.
    pub fn new() -> (handler: GrpcHandler)
        ensures
            handler.spec_protocol() == SupportedProtocols::TROJAN,
    {
        Self { protocol: SupportedProtocols::TROJAN }
    }

    /// The protocol handled: Trojan, whatever handler it is.
    #[verifier::when_used_as_spec(spec_protocol)]
    pub fn protocol(&self) -> (protocol: SupportedProtocols)
        ensures
            protocol == self.spec_protocol(),
            protocol == SupportedProtocols::TROJAN,
    {
        proof {
            use_type_invariant(self);
        }
        self.protocol
    }

    /// Chooses the outbound leg of an authenticated request.
    pub fn handle_hunk(&self, request: InboundRequest) -> (r: Result<Outbound, Error>)
        ensures
            outbound_of(r) == hunk_plan(request@),
    {
        proof {
            use_type_invariant(self);
        }
        match self.protocol {
            SupportedProtocols::TROJAN => match request.command {
                Command::Connect => Ok(
                    Outbound::Connect(IpAddrPort::new(request.addr, request.port)),
                ),
                Command::Udp => Ok(
                    Outbound::Associate(IpAddrPort::new(request.addr, request.port)),
                ),
                Command::Bind => Err(Error::BindUnsupported),
            },
            _ => Err(Error::UnsupportedProtocol),
        }
    }
}

/// The way back of a Connect tunnel: what was read from the destination
/// goes to the client as one chunk, byte for byte. An empty read is the
/// end of the stream and gives no chunk.
pub fn write_back_tcp_traffic(read: &[u8]) -> (chunk: Option<Hunk>)
    ensures
        match chunk {
            Some(hunk) => read@.len() > 0 && hunk@ == read@,
            None => read@.len() == 0,
        },
{
    if read.len() == 0 {
        None
    } else {
        Some(Hunk { data: slice_to_vec(read) })
    }
}

/// The way back of a Udp tunnel: a datagram received goes to the client
/// as one chunk that holds one record for the destination `dest` of the
/// request.
///
/// A datagram of more than 8192 bytes and a destination that is a domain
/// name of length zero are refused.
pub fn write_back_udp_traffic(datagram: &[u8], dest: &IpAddrPort) -> (r: Result<Hunk, Error>)
    ensures
        match r {
            Ok(hunk) => {
                let record = RecordModel { addr: dest.ip@, port: dest.port, payload: datagram@ };
                &&& record.valid()
                &&& hunk@ == record_bytes(record)
            },
            Err(e) => {
                &&& e == if !wire_address(dest.ip@) {
                    Error::EmptyDomain
                } else {
                    Error::PayloadTooLarge
                }
                &&& !wire_address(dest.ip@) || datagram@.len() > MAX_PAYLOAD
            },
        },
{
    let mut buf: Vec<u8> = Vec::new();
    match write_packet(&mut buf, dest, datagram) {
        Ok(()) => Ok(Hunk { data: buf }),
        Err(e) => Err(e),
    }
}

} // verus!
