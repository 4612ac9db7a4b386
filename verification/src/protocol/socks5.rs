//! The SOCKS5 handshake of the local edge: greeting, request, reply.
//! Authentication is always "none".
pub mod base;
pub mod parser;
pub mod stream;

use crate::buffer::put_slice;
use crate::error::Error;
use crate::protocol::common::addr::{Address, IpAddress};
use crate::protocol::common::atype::ATYPE_IPV4;
use crate::protocol::common::parse::{outcome_of, Parsed};
use crate::protocol::common::request::{InboundRequest, RequestModel};
use crate::protocol::socks5::base::{
    ack_bytes, ClientHello, HelloModel, RequestAck, ServerHello, VERSION,
};
use crate::protocol::socks5::parser::{parse, parse_request};
use crate::wire::{be_bytes, lemma_be_bytes_u16};
use vstd::prelude::*;
use vstd::slice::{slice_subrange, slice_to_vec};

verus! {

/// What the bytes `s` say when a client greeting is expected at their
/// start: version, number of methods, that many methods. Neither the
/// version nor the methods are judged.
pub open spec fn parse_hello(s: Seq<u8>) -> Parsed<HelloModel> {
    if s.len() < 2 {
        Parsed::Incomplete
    } else if s.len() < 2 + s[1] {
        Parsed::Incomplete
    } else {
        Parsed::Complete(
            HelloModel { version: s[0], methods: s.subrange(2, 2 + s[1]) },
            (2 + s[1]) as nat,
        )
    }
}

/// The address every reply names: 127.0.0.1.
pub const LOOPBACK: u32 = 0x7F00_0001;

/// The reply to a request: version 5, success, reserved, an IPv4 address,
/// 127.0.0.1, and the advertised port.
pub open spec fn request_ack_bytes(port: u16) -> Seq<u8> {
    ack_bytes(0, 0, ATYPE_IPV4, Address::IPv4(LOOPBACK), port)
}

/// The ten bytes of the reply to a request.
pub proof fn lemma_request_ack_bytes(port: u16)
    ensures
        request_ack_bytes(port) == seq![
            5u8,
            0u8,
            0u8,
            1u8,
            127u8,
            0u8,
            0u8,
            1u8,
            (port / 256) as u8,
            (port % 256) as u8,
        ],
{
    reveal_with_fuel(be_bytes, 5);
    lemma_be_bytes_u16(port);
    assert(be_bytes(LOOPBACK as nat, 4) =~= seq![127u8, 0u8, 0u8, 1u8]);
    assert(request_ack_bytes(port) =~= seq![
        5u8,
        0u8,
        0u8,
        1u8,
        127u8,
        0u8,
        0u8,
        1u8,
        (port / 256) as u8,
        (port % 256) as u8,
    ]);
}

/// Where a handshake stands.
#[derive(Clone, Copy, Debug, PartialEq, Eq, Structural)]
pub enum Phase {
    /// The client's greeting is awaited.
    Greeting,
    /// The greeting was answered; the request is awaited.
    Request,
    /// The request was answered: what follows belongs to the tunnel.
    Established,
}

/// What the caller does after feeding the handshake.
#[derive(Debug)]
pub enum Progress {
    /// Read more bytes and feed the longer buffer. Nothing was consumed.
    NeedMore,
    /// The greeting is read: drop `consumed` bytes, send `reply`.
    Greeted { consumed: usize, reply: Vec<u8> },
    /// The request is read: drop `consumed` bytes, send `reply`, and serve
    /// `request`.
    Accepted { consumed: usize, reply: Vec<u8>, request: InboundRequest },
    /// The handshake was over before: the bytes belong to the tunnel.
    Established,
}

/// What a step of the handshake comes to, in the models.
pub enum ProgressModel {
    NeedMore,
    Greeted { consumed: nat, reply: Seq<u8> },
    Accepted { consumed: nat, reply: Seq<u8>, request: RequestModel },
    Established,
}

impl View for Progress {
    type V = ProgressModel;

    open spec fn view(&self) -> ProgressModel {
        match *self {
            Progress::NeedMore => ProgressModel::NeedMore,
            Progress::Greeted { consumed, reply } => ProgressModel::Greeted {
                consumed: consumed as nat,
                reply: reply@,
            },
            Progress::Accepted { consumed, reply, request } => ProgressModel::Accepted {
                consumed: consumed as nat,
                reply: reply@,
                request: request@,
            },
            Progress::Established => ProgressModel::Established,
        }
    }
}

/// One step of the handshake: from the phase, the bytes buffered and the
/// advertised port to the next phase and what the caller does, or to the
/// failure that ends the connection.
pub open spec fn step(phase: Phase, s: Seq<u8>, port: u16) -> (Phase, Result<ProgressModel, Error>) {
    match phase {
        Phase::Greeting => match parse_hello(s) {
            Parsed::Complete(_, n) => (
                Phase::Request,
                Ok(ProgressModel::Greeted { consumed: n, reply: seq![VERSION, 0u8] }),
            ),
            _ => (Phase::Greeting, Ok(ProgressModel::NeedMore)),
        },
        Phase::Request => match parse_request(s) {
            Parsed::Incomplete => (Phase::Request, Ok(ProgressModel::NeedMore)),
            Parsed::Invalid(e) => (Phase::Request, Err(e)),
            Parsed::Complete(request, n) => (
                Phase::Established,
                Ok(
                    ProgressModel::Accepted {
                        consumed: n,
                        reply: request_ack_bytes(port),
                        request,
                    },
                ),
            ),
        },
        Phase::Established => (Phase::Established, Ok(ProgressModel::Established)),
    }
}

/// The view of a step's result.
pub open spec fn progress_of(r: Result<Progress, Error>) -> Result<ProgressModel, Error> {
    match r {
        Ok(p) => Ok(p@),
        Err(e) => Err(e),
    }
}

/// Reads the client's greeting at the start of `buf`. Any version and any
/// list of methods are accepted.
///
/// `Ok(None)` asks for more bytes and consumes nothing. No greeting is
/// ever refused.
pub fn read_hello(buf: &[u8]) -> (r: Result<Option<(ClientHello, usize)>, Error>)
    ensures
        outcome_of(r) == parse_hello(buf@),
        r matches Ok(Some((hello, _))) ==> hello.spec_method_size() == buf@[1],
{
    if buf.len() < 2 {
        return Ok(None);
    }
    let count = buf[1] as usize;
    if buf.len() < 2 + count {
        return Ok(None);
    }
    let methods = slice_to_vec(slice_subrange(buf, 2, 2 + count));
    Ok(Some((ClientHello::new(buf[0], methods), 2 + count)))
}

/// Answers the greeting at the start of `buf` with "version 5, no
/// authentication", appended to `stream`, and tells how many bytes the
/// greeting took.
///
/// `None` asks for more bytes: nothing is consumed and nothing appended.
pub fn init_ack(stream: &mut Vec<u8>, buf: &[u8]) -> (consumed: Option<usize>)
    ensures
        match parse_hello(buf@) {
            Parsed::Complete(_, n) => {
                &&& consumed == Some(n as usize)
                &&& n <= usize::MAX
                &&& final(stream)@ == old(stream)@ + seq![VERSION, 0u8]
            },
            _ => consumed is None && final(stream)@ == old(stream)@,
        },
{
    match read_hello(buf) {
        Ok(Some((_, consumed))) => {
            let server_hello = ServerHello::new(0);
            put_slice(stream, &server_hello.bytes());
            Some(consumed)
        },
        _ => None,
    }
}

/// Appends to `stream` the reply to a request: success, bound to
/// 127.0.0.1 and the advertised `port`.
pub fn write_request_ack(stream: &mut Vec<u8>, port: u16)
    ensures
        final(stream)@ == old(stream)@ + request_ack_bytes(port),
{
    let ack = RequestAck::new(0, 0, ATYPE_IPV4, IpAddress::from_u32(LOOPBACK), port);
    match ack.to_bytes(stream) {
        Ok(()) => {},
        Err(_) => {},
    }
}

/// Feeds the handshake with the bytes buffered so far and moves it on:
/// greeting and reply first, then request and reply.
///
/// On `Err` the connection is over. The advertised `port` goes into the
/// reply to the request.
pub fn accept(phase: &mut Phase, buf: &[u8], port: u16) -> (r: Result<Progress, Error>)
    ensures
        (*final(phase), progress_of(r)) == step(*old(phase), buf@, port),
{
    match *phase {
        Phase::Greeting => {
            let mut reply: Vec<u8> = Vec::new();
            match init_ack(&mut reply, buf) {
                Some(consumed) => {
                    *phase = Phase::Request;
                    assert(reply@ =~= seq![VERSION, 0u8]);
                    Ok(Progress::Greeted { consumed, reply })
                },
                None => Ok(Progress::NeedMore),
            }
        },
        Phase::Request => match parse(buf) {
            Ok(Some((request, consumed))) => {
                let mut reply: Vec<u8> = Vec::new();
                write_request_ack(&mut reply, port);
                assert(reply@ =~= request_ack_bytes(port));
                *phase = Phase::Established;
                Ok(Progress::Accepted { consumed, reply, request: request.into_request() })
            },
            Ok(None) => Ok(Progress::NeedMore),
            Err(e) => Err(e),
        },
        Phase::Established => Ok(Progress::Established),
    }
}

} // verus!
