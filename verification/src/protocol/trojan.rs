//! The Trojan protocol: a 56-byte credential, then the request, then the
//! payload.
pub mod base;
pub mod packet;
pub mod parser;

use crate::buffer::{put_slice, put_u16, put_u8};
use crate::error::Error;
use crate::protocol::common::addr::Address;
use crate::protocol::common::parse::{
    address_bytes, lemma_address_round_trip, outcome_of, write_address, Parsed,
};
use crate::protocol::common::request::{wire_address, InboundRequest, RequestModel};
use crate::protocol::trojan::base::{crlf_bytes, CRLF, HEX_SIZE};
use crate::protocol::trojan::parser::{command_at, parse_and_authenticate, parse_header};
use crate::proxy::base::SupportedProtocols;
use crate::wire::{
    be_bytes, lemma_be_bytes_len, lemma_be_bytes_u16, lemma_be_value_of_bytes, lemma_radix_values,
};
use vstd::prelude::*;

verus! {

/// The header a client opens a tunnel with: credential, delimiter,
/// command, address type, address, port, delimiter.
pub open spec fn header_bytes(secret: Seq<u8>, request: RequestModel) -> Seq<u8> {
    secret + crlf_bytes() + seq![request.command.spec_to_byte(), request.atype.spec_to_byte()]
        + address_bytes(request.addr) + be_bytes(request.port as nat, 2) + crlf_bytes()
}

/// Server side: reads the Trojan header at the start of `buf`, checks the
/// credential against `secret` and hands out the request.
///
/// `Ok(None)` asks for more bytes and consumes nothing. A request comes
/// out only behind the right credential.
pub fn accept(buf: &[u8], secret: &[u8]) -> (r: Result<Option<(InboundRequest, usize)>, Error>)
    ensures
        outcome_of(r) == parse_header(buf@, secret@),
{
    match parse_and_authenticate(buf, secret) {
        Ok(Some((request, consumed))) => Ok(Some((request.into_request(), consumed))),
        Ok(None) => Ok(None),
        Err(e) => Err(e),
    }
}

/// Client side: appends to `stream` the header that opens a tunnel for
/// `request` under the credential `secret`, to be sent in one burst.
///
/// A request for a domain name of length zero is refused and `stream` is
/// left as it was.
pub fn handshake(stream: &mut Vec<u8>, request: &InboundRequest, secret: &[u8]) -> (r: Result<
    (),
    Error,
>)
    ensures
        wire_address(request@.addr) ==> {
            &&& r.is_ok()
            &&& final(stream)@ == old(stream)@ + header_bytes(secret@, request@)
        },
        !wire_address(request@.addr) ==> {
            &&& r == Err::<(), Error>(Error::EmptyDomain)
            &&& final(stream)@ == old(stream)@
        },
{
    let mut header: Vec<u8> = Vec::new();
    put_slice(&mut header, secret);
    put_u16(&mut header, CRLF);
    put_u8(&mut header, request.command.to_byte());
    put_u8(&mut header, request.atype.to_byte());
    match write_address(&mut header, &request.addr) {
        Ok(()) => {},
        Err(e) => return Err(e),
    }
    put_u16(&mut header, request.port);
    put_u16(&mut header, CRLF);
    proof {
        lemma_be_bytes_u16(request.port);
        assert(header@ =~= header_bytes(secret@, request@));
    }
    put_slice(stream, header.as_slice());
    Ok(())
}

/// Round-trip framing: the header written for a valid request under a
/// 56-byte credential is read back, under the same credential, as that
/// request, and exactly the header is consumed, whatever follows it.
///
/// The header does not say over which protocol the request first came
/// in: what is read back came in over Trojan.
pub proof fn lemma_header_round_trip(secret: Seq<u8>, request: RequestModel, rest: Seq<u8>)
    requires
        secret.len() == HEX_SIZE,
        request.valid(),
    ensures
        parse_header(header_bytes(secret, request) + rest, secret) == Parsed::Complete(
            RequestModel { proxy_protocol: SupportedProtocols::TROJAN, ..request },
            header_bytes(secret, request).len(),
        ),
        request.proxy_protocol == SupportedProtocols::TROJAN ==> parse_header(
            header_bytes(secret, request) + rest,
            secret,
        ) == Parsed::Complete(request, header_bytes(secret, request).len()),
{
    let wire = header_bytes(secret, request);
    let s = wire + rest;
    let addr = address_bytes(request.addr);
    let tail = be_bytes(request.port as nat, 2) + crlf_bytes() + rest;
    let n = addr.len() as int;
    lemma_be_bytes_len(request.port as nat, 2);
    lemma_radix_values();
    lemma_be_value_of_bytes(request.port as nat, 2);
    assert(s.subrange(0, HEX_SIZE as int) =~= secret);
    assert(s[command_at()] == request.command.spec_to_byte());
    assert(s[command_at() + 1] == request.atype.spec_to_byte());
    assert(s.skip(command_at() + 2) =~= addr + tail);
    lemma_address_round_trip(request.addr, tail);
    assert(s.subrange(command_at() + 2 + n, command_at() + 2 + n + 2) =~= be_bytes(
        request.port as nat,
        2,
    ));
}

/// The beginning of the header of a valid request, short of the whole, is
/// held to be incomplete under its own credential: the parser waits and
/// consumes nothing.
pub proof fn lemma_partial_header_waits(secret: Seq<u8>, request: RequestModel, k: int)
    requires
        secret.len() == HEX_SIZE,
        request.valid(),
        0 <= k < header_bytes(secret, request).len(),
    ensures
        parse_header(header_bytes(secret, request).take(k), secret) is Incomplete,
{
    let wire = header_bytes(secret, request);
    let s = wire.take(k);
    let addr = address_bytes(request.addr);
    let n = addr.len() as int;
    let tail = be_bytes(request.port as nat, 2) + crlf_bytes();
    lemma_be_bytes_len(request.port as nat, 2);
    assert(wire =~= secret + crlf_bytes() + seq![
        request.command.spec_to_byte(),
        request.atype.spec_to_byte(),
    ] + addr + tail);
    if k >= HEX_SIZE {
        assert(s.subrange(0, HEX_SIZE as int) =~= secret);
        if k >= command_at() + 1 {
            assert(s[command_at()] == request.command.spec_to_byte());
            if k >= command_at() + 2 {
                assert(s[command_at() + 1] == request.atype.spec_to_byte());
                let from = command_at() + 2;
                if k - from < n {
                    assert(s.skip(from) =~= addr.take(k - from));
                    match request.addr {
                        Address::IPv4(a) => lemma_be_bytes_len(a as nat, 4),
                        Address::IPv6(a) => lemma_be_bytes_len(a as nat, 16),
                        Address::Domain(name) => {
                            if k - from >= 1 {
                                assert(s.skip(from)[0] == name.len() as u8);
                            }
                        },
                    }
                } else {
                    let rest = tail.take(k - from - n);
                    assert(s.skip(from) =~= addr + rest);
                    lemma_address_round_trip(request.addr, rest);
                }
            }
        }
    }
}

} // verus!
