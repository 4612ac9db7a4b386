//! Reading the SOCKS5 request.
use crate::error::Error;
use crate::protocol::common::atype::Atype;
use crate::protocol::common::command::Command;
use crate::protocol::common::parse::{
    lemma_parsed_address_fits, outcome_of, parse_address, read_address, Parsed,
};
use crate::protocol::common::request::{transport_of, RequestModel};
use crate::protocol::socks5::base::{Request, VERSION};
use crate::proxy::base::SupportedProtocols;
use crate::wire::{be_value, read_u16};
use vstd::prelude::*;

verus! {

/// What the bytes `s` say when a SOCKS5 request is expected at their
/// start: version, command, a reserved byte, address type, address, port.
///
/// The version, the command, the address type and the address are each
/// judged as soon as their bytes are there. The reserved byte is skipped,
/// whatever it holds.
pub open spec fn parse_request(s: Seq<u8>) -> Parsed<RequestModel> {
    if s.len() < 1 {
        Parsed::Incomplete
    } else if s[0] != VERSION {
        Parsed::Invalid(Error::UnsupportedVersion)
    } else if s.len() < 2 {
        Parsed::Incomplete
    } else {
        match Command::spec_from(s[1]) {
            None => Parsed::Invalid(Error::UnsupportedCommand),
            Some(command) => if s.len() < 4 {
                Parsed::Incomplete
            } else {
                match Atype::spec_from(s[3]) {
                    None => Parsed::Invalid(Error::UnsupportedAddressType),
                    Some(atype) => match parse_address(atype, s.skip(4)) {
                        Parsed::Incomplete => Parsed::Incomplete,
                        Parsed::Invalid(e) => Parsed::Invalid(e),
                        Parsed::Complete(addr, n) => {
                            let port_at: int = n as int + 4;
                            if s.len() < port_at + 2 {
                                Parsed::Incomplete
                            } else {
                                Parsed::Complete(
                                    RequestModel {
                                        atype,
                                        addr,
                                        command,
                                        port: be_value(s.subrange(port_at, port_at + 2)) as u16,
                                        transport_protocol: transport_of(command),
                                        proxy_protocol: SupportedProtocols::SOCKS,
                                    },
                                    (port_at + 2) as nat,
                                )
                            }
                        },
                    },
                }
            },
        }
    }
}

/// An accepted request is valid, came over SOCKS and lies within the
/// buffer.
pub proof fn lemma_accepted_request(s: Seq<u8>)
    ensures
        parse_request(s) matches Parsed::Complete(request, n) ==> {
            &&& request.valid()
            &&& request.proxy_protocol == SupportedProtocols::SOCKS
            &&& 0 < n <= s.len()
        },
{
    if s.len() >= 4 {
        match Atype::spec_from(s[3]) {
            Some(atype) => lemma_parsed_address_fits(atype, s.skip(4)),
            None => {},
        }
    }
}

/// Reads the SOCKS5 request at the start of `stream`.
///
/// `Ok(None)` asks for more bytes and consumes nothing.
pub fn parse(stream: &[u8]) -> (r: Result<Option<(Request, usize)>, Error>)
    ensures
        outcome_of(r) == parse_request(stream@),
        r matches Ok(Some((request, _))) ==> {
            &&& request.spec_version() == VERSION
            &&& request.spec_rsv() == stream@[2]
        },
{
    let len = stream.len();
    if len < 1 {
        return Ok(None);
    }
    let version = stream[0];
    if version != VERSION {
        return Err(Error::UnsupportedVersion);
    }
    if len < 2 {
        return Ok(None);
    }
    let command = match Command::from(stream[1]) {
        Ok(command) => command,
        Err(e) => return Err(e),
    };
    if len < 4 {
        return Ok(None);
    }
    let rsv = stream[2];
    let atype = match Atype::from(stream[3]) {
        Ok(atype) => atype,
        Err(e) => return Err(e),
    };
    let (addr, size) = match read_address(stream, 4, atype) {
        Ok(Some(found)) => found,
        Ok(None) => return Ok(None),
        Err(e) => return Err(e),
    };
    proof {
        lemma_parsed_address_fits(atype, stream@.skip(4));
    }
    let port_at = 4 + size;
    if len - port_at < 2 {
        return Ok(None);
    }
    let port = read_u16(stream, port_at);
    Ok(Some((Request::new(version, command, rsv, atype, port, addr), port_at + 2)))
}

} // verus!
