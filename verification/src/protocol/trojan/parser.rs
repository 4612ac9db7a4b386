//! Reading the Trojan request header and the header of a UDP record.
use crate::error::Error;
use crate::protocol::common::addr::IpAddrPort;
use crate::protocol::common::atype::Atype;
use crate::protocol::common::command::Command;
use crate::protocol::common::parse::{
    lemma_parsed_address_fits, outcome_of, parse_address, read_address, Parsed,
};
use crate::protocol::common::request::{transport_of, RequestModel};
use crate::protocol::trojan::base::{Request, HEX_SIZE};
use crate::protocol::trojan::packet::{TrojanUdpPacketHeader, UdpHeaderModel, MAX_PAYLOAD};
use crate::proxy::base::SupportedProtocols;
use crate::wire::{be_value, read_u16};
use vstd::prelude::*;
use vstd::slice::slice_subrange;

verus! {

/// `constant_time_eq` of the crate of that name: whether the two byte
/// strings have the same length and the same bytes. That its running time
/// does not depend on where they differ is the crate's promise and no part
/// of this contract.
pub assume_specification[ constant_time_eq::constant_time_eq ](a: &[u8], b: &[u8]) -> (same: bool)
    ensures
        same == (a@ == b@),
;

/// The offset of the command byte: behind the credential and its
/// delimiter.
pub open spec fn command_at() -> int {
    HEX_SIZE + 2
}

/// What the bytes `s` say when a Trojan header guarded by `key` is
/// expected at their start.
///
/// Nothing is decided before all 56 credential bytes are there. Then they
/// must equal `key`. The two delimiters are skipped, whatever they hold.
/// The command, the address type and the address are each judged as soon
/// as their bytes are there.
pub open spec fn parse_header(s: Seq<u8>, key: Seq<u8>) -> Parsed<RequestModel> {
    if s.len() < HEX_SIZE {
        Parsed::Incomplete
    } else if s.subrange(0, HEX_SIZE as int) != key {
        Parsed::Invalid(Error::PasswordMismatch)
    } else if s.len() < command_at() + 1 {
        Parsed::Incomplete
    } else {
        match Command::spec_from(s[command_at()]) {
            None => Parsed::Invalid(Error::UnsupportedCommand),
            Some(command) => if s.len() < command_at() + 2 {
                Parsed::Incomplete
            } else {
                match Atype::spec_from(s[command_at() + 1]) {
                    None => Parsed::Invalid(Error::UnsupportedAddressType),
                    Some(atype) => match parse_address(atype, s.skip(command_at() + 2)) {
                        Parsed::Incomplete => Parsed::Incomplete,
                        Parsed::Invalid(e) => Parsed::Invalid(e),
                        Parsed::Complete(addr, n) => {
                            let port_at: int = command_at() + 2 + n;
                            if s.len() < port_at + 4 {
                                Parsed::Incomplete
                            } else {
                                Parsed::Complete(
                                    RequestModel {
                                        atype,
                                        addr,
                                        command,
                                        port: be_value(s.subrange(port_at, port_at + 2)) as u16,
                                        transport_protocol: transport_of(command),
                                        proxy_protocol: SupportedProtocols::TROJAN,
                                    },
                                    (port_at + 4) as nat,
                                )
                            }
                        },
                    },
                }
            },
        }
    }
}

/// A header is accepted only behind the right credential, and what is
/// accepted is a valid Trojan request that lies within the buffer.
pub proof fn lemma_accepted_header(s: Seq<u8>, key: Seq<u8>)
    ensures
        parse_header(s, key) matches Parsed::Complete(request, n) ==> {
            &&& s.subrange(0, HEX_SIZE as int) == key
            &&& request.valid()
            &&& request.proxy_protocol == SupportedProtocols::TROJAN
            &&& HEX_SIZE < n <= s.len()
        },
{
    if s.len() >= command_at() + 2 {
        match Atype::spec_from(s[command_at() + 1]) {
            Some(atype) => lemma_parsed_address_fits(atype, s.skip(command_at() + 2)),
            None => {},
        }
    }
}

/// As long as the first 56 bytes differ from the credential, no request
/// comes out, however many bytes follow.
pub proof fn lemma_mismatch_is_final(s: Seq<u8>, key: Seq<u8>)
    requires
        s.len() >= HEX_SIZE,
        s.subrange(0, HEX_SIZE as int) != key,
    ensures
        parse_header(s, key) == Parsed::<RequestModel>::Invalid(Error::PasswordMismatch),
{
}

/// Reads and authenticates the Trojan header at the start of `buf`.
///
/// `Ok(None)` asks for more bytes and consumes nothing. The credential is
/// compared, in constant time, once all its 56 bytes are there, and before
/// anything else is looked at: a mismatch gives `PasswordMismatch`.
pub fn parse_and_authenticate(buf: &[u8], hex_key: &[u8]) -> (r: Result<
    Option<(Request, usize)>,
    Error,
>)
    ensures
        outcome_of(r) == parse_header(buf@, hex_key@),
{
    let len = buf.len();
    if len < HEX_SIZE {
        return Ok(None);
    }
    if !constant_time_eq::constant_time_eq(hex_key, slice_subrange(buf, 0, HEX_SIZE)) {
        return Err(Error::PasswordMismatch);
    }
    if len < HEX_SIZE + 3 {
        return Ok(None);
    }
    let command = match Command::from(buf[HEX_SIZE + 2]) {
        Ok(command) => command,
        Err(e) => return Err(e),
    };
    if len < HEX_SIZE + 4 {
        return Ok(None);
    }
    let atype = match Atype::from(buf[HEX_SIZE + 3]) {
        Ok(atype) => atype,
        Err(e) => return Err(e),
    };
    let (addr, size) = match read_address(buf, HEX_SIZE + 4, atype) {
        Ok(Some(found)) => found,
        Ok(None) => return Ok(None),
        Err(e) => return Err(e),
    };
    proof {
        lemma_parsed_address_fits(atype, buf@.skip(command_at() + 2));
    }
    let port_at = HEX_SIZE + 4 + size;
    if len - port_at < 4 {
        return Ok(None);
    }
    let port = read_u16(buf, port_at);
    Ok(Some((Request::new(command, atype, addr, port, SupportedProtocols::TROJAN), port_at + 4)))
}

/// The failure to report when the stream ends while the header is still
/// incomplete: a malformed header inside the credential, a short read
/// behind it.
pub fn truncated(buffered: usize) -> (e: Error)
    ensures
        e == if buffered < HEX_SIZE {
            Error::MalformedHeader
        } else {
            Error::ShortRead
        },
{
    if buffered < HEX_SIZE {
        Error::MalformedHeader
    } else {
        Error::ShortRead
    }
}

/// What the bytes `s` say when the header of a UDP record is expected at
/// their start: address type, address, port, payload length, delimiter.
///
/// A payload length above 8192 is refused as soon as it is there. The
/// delimiter is skipped, whatever it holds.
pub open spec fn parse_udp_header(s: Seq<u8>) -> Parsed<UdpHeaderModel> {
    if s.len() < 1 {
        Parsed::Incomplete
    } else {
        match Atype::spec_from(s[0]) {
            None => Parsed::Invalid(Error::UnsupportedAddressType),
            Some(atype) => match parse_address(atype, s.skip(1)) {
                Parsed::Incomplete => Parsed::Incomplete,
                Parsed::Invalid(e) => Parsed::Invalid(e),
                Parsed::Complete(addr, n) => {
                    let port_at: int = n as int + 1;
                    if s.len() < port_at + 4 {
                        Parsed::Incomplete
                    } else {
                        let length = be_value(s.subrange(port_at + 2, port_at + 4));
                        if length > MAX_PAYLOAD {
                            Parsed::Invalid(Error::PayloadTooLarge)
                        } else if s.len() < port_at + 6 {
                            Parsed::Incomplete
                        } else {
                            Parsed::Complete(
                                UdpHeaderModel {
                                    atype,
                                    addr,
                                    port: be_value(s.subrange(port_at, port_at + 2)) as u16,
                                    payload_size: length,
                                },
                                (port_at + 6) as nat,
                            )
                        }
                    }
                },
            },
        }
    }
}

/// An accepted record header names an address that can stand on the wire
/// and a payload of at most 8192 bytes, and lies within the buffer.
pub proof fn lemma_accepted_udp_header(s: Seq<u8>)
    ensures
        parse_udp_header(s) matches Parsed::Complete(header, n) ==> {
            &&& header.valid()
            &&& 0 < n <= s.len()
        },
{
    if s.len() >= 1 {
        match Atype::spec_from(s[0]) {
            Some(atype) => lemma_parsed_address_fits(atype, s.skip(1)),
            None => {},
        }
    }
}

/// Reads the header of the UDP record at the start of `buf`.
///
/// `Ok(None)` asks for more bytes and consumes nothing. The destination is
/// handed out as it stands on the wire: a domain name is not resolved
/// here.
pub fn parse_udp(buf: &[u8]) -> (r: Result<Option<(TrojanUdpPacketHeader, usize)>, Error>)
    ensures
        outcome_of(r) == parse_udp_header(buf@),
{
    let len = buf.len();
    if len < 1 {
        return Ok(None);
    }
    let atype = match Atype::from(buf[0]) {
        Ok(atype) => atype,
        Err(e) => return Err(e),
    };
    let (addr, size) = match read_address(buf, 1, atype) {
        Ok(Some(found)) => found,
        Ok(None) => return Ok(None),
        Err(e) => return Err(e),
    };
    proof {
        lemma_parsed_address_fits(atype, buf@.skip(1));
    }
    let port_at = 1 + size;
    if len - port_at < 4 {
        return Ok(None);
    }
    let port = read_u16(buf, port_at);
    let length = read_u16(buf, port_at + 2) as usize;
    if length > MAX_PAYLOAD {
        return Err(Error::PayloadTooLarge);
    }
    if len - port_at < 6 {
        return Ok(None);
    }
    Ok(
        Some(
            (
                TrojanUdpPacketHeader {
                    atype,
                    dest: IpAddrPort::new(addr, port),
                    payload_size: length,
                },
                port_at + 6,
            ),
        ),
    )
}

} // verus!
