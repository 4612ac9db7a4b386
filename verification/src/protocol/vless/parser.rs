//! Reading the VLESS request.
use crate::error::Error;
use crate::protocol::common::addr::{IPV4_SIZE, IPV6_SIZE};
use crate::protocol::common::atype::{ATYPE_DOMAIN_NAME, ATYPE_IPV4, ATYPE_IPV6};
use crate::protocol::common::command::{BIND, CONNECT, UDP};
use crate::protocol::common::parse::{outcome_of, Parsed};
use crate::protocol::vless::base::{Request, VlessModel, VERSION};
use vstd::prelude::*;

verus! {

/// The length of the fixed part of a request: version, user, command,
/// port, address type.
pub const REQUEST_HEADER_SIZE: usize = 21;

/// Where the parts of the fixed part start.
pub const INDEX_VERSION: usize = 0;

pub const INDEX_UUID: usize = 1;

pub const INDEX_COMMAND: usize = 17;

pub const INDEX_PORT: usize = 18;

pub const INDEX_ATYPE: usize = 20;

/// `n` zero bytes.
pub open spec fn zeros(n: int) -> Seq<u8> {
    Seq::new(n as nat, |i: int| 0u8)
}

/// What the bytes `s` say when a VLESS request is expected at their
/// start.
///
/// Nothing is judged before the 21 bytes of the fixed part are there.
/// Then the version must be 1, the command 1, 2 or 3, the address type 1,
/// 3 or 4, in this order; and a domain name, type 3, is refused, since
/// the request has no room for it.
pub open spec fn parse_vless(s: Seq<u8>) -> Parsed<VlessModel> {
    if s.len() < REQUEST_HEADER_SIZE {
        Parsed::Incomplete
    } else if s[INDEX_VERSION as int] != VERSION {
        Parsed::Invalid(Error::IncorrectVersion)
    } else if s[INDEX_COMMAND as int] != CONNECT && s[INDEX_COMMAND as int] != BIND
        && s[INDEX_COMMAND as int] != UDP {
        Parsed::Invalid(Error::VlessCommand)
    } else if s[INDEX_ATYPE as int] != ATYPE_IPV4 && s[INDEX_ATYPE as int] != ATYPE_DOMAIN_NAME
        && s[INDEX_ATYPE as int] != ATYPE_IPV6 {
        Parsed::Invalid(Error::VlessAddressType)
    } else if s[INDEX_ATYPE as int] == ATYPE_DOMAIN_NAME {
        Parsed::Invalid(Error::VlessRequestData)
    } else {
        let n: int = if s[INDEX_ATYPE as int] == ATYPE_IPV4 {
            4
        } else {
            16
        };
        if s.len() < REQUEST_HEADER_SIZE + n {
            Parsed::Incomplete
        } else {
            Parsed::Complete(
                VlessModel {
                    version: VERSION,
                    uuid: s.subrange(INDEX_UUID as int, INDEX_COMMAND as int),
                    command: s[INDEX_COMMAND as int],
                    port: s.subrange(INDEX_PORT as int, INDEX_ATYPE as int),
                    atype: s[INDEX_ATYPE as int],
                    addr: s.subrange(REQUEST_HEADER_SIZE as int, REQUEST_HEADER_SIZE + n) + zeros(
                        16 - n,
                    ),
                },
                (REQUEST_HEADER_SIZE + n) as nat,
            )
        }
    }
}

/// Reads the VLESS request at the start of `stream`.
///
/// `Ok(None)` asks for more bytes and consumes nothing.
pub fn parse(stream: &[u8]) -> (r: Result<Option<(Request, usize)>, Error>)
    ensures
        outcome_of(r) == parse_vless(stream@),
{
    let buf = stream;
    if buf.len() < REQUEST_HEADER_SIZE {
        return Ok(None);
    }
    let version = buf[INDEX_VERSION];
    if version != VERSION {
        return Err(Error::IncorrectVersion);
    }
    let uuid: [u8; 16] = [
        buf[1],
        buf[2],
        buf[3],
        buf[4],
        buf[5],
        buf[6],
        buf[7],
        buf[8],
        buf[9],
        buf[10],
        buf[11],
        buf[12],
        buf[13],
        buf[14],
        buf[15],
        buf[16],
    ];
    let command = buf[INDEX_COMMAND];
    if command != CONNECT && command != BIND && command != UDP {
        return Err(Error::VlessCommand);
    }
    let port = [buf[INDEX_PORT], buf[INDEX_PORT + 1]];
    let atype = buf[INDEX_ATYPE];
    if atype != ATYPE_IPV4 && atype != ATYPE_DOMAIN_NAME && atype != ATYPE_IPV6 {
        return Err(Error::VlessAddressType);
    }
    let at = REQUEST_HEADER_SIZE;
    let (addr, size): ([u8; 16], usize) = if atype == ATYPE_IPV4 {
        if buf.len() < at + IPV4_SIZE {
            return Ok(None);
        }
        ([buf[at], buf[at + 1], buf[at + 2], buf[at + 3], 0, 0, 0, 0, 0, 0, 0, 0, 0, 0, 0, 0], IPV4_SIZE)
    } else if atype == ATYPE_IPV6 {
        if buf.len() < at + IPV6_SIZE {
            return Ok(None);
        }
        (
            [
                buf[at],
                buf[at + 1],
                buf[at + 2],
                buf[at + 3],
                buf[at + 4],
                buf[at + 5],
                buf[at + 6],
                buf[at + 7],
                buf[at + 8],
                buf[at + 9],
                buf[at + 10],
                buf[at + 11],
                buf[at + 12],
                buf[at + 13],
                buf[at + 14],
                buf[at + 15],
            ],
            IPV6_SIZE,
        )
    } else {
        return Err(Error::VlessRequestData);
    };
    proof {
        let s = stream@;
        assert(uuid@ =~= s.subrange(INDEX_UUID as int, INDEX_COMMAND as int));
        assert(port@ =~= s.subrange(INDEX_PORT as int, INDEX_ATYPE as int));
        assert(addr@ =~= s.subrange(REQUEST_HEADER_SIZE as int, REQUEST_HEADER_SIZE + size) + zeros(
            16 - size,
        ));
    }
    Ok(Some((Request::new(version, uuid, command, port, atype, addr), at + size)))
}

} // verus!
