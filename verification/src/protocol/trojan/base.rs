//! The Trojan request and the credential that guards it.
use crate::protocol::common::addr::IpAddress;
use crate::protocol::common::atype::Atype;
use crate::protocol::common::command::Command;
use crate::protocol::common::request::{
    transport_of, InboundRequest, RequestModel, TransportProtocol,
};
use crate::proxy::base::SupportedProtocols;
use sha2::{Digest, Sha224};
use vstd::prelude::*;
use vstd::string::StringSliceAdditionalSpecFns;

verus! {

/// The length of a Trojan credential: the 28 bytes of a SHA-224 digest in
/// hexadecimal.
pub const HEX_SIZE: usize = 56;

/// The delimiter after the credential and after the request.
pub const CRLF: u16 = 0x0D0A;

/// The two bytes of the delimiter.
pub open spec fn crlf_bytes() -> Seq<u8> {
    seq![0x0Du8, 0x0Au8]
}

/// The SHA-224 digest of `data`, as the `sha2` crate computes it.
pub uninterp spec fn sha224_digest(data: Seq<u8>) -> Seq<u8>;

/// `Sha224::digest` of the `sha2` crate: the digest of `data`, which has
/// 28 bytes whatever `data` is. Nothing else is claimed of it.
#[verifier::external_body]
pub(crate) fn sha224(data: &[u8]) -> (digest: Vec<u8>)
    ensures
        digest@ == sha224_digest(data@),
        digest@.len() == 28,
{
    Sha224::digest(data).to_vec()
}

/// The lowercase hexadecimal digit of a value below 16, in ASCII.
pub open spec fn hex_digit(nibble: int) -> u8 {
    if nibble < 10 {
        (0x30 + nibble) as u8
    } else {
        (0x61 + nibble - 10) as u8
    }
}

/// The lowercase hexadecimal form of `data`: two digits for each byte,
/// the high one first.
pub open spec fn hex_lower(data: Seq<u8>) -> Seq<u8> {
    Seq::new(
        2 * data.len(),
        |i: int|
            if i % 2 == 0 {
                hex_digit(data[i / 2] as int / 16)
            } else {
                hex_digit(data[i / 2] as int % 16)
            },
    )
}

/// The credential that stands for a password: the SHA-224 digest of its
/// bytes in lowercase hexadecimal.
pub open spec fn credential_of(password: Seq<u8>) -> Seq<u8> {
    hex_lower(sha224_digest(password))
}

/// The lowercase hexadecimal form of `data`.
pub fn to_hex_lower(data: &[u8]) -> (hex: Vec<u8>)
    ensures
        hex@ == hex_lower(data@),
{
    let mut hex: Vec<u8> = Vec::new();
    let mut i: usize = 0;
    while i < data.len()
        invariant
            i <= data@.len(),
            hex@.len() == 2 * i,
            forall|k: int| 0 <= k < 2 * i ==> hex@[k] == hex_lower(data@)[k],
        decreases data@.len() - i,
    {
        let byte = data[i];
        let high = byte / 16;
        let low = byte % 16;
        hex.push(if high < 10 { 0x30 + high } else { 0x61 + (high - 10) });
        hex.push(if low < 10 { 0x30 + low } else { 0x61 + (low - 10) });
        i = i + 1;
    }
    assert(hex@ =~= hex_lower(data@));
    hex
}

/// Computes the credential of a password. It always has 56 bytes.
pub fn credential(password: &str) -> (hex: Vec<u8>)
    ensures
        hex@ == credential_of(password.spec_bytes()),
        hex@.len() == HEX_SIZE,
{
    let digest = sha224(password.as_bytes());
    to_hex_lower(digest.as_slice())
}

/// A Trojan request as it was read off the wire, after authentication.
#[derive(Debug)]
pub struct Request {
    command: Command,
    atype: Atype,
    addr: IpAddress,
    port: u16,
    proxy_protocol: SupportedProtocols,
}

impl View for Request {
    type V = RequestModel;

    closed spec fn view(&self) -> RequestModel {
        RequestModel {
            atype: self.atype,
            addr: self.addr@,
            command: self.command,
            port: self.port,
            transport_protocol: transport_of(self.command),
            proxy_protocol: self.proxy_protocol,
        }
    }
}

impl Request {
    /// The request with these fields. Its transport follows from the
    /// command.
    pub fn new(
        command: Command,
        atype: Atype,
        addr: IpAddress,
        port: u16,
        proxy_protocol: SupportedProtocols,
    ) -> (request: Request)
        ensures
            request@ == (RequestModel {
                atype,
                addr: addr@,
                command,
                port,
                transport_protocol: transport_of(command),
                proxy_protocol,
            }),
    {
        Request { command, atype, addr, port, proxy_protocol }
    }

    /// Turns the request into the protocol-neutral one: datagrams for
    /// Udp, a byte stream for the other commands.
    pub fn into_request(self) -> (request: InboundRequest)
        ensures
            request@ == self@,
    {
        match self.command {
            Command::Udp => InboundRequest::new(
                self.atype,
                self.addr,
                self.command,
                self.port,
                TransportProtocol::UDP,
                self.proxy_protocol,
            ),
            _ => InboundRequest::new(
                self.atype,
                self.addr,
                self.command,
                self.port,
                TransportProtocol::TCP,
                self.proxy_protocol,
            ),
        }
    }
}

} // verus!
