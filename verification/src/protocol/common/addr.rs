//! Destination addresses: an IPv4 or IPv6 address, or a domain name of at
//! most 255 bytes.
use crate::buffer::{bytes_as_slice, bytes_clone, bytes_contents};
use crate::error::Error;
use crate::wire::same_bytes;
use bytes::Bytes;
use vstd::prelude::*;
use vstd::std_specs::cmp::PartialEqSpecImpl;
use vstd::string::StringSliceAdditionalSpecFns;
use vstd::utf8::valid_utf8;

verus! {

/// The number of bytes of an IPv4 address on the wire.
pub const IPV4_SIZE: usize = 4;

/// The number of bytes of an IPv6 address on the wire.
pub const IPV6_SIZE: usize = 16;

/// The longest domain name that fits behind a one-byte length.
pub const DOMAIN_MAX: usize = 255;

/// What an address is: the model that every contract speaks of.
pub enum Address {
    IPv4(u32),
    IPv6(u128),
    Domain(Seq<u8>),
}

/// A domain name: at most 255 bytes, not resolved and not checked for
/// being text.
#[derive(Debug)]
pub struct DomainName {
    inner: Bytes,
}

/// A destination address.
#[derive(Debug)]
pub enum IpAddress {
    IPv4(u32),
    IPv6(u128),
    Domain(DomainName),
}

/// An address with its port: the destination of a request or a datagram.
#[derive(Debug)]
pub struct IpAddrPort {
    pub ip: IpAddress,
    pub port: u16,
}

impl View for DomainName {
    type V = Seq<u8>;

    closed spec fn view(&self) -> Seq<u8> {
        bytes_contents(self.inner)
    }
}

impl DomainName {
    #[verifier::type_invariant]
    spec fn fits_length_byte(&self) -> bool {
        bytes_contents(self.inner).len() <= DOMAIN_MAX
    }

    /// The bytes of the name.
    pub fn as_bytes(&self) -> (bytes: &[u8])
        ensures
            bytes@ == self@,
            bytes@.len() <= DOMAIN_MAX,
    {
        proof {
            use_type_invariant(self);
        }
        bytes_as_slice(&self.inner)
    }

    /// The number of bytes of the name.
    pub fn len(&self) -> (n: usize)
        ensures
            n == self@.len(),
            n <= DOMAIN_MAX,
    {
        proof {
            use_type_invariant(self);
        }
        self.inner.len()
    }
}

impl PartialEq for DomainName {
    fn eq(&self, other: &Self) -> (same: bool) {
        same_bytes(self.as_bytes(), other.as_bytes())
    }
}

impl PartialEqSpecImpl for DomainName {
    open spec fn obeys_eq_spec() -> bool {
        true
    }

    open spec fn eq_spec(&self, other: &Self) -> bool {
        self@ == other@
    }
}

impl Clone for DomainName {
    fn clone(&self) -> (copy: Self)
        ensures
            copy@ == self@,
    {
        proof {
            use_type_invariant(self);
        }
        DomainName { inner: bytes_clone(&self.inner) }
    }
}

impl View for IpAddress {
    type V = Address;

    open spec fn view(&self) -> Address {
        match *self {
            IpAddress::IPv4(a) => Address::IPv4(a),
            IpAddress::IPv6(a) => Address::IPv6(a),
            IpAddress::Domain(d) => Address::Domain(d@),
        }
    }
}

impl Address {
    /// The number of address bytes on the wire, a domain's length byte not
    /// counted.
    pub open spec fn len(self) -> nat {
        match self {
            Address::IPv4(_) => 4,
            Address::IPv6(_) => 16,
            Address::Domain(name) => name.len(),
        }
    }

    /// Whether a value of this model can be held: a domain name has at
    /// most 255 bytes.
    pub open spec fn representable(self) -> bool {
        self matches Address::Domain(name) ==> name.len() <= DOMAIN_MAX
    }
}

impl IpAddress {
    /// The number of address bytes on the wire: 4, 16, or the length of
    /// the domain name.
    pub fn len(&self) -> (n: usize)
        ensures
            n == self@.len(),
            self@.representable(),
    {
        match self {
            IpAddress::IPv4(_) => IPV4_SIZE,
            IpAddress::IPv6(_) => IPV6_SIZE,
            IpAddress::Domain(domain) => domain.len(),
        }
    }

    /// The IPv4 address with this number.
    pub fn from_u32(addr: u32) -> (ip: IpAddress)
        ensures
            ip@ == Address::IPv4(addr),
    {
        IpAddress::IPv4(addr)
    }

    /// The IPv6 address with this number.
    pub fn from_u128(addr: u128) -> (ip: IpAddress)
        ensures
            ip@ == Address::IPv6(addr),
    {
        IpAddress::IPv6(addr)
    }

    /// The domain name with these bytes. More than 255 bytes are refused.
    pub fn from_bytes(addr: Bytes) -> (ip: Result<IpAddress, Error>)
        ensures
            bytes_contents(addr).len() <= DOMAIN_MAX ==> ip.is_ok() && ip.unwrap()@
                == Address::Domain(bytes_contents(addr)),
            bytes_contents(addr).len() > DOMAIN_MAX ==> ip == Err::<IpAddress, Error>(
                Error::DomainTooLong,
            ),
    {
        if addr.len() > DOMAIN_MAX {
            Err(Error::DomainTooLong)
        } else {
            Ok(IpAddress::Domain(DomainName { inner: addr }))
        }
    }
}

impl PartialEq for IpAddress {
    fn eq(&self, other: &Self) -> (same: bool) {
        match (self, other) {
            (IpAddress::IPv4(a), IpAddress::IPv4(b)) => *a == *b,
            (IpAddress::IPv6(a), IpAddress::IPv6(b)) => *a == *b,
            (IpAddress::Domain(a), IpAddress::Domain(b)) => a == b,
            _ => false,
        }
    }
}

impl PartialEqSpecImpl for IpAddress {
    open spec fn obeys_eq_spec() -> bool {
        true
    }

    open spec fn eq_spec(&self, other: &Self) -> bool {
        self@ == other@
    }
}

impl Clone for IpAddress {
    fn clone(&self) -> (copy: Self)
        ensures
            copy@ == self@,
    {
        match self {
            IpAddress::IPv4(a) => IpAddress::IPv4(*a),
            IpAddress::IPv6(a) => IpAddress::IPv6(*a),
            IpAddress::Domain(d) => IpAddress::Domain(d.clone()),
        }
    }
}

impl View for IpAddrPort {
    type V = (Address, u16);

    open spec fn view(&self) -> (Address, u16) {
        (self.ip@, self.port)
    }
}

impl IpAddrPort {
    /// The destination at `ip`, port `port`.
    pub fn new(ip: IpAddress, port: u16) -> (dest: Self)
        ensures
            dest.ip == ip,
            dest.port == port,
    {
        Self { ip, port }
    }
}

/// `std::str::from_utf8`: the bytes as text if they are valid UTF-8,
/// nothing if they are not. The text has the bytes it was made of.
#[verifier::external_body]
fn str_from_utf8(bytes: &[u8]) -> (text: Option<&str>)
    ensures
        match text {
            Some(t) => valid_utf8(bytes@) && t.spec_bytes() == bytes@,
            None => !valid_utf8(bytes@),
        },
{
    match std::str::from_utf8(bytes) {
        Ok(text) => Some(text),
        Err(_) => None,
    }
}

/// The name to look up before `dest` can be dialed: none for an IPv4 or
/// IPv6 address, which is dialed as it stands, and the text of a domain
/// name. A domain name that is not UTF-8 is refused before any lookup.
pub fn lookup_name(dest: &IpAddrPort) -> (r: Result<Option<&str>, Error>)
    ensures
        match dest.ip@ {
            Address::Domain(name) => if valid_utf8(name) {
                r matches Ok(Some(text)) && text.spec_bytes() == name
            } else {
                r == Err::<Option<&str>, Error>(Error::DomainNotText)
            },
            _ => r == Ok::<Option<&str>, Error>(None),
        },
{
    match &dest.ip {
        IpAddress::Domain(domain) => match str_from_utf8(domain.as_bytes()) {
            Some(text) => Ok(Some(text)),
            None => Err(Error::DomainNotText),
        },
        _ => Ok(None),
    }
}

/// The address to dial among those that a domain name resolved to, in the
/// order the resolver gave them: the first. A name that resolved to no
/// address cannot be dialed.
pub fn first_resolved(mut resolved: Vec<IpAddrPort>) -> (r: Result<IpAddrPort, Error>)
    ensures
        match r {
            Ok(dest) => resolved@.len() > 0 && dest == resolved@[0],
            Err(e) => resolved@.len() == 0 && e == Error::Unresolved,
        },
{
    if resolved.len() == 0 {
        Err(Error::Unresolved)
    } else {
        Ok(resolved.swap_remove(0))
    }
}

impl Clone for IpAddrPort {
    fn clone(&self) -> (copy: Self)
        ensures
            copy@ == self@,
    {
        IpAddrPort { ip: self.ip.clone(), port: self.port }
    }
}

} // verus!
