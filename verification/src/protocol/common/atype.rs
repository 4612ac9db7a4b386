//! The address-type tag of the wire formats.
use crate::error::Error;
use vstd::prelude::*;

verus! {

/// The wire value of an IPv4 address.
pub const ATYPE_IPV4: u8 = 1;

/// The wire value of a domain name.
pub const ATYPE_DOMAIN_NAME: u8 = 3;

/// The wire value of an IPv6 address.
pub const ATYPE_IPV6: u8 = 4;

/// Which kind of address follows on the wire.
#[derive(Copy, Clone, Debug, PartialEq, Eq, Structural)]
pub enum Atype {
    IPv4,
    IPv6,
    DomainName,
}

impl Atype {
    /// The wire value of this tag: 1, 4 or 3.
    pub open spec fn spec_to_byte(&self) -> u8 {
        match *self {
            Atype::IPv4 => ATYPE_IPV4,
            Atype::IPv6 => ATYPE_IPV6,
            Atype::DomainName => ATYPE_DOMAIN_NAME,
        }
    }

    /// The tag that a wire byte stands for, if any.
    pub open spec fn spec_from(atype: u8) -> Option<Atype> {
        if atype == ATYPE_IPV4 {
            Some(Atype::IPv4)
        } else if atype == ATYPE_IPV6 {
            Some(Atype::IPv6)
        } else if atype == ATYPE_DOMAIN_NAME {
            Some(Atype::DomainName)
        } else {
            None
        }
    }

    /// Reads a tag from its wire value. Any byte but 1, 3, 4 is refused as
    /// an unsupported address type.
    pub fn from(atype: u8) -> (tag: Result<Atype, Error>)
        ensures
            tag == match Self::spec_from(atype) {
                Some(t) => Ok::<Atype, Error>(t),
                None => Err(Error::UnsupportedAddressType),
            },
    {
        if atype == ATYPE_IPV4 {
            Ok(Atype::IPv4)
        } else if atype == ATYPE_IPV6 {
            Ok(Atype::IPv6)
        } else if atype == ATYPE_DOMAIN_NAME {
            Ok(Atype::DomainName)
        } else {
            Err(Error::UnsupportedAddressType)
        }
    }

    /// The wire value of this tag.
    #[verifier::when_used_as_spec(spec_to_byte)]
    pub fn to_byte(&self) -> (byte: u8)
        ensures
            byte == self.spec_to_byte(),
    {
        match self {
            Atype::IPv4 => ATYPE_IPV4,
            Atype::IPv6 => ATYPE_IPV6,
            Atype::DomainName => ATYPE_DOMAIN_NAME,
        }
    }

    /// The name of this tag.
    pub fn name(&self) -> (text: &'static str)
        ensures
            text@ == match *self {
                Atype::IPv4 => "IPv4"@,
                Atype::IPv6 => "IPv6"@,
                Atype::DomainName => "DomainName"@,
            },
    {
        match self {
            Atype::IPv4 => "IPv4",
            Atype::IPv6 => "IPv6",
            Atype::DomainName => "DomainName",
        }
    }
}

/// Writing a tag and reading it back gives the same tag, and the only
/// bytes that read as a tag are the ones a tag writes.
pub proof fn lemma_atype_round_trip(tag: Atype, byte: u8)
    ensures
        Atype::spec_from(tag.spec_to_byte()) == Some(tag),
        Atype::spec_from(byte) == Some(tag) <==> byte == tag.spec_to_byte(),
{
}

} // verus!
