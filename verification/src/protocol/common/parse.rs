//! What a streaming parser can say of the bytes buffered so far, and the
//! wire form of an address, which every header and record shares.
use crate::buffer::{bytes_from_vec, put_slice, put_u8};
use crate::error::Error;
use crate::protocol::common::addr::{Address, IpAddress};
use crate::protocol::common::atype::Atype;
use crate::protocol::common::request::wire_address;
use crate::wire::{
    be_bytes, be_value, lemma_be_bytes_len, lemma_be_value_of_bytes, lemma_radix_values, put_be,
    read_u128, read_u32,
};
use vstd::prelude::*;
use vstd::slice::{slice_subrange, slice_to_vec};

verus! {

/// The verdict of a streaming parser on a buffer.
pub enum Parsed<T> {
    /// The bytes are the beginning of something acceptable and more are
    /// needed. Nothing is consumed.
    Incomplete,
    /// The bytes are refused, whatever may follow them.
    Invalid(Error),
    /// The buffer starts with a whole item: the item, and the number of
    /// bytes it took.
    Complete(T, nat),
}

/// The verdict that a parser's result stands for: `Ok(None)` asks for more
/// bytes, `Ok(Some(..))` holds the item and the bytes consumed.
pub open spec fn outcome_of<T: View>(r: Result<Option<(T, usize)>, Error>) -> Parsed<T::V> {
    match r {
        Ok(None) => Parsed::Incomplete,
        Ok(Some((item, consumed))) => Parsed::Complete(item@, consumed as nat),
        Err(e) => Parsed::Invalid(e),
    }
}

/// The wire form of an address: four bytes, sixteen bytes, or a length
/// byte and the name.
pub open spec fn address_bytes(addr: Address) -> Seq<u8> {
    match addr {
        Address::IPv4(a) => be_bytes(a as nat, 4),
        Address::IPv6(a) => be_bytes(a as nat, 16),
        Address::Domain(name) => seq![name.len() as u8] + name,
    }
}

/// What the bytes `s` say when an address of type `atype` is expected at
/// their start. A domain name of length zero is refused as soon as its
/// length byte is there.
pub open spec fn parse_address(atype: Atype, s: Seq<u8>) -> Parsed<Address> {
    match atype {
        Atype::IPv4 => if s.len() < 4 {
            Parsed::Incomplete
        } else {
            Parsed::Complete(Address::IPv4(be_value(s.subrange(0, 4)) as u32), 4)
        },
        Atype::IPv6 => if s.len() < 16 {
            Parsed::Incomplete
        } else {
            Parsed::Complete(Address::IPv6(be_value(s.subrange(0, 16)) as u128), 16)
        },
        Atype::DomainName => if s.len() < 1 {
            Parsed::Incomplete
        } else if s[0] == 0 {
            Parsed::Invalid(Error::EmptyDomain)
        } else if s.len() < 1 + s[0] {
            Parsed::Incomplete
        } else {
            Parsed::Complete(Address::Domain(s.subrange(1, 1 + s[0])), (1 + s[0]) as nat)
        },
    }
}

/// No parser accepts a domain name of length 0 or above 255: whatever
/// address comes out of `parse_address` can stand on the wire, and it has
/// the type that was asked for.
pub proof fn lemma_parsed_address_fits(atype: Atype, s: Seq<u8>)
    ensures
        parse_address(atype, s) matches Parsed::Complete(addr, n) ==> {
            &&& wire_address(addr)
            &&& crate::protocol::common::request::atype_of(addr) == atype
            &&& n == address_bytes(addr).len()
            &&& 0 < n <= s.len()
        },
{
    match parse_address(atype, s) {
        Parsed::Complete(addr, n) => {
            match addr {
                Address::IPv4(a) => lemma_be_bytes_len(a as nat, 4),
                Address::IPv6(a) => lemma_be_bytes_len(a as nat, 16),
                Address::Domain(name) => {},
            }
        },
        _ => {},
    }
}

/// An address that can stand on the wire is read back from its wire form,
/// whatever bytes follow it.
pub proof fn lemma_address_round_trip(addr: Address, rest: Seq<u8>)
    requires
        wire_address(addr),
    ensures
        parse_address(crate::protocol::common::request::atype_of(addr), address_bytes(addr) + rest)
            == Parsed::Complete(addr, address_bytes(addr).len()),
{
    let wire = address_bytes(addr);
    let s = wire + rest;
    lemma_radix_values();
    match addr {
        Address::IPv4(a) => {
            lemma_be_bytes_len(a as nat, 4);
            lemma_be_value_of_bytes(a as nat, 4);
            assert(s.subrange(0, 4) =~= wire);
        },
        Address::IPv6(a) => {
            lemma_be_bytes_len(a as nat, 16);
            lemma_be_value_of_bytes(a as nat, 16);
            assert(s.subrange(0, 16) =~= wire);
        },
        Address::Domain(name) => {
            assert(s[0] == name.len() as u8);
            assert(s.subrange(1, 1 + s[0]) =~= name);
        },
    }
}

/// Reads the address of type `atype` that starts at `buf[at]`.
///
/// `Ok(None)` when the bytes from `at` on are only the beginning of an
/// address; `Err(EmptyDomain)` when the length byte of a domain name is
/// zero; else the address and the number of bytes it took.
pub fn read_address(buf: &[u8], at: usize, atype: Atype) -> (r: Result<
    Option<(IpAddress, usize)>,
    Error,
>)
    requires
        at <= buf@.len(),
    ensures
        outcome_of(r) == parse_address(atype, buf@.skip(at as int)),
{
    let left = buf.len() - at;
    let ghost s = buf@.skip(at as int);
    match atype {
        Atype::IPv4 => {
            if left < 4 {
                return Ok(None);
            }
            let a = read_u32(buf, at);
            assert(s.subrange(0, 4) =~= buf@.subrange(at as int, at + 4));
            Ok(Some((IpAddress::from_u32(a), 4)))
        },
        Atype::IPv6 => {
            if left < 16 {
                return Ok(None);
            }
            let a = read_u128(buf, at);
            assert(s.subrange(0, 16) =~= buf@.subrange(at as int, at + 16));
            Ok(Some((IpAddress::from_u128(a), 16)))
        },
        Atype::DomainName => {
            if left < 1 {
                return Ok(None);
            }
            let size = buf[at] as usize;
            if size == 0 {
                return Err(Error::EmptyDomain);
            }
            if left < 1 + size {
                return Ok(None);
            }
            let name = slice_to_vec(slice_subrange(buf, at + 1, at + 1 + size));
            assert(s.subrange(1, 1 + s[0]) =~= name@);
            match IpAddress::from_bytes(bytes_from_vec(name)) {
                Ok(addr) => Ok(Some((addr, 1 + size))),
                Err(e) => Err(e),
            }
        },
    }
}

/// Appends the wire form of `addr` to `out`.
///
/// A domain name of length zero is refused and `out` is left as it was:
/// no serializer emits one.
pub fn write_address(out: &mut Vec<u8>, addr: &IpAddress) -> (r: Result<(), Error>)
    ensures
        wire_address(addr@) ==> {
            &&& r.is_ok()
            &&& final(out)@ == old(out)@ + address_bytes(addr@)
        },
        !wire_address(addr@) ==> {
            &&& r == Err::<(), Error>(Error::EmptyDomain)
            &&& final(out)@ == old(out)@
        },
{
    match addr {
        IpAddress::IPv4(a) => {
            put_be(out, *a as u128, 4);
            Ok(())
        },
        IpAddress::IPv6(a) => {
            put_be(out, *a, 16);
            Ok(())
        },
        IpAddress::Domain(domain) => {
            let name = domain.as_bytes();
            if name.len() == 0 {
                return Err(Error::EmptyDomain);
            }
            put_u8(out, name.len() as u8);
            put_slice(out, name);
            assert(out@ =~= old(out)@ + address_bytes(addr@));
            Ok(())
        },
    }
}

} // verus!
