//! Trojan UDP records: datagrams carried inside a byte stream.
//!
//! A record is address type, address, port, payload length, delimiter and
//! payload. It tells its own end, so records can follow each other on a
//! stream with nothing between them.
use crate::buffer::{put_slice, put_u16, put_u8};
use crate::error::Error;
use crate::protocol::common::addr::{Address, IpAddrPort, IpAddress};
use crate::protocol::common::atype::Atype;
use crate::protocol::common::parse::{
    address_bytes, lemma_address_round_trip, outcome_of, write_address, Parsed,
};
use crate::protocol::common::request::{atype_of, wire_address, InboundRequest};
use crate::protocol::trojan::base::{crlf_bytes, CRLF};
use crate::protocol::trojan::parser::{lemma_accepted_udp_header, parse_udp, parse_udp_header};
use crate::wire::{
    be_bytes, lemma_be_bytes_len, lemma_be_bytes_u16, lemma_be_value_of_bytes, lemma_radix_values,
};
use vstd::prelude::*;
use vstd::slice::{slice_subrange, slice_to_vec};

verus! {

/// The longest payload a record may carry.
pub const MAX_PAYLOAD: usize = 8192;

/// The size of the buffer a datagram is received into.
pub const BUF_SIZE: usize = 4096;

/// The header of one record: where its payload goes and how long it is.
#[derive(Debug)]
pub struct TrojanUdpPacketHeader {
    pub atype: Atype,
    pub dest: IpAddrPort,
    pub payload_size: usize,
}

/// What a record header is: the model that every contract speaks of.
pub struct UdpHeaderModel {
    pub atype: Atype,
    pub addr: Address,
    pub port: u16,
    pub payload_size: nat,
}

impl UdpHeaderModel {
    /// Whether the header can stand on the wire: the tag is that of the
    /// address, a domain name has 1 to 255 bytes, the payload at most 8192.
    pub open spec fn valid(self) -> bool {
        &&& self.atype == atype_of(self.addr)
        &&& wire_address(self.addr)
        &&& self.payload_size <= MAX_PAYLOAD
    }
}

impl View for TrojanUdpPacketHeader {
    type V = UdpHeaderModel;

    open spec fn view(&self) -> UdpHeaderModel {
        UdpHeaderModel {
            atype: self.atype,
            addr: self.dest.ip@,
            port: self.dest.port,
            payload_size: self.payload_size as nat,
        }
    }
}

/// One datagram with its destination.
#[derive(Debug)]
pub struct TrojanUdpPacket {
    pub dest: IpAddrPort,
    pub payload: Vec<u8>,
}

/// What a record is: the model that every contract speaks of.
pub struct RecordModel {
    pub addr: Address,
    pub port: u16,
    pub payload: Seq<u8>,
}

impl RecordModel {
    /// Whether the record can stand on the wire: a domain name has 1 to
    /// 255 bytes, the payload at most 8192.
    pub open spec fn valid(self) -> bool {
        &&& wire_address(self.addr)
        &&& self.payload.len() <= MAX_PAYLOAD
    }
}

impl View for TrojanUdpPacket {
    type V = RecordModel;

    open spec fn view(&self) -> RecordModel {
        RecordModel { addr: self.dest.ip@, port: self.dest.port, payload: self.payload@ }
    }
}

/// The models of a run of packets, in order.
pub open spec fn models(packets: Seq<TrojanUdpPacket>) -> Seq<RecordModel> {
    Seq::new(packets.len(), |i: int| packets[i]@)
}

/// The wire form of a record.
pub open spec fn record_bytes(record: RecordModel) -> Seq<u8> {
    seq![atype_of(record.addr).spec_to_byte()] + address_bytes(record.addr) + be_bytes(
        record.port as nat,
        2,
    ) + be_bytes(record.payload.len(), 2) + crlf_bytes() + record.payload
}

/// What the bytes `s` say when a record is expected at their start: its
/// header, then as many payload bytes as the header announces.
pub open spec fn parse_record(s: Seq<u8>) -> Parsed<RecordModel> {
    match parse_udp_header(s) {
        Parsed::Incomplete => Parsed::Incomplete,
        Parsed::Invalid(e) => Parsed::Invalid(e),
        Parsed::Complete(header, n) => if s.len() < n + header.payload_size {
            Parsed::Incomplete
        } else {
            Parsed::Complete(
                RecordModel {
                    addr: header.addr,
                    port: header.port,
                    payload: s.subrange(n as int, (n + header.payload_size) as int),
                },
                n + header.payload_size,
            )
        },
    }
}

/// The wire form of a run of records: one after the other.
pub open spec fn stream_bytes(records: Seq<RecordModel>) -> Seq<u8>
    decreases records.len(),
{
    if records.len() == 0 {
        Seq::empty()
    } else {
        record_bytes(records.first()) + stream_bytes(records.drop_first())
    }
}

/// What a buffer of records comes to.
pub struct Drained {
    /// The whole records at the start of the buffer, in order.
    pub records: Seq<RecordModel>,
    /// The number of bytes they took.
    pub consumed: nat,
    /// Why reading stopped, if it was not for want of bytes.
    pub failure: Option<Error>,
}

/// Reads records off `s` until the rest is no whole record: either it is
/// only the beginning of one, which is left in the buffer, or it is
/// refused.
pub open spec fn parse_records(s: Seq<u8>) -> Drained
    decreases s.len(),
{
    match parse_record(s) {
        Parsed::Incomplete => Drained { records: Seq::empty(), consumed: 0, failure: None },
        Parsed::Invalid(e) => Drained { records: Seq::empty(), consumed: 0, failure: Some(e) },
        Parsed::Complete(record, n) => if 0 < n <= s.len() {
            let rest = parse_records(s.skip(n as int));
            Drained {
                records: seq![record] + rest.records,
                consumed: n + rest.consumed,
                failure: rest.failure,
            }
        } else {
            Drained { records: Seq::empty(), consumed: 0, failure: None }
        },
    }
}

/// The payloads of a run of records, one after the other.
pub open spec fn payloads(records: Seq<RecordModel>) -> Seq<u8>
    decreases records.len(),
{
    if records.len() == 0 {
        Seq::empty()
    } else {
        payloads(records.drop_last()) + records.last().payload
    }
}

/// An accepted record is valid, takes at least its header and lies within
/// the buffer.
pub proof fn lemma_accepted_record(s: Seq<u8>)
    ensures
        parse_record(s) matches Parsed::Complete(record, n) ==> {
            &&& record.valid()
            &&& 0 < n <= s.len()
            &&& n == record_bytes(record).len()
        },
{
    lemma_accepted_udp_header(s);
    match parse_record(s) {
        Parsed::Complete(record, n) => {
            lemma_be_bytes_len(record.port as nat, 2);
            lemma_be_bytes_len(record.payload.len(), 2);
            match Atype::spec_from(s[0]) {
                Some(atype) => {
                    crate::protocol::common::parse::lemma_parsed_address_fits(atype, s.skip(1));
                },
                None => {},
            }
        },
        _ => {},
    }
}

/// A valid record is read back from its wire form, and exactly its wire
/// form is consumed, whatever follows it.
pub proof fn lemma_record_round_trip(record: RecordModel, rest: Seq<u8>)
    requires
        record.valid(),
    ensures
        parse_record(record_bytes(record) + rest) == Parsed::Complete(
            record,
            record_bytes(record).len(),
        ),
{
    let wire = record_bytes(record);
    let s = wire + rest;
    let addr = address_bytes(record.addr);
    let n = addr.len() as int;
    let size = record.payload.len();
    let tail = be_bytes(record.port as nat, 2) + be_bytes(size, 2) + crlf_bytes() + record.payload
        + rest;
    lemma_be_bytes_len(record.port as nat, 2);
    lemma_be_bytes_len(size, 2);
    lemma_radix_values();
    lemma_be_value_of_bytes(record.port as nat, 2);
    lemma_be_value_of_bytes(size, 2);
    assert(s[0] == atype_of(record.addr).spec_to_byte());
    assert(s.skip(1) =~= addr + tail);
    lemma_address_round_trip(record.addr, tail);
    assert(s.subrange(1 + n, 1 + n + 2) =~= be_bytes(record.port as nat, 2));
    assert(s.subrange(1 + n + 2, 1 + n + 4) =~= be_bytes(size, 2));
    assert(s.subrange(1 + n + 6, 1 + n + 6 + size) =~= record.payload);
}

/// The beginning of a valid record, short of the whole, is held to be
/// incomplete: it is never refused and never taken for a record.
pub proof fn lemma_partial_record_waits(record: RecordModel, k: int)
    requires
        record.valid(),
        0 <= k < record_bytes(record).len(),
    ensures
        parse_record(record_bytes(record).take(k)) is Incomplete,
{
    let wire = record_bytes(record);
    let s = wire.take(k);
    let addr = address_bytes(record.addr);
    let n = addr.len() as int;
    let size = record.payload.len();
    let tail = be_bytes(record.port as nat, 2) + be_bytes(size, 2) + crlf_bytes() + record.payload;
    lemma_be_bytes_len(record.port as nat, 2);
    lemma_be_bytes_len(size, 2);
    lemma_radix_values();
    lemma_be_value_of_bytes(size, 2);
    assert(wire =~= seq![atype_of(record.addr).spec_to_byte()] + addr + tail);
    if k >= 1 {
        let atype = atype_of(record.addr);
        assert(s[0] == atype.spec_to_byte());
        if k - 1 < n {
            assert(s.skip(1) =~= addr.take(k - 1));
            match record.addr {
                Address::IPv4(a) => lemma_be_bytes_len(a as nat, 4),
                Address::IPv6(a) => lemma_be_bytes_len(a as nat, 16),
                Address::Domain(name) => {
                    if k - 1 >= 1 {
                        assert(s.skip(1)[0] == name.len() as u8);
                    }
                },
            }
        } else {
            let rest = tail.take(k - 1 - n);
            assert(s.skip(1) =~= addr + rest);
            lemma_address_round_trip(record.addr, rest);
            if k >= 1 + n + 4 {
                assert(s.subrange(1 + n + 2, 1 + n + 4) =~= be_bytes(size, 2));
            }
        }
    }
}

/// How `parse_records` goes on behind a whole record.
pub proof fn lemma_records_behind_first(s: Seq<u8>, record: RecordModel, n: nat)
    requires
        parse_record(s) == Parsed::Complete(record, n),
        0 < n <= s.len(),
    ensures
        parse_records(s) == (Drained {
            records: seq![record] + parse_records(s.skip(n as int)).records,
            consumed: n + parse_records(s.skip(n as int)).consumed,
            failure: parse_records(s.skip(n as int)).failure,
        }),
{
}

/// Record self-delimitation: from any run of valid records followed by
/// the mere beginning of another, the records are read in order, reading
/// stops at the end of the last whole record, and the trailing bytes are
/// not consumed.
pub proof fn lemma_records_self_delimiting(records: Seq<RecordModel>, partial: Seq<u8>)
    requires
        forall|i: int| 0 <= i < records.len() ==> (#[trigger] records[i]).valid(),
        parse_record(partial) is Incomplete,
    ensures
        parse_records(stream_bytes(records) + partial) == (Drained {
            records,
            consumed: stream_bytes(records).len(),
            failure: None,
        }),
    decreases records.len(),
{
    if records.len() == 0 {
        assert(stream_bytes(records) + partial =~= partial);
        assert(records =~= Seq::empty());
    } else {
        let first = records.first();
        let others = records.drop_first();
        let rest = stream_bytes(others) + partial;
        let s = stream_bytes(records) + partial;
        let n = record_bytes(first).len();
        assert(s =~= record_bytes(first) + rest);
        assert(parse_record(s) == Parsed::Complete(first, n) && 0 < n <= s.len()) by {
            lemma_record_round_trip(first, rest);
            lemma_accepted_record(s);
        }
        assert(s.skip(n as int) =~= rest);
        assert forall|i: int| 0 <= i < others.len() implies (#[trigger] others[i]).valid() by {
            assert(others[i] == records[i + 1]);
        }
        lemma_records_self_delimiting(others, partial);
        lemma_records_behind_first(s, first, n);
        assert(seq![first] + others =~= records);
        assert(stream_bytes(records).len() == n + stream_bytes(others).len());
    }
}

/// Record self-delimitation with a record cut short: from any run of
/// valid records followed by the first `k` bytes of another valid record,
/// short of the whole, exactly the run is read and the `k` bytes stay.
pub proof fn lemma_records_then_cut_record(records: Seq<RecordModel>, next: RecordModel, k: int)
    requires
        forall|i: int| 0 <= i < records.len() ==> (#[trigger] records[i]).valid(),
        next.valid(),
        0 <= k < record_bytes(next).len(),
    ensures
        parse_records(stream_bytes(records) + record_bytes(next).take(k)) == (Drained {
            records,
            consumed: stream_bytes(records).len(),
            failure: None,
        }),
{
    lemma_partial_record_waits(next, k);
    lemma_records_self_delimiting(records, record_bytes(next).take(k));
}

/// Reads the whole record at the start of `buf`: header and payload.
///
/// `Ok(None)` asks for more bytes and consumes nothing.
pub fn read_packet(buf: &[u8]) -> (r: Result<Option<(TrojanUdpPacket, usize)>, Error>)
    ensures
        outcome_of(r) == parse_record(buf@),
{
    let (header, at) = match parse_udp(buf) {
        Ok(Some(found)) => found,
        Ok(None) => return Ok(None),
        Err(e) => return Err(e),
    };
    proof {
        lemma_accepted_udp_header(buf@);
    }
    if buf.len() - at < header.payload_size {
        return Ok(None);
    }
    let payload = slice_to_vec(slice_subrange(buf, at, at + header.payload_size));
    Ok(Some((TrojanUdpPacket { dest: header.dest, payload }, at + header.payload_size)))
}

/// Appends to `out` the record that carries `payload` to `dest`.
///
/// A destination that is a domain name of length zero is refused, then a
/// payload of more than 8192 bytes. On refusal `out` is left as it was.
pub fn write_packet(out: &mut Vec<u8>, dest: &IpAddrPort, payload: &[u8]) -> (r: Result<(), Error>)
    ensures
        match r {
            Ok(()) => {
                let record = RecordModel { addr: dest.ip@, port: dest.port, payload: payload@ };
                &&& record.valid()
                &&& final(out)@ == old(out)@ + record_bytes(record)
            },
            Err(e) => {
                &&& final(out)@ == old(out)@
                &&& e == if !wire_address(dest.ip@) {
                    Error::EmptyDomain
                } else {
                    Error::PayloadTooLarge
                }
                &&& !wire_address(dest.ip@) || payload@.len() > MAX_PAYLOAD
            },
        },
{
    let mut record: Vec<u8> = Vec::new();
    let tag = match &dest.ip {
        IpAddress::IPv4(_) => Atype::IPv4,
        IpAddress::IPv6(_) => Atype::IPv6,
        IpAddress::Domain(_) => Atype::DomainName,
    };
    put_u8(&mut record, tag.to_byte());
    match write_address(&mut record, &dest.ip) {
        Ok(()) => {},
        Err(e) => return Err(e),
    }
    if payload.len() > MAX_PAYLOAD {
        return Err(Error::PayloadTooLarge);
    }
    put_u16(&mut record, dest.port);
    put_u16(&mut record, payload.len() as u16);
    put_u16(&mut record, CRLF);
    put_slice(&mut record, payload);
    proof {
        lemma_be_bytes_u16(dest.port);
        lemma_be_bytes_u16(payload.len() as u16);
        let model = RecordModel { addr: dest.ip@, port: dest.port, payload: payload@ };
        assert(record@ =~= record_bytes(model));
    }
    put_slice(out, record.as_slice());
    Ok(())
}

/// What `copy_client_reader_to_udp_socket` found in a buffer.
#[derive(Debug)]
pub struct Datagrams {
    /// The datagrams to send, in order.
    pub packets: Vec<TrojanUdpPacket>,
    /// The number of bytes to drop from the front of the buffer.
    pub consumed: usize,
    /// Why the tunnel must end, if it must.
    pub failure: Option<Error>,
}

impl View for Datagrams {
    type V = Drained;

    open spec fn view(&self) -> Drained {
        Drained {
            records: models(self.packets@),
            consumed: self.consumed as nat,
            failure: self.failure,
        }
    }
}

/// Stream to datagrams: takes every whole record off the front of
/// `client_buffer`, for the caller to send each payload to its
/// destination.
///
/// The bytes of an unfinished record stay in the buffer: `consumed` ends
/// at the last whole record.
pub fn copy_client_reader_to_udp_socket(client_buffer: &[u8]) -> (found: Datagrams)
    ensures
        found@ == parse_records(client_buffer@),
{
    let mut packets: Vec<TrojanUdpPacket> = Vec::new();
    let mut at: usize = 0;
    let mut failure: Option<Error> = None;
    let ghost whole = client_buffer@;
    proof {
        assert(whole.skip(0) =~= whole);
        assert(models(packets@) + parse_records(whole).records =~= parse_records(whole).records);
    }
    loop
        invariant_except_break
            at <= whole.len(),
            failure is None,
            parse_records(whole) == (Drained {
                records: models(packets@) + parse_records(whole.skip(at as int)).records,
                consumed: (at + parse_records(whole.skip(at as int)).consumed) as nat,
                failure: parse_records(whole.skip(at as int)).failure,
            }),
        invariant
            whole == client_buffer@,
        ensures
            at <= whole.len(),
            parse_records(whole) == (Drained {
                records: models(packets@),
                consumed: at as nat,
                failure,
            }),
        decreases whole.len() - at,
    {
        let rest = slice_subrange(client_buffer, at, client_buffer.len());
        assert(rest@ =~= whole.skip(at as int));
        proof {
            lemma_accepted_record(rest@);
        }
        match read_packet(rest) {
            Ok(Some((packet, n))) => {
                let ghost before = models(packets@);
                let ghost tail = parse_records(whole.skip(at as int + n)).records;
                assert(whole.skip(at as int).skip(n as int) =~= whole.skip(at as int + n));
                packets.push(packet);
                assert(models(packets@) =~= before + seq![packet@]);
                assert(before + (seq![packet@] + tail) =~= models(packets@) + tail);
                at = at + n;
            },
            Ok(None) => {
                assert(models(packets@) + Seq::<RecordModel>::empty() =~= models(packets@));
                break ;
            },
            Err(e) => {
                assert(models(packets@) + Seq::<RecordModel>::empty() =~= models(packets@));
                failure = Some(e);
                break ;
            },
        }
    }
    Datagrams { packets, consumed: at, failure }
}

/// Datagram to stream: appends to `client_writer` the record that carries
/// the datagram `datagram`, received for the tunnel to `addr`.
///
/// A datagram of more than 8192 bytes and a destination that is a domain
/// name of length zero are refused, and `client_writer` is left as it was.
pub fn copy_udp_socket_to_client_writer(
    client_writer: &mut Vec<u8>,
    datagram: &[u8],
    addr: &IpAddrPort,
) -> (r: Result<(), Error>)
    ensures
        match r {
            Ok(()) => {
                let record = RecordModel { addr: addr.ip@, port: addr.port, payload: datagram@ };
                &&& record.valid()
                &&& final(client_writer)@ == old(client_writer)@ + record_bytes(record)
            },
            Err(e) => {
                &&& final(client_writer)@ == old(client_writer)@
                &&& e == if !wire_address(addr.ip@) {
                    Error::EmptyDomain
                } else {
                    Error::PayloadTooLarge
                }
                &&& !wire_address(addr.ip@) || datagram@.len() > MAX_PAYLOAD
            },
        },
{
    write_packet(client_writer, addr, datagram)
}

/// Client edge, towards the server: takes what one read from the local
/// client gave. An empty `chunk` is the end of the client's stream: nothing
/// is written and `Ok(false)` tells the caller that this direction is
/// over. Any other chunk is appended to `server_writer` as one record for
/// the destination of `request`, with `Ok(true)`.
///
/// A chunk of more than 8192 bytes and a destination that is a domain
/// name of length zero are refused, and `server_writer` is left as it was.
pub fn copy_client_reader_to_udp_server_writer(
    server_writer: &mut Vec<u8>,
    chunk: &[u8],
    request: &InboundRequest,
) -> (r: Result<bool, Error>)
    ensures
        chunk@.len() == 0 ==> {
            &&& r == Ok::<bool, Error>(false)
            &&& final(server_writer)@ == old(server_writer)@
        },
        chunk@.len() > 0 ==> match r {
            Ok(more) => {
                let record = RecordModel {
                    addr: request@.addr,
                    port: request@.port,
                    payload: chunk@,
                };
                &&& more
                &&& record.valid()
                &&& final(server_writer)@ == old(server_writer)@ + record_bytes(record)
            },
            Err(e) => {
                &&& final(server_writer)@ == old(server_writer)@
                &&& e == if !wire_address(request@.addr) {
                    Error::EmptyDomain
                } else {
                    Error::PayloadTooLarge
                }
                &&& !wire_address(request@.addr) || chunk@.len() > MAX_PAYLOAD
            },
        },
{
    if chunk.len() == 0 {
        return Ok(false);
    }
    let dest = IpAddrPort::new(request.addr.clone(), request.port);
    match write_packet(server_writer, &dest, chunk) {
        Ok(()) => Ok(true),
        Err(e) => Err(e),
    }
}

/// What the end of a record stream comes to when `left` bytes are still
/// buffered: a clean end between two records, a short read inside one.
pub fn end_of_stream(left: usize) -> (r: Result<(), Error>)
    ensures
        r == if left == 0 {
            Ok::<(), Error>(())
        } else {
            Err::<(), Error>(Error::ShortRead)
        },
{
    if left == 0 {
        Ok(())
    } else {
        Err(Error::ShortRead)
    }
}

/// What `copy_udp_server_reader_to_client_writer` found in a buffer.
#[derive(Debug)]
pub struct Payloads {
    /// The bytes to write to the local client.
    pub bytes: Vec<u8>,
    /// The number of bytes to drop from the front of the buffer.
    pub consumed: usize,
    /// Why the tunnel must end, if it must.
    pub failure: Option<Error>,
}

/// Client edge, towards the client: takes every whole record off the
/// front of `server_buffer` and hands out their payloads, one after the
/// other, for the caller to write to the local client.
pub fn copy_udp_server_reader_to_client_writer(server_buffer: &[u8]) -> (found: Payloads)
    ensures
        found.bytes@ == payloads(parse_records(server_buffer@).records),
        found.consumed == parse_records(server_buffer@).consumed,
        found.failure == parse_records(server_buffer@).failure,
{
    let drained = copy_client_reader_to_udp_socket(server_buffer);
    let mut bytes: Vec<u8> = Vec::new();
    let mut i: usize = 0;
    let ghost records = models(drained.packets@);
    assert(records.take(0) =~= Seq::<RecordModel>::empty());
    while i < drained.packets.len()
        invariant
            i <= drained.packets@.len(),
            records == models(drained.packets@),
            bytes@ == payloads(records.take(i as int)),
        decreases drained.packets@.len() - i,
    {
        bytes.extend_from_slice(drained.packets[i].payload.as_slice());
        proof {
            let next = records.take(i + 1);
            assert(next.drop_last() =~= records.take(i as int));
            assert(next.last() == drained.packets@[i as int]@);
        }
        i = i + 1;
    }
    assert(records.take(i as int) =~= records);
    Payloads { bytes, consumed: drained.consumed, failure: drained.failure }
}

} // verus!
