//! ICMP messages: echo, unreachable, and the stack's replies.

use vstd::prelude::*;
use crate::net::{ones_complement, le32, prefix_upto, read_le16, read_le32, word32, high_half, low_half, swap16, swap32, be_bytes16, be_bytes32, to_be16, to_be32, push_be16, push_be32, extend_bytes,
    add_words, fold_carries, complement16, fold16, ones_sum, NetworkStats};
use crate::net::ip::{IpPacket, Ipv4Address, Ipv4Header, IP_PROTO_ICMP, IPV4_TTL_DEFAULT, ip4, le16, can_count_send, send_ip_packet,
    ip_u32, header_bytes, ihl_len, ipv4_checksum};
use crate::net::arp::ArpEntry;
use crate::net::ip::{routable, counted_send, host_ip_header, room_to_send};
use crate::net::arp::ArpCache;
use crate::net::ethernet::EthernetFrame;

verus! {

pub const ICMP_TYPE_ECHO_REPLY: u8 = 0;
pub const ICMP_TYPE_DEST_UNREACHABLE: u8 = 3;
pub const ICMP_TYPE_SOURCE_QUENCH: u8 = 4;
pub const ICMP_TYPE_REDIRECT: u8 = 5;
pub const ICMP_TYPE_ECHO_REQUEST: u8 = 8;
pub const ICMP_TYPE_TIME_EXCEEDED: u8 = 11;
pub const ICMP_TYPE_PARAMETER_PROBLEM: u8 = 12;
pub const ICMP_TYPE_TIMESTAMP_REQUEST: u8 = 13;
pub const ICMP_TYPE_TIMESTAMP_REPLY: u8 = 14;

pub const ICMP_CODE_NET_UNREACHABLE: u8 = 0;
pub const ICMP_CODE_HOST_UNREACHABLE: u8 = 1;
pub const ICMP_CODE_PROTOCOL_UNREACHABLE: u8 = 2;
pub const ICMP_CODE_PORT_UNREACHABLE: u8 = 3;
pub const ICMP_CODE_FRAGMENTATION_NEEDED: u8 = 4;

/// An ICMP header as held in memory: checksum and rest in network order.
#[derive(Debug, Clone, Copy)]
pub struct IcmpHeader {
    pub typ: u8,
    pub code: u8,
    pub checksum: u16,
    pub rest: u32,
}

/// The identifier and sequence number packed as echo messages carry them.
pub open spec fn echo_rest(identifier: u16, sequence: u16) -> u32 {
    crate::net::packed_halves(identifier, sequence)
}

impl IcmpHeader {
    /// A header with a zero checksum and `rest` stored in network order.
    pub fn new(typ: u8, code: u8, rest: u32) -> (r: Self)
        ensures
            r.typ == typ,
            r.code == code,
            r.checksum == 0,
            r.rest == swap32(rest),
    {
        Self { typ, code, checksum: 0, rest: to_be32(rest) }
    }

    /// An echo request header.
    pub fn echo_request(identifier: u16, sequence: u16) -> (r: Self)
        ensures
            r == Self::new_spec(ICMP_TYPE_ECHO_REQUEST, 0, echo_rest(identifier, sequence)),
    {
        let rest = crate::net::pack_halves(identifier, sequence);
        Self::new(ICMP_TYPE_ECHO_REQUEST, 0, rest)
    }

    /// An echo reply header.
    pub fn echo_reply(identifier: u16, sequence: u16) -> (r: Self)
        ensures
            r == Self::new_spec(ICMP_TYPE_ECHO_REPLY, 0, echo_rest(identifier, sequence)),
    {
        let rest = crate::net::pack_halves(identifier, sequence);
        Self::new(ICMP_TYPE_ECHO_REPLY, 0, rest)
    }

    /// The header `new` builds.
    pub open spec fn new_spec(typ: u8, code: u8, rest: u32) -> Self {
        IcmpHeader { typ, code, checksum: 0, rest: swap32(rest) }
    }

    /// The identifier: the high half of `rest` in host order.
    pub fn get_identifier(&self) -> (r: u16)
        ensures
            r == swap32(self.rest) / 65536,
    {
        high_half(to_be32(self.rest))
    }

    /// The sequence number: the low half of `rest` in host order.
    pub fn get_sequence(&self) -> (r: u16)
        ensures
            r == swap32(self.rest) % 65536,
    {
        low_half(to_be32(self.rest))
    }
}

/// An ICMP message.
pub struct IcmpPacket {
    pub header: IcmpHeader,
    pub data: Vec<u8>,
}

/// The sum the checksum covers: type and code, the two halves of the stored
/// `rest`, and the data words.
pub open spec fn icmp_sum(h: IcmpHeader, data: Seq<u8>) -> int {
    (h.typ * 256 + h.code) + h.rest / 65536 + h.rest % 65536 + ones_sum(data)
}

/// The checksum field value that `new` stores.
pub open spec fn icmp_checksum(h: IcmpHeader, data: Seq<u8>) -> u16 {
    swap16(ones_complement(icmp_sum(h, data)))
}

/// The bytes `to_bytes` writes.
pub open spec fn icmp_image(h: IcmpHeader, data: Seq<u8>) -> Seq<u8> {
    seq![h.typ, h.code] + be_bytes16(h.checksum) + be_bytes32(h.rest) + data
}

/// The limit on data so that the 32-bit checksum sum cannot overflow.
pub open spec fn icmp_data_ok(data: Seq<u8>) -> bool {
    data.len() > 0 && ones_sum(data) + 3 * 65535 <= u32::MAX
}

impl IcmpPacket {
    /// A message with its checksum filled in. The data must not be empty.
    pub fn new(header: IcmpHeader, data: Vec<u8>) -> (r: Self)
        requires
            icmp_data_ok(data@),
        ensures
            r.header == (IcmpHeader { checksum: icmp_checksum(header, data@), ..header }),
            r.data@ == data@,
    {
        let mut packet = Self { header, data };
        packet.update_checksum();
        packet
    }

    /// An echo request carrying `data`.
    pub fn echo_request(identifier: u16, sequence: u16, data: Vec<u8>) -> (r: Self)
        requires
            icmp_data_ok(data@),
        ensures
            r.header == (IcmpHeader {
                checksum: icmp_checksum(IcmpHeader::new_spec(ICMP_TYPE_ECHO_REQUEST, 0, echo_rest(identifier, sequence)), data@),
                ..IcmpHeader::new_spec(ICMP_TYPE_ECHO_REQUEST, 0, echo_rest(identifier, sequence))
            }),
            r.data@ == data@,
    {
        let header = IcmpHeader::echo_request(identifier, sequence);
        Self::new(header, data)
    }

    /// An echo reply carrying `data`.
    pub fn echo_reply(identifier: u16, sequence: u16, data: Vec<u8>) -> (r: Self)
        requires
            icmp_data_ok(data@),
        ensures
            r.header == (IcmpHeader {
                checksum: icmp_checksum(IcmpHeader::new_spec(ICMP_TYPE_ECHO_REPLY, 0, echo_rest(identifier, sequence)), data@),
                ..IcmpHeader::new_spec(ICMP_TYPE_ECHO_REPLY, 0, echo_rest(identifier, sequence))
            }),
            r.data@ == data@,
    {
        let header = IcmpHeader::echo_reply(identifier, sequence);
        Self::new(header, data)
    }

    /// Parses a message of at least 8 bytes whose words fold to 0xFFFF.
    pub fn from_bytes(data: &[u8]) -> (r: Result<Self, &'static str>)
        requires
            ones_sum(data@) <= u32::MAX,
        ensures
            r is Err <==> (data@.len() < 8 || fold16(ones_sum(data@)) != 0xFFFF),
            r matches Err(e) ==> e@ == (if data@.len() < 8 { "ICMP packet too small"@ } else { "Invalid ICMP checksum"@ }),
            r matches Ok(p) ==> {
                &&& p.header.typ == data@[0]
                &&& p.header.code == data@[1]
                &&& p.header.checksum == le16(data@[2], data@[3])
                &&& p.header.rest == le32(data@[4], data@[5], data@[6], data@[7])
                &&& p.data@ == data@.skip(8)
            },
    {
        if data.len() < 8 {
            return Err("ICMP packet too small");
        }
        let header = IcmpHeader {
            typ: data[0],
            code: data[1],
            checksum: read_le16(data[2], data[3]),
            rest: read_le32(data[4], data[5], data[6], data[7]),
        };
        let payload = vstd::slice::slice_to_vec(&data[8..data.len()]);
        assert(payload@ =~= data@.skip(8));
        let packet = Self { header, data: payload };
        if !packet.verify_checksum(data) {
            return Err("Invalid ICMP checksum");
        }
        Ok(packet)
    }

    /// The message bytes: type, code, the stored checksum and rest in
    /// big-endian order, then the data.
    pub fn to_bytes(&self) -> (r: Vec<u8>)
        ensures
            r@ == icmp_image(self.header, self.data@),
    {
        let mut packet: Vec<u8> = Vec::new();
        packet.push(self.header.typ);
        packet.push(self.header.code);
        push_be16(&mut packet, self.header.checksum);
        push_be32(&mut packet, self.header.rest);
        extend_bytes(&mut packet, self.data.as_slice());
        assert(packet@ =~= icmp_image(self.header, self.data@));
        packet
    }

    fn calculate_checksum(&self) -> (r: u16)
        requires
            icmp_data_ok(self.data@),
        ensures
            r == ones_complement(icmp_sum(self.header, self.data@)),
    {
        let typ = self.header.typ;
        let code = self.header.code;
        let rest = self.header.rest;
        assert(rest >> 16u32 == rest / 65536 && rest & 0xFFFF == rest % 65536) by (bit_vector);
        let mut sum: u32 = 0;
        sum = sum + word32(typ, code);
        sum = sum + (rest >> 16u32);
        sum = sum + (rest & 0xFFFF);
        let sum = add_words(self.data.as_slice(), sum);
        let sum = fold_carries(sum);
        complement16(sum)
    }

    fn update_checksum(&mut self)
        requires
            icmp_data_ok(old(self).data@),
        ensures
            final(self).header == (IcmpHeader { checksum: icmp_checksum(old(self).header, old(self).data@), ..old(self).header }),
            final(self).data@ == old(self).data@,
    {
        let c = self.calculate_checksum();
        self.header.checksum = to_be16(c);
    }

    fn verify_checksum(&self, raw_data: &[u8]) -> (r: bool)
        requires
            raw_data@.len() > 0,
            ones_sum(raw_data@) <= u32::MAX,
        ensures
            r == (fold16(ones_sum(raw_data@)) == 0xFFFF),
    {
        let sum = add_words(raw_data, 0);
        let sum = fold_carries(sum);
        sum == 0xFFFF
    }
}

/// This host's address, 192.168.1.100.
fn our_ip() -> (r: Ipv4Address)
    ensures
        r@ == ip4(192, 168, 1, 100),
{
    Ipv4Address::new(192, 168, 1, 100)
}

/// The echo reply for `identifier` and `sequence` carrying `data`, as this
/// host sends it: its header with the checksum filled in, then the data.
pub open spec fn echo_reply_bytes(identifier: u16, sequence: u16, data: Seq<u8>) -> Seq<u8> {
    let h = IcmpHeader::new_spec(ICMP_TYPE_ECHO_REPLY, 0, echo_rest(identifier, sequence));
    icmp_image(IcmpHeader { checksum: icmp_checksum(h, data), ..h }, data)
}

/// Whether `f` is the frame carrying the ICMP message `msg` to `dst`: to the
/// broadcast hardware address or the cached one, from this host's, of type
/// IPv4, holding this host's IPv4 header for the message and the message.
pub open spec fn icmp_frame(f: EthernetFrame, entries: Map<u32, ArpEntry>, dst: Seq<u8>, msg: Seq<u8>) -> bool {
    &&& f.header.dest_mac@ == (if dst == ip4(255, 255, 255, 255) {
        crate::net::ethernet::mac_broadcast()
    } else {
        entries[ip_u32(dst)].mac_address@
    })
    &&& f.header.src_mac@ == crate::net::ethernet::our_mac()
    &&& f.header.ethertype == swap16(crate::net::ethernet::ETHERTYPE_IPV4)
    &&& exists|h: Ipv4Header| #[trigger] host_ip_header(h, dst, IP_PROTO_ICMP, msg.len()) && f.payload@ == header_bytes(h, ihl_len(h.version_ihl)) + msg
}

/// The identifier an ICMP message's bytes carry.
pub open spec fn msg_identifier(d: Seq<u8>) -> u16 {
    (swap32(le32(d[4], d[5], d[6], d[7])) / 65536) as u16
}

/// The sequence number an ICMP message's bytes carry.
pub open spec fn msg_sequence(d: Seq<u8>) -> u16 {
    (swap32(le32(d[4], d[5], d[6], d[7])) % 65536) as u16
}

/// Whether `d` is an echo request this host answers: eight bytes of header
/// at least and some data, a valid checksum, and the echo-request type.
pub open spec fn answerable_echo(d: Seq<u8>) -> bool {
    d.len() > 8 && fold16(ones_sum(d)) == 0xFFFF && d[0] == ICMP_TYPE_ECHO_REQUEST
}

/// Whether `r` is what this host answers the ICMP message `d` from `src`
/// with: the echo reply frame exactly when `d` is an echo request it
/// answers (see `answerable_echo`) and `src` can be reached, else nothing.
pub open spec fn echo_answered(entries: Map<u32, ArpEntry>, src: Seq<u8>, d: Seq<u8>, r: Option<EthernetFrame>) -> bool {
    &&& (r is Some <==> answerable_echo(d) && routable(entries, src))
    &&& r matches Some(f) ==> icmp_frame(f, entries, src, echo_reply_bytes(msg_identifier(d), msg_sequence(d), d.skip(8)))
}

/// Handles an ICMP message carried by `ip_packet`. An echo request is
/// answered with an echo reply carrying the same identifier, sequence number
/// and data; the reply frame is the result. Other messages and messages that
/// do not parse give nothing.
pub fn process_icmp_packet(cache: &ArpCache, stats: &mut NetworkStats, ip_packet: &IpPacket) -> (r: Option<EthernetFrame>)
    requires
        room_to_send(*old(stats), ip_packet.payload@.len()),
        ones_sum(ip_packet.payload@) <= u32::MAX - 3 * 65535,
        ip_packet.payload@.len() + 74 <= usize::MAX,
    ensures
        echo_answered(cache.entries(), ip_packet.header.src_addr@, ip_packet.payload@, r),
        r is Some <==> answerable_echo(ip_packet.payload@) && routable(cache.entries(), ip_packet.header.src_addr@),
        r is None ==> *final(stats) == *old(stats),
        r matches Some(f) ==> {
            let d = ip_packet.payload@;
            &&& icmp_frame(f, cache.entries(), ip_packet.header.src_addr@,
                echo_reply_bytes(msg_identifier(d), msg_sequence(d), d.skip(8)))
            &&& counted_send(*old(stats), *final(stats), f.payload@.len())
        },
{
    let icmp_packet = match IcmpPacket::from_bytes(ip_packet.payload.as_slice()) {
        Ok(p) => p,
        Err(_) => { return None; },
    };
    if icmp_packet.header.typ == ICMP_TYPE_ECHO_REQUEST {
        if icmp_packet.data.len() == 0 {
            return None;
        }
        proof {
            crate::net::lemma_ones_sum_suffix(ip_packet.payload@, 8);
        }
        let id = icmp_packet.header.get_identifier();
        let seq = icmp_packet.header.get_sequence();
        return send_echo_reply(cache, stats, ip_packet.header.src_addr, id, seq, icmp_packet.data);
    }
    None
}

fn send_echo_reply(cache: &ArpCache, stats: &mut NetworkStats, dst_addr: Ipv4Address, identifier: u16, sequence: u16, data: Vec<u8>) -> (r: Option<EthernetFrame>)
    requires
        room_to_send(*old(stats), data@.len() + 8),
        icmp_data_ok(data@),
        data@.len() + 82 <= usize::MAX,
    ensures
        r is Some <==> routable(cache.entries(), dst_addr@),
        r is None ==> *final(stats) == *old(stats),
        r matches Some(f) ==> icmp_frame(f, cache.entries(), dst_addr@, echo_reply_bytes(identifier, sequence, data@))
            && counted_send(*old(stats), *final(stats), f.payload@.len()),
{
    let icmp_packet = IcmpPacket::echo_reply(identifier, sequence, data);
    let bytes = icmp_packet.to_bytes();
    let ip_packet = IpPacket::new(our_ip(), dst_addr, IP_PROTO_ICMP, bytes);
    assert(host_ip_header(ip_packet.header, dst_addr@, IP_PROTO_ICMP, ip_packet.payload@.len()));
    match send_ip_packet(cache, stats, ip_packet) {
        Ok(f) => Some(f),
        Err(_) => None,
    }
}

/// The bytes of an echo request with `identifier`, `sequence` and `data`,
/// read back by `IcmpPacket::from_bytes`: type 8, code 0, the data after
/// eight bytes, and the rest field as the identifier and sequence packed in
/// host order. The stored checksum is written in swapped byte order, so the
/// words fold to 0xFFFF (and the bytes parse) exactly when its two bytes
/// are equal; that is the case this law covers.
pub proof fn lemma_echo_request_round_trip(identifier: u16, sequence: u16, data: Seq<u8>)
    requires
        icmp_data_ok(data),
        swap16(icmp_checksum(IcmpHeader::new_spec(ICMP_TYPE_ECHO_REQUEST, 0, echo_rest(identifier, sequence)), data))
            == icmp_checksum(IcmpHeader::new_spec(ICMP_TYPE_ECHO_REQUEST, 0, echo_rest(identifier, sequence)), data),
    ensures
        ({
            let h0 = IcmpHeader::new_spec(ICMP_TYPE_ECHO_REQUEST, 0, echo_rest(identifier, sequence));
            let d = icmp_image(IcmpHeader { checksum: icmp_checksum(h0, data), ..h0 }, data);
            &&& d.len() >= 8
            &&& fold16(ones_sum(d)) == 0xFFFF
            &&& d[0] == ICMP_TYPE_ECHO_REQUEST && d[1] == 0
            &&& le32(d[4], d[5], d[6], d[7]) == echo_rest(identifier, sequence)
            &&& d.skip(8) == data
        }),
{
    let h0 = IcmpHeader::new_spec(ICMP_TYPE_ECHO_REQUEST, 0, echo_rest(identifier, sequence));
    let c = icmp_checksum(h0, data);
    let h = IcmpHeader { checksum: c, ..h0 };
    let d = icmp_image(h, data);
    crate::net::lemma_header8_words(h.typ, h.code, c, h.rest, data);
    crate::net::lemma_swap32_involutive(echo_rest(identifier, sequence));
    crate::net::arp::lemma_swap16_involutive(ones_complement(icmp_sum(h0, data)));
    assert(c == ones_complement(icmp_sum(h0, data)));
    assert(ones_sum(d) == icmp_sum(h0, data) + ones_complement(icmp_sum(h0, data)));
    crate::net::lemma_complement_closes(icmp_sum(h0, data), ones_sum(d));
}

/// The data an outgoing ping carries, "RustOS ping!".
pub open spec fn ping_data() -> Seq<u8> {
    seq![82u8, 117, 115, 116, 79, 83, 32, 112, 105, 110, 103, 33]
}

/// The IP packet a ping to `dst_addr` sends: an echo request carrying
/// "RustOS ping!" from this host.
pub fn send_ping(dst_addr: Ipv4Address, identifier: u16, sequence: u16) -> (r: IpPacket)
    ensures
        r.header.src_addr@ == ip4(192, 168, 1, 100),
        r.header.dst_addr == dst_addr,
        r.header.protocol == IP_PROTO_ICMP,
        r.payload@ == icmp_image(
            IcmpHeader {
                checksum: icmp_checksum(IcmpHeader::new_spec(ICMP_TYPE_ECHO_REQUEST, 0, echo_rest(identifier, sequence)), ping_data()),
                ..IcmpHeader::new_spec(ICMP_TYPE_ECHO_REQUEST, 0, echo_rest(identifier, sequence))
            },
            ping_data(),
        ),
{
    let data: Vec<u8> = vec![82u8, 117, 115, 116, 79, 83, 32, 112, 105, 110, 103, 33];
    assert(data@ =~= ping_data());
    proof {
        crate::net::lemma_ones_sum_bound(data@);
    }
    let icmp_packet = IcmpPacket::echo_request(identifier, sequence, data);
    IpPacket::new(our_ip(), dst_addr, IP_PROTO_ICMP, icmp_packet.to_bytes())
}

/// The IP packet reporting `dst_addr` unreachable with `code`, quoting the
/// first eight bytes of the offending packet.
pub fn send_dest_unreachable(dst_addr: Ipv4Address, code: u8, original_packet: &[u8]) -> (r: IpPacket)
    requires
        original_packet@.len() > 0,
    ensures
        r.header.src_addr@ == ip4(192, 168, 1, 100),
        r.header.dst_addr == dst_addr,
        r.header.protocol == IP_PROTO_ICMP,
        ({
            let quoted = prefix_upto(original_packet@, 8);
            r.payload@ == icmp_image(
                IcmpHeader { checksum: icmp_checksum(IcmpHeader::new_spec(ICMP_TYPE_DEST_UNREACHABLE, code, 0), quoted),
                    ..IcmpHeader::new_spec(ICMP_TYPE_DEST_UNREACHABLE, code, 0) },
                quoted,
            )
        }),
{
    let n = if original_packet.len() < 8 { original_packet.len() } else { 8 };
    let mut data: Vec<u8> = Vec::new();
    extend_bytes(&mut data, &original_packet[0..n]);
    assert(data@ =~= prefix_upto(original_packet@, 8));
    proof {
        crate::net::lemma_ones_sum_bound(data@);
    }
    let header = IcmpHeader::new(ICMP_TYPE_DEST_UNREACHABLE, code, 0);
    let icmp_packet = IcmpPacket::new(header, data);
    IpPacket::new(our_ip(), dst_addr, IP_PROTO_ICMP, icmp_packet.to_bytes())
}

} // verus!
