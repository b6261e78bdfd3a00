//! IPv4 addresses, headers and packets.

use vstd::prelude::*;
use crate::net::icmp::echo_answered;
use crate::net::{be16, be32, swap16, to_be16, read_be32, extend_bytes, fold16, fold_carries, complement16, lemma_fold16_bound};

verus! {

pub const IP_PROTO_ICMP: u8 = 1;
pub const IP_PROTO_TCP: u8 = 6;
pub const IP_PROTO_UDP: u8 = 17;

pub const IPV4_VERSION: u8 = 4;
pub const IPV4_HEADER_MIN_SIZE: usize = 20;
pub const IPV4_TTL_DEFAULT: u8 = 64;

/// Properties every IP address kind answers.
pub trait IpAddress: Copy + Clone + PartialEq + Eq {
    fn is_loopback(&self) -> bool;

    fn is_multicast(&self) -> bool;

    fn is_broadcast(&self) -> bool;
}

/// A 32-bit IPv4 address, most significant octet first.
#[derive(Debug, Clone, Copy)]
pub struct Ipv4Address([u8; 4]);

impl View for Ipv4Address {
    type V = Seq<u8>;

    closed spec fn view(&self) -> Seq<u8> {
        self.0@
    }
}

impl PartialEq for Ipv4Address {
    fn eq(&self, other: &Self) -> (r: bool) {
        let a = self.0;
        let b = other.0;
        let r = a[0] == b[0] && a[1] == b[1] && a[2] == b[2] && a[3] == b[3];
        proof {
            if r {
                assert(a@ =~= b@);
            }
        }
        r
    }
}

impl vstd::std_specs::cmp::PartialEqSpecImpl for Ipv4Address {
    open spec fn obeys_eq_spec() -> bool {
        true
    }

    open spec fn eq_spec(&self, other: &Self) -> bool {
        self@ == other@
    }
}

impl Eq for Ipv4Address {}

/// The four octets `a.b.c.d`.
pub open spec fn ip4(a: u8, b: u8, c: u8, d: u8) -> Seq<u8> {
    seq![a, b, c, d]
}

/// The address as a 32-bit number.
pub open spec fn ip_u32(s: Seq<u8>) -> u32 {
    be32(s[0], s[1], s[2], s[3])
}

impl Ipv4Address {
    pub proof fn lemma_len(&self)
        ensures
            self@.len() == 4,
    {
    }

    /// 0.0.0.0
    pub fn unspecified() -> (r: Self)
        ensures
            r@ == ip4(0, 0, 0, 0),
    {
        Self::new(0, 0, 0, 0)
    }

    /// 127.0.0.1
    pub fn loopback() -> (r: Self)
        ensures
            r@ == ip4(127, 0, 0, 1),
    {
        Self::new(127, 0, 0, 1)
    }

    /// 255.255.255.255
    pub fn broadcast() -> (r: Self)
        ensures
            r@ == ip4(255, 255, 255, 255),
    {
        Self::new(255, 255, 255, 255)
    }

    /// The address `a.b.c.d`.
    pub fn new(a: u8, b: u8, c: u8, d: u8) -> (r: Self)
        ensures
            r@ == ip4(a, b, c, d),
    {
        let r = Ipv4Address([a, b, c, d]);
        assert(r@ =~= ip4(a, b, c, d));
        r
    }

    /// The address made of `bytes`, which must be exactly four long.
    pub fn from_bytes(bytes: &[u8]) -> (r: Option<Self>)
        ensures
            r is Some <==> bytes@.len() == 4,
            r matches Some(a) ==> a@ == bytes@,
    {
        if bytes.len() != 4 {
            return None;
        }
        let a = [bytes[0], bytes[1], bytes[2], bytes[3]];
        assert(a@ =~= bytes@);
        Some(Ipv4Address(a))
    }

    /// The four octets.
    pub fn as_bytes(&self) -> (r: &[u8; 4])
        ensures
            r@ == self@,
    {
        &self.0
    }

    /// The address as a big-endian 32-bit number.
    pub fn to_u32(&self) -> (r: u32)
        ensures
            r == ip_u32(self@),
    {
        read_be32(self.0[0], self.0[1], self.0[2], self.0[3])
    }

    /// The address whose big-endian number is `value`.
    pub fn from_u32(value: u32) -> (r: Self)
        ensures
            ip_u32(r@) == value,
            r@ == ip4((value / 0x1000000) as u8, ((value / 0x10000) % 256) as u8, ((value / 256) % 256) as u8, (value % 256) as u8),
    {
        Self::new((value / 0x1000000) as u8, ((value / 0x10000) % 256) as u8, ((value / 256) % 256) as u8, (value % 256) as u8)
    }

    /// The four octets, by value.
    pub fn octets(&self) -> (r: [u8; 4])
        ensures
            r@ == self@,
    {
        self.0
    }

    /// Whether the address lies in 10/8, 172.16/12 or 192.168/16.
    pub fn is_private(&self) -> (r: bool)
        ensures
            r == (self@[0] == 10 || (self@[0] == 172 && 16 <= self@[1] <= 31) || (self@[0] == 192 && self@[1] == 168)),
    {
        match self.0[0] {
            10 => true,
            172 => self.0[1] >= 16 && self.0[1] <= 31,
            192 => self.0[1] == 168,
            _ => false,
        }
    }
}

impl IpAddress for Ipv4Address {
    /// Whether the first octet is 127.
    fn is_loopback(&self) -> (r: bool)
        ensures
            r == (self@[0] == 127),
    {
        self.0[0] == 127
    }

    /// Whether the first octet lies in 224..=239.
    fn is_multicast(&self) -> (r: bool)
        ensures
            r == (224 <= self@[0] <= 239),
    {
        self.0[0] >= 224 && self.0[0] <= 239
    }

    /// Whether this is 255.255.255.255.
    fn is_broadcast(&self) -> (r: bool)
        ensures
            r == (self@ == ip4(255, 255, 255, 255)),
    {
        *self == Self::broadcast()
    }
}

/// An IPv4 header as held in memory: the 16-bit fields hold their values
/// in network byte order.
#[derive(Debug, Clone, Copy)]
pub struct Ipv4Header {
    pub version_ihl: u8,
    pub dscp_ecn: u8,
    pub total_length: u16,
    pub identification: u16,
    pub flags_fragment: u16,
    pub ttl: u8,
    pub protocol: u8,
    pub checksum: u16,
    pub src_addr: Ipv4Address,
    pub dst_addr: Ipv4Address,
}

/// The bytes of a 16-bit field as they lie in memory.
pub open spec fn le_bytes16(x: u16) -> Seq<u8> {
    seq![(x % 256) as u8, (x / 256) as u8]
}

/// The 20 bytes of a header as they lie in memory.
pub open spec fn header_image(h: Ipv4Header) -> Seq<u8> {
    seq![h.version_ihl, h.dscp_ecn] + le_bytes16(h.total_length) + le_bytes16(h.identification)
        + le_bytes16(h.flags_fragment) + seq![h.ttl, h.protocol] + le_bytes16(h.checksum)
        + h.src_addr@ + h.dst_addr@
}

/// Byte `i` of a header image; bytes past the 20 held ones read as zero.
pub open spec fn image_byte(img: Seq<u8>, i: int) -> nat {
    if 0 <= i < img.len() { img[i] as nat } else { 0 }
}

/// Word `j` of the first `hlen` bytes of a header image.
pub open spec fn header_word(img: Seq<u8>, hlen: nat, j: int) -> nat {
    image_byte(img, 2 * j) * 256 + (if 2 * j + 1 < hlen { image_byte(img, 2 * j + 1) } else { 0 })
}

/// The sum of the first `k` words of the header, leaving out the checksum
/// word (word 5) when `skip` holds.
pub open spec fn header_sum(img: Seq<u8>, hlen: nat, k: nat, skip: bool) -> nat
    decreases k,
{
    if k == 0 {
        0
    } else {
        header_sum(img, hlen, (k - 1) as nat, skip) + (if skip && k - 1 == 5 { 0 } else { header_word(img, hlen, k - 1) })
    }
}

/// The sum over all words of a header of `hlen` bytes.
pub open spec fn header_total(img: Seq<u8>, hlen: nat, skip: bool) -> nat {
    header_sum(img, hlen, (hlen + 1) / 2, skip)
}

/// The header length in bytes that the IHL field of `vihl` gives.
pub open spec fn ihl_len(vihl: u8) -> nat {
    ((vihl % 16) * 4) as nat
}

/// The checksum field value that `calculate_checksum` computes.
pub open spec fn ipv4_checksum(h: Ipv4Header) -> u16 {
    swap16((0xFFFF - fold16(header_total(header_image(h), ihl_len(h.version_ihl), true))) as u16)
}

/// Whether the header words, the checksum included, fold to 0xFFFF.
pub open spec fn ipv4_checksum_ok(h: Ipv4Header) -> bool {
    fold16(header_total(header_image(h), ihl_len(h.version_ihl), false)) == 0xFFFF
}

pub proof fn lemma_header_sum_bound(img: Seq<u8>, hlen: nat, k: nat, skip: bool)
    ensures
        header_sum(img, hlen, k, skip) <= 65535 * k,
    decreases k,
{
    if k > 0 {
        lemma_header_sum_bound(img, hlen, (k - 1) as nat, skip);
        let j = k - 1;
        assert(image_byte(img, 2 * j) <= 255);
        assert(image_byte(img, 2 * j + 1) <= 255);
    }
}

impl Ipv4Header {
    /// A header for a packet with `payload_len` bytes of payload: version 4,
    /// IHL 5, total length `20 + payload_len` (truncated to 16 bits), the
    /// don't-fragment flag, TTL 64, and its checksum.
    pub fn new(src_addr: Ipv4Address, dst_addr: Ipv4Address, protocol: u8, payload_len: usize) -> (r: Self)
        requires
            payload_len + IPV4_HEADER_MIN_SIZE <= usize::MAX,
        ensures
            r.version_ihl == 0x45,
            r.dscp_ecn == 0,
            r.total_length == swap16(((20 + payload_len) % 65536) as u16),
            r.identification == 0,
            r.flags_fragment == swap16(0x4000),
            r.ttl == IPV4_TTL_DEFAULT,
            r.protocol == protocol,
            r.src_addr == src_addr,
            r.dst_addr == dst_addr,
            r.checksum == ipv4_checksum(r),
            ipv4_checksum_ok(r),
    {
        let total = ((IPV4_HEADER_MIN_SIZE + payload_len) % 65536) as u16;
        let mut header = Self {
            version_ihl: (IPV4_VERSION << 4u8) | 5,
            dscp_ecn: 0,
            total_length: to_be16(total),
            identification: 0,
            flags_fragment: to_be16(0x4000u16),
            ttl: IPV4_TTL_DEFAULT,
            protocol,
            checksum: 0,
            src_addr,
            dst_addr,
        };
        assert((4u8 << 4u8) | 5 == 0x45) by (bit_vector);
        let c = header.calculate_checksum();
        let ghost h0 = header;
        header.checksum = c;
        proof {
            assert(header_image(header) =~= header_image(h0).update(10, (c % 256) as u8).update(11, (c / 256) as u8));
            lemma_header_sum_skip_checksum(header_image(h0), header_image(header), ihl_len(0x45), ((ihl_len(0x45) + 1) / 2) as nat);
            lemma_new_header_verifies(header);
        }
        header
    }

    /// The version field, the high nibble.
    pub fn version(&self) -> (r: u8)
        ensures
            r == self.version_ihl / 16,
    {
        let v = self.version_ihl;
        assert(v >> 4u8 == v / 16) by (bit_vector);
        v >> 4u8
    }

    /// The header length field in 32-bit words, the low nibble.
    pub fn ihl(&self) -> (r: u8)
        ensures
            r == self.version_ihl % 16,
    {
        let v = self.version_ihl;
        assert(v & 0x0F == v % 16) by (bit_vector);
        v & 0x0F
    }

    /// The header length in bytes.
    pub fn header_len(&self) -> (r: usize)
        ensures
            r == ihl_len(self.version_ihl),
            r <= 60,
    {
        (self.ihl() as usize) * 4
    }

    /// The total length, converted from network order.
    pub fn total_length(&self) -> (r: u16)
        ensures
            r == swap16(self.total_length),
    {
        to_be16(self.total_length)
    }

    /// The total length less the header length.
    pub fn payload_length(&self) -> (r: usize)
        requires
            ihl_len(self.version_ihl) <= swap16(self.total_length),
        ensures
            r == swap16(self.total_length) - ihl_len(self.version_ihl),
    {
        (self.total_length() as usize) - self.header_len()
    }

    /// Whether the don't-fragment flag is set.
    pub fn dont_fragment(&self) -> (r: bool)
        ensures
            r == (swap16(self.flags_fragment) & 0x4000 != 0),
    {
        to_be16(self.flags_fragment) & 0x4000 != 0
    }

    /// Whether the more-fragments flag is set.
    pub fn more_fragments(&self) -> (r: bool)
        ensures
            r == (swap16(self.flags_fragment) & 0x2000 != 0),
    {
        to_be16(self.flags_fragment) & 0x2000 != 0
    }

    /// The fragment offset in bytes: the 13-bit field times eight, in 16 bits.
    pub fn fragment_offset(&self) -> (r: u16)
        ensures
            r == ((swap16(self.flags_fragment) & 0x1FFF) * 8) as u16,
    {
        let g = to_be16(self.flags_fragment);
        let f = g & 0x1FFF;
        assert(g & 0x1FFF <= 0x1FFF) by (bit_vector);
        f * 8
    }

    /// The 20 bytes of the header as they lie in memory.
    fn image(&self) -> (r: Vec<u8>)
        ensures
            r@ == header_image(*self),
    {
        let mut v: Vec<u8> = Vec::new();
        v.push(self.version_ihl);
        v.push(self.dscp_ecn);
        v.push((self.total_length % 256) as u8);
        v.push((self.total_length / 256) as u8);
        v.push((self.identification % 256) as u8);
        v.push((self.identification / 256) as u8);
        v.push((self.flags_fragment % 256) as u8);
        v.push((self.flags_fragment / 256) as u8);
        v.push(self.ttl);
        v.push(self.protocol);
        v.push((self.checksum % 256) as u8);
        v.push((self.checksum / 256) as u8);
        extend_bytes(&mut v, self.src_addr.as_bytes());
        extend_bytes(&mut v, self.dst_addr.as_bytes());
        assert(v@ =~= header_image(*self));
        v
    }

    /// Sums the header's 16-bit words over its IHL length, optionally
    /// leaving out the checksum word.
    fn sum_words(&self, skip: bool) -> (sum: u32)
        ensures
            sum == header_total(header_image(*self), ihl_len(self.version_ihl), skip),
    {
        let bytes = self.image();
        let hlen = self.header_len();
        let mut sum: u32 = 0;
        let mut i: usize = 0;
        while i < hlen
            invariant
                bytes@ == header_image(*self),
                hlen == ihl_len(self.version_ihl),
                hlen <= 60,
                i % 2 == 0,
                i <= hlen + 1,
                sum == header_sum(bytes@, hlen as nat, (i / 2) as nat, skip),
            decreases hlen + 1 - i,
        {
            proof {
                lemma_header_sum_bound(bytes@, hlen as nat, (i / 2) as nat, skip);
            }
            if !(skip && i == 10) {
                let hi: u32 = if i < bytes.len() { bytes[i] as u32 } else { 0 };
                let lo: u32 = if i + 1 < hlen { if i + 1 < bytes.len() { bytes[i + 1] as u32 } else { 0 } } else { 0 };
                sum = sum + hi * 256 + lo;
            }
            i = i + 2;
        }
        sum
    }

    /// The checksum over the header with the checksum field left out,
    /// in network byte order.
    pub fn calculate_checksum(&self) -> (r: u16)
        ensures
            r == ipv4_checksum(*self),
    {
        let sum = self.sum_words(true);
        let sum = fold_carries(sum);
        to_be16(complement16(sum))
    }

    /// Whether all header words, the checksum included, fold to 0xFFFF.
    pub fn verify_checksum(&self) -> (r: bool)
        ensures
            r == ipv4_checksum_ok(*self),
    {
        let sum = self.sum_words(false);
        let sum = fold_carries(sum);
        sum == 0xFFFF
    }
}

/// The full word sum is the sum that leaves the checksum word out, plus
/// that word once it has been passed.
proof fn lemma_header_sum_with_checksum(img: Seq<u8>, hlen: nat, k: nat)
    ensures
        header_sum(img, hlen, k, false) == header_sum(img, hlen, k, true) + (if k > 5 { header_word(img, hlen, 5) } else { 0 }),
    decreases k,
{
    if k > 0 {
        lemma_header_sum_with_checksum(img, hlen, (k - 1) as nat);
    }
}

/// A header that `Ipv4Header::new` builds (IHL 5, checksum as
/// `calculate_checksum` computes it) passes `verify_checksum`: its words,
/// the checksum included, fold to 0xFFFF.
pub proof fn lemma_new_header_verifies(h: Ipv4Header)
    requires
        h.version_ihl == 0x45,
        h.checksum == ipv4_checksum(h),
    ensures
        ipv4_checksum_ok(h),
{
    let img = header_image(h);
    let hlen = ihl_len(h.version_ihl);
    assert(hlen == 20);
    let t = header_total(img, hlen, true);
    lemma_header_sum_with_checksum(img, hlen, 10);
    assert((hlen + 1) / 2 == 10);
    crate::net::lemma_fold_complement(t);
    let v = (0xFFFF - fold16(t)) as u16;
    assert(v == 65535 - fold16(t));
    assert(h.checksum == swap16(v));
    assert(img[10] == h.checksum % 256 && img[11] == h.checksum / 256);
    assert(h.checksum % 256 == v / 256 && h.checksum / 256 == v % 256) by (nonlinear_arith)
        requires
            h.checksum == ((v % 256) * 256 + v / 256) as u16,
            v <= 65535;
    assert(header_word(img, hlen, 5) == (v / 256) * 256 + v % 256);
    assert(header_word(img, hlen, 5) == v);
}

/// Replacing the checksum bytes does not change a sum that leaves them out.
pub proof fn lemma_header_sum_skip_checksum(a: Seq<u8>, b: Seq<u8>, hlen: nat, k: nat)
    requires
        a.len() == 20,
        b.len() == 20,
        forall|i: int| 0 <= i < 20 && i != 10 && i != 11 ==> a[i] == b[i],
    ensures
        header_sum(a, hlen, k, true) == header_sum(b, hlen, k, true),
    decreases k,
{
    if k > 0 {
        lemma_header_sum_skip_checksum(a, b, hlen, (k - 1) as nat);
    }
}

/// A 16-bit value read from memory bytes `lo`, `hi`.
pub open spec fn le16(lo: u8, hi: u8) -> u16 {
    (lo + hi * 256) as u16
}

/// Whether `h` is the header that lies in the first 20 bytes of `data`.
pub open spec fn header_read_from(h: Ipv4Header, data: Seq<u8>) -> bool {
    &&& h.version_ihl == data[0]
    &&& h.dscp_ecn == data[1]
    &&& h.total_length == le16(data[2], data[3])
    &&& h.identification == le16(data[4], data[5])
    &&& h.flags_fragment == le16(data[6], data[7])
    &&& h.ttl == data[8]
    &&& h.protocol == data[9]
    &&& h.checksum == le16(data[10], data[11])
    &&& h.src_addr@ == data.subrange(12, 16)
    &&& h.dst_addr@ == data.subrange(16, 20)
}

/// The first `hlen` bytes of a header image, zeros past its 20 bytes.
pub open spec fn header_bytes(h: Ipv4Header, hlen: nat) -> Seq<u8> {
    Seq::new(hlen, |i: int| image_byte(header_image(h), i) as u8)
}

/// The error `IpPacket::from_bytes` gives on `data`, if any.
pub open spec fn ip_parse_error(data: Seq<u8>) -> Option<Seq<char>> {
    if data.len() < 20 {
        Some("Packet too small"@)
    } else {
        let h = Ipv4Header {
            version_ihl: data[0], dscp_ecn: data[1], total_length: le16(data[2], data[3]),
            identification: le16(data[4], data[5]), flags_fragment: le16(data[6], data[7]),
            ttl: data[8], protocol: data[9], checksum: le16(data[10], data[11]),
            src_addr: choose|a: Ipv4Address| a@ == data.subrange(12, 16),
            dst_addr: choose|a: Ipv4Address| a@ == data.subrange(16, 20),
        };
        if data[0] / 16 != IPV4_VERSION {
            Some("Not IPv4"@)
        } else if !ipv4_checksum_ok(h) {
            Some("Invalid checksum"@)
        } else if data.len() < ihl_len(data[0]) {
            Some("Invalid header length"@)
        } else if data.len() < be16(data[2], data[3]) {
            Some("Packet truncated"@)
        } else {
            None
        }
    }
}

/// The bytes of a packet that `IpPacket::new` builds, read back by
/// `IpPacket::from_bytes`: they parse, the payload runs exactly to the end,
/// and the addresses, protocol and total length read back as written.
pub proof fn lemma_packet_round_trip(h: Ipv4Header, payload: Seq<u8>)
    requires
        h.version_ihl == 0x45,
        h.total_length == swap16(((20 + payload.len()) % 65536) as u16),
        ipv4_checksum_ok(h),
        payload.len() <= 65515,
    ensures
        ({
            let data = header_bytes(h, ihl_len(h.version_ihl)) + payload;
            &&& ip_parse_error(data) is None
            &&& ihl_len(data[0]) == 20
            &&& be16(data[2], data[3]) == 20 + payload.len()
            &&& data.subrange(ihl_len(data[0]) as int, be16(data[2], data[3]) as int) == payload
            &&& data[9] == h.protocol
            &&& data.subrange(12, 16) == h.src_addr@
            &&& data.subrange(16, 20) == h.dst_addr@
            &&& le16(data[2], data[3]) == h.total_length
        }),
{
    let img = header_image(h);
    let data = header_bytes(h, 20) + payload;
    assert(ihl_len(0x45) == 20);
    assert(img.len() == 20);
    assert forall|i: int| 0 <= i < 20 implies data[i] == img[i] by {}
    let tl = h.total_length;
    assert(le16((tl % 256) as u8, (tl / 256) as u8) == tl) by (nonlinear_arith)
        requires
            tl <= 65535;
    crate::net::arp::lemma_swap16_involutive(((20 + payload.len()) % 65536) as u16);
    assert(((20 + payload.len()) % 65536) == 20 + payload.len());
    assert(be16(data[2], data[3]) == swap16(tl));
    let hp = Ipv4Header {
        version_ihl: data[0], dscp_ecn: data[1], total_length: le16(data[2], data[3]),
        identification: le16(data[4], data[5]), flags_fragment: le16(data[6], data[7]),
        ttl: data[8], protocol: data[9], checksum: le16(data[10], data[11]),
        src_addr: choose|a: Ipv4Address| a@ == data.subrange(12, 16),
        dst_addr: choose|a: Ipv4Address| a@ == data.subrange(16, 20),
    };
    assert(data.subrange(12, 16) =~= h.src_addr@);
    assert(data.subrange(16, 20) =~= h.dst_addr@);
    let ga = h.src_addr;
    let gb = h.dst_addr;
    assert(ga@ == data.subrange(12, 16));
    assert(gb@ == data.subrange(16, 20));
    let x4 = h.identification;
    let x6 = h.flags_fragment;
    let x10 = h.checksum;
    assert(le16((x4 % 256) as u8, (x4 / 256) as u8) == x4) by (nonlinear_arith) requires x4 <= 65535;
    assert(le16((x6 % 256) as u8, (x6 / 256) as u8) == x6) by (nonlinear_arith) requires x6 <= 65535;
    assert(le16((x10 % 256) as u8, (x10 / 256) as u8) == x10) by (nonlinear_arith) requires x10 <= 65535;
    assert(header_image(hp) =~= img);
    assert(data.subrange(20, 20 + payload.len() as int) =~= payload);
}

/// An IPv4 packet.
pub struct IpPacket {
    pub header: Ipv4Header,
    pub payload: Vec<u8>,
}

impl IpPacket {
    /// A packet with a fresh header for `payload`.
    pub fn new(src_addr: Ipv4Address, dst_addr: Ipv4Address, protocol: u8, payload: Vec<u8>) -> (r: Self)
        requires
            payload@.len() + IPV4_HEADER_MIN_SIZE <= usize::MAX,
        ensures
            r.header.version_ihl == 0x45,
            r.header.dscp_ecn == 0,
            r.header.total_length == swap16(((20 + payload@.len()) % 65536) as u16),
            r.header.identification == 0,
            r.header.flags_fragment == swap16(0x4000),
            r.header.ttl == IPV4_TTL_DEFAULT,
            r.header.protocol == protocol,
            r.header.src_addr == src_addr,
            r.header.dst_addr == dst_addr,
            r.header.checksum == ipv4_checksum(r.header),
            ipv4_checksum_ok(r.header),
            r.payload@ == payload@,
    {
        let header = Ipv4Header::new(src_addr, dst_addr, protocol, payload.len());
        Self { header, payload }
    }

    /// Parses a packet: the header is read from the first 20 bytes, must be
    /// version 4 with a valid checksum, and the payload runs from the header
    /// length to the total length.
    pub fn from_bytes(data: &[u8]) -> (r: Result<Self, &'static str>)
        requires
            ip_parse_error(data@) is None ==> ihl_len(data@[0]) <= be16(data@[2], data@[3]),
        ensures
            r is Err <==> ip_parse_error(data@) is Some,
            r matches Err(e) ==> ip_parse_error(data@) == Some(e@),
            r matches Ok(p) ==> {
                &&& header_read_from(p.header, data@)
                &&& p.payload@ == data@.subrange(ihl_len(data@[0]) as int, be16(data@[2], data@[3]) as int)
            },
    {
        if data.len() < IPV4_HEADER_MIN_SIZE {
            return Err("Packet too small");
        }
        let src_addr = Ipv4Address::from_bytes(&data[12..16]).unwrap();
        let dst_addr = Ipv4Address::from_bytes(&data[16..20]).unwrap();
        let header = Ipv4Header {
            version_ihl: data[0],
            dscp_ecn: data[1],
            total_length: (data[2] as u16) + (data[3] as u16) * 256,
            identification: (data[4] as u16) + (data[5] as u16) * 256,
            flags_fragment: (data[6] as u16) + (data[7] as u16) * 256,
            ttl: data[8],
            protocol: data[9],
            checksum: (data[10] as u16) + (data[11] as u16) * 256,
            src_addr,
            dst_addr,
        };
        let ghost hs = Ipv4Header {
            src_addr: choose|a: Ipv4Address| a@ == data@.subrange(12, 16),
            dst_addr: choose|a: Ipv4Address| a@ == data@.subrange(16, 20),
            ..header
        };
        proof {
            assert(header_image(hs) =~= header_image(header));
        }
        if header.version() != IPV4_VERSION {
            return Err("Not IPv4");
        }
        if !header.verify_checksum() {
            return Err("Invalid checksum");
        }
        let header_len = header.header_len();
        if data.len() < header_len {
            return Err("Invalid header length");
        }
        let total_len = header.total_length() as usize;
        proof {
            lemma_swap_le16(data@[2], data@[3]);
        }
        if data.len() < total_len {
            return Err("Packet truncated");
        }
        let payload = vstd::slice::slice_to_vec(&data[header_len..total_len]);
        Ok(Self { header, payload })
    }

    /// The header bytes over the header length, then the payload.
    pub fn to_bytes(&self) -> (r: Vec<u8>)
        ensures
            r@ == header_bytes(self.header, ihl_len(self.header.version_ihl)) + self.payload@,
    {
        let img = self.header.image();
        let hlen = self.header.header_len();
        let mut packet: Vec<u8> = Vec::new();
        let mut i: usize = 0;
        while i < hlen
            invariant
                img@ == header_image(self.header),
                hlen == ihl_len(self.header.version_ihl),
                i <= hlen,
                packet@ == header_bytes(self.header, i as nat),
            decreases hlen - i,
        {
            let b: u8 = if i < img.len() { img[i] } else { 0 };
            packet.push(b);
            i = i + 1;
            assert(packet@ =~= header_bytes(self.header, i as nat));
        }
        extend_bytes(&mut packet, self.payload.as_slice());
        packet
    }
}

pub proof fn lemma_swap_le16(lo: u8, hi: u8)
    ensures
        swap16(le16(lo, hi)) == be16(lo, hi),
{
    assert(((((lo + hi * 256) as u16 % 256) * 256 + (lo + hi * 256) as u16 / 256) as u16) == ((lo * 256 + hi) as u16)) by (nonlinear_arith)
        requires lo < 256, hi < 256;
}

/// Whether `ip` is one of this host's addresses: 192.168.1.100 or loopback.
pub open spec fn is_our_ip_spec(ip: Seq<u8>) -> bool {
    ip == ip4(192, 168, 1, 100) || ip[0] == 127
}

fn is_our_ip(ip: &Ipv4Address) -> (r: bool)
    ensures
        r == is_our_ip_spec(ip@),
{
    *ip == Ipv4Address::new(192, 168, 1, 100) || ip.is_loopback()
}

/// Room in the counters for one more sent frame of up to 64 KiB.
pub open spec fn can_count_send(stats: crate::net::NetworkStats) -> bool {
    stats.packets_sent < u64::MAX && stats.bytes_sent + 0x20000 <= u64::MAX
}

/// Whether a frame can be addressed to `dst`: it is the broadcast address
/// or the ARP cache `entries` knows it.
pub open spec fn routable(entries: Map<u32, crate::net::arp::ArpEntry>, dst: Seq<u8>) -> bool {
    dst == ip4(255, 255, 255, 255) || entries.contains_key(ip_u32(dst))
}

/// The counters after one frame of `len` bytes is sent.
pub open spec fn counted_send(before: crate::net::NetworkStats, after: crate::net::NetworkStats, len: nat) -> bool {
    &&& after.packets_sent == before.packets_sent + 1
    &&& after.bytes_sent == before.bytes_sent + 14 + len
    &&& after.packets_received == before.packets_received
    &&& after.bytes_received == before.bytes_received
    &&& after.errors == before.errors
    &&& after.dropped == before.dropped
}

/// Whether `h` is the IPv4 header this host puts on a payload of protocol
/// `proto` and `len` bytes to `dst`: version 4, IHL 5, total length
/// `20 + len`, no identification, don't-fragment, TTL 64, from
/// 192.168.1.100, with its checksum.
pub open spec fn host_ip_header(h: Ipv4Header, dst: Seq<u8>, proto: u8, len: nat) -> bool {
    &&& h.version_ihl == 0x45
    &&& h.dscp_ecn == 0
    &&& h.total_length == swap16(((20 + len) % 65536) as u16)
    &&& h.identification == 0
    &&& h.flags_fragment == swap16(0x4000)
    &&& h.ttl == IPV4_TTL_DEFAULT
    &&& h.protocol == proto
    &&& h.src_addr@ == ip4(192, 168, 1, 100)
    &&& h.dst_addr@ == dst
    &&& h.checksum == ipv4_checksum(h)
}

/// Whether `f` frames the IP packet with header `h` and payload `payload`
/// as `send_ip_packet` does for a destination reachable through `entries`:
/// to the broadcast or cached hardware address, from this host's, of type
/// IPv4.
pub open spec fn ip_frame(f: crate::net::ethernet::EthernetFrame, entries: Map<u32, crate::net::arp::ArpEntry>, h: Ipv4Header, payload: Seq<u8>) -> bool {
    &&& f.header.dest_mac@ == (if h.dst_addr@ == ip4(255, 255, 255, 255) {
        crate::net::ethernet::mac_broadcast()
    } else {
        entries[ip_u32(h.dst_addr@)].mac_address@
    })
    &&& f.header.src_mac@ == crate::net::ethernet::our_mac()
    &&& f.header.ethertype == swap16(crate::net::ethernet::ETHERTYPE_IPV4)
    &&& f.payload@ == header_bytes(h, ihl_len(h.version_ihl)) + payload
}

/// Room in the counters for one more sent frame carrying an IP payload of
/// `n` bytes (with up to 60 bytes of IP header and 14 of Ethernet header).
pub open spec fn room_to_send(stats: crate::net::NetworkStats, n: nat) -> bool {
    stats.packets_sent < u64::MAX && stats.bytes_sent + 74 + n <= u64::MAX
}

/// Frames `packet` for the wire. A broadcast destination goes to the
/// broadcast hardware address; any other needs a cached ARP entry, and
/// without one the result is the error (the caller then sends the request
/// that `arp::send_arp_request` builds). On success the frame is counted as
/// sent.
pub fn send_ip_packet(cache: &crate::net::arp::ArpCache, stats: &mut crate::net::NetworkStats, packet: IpPacket) -> (r: Result<crate::net::ethernet::EthernetFrame, &'static str>)
    requires
        room_to_send(*old(stats), packet.payload@.len()),
        packet.payload@.len() + 74 <= usize::MAX,
    ensures
        r is Err <==> (packet.header.dst_addr@ != ip4(255, 255, 255, 255)
            && !cache.entries().contains_key(ip_u32(packet.header.dst_addr@))),
        r matches Err(e) ==> e@ == "ARP resolution failed"@ && *final(stats) == *old(stats),
        r matches Ok(f) ==> {
            &&& f.header.dest_mac@ == (if packet.header.dst_addr@ == ip4(255, 255, 255, 255) {
                crate::net::ethernet::mac_broadcast()
            } else {
                cache.entries()[ip_u32(packet.header.dst_addr@)].mac_address@
            })
            &&& f.header.src_mac@ == crate::net::ethernet::our_mac()
            &&& f.header.ethertype == swap16(crate::net::ethernet::ETHERTYPE_IPV4)
            &&& f.payload@ == header_bytes(packet.header, ihl_len(packet.header.version_ihl)) + packet.payload@
            &&& final(stats).packets_sent == old(stats).packets_sent + 1
            &&& final(stats).bytes_sent == old(stats).bytes_sent + 14 + f.payload@.len()
            &&& final(stats).packets_received == old(stats).packets_received
            &&& final(stats).bytes_received == old(stats).bytes_received
            &&& final(stats).errors == old(stats).errors
            &&& final(stats).dropped == old(stats).dropped
        },
{
    let dst_mac = if packet.header.dst_addr.is_broadcast() {
        crate::net::ethernet::MacAddress::broadcast()
    } else {
        match crate::net::arp::resolve(cache, packet.header.dst_addr) {
            Some(mac) => mac,
            None => { return Err("ARP resolution failed"); },
        }
    };
    let src_mac = crate::net::ethernet::get_mac_address();
    let frame = crate::net::ethernet::EthernetFrame::new(
        dst_mac,
        src_mac,
        crate::net::ethernet::ETHERTYPE_IPV4,
        packet.to_bytes(),
    );
    let len = frame.len();
    crate::net::update_stats_sent(stats, len);
    Ok(frame)
}

/// What `process_ip_packet` needs of a packet so that no handler fails on
/// it: a payload that runs forward and a sane UDP length.
pub open spec fn ip_payload_sane(data: Seq<u8>) -> bool {
    ip_parse_error(data) is None ==> {
        &&& ihl_len(data[0]) <= be16(data[2], data[3])
        &&& crate::net::udp::udp_length_sane(data.subrange(ihl_len(data[0]) as int, be16(data[2], data[3]) as int))
    }
}

/// The payload of the IPv4 packet `data`: from the end of its header to its
/// total length.
pub open spec fn ip_payload_of(data: Seq<u8>) -> Seq<u8> {
    data.subrange(ihl_len(data[0]) as int, be16(data[2], data[3]) as int)
}

/// Whether the IPv4 packet `data` parses, is for this host (or broadcast),
/// and carries ICMP.
pub open spec fn icmp_for_us(data: Seq<u8>) -> bool {
    &&& ip_parse_error(data) is None
    &&& (is_our_ip_spec(data.subrange(16, 20)) || data.subrange(16, 20) == ip4(255, 255, 255, 255))
    &&& data[9] == IP_PROTO_ICMP
}

/// Room in every counter the handlers may bump.
pub open spec fn state_room(st: &crate::net::NetworkState) -> bool {
    &&& can_count_send(st.stats)
    &&& st.stats.errors < u64::MAX
    &&& crate::net::tcp::counters_room(st.tcp.socket_id, st.tcp.isn_counter)
    &&& st.arp.wf()
}

/// Handles an incoming IPv4 packet and gives the frame to send back, if
/// any. A packet that does not parse counts as an error; one not addressed
/// to this host (nor broadcast) is ignored; ICMP, TCP and UDP go to their
/// handlers, other protocols are ignored.
pub fn process_ip_packet(st: &mut crate::net::NetworkState, data: &[u8]) -> (r: Option<crate::net::ethernet::EthernetFrame>)
    requires
        state_room(old(st)),
        ip_payload_sane(data@),
    ensures
        final(st).arp == old(st).arp,
        ip_parse_error(data@) is Some ==> r is None && final(st).stats.errors == old(st).stats.errors + 1
            && final(st).stats.packets_sent == old(st).stats.packets_sent && final(st).stats.bytes_sent == old(st).stats.bytes_sent
            && final(st).stats.packets_received == old(st).stats.packets_received
            && final(st).stats.bytes_received == old(st).stats.bytes_received && final(st).stats.dropped == old(st).stats.dropped
            && final(st).udp@ == old(st).udp@
            && final(st).tcp.connections@ == old(st).tcp.connections@,
        ip_parse_error(data@) is None && !is_our_ip_spec(data@.subrange(16, 20)) && data@.subrange(16, 20) != ip4(255, 255, 255, 255)
            ==> r is None && final(st).stats == old(st).stats && final(st).udp@ == old(st).udp@
            && final(st).tcp.connections@ == old(st).tcp.connections@,
        ip_parse_error(data@) is None && data@[9] != IP_PROTO_ICMP && data@[9] != IP_PROTO_TCP && data@[9] != IP_PROTO_UDP
            ==> r is None && final(st).stats == old(st).stats && final(st).udp@ == old(st).udp@
            && final(st).tcp.connections@ == old(st).tcp.connections@,
        data@[9] != IP_PROTO_UDP ==> final(st).udp@ == old(st).udp@,
        data@[9] != IP_PROTO_TCP ==> final(st).tcp.connections@ == old(st).tcp.connections@,
        final(st).tcp.sockets@ == old(st).tcp.sockets@,
        final(st).stats.packets_received == old(st).stats.packets_received,
        final(st).stats.bytes_received == old(st).stats.bytes_received,
        icmp_for_us(data@) ==> echo_answered(old(st).arp.entries(), data@.subrange(12, 16), ip_payload_of(data@), r),
{
    let packet = match IpPacket::from_bytes(data) {
        Ok(p) => p,
        Err(_) => {
            crate::net::update_stats_error(&mut st.stats);
            return None;
        },
    };
    if !is_our_ip(&packet.header.dst_addr) && !packet.header.dst_addr.is_broadcast() {
        return None;
    }
    proof {
        crate::net::lemma_ones_sum_bound(packet.payload@);
    }
    if packet.header.protocol == IP_PROTO_ICMP {
        crate::net::icmp::process_icmp_packet(&st.arp, &mut st.stats, &packet)
    } else if packet.header.protocol == IP_PROTO_TCP {
        match crate::net::tcp::process_tcp_packet(&mut st.tcp, &packet) {
            Some(reply) => {
                if reply.payload.len() > 65535 {
                    return None;
                }
                match send_ip_packet(&st.arp, &mut st.stats, reply) {
                    Ok(f) => Some(f),
                    Err(_) => None,
                }
            },
            None => None,
        }
    } else if packet.header.protocol == IP_PROTO_UDP {
        match crate::net::udp::process_udp_packet(&mut st.udp, &packet) {
            Some(reply) => {
                if reply.payload.len() > 65535 {
                    return None;
                }
                match send_ip_packet(&st.arp, &mut st.stats, reply) {
                    Ok(f) => Some(f),
                    Err(_) => None,
                }
            },
            None => None,
        }
    } else {
        None
    }
}

} // verus!
