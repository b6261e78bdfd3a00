//! The TCP/IP stack behind the Winsock services: wire headers, TCP
//! connections, sockets, interfaces, routes and the ARP cache.
//!
//! Header fields hold their values in network order, as they lie in a
//! packet; the kernel runs little-endian, so a value in network order is
//! the byte-swapped host value.

use vstd::prelude::*;
use std::collections::BTreeMap;
use crate::nt::NtStatus;
use crate::nt::name_map::NameMap;
use crate::net::{swap16, swap32, be32, be_bytes32, to_be16, to_be32, internet_checksum, checksum, lemma_ones_sum_bound};
use crate::text::{push_u64_decimal, decimal_text, push_text};
use vstd::string::StringSliceAdditionalSpecFns;

verus! {

broadcast use vstd::std_specs::btree::group_btree_axioms;

/// The little-endian bytes of a 16-bit value, as it lies in memory.
pub open spec fn le_bytes16(x: u16) -> Seq<u8> {
    seq![(x % 256) as u8, (x / 256) as u8]
}

/// The little-endian bytes of a 32-bit value, as it lies in memory.
pub open spec fn le_bytes32(x: u32) -> Seq<u8> {
    seq![(x % 256) as u8, ((x / 256) % 256) as u8, ((x / 0x10000) % 256) as u8, (x / 0x1000000) as u8]
}

fn push_le16(v: &mut Vec<u8>, x: u16)
    ensures
        final(v)@ == old(v)@ + le_bytes16(x),
{
    v.push((x % 256) as u8);
    v.push((x / 256) as u8);
    assert(final(v)@ =~= old(v)@ + le_bytes16(x));
}

fn push_le32(v: &mut Vec<u8>, x: u32)
    ensures
        final(v)@ == old(v)@ + le_bytes32(x),
{
    v.push((x % 256) as u8);
    v.push(((x / 256) % 256) as u8);
    v.push(((x / 0x10000) % 256) as u8);
    v.push((x / 0x1000000) as u8);
    assert(final(v)@ =~= old(v)@ + le_bytes32(x));
}

/// The Ethernet header.
#[derive(Debug, Clone, Copy)]
pub struct EthernetFrame {
    pub dest_mac: [u8; 6],
    pub src_mac: [u8; 6],
    pub ether_type: u16,
}

pub const ETHER_TYPE_IPV4: u16 = 0x0800;
pub const ETHER_TYPE_ARP: u16 = 0x0806;
pub const ETHER_TYPE_IPV6: u16 = 0x86DD;

impl EthernetFrame {
    /// A header for `ether_type` between the two addresses.
    pub fn new(dest_mac: [u8; 6], src_mac: [u8; 6], ether_type: u16) -> (r: Self)
        ensures
            r.dest_mac == dest_mac && r.src_mac == src_mac,
            r.ether_type == swap16(ether_type),
    {
        Self { dest_mac, src_mac, ether_type: to_be16(ether_type) }
    }
}

/// An IPv4 address, most significant octet first.
#[derive(Debug, Clone, Copy)]
pub struct Ipv4Address {
    octets: [u8; 4],
}

impl View for Ipv4Address {
    type V = Seq<u8>;

    closed spec fn view(&self) -> Seq<u8> {
        self.octets@
    }
}

impl PartialEq for Ipv4Address {
    fn eq(&self, other: &Self) -> (r: bool) {
        let a = self.octets;
        let b = other.octets;
        let r = a[0] == b[0] && a[1] == b[1] && a[2] == b[2] && a[3] == b[3];
        proof {
            if r {
                assert(a@ =~= b@);
            }
        }
        r
    }
}

impl vstd::std_specs::cmp::PartialEqSpecImpl for Ipv4Address {
    open spec fn obeys_eq_spec() -> bool {
        true
    }

    open spec fn eq_spec(&self, other: &Self) -> bool {
        self@ == other@
    }
}

impl Eq for Ipv4Address {}

/// The address as a 32-bit number.
pub open spec fn addr_u32(s: Seq<u8>) -> u32 {
    be32(s[0], s[1], s[2], s[3])
}

/// The address written `a.b.c.d` in decimal.
pub open spec fn dotted_text(s: Seq<u8>) -> Seq<char> {
    decimal_text(s[0] as nat) + "."@ + decimal_text(s[1] as nat) + "."@ + decimal_text(s[2] as nat) + "."@
        + decimal_text(s[3] as nat)
}

impl Ipv4Address {
    /// An address always has four octets.
    pub proof fn lemma_len(&self)
        ensures
            self@.len() == 4,
    {
    }

    /// The address `a.b.c.d`.
    pub fn new(a: u8, b: u8, c: u8, d: u8) -> (r: Self)
        ensures
            r@ == seq![a, b, c, d],
    {
        let r = Self { octets: [a, b, c, d] };
        assert(r@ =~= seq![a, b, c, d]);
        r
    }

    /// 127.0.0.1
    pub fn localhost() -> (r: Self)
        ensures
            r@ == seq![127u8, 0u8, 0u8, 1u8],
    {
        Self::new(127, 0, 0, 1)
    }

    /// 0.0.0.0
    pub fn any() -> (r: Self)
        ensures
            r@ == seq![0u8, 0u8, 0u8, 0u8],
    {
        Self::new(0, 0, 0, 0)
    }

    /// 255.255.255.255
    pub fn broadcast() -> (r: Self)
        ensures
            r@ == seq![255u8, 255u8, 255u8, 255u8],
    {
        Self::new(255, 255, 255, 255)
    }

    /// The address whose 32-bit number is `value`.
    pub fn from_u32(value: u32) -> (r: Self)
        ensures
            r@ == be_bytes32(value),
    {
        let r = Self::new((value / 0x1000000) as u8, ((value / 0x10000) % 256) as u8, ((value / 256) % 256) as u8,
            (value % 256) as u8);
        assert(r@ =~= be_bytes32(value));
        r
    }

    /// The address as a 32-bit number.
    pub fn to_u32(&self) -> (r: u32)
        ensures
            r == addr_u32(self@),
    {
        (self.octets[0] as u32) * 0x1000000 + (self.octets[1] as u32) * 0x10000 + (self.octets[2] as u32) * 256
            + (self.octets[3] as u32)
    }

    /// The address in dotted decimal.
    pub fn to_string(&self) -> (r: String)
        ensures
            r@ == dotted_text(self@),
    {
        let mut s = String::new();
        push_u64_decimal(&mut s, self.octets[0] as u64);
        push_text(&mut s, ".");
        push_u64_decimal(&mut s, self.octets[1] as u64);
        push_text(&mut s, ".");
        push_u64_decimal(&mut s, self.octets[2] as u64);
        push_text(&mut s, ".");
        push_u64_decimal(&mut s, self.octets[3] as u64);
        assert(s@ =~= dotted_text(self@));
        s
    }
}

/// The IPv4 header.
#[derive(Debug, Clone, Copy)]
pub struct Ipv4Header {
    pub version_ihl: u8,
    pub dscp_ecn: u8,
    pub total_length: u16,
    pub identification: u16,
    pub flags_fragment: u16,
    pub ttl: u8,
    pub protocol: u8,
    pub checksum: u16,
    pub src_addr: u32,
    pub dest_addr: u32,
}

pub const PROTOCOL_ICMP: u8 = 1;
pub const PROTOCOL_TCP: u8 = 6;
pub const PROTOCOL_UDP: u8 = 17;

/// The header's twenty bytes as they lie in memory, its checksum taken as
/// zero.
pub open spec fn ipv4_image(h: Ipv4Header) -> Seq<u8> {
    seq![h.version_ihl, h.dscp_ecn] + le_bytes16(h.total_length) + le_bytes16(h.identification)
        + le_bytes16(h.flags_fragment) + seq![h.ttl, h.protocol] + le_bytes16(0) + le_bytes32(h.src_addr)
        + le_bytes32(h.dest_addr)
}

impl Ipv4Header {
    /// A header for `payload_len` bytes of `protocol` from `src_addr` to
    /// `dest_addr`: version 4, five words, don't fragment, a time to live of
    /// 64, and its checksum.
    pub fn new(src_addr: Ipv4Address, dest_addr: Ipv4Address, protocol: u8, payload_len: u16) -> (r: Self)
        requires
            payload_len + 20 <= u16::MAX,
        ensures
            r.version_ihl == 0x45 && r.dscp_ecn == 0,
            r.total_length == swap16((20 + payload_len) as u16),
            r.identification == 0,
            r.flags_fragment == swap16(0x4000),
            r.ttl == 64,
            r.protocol == protocol,
            r.src_addr == swap32(addr_u32(src_addr@)),
            r.dest_addr == swap32(addr_u32(dest_addr@)),
            r.checksum == swap16(internet_checksum(ipv4_image(r))),
    {
        let mut header = Self {
            version_ihl: 0x45,
            dscp_ecn: 0,
            total_length: to_be16(20 + payload_len),
            identification: 0,
            flags_fragment: to_be16(0x4000),
            ttl: 64,
            protocol,
            checksum: 0,
            src_addr: to_be32(src_addr.to_u32()),
            dest_addr: to_be32(dest_addr.to_u32()),
        };
        header.checksum = header.calculate_checksum();
        header
    }

    /// The checksum of the header's words, its own field skipped, in
    /// network order.
    fn calculate_checksum(&self) -> (r: u16)
        ensures
            r == swap16(internet_checksum(ipv4_image(*self))),
    {
        let mut image: Vec<u8> = Vec::new();
        image.push(self.version_ihl);
        image.push(self.dscp_ecn);
        push_le16(&mut image, self.total_length);
        push_le16(&mut image, self.identification);
        push_le16(&mut image, self.flags_fragment);
        image.push(self.ttl);
        image.push(self.protocol);
        push_le16(&mut image, 0);
        push_le32(&mut image, self.src_addr);
        push_le32(&mut image, self.dest_addr);
        assert(image@ =~= ipv4_image(*self));
        proof {
            lemma_ones_sum_bound(image@);
        }
        to_be16(checksum(image.as_slice()))
    }
}

/// The TCP header.
#[derive(Debug, Clone, Copy)]
pub struct TcpHeader {
    pub src_port: u16,
    pub dest_port: u16,
    pub seq_number: u32,
    pub ack_number: u32,
    pub data_offset_flags: u16,
    pub window_size: u16,
    pub checksum: u16,
    pub urgent_pointer: u16,
}

pub const TCP_FLAG_FIN: u16 = 0x0001;
pub const TCP_FLAG_SYN: u16 = 0x0002;
pub const TCP_FLAG_RST: u16 = 0x0004;
pub const TCP_FLAG_PSH: u16 = 0x0008;
pub const TCP_FLAG_ACK: u16 = 0x0010;
pub const TCP_FLAG_URG: u16 = 0x0020;

/// The header `TcpHeader::new` makes: the values in network order, a data
/// offset of five words, no checksum and no urgent data.
pub open spec fn tcp_header_spec(src_port: u16, dest_port: u16, seq_number: u32, ack_number: u32, flags: u16,
    window_size: u16) -> TcpHeader {
    TcpHeader {
        src_port: swap16(src_port),
        dest_port: swap16(dest_port),
        seq_number: swap32(seq_number),
        ack_number: swap32(ack_number),
        data_offset_flags: swap16(0x5000u16 | flags),
        window_size: swap16(window_size),
        checksum: 0,
        urgent_pointer: 0,
    }
}

/// The header's twenty bytes as they lie in memory.
pub open spec fn tcp_image(h: TcpHeader) -> Seq<u8> {
    le_bytes16(h.src_port) + le_bytes16(h.dest_port) + le_bytes32(h.seq_number) + le_bytes32(h.ack_number)
        + le_bytes16(h.data_offset_flags) + le_bytes16(h.window_size) + le_bytes16(h.checksum)
        + le_bytes16(h.urgent_pointer)
}

impl TcpHeader {
    /// A header with the given values (see `tcp_header_spec`).
    pub fn new(src_port: u16, dest_port: u16, seq_number: u32, ack_number: u32, flags: u16, window_size: u16) -> (r: Self)
        ensures
            r == tcp_header_spec(src_port, dest_port, seq_number, ack_number, flags, window_size),
    {
        Self {
            src_port: to_be16(src_port),
            dest_port: to_be16(dest_port),
            seq_number: to_be32(seq_number),
            ack_number: to_be32(ack_number),
            data_offset_flags: to_be16(0x5000u16 | flags),
            window_size: to_be16(window_size),
            checksum: 0,
            urgent_pointer: 0,
        }
    }

    /// The nine flag bits.
    pub fn get_flags(&self) -> (r: u16)
        ensures
            r == swap16(self.data_offset_flags) & 0x01FF,
    {
        to_be16(self.data_offset_flags) & 0x01FF
    }

    /// Replaces the nine flag bits with those of `flags`, keeping the data
    /// offset and clearing the reserved bits.
    pub fn set_flags(&mut self, flags: u16)
        ensures
            *final(self) == (TcpHeader {
                data_offset_flags: swap16(((swap16(old(self).data_offset_flags) >> 12u16) << 12u16) | (flags & 0x01FF)),
                ..*old(self)
            }),
    {
        let data_offset = (to_be16(self.data_offset_flags) >> 12u16) << 12u16;
        self.data_offset_flags = to_be16(data_offset | (flags & 0x01FF));
    }
}

/// The UDP header.
#[derive(Debug, Clone, Copy)]
pub struct UdpHeader {
    pub src_port: u16,
    pub dest_port: u16,
    pub length: u16,
    pub checksum: u16,
}

impl UdpHeader {
    /// A header for `payload_len` bytes, without a checksum.
    pub fn new(src_port: u16, dest_port: u16, payload_len: u16) -> (r: Self)
        requires
            payload_len + 8 <= u16::MAX,
        ensures
            r.src_port == swap16(src_port),
            r.dest_port == swap16(dest_port),
            r.length == swap16((8 + payload_len) as u16),
            r.checksum == 0,
    {
        Self { src_port: to_be16(src_port), dest_port: to_be16(dest_port), length: to_be16(8 + payload_len), checksum: 0 }
    }
}

/// The kind of a socket.
#[derive(Debug, Clone, Copy, PartialEq, Eq, Structural)]
pub enum SocketType {
    Stream,
    Datagram,
    Raw,
}

/// The address family of a socket.
#[derive(Debug, Clone, Copy, PartialEq, Eq, Structural)]
pub enum AddressFamily {
    Unspec,
    Unix,
    Inet,
    Inet6,
}

/// Where a socket is bound or connected.
#[derive(Debug)]
pub enum SocketAddress {
    Ipv4(Ipv4Address, u16),
    Ipv6([u16; 8], u16),
    Unix(String),
}

/// Two socket addresses that are the same (the IPv4 address by its
/// octets, a path by its text).
pub open spec fn same_address(a: SocketAddress, b: SocketAddress) -> bool {
    match (a, b) {
        (SocketAddress::Ipv4(x, p), SocketAddress::Ipv4(y, q)) => x@ == y@ && p == q,
        (SocketAddress::Ipv6(x, p), SocketAddress::Ipv6(y, q)) => x == y && p == q,
        (SocketAddress::Unix(x), SocketAddress::Unix(y)) => x@ == y@,
        _ => false,
    }
}

/// A copy of a socket address.
pub fn copy_address(a: &SocketAddress) -> (r: SocketAddress)
    ensures
        same_address(r, *a),
{
    match a {
        SocketAddress::Ipv4(ip, port) => SocketAddress::Ipv4(*ip, *port),
        SocketAddress::Ipv6(ip, port) => SocketAddress::Ipv6(*ip, *port),
        SocketAddress::Unix(path) => SocketAddress::Unix(path.clone()),
    }
}

/// The states of a TCP connection.
#[derive(Debug, Clone, Copy, PartialEq, Eq, Structural)]
pub enum TcpState {
    Closed,
    Listen,
    SynSent,
    SynReceived,
    Established,
    FinWait1,
    FinWait2,
    CloseWait,
    Closing,
    LastAck,
    TimeWait,
}

/// A TCP connection: its two ends, its state, its sequence numbers and
/// window, and the bytes waiting to go out and to be read.
#[derive(Debug)]
pub struct TcpConnection {
    pub local_addr: Ipv4Address,
    pub local_port: u16,
    pub remote_addr: Ipv4Address,
    pub remote_port: u16,
    pub state: TcpState,
    pub seq_number: u32,
    pub ack_number: u32,
    pub window_size: u16,
    pub send_buffer: Vec<u8>,
    pub recv_buffer: Vec<u8>,
    pub mss: u16,
}

/// The flag bits of a header.
pub open spec fn header_flags(h: TcpHeader) -> u16 {
    swap16(h.data_offset_flags) & 0x01FF
}

/// The segments `handle_packet` can take without its sequence arithmetic
/// overflowing.
pub open spec fn packet_in_range(c: TcpConnection, h: TcpHeader, data: Seq<u8>) -> bool {
    let flags = header_flags(h);
    let seq = swap32(h.seq_number);
    match c.state {
        TcpState::Closed => flags & TCP_FLAG_SYN != 0 ==> seq < u32::MAX && c.seq_number < u32::MAX,
        TcpState::SynSent => (flags & TCP_FLAG_SYN != 0 && flags & TCP_FLAG_ACK != 0) ==> seq < u32::MAX,
        TcpState::Established => if flags & TCP_FLAG_FIN != 0 {
            seq < u32::MAX
        } else {
            data.len() > 0 ==> seq + (data.len() % 0x1_0000_0000) <= u32::MAX
        },
        _ => true,
    }
}

/// The reply a connection sends: its ports, its sequence and
/// acknowledgement numbers, the flags and its window.
pub open spec fn reply_image(c: TcpConnection, seq: u32, ack: u32, flags: u16) -> Seq<u8> {
    tcp_image(tcp_header_spec(c.local_port, c.remote_port, seq, ack, flags, c.window_size))
}

impl TcpConnection {
    /// A closed connection between the two ends, with an 8192-byte window
    /// and a segment size of 1460.
    pub fn new(local_addr: Ipv4Address, local_port: u16, remote_addr: Ipv4Address, remote_port: u16) -> (r: Self)
        ensures
            r.local_addr@ == local_addr@ && r.local_port == local_port,
            r.remote_addr@ == remote_addr@ && r.remote_port == remote_port,
            r.state == TcpState::Closed,
            r.seq_number == 0 && r.ack_number == 0,
            r.window_size == 8192,
            r.send_buffer@.len() == 0 && r.recv_buffer@.len() == 0,
            r.mss == 1460,
    {
        Self {
            local_addr,
            local_port,
            remote_addr,
            remote_port,
            state: TcpState::Closed,
            seq_number: 0,
            ack_number: 0,
            window_size: 8192,
            send_buffer: Vec::new(),
            recv_buffer: Vec::new(),
            mss: 1460,
        }
    }

    /// Takes in one segment and gives the reply to send, if any. A closed
    /// connection answers a SYN with SYN-ACK; a connecting one answers a
    /// SYN-ACK with ACK and is established; an established one answers a
    /// FIN with ACK and waits to close, and acknowledges data, which it
    /// keeps to be read. Anything else is ignored.
    pub fn handle_packet(&mut self, header: &TcpHeader, data: &[u8]) -> (r: Option<Vec<u8>>)
        requires
            packet_in_range(*old(self), *header, data@),
        ensures
            ({
                let o = *old(self);
                let n = *final(self);
                let flags = header_flags(*header);
                let seq = swap32(header.seq_number);
                let unchanged = n.local_addr == o.local_addr && n.local_port == o.local_port && n.remote_addr == o.remote_addr
                    && n.remote_port == o.remote_port && n.window_size == o.window_size && n.send_buffer == o.send_buffer
                    && n.mss == o.mss;
                &&& unchanged
                &&& if o.state == TcpState::Closed && flags & TCP_FLAG_SYN != 0 {
                    &&& n.state == TcpState::SynReceived
                    &&& n.ack_number == seq + 1
                    &&& n.seq_number == o.seq_number + 1
                    &&& n.recv_buffer == o.recv_buffer
                    &&& r matches Some(v) && v@ == reply_image(o, o.seq_number, (seq + 1) as u32, TCP_FLAG_SYN | TCP_FLAG_ACK)
                } else if o.state == TcpState::SynSent && flags & TCP_FLAG_SYN != 0 && flags & TCP_FLAG_ACK != 0 {
                    &&& n.state == TcpState::Established
                    &&& n.ack_number == seq + 1
                    &&& n.seq_number == o.seq_number
                    &&& n.recv_buffer == o.recv_buffer
                    &&& r matches Some(v) && v@ == reply_image(o, o.seq_number, (seq + 1) as u32, TCP_FLAG_ACK)
                } else if o.state == TcpState::Established && flags & TCP_FLAG_FIN != 0 {
                    &&& n.state == TcpState::CloseWait
                    &&& n.ack_number == seq + 1
                    &&& n.seq_number == o.seq_number
                    &&& n.recv_buffer == o.recv_buffer
                    &&& r matches Some(v) && v@ == reply_image(o, o.seq_number, (seq + 1) as u32, TCP_FLAG_ACK)
                } else if o.state == TcpState::Established && data@.len() > 0 {
                    let ack = (seq + (data@.len() % 0x1_0000_0000)) as u32;
                    &&& n.state == TcpState::Established
                    &&& n.ack_number == ack
                    &&& n.seq_number == o.seq_number
                    &&& n.recv_buffer@ == o.recv_buffer@ + data@
                    &&& r matches Some(v) && v@ == reply_image(o, o.seq_number, ack, TCP_FLAG_ACK)
                } else {
                    &&& n.state == o.state && n.seq_number == o.seq_number && n.ack_number == o.ack_number
                    &&& n.recv_buffer == o.recv_buffer
                    &&& r is None
                }
            }),
    {
        let flags = header.get_flags();
        match self.state {
            TcpState::Closed => {
                if flags & TCP_FLAG_SYN != 0 {
                    self.state = TcpState::SynReceived;
                    self.ack_number = to_be32(header.seq_number) + 1;
                    let response = TcpHeader::new(self.local_port, self.remote_port, self.seq_number, self.ack_number,
                        TCP_FLAG_SYN | TCP_FLAG_ACK, self.window_size);
                    self.seq_number = self.seq_number + 1;
                    Some(self.serialize_tcp_header(&response))
                } else {
                    None
                }
            },
            TcpState::SynSent => {
                if flags & TCP_FLAG_SYN != 0 && flags & TCP_FLAG_ACK != 0 {
                    self.state = TcpState::Established;
                    self.ack_number = to_be32(header.seq_number) + 1;
                    let response = TcpHeader::new(self.local_port, self.remote_port, self.seq_number, self.ack_number,
                        TCP_FLAG_ACK, self.window_size);
                    Some(self.serialize_tcp_header(&response))
                } else {
                    None
                }
            },
            TcpState::Established => {
                if flags & TCP_FLAG_FIN != 0 {
                    self.state = TcpState::CloseWait;
                    self.ack_number = to_be32(header.seq_number) + 1;
                    let response = TcpHeader::new(self.local_port, self.remote_port, self.seq_number, self.ack_number,
                        TCP_FLAG_ACK, self.window_size);
                    Some(self.serialize_tcp_header(&response))
                } else if data.len() > 0 {
                    crate::net::extend_bytes(&mut self.recv_buffer, data);
                    let len32 = ((data.len() as u64) % 0x1_0000_0000) as u32;
                    self.ack_number = to_be32(header.seq_number) + len32;
                    let response = TcpHeader::new(self.local_port, self.remote_port, self.seq_number, self.ack_number,
                        TCP_FLAG_ACK, self.window_size);
                    Some(self.serialize_tcp_header(&response))
                } else {
                    None
                }
            },
            _ => None,
        }
    }

    /// The header's bytes as they lie in memory.
    fn serialize_tcp_header(&self, header: &TcpHeader) -> (r: Vec<u8>)
        ensures
            r@ == tcp_image(*header),
    {
        let mut v: Vec<u8> = Vec::new();
        push_le16(&mut v, header.src_port);
        push_le16(&mut v, header.dest_port);
        push_le32(&mut v, header.seq_number);
        push_le32(&mut v, header.ack_number);
        push_le16(&mut v, header.data_offset_flags);
        push_le16(&mut v, header.window_size);
        push_le16(&mut v, header.checksum);
        push_le16(&mut v, header.urgent_pointer);
        assert(v@ =~= tcp_image(*header));
        v
    }
}

/// A socket: its kind and family, where it is bound and connected, its
/// TCP connection, the datagram bytes waiting, and whether it listens.
#[derive(Debug)]
pub struct Socket {
    pub socket_type: SocketType,
    pub address_family: AddressFamily,
    pub local_address: Option<SocketAddress>,
    pub remote_address: Option<SocketAddress>,
    pub tcp_connection: Option<TcpConnection>,
    pub udp_buffer: Vec<u8>,
    pub is_listening: bool,
    pub backlog: Vec<TcpConnection>,
}

/// Whether `n` is `s` listening, room made for its backlog.
pub open spec fn listening(n: Socket, s: Socket) -> bool {
    &&& n.is_listening
    &&& n.backlog@ == s.backlog@
    &&& n.socket_type == s.socket_type && n.address_family == s.address_family
    &&& n.local_address == s.local_address && n.remote_address == s.remote_address
    &&& n.tcp_connection == s.tcp_connection && n.udp_buffer == s.udp_buffer
}

/// The result of reading `buffer`'s length of bytes out of `avail`: how
/// many, the buffer after, and what stays waiting.
pub open spec fn read_count(avail: Seq<u8>, buffer: Seq<u8>) -> nat {
    if avail.len() < buffer.len() { avail.len() } else { buffer.len() }
}

/// Whether sending `data` on socket `s` gives `r` and leaves it as `s2`:
/// an established stream connection queues the bytes to send, a datagram
/// socket appends them to its buffer; the rest is an error and changes
/// nothing.
pub open spec fn socket_sent(s: Socket, s2: Socket, data: Seq<u8>, r: Result<usize, NtStatus>) -> bool {
    &&& (s.socket_type == SocketType::Stream ==> match s.tcp_connection {
        None => r == Err::<usize, NtStatus>(NtStatus::InvalidHandle) && s2 == s,
        Some(c) => if c.state == TcpState::Established {
            &&& r == Ok::<usize, NtStatus>(data.len() as usize)
            &&& s2.tcp_connection matches Some(c2) && c2.send_buffer@ == c.send_buffer@ + data
                && c2.state == c.state && c2.recv_buffer == c.recv_buffer
            &&& s2.udp_buffer == s.udp_buffer
        } else {
            r == Err::<usize, NtStatus>(NtStatus::InvalidDeviceState) && s2 == s
        },
    })
    &&& (s.socket_type == SocketType::Datagram ==> r == Ok::<usize, NtStatus>(data.len() as usize)
        && s2.udp_buffer@ == s.udp_buffer@ + data && s2.tcp_connection == s.tcp_connection)
    &&& (s.socket_type == SocketType::Raw ==> r == Err::<usize, NtStatus>(NtStatus::NotImplemented) && s2 == s)
    &&& (s2.socket_type == s.socket_type)
}

/// Whether reading from socket `s` into a buffer holding `buf` gives `r`,
/// leaves the socket as `s2` and the buffer holding `buf2`: as many bytes
/// as fit are taken from the front of the received bytes and written over
/// the front of the buffer.
pub open spec fn socket_received(s: Socket, s2: Socket, buf: Seq<u8>, buf2: Seq<u8>, r: Result<usize, NtStatus>) -> bool {
    &&& (s.socket_type == SocketType::Stream ==> match s.tcp_connection {
        None => r == Err::<usize, NtStatus>(NtStatus::InvalidHandle) && s2 == s
            && buf2 == buf,
        Some(c) => if c.state == TcpState::Established {
            let n = read_count(c.recv_buffer@, buf);
            &&& r == Ok::<usize, NtStatus>(n as usize)
            &&& buf2 == c.recv_buffer@.take(n as int) + buf.skip(n as int)
            &&& s2.tcp_connection matches Some(c2) && c2.recv_buffer@ == c.recv_buffer@.skip(n as int)
                && c2.state == c.state && c2.send_buffer == c.send_buffer
            &&& s2.udp_buffer == s.udp_buffer
        } else {
            r == Err::<usize, NtStatus>(NtStatus::InvalidDeviceState) && s2 == s
                && buf2 == buf
        },
    })
    &&& (s.socket_type == SocketType::Datagram ==> {
        let n = read_count(s.udp_buffer@, buf);
        &&& r == Ok::<usize, NtStatus>(n as usize)
        &&& buf2 == s.udp_buffer@.take(n as int) + buf.skip(n as int)
        &&& s2.udp_buffer@ == s.udp_buffer@.skip(n as int)
        &&& s2.tcp_connection == s.tcp_connection
    })
    &&& (s.socket_type == SocketType::Raw ==> r == Err::<usize, NtStatus>(NtStatus::NotImplemented)
        && s2 == s && buf2 == buf)
    &&& (s2.socket_type == s.socket_type)
}

impl Socket {
    /// An unbound, unconnected socket.
    pub fn new(socket_type: SocketType, address_family: AddressFamily) -> (r: Self)
        ensures
            r.socket_type == socket_type && r.address_family == address_family,
            r.local_address is None && r.remote_address is None && r.tcp_connection is None,
            r.udp_buffer@.len() == 0 && !r.is_listening && r.backlog@.len() == 0,
    {
        Self {
            socket_type,
            address_family,
            local_address: None,
            remote_address: None,
            tcp_connection: None,
            udp_buffer: Vec::new(),
            is_listening: false,
            backlog: Vec::new(),
        }
    }

    /// Binds the socket to `address`.
    pub fn bind(&mut self, address: SocketAddress) -> (r: NtStatus)
        ensures
            r == NtStatus::Success,
            *final(self) == (Socket { local_address: Some(address), ..*old(self) }),
    {
        self.local_address = Some(address);
        NtStatus::Success
    }

    /// Makes a stream socket listen; other kinds are the invalid-parameter
    /// error.
    pub fn listen(&mut self, backlog: usize) -> (r: NtStatus)
        ensures
            old(self).socket_type != SocketType::Stream ==> r == NtStatus::InvalidParameter && *final(self) == *old(self),
            old(self).socket_type == SocketType::Stream ==> r == NtStatus::Success
                && listening(*final(self), *old(self)),
    {
        if self.socket_type != SocketType::Stream {
            return NtStatus::InvalidParameter;
        }
        self.is_listening = true;
        self.backlog.reserve(backlog);
        NtStatus::Success
    }

    /// Connects a stream socket to `address`: the address is recorded, and
    /// when both ends are IPv4 a connection is opened in the SYN-sent
    /// state. Other kinds are the invalid-parameter error.
    pub fn connect(&mut self, address: SocketAddress) -> (r: NtStatus)
        ensures
            old(self).socket_type != SocketType::Stream ==> r == NtStatus::InvalidParameter && *final(self) == *old(self),
            old(self).socket_type == SocketType::Stream ==> {
                &&& r == NtStatus::Success
                &&& final(self).remote_address == Some(address)
                &&& final(self).local_address == old(self).local_address
                &&& final(self).socket_type == old(self).socket_type
                &&& final(self).udp_buffer == old(self).udp_buffer
                &&& match (old(self).local_address, address) {
                    (Some(SocketAddress::Ipv4(lip, lport)), SocketAddress::Ipv4(rip, rport)) =>
                        final(self).tcp_connection matches Some(c) && c.local_addr@ == lip@ && c.local_port == lport
                        && c.remote_addr@ == rip@ && c.remote_port == rport && c.state == TcpState::SynSent
                        && c.seq_number == 0 && c.ack_number == 0 && c.window_size == 8192 && c.mss == 1460
                        && c.send_buffer@.len() == 0 && c.recv_buffer@.len() == 0,
                    _ => final(self).tcp_connection == old(self).tcp_connection,
                }
            },
    {
        if self.socket_type != SocketType::Stream {
            return NtStatus::InvalidParameter;
        }
        let ends: Option<(Ipv4Address, u16, Ipv4Address, u16)> = match &self.local_address {
            Some(SocketAddress::Ipv4(local_ip, local_port)) => match &address {
                SocketAddress::Ipv4(remote_ip, remote_port) => Some((*local_ip, *local_port, *remote_ip, *remote_port)),
                _ => None,
            },
            _ => None,
        };
        self.remote_address = Some(address);
        match ends {
            Some((local_ip, local_port, remote_ip, remote_port)) => {
                let mut connection = TcpConnection::new(local_ip, local_port, remote_ip, remote_port);
                connection.state = TcpState::SynSent;
                self.tcp_connection = Some(connection);
            },
            None => {},
        }
        NtStatus::Success
    }

    /// Queues `data` to send: on an established stream connection or a
    /// datagram socket, all of it; a stream connection in another state is
    /// the invalid-device-state error, a stream socket without one the
    /// invalid-handle error, a raw socket the not-implemented error.
    pub fn send(&mut self, data: &[u8]) -> (r: Result<usize, NtStatus>)
        ensures
            socket_sent(*old(self), *final(self), data@, r),
    {
        match self.socket_type {
            SocketType::Stream => {
                match &mut self.tcp_connection {
                    Some(conn) => {
                        if conn.state == TcpState::Established {
                            crate::net::extend_bytes(&mut conn.send_buffer, data);
                            Ok(data.len())
                        } else {
                            Err(NtStatus::InvalidDeviceState)
                        }
                    },
                    None => Err(NtStatus::InvalidHandle),
                }
            },
            SocketType::Datagram => {
                crate::net::extend_bytes(&mut self.udp_buffer, data);
                Ok(data.len())
            },
            _ => Err(NtStatus::NotImplemented),
        }
    }

    /// Reads waiting bytes into the front of `buffer`, as many as fit: from
    /// an established stream connection or from the datagram bytes. The
    /// errors are those of `send`.
    pub fn recv(&mut self, buffer: &mut Vec<u8>) -> (r: Result<usize, NtStatus>)
        ensures
            socket_received(*old(self), *final(self), old(buffer)@, final(buffer)@, r),
    {
        match self.socket_type {
            SocketType::Stream => {
                match &mut self.tcp_connection {
                    Some(conn) => {
                        if conn.state == TcpState::Established {
                            let n = take_front(&mut conn.recv_buffer, buffer);
                            Ok(n)
                        } else {
                            Err(NtStatus::InvalidDeviceState)
                        }
                    },
                    None => Err(NtStatus::InvalidHandle),
                }
            },
            SocketType::Datagram => {
                let n = take_front(&mut self.udp_buffer, buffer);
                Ok(n)
            },
            _ => Err(NtStatus::NotImplemented),
        }
    }
}

/// Moves as many bytes from the front of `avail` to the front of `buffer`
/// as fit; the result is how many.
fn take_front(avail: &mut Vec<u8>, buffer: &mut Vec<u8>) -> (n: usize)
    ensures
        n == read_count(old(avail)@, old(buffer)@),
        final(buffer)@ == old(avail)@.take(n as int) + old(buffer)@.skip(n as int),
        final(avail)@ == old(avail)@.skip(n as int),
{
    let n = if avail.len() < buffer.len() { avail.len() } else { buffer.len() };
    if n == 0 {
        assert(old(buffer)@.skip(0) =~= old(buffer)@);
        assert(old(avail)@.skip(0) =~= old(avail)@);
        return 0;
    }
    let mut i: usize = 0;
    while i < n
        invariant
            n <= avail@.len(),
            n <= buffer@.len(),
            avail@ == old(avail)@,
            buffer@.len() == old(buffer)@.len(),
            0 <= i <= n,
            forall|j: int| 0 <= j < i ==> #[trigger] buffer@[j] == avail@[j],
            forall|j: int| i <= j < buffer@.len() ==> #[trigger] buffer@[j] == old(buffer)@[j],
        decreases n - i,
    {
        buffer.set(i, avail[i]);
        i = i + 1;
    }
    let rest = vstd::slice::slice_to_vec(vstd::slice::slice_subrange(avail.as_slice(), n, avail.len()));
    *avail = rest;
    assert(buffer@ =~= old(avail)@.take(n as int) + old(buffer)@.skip(n as int));
    assert(avail@ =~= old(avail)@.skip(n as int));
    n
}

/// A network interface: its name and hardware address, its IPv4
/// configuration, its MTU and whether it is up.
#[derive(Debug)]
pub struct NetworkInterface {
    pub name: String,
    pub mac_address: [u8; 6],
    pub ipv4_address: Option<Ipv4Address>,
    pub ipv4_netmask: Option<Ipv4Address>,
    pub ipv4_gateway: Option<Ipv4Address>,
    pub mtu: u16,
    pub is_up: bool,
}

impl NetworkInterface {
    /// A down interface without an address and an MTU of 1500.
    pub fn new(name: String, mac_address: [u8; 6]) -> (r: Self)
        ensures
            r.name == name && r.mac_address == mac_address,
            r.ipv4_address is None && r.ipv4_netmask is None && r.ipv4_gateway is None,
            r.mtu == 1500 && !r.is_up,
    {
        Self { name, mac_address, ipv4_address: None, ipv4_netmask: None, ipv4_gateway: None, mtu: 1500, is_up: false }
    }

    /// Sets the address, netmask and gateway.
    pub fn configure_ipv4(&mut self, address: Ipv4Address, netmask: Ipv4Address, gateway: Option<Ipv4Address>)
        ensures
            *final(self) == (NetworkInterface {
                ipv4_address: Some(address),
                ipv4_netmask: Some(netmask),
                ipv4_gateway: gateway,
                ..*old(self)
            }),
    {
        self.ipv4_address = Some(address);
        self.ipv4_netmask = Some(netmask);
        self.ipv4_gateway = gateway;
    }

    pub fn bring_up(&mut self)
        ensures
            *final(self) == (NetworkInterface { is_up: true, ..*old(self) }),
    {
        self.is_up = true;
    }

    pub fn bring_down(&mut self)
        ensures
            *final(self) == (NetworkInterface { is_up: false, ..*old(self) }),
    {
        self.is_up = false;
    }
}

/// A known hardware address.
#[derive(Debug, Clone)]
pub struct ArpEntry {
    pub ip_address: Ipv4Address,
    pub mac_address: [u8; 6],
    pub timestamp: u64,
}

/// A route: the destination network, the gateway, the interface and the
/// metric.
#[derive(Debug)]
pub struct RouteEntry {
    pub destination: Ipv4Address,
    pub netmask: Ipv4Address,
    pub gateway: Ipv4Address,
    pub interface: String,
    pub metric: u32,
}

/// The first place from `j` on that holds a route with a metric above
/// `m`, or the length.
pub open spec fn first_above(t: Seq<RouteEntry>, m: u32, j: int) -> int
    decreases t.len() - j,
{
    if j >= t.len() || j < 0 {
        t.len() as int
    } else if t[j].metric > m {
        j
    } else {
        first_above(t, m, j + 1)
    }
}

/// The routes ordered by metric, routes of equal metric in the order they
/// came in.
pub open spec fn sort_by_metric(s: Seq<RouteEntry>) -> Seq<RouteEntry>
    decreases s.len(),
{
    if s.len() == 0 {
        s
    } else {
        let t = sort_by_metric(s.drop_last());
        t.insert(first_above(t, s.last().metric, 0), s.last())
    }
}

/// Everything before `first_above(t, m, j)` from `j` on has a metric of
/// at most `m`; the route there, if any, has more.
proof fn lemma_first_above(t: Seq<RouteEntry>, m: u32, j: int)
    requires
        0 <= j <= t.len(),
    ensures
        j <= first_above(t, m, j) <= t.len(),
        forall|k: int| j <= k < first_above(t, m, j) ==> #[trigger] t[k].metric <= m,
        first_above(t, m, j) < t.len() ==> t[first_above(t, m, j)].metric > m,
    decreases t.len() - j,
{
    if j < t.len() && t[j].metric <= m {
        lemma_first_above(t, m, j + 1);
    }
}

/// The routes' metrics never decrease.
pub open spec fn metric_sorted(s: Seq<RouteEntry>) -> bool {
    forall|i: int, j: int| 0 <= i <= j < s.len() ==> #[trigger] s[i].metric <= #[trigger] s[j].metric
}

/// Ordering routes by metric gives the same routes, in non-decreasing
/// order of metric.
pub proof fn lemma_sort_by_metric(s: Seq<RouteEntry>)
    ensures
        metric_sorted(sort_by_metric(s)),
        sort_by_metric(s).to_multiset() == s.to_multiset(),
    decreases s.len(),
{
    broadcast use vstd::seq_lib::group_to_multiset_ensures;
    if s.len() > 0 {
        lemma_sort_by_metric(s.drop_last());
        let t = sort_by_metric(s.drop_last());
        let x = s.last();
        let m = x.metric;
        lemma_first_above(t, m, 0);
        let p = first_above(t, m, 0);
        let u = t.insert(p, x);
        assert(u == sort_by_metric(s));
        assert forall|i: int, j: int| 0 <= i <= j < u.len() implies #[trigger] u[i].metric <= #[trigger] u[j].metric by {
            if i < p && j < p {
                assert(u[i] == t[i] && u[j] == t[j]);
            } else if i < p && j == p {
                assert(u[i] == t[i]);
            } else if i < p {
                assert(u[i] == t[i] && u[j] == t[j - 1]);
            } else if i == p && j > p {
                assert(u[j] == t[j - 1]);
                assert(t[p].metric > m);
            } else if i > p {
                assert(u[i] == t[i - 1] && u[j] == t[j - 1]);
            }
        }
        assert(s.drop_last().push(x) =~= s);
    }
}

/// Whether `d` lies in the route's network.
pub open spec fn route_matches(r: RouteEntry, d: Seq<u8>) -> bool {
    addr_u32(d) & addr_u32(r.netmask@) == addr_u32(r.destination@) & addr_u32(r.netmask@)
}

/// The first route from `j` on whose network holds `d`.
pub open spec fn first_route(t: Seq<RouteEntry>, d: Seq<u8>, j: int) -> Option<int>
    decreases t.len() - j,
{
    if j >= t.len() || j < 0 {
        None
    } else if route_matches(t[j], d) {
        Some(j)
    } else {
        first_route(t, d, j + 1)
    }
}

/// The first cache entry from `j` on for `ip`.
pub open spec fn first_arp(t: Seq<ArpEntry>, ip: Seq<u8>, j: int) -> Option<int>
    decreases t.len() - j,
{
    if j >= t.len() || j < 0 {
        None
    } else if t[j].ip_address@ == ip {
        Some(j)
    } else {
        first_arp(t, ip, j + 1)
    }
}

/// The stack: interfaces by name, sockets by number, the ARP cache, the
/// routes, and the counters for socket numbers and ephemeral ports.
pub struct NetworkStack {
    interfaces: NameMap<NetworkInterface>,
    sockets: BTreeMap<u32, Socket>,
    arp_cache: Vec<ArpEntry>,
    routing_table: Vec<RouteEntry>,
    next_socket_id: u32,
    next_ephemeral_port: u16,
}

/// `c + 1`, wrapping to zero.
pub open spec fn next_u32(c: u32) -> u32 {
    if c == u32::MAX { 0 } else { (c + 1) as u32 }
}

/// `c + 1`, wrapping to zero.
pub open spec fn next_u16(c: u16) -> u16 {
    if c == u16::MAX { 0 } else { (c + 1) as u16 }
}

impl NetworkStack {
    /// The interface with this name (as bytes).
    pub closed spec fn interface(&self, name: Seq<u8>) -> Option<NetworkInterface> {
        self.interfaces.lookup(name)
    }

    /// The sockets by number.
    pub closed spec fn sockets(&self) -> Map<u32, Socket> {
        self.sockets@
    }

    /// The ARP cache, oldest first.
    pub closed spec fn arp(&self) -> Seq<ArpEntry> {
        self.arp_cache@
    }

    /// The routes, in the order they are tried.
    pub closed spec fn routes(&self) -> Seq<RouteEntry> {
        self.routing_table@
    }

    /// The number the next socket gets.
    pub closed spec fn socket_counter(&self) -> u32 {
        self.next_socket_id
    }

    /// The next ephemeral port.
    pub closed spec fn port_counter(&self) -> u16 {
        self.next_ephemeral_port
    }

    /// The interface names are in order.
    pub closed spec fn wf(&self) -> bool {
        self.interfaces.wf()
    }

    /// An empty stack; sockets count from 1 and ephemeral ports from 49152.
    pub fn new() -> (r: Self)
        ensures
            r.wf(),
            forall|n: Seq<u8>| #[trigger] r.interface(n) is None,
            r.sockets().dom().len() == 0,
            r.arp().len() == 0 && r.routes().len() == 0,
            r.socket_counter() == 1 && r.port_counter() == 49152,
    {
        let r = Self {
            interfaces: NameMap::new(),
            sockets: BTreeMap::new(),
            arp_cache: Vec::new(),
            routing_table: Vec::new(),
            next_socket_id: 1,
            next_ephemeral_port: 49152,
        };
        proof {
            assert forall|n: Seq<u8>| #[trigger] r.interface(n) is None by {
                crate::nt::name_map::lemma_name_index_absent(r.interfaces.keys(), n, 0);
            }
        }
        r
    }

    /// Adds the loopback interface (127.0.0.1/8, up) with its route of
    /// metric 0, and `eth0` (10.0.2.15/24 through 10.0.2.2, down).
    pub fn initialize(&mut self) -> (r: NtStatus)
        requires
            old(self).wf(),
        ensures
            final(self).wf(),
            r == NtStatus::Success,
            final(self).interface(vstd::utf8::encode_utf8("lo"@)) matches Some(lo) && lo.name@ == "lo"@
                && lo.mac_address@ == seq![0u8, 0u8, 0u8, 0u8, 0u8, 0u8]
                && (lo.ipv4_address matches Some(a) && a@ == seq![127u8, 0u8, 0u8, 1u8])
                && (lo.ipv4_netmask matches Some(m) && m@ == seq![255u8, 0u8, 0u8, 0u8])
                && lo.ipv4_gateway is None && lo.is_up && lo.mtu == 1500,
            final(self).interface(vstd::utf8::encode_utf8("eth0"@)) matches Some(e) && e.name@ == "eth0"@
                && e.mac_address@ == seq![0x52u8, 0x54u8, 0x00u8, 0x12u8, 0x34u8, 0x56u8]
                && (e.ipv4_address matches Some(a) && a@ == seq![10u8, 0u8, 2u8, 15u8])
                && (e.ipv4_netmask matches Some(m) && m@ == seq![255u8, 255u8, 255u8, 0u8])
                && (e.ipv4_gateway matches Some(g) && g@ == seq![10u8, 0u8, 2u8, 2u8]) && !e.is_up && e.mtu == 1500,
            final(self).routes().len() == old(self).routes().len() + 1,
            final(self).routes().drop_last() == old(self).routes(),
            final(self).routes().last().destination@ == seq![127u8, 0u8, 0u8, 0u8],
            final(self).routes().last().netmask@ == seq![255u8, 0u8, 0u8, 0u8],
            final(self).routes().last().gateway@ == seq![127u8, 0u8, 0u8, 1u8],
            final(self).routes().last().interface@ == "lo"@,
            final(self).routes().last().metric == 0,
            final(self).sockets() == old(self).sockets() && final(self).arp() == old(self).arp(),
            final(self).socket_counter() == old(self).socket_counter() && final(self).port_counter() == old(self).port_counter(),
    {
        let mut lo = NetworkInterface::new("lo".to_owned(), [0, 0, 0, 0, 0, 0]);
        lo.configure_ipv4(Ipv4Address::localhost(), Ipv4Address::new(255, 0, 0, 0), None);
        lo.bring_up();
        self.interfaces.insert("lo".to_owned(), lo);
        self.routing_table.push(RouteEntry {
            destination: Ipv4Address::new(127, 0, 0, 0),
            netmask: Ipv4Address::new(255, 0, 0, 0),
            gateway: Ipv4Address::localhost(),
            interface: "lo".to_owned(),
            metric: 0,
        });
        let mut eth0 = NetworkInterface::new("eth0".to_owned(), [0x52, 0x54, 0x00, 0x12, 0x34, 0x56]);
        eth0.configure_ipv4(Ipv4Address::new(10, 0, 2, 15), Ipv4Address::new(255, 255, 255, 0),
            Some(Ipv4Address::new(10, 0, 2, 2)));
        self.interfaces.insert("eth0".to_owned(), eth0);
        proof {
            reveal_strlit("lo");
            reveal_strlit("eth0");
            crate::nt::name_map::lemma_distinct_text("lo"@, "eth0"@);
        }
        assert(self.routing_table@.drop_last() =~= old(self).routing_table@);
        NtStatus::Success
    }

    /// Opens a socket under the next number, which always succeeds.
    pub fn create_socket(&mut self, socket_type: SocketType, address_family: AddressFamily) -> (r: Result<u32, NtStatus>)
        ensures
            r == Ok::<u32, NtStatus>(old(self).socket_counter()),
            final(self).socket_counter() == next_u32(old(self).socket_counter()),
            final(self).sockets().dom() == old(self).sockets().dom().insert(old(self).socket_counter()),
            final(self).sockets()[old(self).socket_counter()].socket_type == socket_type,
            final(self).sockets()[old(self).socket_counter()].address_family == address_family,
            final(self).sockets()[old(self).socket_counter()].local_address is None,
            final(self).sockets()[old(self).socket_counter()].remote_address is None,
            final(self).sockets()[old(self).socket_counter()].tcp_connection is None,
            !final(self).sockets()[old(self).socket_counter()].is_listening,
            forall|id: u32| id != old(self).socket_counter() ==> #[trigger] final(self).sockets().get(id) == old(self).sockets().get(id),
            final(self).wf() == old(self).wf(),
            forall|n: Seq<u8>| #[trigger] final(self).interface(n) == old(self).interface(n),
            final(self).port_counter() == old(self).port_counter(),
    {
        let socket_id = self.next_socket_id;
        self.next_socket_id = self.next_socket_id.wrapping_add(1);
        let socket = Socket::new(socket_type, address_family);
        self.sockets.insert(socket_id, socket);
        assert(self.sockets@.dom() =~= old(self).sockets@.dom().insert(socket_id));
        Ok(socket_id)
    }

    /// Binds a socket; an unknown number is the invalid-handle error.
    pub fn bind_socket(&mut self, socket_id: u32, address: SocketAddress) -> (r: NtStatus)
        ensures
            !old(self).sockets().contains_key(socket_id) ==> r == NtStatus::InvalidHandle && *final(self) == *old(self),
            old(self).sockets().contains_key(socket_id) ==> r == NtStatus::Success
                && final(self).sockets() == old(self).sockets().insert(socket_id,
                    Socket { local_address: Some(address), ..old(self).sockets()[socket_id] })
                && final(self).port_counter() == old(self).port_counter()
                && final(self).socket_counter() == old(self).socket_counter(),
    {
        if self.sockets.get(&socket_id).is_none() {
            return NtStatus::InvalidHandle;
        }
        match self.sockets.remove(&socket_id) {
            Some(mut socket) => {
                let r = socket.bind(address);
                self.sockets.insert(socket_id, socket);
                r
            },
            None => NtStatus::InvalidHandle,
        }
    }

    /// Makes a socket listen (see `Socket::listen`); an unknown number is
    /// the invalid-handle error.
    pub fn listen_socket(&mut self, socket_id: u32, backlog: usize) -> (r: NtStatus)
        ensures
            !old(self).sockets().contains_key(socket_id) ==> r == NtStatus::InvalidHandle && *final(self) == *old(self),
            old(self).sockets().contains_key(socket_id) ==> {
                let s = old(self).sockets()[socket_id];
                &&& s.socket_type != SocketType::Stream ==> r == NtStatus::InvalidParameter
                    && final(self).sockets() == old(self).sockets().insert(socket_id, s)
                &&& s.socket_type == SocketType::Stream ==> r == NtStatus::Success
                    && final(self).sockets().dom() == old(self).sockets().dom()
                    && listening(final(self).sockets()[socket_id], s)
                    && forall|id: u32| id != socket_id ==> #[trigger] final(self).sockets().get(id) == old(self).sockets().get(id)
            },
    {
        if self.sockets.get(&socket_id).is_none() {
            return NtStatus::InvalidHandle;
        }
        match self.sockets.remove(&socket_id) {
            Some(mut socket) => {
                let r = socket.listen(backlog);
                self.sockets.insert(socket_id, socket);
                r
            },
            None => NtStatus::InvalidHandle,
        }
    }

    /// Connects a socket (see `Socket::connect`), first binding an unbound
    /// one to the next ephemeral port on 0.0.0.0. An unknown number is the
    /// invalid-handle error.
    pub fn connect_socket(&mut self, socket_id: u32, address: SocketAddress) -> (r: NtStatus)
        ensures
            !old(self).sockets().contains_key(socket_id) ==> r == NtStatus::InvalidHandle && *final(self) == *old(self),
            old(self).sockets().contains_key(socket_id) ==> {
                let s = old(self).sockets()[socket_id];
                let s2 = final(self).sockets()[socket_id];
                &&& final(self).sockets().dom() == old(self).sockets().dom()
                &&& forall|id: u32| id != socket_id ==> #[trigger] final(self).sockets().get(id) == old(self).sockets().get(id)
                &&& s.local_address is None ==> final(self).port_counter() == next_u16(old(self).port_counter())
                    && (s2.local_address matches Some(SocketAddress::Ipv4(a, p)) && a@ == seq![0u8, 0u8, 0u8, 0u8]
                        && p == old(self).port_counter())
                &&& s.local_address is Some ==> final(self).port_counter() == old(self).port_counter()
                    && s2.local_address == s.local_address
                &&& s.socket_type != SocketType::Stream ==> r == NtStatus::InvalidParameter && s2.remote_address == s.remote_address
                    && s2.tcp_connection == s.tcp_connection
                &&& s.socket_type == SocketType::Stream ==> r == NtStatus::Success && s2.remote_address == Some(address)
                    && match (s2.local_address, address) {
                        (Some(SocketAddress::Ipv4(lip, lport)), SocketAddress::Ipv4(rip, rport)) =>
                            s2.tcp_connection matches Some(c) && c.local_addr@ == lip@ && c.local_port == lport
                            && c.remote_addr@ == rip@ && c.remote_port == rport && c.state == TcpState::SynSent,
                        _ => s2.tcp_connection == s.tcp_connection,
                    }
            },
    {
        if self.sockets.get(&socket_id).is_none() {
            return NtStatus::InvalidHandle;
        }
        match self.sockets.remove(&socket_id) {
            Some(mut socket) => {
                if socket.local_address.is_none() {
                    let port = self.next_ephemeral_port;
                    self.next_ephemeral_port = self.next_ephemeral_port.wrapping_add(1);
                    socket.local_address = Some(SocketAddress::Ipv4(Ipv4Address::any(), port));
                }
                let r = socket.connect(address);
                self.sockets.insert(socket_id, socket);
                assert(self.sockets@.dom() =~= old(self).sockets@.dom());
                r
            },
            None => NtStatus::InvalidHandle,
        }
    }

    /// Queues bytes on a socket (see `Socket::send`); an unknown number is
    /// the invalid-handle error.
    pub fn send_socket(&mut self, socket_id: u32, data: &[u8]) -> (r: Result<usize, NtStatus>)
        ensures
            !old(self).sockets().contains_key(socket_id) ==> r == Err::<usize, NtStatus>(NtStatus::InvalidHandle)
                && *final(self) == *old(self),
            old(self).sockets().contains_key(socket_id) ==> {
                let s = old(self).sockets()[socket_id];
                let s2 = final(self).sockets()[socket_id];
                &&& final(self).sockets().dom() == old(self).sockets().dom()
                &&& forall|id: u32| id != socket_id ==> #[trigger] final(self).sockets().get(id) == old(self).sockets().get(id)
                &&& socket_sent(s, s2, data@, r)
                &&& s.socket_type == SocketType::Stream ==> match s.tcp_connection {
                    None => r == Err::<usize, NtStatus>(NtStatus::InvalidHandle) && s2 == s,
                    Some(c) => if c.state == TcpState::Established {
                        r == Ok::<usize, NtStatus>(data@.len() as usize)
                            && (s2.tcp_connection matches Some(c2) && c2.send_buffer@ == c.send_buffer@ + data@)
                    } else {
                        r == Err::<usize, NtStatus>(NtStatus::InvalidDeviceState) && s2 == s
                    },
                }
                &&& s.socket_type == SocketType::Datagram ==> r == Ok::<usize, NtStatus>(data@.len() as usize)
                    && s2.udp_buffer@ == s.udp_buffer@ + data@
                &&& s.socket_type == SocketType::Raw ==> r == Err::<usize, NtStatus>(NtStatus::NotImplemented) && s2 == s
            },
    {
        if self.sockets.get(&socket_id).is_none() {
            return Err(NtStatus::InvalidHandle);
        }
        match self.sockets.remove(&socket_id) {
            Some(mut socket) => {
                let r = socket.send(data);
                self.sockets.insert(socket_id, socket);
                assert(self.sockets@.dom() =~= old(self).sockets@.dom());
                r
            },
            None => Err(NtStatus::InvalidHandle),
        }
    }

    /// Reads bytes from a socket (see `Socket::recv`); an unknown number is
    /// the invalid-handle error.
    pub fn recv_socket(&mut self, socket_id: u32, buffer: &mut Vec<u8>) -> (r: Result<usize, NtStatus>)
        ensures
            !old(self).sockets().contains_key(socket_id) ==> r == Err::<usize, NtStatus>(NtStatus::InvalidHandle)
                && *final(self) == *old(self) && final(buffer)@ == old(buffer)@,
            old(self).sockets().contains_key(socket_id) ==> {
                let s = old(self).sockets()[socket_id];
                let s2 = final(self).sockets()[socket_id];
                &&& final(self).sockets().dom() == old(self).sockets().dom()
                &&& forall|id: u32| id != socket_id ==> #[trigger] final(self).sockets().get(id) == old(self).sockets().get(id)
                &&& socket_received(s, s2, old(buffer)@, final(buffer)@, r)
                &&& s.socket_type == SocketType::Stream ==> match s.tcp_connection {
                    None => r == Err::<usize, NtStatus>(NtStatus::InvalidHandle) && s2 == s && final(buffer)@ == old(buffer)@,
                    Some(c) => if c.state == TcpState::Established {
                        let n = read_count(c.recv_buffer@, old(buffer)@);
                        &&& r == Ok::<usize, NtStatus>(n as usize)
                        &&& final(buffer)@ == c.recv_buffer@.take(n as int) + old(buffer)@.skip(n as int)
                        &&& s2.tcp_connection matches Some(c2) && c2.recv_buffer@ == c.recv_buffer@.skip(n as int)
                    } else {
                        r == Err::<usize, NtStatus>(NtStatus::InvalidDeviceState) && s2 == s && final(buffer)@ == old(buffer)@
                    },
                }
                &&& s.socket_type == SocketType::Datagram ==> {
                    let n = read_count(s.udp_buffer@, old(buffer)@);
                    &&& r == Ok::<usize, NtStatus>(n as usize)
                    &&& final(buffer)@ == s.udp_buffer@.take(n as int) + old(buffer)@.skip(n as int)
                    &&& s2.udp_buffer@ == s.udp_buffer@.skip(n as int)
                }
                &&& s.socket_type == SocketType::Raw ==> r == Err::<usize, NtStatus>(NtStatus::NotImplemented) && s2 == s
                    && final(buffer)@ == old(buffer)@
            },
    {
        if self.sockets.get(&socket_id).is_none() {
            return Err(NtStatus::InvalidHandle);
        }
        match self.sockets.remove(&socket_id) {
            Some(mut socket) => {
                let r = socket.recv(buffer);
                self.sockets.insert(socket_id, socket);
                assert(self.sockets@.dom() =~= old(self).sockets@.dom());
                r
            },
            None => Err(NtStatus::InvalidHandle),
        }
    }

    /// Closes a socket; an unknown number is the invalid-handle error.
    pub fn close_socket(&mut self, socket_id: u32) -> (r: NtStatus)
        ensures
            r == (if old(self).sockets().contains_key(socket_id) { NtStatus::Success } else { NtStatus::InvalidHandle }),
            final(self).sockets() == old(self).sockets().remove(socket_id),
    {
        let r = if self.sockets.remove(&socket_id).is_some() { NtStatus::Success } else { NtStatus::InvalidHandle };
        assert(self.sockets@ =~= old(self).sockets@.remove(socket_id));
        r
    }

    /// Adds an interface under its name, replacing one of that name.
    pub fn add_interface(&mut self, interface: NetworkInterface)
        requires
            old(self).wf(),
        ensures
            final(self).wf(),
            final(self).interface(vstd::utf8::encode_utf8(interface.name@)) == Some(interface),
            forall|n: Seq<u8>| n != vstd::utf8::encode_utf8(interface.name@) ==> #[trigger] final(self).interface(n) == old(self).interface(n),
    {
        let name = interface.name.clone();
        self.interfaces.insert(name, interface);
    }

    /// The interface named `name`.
    pub fn get_interface(&self, name: &str) -> (r: Option<&NetworkInterface>)
        ensures
            match self.interface(name.spec_bytes()) {
                Some(i) => r == Some(&i),
                None => r is None,
            },
    {
        self.interfaces.get(name)
    }

    /// Adds a route and puts the routes in order of metric, routes of
    /// equal metric in the order they came in.
    pub fn add_route(&mut self, route: RouteEntry)
        ensures
            final(self).routes() == sort_by_metric(old(self).routes().push(route)),
            final(self).arp() == old(self).arp() && final(self).sockets() == old(self).sockets(),
    {
        self.routing_table.push(route);
        let mut rest: Vec<RouteEntry> = Vec::new();
        std::mem::swap(&mut rest, &mut self.routing_table);
        let ghost all = rest@;
        let total = rest.len();
        let mut sorted: Vec<RouteEntry> = Vec::new();
        let mut i: usize = 0;
        assert(all.take(0) =~= Seq::<RouteEntry>::empty());
        while rest.len() > 0
            invariant
                sorted@ == sort_by_metric(all.take(i as int)),
                rest@ == all.skip(i as int),
                i <= all.len(),
                all.len() == total,
                self.arp_cache@ == old(self).arp_cache@,
                self.sockets@ == old(self).sockets@,
                all == old(self).routing_table@.push(route),
            decreases rest@.len(),
        {
            let e = rest.remove(0);
            let m = e.metric;
            let mut j: usize = 0;
            while j < sorted.len() && sorted[j].metric <= m
                invariant
                    j <= sorted@.len(),
                    first_above(sorted@, m, 0) == first_above(sorted@, m, j as int),
                decreases sorted@.len() - j,
            {
                j = j + 1;
            }
            proof {
                assert(all.take(i + 1).drop_last() =~= all.take(i as int));
                assert(all.take(i + 1).last() == e);
            }
            sorted.insert(j, e);
            i = i + 1;
            assert(rest@ =~= all.skip(i as int));
        }
        assert(all.take(i as int) =~= all);
        self.routing_table = sorted;
    }

    /// The first route whose network holds `destination`.
    pub fn lookup_route(&self, destination: Ipv4Address) -> (r: Option<&RouteEntry>)
        ensures
            match first_route(self.routes(), destination@, 0) {
                Some(i) => r == Some(&self.routes()[i]),
                None => r is None,
            },
    {
        let d = destination.to_u32();
        let mut i: usize = 0;
        while i < self.routing_table.len()
            invariant
                i <= self.routing_table@.len(),
                d == addr_u32(destination@),
                first_route(self.routing_table@, destination@, 0) == first_route(self.routing_table@, destination@, i as int),
            decreases self.routing_table@.len() - i,
        {
            let route = &self.routing_table[i];
            let mask = route.netmask.to_u32();
            if d & mask == route.destination.to_u32() & mask {
                return Some(route);
            }
            i = i + 1;
        }
        None
    }

    /// Records a hardware address for `ip`.
    pub fn add_arp_entry(&mut self, ip: Ipv4Address, mac: [u8; 6])
        ensures
            final(self).arp().len() == old(self).arp().len() + 1,
            final(self).arp().drop_last() == old(self).arp(),
            final(self).arp().last().ip_address@ == ip@,
            final(self).arp().last().mac_address == mac,
            final(self).arp().last().timestamp == 0,
            final(self).routes() == old(self).routes(),
    {
        self.arp_cache.push(ArpEntry { ip_address: ip, mac_address: mac, timestamp: 0 });
        assert(self.arp_cache@.drop_last() =~= old(self).arp_cache@);
    }

    /// The hardware address first recorded for `ip`.
    pub fn lookup_arp(&self, ip: Ipv4Address) -> (r: Option<[u8; 6]>)
        ensures
            match first_arp(self.arp(), ip@, 0) {
                Some(i) => r == Some(self.arp()[i].mac_address),
                None => r is None,
            },
    {
        let mut i: usize = 0;
        while i < self.arp_cache.len()
            invariant
                i <= self.arp_cache@.len(),
                first_arp(self.arp_cache@, ip@, 0) == first_arp(self.arp_cache@, ip@, i as int),
            decreases self.arp_cache@.len() - i,
        {
            if self.arp_cache[i].ip_address == ip {
                return Some(self.arp_cache[i].mac_address);
            }
            i = i + 1;
        }
        None
    }
}

/// Sets up the stack (see `NetworkStack::initialize`).
pub fn initialize_network(stack: &mut NetworkStack) -> (r: NtStatus)
    requires
        old(stack).wf(),
    ensures
        final(stack).wf(),
        r == NtStatus::Success,
        final(stack).interface(vstd::utf8::encode_utf8("lo"@)) is Some,
        final(stack).interface(vstd::utf8::encode_utf8("eth0"@)) is Some,
        final(stack).routes().len() == old(stack).routes().len() + 1,
{
    stack.initialize()
}

/// Opens a socket from Winsock codes: family 0, 1, 2 or 23 (unspecified,
/// Unix, IPv4, IPv6) and type 1, 2 or 3 (stream, datagram, raw); other
/// codes are the invalid-parameter error.
pub fn ws2_socket(stack: &mut NetworkStack, af: i32, socket_type: i32, protocol: i32) -> (r: Result<u32, NtStatus>)
    ensures
        !(af == 0 || af == 1 || af == 2 || af == 23) || !(1 <= socket_type <= 3) ==>
            r == Err::<u32, NtStatus>(NtStatus::InvalidParameter) && *final(stack) == *old(stack),
        (af == 0 || af == 1 || af == 2 || af == 23) && 1 <= socket_type <= 3 ==> {
            &&& r == Ok::<u32, NtStatus>(old(stack).socket_counter())
            &&& final(stack).socket_counter() == next_u32(old(stack).socket_counter())
            &&& final(stack).sockets()[old(stack).socket_counter()].address_family == (if af == 0 { AddressFamily::Unspec }
                else if af == 1 { AddressFamily::Unix } else if af == 2 { AddressFamily::Inet } else { AddressFamily::Inet6 })
            &&& final(stack).sockets()[old(stack).socket_counter()].socket_type == (if socket_type == 1 { SocketType::Stream }
                else if socket_type == 2 { SocketType::Datagram } else { SocketType::Raw })
            &&& final(stack).sockets().dom() == old(stack).sockets().dom().insert(old(stack).socket_counter())
        },
{
    let address_family = match af {
        0 => AddressFamily::Unspec,
        1 => AddressFamily::Unix,
        2 => AddressFamily::Inet,
        23 => AddressFamily::Inet6,
        _ => return Err(NtStatus::InvalidParameter),
    };
    let sock_type = match socket_type {
        1 => SocketType::Stream,
        2 => SocketType::Datagram,
        3 => SocketType::Raw,
        _ => return Err(NtStatus::InvalidParameter),
    };
    stack.create_socket(sock_type, address_family)
}

/// Binds a socket to a copy of `addr` (see `NetworkStack::bind_socket`).
pub fn ws2_bind(stack: &mut NetworkStack, socket: u32, addr: &SocketAddress) -> (r: NtStatus)
    ensures
        !old(stack).sockets().contains_key(socket) ==> r == NtStatus::InvalidHandle && *final(stack) == *old(stack),
        old(stack).sockets().contains_key(socket) ==> r == NtStatus::Success
            && final(stack).sockets().dom() == old(stack).sockets().dom()
            && (final(stack).sockets()[socket].local_address matches Some(a) && same_address(a, *addr)),
{
    let a = copy_address(addr);
    let r = stack.bind_socket(socket, a);
    proof {
        if old(stack).sockets().contains_key(socket) {
            assert(final(stack).sockets().dom() =~= old(stack).sockets().dom());
        }
    }
    r
}

/// Makes a socket listen (see `NetworkStack::listen_socket`).
pub fn ws2_listen(stack: &mut NetworkStack, socket: u32, backlog: i32) -> (r: NtStatus)
    ensures
        !old(stack).sockets().contains_key(socket) ==> r == NtStatus::InvalidHandle && *final(stack) == *old(stack),
        old(stack).sockets().contains_key(socket) ==> {
            let s = old(stack).sockets()[socket];
            &&& s.socket_type != SocketType::Stream ==> r == NtStatus::InvalidParameter
            &&& s.socket_type == SocketType::Stream ==> r == NtStatus::Success && final(stack).sockets()[socket].is_listening
        },
{
    stack.listen_socket(socket, backlog as usize)
}

/// Connects a socket to a copy of `addr` (see `NetworkStack::connect_socket`).
pub fn ws2_connect(stack: &mut NetworkStack, socket: u32, addr: &SocketAddress) -> (r: NtStatus)
    ensures
        !old(stack).sockets().contains_key(socket) ==> r == NtStatus::InvalidHandle && *final(stack) == *old(stack),
        old(stack).sockets().contains_key(socket) ==> {
            let s = old(stack).sockets()[socket];
            &&& s.socket_type != SocketType::Stream ==> r == NtStatus::InvalidParameter
            &&& s.socket_type == SocketType::Stream ==> r == NtStatus::Success
                && (final(stack).sockets()[socket].remote_address matches Some(a) && same_address(a, *addr))
        },
{
    let a = copy_address(addr);
    stack.connect_socket(socket, a)
}

/// Queues bytes on a socket (see `NetworkStack::send_socket`).
pub fn ws2_send(stack: &mut NetworkStack, socket: u32, buf: &[u8], flags: i32) -> (r: Result<usize, NtStatus>)
    ensures
        old(stack).sockets().contains_key(socket) ==> {
            &&& final(stack).sockets().dom() == old(stack).sockets().dom()
            &&& forall|id: u32| id != socket ==> #[trigger] final(stack).sockets().get(id) == old(stack).sockets().get(id)
            &&& socket_sent(old(stack).sockets()[socket], final(stack).sockets()[socket], buf@, r)
        },
        !old(stack).sockets().contains_key(socket) ==> r == Err::<usize, NtStatus>(NtStatus::InvalidHandle) && *final(stack) == *old(stack),
        old(stack).sockets().contains_key(socket) && old(stack).sockets()[socket].socket_type == SocketType::Datagram ==>
            r == Ok::<usize, NtStatus>(buf@.len() as usize)
            && final(stack).sockets()[socket].udp_buffer@ == old(stack).sockets()[socket].udp_buffer@ + buf@,
        old(stack).sockets().contains_key(socket) && old(stack).sockets()[socket].socket_type == SocketType::Raw ==>
            r == Err::<usize, NtStatus>(NtStatus::NotImplemented),
        old(stack).sockets().contains_key(socket) && old(stack).sockets()[socket].socket_type == SocketType::Stream ==>
            match old(stack).sockets()[socket].tcp_connection {
                None => r == Err::<usize, NtStatus>(NtStatus::InvalidHandle),
                Some(c) => if c.state == TcpState::Established {
                    r == Ok::<usize, NtStatus>(buf@.len() as usize)
                } else {
                    r == Err::<usize, NtStatus>(NtStatus::InvalidDeviceState)
                },
            },
{
    stack.send_socket(socket, buf)
}

/// Reads bytes from a socket into the front of `buf` (see
/// `NetworkStack::recv_socket`).
pub fn ws2_recv(stack: &mut NetworkStack, socket: u32, buf: &mut Vec<u8>, flags: i32) -> (r: Result<usize, NtStatus>)
    ensures
        old(stack).sockets().contains_key(socket) ==> {
            &&& final(stack).sockets().dom() == old(stack).sockets().dom()
            &&& forall|id: u32| id != socket ==> #[trigger] final(stack).sockets().get(id) == old(stack).sockets().get(id)
            &&& socket_received(old(stack).sockets()[socket], final(stack).sockets()[socket], old(buf)@, final(buf)@, r)
        },
        !old(stack).sockets().contains_key(socket) ==> r == Err::<usize, NtStatus>(NtStatus::InvalidHandle)
            && *final(stack) == *old(stack) && final(buf)@ == old(buf)@,
        old(stack).sockets().contains_key(socket) && old(stack).sockets()[socket].socket_type == SocketType::Datagram ==> {
            let s = old(stack).sockets()[socket];
            let n = read_count(s.udp_buffer@, old(buf)@);
            &&& r == Ok::<usize, NtStatus>(n as usize)
            &&& final(buf)@ == s.udp_buffer@.take(n as int) + old(buf)@.skip(n as int)
            &&& final(stack).sockets()[socket].udp_buffer@ == s.udp_buffer@.skip(n as int)
        },
        old(stack).sockets().contains_key(socket) && old(stack).sockets()[socket].socket_type == SocketType::Raw ==>
            r == Err::<usize, NtStatus>(NtStatus::NotImplemented) && final(buf)@ == old(buf)@,
        old(stack).sockets().contains_key(socket) && old(stack).sockets()[socket].socket_type == SocketType::Stream ==>
            match old(stack).sockets()[socket].tcp_connection {
                None => r == Err::<usize, NtStatus>(NtStatus::InvalidHandle) && final(buf)@ == old(buf)@,
                Some(c) => if c.state == TcpState::Established {
                    let n = read_count(c.recv_buffer@, old(buf)@);
                    r == Ok::<usize, NtStatus>(n as usize) && final(buf)@ == c.recv_buffer@.take(n as int) + old(buf)@.skip(n as int)
                } else {
                    r == Err::<usize, NtStatus>(NtStatus::InvalidDeviceState) && final(buf)@ == old(buf)@
                },
            },
{
    stack.recv_socket(socket, buf)
}

/// Closes a socket (see `NetworkStack::close_socket`).
pub fn ws2_closesocket(stack: &mut NetworkStack, socket: u32) -> (r: NtStatus)
    ensures
        r == (if old(stack).sockets().contains_key(socket) { NtStatus::Success } else { NtStatus::InvalidHandle }),
        final(stack).sockets() == old(stack).sockets().remove(socket),
{
    stack.close_socket(socket)
}

} // verus!
