//! UDP datagrams and sockets.

use vstd::prelude::*;
use std::collections::{BTreeMap, VecDeque};
use crate::net::{swap16, be16, be_bytes16, to_be16, push_be16, extend_bytes, add_words, fold_carries,
    complement16, fold16, ones_sum, ones_complement, NetworkStats};
use crate::net::ip::{IpPacket, Ipv4Address, IP_PROTO_UDP, le16, room_to_send, send_ip_packet, routable, counted_send,
    host_ip_header, ip_frame};
use crate::net::arp::ArpCache;
use crate::net::ethernet::EthernetFrame;
use crate::net::socket::SocketAddr;

verus! {

broadcast use vstd::std_specs::btree::group_btree_axioms;

/// A UDP header as held in memory: every field in network order.
#[derive(Debug, Clone, Copy)]
pub struct UdpHeader {
    pub src_port: u16,
    pub dst_port: u16,
    pub length: u16,
    pub checksum: u16,
}

impl UdpHeader {
    /// A header for `payload_len` bytes of data; the length is `8 +
    /// payload_len` truncated to 16 bits, and the checksum is left zero.
    pub fn new(src_port: u16, dst_port: u16, payload_len: usize) -> (r: Self)
        requires
            payload_len + 8 <= usize::MAX,
        ensures
            r.src_port == swap16(src_port),
            r.dst_port == swap16(dst_port),
            r.length == swap16(((8 + payload_len) % 65536) as u16),
            r.checksum == 0,
    {
        Self {
            src_port: to_be16(src_port),
            dst_port: to_be16(dst_port),
            length: to_be16(((8 + payload_len) % 65536) as u16),
            checksum: 0,
        }
    }

    /// The source port in host order.
    pub fn src_port(&self) -> (r: u16)
        ensures
            r == swap16(self.src_port),
    {
        to_be16(self.src_port)
    }

    /// The destination port in host order.
    pub fn dst_port(&self) -> (r: u16)
        ensures
            r == swap16(self.dst_port),
    {
        to_be16(self.dst_port)
    }

    /// The length in host order.
    pub fn length(&self) -> (r: u16)
        ensures
            r == swap16(self.length),
    {
        to_be16(self.length)
    }
}

/// A UDP datagram.
pub struct UdpPacket {
    pub header: UdpHeader,
    pub data: Vec<u8>,
}

/// The bytes `to_bytes` writes: the four stored fields big-endian, then data.
pub open spec fn udp_image(h: UdpHeader, data: Seq<u8>) -> Seq<u8> {
    be_bytes16(h.src_port) + be_bytes16(h.dst_port) + be_bytes16(h.length) + be_bytes16(h.checksum) + data
}

/// Whether `from_bytes` can run on `data` without its length arithmetic
/// failing: either too short to have a header, or with a length of at least 8.
pub open spec fn udp_length_sane(data: Seq<u8>) -> bool {
    data.len() < 8 || be16(data[4], data[5]) >= 8
}

/// The sum `calculate_checksum` folds.
pub open spec fn udp_sum(h: UdpHeader, src: Seq<u8>, dst: Seq<u8>, data: Seq<u8>) -> int {
    (src[0] + src[1] + src[2] + src[3]) * 256 + (dst[0] + dst[1] + dst[2] + dst[3]) * 256 + IP_PROTO_UDP
        + swap16(h.length) + swap16(h.src_port) + swap16(h.dst_port) + swap16(h.length) + ones_sum(data)
}

impl UdpPacket {
    /// A datagram from `src_port` to `dst_port` carrying `data`.
    pub fn new(src_port: u16, dst_port: u16, data: Vec<u8>) -> (r: Self)
        requires
            data@.len() + 8 <= usize::MAX,
        ensures
            r.header == (UdpHeader {
                src_port: swap16(src_port),
                dst_port: swap16(dst_port),
                length: swap16(((8 + data@.len()) % 65536) as u16),
                checksum: 0,
            }),
            r.data@ == data@,
    {
        let header = UdpHeader::new(src_port, dst_port, data.len());
        Self { header, data }
    }

    /// Parses a datagram: the header is the first 8 bytes as they lie in
    /// memory, the data is the length field less 8 bytes long.
    pub fn from_bytes(data: &[u8]) -> (r: Result<Self, &'static str>)
        requires
            udp_length_sane(data@),
        ensures
            r is Err <==> (data@.len() < 8 || data@.len() < be16(data@[4], data@[5])),
            r matches Err(e) ==> e@ == (if data@.len() < 8 { "UDP packet too small"@ } else { "UDP packet truncated"@ }),
            r matches Ok(p) ==> {
                &&& p.header.src_port == le16(data@[0], data@[1])
                &&& p.header.dst_port == le16(data@[2], data@[3])
                &&& p.header.length == le16(data@[4], data@[5])
                &&& p.header.checksum == le16(data@[6], data@[7])
                &&& p.data@ == data@.subrange(8, be16(data@[4], data@[5]) as int)
            },
    {
        if data.len() < 8 {
            return Err("UDP packet too small");
        }
        let header = UdpHeader {
            src_port: crate::net::read_le16(data[0], data[1]),
            dst_port: crate::net::read_le16(data[2], data[3]),
            length: crate::net::read_le16(data[4], data[5]),
            checksum: crate::net::read_le16(data[6], data[7]),
        };
        proof {
            crate::net::ip::lemma_swap_le16(data@[4], data@[5]);
        }
        let payload_len = header.length() as usize - 8;
        if data.len() < 8 + payload_len {
            return Err("UDP packet truncated");
        }
        let payload = vstd::slice::slice_to_vec(&data[8..8 + payload_len]);
        Ok(Self { header, data: payload })
    }

    /// The datagram bytes.
    pub fn to_bytes(&self) -> (r: Vec<u8>)
        ensures
            r@ == udp_image(self.header, self.data@),
    {
        let mut packet: Vec<u8> = Vec::new();
        push_be16(&mut packet, self.header.src_port);
        push_be16(&mut packet, self.header.dst_port);
        push_be16(&mut packet, self.header.length);
        push_be16(&mut packet, self.header.checksum);
        extend_bytes(&mut packet, self.data.as_slice());
        assert(packet@ =~= udp_image(self.header, self.data@));
        packet
    }

    /// The checksum over the pseudo header, the header (length counted
    /// twice, checksum left out) and the data; a zero result becomes 0xFFFF.
    pub fn calculate_checksum(&self, src_ip: Ipv4Address, dst_ip: Ipv4Address) -> (r: u16)
        requires
            self.data@.len() > 0,
            ones_sum(self.data@) + 0x100000 <= u32::MAX,
        ensures
            r == (if ones_complement(udp_sum(self.header, src_ip@, dst_ip@, self.data@)) == 0 {
                0xFFFF
            } else {
                ones_complement(udp_sum(self.header, src_ip@, dst_ip@, self.data@))
            }),
    {
        let mut sum: u32 = 0;
        let s = src_ip.as_bytes();
        let d = dst_ip.as_bytes();
        proof {
            src_ip.lemma_len();
            dst_ip.lemma_len();
        }
        sum = sum + (s[0] as u32) * 256 + (s[1] as u32) * 256 + (s[2] as u32) * 256 + (s[3] as u32) * 256;
        sum = sum + (d[0] as u32) * 256 + (d[1] as u32) * 256 + (d[2] as u32) * 256 + (d[3] as u32) * 256;
        sum = sum + IP_PROTO_UDP as u32;
        sum = sum + self.header.length() as u32;
        sum = sum + self.header.src_port() as u32;
        sum = sum + self.header.dst_port() as u32;
        sum = sum + self.header.length() as u32;
        let sum = add_words(self.data.as_slice(), sum);
        let sum = fold_carries(sum);
        let checksum = complement16(sum);
        if checksum == 0 {
            0xFFFF
        } else {
            checksum
        }
    }
}

/// A bound socket: its port, an optional default peer and the datagrams
/// received and not yet read, oldest first.
pub struct UdpSocket {
    pub local_port: u16,
    pub remote_addr: Option<(Ipv4Address, u16)>,
    pub receive_buffer: VecDeque<(Ipv4Address, u16, Vec<u8>)>,
}

/// Whether `p` is the IP packet `send_to` builds for `data` to `addr`:`port`.
pub open spec fn udp_ip_packet(p: IpPacket, local_port: u16, data: Seq<u8>, addr: Ipv4Address, port: u16) -> bool {
    &&& host_ip_header(p.header, addr@, IP_PROTO_UDP, p.payload@.len())
    &&& p.header.dst_addr == addr
    &&& p.payload@ == udp_image(UdpHeader {
        src_port: swap16(local_port),
        dst_port: swap16(port),
        length: swap16(((8 + data.len()) % 65536) as u16),
        checksum: 0,
    }, data)
}

/// Whether `r` is what sending `data` from `local_port` to `addr`:`port`
/// gives, with the counters going from `before` to `after`: the ARP error,
/// counters unchanged, when `addr` is neither broadcast nor cached; else the
/// frame carrying the datagram, counted as sent.
pub open spec fn udp_sent(entries: Map<u32, crate::net::arp::ArpEntry>, before: NetworkStats, after: NetworkStats,
    local_port: u16, data: Seq<u8>, addr: Ipv4Address, port: u16, r: Result<EthernetFrame, &'static str>) -> bool {
    &&& (r is Err <==> !routable(entries, addr@))
    &&& r matches Err(e) ==> e@ == "ARP resolution failed"@ && after == before
    &&& r matches Ok(f) ==> counted_send(before, after, f.payload@.len())
        && exists|p: IpPacket| #[trigger] udp_ip_packet(p, local_port, data, addr, port) && ip_frame(f, entries, p.header, p.payload@)
}

impl UdpSocket {
    /// A socket on `local_port` with no peer and nothing received.
    pub fn new(local_port: u16) -> (r: Self)
        ensures
            r.local_port == local_port,
            r.remote_addr is None,
            r.receive_buffer@ == Seq::<(Ipv4Address, u16, Vec<u8>)>::empty(),
    {
        Self { local_port, remote_addr: None, receive_buffer: VecDeque::new() }
    }

    /// Sets the default peer.
    pub fn bind_remote(&mut self, addr: Ipv4Address, port: u16)
        ensures
            final(self).remote_addr == Some((addr, port)),
            final(self).local_port == old(self).local_port,
            final(self).receive_buffer@ == old(self).receive_buffer@,
    {
        self.remote_addr = Some((addr, port));
    }

    /// Sends `data` to the default peer; without one the result is an error.
    pub fn send(&self, cache: &ArpCache, stats: &mut NetworkStats, data: Vec<u8>) -> (r: Result<EthernetFrame, &'static str>)
        requires
            room_to_send(*old(stats), data@.len() + 8),
            data@.len() + 82 <= usize::MAX,
        ensures
            self.remote_addr is None ==> (r matches Err(e) && e@ == "No remote address bound"@ && *final(stats) == *old(stats)),
            self.remote_addr matches Some((a, p)) ==> udp_sent(cache.entries(), *old(stats), *final(stats), self.local_port, data@, a, p, r),
            r is Err ==> *final(stats) == *old(stats),
    {
        match self.remote_addr {
            Some((addr, port)) => self.send_to(cache, stats, data.as_slice(), addr, port),
            None => Err("No remote address bound"),
        }
    }

    /// Takes the oldest received datagram.
    pub fn recv(&mut self) -> (r: Option<(Ipv4Address, u16, Vec<u8>)>)
        ensures
            old(self).receive_buffer@.len() == 0 ==> r is None && final(self).receive_buffer@ == old(self).receive_buffer@,
            old(self).receive_buffer@.len() > 0 ==> r == Some(old(self).receive_buffer@[0])
                && final(self).receive_buffer@ == old(self).receive_buffer@.drop_first(),
            final(self).local_port == old(self).local_port,
            final(self).remote_addr == old(self).remote_addr,
    {
        self.receive_buffer.pop_front()
    }

    /// Takes the oldest received datagram with its sender; with none the
    /// result is an error.
    pub fn recv_from(&mut self) -> (r: Result<(Vec<u8>, SocketAddr), &'static str>)
        ensures
            old(self).receive_buffer@.len() == 0 ==> (r matches Err(e) && e@ == "No data available"@
                && final(self).receive_buffer@ == old(self).receive_buffer@),
            old(self).receive_buffer@.len() > 0 ==> {
                let (a, p, d) = old(self).receive_buffer@[0];
                &&& r matches Ok((data, sa)) && data == d && sa.ip == a && sa.port == p
                &&& final(self).receive_buffer@ == old(self).receive_buffer@.drop_first()
            },
            final(self).local_port == old(self).local_port,
            final(self).remote_addr == old(self).remote_addr,
    {
        match self.receive_buffer.pop_front() {
            Some((addr, port, data)) => Ok((data, SocketAddr { ip: addr, port })),
            None => Err("No data available"),
        }
    }

    /// Frames a datagram from this socket's port to `addr`:`port`.
    pub fn send_to(&self, cache: &ArpCache, stats: &mut NetworkStats, data: &[u8], addr: Ipv4Address, port: u16) -> (r: Result<EthernetFrame, &'static str>)
        requires
            room_to_send(*old(stats), data@.len() + 8),
            data@.len() + 82 <= usize::MAX,
        ensures
            udp_sent(cache.entries(), *old(stats), *final(stats), self.local_port, data@, addr, port, r),
            r is Err <==> (addr@ != crate::net::ip::ip4(255, 255, 255, 255)
                && !cache.entries().contains_key(crate::net::ip::ip_u32(addr@))),
            r is Err ==> *final(stats) == *old(stats),
            r matches Ok(f) ==> exists|p: IpPacket| udp_ip_packet(p, self.local_port, data@, addr, port)
                && f.payload@ == crate::net::ip::header_bytes(p.header, crate::net::ip::ihl_len(p.header.version_ihl)) + p.payload@,
    {
        let udp_packet = UdpPacket::new(self.local_port, port, vstd::slice::slice_to_vec(data));
        let our_ip = Ipv4Address::new(192, 168, 1, 100);
        let ip_packet = IpPacket::new(our_ip, addr, IP_PROTO_UDP, udp_packet.to_bytes());
        let ghost gp = ip_packet;
        let r = send_ip_packet(cache, stats, ip_packet);
        proof {
            if r is Ok {
                assert(udp_ip_packet(gp, self.local_port, data@, addr, port));
            }
        }
        r
    }
}

/// The sockets bound to each port.
pub type UdpSockets = BTreeMap<u16, UdpSocket>;

/// Binds a socket to `port`; a port already in use is an error.
pub fn bind(sockets: &mut UdpSockets, port: u16) -> (r: Result<(), &'static str>)
    ensures
        r is Err <==> old(sockets)@.contains_key(port),
        r matches Err(e) ==> e@ == "Port already in use"@ && final(sockets)@ == old(sockets)@,
        r is Ok ==> final(sockets)@.dom() == old(sockets)@.dom().insert(port)
            && final(sockets)@[port].local_port == port && final(sockets)@[port].remote_addr is None
            && final(sockets)@[port].receive_buffer@.len() == 0
            && forall|k: u16| k != port && old(sockets)@.contains_key(k) ==> #[trigger] final(sockets)@[k] == old(sockets)@[k],
{
    if sockets.contains_key(&port) {
        return Err("Port already in use");
    }
    sockets.insert(port, UdpSocket::new(port));
    Ok(())
}

/// Closes the socket on `port`; a port with no socket is an error.
pub fn unbind(sockets: &mut UdpSockets, port: u16) -> (r: Result<(), &'static str>)
    ensures
        r is Err <==> !old(sockets)@.contains_key(port),
        r matches Err(e) ==> e@ == "Socket not found"@,
        final(sockets)@ == old(sockets)@.remove(port),
{
    if sockets.remove(&port).is_some() {
        Ok(())
    } else {
        Err("Socket not found")
    }
}

/// Sends `data` from the socket on `local_port` (from that socket's own
/// port, which `bind` makes `local_port`); with no such socket the result
/// is an error.
pub fn send_to(sockets: &UdpSockets, cache: &ArpCache, stats: &mut NetworkStats, local_port: u16, data: Vec<u8>, dst_addr: Ipv4Address, dst_port: u16) -> (r: Result<EthernetFrame, &'static str>)
    requires
        room_to_send(*old(stats), data@.len() + 8),
        data@.len() + 82 <= usize::MAX,
    ensures
        !sockets@.contains_key(local_port) ==> (r matches Err(e) && e@ == "Socket not found"@),
        r is Err ==> *final(stats) == *old(stats),
        sockets@.contains_key(local_port) ==> (r is Err <==> (dst_addr@ != crate::net::ip::ip4(255, 255, 255, 255)
            && !cache.entries().contains_key(crate::net::ip::ip_u32(dst_addr@)))),
        sockets@.contains_key(local_port) ==> udp_sent(cache.entries(), *old(stats), *final(stats),
            sockets@[local_port].local_port, data@, dst_addr, dst_port, r),
{
    match sockets.get(&local_port) {
        Some(socket) => socket.send_to(cache, stats, data.as_slice(), dst_addr, dst_port),
        None => Err("Socket not found"),
    }
}

/// Takes the oldest datagram of the socket on `local_port`; with no such
/// socket the result is an error.
pub fn recv_from(sockets: &mut UdpSockets, local_port: u16) -> (r: Result<Option<(Ipv4Address, u16, Vec<u8>)>, &'static str>)
    ensures
        r is Err <==> !old(sockets)@.contains_key(local_port),
        r matches Err(e) ==> e@ == "Socket not found"@ && final(sockets)@ == old(sockets)@,
        r matches Ok(o) ==> {
            let s = old(sockets)@[local_port];
            &&& final(sockets)@.dom() == old(sockets)@.dom()
            &&& (s.receive_buffer@.len() == 0 ==> o is None)
            &&& (s.receive_buffer@.len() > 0 ==> o == Some(s.receive_buffer@[0]))
            &&& final(sockets)@[local_port].receive_buffer@ == (if s.receive_buffer@.len() == 0 { s.receive_buffer@ } else { s.receive_buffer@.drop_first() })
            &&& forall|k: u16| k != local_port && old(sockets)@.contains_key(k) ==> #[trigger] final(sockets)@[k] == old(sockets)@[k]
        },
{
    match sockets.remove(&local_port) {
        Some(mut socket) => {
            let r = socket.recv();
            sockets.insert(local_port, socket);
            proof {
                assert(final(sockets)@.dom() =~= old(sockets)@.dom());
            }
            Ok(r)
        },
        None => Err("Socket not found"),
    }
}

/// Delivers the datagram in `ip_packet` to the socket bound to its
/// destination port, appending sender address, sender port and data to that
/// socket's queue. With no socket on that port the result is the ICMP
/// port-unreachable packet to send back. A datagram that does not parse
/// changes nothing.
pub fn process_udp_packet(sockets: &mut UdpSockets, ip_packet: &IpPacket) -> (r: Option<IpPacket>)
    requires
        udp_length_sane(ip_packet.payload@),
    ensures
        ({
            let d = ip_packet.payload@;
            if d.len() < 8 || d.len() < be16(d[4], d[5]) {
                r is None && final(sockets)@ == old(sockets)@
            } else {
                let port = be16(d[2], d[3]);
                if old(sockets)@.contains_key(port) {
                    &&& r is None
                    &&& final(sockets)@.dom() == old(sockets)@.dom()
                    &&& final(sockets)@[port].receive_buffer@.len() == old(sockets)@[port].receive_buffer@.len() + 1
                    &&& final(sockets)@[port].receive_buffer@.drop_last() == old(sockets)@[port].receive_buffer@
                    &&& final(sockets)@[port].receive_buffer@.last().0 == ip_packet.header.src_addr
                    &&& final(sockets)@[port].receive_buffer@.last().1 == be16(d[0], d[1])
                    &&& final(sockets)@[port].receive_buffer@.last().2@ == d.subrange(8, be16(d[4], d[5]) as int)
                    &&& final(sockets)@[port].local_port == old(sockets)@[port].local_port
                    &&& final(sockets)@[port].remote_addr == old(sockets)@[port].remote_addr
                    &&& forall|k: u16| k != port && old(sockets)@.contains_key(k) ==> #[trigger] final(sockets)@[k] == old(sockets)@[k]
                } else {
                    &&& r matches Some(p) && p.header.dst_addr == ip_packet.header.src_addr
                    &&& final(sockets)@ == old(sockets)@
                }
            }
        }),
{
    let udp_packet = match UdpPacket::from_bytes(ip_packet.payload.as_slice()) {
        Ok(p) => p,
        Err(_) => { return None; },
    };
    let dst_port = udp_packet.header.dst_port();
    let src_port = udp_packet.header.src_port();
    proof {
        let d = ip_packet.payload@;
        crate::net::ip::lemma_swap_le16(d[0], d[1]);
        crate::net::ip::lemma_swap_le16(d[2], d[3]);
    }
    match sockets.remove(&dst_port) {
        Some(mut socket) => {
            socket.receive_buffer.push_back((ip_packet.header.src_addr, src_port, udp_packet.data));
            sockets.insert(dst_port, socket);
            proof {
                assert(final(sockets)@.dom() =~= old(sockets)@.dom());
            }
            None
        },
        None => {
            let bytes = ip_packet.to_bytes();
            Some(port_unreachable(ip_packet.header.src_addr, bytes))
        },
    }
}

fn port_unreachable(dst: Ipv4Address, bytes: Vec<u8>) -> (r: IpPacket)
    requires
        bytes@.len() > 0,
    ensures
        r.header.dst_addr == dst,
{
    crate::net::icmp::send_dest_unreachable(dst, crate::net::icmp::ICMP_CODE_PORT_UNREACHABLE, bytes.as_slice())
}

pub const PORT_DNS: u16 = 53;
pub const PORT_DHCP_SERVER: u16 = 67;
pub const PORT_DHCP_CLIENT: u16 = 68;
pub const PORT_TFTP: u16 = 69;
pub const PORT_NTP: u16 = 123;
pub const PORT_NETBIOS_NS: u16 = 137;
pub const PORT_NETBIOS_DGM: u16 = 138;
pub const PORT_SNMP: u16 = 161;

} // verus!
