//! Address resolution: ARP packets and the cache of resolved addresses.

use vstd::prelude::*;
use std::collections::BTreeMap;
use crate::net::{be16, be_bytes16, swap16, to_be16, read_be16, push_be16, extend_bytes};
use crate::net::ethernet::{MacAddress, EthernetFrame, ETHERTYPE_ARP, mac_zero, mac_broadcast, our_mac, get_mac_address};
use crate::net::ip::{Ipv4Address, ip4, ip_u32};

verus! {

broadcast use vstd::std_specs::btree::group_btree_axioms;

pub const ARP_HARDWARE_ETHERNET: u16 = 1;
pub const ARP_PROTOCOL_IPV4: u16 = 0x0800;
pub const ARP_OPERATION_REQUEST: u16 = 1;
pub const ARP_OPERATION_REPLY: u16 = 2;

/// An ARP packet as held in memory: the 16-bit fields hold their values in
/// network byte order.
#[derive(Debug, Clone, Copy)]
pub struct ArpPacket {
    pub hardware_type: u16,
    pub protocol_type: u16,
    pub hardware_len: u8,
    pub protocol_len: u8,
    pub operation: u16,
    pub sender_mac: MacAddress,
    pub sender_ip: Ipv4Address,
    pub target_mac: MacAddress,
    pub target_ip: Ipv4Address,
}

/// The bytes `to_bytes` writes: each 16-bit field's stored value in
/// big-endian order, then lengths, operation and the four addresses.
pub open spec fn arp_image(p: ArpPacket) -> Seq<u8> {
    be_bytes16(p.hardware_type) + be_bytes16(p.protocol_type) + seq![p.hardware_len, p.protocol_len]
        + be_bytes16(p.operation) + p.sender_mac@ + p.sender_ip@ + p.target_mac@ + p.target_ip@
}

/// Whether `data` is an Ethernet/IPv4 ARP packet that `from_bytes` accepts.
pub open spec fn arp_acceptable(data: Seq<u8>) -> bool {
    &&& data.len() >= 28
    &&& be16(data[0], data[1]) == ARP_HARDWARE_ETHERNET
    &&& be16(data[2], data[3]) == ARP_PROTOCOL_IPV4
    &&& data[4] == 6
    &&& data[5] == 4
}

impl ArpPacket {
    /// A request from `sender` asking for the hardware address of `target_ip`.
    pub fn new_request(sender_mac: MacAddress, sender_ip: Ipv4Address, target_ip: Ipv4Address) -> (r: Self)
        ensures
            r.hardware_type == swap16(ARP_HARDWARE_ETHERNET),
            r.protocol_type == swap16(ARP_PROTOCOL_IPV4),
            r.hardware_len == 6,
            r.protocol_len == 4,
            r.operation == swap16(ARP_OPERATION_REQUEST),
            r.sender_mac == sender_mac,
            r.sender_ip == sender_ip,
            r.target_mac@ == mac_zero(),
            r.target_ip == target_ip,
    {
        Self {
            hardware_type: to_be16(ARP_HARDWARE_ETHERNET),
            protocol_type: to_be16(ARP_PROTOCOL_IPV4),
            hardware_len: 6,
            protocol_len: 4,
            operation: to_be16(ARP_OPERATION_REQUEST),
            sender_mac,
            sender_ip,
            target_mac: MacAddress::zero(),
            target_ip,
        }
    }

    /// A reply from `sender` to `target`.
    pub fn new_reply(sender_mac: MacAddress, sender_ip: Ipv4Address, target_mac: MacAddress, target_ip: Ipv4Address) -> (r: Self)
        ensures
            r.hardware_type == swap16(ARP_HARDWARE_ETHERNET),
            r.protocol_type == swap16(ARP_PROTOCOL_IPV4),
            r.hardware_len == 6,
            r.protocol_len == 4,
            r.operation == swap16(ARP_OPERATION_REPLY),
            r.sender_mac == sender_mac,
            r.sender_ip == sender_ip,
            r.target_mac == target_mac,
            r.target_ip == target_ip,
    {
        Self {
            hardware_type: to_be16(ARP_HARDWARE_ETHERNET),
            protocol_type: to_be16(ARP_PROTOCOL_IPV4),
            hardware_len: 6,
            protocol_len: 4,
            operation: to_be16(ARP_OPERATION_REPLY),
            sender_mac,
            sender_ip,
            target_mac,
            target_ip,
        }
    }

    /// Parses an Ethernet/IPv4 ARP packet; anything else gives `None`.
    pub fn from_bytes(data: &[u8]) -> (r: Option<Self>)
        ensures
            r is Some <==> arp_acceptable(data@),
            r matches Some(p) ==> {
                &&& p.hardware_type == swap16(ARP_HARDWARE_ETHERNET)
                &&& p.protocol_type == swap16(ARP_PROTOCOL_IPV4)
                &&& p.hardware_len == 6
                &&& p.protocol_len == 4
                &&& p.operation == swap16(be16(data@[6], data@[7]))
                &&& p.sender_mac@ == data@.subrange(8, 14)
                &&& p.sender_ip@ == data@.subrange(14, 18)
                &&& p.target_mac@ == data@.subrange(18, 24)
                &&& p.target_ip@ == data@.subrange(24, 28)
            },
    {
        if data.len() < 28 {
            return None;
        }
        let hardware_type = read_be16(data[0], data[1]);
        let protocol_type = read_be16(data[2], data[3]);
        let hardware_len = data[4];
        let protocol_len = data[5];
        let operation = read_be16(data[6], data[7]);
        if hardware_type != ARP_HARDWARE_ETHERNET || protocol_type != ARP_PROTOCOL_IPV4 || hardware_len != 6
            || protocol_len != 4 {
            return None;
        }
        let sender_mac = MacAddress::from_bytes(&data[8..14])?;
        let sender_ip = Ipv4Address::from_bytes(&data[14..18])?;
        let target_mac = MacAddress::from_bytes(&data[18..24])?;
        let target_ip = Ipv4Address::from_bytes(&data[24..28])?;
        Some(Self {
            hardware_type: to_be16(hardware_type),
            protocol_type: to_be16(protocol_type),
            hardware_len,
            protocol_len,
            operation: to_be16(operation),
            sender_mac,
            sender_ip,
            target_mac,
            target_ip,
        })
    }

    /// The 28 bytes of the packet.
    pub fn to_bytes(&self) -> (r: Vec<u8>)
        ensures
            r@ == arp_image(*self),
            r@.len() == 28,
    {
        let mut packet: Vec<u8> = Vec::with_capacity(28);
        push_be16(&mut packet, self.hardware_type);
        push_be16(&mut packet, self.protocol_type);
        packet.push(self.hardware_len);
        packet.push(self.protocol_len);
        push_be16(&mut packet, self.operation);
        extend_bytes(&mut packet, self.sender_mac.as_bytes());
        extend_bytes(&mut packet, self.sender_ip.as_bytes());
        extend_bytes(&mut packet, self.target_mac.as_bytes());
        extend_bytes(&mut packet, self.target_ip.as_bytes());
        proof {
            self.sender_mac.lemma_len();
            self.target_mac.lemma_len();
            self.sender_ip.lemma_len();
            self.target_ip.lemma_len();
        }
        assert(packet@ =~= arp_image(*self));
        packet
    }

    /// The operation, converted from network order.
    pub fn operation(&self) -> (r: u16)
        ensures
            r == swap16(self.operation),
    {
        to_be16(self.operation)
    }
}

/// A resolved address.
#[derive(Debug, Clone, Copy)]
pub struct ArpEntry {
    pub mac_address: MacAddress,
    pub timestamp: u64,
    pub permanent: bool,
}

/// Resolved addresses, keyed by the address as a 32-bit number, and the
/// packets waiting for a resolution.
pub struct ArpCache {
    entries: BTreeMap<u32, ArpEntry>,
    pending: BTreeMap<u32, Vec<Vec<u8>>>,
}

impl ArpCache {
    /// The resolved addresses.
    pub closed spec fn entries(&self) -> Map<u32, ArpEntry> {
        self.entries@
    }

    /// The packets waiting for each address.
    pub closed spec fn pending(&self) -> Map<u32, Seq<Vec<u8>>> {
        Map::new(|k: u32| self.pending@.contains_key(k), |k: u32| self.pending@[k]@)
    }

    /// Every entry the cache learns is a dynamic one.
    pub closed spec fn wf(&self) -> bool {
        forall|k: u32| #[trigger] self.entries@.contains_key(k) ==> !self.entries@[k].permanent
    }

    /// An empty cache.
    pub fn new() -> (r: Self)
        ensures
            r.wf(),
            r.entries() == Map::<u32, ArpEntry>::empty(),
            r.pending() == Map::<u32, Seq<Vec<u8>>>::empty(),
    {
        let r = Self { entries: BTreeMap::new(), pending: BTreeMap::new() };
        assert(r.pending() =~= Map::<u32, Seq<Vec<u8>>>::empty());
        r
    }

    /// Records that `ip` resolves to `mac` (a dynamic entry with timestamp 0)
    /// and releases the packets waiting for `ip`.
    pub fn insert(&mut self, ip: Ipv4Address, mac: MacAddress)
        requires
            old(self).wf(),
        ensures
            final(self).wf(),
            final(self).entries() == old(self).entries().insert(
                ip_u32(ip@),
                ArpEntry { mac_address: mac, timestamp: 0, permanent: false },
            ),
            final(self).pending() == old(self).pending().remove(ip_u32(ip@)),
    {
        let key = ip.to_u32();
        let entry = ArpEntry { mac_address: mac, timestamp: 0, permanent: false };
        self.entries.insert(key, entry);
        let _released = self.pending.remove(&key);
        assert(self.pending() =~= old(self).pending().remove(ip_u32(ip@)));
    }

    /// The hardware address recorded for `ip`, if any.
    pub fn lookup(&self, ip: &Ipv4Address) -> (r: Option<MacAddress>)
        ensures
            r is Some <==> self.entries().contains_key(ip_u32(ip@)),
            r matches Some(m) ==> m == self.entries()[ip_u32(ip@)].mac_address,
    {
        let key = ip.to_u32();
        match self.entries.get(&key) {
            Some(e) => Some(e.mac_address),
            None => None,
        }
    }

    /// Queues `packet` until `ip` resolves.
    pub fn add_pending(&mut self, ip: Ipv4Address, packet: Vec<u8>)
        requires
            old(self).wf(),
        ensures
            final(self).wf(),
            final(self).entries() == old(self).entries(),
            final(self).pending() == old(self).pending().insert(
                ip_u32(ip@),
                (if old(self).pending().contains_key(ip_u32(ip@)) { old(self).pending()[ip_u32(ip@)] } else { Seq::empty() }).push(packet),
            ),
    {
        let key = ip.to_u32();
        let mut queue = match self.pending.remove(&key) {
            Some(q) => q,
            None => Vec::new(),
        };
        queue.push(packet);
        self.pending.insert(key, queue);
        assert(self.pending() =~= old(self).pending().insert(
            ip_u32(ip@),
            (if old(self).pending().contains_key(ip_u32(ip@)) { old(self).pending()[ip_u32(ip@)] } else { Seq::empty() }).push(packet),
        ));
    }

    /// Drops every dynamic entry and every waiting packet.
    pub fn clear(&mut self)
        requires
            old(self).wf(),
        ensures
            final(self).wf(),
            final(self).entries() == old(self).entries().restrict(
                old(self).entries().dom().filter(|k: u32| old(self).entries()[k].permanent),
            ),
            final(self).pending() == Map::<u32, Seq<Vec<u8>>>::empty(),
    {
        self.entries.clear();
        self.pending.clear();
        assert(self.pending() =~= Map::<u32, Seq<Vec<u8>>>::empty());
        assert(self.entries() =~= old(self).entries().restrict(
            old(self).entries().dom().filter(|k: u32| old(self).entries()[k].permanent),
        ));
    }
}

/// The gateway 192.168.1.1 at 00:00:00:00:00:01.
pub fn init(cache: &mut ArpCache)
    requires
        old(cache).wf(),
    ensures
        final(cache).wf(),
        final(cache).entries() == old(cache).entries().insert(
            ip_u32(ip4(192, 168, 1, 1)),
            ArpEntry { mac_address: final(cache).entries()[ip_u32(ip4(192, 168, 1, 1))].mac_address, timestamp: 0, permanent: false },
        ),
        final(cache).entries()[ip_u32(ip4(192, 168, 1, 1))].mac_address@ == seq![0u8, 0, 0, 0, 0, 1],
{
    let mac = MacAddress::new([0x00, 0x00, 0x00, 0x00, 0x00, 0x01]);
    cache.insert(Ipv4Address::new(192, 168, 1, 1), mac);
    assert(mac@ =~= seq![0u8, 0, 0, 0, 0, 1]);
}

/// This host's address, 192.168.1.100.
pub open spec fn our_ip() -> Seq<u8> {
    ip4(192, 168, 1, 100)
}

/// Whether `r` is what this host answers the ARP message `data` with: a
/// reply to its sender exactly when the message is acceptable, a request,
/// and asks for this host's address; else nothing.
pub open spec fn arp_answered(data: Seq<u8>, r: Option<EthernetFrame>) -> bool {
    &&& (r is Some <==> (arp_acceptable(data) && be16(data[6], data[7]) == ARP_OPERATION_REQUEST
        && data.subrange(24, 28) == our_ip()))
    &&& r matches Some(f) ==> arp_reply_frame(f, data.subrange(8, 14), data.subrange(14, 18))
}

/// Handles an incoming ARP packet: learns the sender's address and, for a
/// request aimed at this host, gives the reply frame to send. A packet that
/// does not parse changes nothing.
pub fn process_arp_packet(cache: &mut ArpCache, data: &[u8]) -> (r: Option<EthernetFrame>)
    requires
        old(cache).wf(),
    ensures
        final(cache).wf(),
        arp_answered(data@, r),
        !arp_acceptable(data@) ==> r is None && final(cache).entries() == old(cache).entries()
            && final(cache).pending() == old(cache).pending(),
        arp_acceptable(data@) ==> {
            let sender_ip = data@.subrange(14, 18);
            &&& final(cache).entries() == old(cache).entries().insert(
                ip_u32(sender_ip),
                final(cache).entries()[ip_u32(sender_ip)],
            )
            &&& final(cache).entries()[ip_u32(sender_ip)].mac_address@ == data@.subrange(8, 14)
            &&& !final(cache).entries()[ip_u32(sender_ip)].permanent
            &&& final(cache).pending() == old(cache).pending().remove(ip_u32(sender_ip))
            &&& (r is Some <==> (be16(data@[6], data@[7]) == ARP_OPERATION_REQUEST && data@.subrange(24, 28) == our_ip()))
            &&& r matches Some(f) ==> arp_reply_frame(f, data@.subrange(8, 14), sender_ip)
        },
{
    let packet = match ArpPacket::from_bytes(data) {
        Some(p) => p,
        None => { return None; },
    };
    cache.insert(packet.sender_ip, packet.sender_mac);
    let op = packet.operation();
    proof {
        lemma_swap16_involutive(be16(data@[6], data@[7]));
    }
    if op == ARP_OPERATION_REQUEST {
        let our = Ipv4Address::new(192, 168, 1, 100);
        if packet.target_ip == our {
            return Some(send_arp_reply(packet.sender_mac, packet.sender_ip));
        }
    }
    None
}

pub proof fn lemma_swap16_involutive(x: u16)
    ensures
        swap16(swap16(x)) == x,
{
    assert(((((x % 256) * 256 + x / 256) as u16 % 256) * 256 + ((x % 256) * 256 + x / 256) as u16 / 256) as u16 == x) by (nonlinear_arith);
}

/// Whether `f` is the reply frame this host sends to `target_mac`/`target_ip`.
pub open spec fn arp_reply_frame(f: EthernetFrame, target_mac: Seq<u8>, target_ip: Seq<u8>) -> bool {
    &&& f.header.dest_mac@ == target_mac
    &&& f.header.src_mac@ == our_mac()
    &&& f.header.ethertype == swap16(ETHERTYPE_ARP)
    &&& exists|p: ArpPacket| {
        &&& f.payload@ == arp_image(p)
        &&& p.operation == swap16(ARP_OPERATION_REPLY)
        &&& p.sender_mac@ == our_mac()
        &&& p.sender_ip@ == our_ip()
        &&& p.target_mac@ == target_mac
        &&& p.target_ip@ == target_ip
        &&& p.hardware_type == swap16(ARP_HARDWARE_ETHERNET)
        &&& p.protocol_type == swap16(ARP_PROTOCOL_IPV4)
        &&& p.hardware_len == 6
        &&& p.protocol_len == 4
    }
}

/// Whether `f` is the broadcast request this host sends for `target_ip`.
pub open spec fn arp_request_frame(f: EthernetFrame, target_ip: Seq<u8>) -> bool {
    &&& f.header.dest_mac@ == mac_broadcast()
    &&& f.header.src_mac@ == our_mac()
    &&& f.header.ethertype == swap16(ETHERTYPE_ARP)
    &&& exists|p: ArpPacket| {
        &&& f.payload@ == arp_image(p)
        &&& p.operation == swap16(ARP_OPERATION_REQUEST)
        &&& p.sender_mac@ == our_mac()
        &&& p.sender_ip@ == our_ip()
        &&& p.target_mac@ == mac_zero()
        &&& p.target_ip@ == target_ip
        &&& p.hardware_type == swap16(ARP_HARDWARE_ETHERNET)
        &&& p.protocol_type == swap16(ARP_PROTOCOL_IPV4)
        &&& p.hardware_len == 6
        &&& p.protocol_len == 4
    }
}

/// The broadcast frame asking who has `target_ip`.
pub fn send_arp_request(target_ip: Ipv4Address) -> (r: EthernetFrame)
    ensures
        arp_request_frame(r, target_ip@),
{
    let our_mac = get_our_mac();
    let our_ip = match get_our_ip() {
        Some(a) => a,
        None => Ipv4Address::new(0, 0, 0, 0),
    };
    let arp_packet = ArpPacket::new_request(our_mac, our_ip, target_ip);
    EthernetFrame::new(MacAddress::broadcast(), our_mac, ETHERTYPE_ARP, arp_packet.to_bytes())
}

/// The frame answering `target` with this host's address.
pub fn send_arp_reply(target_mac: MacAddress, target_ip: Ipv4Address) -> (r: EthernetFrame)
    ensures
        arp_reply_frame(r, target_mac@, target_ip@),
{
    let our_mac = get_our_mac();
    let our_ip = match get_our_ip() {
        Some(a) => a,
        None => Ipv4Address::new(0, 0, 0, 0),
    };
    let arp_packet = ArpPacket::new_reply(our_mac, our_ip, target_mac, target_ip);
    EthernetFrame::new(target_mac, our_mac, ETHERTYPE_ARP, arp_packet.to_bytes())
}

/// The cached hardware address of `ip`. When there is none the caller sends
/// the request that `send_arp_request` builds.
pub fn resolve(cache: &ArpCache, ip: Ipv4Address) -> (r: Option<MacAddress>)
    ensures
        r is Some <==> cache.entries().contains_key(ip_u32(ip@)),
        r matches Some(m) ==> m == cache.entries()[ip_u32(ip@)].mac_address,
{
    cache.lookup(&ip)
}

fn get_our_mac() -> (r: MacAddress)
    ensures
        r@ == our_mac(),
{
    get_mac_address()
}

fn get_our_ip() -> (r: Option<Ipv4Address>)
    ensures
        r matches Some(a) && a@ == our_ip(),
{
    Some(Ipv4Address::new(192, 168, 1, 100))
}

} // verus!
