//! Ethernet framing.

use vstd::prelude::*;
use crate::net::{be16, be_bytes16, read_be16, push_be16, extend_bytes, to_be16, swap16};

verus! {

pub const ETH_HEADER_SIZE: usize = 14;
pub const ETH_MIN_FRAME_SIZE: usize = 64;
pub const ETH_MAX_FRAME_SIZE: usize = 1518;
pub const ETH_MTU: usize = 1500;

pub const ETHERTYPE_IPV4: u16 = 0x0800;
pub const ETHERTYPE_ARP: u16 = 0x0806;
pub const ETHERTYPE_IPV6: u16 = 0x86DD;
pub const ETHERTYPE_VLAN: u16 = 0x8100;

/// A 48-bit hardware address.
#[derive(Debug, Clone, Copy)]
pub struct MacAddress([u8; 6]);

impl View for MacAddress {
    type V = Seq<u8>;

    closed spec fn view(&self) -> Seq<u8> {
        self.0@
    }
}

impl PartialEq for MacAddress {
    fn eq(&self, other: &Self) -> (r: bool) {
        let a = self.0;
        let b = other.0;
        let r = a[0] == b[0] && a[1] == b[1] && a[2] == b[2] && a[3] == b[3] && a[4] == b[4] && a[5] == b[5];
        proof {
            if r {
                assert(a@ =~= b@);
            }
        }
        r
    }
}

impl vstd::std_specs::cmp::PartialEqSpecImpl for MacAddress {
    open spec fn obeys_eq_spec() -> bool {
        true
    }

    open spec fn eq_spec(&self, other: &Self) -> bool {
        self@ == other@
    }
}

impl Eq for MacAddress {}

/// The all-zero address.
pub open spec fn mac_zero() -> Seq<u8> {
    seq![0u8, 0, 0, 0, 0, 0]
}

/// The broadcast address ff:ff:ff:ff:ff:ff.
pub open spec fn mac_broadcast() -> Seq<u8> {
    seq![0xffu8, 0xff, 0xff, 0xff, 0xff, 0xff]
}

impl MacAddress {
    pub proof fn lemma_len(&self)
        ensures
            self@.len() == 6,
    {
    }

    /// The all-zero address.
    pub fn zero() -> (r: Self)
        ensures
            r@ == mac_zero(),
    {
        let r = MacAddress([0u8; 6]);
        assert(r@ =~= mac_zero());
        r
    }

    /// The broadcast address.
    pub fn broadcast() -> (r: Self)
        ensures
            r@ == mac_broadcast(),
    {
        let r = MacAddress([0xFFu8; 6]);
        assert(r@ =~= mac_broadcast());
        r
    }

    /// The address with the given bytes.
    pub fn new(bytes: [u8; 6]) -> (r: Self)
        ensures
            r@ == bytes@,
    {
        MacAddress(bytes)
    }

    /// The address made of `bytes`, which must be exactly six long.
    pub fn from_bytes(bytes: &[u8]) -> (r: Option<Self>)
        ensures
            r is Some <==> bytes@.len() == 6,
            r matches Some(m) ==> m@ == bytes@,
    {
        if bytes.len() != 6 {
            return None;
        }
        let a = [bytes[0], bytes[1], bytes[2], bytes[3], bytes[4], bytes[5]];
        assert(a@ =~= bytes@);
        Some(MacAddress(a))
    }

    /// The six bytes of the address.
    pub fn as_bytes(&self) -> (r: &[u8; 6])
        ensures
            r@ == self@,
    {
        &self.0
    }

    /// Whether this is ff:ff:ff:ff:ff:ff.
    pub fn is_broadcast(&self) -> (r: bool)
        ensures
            r == (self@ == mac_broadcast()),
    {
        *self == Self::broadcast()
    }

    /// Whether the group bit (lowest bit of the first byte) is set.
    pub fn is_multicast(&self) -> (r: bool)
        ensures
            r == (self@[0] & 1 != 0),
    {
        self.0[0] & 0x01 != 0
    }

    /// Whether the group bit is clear.
    pub fn is_unicast(&self) -> (r: bool)
        ensures
            r == (self@[0] & 1 == 0),
    {
        !self.is_multicast()
    }

    /// Whether the locally administered bit is set.
    pub fn is_local(&self) -> (r: bool)
        ensures
            r == (self@[0] & 2 != 0),
    {
        self.0[0] & 0x02 != 0
    }
}

/// An Ethernet header as held in memory: the EtherType field holds the
/// value in network byte order.
#[derive(Debug, Clone, Copy)]
pub struct EthernetHeader {
    pub dest_mac: MacAddress,
    pub src_mac: MacAddress,
    pub ethertype: u16,
}

impl EthernetHeader {
    /// A header whose EtherType field holds `ethertype` in network order.
    pub fn new(dest_mac: MacAddress, src_mac: MacAddress, ethertype: u16) -> (r: Self)
        ensures
            r.dest_mac == dest_mac,
            r.src_mac == src_mac,
            r.ethertype == swap16(ethertype),
    {
        Self { dest_mac, src_mac, ethertype: to_be16(ethertype) }
    }

    /// The EtherType, converted from network order.
    pub fn ethertype(&self) -> (r: u16)
        ensures
            r == swap16(self.ethertype),
    {
        to_be16(self.ethertype)
    }
}

/// A frame: header and payload.
pub struct EthernetFrame {
    pub header: EthernetHeader,
    pub payload: Vec<u8>,
}

/// `s` padded with zero bytes up to `n` bytes.
pub open spec fn pad_to(s: Seq<u8>, n: nat) -> Seq<u8> {
    if s.len() >= n {
        s
    } else {
        s + Seq::new((n - s.len()) as nat, |i: int| 0u8)
    }
}

/// The bytes `to_bytes` writes for a frame.
pub open spec fn frame_image(h: EthernetHeader, payload: Seq<u8>) -> Seq<u8> {
    pad_to(h.dest_mac@ + h.src_mac@ + be_bytes16(h.ethertype) + payload, ETH_MIN_FRAME_SIZE as nat)
}

impl EthernetFrame {
    /// A frame with a header built by `EthernetHeader::new`.
    pub fn new(dest_mac: MacAddress, src_mac: MacAddress, ethertype: u16, payload: Vec<u8>) -> (r: Self)
        ensures
            r.header.dest_mac == dest_mac,
            r.header.src_mac == src_mac,
            r.header.ethertype == swap16(ethertype),
            r.payload@ == payload@,
    {
        Self { header: EthernetHeader::new(dest_mac, src_mac, ethertype), payload }
    }

    /// Parses a frame. The EtherType field receives the big-endian value of
    /// bytes 12 and 13 as it stands; the payload is everything after byte 14.
    pub fn from_bytes(data: &[u8]) -> (r: Result<Self, &'static str>)
        ensures
            r is Err <==> data@.len() < ETH_HEADER_SIZE,
            r matches Err(e) ==> e@ == "Frame too small"@,
            r matches Ok(f) ==> {
                &&& f.header.dest_mac@ == data@.subrange(0, 6)
                &&& f.header.src_mac@ == data@.subrange(6, 12)
                &&& f.header.ethertype == be16(data@[12], data@[13])
                &&& f.payload@ == data@.subrange(14, data@.len() as int)
            },
    {
        if data.len() < ETH_HEADER_SIZE {
            return Err("Frame too small");
        }
        let dest_mac = match MacAddress::from_bytes(&data[0..6]) {
            Some(m) => m,
            None => { return Err("Invalid destination MAC"); },
        };
        let src_mac = match MacAddress::from_bytes(&data[6..12]) {
            Some(m) => m,
            None => { return Err("Invalid source MAC"); },
        };
        let ethertype = read_be16(data[12], data[13]);
        let header = EthernetHeader { dest_mac, src_mac, ethertype };
        let payload = vstd::slice::slice_to_vec(&data[ETH_HEADER_SIZE..data.len()]);
        Ok(Self { header, payload })
    }

    /// The wire bytes: destination, source, the EtherType field in
    /// big-endian order, the payload, then zeros up to the minimum frame size.
    pub fn to_bytes(&self) -> (r: Vec<u8>)
        ensures
            r@ == frame_image(self.header, self.payload@),
    {
        let mut frame: Vec<u8> = Vec::new();
        extend_bytes(&mut frame, self.header.dest_mac.as_bytes());
        extend_bytes(&mut frame, self.header.src_mac.as_bytes());
        push_be16(&mut frame, self.header.ethertype);
        extend_bytes(&mut frame, self.payload.as_slice());
        let ghost unpadded = frame@;
        assert(unpadded == self.header.dest_mac@ + self.header.src_mac@ + be_bytes16(self.header.ethertype) + self.payload@);
        while frame.len() < ETH_MIN_FRAME_SIZE
            invariant
                unpadded.len() <= frame@.len(),
                frame@.len() <= ETH_MIN_FRAME_SIZE || frame@.len() == unpadded.len(),
                frame@.subrange(0, unpadded.len() as int) == unpadded,
                forall|i: int| unpadded.len() <= i < frame@.len() ==> frame@[i] == 0u8,
            decreases ETH_MIN_FRAME_SIZE - frame@.len(),
        {
            frame.push(0);
        }
        assert(frame@ =~= pad_to(unpadded, ETH_MIN_FRAME_SIZE as nat));
        frame
    }

    /// Header size plus payload size.
    pub fn len(&self) -> (r: usize)
        requires
            self.payload@.len() + ETH_HEADER_SIZE <= usize::MAX,
        ensures
            r == ETH_HEADER_SIZE + self.payload@.len(),
    {
        ETH_HEADER_SIZE + self.payload.len()
    }
}

/// What a network device driver offers the stack.
pub trait EthernetController {
    fn get_mac_address(&self) -> MacAddress;

    fn send_frame(&mut self, frame: &EthernetFrame) -> Result<(), &'static str>;

    fn receive_frame(&mut self) -> Option<EthernetFrame>;

    fn set_promiscuous(&mut self, enabled: bool);

    fn get_link_status(&self) -> bool;
}

/// The address of this host's interface, 52:54:00:12:34:56.
pub open spec fn our_mac() -> Seq<u8> {
    seq![0x52u8, 0x54, 0x00, 0x12, 0x34, 0x56]
}

/// The address of this host's interface.
pub fn get_mac_address() -> (r: MacAddress)
    ensures
        r@ == our_mac(),
{
    let r = MacAddress::new([0x52, 0x54, 0x00, 0x12, 0x34, 0x56]);
    assert(r@ =~= our_mac());
    r
}

/// Handles an incoming frame: ARP frames go to the ARP handler, IPv4 frames
/// to the IP handler, others are ignored; the frame is counted as received.
/// The result is the frame to send back, if any.
pub fn process_frame(st: &mut crate::net::NetworkState, frame: EthernetFrame) -> (r: Option<EthernetFrame>)
    requires
        crate::net::ip::state_room(old(st)),
        old(st).stats.packets_received < u64::MAX,
        old(st).stats.bytes_received + ETH_HEADER_SIZE + frame.payload@.len() <= u64::MAX,
        frame.payload@.len() + ETH_HEADER_SIZE <= usize::MAX,
        swap16(frame.header.ethertype) == ETHERTYPE_IPV4 ==> crate::net::ip::ip_payload_sane(frame.payload@),
    ensures
        final(st).stats.packets_received == old(st).stats.packets_received + 1,
        final(st).stats.bytes_received == old(st).stats.bytes_received + ETH_HEADER_SIZE + frame.payload@.len(),
        swap16(frame.header.ethertype) != ETHERTYPE_ARP ==> final(st).arp == old(st).arp,
        swap16(frame.header.ethertype) != ETHERTYPE_IPV4 ==> final(st).udp@ == old(st).udp@
            && final(st).tcp.connections@ == old(st).tcp.connections@,
        swap16(frame.header.ethertype) != ETHERTYPE_IPV4 && swap16(frame.header.ethertype) != ETHERTYPE_ARP ==> r is None,
        swap16(frame.header.ethertype) == ETHERTYPE_ARP ==> crate::net::arp::arp_answered(frame.payload@, r),
        swap16(frame.header.ethertype) == ETHERTYPE_IPV4 && crate::net::ip::icmp_for_us(frame.payload@)
            ==> crate::net::icmp::echo_answered(old(st).arp.entries(), frame.payload@.subrange(12, 16),
            crate::net::ip::ip_payload_of(frame.payload@), r),
        final(st).arp.wf(),
{
    let et = frame.header.ethertype();
    let r = if et == ETHERTYPE_ARP {
        crate::net::arp::process_arp_packet(&mut st.arp, frame.payload.as_slice())
    } else if et == ETHERTYPE_IPV4 {
        crate::net::ip::process_ip_packet(st, frame.payload.as_slice())
    } else {
        None
    };
    let len = frame.len();
    crate::net::update_stats_received(&mut st.stats, len);
    r
}

} // verus!
