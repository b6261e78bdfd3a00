//! TCP segments, the per-connection state machine, and the socket tables.

use vstd::prelude::*;
use std::collections::{BTreeMap, VecDeque};
use crate::net::{swap16, swap32, be_bytes16, be_bytes32, to_be16, to_be32, push_be16, push_be32, extend_bytes,
    add_words, fold_carries, complement16, fold16, ones_sum, word_at, ones_complement, read_le16, read_le32, le32};
use crate::net::ip::{IpPacket, Ipv4Address, IP_PROTO_TCP, le16, ip4, ip_u32};
use crate::net::be16;

verus! {

broadcast use vstd::std_specs::btree::group_btree_axioms;

pub const TCP_FIN: u8 = 0x01;
pub const TCP_SYN: u8 = 0x02;
pub const TCP_RST: u8 = 0x04;
pub const TCP_PSH: u8 = 0x08;
pub const TCP_ACK: u8 = 0x10;
pub const TCP_URG: u8 = 0x20;

/// The states of a connection.
#[derive(Debug, Clone, Copy, PartialEq, Eq, Structural)]
pub enum TcpState {
    Closed,
    Listen,
    SynSent,
    SynReceived,
    Established,
    FinWait1,
    FinWait2,
    CloseWait,
    Closing,
    LastAck,
    TimeWait,
}

/// A TCP header as held in memory: every multi-byte field in network order.
#[derive(Debug, Clone, Copy)]
pub struct TcpHeader {
    pub src_port: u16,
    pub dst_port: u16,
    pub seq_num: u32,
    pub ack_num: u32,
    pub data_offset_flags: u16,
    pub window: u16,
    pub checksum: u16,
    pub urgent_ptr: u16,
}

/// The header `TcpHeader::new` builds.
pub open spec fn header_spec(src_port: u16, dst_port: u16, seq: u32, ack: u32, flags: u8, window: u16) -> TcpHeader {
    TcpHeader {
        src_port: swap16(src_port),
        dst_port: swap16(dst_port),
        seq_num: swap32(seq),
        ack_num: swap32(ack),
        data_offset_flags: swap16((5 * 4096 + flags) as u16),
        window: swap16(window),
        checksum: 0,
        urgent_ptr: 0,
    }
}

impl TcpHeader {
    /// A header with data offset 5 (no options), `flags` in the low bits,
    /// checksum and urgent pointer zero.
    pub fn new(src_port: u16, dst_port: u16, seq: u32, ack: u32, flags: u8, window: u16) -> (r: Self)
        ensures
            r == header_spec(src_port, dst_port, seq, ack, flags, window),
    {
        let data_offset = 5u16;
        let f = flags as u16;
        let data_offset_flags = (data_offset << 12u16) | f;
        assert((5u16 << 12u16) | f == 5 * 4096 + f) by (bit_vector)
            requires f < 256;
        Self {
            src_port: to_be16(src_port),
            dst_port: to_be16(dst_port),
            seq_num: to_be32(seq),
            ack_num: to_be32(ack),
            data_offset_flags: to_be16(data_offset_flags),
            window: to_be16(window),
            checksum: 0,
            urgent_ptr: 0,
        }
    }

    pub fn src_port(&self) -> (r: u16)
        ensures
            r == swap16(self.src_port),
    {
        to_be16(self.src_port)
    }

    pub fn dst_port(&self) -> (r: u16)
        ensures
            r == swap16(self.dst_port),
    {
        to_be16(self.dst_port)
    }

    pub fn seq_num(&self) -> (r: u32)
        ensures
            r == swap32(self.seq_num),
    {
        to_be32(self.seq_num)
    }

    pub fn ack_num(&self) -> (r: u32)
        ensures
            r == swap32(self.ack_num),
    {
        to_be32(self.ack_num)
    }

    /// The data offset: the top four bits of the offset/flags word.
    pub fn data_offset(&self) -> (r: u8)
        ensures
            r == swap16(self.data_offset_flags) / 4096,
    {
        let v = to_be16(self.data_offset_flags);
        assert((v >> 12u16) & 0x0F == v / 4096) by (bit_vector);
        ((v >> 12u16) & 0x0F) as u8
    }

    /// The six flag bits.
    pub fn flags(&self) -> (r: u8)
        ensures
            r == swap16(self.data_offset_flags) % 64,
    {
        let v = to_be16(self.data_offset_flags);
        assert(v & 0x3F == v % 64) by (bit_vector);
        (v & 0x3F) as u8
    }

    pub fn window(&self) -> (r: u16)
        ensures
            r == swap16(self.window),
    {
        to_be16(self.window)
    }

    /// Whether any bit of `flag` is set among the flags.
    pub fn has_flag(&self, flag: u8) -> (r: bool)
        ensures
            r == ((swap16(self.data_offset_flags) % 64) as u8 & flag != 0),
    {
        self.flags() & flag != 0
    }
}

/// A segment: header, options and data.
pub struct TcpSegment {
    pub header: TcpHeader,
    pub options: Vec<u8>,
    pub data: Vec<u8>,
}

/// The bytes `to_bytes` writes.
pub open spec fn segment_image(h: TcpHeader, options: Seq<u8>, data: Seq<u8>) -> Seq<u8> {
    be_bytes16(h.src_port) + be_bytes16(h.dst_port) + be_bytes32(h.seq_num) + be_bytes32(h.ack_num)
        + be_bytes16(h.data_offset_flags) + be_bytes16(h.window) + be_bytes16(h.checksum) + be_bytes16(h.urgent_ptr)
        + options + data
}

/// The error `from_bytes` gives on `data`, if any.
pub open spec fn segment_parse_error(data: Seq<u8>) -> Option<Seq<char>> {
    if data.len() < 20 {
        Some("TCP segment too small"@)
    } else if data[12] / 16 < 5 {
        Some("Invalid TCP data offset"@)
    } else if data.len() < (data[12] / 16) * 4 {
        Some("TCP segment truncated"@)
    } else {
        None
    }
}

/// The sum `calculate_checksum` folds: pseudo header, total length and the
/// segment words less the checksum word.
pub open spec fn tcp_sum(seg: Seq<u8>, src: Seq<u8>, dst: Seq<u8>, total_len: usize) -> int {
    (src[0] + src[1] + src[2] + src[3]) * 256 + (dst[0] + dst[1] + dst[2] + dst[3]) * 256 + IP_PROTO_TCP
        + (total_len as u32) + ones_sum(seg) - word_at(seg, 8)
}

impl TcpSegment {
    /// A segment without options.
    pub fn new(header: TcpHeader, data: Vec<u8>) -> (r: Self)
        ensures
            r.header == header,
            r.options@.len() == 0,
            r.data@ == data@,
    {
        Self { header, options: Vec::new(), data }
    }

    /// Parses a segment: the header is the first 20 bytes as they lie in
    /// memory, the options run up to the data offset, the rest is data.
    pub fn from_bytes(data: &[u8]) -> (r: Result<Self, &'static str>)
        ensures
            r is Err <==> segment_parse_error(data@) is Some,
            r matches Err(e) ==> segment_parse_error(data@) == Some(e@),
            r matches Ok(s) ==> {
                let hlen = (data@[12] / 16) * 4;
                &&& s.header.src_port == le16(data@[0], data@[1])
                &&& s.header.dst_port == le16(data@[2], data@[3])
                &&& s.header.seq_num == le32(data@[4], data@[5], data@[6], data@[7])
                &&& s.header.ack_num == le32(data@[8], data@[9], data@[10], data@[11])
                &&& s.header.data_offset_flags == le16(data@[12], data@[13])
                &&& s.header.window == le16(data@[14], data@[15])
                &&& s.header.checksum == le16(data@[16], data@[17])
                &&& s.header.urgent_ptr == le16(data@[18], data@[19])
                &&& s.options@ == data@.subrange(20, hlen as int)
                &&& s.data@ == data@.subrange(hlen as int, data@.len() as int)
            },
    {
        if data.len() < 20 {
            return Err("TCP segment too small");
        }
        let header = TcpHeader {
            src_port: read_le16(data[0], data[1]),
            dst_port: read_le16(data[2], data[3]),
            seq_num: read_le32(data[4], data[5], data[6], data[7]),
            ack_num: read_le32(data[8], data[9], data[10], data[11]),
            data_offset_flags: read_le16(data[12], data[13]),
            window: read_le16(data[14], data[15]),
            checksum: read_le16(data[16], data[17]),
            urgent_ptr: read_le16(data[18], data[19]),
        };
        proof {
            crate::net::ip::lemma_swap_le16(data@[12], data@[13]);
        }
        let data_offset = header.data_offset() as usize;
        if data_offset < 5 || data_offset > 15 {
            return Err("Invalid TCP data offset");
        }
        let header_len = data_offset * 4;
        if data.len() < header_len {
            return Err("TCP segment truncated");
        }
        let options = if header_len > 20 {
            vstd::slice::slice_to_vec(&data[20..header_len])
        } else {
            Vec::new()
        };
        let payload = vstd::slice::slice_to_vec(&data[header_len..data.len()]);
        proof {
            if header_len == 20 {
                assert(options@ =~= data@.subrange(20, 20));
            }
        }
        Ok(Self { header, options, data: payload })
    }

    /// The segment bytes.
    pub fn to_bytes(&self) -> (r: Vec<u8>)
        ensures
            r@ == segment_image(self.header, self.options@, self.data@),
            r@.len() == 20 + self.options@.len() + self.data@.len(),
    {
        let mut segment: Vec<u8> = Vec::new();
        push_be16(&mut segment, self.header.src_port);
        push_be16(&mut segment, self.header.dst_port);
        push_be32(&mut segment, self.header.seq_num);
        push_be32(&mut segment, self.header.ack_num);
        push_be16(&mut segment, self.header.data_offset_flags);
        push_be16(&mut segment, self.header.window);
        push_be16(&mut segment, self.header.checksum);
        push_be16(&mut segment, self.header.urgent_ptr);
        extend_bytes(&mut segment, self.options.as_slice());
        extend_bytes(&mut segment, self.data.as_slice());
        assert(segment@ =~= segment_image(self.header, self.options@, self.data@));
        segment
    }

    /// The checksum over the pseudo header and the segment with its checksum
    /// word left out.
    pub fn calculate_checksum(&self, src_ip: Ipv4Address, dst_ip: Ipv4Address) -> (r: u16)
        requires
            ones_sum(segment_image(self.header, self.options@, self.data@)) + 0x10_0000 + 20 + self.options@.len()
                + self.data@.len() <= u32::MAX,
        ensures
            r == ones_complement(tcp_sum(segment_image(self.header, self.options@, self.data@), src_ip@, dst_ip@,
                (20 + self.options@.len() + self.data@.len()) as usize)),
    {
        let s = src_ip.as_bytes();
        let d = dst_ip.as_bytes();
        proof {
            src_ip.lemma_len();
            dst_ip.lemma_len();
        }
        let mut sum: u32 = 0;
        sum = sum + (s[0] as u32) * 256 + (s[1] as u32) * 256 + (s[2] as u32) * 256 + (s[3] as u32) * 256;
        sum = sum + (d[0] as u32) * 256 + (d[1] as u32) * 256 + (d[2] as u32) * 256 + (d[3] as u32) * 256;
        sum = sum + IP_PROTO_TCP as u32;
        let total_len = 20 + self.options.len() + self.data.len();
        let ghost pre = sum;
        sum = sum + total_len as u32;
        let bytes = self.to_bytes();
        let ghost img = bytes@;
        let mut i: usize = 0;
        while i < bytes.len() - 1
            invariant
                bytes@ == img,
                img.len() >= 20,
                i % 2 == 0,
                i <= img.len(),
                sum == pre + (total_len as u32) + crate::net::words_sum(img, (i / 2) as nat)
                    - (if i > 16 { word_at(img, 8) } else { 0 }),
                ones_sum(img) + 0x10_0000 + total_len <= u32::MAX,
                pre <= 2 * 4 * 255 * 256 + 6,
            decreases img.len() - i,
        {
            proof {
                crate::net::lemma_words_sum_mono(img, (i / 2 + 1) as nat, ((img.len() + 1) / 2) as nat);
                assert(crate::net::words_sum(img, (i / 2 + 1) as nat) == crate::net::words_sum(img, (i / 2) as nat) + word_at(img, (i / 2) as int));
                if i > 16 {
                    crate::net::lemma_words_sum_mono(img, 9, (i / 2) as nat);
                    assert(crate::net::words_sum(img, 9) == crate::net::words_sum(img, 8) + word_at(img, 8));
                }
            }
            if i == 16 {
                i = i + 2;
                continue;
            }
            let w = crate::net::word32(bytes[i], bytes[i + 1]);
            sum = sum + w;
            i = i + 2;
        }
        if i < bytes.len() {
            proof {
                crate::net::lemma_words_sum_mono(img, (i / 2 + 1) as nat, ((img.len() + 1) / 2) as nat);
                assert(crate::net::words_sum(img, (i / 2 + 1) as nat) == crate::net::words_sum(img, (i / 2) as nat) + word_at(img, (i / 2) as int));
            }
            sum = sum + (bytes[i] as u32) * 256;
        }
        let sum = fold_carries(sum);
        complement16(sum)
    }
}

/// A chunk of outgoing data with the sequence number it starts at.
#[verifier::opaque]
pub open spec fn data_chunks(seq: u32, data: Seq<u8>, mss: nat) -> Seq<(u32, Seq<u8>)>
    decreases data.len(),
{
    if data.len() == 0 || mss == 0 {
        Seq::empty()
    } else {
        let n = if mss < data.len() { mss } else { data.len() };
        seq![(seq, data.take(n as int))] + data_chunks(((seq + n) % 0x1_0000_0000) as u32, data.skip(n as int), mss)
    }
}

/// The retransmit queue after an acknowledgement up to `una`: leading
/// entries whose sequence number is below `una` are dropped.
pub open spec fn trim_acked(q: Seq<(u32, Vec<u8>)>, una: u32) -> Seq<(u32, Vec<u8>)>
    decreases q.len(),
{
    if q.len() > 0 && q[0].0 < una {
        trim_acked(q.drop_first(), una)
    } else {
        q
    }
}

/// Adds `n` to a sequence number, wrapping at 2^32.
pub open spec fn seq_add(a: u32, n: int) -> u32 {
    ((a + n) % 0x1_0000_0000) as u32
}

/// Adds `n` to a sequence number, wrapping at 2^32.
fn seq_inc(a: u32, n: u32) -> (r: u32)
    ensures
        r == seq_add(a, n as int),
{
    if a as u64 + n as u64 >= 0x1_0000_0000u64 {
        (a as u64 + n as u64 - 0x1_0000_0000u64) as u32
    } else {
        a + n
    }
}

/// The connection state of one end.
pub struct TcpControlBlock {
    pub state: TcpState,
    pub local_addr: Ipv4Address,
    pub local_port: u16,
    pub remote_addr: Ipv4Address,
    pub remote_port: u16,
    pub snd_una: u32,
    pub snd_nxt: u32,
    pub snd_wnd: u16,
    pub rcv_nxt: u32,
    pub rcv_wnd: u16,
    pub iss: u32,
    pub irs: u32,
    pub send_buffer: VecDeque<u8>,
    pub recv_buffer: VecDeque<u8>,
    pub retransmit_queue: VecDeque<(u32, Vec<u8>)>,
    pub retransmit_timeout: u64,
    pub time_wait_timeout: u64,
    pub mss: u16,
}

/// Room in the initial-sequence-number counter for one more connection.
pub open spec fn isn_room(counter: u32) -> bool {
    counter + 64000 <= u32::MAX
}

/// All fields agree but the send sequence and the retransmit queue.
pub open spec fn same_but_send(a: TcpControlBlock, b: TcpControlBlock) -> bool {
    a == (TcpControlBlock { snd_nxt: a.snd_nxt, retransmit_queue: a.retransmit_queue, ..b })
}

/// The fields `process_segment` may change, all others stay.
pub open spec fn tcb_frame(a: TcpControlBlock, b: TcpControlBlock) -> bool {
    &&& a.local_addr == b.local_addr
    &&& a.local_port == b.local_port
    &&& a.snd_wnd == b.snd_wnd
    &&& a.rcv_wnd == b.rcv_wnd
    &&& a.iss == b.iss
    &&& a.send_buffer@ == b.send_buffer@
    &&& a.retransmit_timeout == b.retransmit_timeout
    &&& a.time_wait_timeout == b.time_wait_timeout
    &&& a.mss == b.mss
}

impl TcpControlBlock {
    /// A closed block on `local_addr`:`local_port` whose initial sequence
    /// number comes from the counter, advanced by 64000.
    pub fn new(local_addr: Ipv4Address, local_port: u16, isn_counter: &mut u32) -> (r: Self)
        requires
            isn_room(*old(isn_counter)),
        ensures
            *final(isn_counter) == *old(isn_counter) + 64000,
            r.state == TcpState::Closed,
            r.local_addr == local_addr,
            r.local_port == local_port,
            r.remote_addr@ == ip4(0, 0, 0, 0),
            r.remote_port == 0,
            r.iss == *final(isn_counter),
            r.snd_una == r.iss,
            r.snd_nxt == r.iss,
            r.snd_wnd == 8192,
            r.rcv_nxt == 0,
            r.rcv_wnd == 8192,
            r.irs == 0,
            r.send_buffer@.len() == 0,
            r.recv_buffer@.len() == 0,
            r.retransmit_queue@.len() == 0,
            r.retransmit_timeout == 1000,
            r.time_wait_timeout == 120000,
            r.mss == 1460,
    {
        let iss = Self::generate_isn(isn_counter);
        Self {
            state: TcpState::Closed,
            local_addr,
            local_port,
            remote_addr: Ipv4Address::new(0, 0, 0, 0),
            remote_port: 0,
            snd_una: iss,
            snd_nxt: iss,
            snd_wnd: 8192,
            rcv_nxt: 0,
            rcv_wnd: 8192,
            iss,
            irs: 0,
            send_buffer: VecDeque::new(),
            recv_buffer: VecDeque::new(),
            retransmit_queue: VecDeque::new(),
            retransmit_timeout: 1000,
            time_wait_timeout: 120000,
            mss: 1460,
        }
    }

    fn generate_isn(counter: &mut u32) -> (r: u32)
        requires
            isn_room(*old(counter)),
        ensures
            *final(counter) == *old(counter) + 64000,
            r == *final(counter),
    {
        *counter = *counter + 64000;
        *counter
    }

    /// The SYN opening a connection; the block moves to SynSent.
    pub fn send_syn(&mut self) -> (r: TcpSegment)
        ensures
            r.header == header_spec(old(self).local_port, old(self).remote_port, old(self).snd_nxt, 0, TCP_SYN, old(self).rcv_wnd),
            r.options@.len() == 0 && r.data@.len() == 0,
            final(self).state == TcpState::SynSent,
            final(self).snd_nxt == seq_add(old(self).snd_nxt, 1),
            *final(self) == (TcpControlBlock { state: TcpState::SynSent, snd_nxt: seq_add(old(self).snd_nxt, 1), ..*old(self) }),
    {
        self.state = TcpState::SynSent;
        let header = TcpHeader::new(self.local_port, self.remote_port, self.snd_nxt, 0, TCP_SYN, self.rcv_wnd);
        self.snd_nxt = seq_inc(self.snd_nxt, 1);
        TcpSegment::new(header, Vec::new())
    }

    /// The SYN-ACK answering a SYN; the block moves to SynReceived.
    pub fn send_syn_ack(&mut self) -> (r: TcpSegment)
        ensures
            r.header == header_spec(old(self).local_port, old(self).remote_port, old(self).snd_nxt, old(self).rcv_nxt,
                TCP_SYN | TCP_ACK, old(self).rcv_wnd),
            r.options@.len() == 0 && r.data@.len() == 0,
            *final(self) == (TcpControlBlock { state: TcpState::SynReceived, snd_nxt: seq_add(old(self).snd_nxt, 1), ..*old(self) }),
    {
        self.state = TcpState::SynReceived;
        let header = TcpHeader::new(self.local_port, self.remote_port, self.snd_nxt, self.rcv_nxt, TCP_SYN | TCP_ACK, self.rcv_wnd);
        self.snd_nxt = seq_inc(self.snd_nxt, 1);
        TcpSegment::new(header, Vec::new())
    }

    /// A bare ACK for everything received so far.
    pub fn send_ack(&mut self) -> (r: TcpSegment)
        ensures
            r.header == header_spec(old(self).local_port, old(self).remote_port, old(self).snd_nxt, old(self).rcv_nxt,
                TCP_ACK, old(self).rcv_wnd),
            r.options@.len() == 0 && r.data@.len() == 0,
            *final(self) == *old(self),
    {
        let header = TcpHeader::new(self.local_port, self.remote_port, self.snd_nxt, self.rcv_nxt, TCP_ACK, self.rcv_wnd);
        TcpSegment::new(header, Vec::new())
    }

    /// Cuts `data` into segments of at most `mss` bytes, each an ACK|PSH
    /// starting at the next send sequence number; each chunk also joins the
    /// retransmit queue and the send sequence advances past it.
    #[verifier::rlimit(100)]
    #[verifier::spinoff_prover]
    pub fn send_data(&mut self, data: &[u8]) -> (r: Vec<TcpSegment>)
        requires
            old(self).mss > 0,
        ensures
            ({
                let chunks = data_chunks(old(self).snd_nxt, data@, old(self).mss as nat);
                &&& r@.len() == chunks.len()
                &&& forall|i: int| 0 <= i < chunks.len() ==> {
                    &&& (#[trigger] r@[i]).header == header_spec(old(self).local_port, old(self).remote_port, chunks[i].0,
                        old(self).rcv_nxt, TCP_ACK | TCP_PSH, old(self).rcv_wnd)
                    &&& r@[i].data@ == chunks[i].1
                    &&& r@[i].options@.len() == 0
                }
                &&& final(self).retransmit_queue@.len() == old(self).retransmit_queue@.len() + chunks.len()
                &&& final(self).retransmit_queue@.subrange(0, old(self).retransmit_queue@.len() as int) == old(self).retransmit_queue@
                &&& forall|i: int| 0 <= i < chunks.len() ==>
                    (#[trigger] final(self).retransmit_queue@[old(self).retransmit_queue@.len() + i]).0 == chunks[i].0
                    && final(self).retransmit_queue@[old(self).retransmit_queue@.len() + i].1@ == chunks[i].1
                &&& final(self).snd_nxt == seq_add(old(self).snd_nxt, data@.len() as int)
                &&& *final(self) == (TcpControlBlock {
                    snd_nxt: final(self).snd_nxt,
                    retransmit_queue: final(self).retransmit_queue,
                    ..*old(self)
                })
            }),
    {
        let mut segments: Vec<TcpSegment> = Vec::new();
        let mut offset: usize = 0;
        let ghost q0 = self.retransmit_queue@;
        let ghost all = data_chunks(old(self).snd_nxt, data@, old(self).mss as nat);
        proof {
            assert(data@.skip(0) =~= data@);
        }
        while offset < data.len()
            invariant
                offset <= data@.len(),
                self.mss == old(self).mss,
                self.mss > 0,
                all == data_chunks(old(self).snd_nxt, data@, old(self).mss as nat),
                segments@.len() <= all.len(),
                all.skip(segments@.len() as int) == data_chunks(self.snd_nxt, data@.skip(offset as int), self.mss as nat),
                self.snd_nxt == seq_add(old(self).snd_nxt, offset as int),
                q0 == old(self).retransmit_queue@,
                self.retransmit_queue@.len() == q0.len() + segments@.len(),
                self.retransmit_queue@.subrange(0, q0.len() as int) == q0,
                forall|i: int| 0 <= i < segments@.len() ==> {
                    &&& (#[trigger] segments@[i]).header == header_spec(old(self).local_port, old(self).remote_port, all[i].0,
                        old(self).rcv_nxt, TCP_ACK | TCP_PSH, old(self).rcv_wnd)
                    &&& segments@[i].options@.len() == 0
                    &&& segments@[i].data@ == all[i].1
                },
                forall|i: int| 0 <= i < segments@.len() ==>
                    (#[trigger] self.retransmit_queue@[q0.len() + i]).0 == all[i].0
                    && self.retransmit_queue@[q0.len() + i].1@ == all[i].1,
                same_but_send(*self, *old(self)),
            decreases data@.len() - offset,
        {
            let remaining = data.len() - offset;
            let chunk_size = if (self.mss as usize) < remaining { self.mss as usize } else { remaining };
            let chunk = vstd::slice::slice_to_vec(&data[offset..offset + chunk_size]);
            let header = TcpHeader::new(self.local_port, self.remote_port, self.snd_nxt, self.rcv_nxt, TCP_ACK | TCP_PSH, self.rcv_wnd);
            let ghost rest = data@.skip(offset as int);
            let ghost k = segments@.len() as int;
            proof {
                assert(chunk@ =~= rest.take(chunk_size as int));
                assert(rest.skip(chunk_size as int) =~= data@.skip(offset + chunk_size));
                lemma_chunks_cons(self.snd_nxt, rest, self.mss as nat);
                assert(all.skip(k).len() > 0);
                assert(k < all.len());
                assert(all.skip(k)[0] == all[k]);
                assert(all.skip(k + 1) =~= all.skip(k).drop_first());
                vstd::arithmetic::div_mod::lemma_add_mod_noop(old(self).snd_nxt + offset, chunk_size as int, 0x1_0000_0000);
                vstd::arithmetic::div_mod::lemma_mod_twice(old(self).snd_nxt + offset + chunk_size, 0x1_0000_0000);
            }
            let seq_now = self.snd_nxt;
            let ghost segs0 = segments@;
            let ghost rq0 = self.retransmit_queue@;
            let copy = chunk.clone();
            assert(copy@ == chunk@);
            self.retransmit_queue.push_back((seq_now, copy));
            self.snd_nxt = seq_inc(self.snd_nxt, chunk_size as u32);
            let seg = TcpSegment::new(header, chunk);
            segments.push(seg);
            proof {
                assert(self.retransmit_queue@ == rq0.push((seq_now, copy)));
                assert(segments@ == segs0.push(seg));
                assert(all[k] == (seq_now, rest.take(chunk_size as int)));
                assert(self.retransmit_queue@.subrange(0, q0.len() as int) =~= q0);
                assert forall|i: int| 0 <= i < segments@.len() implies {
                    &&& (#[trigger] segments@[i]).header == header_spec(old(self).local_port, old(self).remote_port, all[i].0,
                        old(self).rcv_nxt, TCP_ACK | TCP_PSH, old(self).rcv_wnd)
                    &&& segments@[i].options@.len() == 0
                    &&& segments@[i].data@ == all[i].1
                } by {
                    if i < k {
                        assert(segments@[i] == segs0[i]);
                    }
                }
                assert forall|i: int| 0 <= i < segments@.len() implies
                    (#[trigger] self.retransmit_queue@[q0.len() + i]).0 == all[i].0
                    && self.retransmit_queue@[q0.len() + i].1@ == all[i].1 by {
                    if i < k {
                        assert(self.retransmit_queue@[q0.len() + i] == rq0[q0.len() + i]);
                    }
                }
            }
            offset = offset + chunk_size;
        }
        proof {
            assert(data@.skip(data@.len() as int).len() == 0);
            lemma_chunks_empty(self.snd_nxt, data@.skip(offset as int), self.mss as nat);
        }
        segments
    }

    /// The FIN closing our side; Established moves to FinWait1 and
    /// CloseWait to LastAck, other states stay.
    pub fn send_fin(&mut self) -> (r: TcpSegment)
        ensures
            r.header == header_spec(old(self).local_port, old(self).remote_port, old(self).snd_nxt, old(self).rcv_nxt,
                TCP_FIN | TCP_ACK, old(self).rcv_wnd),
            r.options@.len() == 0 && r.data@.len() == 0,
            *final(self) == (TcpControlBlock {
                snd_nxt: seq_add(old(self).snd_nxt, 1),
                state: match old(self).state {
                    TcpState::Established => TcpState::FinWait1,
                    TcpState::CloseWait => TcpState::LastAck,
                    s => s,
                },
                ..*old(self)
            }),
    {
        let header = TcpHeader::new(self.local_port, self.remote_port, self.snd_nxt, self.rcv_nxt, TCP_FIN | TCP_ACK, self.rcv_wnd);
        self.snd_nxt = seq_inc(self.snd_nxt, 1);
        match self.state {
            TcpState::Established => self.state = TcpState::FinWait1,
            TcpState::CloseWait => self.state = TcpState::LastAck,
            _ => {},
        }
        TcpSegment::new(header, Vec::new())
    }

    /// A reset; the block becomes Closed.
    pub fn send_rst(&mut self) -> (r: TcpSegment)
        ensures
            r.header == header_spec(old(self).local_port, old(self).remote_port, old(self).snd_nxt, 0, TCP_RST, 0),
            r.options@.len() == 0 && r.data@.len() == 0,
            *final(self) == (TcpControlBlock { state: TcpState::Closed, ..*old(self) }),
    {
        let header = TcpHeader::new(self.local_port, self.remote_port, self.snd_nxt, 0, TCP_RST, 0);
        self.state = TcpState::Closed;
        TcpSegment::new(header, Vec::new())
    }
}

proof fn lemma_chunks_cons(seq: u32, data: Seq<u8>, mss: nat)
    requires
        data.len() > 0,
        mss > 0,
    ensures
        data_chunks(seq, data, mss) == seq![(seq, data.take((if mss < data.len() { mss } else { data.len() }) as int))]
            + data_chunks(seq_add(seq, (if mss < data.len() { mss } else { data.len() }) as int),
                data.skip((if mss < data.len() { mss } else { data.len() }) as int), mss),
{
    reveal(data_chunks);
}

proof fn lemma_chunks_empty(seq: u32, data: Seq<u8>, mss: nat)
    requires
        data.len() == 0,
    ensures
        data_chunks(seq, data, mss).len() == 0,
{
    reveal(data_chunks);
}

/// The parts of a control block that incoming segments change.
pub struct TcbView {
    pub state: TcpState,
    pub remote_addr: Seq<u8>,
    pub remote_port: u16,
    pub snd_una: u32,
    pub snd_nxt: u32,
    pub rcv_nxt: u32,
    pub irs: u32,
    pub recv: Seq<u8>,
    pub rtx: Seq<(u32, Vec<u8>)>,
}

/// The reply a segment calls for: nothing, or a segment with these flags,
/// sequence number, acknowledgement number and window.
pub enum TcpReply {
    NoReply,
    Send(u8, u32, u32, u16),
}

impl TcpControlBlock {
    /// The changing parts of the block.
    pub open spec fn tcb_view(&self) -> TcbView {
        TcbView {
            state: self.state,
            remote_addr: self.remote_addr@,
            remote_port: self.remote_port,
            snd_una: self.snd_una,
            snd_nxt: self.snd_nxt,
            rcv_nxt: self.rcv_nxt,
            irs: self.irs,
            recv: self.recv_buffer@,
            rtx: self.retransmit_queue@,
        }
    }
}

/// Whether `flags` has any bit of `f`.
pub open spec fn flag_set(flags: u8, f: u8) -> bool {
    flags & f != 0
}

/// An ACK from `t` for everything it has received.
pub open spec fn ack_reply(t: TcbView, wnd: u16) -> TcpReply {
    TcpReply::Send(TCP_ACK, t.snd_nxt, t.rcv_nxt, wnd)
}

/// Completing an active open: a block that sent its SYN (state SynSent)
/// and receives a SYN|ACK acknowledging exactly what it sent becomes
/// Established, records the peer's first sequence number, and always
/// answers with an ACK carrying its next sequence number and acknowledging
/// the peer's SYN (its sequence number plus one, modulo 2^32).
pub proof fn lemma_syn_ack_completes_handshake(t: TcbView, seq: u32, ack: u32, flags: u8, src_port: u16, data: Seq<u8>, wnd: u16)
    requires
        t.state == TcpState::SynSent,
        flags & TCP_SYN != 0,
        flags & TCP_ACK != 0,
        ack == t.snd_nxt,
    ensures
        ({
            let (t2, reply) = tcp_step(t, seq, ack, flags, src_port, data, wnd);
            &&& t2.state == TcpState::Established
            &&& t2.snd_una == ack
            &&& t2.irs == seq
            &&& reply matches TcpReply::Send(f, s, a, w)
            &&& f == TCP_ACK
            &&& s == t.snd_nxt
            &&& a as int == (seq as int + 1) % 0x1_0000_0000
            &&& w == wnd
        }),
{
}

/// The effect of one incoming segment on a connection, as the state
/// machine of `process_segment` defines it: the new block and the reply.
pub open spec fn tcp_step(t: TcbView, seq: u32, ack: u32, flags: u8, src_port: u16, data: Seq<u8>, wnd: u16) -> (TcbView, TcpReply) {
    match t.state {
        TcpState::Listen => {
            if flag_set(flags, TCP_SYN) {
                let t1 = TcbView {
                    irs: seq,
                    rcv_nxt: seq_add(seq, 1),
                    remote_addr: ip4(0, 0, 0, 0),
                    remote_port: src_port,
                    state: TcpState::SynReceived,
                    snd_nxt: seq_add(t.snd_nxt, 1),
                    ..t
                };
                (t1, TcpReply::Send(TCP_SYN | TCP_ACK, t.snd_nxt, t1.rcv_nxt, wnd))
            } else {
                (t, TcpReply::NoReply)
            }
        },
        TcpState::SynSent => {
            if flag_set(flags, TCP_SYN) {
                let t1 = TcbView { irs: seq, rcv_nxt: seq_add(seq, 1), ..t };
                if flag_set(flags, TCP_ACK) {
                    if ack == t.snd_nxt {
                        let t2 = TcbView { snd_una: ack, state: TcpState::Established, ..t1 };
                        (t2, ack_reply(t2, wnd))
                    } else {
                        (t1, TcpReply::NoReply)
                    }
                } else {
                    let t2 = TcbView { state: TcpState::SynReceived, snd_nxt: seq_add(t.snd_nxt, 1), ..t1 };
                    (t2, TcpReply::Send(TCP_SYN | TCP_ACK, t.snd_nxt, t1.rcv_nxt, wnd))
                }
            } else {
                (t, TcpReply::NoReply)
            }
        },
        TcpState::SynReceived => {
            if flag_set(flags, TCP_ACK) && ack == t.snd_nxt {
                (TcbView { snd_una: ack, state: TcpState::Established, ..t }, TcpReply::NoReply)
            } else {
                (t, TcpReply::NoReply)
            }
        },
        TcpState::Established => {
            let t1 = if flag_set(flags, TCP_ACK) && ack > t.snd_una && ack <= t.snd_nxt {
                TcbView { snd_una: ack, rtx: trim_acked(t.rtx, ack), ..t }
            } else {
                t
            };
            if data.len() > 0 && seq == t1.rcv_nxt {
                let t2 = TcbView { recv: t1.recv + data, rcv_nxt: seq_add(t1.rcv_nxt, data.len() as int), ..t1 };
                (t2, ack_reply(t2, wnd))
            } else if flag_set(flags, TCP_FIN) {
                let t2 = TcbView { rcv_nxt: seq_add(t1.rcv_nxt, 1), state: TcpState::CloseWait, ..t1 };
                (t2, ack_reply(t2, wnd))
            } else {
                (t1, TcpReply::NoReply)
            }
        },
        TcpState::FinWait1 => {
            let t1 = if flag_set(flags, TCP_ACK) && ack == t.snd_nxt { TcbView { state: TcpState::FinWait2, ..t } } else { t };
            if flag_set(flags, TCP_FIN) {
                let t2 = TcbView {
                    rcv_nxt: seq_add(t1.rcv_nxt, 1),
                    state: if t1.state == TcpState::FinWait2 { TcpState::TimeWait } else { TcpState::Closing },
                    ..t1
                };
                (t2, ack_reply(t2, wnd))
            } else {
                (t1, TcpReply::NoReply)
            }
        },
        TcpState::FinWait2 => {
            if flag_set(flags, TCP_FIN) {
                let t2 = TcbView { rcv_nxt: seq_add(t.rcv_nxt, 1), state: TcpState::TimeWait, ..t };
                (t2, ack_reply(t2, wnd))
            } else {
                (t, TcpReply::NoReply)
            }
        },
        TcpState::CloseWait => (t, TcpReply::NoReply),
        TcpState::Closing => {
            if flag_set(flags, TCP_ACK) && ack == t.snd_nxt {
                (TcbView { state: TcpState::TimeWait, ..t }, TcpReply::NoReply)
            } else {
                (t, TcpReply::NoReply)
            }
        },
        TcpState::LastAck => {
            if flag_set(flags, TCP_ACK) && ack == t.snd_nxt {
                (TcbView { state: TcpState::Closed, ..t }, TcpReply::NoReply)
            } else {
                (t, TcpReply::NoReply)
            }
        },
        TcpState::TimeWait => (t, TcpReply::NoReply),
        TcpState::Closed => {
            if !flag_set(flags, TCP_RST) {
                (t, TcpReply::Send(TCP_RST, t.snd_nxt, 0, 0))
            } else {
                (t, TcpReply::NoReply)
            }
        },
    }
}

/// Whether `r` is the segment `reply` describes from `local_port` to `remote_port`.
pub open spec fn reply_matches(r: Option<TcpSegment>, reply: TcpReply, local_port: u16, remote_port: u16) -> bool {
    match reply {
        TcpReply::NoReply => r is None,
        TcpReply::Send(f, s, a, w) => r matches Some(seg) && seg.header == header_spec(local_port, remote_port, s, a, f, w)
            && seg.options@.len() == 0 && seg.data@.len() == 0,
    }
}

impl TcpControlBlock {
    /// Drops acknowledged entries from the front of the retransmit queue.
    fn trim_retransmit_queue(&mut self)
        ensures
            final(self).retransmit_queue@ == trim_acked(old(self).retransmit_queue@, old(self).snd_una),
            *final(self) == (TcpControlBlock { retransmit_queue: final(self).retransmit_queue, ..*old(self) }),
    {
        let mut done = false;
        while !done && self.retransmit_queue.len() > 0
            invariant
                trim_acked(self.retransmit_queue@, self.snd_una) == trim_acked(old(self).retransmit_queue@, old(self).snd_una),
                done ==> trim_acked(self.retransmit_queue@, self.snd_una) == self.retransmit_queue@,
                *self == (TcpControlBlock { retransmit_queue: self.retransmit_queue, ..*old(self) }),
            decreases self.retransmit_queue@.len(), if done { 0int } else { 1int },
        {
            if self.retransmit_queue[0].0 < self.snd_una {
                let _ = self.retransmit_queue.pop_front();
            } else {
                done = true;
            }
        }
    }

    /// Appends `data` to the receive buffer.
    fn receive_data(&mut self, data: &Vec<u8>)
        ensures
            final(self).recv_buffer@ == old(self).recv_buffer@ + data@,
            *final(self) == (TcpControlBlock { recv_buffer: final(self).recv_buffer, ..*old(self) }),
    {
        let mut i: usize = 0;
        while i < data.len()
            invariant
                i <= data@.len(),
                self.recv_buffer@ == old(self).recv_buffer@ + data@.take(i as int),
                *self == (TcpControlBlock { recv_buffer: self.recv_buffer, ..*old(self) }),
            decreases data@.len() - i,
        {
            self.recv_buffer.push_back(data[i]);
            i = i + 1;
            assert(self.recv_buffer@ =~= old(self).recv_buffer@ + data@.take(i as int));
        }
        assert(data@.take(data@.len() as int) =~= data@);
    }

    /// Runs the state machine on one incoming segment and gives the reply to
    /// send, if any: the block becomes the first part of `tcp_step` and the
    /// reply is the segment its second part describes.
    #[verifier::rlimit(100)]
    #[verifier::spinoff_prover]
    pub fn process_segment(&mut self, segment: &TcpSegment) -> (r: Option<TcpSegment>)
        ensures
            ({
                let (t, reply) = tcp_step(old(self).tcb_view(), swap32(segment.header.seq_num), swap32(segment.header.ack_num),
                    (swap16(segment.header.data_offset_flags) % 64) as u8, swap16(segment.header.src_port),
                    segment.data@, old(self).rcv_wnd);
                &&& final(self).tcb_view() == t
                &&& tcb_frame(*old(self), *final(self))
                &&& reply_matches(r, reply, old(self).local_port, t.remote_port)
            }),
    {
        let seq = segment.header.seq_num();
        let ack = segment.header.ack_num();
        let flags = segment.header.flags();
        match self.state {
            TcpState::Listen => {
                if flags & TCP_SYN != 0 {
                    self.irs = seq;
                    self.rcv_nxt = seq_inc(seq, 1);
                    self.remote_addr = Ipv4Address::new(0, 0, 0, 0);
                    self.remote_port = segment.header.src_port();
                    return Some(self.send_syn_ack());
                }
            },
            TcpState::SynSent => {
                if flags & TCP_SYN != 0 {
                    self.irs = seq;
                    self.rcv_nxt = seq_inc(seq, 1);
                    if flags & TCP_ACK != 0 {
                        if ack == self.snd_nxt {
                            self.snd_una = ack;
                            self.state = TcpState::Established;
                            return Some(self.send_ack());
                        }
                    } else {
                        self.state = TcpState::SynReceived;
                        return Some(self.send_syn_ack());
                    }
                }
            },
            TcpState::SynReceived => {
                if flags & TCP_ACK != 0 && ack == self.snd_nxt {
                    self.snd_una = ack;
                    self.state = TcpState::Established;
                }
            },
            TcpState::Established => {
                if flags & TCP_ACK != 0 {
                    if ack > self.snd_una && ack <= self.snd_nxt {
                        self.snd_una = ack;
                        self.trim_retransmit_queue();
                    }
                }
                if segment.data.len() > 0 {
                    if seq == self.rcv_nxt {
                        self.receive_data(&segment.data);
                        let n = segment.data.len();
                        self.rcv_nxt = seq_inc(self.rcv_nxt, n as u32);
                        proof {
                            let n64 = n as u64;
                            assert((n64 % 0x1_0000_0000u64) as u32 == n as u32) by (bit_vector)
                                requires n64 == n;
                            vstd::arithmetic::div_mod::lemma_add_mod_noop(old(self).rcv_nxt as int, segment.data@.len() as int, 0x1_0000_0000);
                            vstd::arithmetic::div_mod::lemma_mod_twice(segment.data@.len() as int, 0x1_0000_0000);
                            vstd::arithmetic::div_mod::lemma_add_mod_noop(old(self).rcv_nxt as int, (segment.data@.len() % 0x1_0000_0000) as int, 0x1_0000_0000);
                        }
                        return Some(self.send_ack());
                    }
                }
                if flags & TCP_FIN != 0 {
                    self.rcv_nxt = seq_inc(self.rcv_nxt, 1);
                    self.state = TcpState::CloseWait;
                    return Some(self.send_ack());
                }
            },
            TcpState::FinWait1 => {
                if flags & TCP_ACK != 0 && ack == self.snd_nxt {
                    self.state = TcpState::FinWait2;
                }
                if flags & TCP_FIN != 0 {
                    self.rcv_nxt = seq_inc(self.rcv_nxt, 1);
                    if self.state == TcpState::FinWait2 {
                        self.state = TcpState::TimeWait;
                    } else {
                        self.state = TcpState::Closing;
                    }
                    return Some(self.send_ack());
                }
            },
            TcpState::FinWait2 => {
                if flags & TCP_FIN != 0 {
                    self.rcv_nxt = seq_inc(self.rcv_nxt, 1);
                    self.state = TcpState::TimeWait;
                    return Some(self.send_ack());
                }
            },
            TcpState::CloseWait => {},
            TcpState::Closing => {
                if flags & TCP_ACK != 0 && ack == self.snd_nxt {
                    self.state = TcpState::TimeWait;
                }
            },
            TcpState::LastAck => {
                if flags & TCP_ACK != 0 && ack == self.snd_nxt {
                    self.state = TcpState::Closed;
                }
            },
            TcpState::TimeWait => {},
            TcpState::Closed => {
                if flags & TCP_RST == 0 {
                    return Some(self.send_rst());
                }
            },
        }
        None
    }
}

/// The sequence number of a segment's bytes.
pub open spec fn seg_seq(d: Seq<u8>) -> u32 {
    crate::net::be32(d[4], d[5], d[6], d[7])
}

/// The acknowledgement number of a segment's bytes.
pub open spec fn seg_ack(d: Seq<u8>) -> u32 {
    crate::net::be32(d[8], d[9], d[10], d[11])
}

/// The flag bits of a segment's bytes.
pub open spec fn seg_flags(d: Seq<u8>) -> u8 {
    (be16(d[12], d[13]) % 64) as u8
}

/// The data of a segment's bytes, after the header and options.
pub open spec fn seg_data(d: Seq<u8>) -> Seq<u8> {
    d.subrange(((d[12] / 16) * 4) as int, d.len() as int)
}

pub proof fn lemma_swap_le32(a: u8, b: u8, c: u8, d: u8)
    ensures
        swap32(le32(a, b, c, d)) == crate::net::be32(a, b, c, d),
{
    let x = le32(a, b, c, d);
    assert(x == a + b * 0x100 + c * 0x10000 + d * 0x1000000);
    assert(x % 256 == a && (x / 256) % 256 == b && (x / 0x10000) % 256 == c && x / 0x1000000 == d) by (nonlinear_arith)
        requires x == a + b * 0x100 + c * 0x10000 + d * 0x1000000, a < 256, b < 256, c < 256, d < 256;
}

/// A socket: a control block and its identifier.
pub struct TcpSocket {
    pub tcb: TcpControlBlock,
    pub id: u32,
}

/// Room in the socket identifier counter and the sequence number counter.
pub open spec fn counters_room(socket_id: u32, isn: u32) -> bool {
    socket_id < u32::MAX && isn_room(isn)
}

impl TcpSocket {
    /// A closed socket on `local_addr`:`local_port` with the next identifier
    /// and a fresh initial sequence number.
    pub fn new(local_addr: Ipv4Address, local_port: u16, socket_id: &mut u32, isn_counter: &mut u32) -> (r: Self)
        requires
            counters_room(*old(socket_id), *old(isn_counter)),
        ensures
            *final(socket_id) == *old(socket_id) + 1,
            *final(isn_counter) == *old(isn_counter) + 64000,
            r.id == *final(socket_id),
            r.tcb.state == TcpState::Closed,
            r.tcb.local_addr == local_addr,
            r.tcb.local_port == local_port,
            r.tcb.remote_port == 0,
            r.tcb.iss == *final(isn_counter),
            r.tcb.snd_nxt == r.tcb.iss,
            r.tcb.snd_una == r.tcb.iss,
            r.tcb.rcv_nxt == 0,
            r.tcb.rcv_wnd == 8192,
            r.tcb.mss == 1460,
            r.tcb.recv_buffer@.len() == 0,
            r.tcb.retransmit_queue@.len() == 0,
    {
        *socket_id = *socket_id + 1;
        let id = *socket_id;
        Self { tcb: TcpControlBlock::new(local_addr, local_port, isn_counter), id }
    }

    /// Puts the socket in the Listen state.
    pub fn listen(&mut self)
        ensures
            final(self).tcb == (TcpControlBlock { state: TcpState::Listen, ..old(self).tcb }),
            final(self).id == old(self).id,
    {
        self.tcb.state = TcpState::Listen;
    }

    /// Records the peer and gives the SYN opening the connection.
    pub fn connect(&mut self, remote_addr: Ipv4Address, remote_port: u16) -> (r: TcpSegment)
        ensures
            r.header == header_spec(old(self).tcb.local_port, remote_port, old(self).tcb.snd_nxt, 0, TCP_SYN, old(self).tcb.rcv_wnd),
            r.options@.len() == 0 && r.data@.len() == 0,
            final(self).tcb == (TcpControlBlock {
                remote_addr,
                remote_port,
                state: TcpState::SynSent,
                snd_nxt: seq_add(old(self).tcb.snd_nxt, 1),
                ..old(self).tcb
            }),
            final(self).id == old(self).id,
    {
        self.tcb.remote_addr = remote_addr;
        self.tcb.remote_port = remote_port;
        self.tcb.send_syn()
    }

    /// Queues `data` and cuts it into segments; only an established
    /// connection can send.
    pub fn send(&mut self, data: &[u8]) -> (r: Result<Vec<TcpSegment>, &'static str>)
        requires
            old(self).tcb.mss > 0,
        ensures
            r is Err <==> old(self).tcb.state != TcpState::Established,
            r matches Err(e) ==> e@ == "Connection not established"@ && *final(self) == *old(self),
            r matches Ok(segs) ==> {
                let chunks = data_chunks(old(self).tcb.snd_nxt, data@, old(self).tcb.mss as nat);
                &&& final(self).tcb.send_buffer@ == old(self).tcb.send_buffer@ + data@
                &&& final(self).tcb.snd_nxt == seq_add(old(self).tcb.snd_nxt, data@.len() as int)
                &&& segs@.len() == chunks.len()
                &&& forall|i: int| 0 <= i < chunks.len() ==> (#[trigger] segs@[i]).data@ == chunks[i].1
                    && segs@[i].header == header_spec(old(self).tcb.local_port, old(self).tcb.remote_port, chunks[i].0,
                        old(self).tcb.rcv_nxt, TCP_ACK | TCP_PSH, old(self).tcb.rcv_wnd)
                    && segs@[i].options@.len() == 0
                &&& final(self).tcb.state == old(self).tcb.state
                &&& final(self).tcb.mss == old(self).tcb.mss
                &&& final(self).tcb.local_addr == old(self).tcb.local_addr
                &&& final(self).tcb.remote_addr == old(self).tcb.remote_addr
            },
    {
        if self.tcb.state != TcpState::Established {
            return Err("Connection not established");
        }
        let mut i: usize = 0;
        while i < data.len()
            invariant
                i <= data@.len(),
                self.tcb.send_buffer@ == old(self).tcb.send_buffer@ + data@.take(i as int),
                self.tcb == (TcpControlBlock { send_buffer: self.tcb.send_buffer, ..old(self).tcb }),
                self.id == old(self).id,
            decreases data@.len() - i,
        {
            self.tcb.send_buffer.push_back(data[i]);
            i = i + 1;
            assert(self.tcb.send_buffer@ =~= old(self).tcb.send_buffer@ + data@.take(i as int));
        }
        assert(data@.take(data@.len() as int) =~= data@);
        Ok(self.tcb.send_data(data))
    }

    /// Takes up to `max_len` received bytes, oldest first.
    pub fn recv(&mut self, max_len: usize) -> (r: Vec<u8>)
        ensures
            ({
                let n = if max_len < old(self).tcb.recv_buffer@.len() { max_len as int } else { old(self).tcb.recv_buffer@.len() as int };
                &&& r@ == old(self).tcb.recv_buffer@.take(n)
                &&& final(self).tcb.recv_buffer@ == old(self).tcb.recv_buffer@.skip(n)
            }),
            final(self).tcb == (TcpControlBlock { recv_buffer: final(self).tcb.recv_buffer, ..old(self).tcb }),
            final(self).id == old(self).id,
    {
        let mut data: Vec<u8> = Vec::new();
        let len = if max_len < self.tcb.recv_buffer.len() { max_len } else { self.tcb.recv_buffer.len() };
        let ghost b0 = self.tcb.recv_buffer@;
        let mut i: usize = 0;
        while i < len
            invariant
                i <= len,
                len <= b0.len(),
                data@ == b0.take(i as int),
                self.tcb.recv_buffer@ == b0.skip(i as int),
                self.tcb == (TcpControlBlock { recv_buffer: self.tcb.recv_buffer, ..old(self).tcb }),
                self.id == old(self).id,
                b0 == old(self).tcb.recv_buffer@,
            decreases len - i,
        {
            if let Some(byte) = self.tcb.recv_buffer.pop_front() {
                data.push(byte);
            }
            i = i + 1;
            assert(data@ =~= b0.take(i as int));
            assert(self.tcb.recv_buffer@ =~= b0.skip(i as int));
        }
        data
    }

    /// The FIN closing our side.
    pub fn close(&mut self) -> (r: TcpSegment)
        ensures
            r.header == header_spec(old(self).tcb.local_port, old(self).tcb.remote_port, old(self).tcb.snd_nxt,
                old(self).tcb.rcv_nxt, TCP_FIN | TCP_ACK, old(self).tcb.rcv_wnd),
            r.options@.len() == 0 && r.data@.len() == 0,
            final(self).tcb == (TcpControlBlock {
                snd_nxt: seq_add(old(self).tcb.snd_nxt, 1),
                state: match old(self).tcb.state {
                    TcpState::Established => TcpState::FinWait1,
                    TcpState::CloseWait => TcpState::LastAck,
                    s => s,
                },
                ..old(self).tcb
            }),
            final(self).id == old(self).id,
    {
        self.tcb.send_fin()
    }
}

/// The four addresses and ports of a connection.
pub struct TcpConnection {
    pub local_addr: Ipv4Address,
    pub local_port: u16,
    pub remote_addr: Ipv4Address,
    pub remote_port: u16,
}

/// The table key of a connection: each end's address shifted left by 16
/// and or-ed with its port, the two ends xor-ed.
pub open spec fn conn_key(la: Seq<u8>, lp: u16, ra: Seq<u8>, rp: u16) -> u64 {
    ((ip_u32(la) * 65536 + lp) as u64) ^ ((ip_u32(ra) * 65536 + rp) as u64)
}

fn end_key(a: u32, p: u16) -> (r: u64)
    ensures
        r == (a * 65536 + p) as u64,
{
    let r = ((a as u64) << 16u64) | (p as u64);
    assert(((a as u64) << 16u64) | (p as u64) == a * 65536 + p) by (bit_vector);
    r
}

impl TcpConnection {
    pub fn new(local_addr: Ipv4Address, local_port: u16, remote_addr: Ipv4Address, remote_port: u16) -> (r: Self)
        ensures
            r.local_addr == local_addr,
            r.local_port == local_port,
            r.remote_addr == remote_addr,
            r.remote_port == remote_port,
    {
        Self { local_addr, local_port, remote_addr, remote_port }
    }

    /// The connection's table key.
    pub fn to_key(&self) -> (r: u64)
        ensures
            r == conn_key(self.local_addr@, self.local_port, self.remote_addr@, self.remote_port),
    {
        let local = end_key(self.local_addr.to_u32(), self.local_port);
        let remote = end_key(self.remote_addr.to_u32(), self.remote_port);
        local ^ remote
    }
}

/// The listening sockets by port, the connections by key, and the counters
/// socket identifiers and initial sequence numbers come from.
pub struct TcpTables {
    pub sockets: BTreeMap<u16, TcpSocket>,
    pub connections: BTreeMap<u64, TcpSocket>,
    pub socket_id: u32,
    pub isn_counter: u32,
}

impl TcpTables {
    /// Empty tables; identifiers start after 0, sequence numbers after 0x1000.
    pub fn new() -> (r: Self)
        ensures
            r.sockets@.len() == 0,
            r.connections@.len() == 0,
            r.socket_id == 0,
            r.isn_counter == 0x1000,
    {
        Self { sockets: BTreeMap::new(), connections: BTreeMap::new(), socket_id: 0, isn_counter: 0x1000 }
    }
}

/// This host's address, 192.168.1.100.
fn local_ip() -> (r: Ipv4Address)
    ensures
        r@ == ip4(192, 168, 1, 100),
{
    Ipv4Address::new(192, 168, 1, 100)
}

/// Whether `p` carries the segment `h`/`options`/`data` from `src` to `dst`
/// with its checksum filled in.
pub open spec fn carries_segment(p: IpPacket, h: TcpHeader, options: Seq<u8>, data: Seq<u8>, src: Ipv4Address, dst: Ipv4Address) -> bool {
    let c = ones_complement(tcp_sum(segment_image(h, options, data), src@, dst@, (20 + options.len() + data.len()) as usize));
    &&& p.header.src_addr == src
    &&& p.header.dst_addr == dst
    &&& p.header.protocol == IP_PROTO_TCP
    &&& p.payload@ == segment_image(TcpHeader { checksum: swap16(c), ..h }, options, data)
}

/// The IP packet carrying `segment` from `src_addr` to `dst_addr`, with the
/// segment checksum filled in. The segment's size keeps the 32-bit sum the
/// checksum is computed in from overflowing.
pub fn send_tcp_segment(segment: TcpSegment, src_addr: Ipv4Address, dst_addr: Ipv4Address) -> (r: IpPacket)
    requires
        segment.options@.len() + segment.data@.len() <= 130000,
    ensures
        carries_segment(r, segment.header, segment.options@, segment.data@, src_addr, dst_addr),
{
    let mut segment = segment;
    proof {
        crate::net::lemma_ones_sum_bound(segment_image(segment.header, segment.options@, segment.data@));
    }
    let c = segment.calculate_checksum(src_addr, dst_addr);
    segment.header.checksum = to_be16(c);
    IpPacket::new(src_addr, dst_addr, IP_PROTO_TCP, segment.to_bytes())
}

/// The reset answering a segment to a port nobody listens on.
#[verifier::spinoff_prover]
pub fn send_tcp_rst(src_port: u16, dst_port: u16, ack_num: u32, src_addr: Ipv4Address, dst_addr: Ipv4Address) -> (r: IpPacket)
    ensures
        carries_segment(r, header_spec(src_port, dst_port, 0, seq_add(ack_num, 1), TCP_RST | TCP_ACK, 0), Seq::empty(), Seq::empty(), src_addr, dst_addr),
{
    let header = TcpHeader::new(src_port, dst_port, 0, seq_inc(ack_num, 1), TCP_RST | TCP_ACK, 0);
    let segment = TcpSegment::new(header, Vec::new());
    assert(segment.options@ =~= Seq::<u8>::empty());
    assert(segment.data@ =~= Seq::<u8>::empty());
    send_tcp_segment(segment, src_addr, dst_addr)
}

/// Handles a TCP segment carried by `ip_packet` and gives the packet to send
/// back, if any. A segment of a known connection runs that connection's
/// state machine. Otherwise a socket listening on the destination port
/// spawns a new connection, kept only when it answers; a port without any
/// socket is answered with a reset.
#[verifier::spinoff_prover]
#[verifier::rlimit(50)]
pub fn process_tcp_packet(tables: &mut TcpTables, ip_packet: &IpPacket) -> (r: Option<IpPacket>)
    requires
        counters_room(old(tables).socket_id, old(tables).isn_counter),
    ensures
        final(tables).sockets@ == old(tables).sockets@,
        segment_parse_error(ip_packet.payload@) is Some ==> r is None && final(tables).connections@ == old(tables).connections@,
        segment_parse_error(ip_packet.payload@) is None ==> {
            let d = ip_packet.payload@;
            let src_port = be16(d[0], d[1]);
            let dst_port = be16(d[2], d[3]);
            let key = conn_key(ip_packet.header.dst_addr@, dst_port, ip_packet.header.src_addr@, src_port);
            if old(tables).connections@.contains_key(key) {
                let c = old(tables).connections@[key].tcb;
                let (t, reply) = tcp_step(c.tcb_view(), seg_seq(d), seg_ack(d), seg_flags(d), src_port, seg_data(d), c.rcv_wnd);
                &&& final(tables).connections@.dom() == old(tables).connections@.dom()
                &&& final(tables).connections@[key].tcb.tcb_view() == t
                &&& (r is Some <==> reply is Send)
                &&& forall|k: u64| k != key && old(tables).connections@.contains_key(k) ==> #[trigger] final(tables).connections@[k] == old(tables).connections@[k]
            } else if !old(tables).sockets@.contains_key(dst_port) {
                &&& r matches Some(p) && p.header.dst_addr == ip_packet.header.src_addr && p.header.protocol == IP_PROTO_TCP
                &&& final(tables).connections@ == old(tables).connections@
            } else if old(tables).sockets@[dst_port].tcb.state != TcpState::Listen {
                r is None && final(tables).connections@ == old(tables).connections@
            } else {
                &&& (r is Some <==> flag_set(seg_flags(d), TCP_SYN))
                &&& r is None ==> final(tables).connections@ == old(tables).connections@
                &&& r is Some ==> final(tables).connections@.dom() == old(tables).connections@.dom().insert(key)
                    && final(tables).connections@[key].tcb.state == TcpState::SynReceived
                    && final(tables).connections@[key].tcb.remote_port == src_port
                    && forall|k: u64| k != key && old(tables).connections@.contains_key(k) ==> #[trigger] final(tables).connections@[k] == old(tables).connections@[k]
            }
        },
{
    let segment = match TcpSegment::from_bytes(ip_packet.payload.as_slice()) {
        Ok(s) => s,
        Err(_) => { return None; },
    };
    let src_addr = ip_packet.header.src_addr;
    let dst_addr = ip_packet.header.dst_addr;
    let src_port = segment.header.src_port();
    let dst_port = segment.header.dst_port();
    proof {
        let d = ip_packet.payload@;
        crate::net::ip::lemma_swap_le16(d[0], d[1]);
        crate::net::ip::lemma_swap_le16(d[2], d[3]);
        crate::net::ip::lemma_swap_le16(d[12], d[13]);
        lemma_swap_le32(d[4], d[5], d[6], d[7]);
        lemma_swap_le32(d[8], d[9], d[10], d[11]);
    }
    let conn = TcpConnection::new(dst_addr, dst_port, src_addr, src_port);
    let conn_key = conn.to_key();
    if let Some(mut socket) = tables.connections.remove(&conn_key) {
        let response = socket.tcb.process_segment(&segment);
        tables.connections.insert(conn_key, socket);
        proof {
            assert(tables.connections@.dom() =~= old(tables).connections@.dom());
        }
        return match response {
            Some(seg) => Some(send_tcp_segment(seg, dst_addr, src_addr)),
            None => None,
        };
    }
    let listening = match tables.sockets.get(&dst_port) {
        Some(s) => Some(s.tcb.state == TcpState::Listen),
        None => None,
    };
    match listening {
        Some(true) => {
            let mut new_socket = TcpSocket::new(dst_addr, dst_port, &mut tables.socket_id, &mut tables.isn_counter);
            new_socket.tcb.remote_addr = src_addr;
            new_socket.tcb.remote_port = src_port;
            new_socket.tcb.state = TcpState::Listen;
            let response = new_socket.tcb.process_segment(&segment);
            match response {
                Some(seg) => {
                    let p = send_tcp_segment(seg, dst_addr, src_addr);
                    tables.connections.insert(conn_key, new_socket);
                    Some(p)
                },
                None => None,
            }
        },
        Some(false) => None,
        None => Some(send_tcp_rst(dst_port, src_port, segment.header.seq_num(), dst_addr, src_addr)),
    }
}

/// Opens a listening socket on `port`; a port already in use is an error.
pub fn listen(tables: &mut TcpTables, port: u16) -> (r: Result<(), &'static str>)
    requires
        counters_room(old(tables).socket_id, old(tables).isn_counter),
    ensures
        r is Err <==> old(tables).sockets@.contains_key(port),
        r matches Err(e) ==> e@ == "Port already in use"@ && final(tables).sockets@ == old(tables).sockets@,
        r is Ok ==> final(tables).sockets@.dom() == old(tables).sockets@.dom().insert(port)
            && final(tables).sockets@[port].tcb.state == TcpState::Listen
            && final(tables).sockets@[port].tcb.local_addr@ == ip4(192, 168, 1, 100)
            && final(tables).sockets@[port].tcb.local_port == port
            && forall|k: u16| k != port && old(tables).sockets@.contains_key(k) ==> #[trigger] final(tables).sockets@[k] == old(tables).sockets@[k],
        final(tables).connections@ == old(tables).connections@,
{
    if tables.sockets.contains_key(&port) {
        return Err("Port already in use");
    }
    let local_addr = local_ip();
    let mut socket = TcpSocket::new(local_addr, port, &mut tables.socket_id, &mut tables.isn_counter);
    socket.listen();
    tables.sockets.insert(port, socket);
    Ok(())
}

/// Starts a connection from `local_port` to `remote_addr`:`remote_port`:
/// the new socket joins the connection table under its key, which is the
/// result, with the SYN packet to send.
pub fn connect(tables: &mut TcpTables, local_port: u16, remote_addr: Ipv4Address, remote_port: u16) -> (r: Result<(u64, IpPacket), &'static str>)
    requires
        counters_room(old(tables).socket_id, old(tables).isn_counter),
    ensures
        r matches Ok((key, p)) && key == conn_key(ip4(192, 168, 1, 100), local_port, remote_addr@, remote_port)
            && final(tables).connections@.dom() == old(tables).connections@.dom().insert(key)
            && final(tables).connections@[key].tcb.state == TcpState::SynSent
            && final(tables).connections@[key].tcb.remote_addr == remote_addr
            && final(tables).connections@[key].tcb.remote_port == remote_port
            && p.header.dst_addr == remote_addr,
        final(tables).sockets@ == old(tables).sockets@,
{
    let local_addr = local_ip();
    let mut socket = TcpSocket::new(local_addr, local_port, &mut tables.socket_id, &mut tables.isn_counter);
    let syn_segment = socket.connect(remote_addr, remote_port);
    let packet = send_tcp_segment(syn_segment, local_addr, remote_addr);
    let conn = TcpConnection::new(local_addr, local_port, remote_addr, remote_port);
    let conn_key = conn.to_key();
    tables.connections.insert(conn_key, socket);
    Ok((conn_key, packet))
}

/// Sends `data` on the connection `conn_key`, giving the packets to send.
pub fn send(tables: &mut TcpTables, conn_key: u64, data: &[u8]) -> (r: Result<Vec<IpPacket>, &'static str>)
    requires
        forall|k: u64| #[trigger] old(tables).connections@.contains_key(k) ==> old(tables).connections@[k].tcb.mss > 0
            && old(tables).connections@[k].tcb.mss <= 1460,
    ensures
        !old(tables).connections@.contains_key(conn_key) ==> (r matches Err(e) && e@ == "Connection not found"@),
        old(tables).connections@.contains_key(conn_key) ==> (r is Err <==> old(tables).connections@[conn_key].tcb.state != TcpState::Established),
        r matches Ok(ps) ==> ps@.len() == data_chunks(old(tables).connections@[conn_key].tcb.snd_nxt, data@,
            old(tables).connections@[conn_key].tcb.mss as nat).len(),
        final(tables).connections@.dom() == old(tables).connections@.dom(),
        forall|k: u64| #[trigger] final(tables).connections@.contains_key(k) ==> final(tables).connections@[k].tcb.mss > 0
            && final(tables).connections@[k].tcb.mss <= 1460,
        final(tables).sockets@ == old(tables).sockets@,
{
    match tables.connections.remove(&conn_key) {
        Some(mut socket) => {
            let res = socket.send(data);
            let src_addr = socket.tcb.local_addr;
            let dst_addr = socket.tcb.remote_addr;
            tables.connections.insert(conn_key, socket);
            proof {
                assert(tables.connections@.dom() =~= old(tables).connections@.dom());
            }
            match res {
                Ok(segments) => {
                    let mut packets: Vec<IpPacket> = Vec::new();
                    let mut i: usize = 0;
                    let ghost chunks = data_chunks(old(tables).connections@[conn_key].tcb.snd_nxt, data@,
                        old(tables).connections@[conn_key].tcb.mss as nat);
                    proof {
                        lemma_chunks_small(old(tables).connections@[conn_key].tcb.snd_nxt, data@,
                            old(tables).connections@[conn_key].tcb.mss as nat);
                    }
                    while i < segments.len()
                        invariant
                            i <= segments@.len(),
                            packets@.len() == i,
                            segments@.len() == chunks.len(),
                            forall|j: int| 0 <= j < chunks.len() ==> (#[trigger] segments@[j]).data@ == chunks[j].1,
                            forall|j: int| 0 <= j < chunks.len() ==> (#[trigger] chunks[j]).1.len() <= 1460,
                            forall|j: int| 0 <= j < segments@.len() ==> (#[trigger] segments@[j]).options@.len() == 0,
                        decreases segments@.len() - i,
                    {
                        let seg = TcpSegment {
                            header: segments[i].header,
                            options: Vec::new(),
                            data: segments[i].data.clone(),
                        };
                        packets.push(send_tcp_segment(seg, src_addr, dst_addr));
                        i = i + 1;
                    }
                    Ok(packets)
                },
                Err(e) => Err(e),
            }
        },
        None => Err("Connection not found"),
    }
}

proof fn lemma_chunks_small(seq: u32, data: Seq<u8>, mss: nat)
    ensures
        forall|j: int| 0 <= j < data_chunks(seq, data, mss).len() ==> (#[trigger] data_chunks(seq, data, mss)[j]).1.len() <= mss,
    decreases data.len(),
{
    if data.len() > 0 && mss > 0 {
        let n = if mss < data.len() { mss } else { data.len() };
        lemma_chunks_small(seq_add(seq, n as int), data.skip(n as int), mss);
        lemma_chunks_cons(seq, data, mss);
        let all = data_chunks(seq, data, mss);
        let rest = data_chunks(seq_add(seq, n as int), data.skip(n as int), mss);
        assert forall|j: int| 0 <= j < all.len() implies (#[trigger] all[j]).1.len() <= mss by {
            if j > 0 {
                assert(all[j] == rest[j - 1]);
            }
        }
    } else {
        reveal(data_chunks);
    }
}

/// Takes up to `max_len` received bytes from the connection `conn_key`.
pub fn recv(tables: &mut TcpTables, conn_key: u64, max_len: usize) -> (r: Result<Vec<u8>, &'static str>)
    ensures
        r is Err <==> !old(tables).connections@.contains_key(conn_key),
        r matches Err(e) ==> e@ == "Connection not found"@ && final(tables).connections@ == old(tables).connections@,
        r matches Ok(v) ==> {
            let b = old(tables).connections@[conn_key].tcb.recv_buffer@;
            let n = if max_len < b.len() { max_len as int } else { b.len() as int };
            &&& v@ == b.take(n)
            &&& final(tables).connections@[conn_key].tcb.recv_buffer@ == b.skip(n)
            &&& final(tables).connections@.dom() == old(tables).connections@.dom()
        },
        final(tables).sockets@ == old(tables).sockets@,
{
    match tables.connections.remove(&conn_key) {
        Some(mut socket) => {
            let data = socket.recv(max_len);
            tables.connections.insert(conn_key, socket);
            proof {
                assert(tables.connections@.dom() =~= old(tables).connections@.dom());
            }
            Ok(data)
        },
        None => Err("Connection not found"),
    }
}

/// Closes our side of the connection `conn_key`, giving the FIN packet.
pub fn close(tables: &mut TcpTables, conn_key: u64) -> (r: Result<IpPacket, &'static str>)
    ensures
        r is Err <==> !old(tables).connections@.contains_key(conn_key),
        r matches Err(e) ==> e@ == "Connection not found"@ && final(tables).connections@ == old(tables).connections@,
        r is Ok ==> final(tables).connections@.dom() == old(tables).connections@.dom()
            && final(tables).connections@[conn_key].tcb.state == (match old(tables).connections@[conn_key].tcb.state {
                TcpState::Established => TcpState::FinWait1,
                TcpState::CloseWait => TcpState::LastAck,
                s => s,
            }),
        final(tables).sockets@ == old(tables).sockets@,
{
    match tables.connections.remove(&conn_key) {
        Some(mut socket) => {
            let fin_segment = socket.close();
            let src_addr = socket.tcb.local_addr;
            let dst_addr = socket.tcb.remote_addr;
            tables.connections.insert(conn_key, socket);
            proof {
                assert(tables.connections@.dom() =~= old(tables).connections@.dom());
            }
            Ok(send_tcp_segment(fin_segment, src_addr, dst_addr))
        },
        None => Err("Connection not found"),
    }
}

pub const PORT_FTP_DATA: u16 = 20;
pub const PORT_FTP_CONTROL: u16 = 21;
pub const PORT_SSH: u16 = 22;
pub const PORT_TELNET: u16 = 23;
pub const PORT_SMTP: u16 = 25;
pub const PORT_HTTP: u16 = 80;
pub const PORT_POP3: u16 = 110;
pub const PORT_IMAP: u16 = 143;
pub const PORT_HTTPS: u16 = 443;
pub const PORT_SMB: u16 = 445;
pub const PORT_RDP: u16 = 3389;

} // verus!
