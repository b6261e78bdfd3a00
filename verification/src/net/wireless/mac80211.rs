//! The 802.11 MAC layer: frame control, management frames, transmit
//! queues, rate adaptation, power saving, contention backoff and A-MSDU
//! aggregation.

use vstd::prelude::*;
use std::collections::VecDeque;
use crate::net::extend_bytes;
use vstd::string::StringSliceAdditionalSpecFns;

verus! {

pub const IEEE80211_MAX_SSID_LEN: usize = 32;
pub const IEEE80211_MAX_FRAME_LEN: usize = 2352;
pub const IEEE80211_MAX_QUEUES: usize = 16;
pub const IEEE80211_QOS_CTL_LEN: usize = 2;

#[derive(Debug, Clone, Copy, PartialEq, Eq, Structural)]
pub enum Band {
    Band2GHz,
    Band5GHz,
    Band6GHz,
}

#[derive(Debug, Clone, Copy, PartialEq, Eq, Structural)]
pub enum ChannelWidth {
    Width20,
    Width40,
    Width80,
    Width160,
}

#[derive(Debug, Clone, Copy, PartialEq, Eq, Structural)]
pub struct Channel {
    pub frequency: u32,
    pub number: u8,
    pub band: Band,
    pub max_power: i8,
    pub flags: u32,
}

#[derive(Debug, Clone, Copy, PartialEq, Eq, Structural)]
pub enum FrameType {
    Management,
    Control,
    Data,
    Extension,
}

#[derive(Debug, Clone, Copy, PartialEq, Eq, Structural)]
pub enum ManagementSubtype {
    AssocRequest,
    AssocResponse,
    ReassocRequest,
    ReassocResponse,
    ProbeRequest,
    ProbeResponse,
    Beacon,
    Atim,
    Disassoc,
    Auth,
    Deauth,
    Action,
}

/// The subtype number of a management subtype: its place in the list.
pub open spec fn management_code(s: ManagementSubtype) -> u8 {
    match s {
        ManagementSubtype::AssocRequest => 0,
        ManagementSubtype::AssocResponse => 1,
        ManagementSubtype::ReassocRequest => 2,
        ManagementSubtype::ReassocResponse => 3,
        ManagementSubtype::ProbeRequest => 4,
        ManagementSubtype::ProbeResponse => 5,
        ManagementSubtype::Beacon => 6,
        ManagementSubtype::Atim => 7,
        ManagementSubtype::Disassoc => 8,
        ManagementSubtype::Auth => 9,
        ManagementSubtype::Deauth => 10,
        ManagementSubtype::Action => 11,
    }
}

/// The subtype number of a management subtype (see `management_code`).
pub fn management_subtype_code(s: ManagementSubtype) -> (r: u8)
    ensures
        r == management_code(s),
{
    match s {
        ManagementSubtype::AssocRequest => 0,
        ManagementSubtype::AssocResponse => 1,
        ManagementSubtype::ReassocRequest => 2,
        ManagementSubtype::ReassocResponse => 3,
        ManagementSubtype::ProbeRequest => 4,
        ManagementSubtype::ProbeResponse => 5,
        ManagementSubtype::Beacon => 6,
        ManagementSubtype::Atim => 7,
        ManagementSubtype::Disassoc => 8,
        ManagementSubtype::Auth => 9,
        ManagementSubtype::Deauth => 10,
        ManagementSubtype::Action => 11,
    }
}

#[derive(Debug, Clone, Copy, PartialEq, Eq, Structural)]
pub enum ControlSubtype {
    BlockAckReq,
    BlockAck,
    PsPoll,
    Rts,
    Cts,
    Ack,
    CfEnd,
    CfEndAck,
}

#[derive(Debug, Clone, Copy, PartialEq, Eq, Structural)]
pub enum DataSubtype {
    Data,
    DataCfAck,
    DataCfPoll,
    DataCfAckPoll,
    Null,
    CfAck,
    CfPoll,
    CfAckPoll,
    QosData,
    QosDataCfAck,
    QosDataCfPoll,
    QosDataCfAckPoll,
    QosNull,
    QosCfPoll,
    QosCfAckPoll,
}

/// The frame control field, unpacked.
#[derive(Debug, Clone, Copy, PartialEq, Eq, Structural)]
pub struct FrameControl {
    pub version: u8,
    pub frame_type: u8,
    pub subtype: u8,
    pub to_ds: bool,
    pub from_ds: bool,
    pub more_frag: bool,
    pub retry: bool,
    pub pwr_mgmt: bool,
    pub more_data: bool,
    pub protected: bool,
    pub order: bool,
}

/// A flag as a bit.
pub open spec fn bit(b: bool) -> u16 {
    if b { 1 } else { 0 }
}

/// The 16-bit word a frame control field packs into: version in bits 0-1,
/// type in 2-3, subtype in 4-7, then one bit per flag.
pub open spec fn fc_word(fc: FrameControl) -> u16 {
    ((fc.version as u16) & 0x3) | (((fc.frame_type as u16) & 0x3) << 2u16) | (((fc.subtype as u16) & 0xF) << 4u16)
        | (bit(fc.to_ds) << 8u16) | (bit(fc.from_ds) << 9u16) | (bit(fc.more_frag) << 10u16) | (bit(fc.retry) << 11u16)
        | (bit(fc.pwr_mgmt) << 12u16) | (bit(fc.more_data) << 13u16) | (bit(fc.protected) << 14u16) | (bit(fc.order) << 15u16)
}

/// The field a 16-bit word unpacks into.
pub open spec fn fc_of_word(w: u16) -> FrameControl {
    FrameControl {
        version: (w & 0x3) as u8,
        frame_type: ((w >> 2u16) & 0x3) as u8,
        subtype: ((w >> 4u16) & 0xF) as u8,
        to_ds: (w >> 8u16) & 1 == 1,
        from_ds: (w >> 9u16) & 1 == 1,
        more_frag: (w >> 10u16) & 1 == 1,
        retry: (w >> 11u16) & 1 == 1,
        pwr_mgmt: (w >> 12u16) & 1 == 1,
        more_data: (w >> 13u16) & 1 == 1,
        protected: (w >> 14u16) & 1 == 1,
        order: (w >> 15u16) & 1 == 1,
    }
}

/// The type number of a frame type.
pub open spec fn frame_type_code(t: FrameType) -> u8 {
    match t {
        FrameType::Management => 0,
        FrameType::Control => 1,
        FrameType::Data => 2,
        FrameType::Extension => 3,
    }
}

fn flag_bit(b: bool) -> (r: u16)
    ensures
        r == bit(b),
{
    if b { 1 } else { 0 }
}

impl FrameControl {
    /// A field of the given type and subtype with version 0 and no flags.
    pub fn new(frame_type: FrameType, subtype: u8) -> (r: Self)
        ensures
            r == (FrameControl { version: 0, frame_type: frame_type_code(frame_type), subtype, to_ds: false, from_ds: false,
                more_frag: false, retry: false, pwr_mgmt: false, more_data: false, protected: false, order: false }),
    {
        Self {
            version: 0,
            frame_type: match frame_type {
                FrameType::Management => 0,
                FrameType::Control => 1,
                FrameType::Data => 2,
                FrameType::Extension => 3,
            },
            subtype,
            to_ds: false,
            from_ds: false,
            more_frag: false,
            retry: false,
            pwr_mgmt: false,
            more_data: false,
            protected: false,
            order: false,
        }
    }

    /// The packed word, low byte first.
    pub fn to_bytes(&self) -> (r: [u8; 2])
        ensures
            r@ == seq![fc_word(*self) as u8, (fc_word(*self) >> 8u16) as u8],
    {
        let fc: u16 = ((self.version as u16) & 0x3) | (((self.frame_type as u16) & 0x3) << 2u16) | (((self.subtype as u16) & 0xF) << 4u16)
            | (flag_bit(self.to_ds) << 8u16) | (flag_bit(self.from_ds) << 9u16) | (flag_bit(self.more_frag) << 10u16)
            | (flag_bit(self.retry) << 11u16) | (flag_bit(self.pwr_mgmt) << 12u16) | (flag_bit(self.more_data) << 13u16)
            | (flag_bit(self.protected) << 14u16) | (flag_bit(self.order) << 15u16);
        let r: [u8; 2] = [fc as u8, (fc >> 8u16) as u8];
        assert(r@ =~= seq![fc_word(*self) as u8, (fc_word(*self) >> 8u16) as u8]);
        r
    }

    /// Unpacks a word given low byte first.
    pub fn from_bytes(bytes: [u8; 2]) -> (r: Self)
        ensures
            r == fc_of_word(((bytes@[0] as u16) | ((bytes@[1] as u16) << 8u16)) as u16),
    {
        let fc: u16 = (bytes[0] as u16) | ((bytes[1] as u16) << 8u16);
        Self {
            version: (fc & 0x3) as u8,
            frame_type: ((fc >> 2u16) & 0x3) as u8,
            subtype: ((fc >> 4u16) & 0xF) as u8,
            to_ds: (fc >> 8u16) & 1 == 1,
            from_ds: (fc >> 9u16) & 1 == 1,
            more_frag: (fc >> 10u16) & 1 == 1,
            retry: (fc >> 11u16) & 1 == 1,
            pwr_mgmt: (fc >> 12u16) & 1 == 1,
            more_data: (fc >> 13u16) & 1 == 1,
            protected: (fc >> 14u16) & 1 == 1,
            order: (fc >> 15u16) & 1 == 1,
        }
    }
}

/// Unpacking a packed field gives it back when its version and type fit in
/// two bits and its subtype in four.
pub proof fn lemma_frame_control_round_trip(fc: FrameControl)
    requires
        fc.version < 4,
        fc.frame_type < 4,
        fc.subtype < 16,
    ensures
        fc_of_word(fc_word(fc)) == fc,
{
    let v = fc.version as u16;
    let t = fc.frame_type as u16;
    let s = fc.subtype as u16;
    let (a, b, c, d, e, f, g, h) = (bit(fc.to_ds), bit(fc.from_ds), bit(fc.more_frag), bit(fc.retry),
        bit(fc.pwr_mgmt), bit(fc.more_data), bit(fc.protected), bit(fc.order));
    let w = fc_word(fc);
    assert(w == (v & 0x3) | ((t & 0x3) << 2u16) | ((s & 0xF) << 4u16) | (a << 8u16) | (b << 9u16) | (c << 10u16)
        | (d << 11u16) | (e << 12u16) | (f << 13u16) | (g << 14u16) | (h << 15u16));
    assert({
        &&& (w & 0x3) == v
        &&& ((w >> 2u16) & 0x3) == t
        &&& ((w >> 4u16) & 0xF) == s
        &&& ((w >> 8u16) & 1) == a
        &&& ((w >> 9u16) & 1) == b
        &&& ((w >> 10u16) & 1) == c
        &&& ((w >> 11u16) & 1) == d
        &&& ((w >> 12u16) & 1) == e
        &&& ((w >> 13u16) & 1) == f
        &&& ((w >> 14u16) & 1) == g
        &&& ((w >> 15u16) & 1) == h
    }) by (bit_vector)
        requires
            v < 4, t < 4, s < 16, a <= 1, b <= 1, c <= 1, d <= 1, e <= 1, f <= 1, g <= 1, h <= 1,
            w == (v & 0x3) | ((t & 0x3) << 2u16) | ((s & 0xF) << 4u16) | (a << 8u16) | (b << 9u16) | (c << 10u16)
                | (d << 11u16) | (e << 12u16) | (f << 13u16) | (g << 14u16) | (h << 15u16);
}

/// Packing an unpacked word gives the word back.
pub proof fn lemma_frame_word_round_trip(w: u16)
    ensures
        fc_word(fc_of_word(w)) == w,
{
    let fc = fc_of_word(w);
    let (a, b, c, d, e, f, g, h) = (bit(fc.to_ds), bit(fc.from_ds), bit(fc.more_frag), bit(fc.retry),
        bit(fc.pwr_mgmt), bit(fc.more_data), bit(fc.protected), bit(fc.order));
    assert(a == (w >> 8u16) & 1 && b == (w >> 9u16) & 1 && c == (w >> 10u16) & 1 && d == (w >> 11u16) & 1
        && e == (w >> 12u16) & 1 && f == (w >> 13u16) & 1 && g == (w >> 14u16) & 1 && h == (w >> 15u16) & 1) by {
        assert(forall|k: u16| #![trigger (w >> k) & 1] k < 16 ==> ((w >> k) & 1 == 1 || (w >> k) & 1 == 0)) by (bit_vector);
    }
    let v = (w & 0x3) as u8;
    let t = ((w >> 2u16) & 0x3) as u8;
    let s = ((w >> 4u16) & 0xF) as u8;
    assert(((v as u16) & 0x3) | (((t as u16) & 0x3) << 2u16) | (((s as u16) & 0xF) << 4u16)
        | (((w >> 8u16) & 1) << 8u16) | (((w >> 9u16) & 1) << 9u16) | (((w >> 10u16) & 1) << 10u16) | (((w >> 11u16) & 1) << 11u16)
        | (((w >> 12u16) & 1) << 12u16) | (((w >> 13u16) & 1) << 13u16) | (((w >> 14u16) & 1) << 14u16) | (((w >> 15u16) & 1) << 15u16) == w)
        by (bit_vector)
        requires
            v == (w & 0x3) as u8, t == ((w >> 2u16) & 0x3) as u8, s == ((w >> 4u16) & 0xF) as u8;
}

/// The fixed part of a MAC header.
pub struct MacHeader {
    pub frame_control: [u8; 2],
    pub duration: u16,
    pub addr1: [u8; 6],
    pub addr2: [u8; 6],
    pub addr3: [u8; 6],
    pub seq_ctrl: u16,
}

impl MacHeader {
    /// A header with the packed field, zero duration and sequence, and the
    /// three addresses.
    pub fn new(fc: FrameControl, dst: [u8; 6], src: [u8; 6], bssid: [u8; 6]) -> (r: Self)
        ensures
            r.frame_control@ == seq![fc_word(fc) as u8, (fc_word(fc) >> 8u16) as u8],
            r.duration == 0 && r.seq_ctrl == 0,
            r.addr1 == dst && r.addr2 == src && r.addr3 == bssid,
    {
        Self { frame_control: fc.to_bytes(), duration: 0, addr1: dst, addr2: src, addr3: bssid, seq_ctrl: 0 }
    }

    /// The header as sent: field, duration, three addresses, sequence.
    pub open spec fn image(&self) -> Seq<u8> {
        self.frame_control@ + seq![self.duration as u8, (self.duration / 256) as u8] + self.addr1@ + self.addr2@
            + self.addr3@ + seq![self.seq_ctrl as u8, (self.seq_ctrl / 256) as u8]
    }

    fn write(&self, frame: &mut Vec<u8>)
        ensures
            final(frame)@ == old(frame)@ + self.image(),
    {
        extend_bytes(frame, self.frame_control.as_slice());
        frame.push(self.duration as u8);
        frame.push((self.duration / 256) as u8);
        extend_bytes(frame, self.addr1.as_slice());
        extend_bytes(frame, self.addr2.as_slice());
        extend_bytes(frame, self.addr3.as_slice());
        frame.push(self.seq_ctrl as u8);
        frame.push((self.seq_ctrl / 256) as u8);
        assert(final(frame)@ =~= old(frame)@ + self.image());
    }
}

pub struct BeaconFrame {
    pub timestamp: u64,
    pub beacon_interval: u16,
    pub capability_info: u16,
    pub ssid: String,
    pub supported_rates: Vec<u8>,
    pub channel: u8,
    pub rsn_ie: Option<Vec<u8>>,
}

pub struct ProbeRequest {
    pub ssid: Option<String>,
    pub supported_rates: Vec<u8>,
    pub extended_rates: Option<Vec<u8>>,
}

pub struct AuthFrame {
    pub algorithm: u16,
    pub seq_num: u16,
    pub status_code: u16,
    pub challenge_text: Option<Vec<u8>>,
}

pub struct AssocRequest {
    pub capability_info: u16,
    pub listen_interval: u16,
    pub ssid: String,
    pub supported_rates: Vec<u8>,
    pub rsn_ie: Option<Vec<u8>>,
}

#[derive(Debug, Clone, Copy, PartialEq, Eq, Structural)]
pub enum StationState {
    Idle,
    Scanning,
    Authenticating,
    Associating,
    Associated,
    Disconnected,
}

/// This station: its address, where it is in joining a network, and its
/// traffic counters.
pub struct Station {
    pub mac_addr: [u8; 6],
    pub state: StationState,
    pub bssid: Option<[u8; 6]>,
    pub ssid: Option<String>,
    pub channel: Option<Channel>,
    pub signal_strength: i8,
    pub tx_rate: u32,
    pub rx_rate: u32,
    pub tx_packets: u64,
    pub rx_packets: u64,
    pub tx_bytes: u64,
    pub rx_bytes: u64,
}

impl Station {
    /// An idle station at `mac_addr`, with no network and zero counters.
    pub fn new(mac_addr: [u8; 6]) -> (r: Self)
        ensures
            r.mac_addr == mac_addr,
            r.state == StationState::Idle,
            r.bssid is None && r.ssid is None && r.channel is None,
            r.signal_strength == -100,
            r.tx_rate == 0 && r.rx_rate == 0,
            r.tx_packets == 0 && r.rx_packets == 0 && r.tx_bytes == 0 && r.rx_bytes == 0,
    {
        Self {
            mac_addr,
            state: StationState::Idle,
            bssid: None,
            ssid: None,
            channel: None,
            signal_strength: -100,
            tx_rate: 0,
            rx_rate: 0,
            tx_packets: 0,
            rx_packets: 0,
            tx_bytes: 0,
            rx_bytes: 0,
        }
    }
}

/// `a + b` wrapping at 2^64.
pub open spec fn wrap64(a: u64, b: u64) -> u64 {
    ((a + b) % 0x1_0000_0000_0000_0000) as u64
}

/// `a + 1` wrapping at 2^32.
pub open spec fn wrap32_inc(a: u32) -> u32 {
    if a == u32::MAX { 0 } else { (a + 1) as u32 }
}

/// A transmit queue holding at most `max_len` frames, counting those it
/// turns away.
pub struct TxQueue {
    pub queue_id: usize,
    pub frames: VecDeque<Vec<u8>>,
    pub max_len: usize,
    pub dropped: u32,
}

impl TxQueue {
    pub fn new(queue_id: usize, max_len: usize) -> (r: Self)
        ensures
            r.queue_id == queue_id,
            r.frames@.len() == 0,
            r.max_len == max_len,
            r.dropped == 0,
    {
        Self { queue_id, frames: VecDeque::new(), max_len, dropped: 0 }
    }

    /// Appends `frame`, unless the queue is full: then the frame is counted
    /// as dropped (the counter wraps) and the result is the error.
    pub fn enqueue(&mut self, frame: Vec<u8>) -> (r: Result<(), ()>)
        ensures
            old(self).frames@.len() >= old(self).max_len ==> r is Err && final(self).frames@ == old(self).frames@
                && final(self).dropped == wrap32_inc(old(self).dropped),
            old(self).frames@.len() < old(self).max_len ==> r is Ok && final(self).frames@ == old(self).frames@.push(frame)
                && final(self).dropped == old(self).dropped,
            final(self).max_len == old(self).max_len,
            final(self).queue_id == old(self).queue_id,
    {
        if self.frames.len() >= self.max_len {
            self.dropped = self.dropped.wrapping_add(1);
            return Err(());
        }
        self.frames.push_back(frame);
        Ok(())
    }

    /// Takes the oldest frame.
    pub fn dequeue(&mut self) -> (r: Option<Vec<u8>>)
        ensures
            old(self).frames@.len() == 0 ==> r is None && final(self).frames@ == old(self).frames@,
            old(self).frames@.len() > 0 ==> r == Some(old(self).frames@[0]) && final(self).frames@ == old(self).frames@.drop_first(),
            final(self).max_len == old(self).max_len,
            final(self).dropped == old(self).dropped,
            final(self).queue_id == old(self).queue_id,
    {
        self.frames.pop_front()
    }
}

#[derive(Debug, Clone, Copy, PartialEq, Eq, Structural)]
pub struct RateInfo {
    pub bitrate: u32,
    pub mcs_index: Option<u8>,
    pub nss: u8,
    pub bandwidth: ChannelWidth,
    pub guard_interval: u16,
}

/// Picks the transmit rate from the share of frames that got through.
pub struct RateControl {
    pub current_rate: RateInfo,
    pub rates: Vec<RateInfo>,
    pub tx_success: u32,
    pub tx_failed: u32,
    pub last_update: u64,
}

/// The legacy rates, in the order the controller steps through them.
pub open spec fn legacy_bitrates() -> Seq<u32> {
    seq![1000u32, 2000, 5500, 11000, 6000, 9000, 12000, 18000, 24000, 36000, 48000, 54000]
}

/// A 20 MHz single-stream rate of `bitrate`.
pub open spec fn legacy_rate(bitrate: u32) -> RateInfo {
    RateInfo { bitrate, mcs_index: None, nss: 1, bandwidth: ChannelWidth::Width20, guard_interval: 800 }
}

/// The first index from `i` on whose rate has `bitrate` and that has a
/// next rate.
pub open spec fn step_up_index(rates: Seq<RateInfo>, bitrate: u32, i: int) -> Option<int>
    decreases rates.len() - i,
{
    if i < 0 || i >= rates.len() {
        None
    } else if rates[i].bitrate == bitrate && i < rates.len() - 1 {
        Some(i)
    } else {
        step_up_index(rates, bitrate, i + 1)
    }
}

/// The first index from `i` on whose rate has `bitrate` and that has a
/// previous rate.
pub open spec fn step_down_index(rates: Seq<RateInfo>, bitrate: u32, i: int) -> Option<int>
    decreases rates.len() - i,
{
    if i < 0 || i >= rates.len() {
        None
    } else if rates[i].bitrate == bitrate && i > 0 {
        Some(i)
    } else {
        step_down_index(rates, bitrate, i + 1)
    }
}

/// The rate one step up from `cur`, or `cur` at the top.
pub open spec fn rate_up(rates: Seq<RateInfo>, cur: RateInfo) -> RateInfo {
    match step_up_index(rates, cur.bitrate, 0) {
        Some(i) => rates[i + 1],
        None => cur,
    }
}

/// The rate one step down from `cur`, or `cur` at the bottom.
pub open spec fn rate_down(rates: Seq<RateInfo>, cur: RateInfo) -> RateInfo {
    match step_down_index(rates, cur.bitrate, 0) {
        Some(i) => rates[i - 1],
        None => cur,
    }
}

impl RateControl {
    /// The legacy rates, starting at the lowest, with zero counts.
    pub fn new() -> (r: Self)
        ensures
            r.rates@ == legacy_bitrates().map_values(|b: u32| legacy_rate(b)),
            r.current_rate == legacy_rate(1000),
            r.tx_success == 0 && r.tx_failed == 0 && r.last_update == 0,
    {
        let bitrates: [u32; 12] = [1000, 2000, 5500, 11000, 6000, 9000, 12000, 18000, 24000, 36000, 48000, 54000];
        let mut rates: Vec<RateInfo> = Vec::new();
        let mut i: usize = 0;
        while i < 12
            invariant
                i <= 12,
                bitrates@ == legacy_bitrates(),
                rates@ =~= bitrates@.take(i as int).map_values(|b: u32| legacy_rate(b)),
            decreases 12 - i,
        {
            rates.push(RateInfo { bitrate: bitrates[i], mcs_index: None, nss: 1, bandwidth: ChannelWidth::Width20, guard_interval: 800 });
            i = i + 1;
        }
        assert(bitrates@.take(12) =~= bitrates@);
        let current_rate = rates[0];
        Self { current_rate, rates, tx_success: 0, tx_failed: 0, last_update: 0 }
    }

    /// Counts one transmission. Once a hundred have been counted, a success
    /// share above 90% moves one rate up and one below 60% one rate down,
    /// and the counts start again.
    pub fn update_rate(&mut self, success: bool)
        requires
            old(self).tx_success as int + old(self).tx_failed as int + 1 <= u32::MAX,
            (old(self).tx_success as int + (if success { 1int } else { 0 })) * 100 <= u32::MAX
                || old(self).tx_success as int + old(self).tx_failed as int + 1 < 100,
        ensures
            ({
                let s = old(self).tx_success + (if success { 1int } else { 0 });
                let f = old(self).tx_failed + (if success { 0int } else { 1 });
                &&& final(self).rates == old(self).rates
                &&& final(self).last_update == old(self).last_update
                &&& (s + f < 100 ==> final(self).tx_success == s && final(self).tx_failed == f
                    && final(self).current_rate == old(self).current_rate)
                &&& (s + f >= 100 ==> final(self).tx_success == 0 && final(self).tx_failed == 0
                    && final(self).current_rate == (if s * 100 / (s + f) > 90 {
                        rate_up(old(self).rates@, old(self).current_rate)
                    } else if s * 100 / (s + f) < 60 {
                        rate_down(old(self).rates@, old(self).current_rate)
                    } else {
                        old(self).current_rate
                    }))
            }),
    {
        if success {
            self.tx_success = self.tx_success + 1;
        } else {
            self.tx_failed = self.tx_failed + 1;
        }
        let success_count = self.tx_success;
        let failed_count = self.tx_failed;
        let total = success_count + failed_count;
        if total >= 100 {
            let success_rate = (success_count * 100) / total;
            if success_rate > 90 {
                self.increase_rate();
            } else if success_rate < 60 {
                self.decrease_rate();
            }
            self.tx_success = 0;
            self.tx_failed = 0;
        }
    }

    fn increase_rate(&mut self)
        ensures
            final(self).current_rate == rate_up(old(self).rates@, old(self).current_rate),
            final(self).rates == old(self).rates,
            final(self).tx_success == old(self).tx_success,
            final(self).tx_failed == old(self).tx_failed,
            final(self).last_update == old(self).last_update,
    {
        let ghost rates = self.rates@;
        let target = self.current_rate.bitrate;
        let mut i: usize = 0;
        while i < self.rates.len()
            invariant
                i <= rates.len(),
                rates == self.rates@,
                target == old(self).current_rate.bitrate,
                self.current_rate == old(self).current_rate,
                self.rates == old(self).rates,
                self.tx_success == old(self).tx_success,
                self.tx_failed == old(self).tx_failed,
                self.last_update == old(self).last_update,
                step_up_index(rates, target, 0) == step_up_index(rates, target, i as int),
            decreases rates.len() - i,
        {
            if self.rates[i].bitrate == target && i < self.rates.len() - 1 {
                self.current_rate = self.rates[i + 1];
                return;
            }
            i = i + 1;
        }
    }

    fn decrease_rate(&mut self)
        ensures
            final(self).current_rate == rate_down(old(self).rates@, old(self).current_rate),
            final(self).rates == old(self).rates,
            final(self).tx_success == old(self).tx_success,
            final(self).tx_failed == old(self).tx_failed,
            final(self).last_update == old(self).last_update,
    {
        let ghost rates = self.rates@;
        let target = self.current_rate.bitrate;
        let mut i: usize = 0;
        while i < self.rates.len()
            invariant
                i <= rates.len(),
                rates == self.rates@,
                target == old(self).current_rate.bitrate,
                self.current_rate == old(self).current_rate,
                self.rates == old(self).rates,
                self.tx_success == old(self).tx_success,
                self.tx_failed == old(self).tx_failed,
                self.last_update == old(self).last_update,
                step_down_index(rates, target, 0) == step_down_index(rates, target, i as int),
            decreases rates.len() - i,
        {
            if self.rates[i].bitrate == target && i > 0 {
                self.current_rate = self.rates[i - 1];
                return;
            }
            i = i + 1;
        }
    }
}

#[derive(Debug, Clone, Copy, PartialEq, Eq, Structural)]
pub enum PowerSaveMode {
    Active,
    LightSleep,
    DeepSleep,
}

/// When the radio may sleep.
pub struct PowerManagement {
    pub mode: PowerSaveMode,
    pub dtim_period: u8,
    pub listen_interval: u16,
    pub last_beacon: u64,
    pub buffered_frames: VecDeque<Vec<u8>>,
}

impl PowerManagement {
    /// Awake, with a period and listen interval of one.
    pub fn new() -> (r: Self)
        ensures
            r.mode == PowerSaveMode::Active,
            r.dtim_period == 1 && r.listen_interval == 1 && r.last_beacon == 0,
            r.buffered_frames@.len() == 0,
    {
        Self { mode: PowerSaveMode::Active, dtim_period: 1, listen_interval: 1, last_beacon: 0, buffered_frames: VecDeque::new() }
    }

    pub fn enter_power_save(&mut self, mode: PowerSaveMode)
        ensures
            final(self).mode == mode,
            final(self).dtim_period == old(self).dtim_period,
            final(self).listen_interval == old(self).listen_interval,
            final(self).last_beacon == old(self).last_beacon,
            final(self).buffered_frames@ == old(self).buffered_frames@,
    {
        self.mode = mode;
    }

    pub fn exit_power_save(&mut self)
        ensures
            final(self).mode == PowerSaveMode::Active,
            final(self).dtim_period == old(self).dtim_period,
            final(self).listen_interval == old(self).listen_interval,
            final(self).last_beacon == old(self).last_beacon,
            final(self).buffered_frames@ == old(self).buffered_frames@,
    {
        self.mode = PowerSaveMode::Active;
    }

    /// Whether to wake at `current_time`: always when active; in light sleep
    /// once a listen interval (in units of 100) has passed since the last
    /// beacon; in deep sleep once that many DTIM periods have.
    pub fn should_wake(&self, current_time: u64) -> (r: bool)
        requires
            current_time >= self.last_beacon,
        ensures
            r == match self.mode {
                PowerSaveMode::Active => true,
                PowerSaveMode::LightSleep => current_time - self.last_beacon >= self.listen_interval * 100,
                PowerSaveMode::DeepSleep => current_time - self.last_beacon >= self.dtim_period * self.listen_interval * 100,
            },
    {
        match self.mode {
            PowerSaveMode::Active => true,
            PowerSaveMode::LightSleep => (current_time - self.last_beacon) >= (self.listen_interval as u64 * 100),
            PowerSaveMode::DeepSleep => {
                assert(self.dtim_period as u64 * self.listen_interval as u64 <= 255 * 65535) by (nonlinear_arith)
                    requires self.dtim_period <= 255, self.listen_interval <= 65535;
                (current_time - self.last_beacon) >= (self.dtim_period as u64 * self.listen_interval as u64 * 100)
            },
        }
    }
}

/// Contention window and backoff for channel access.
pub struct CsmaCA {
    pub cw_min: u32,
    pub cw_max: u32,
    pub current_cw: u32,
    pub backoff_counter: u32,
    pub retry_count: u32,
    pub max_retries: u32,
}

impl CsmaCA {
    /// A window from 15 to 1023 slots, at most seven retries.
    pub fn new() -> (r: Self)
        ensures
            r.cw_min == 15 && r.cw_max == 1023 && r.current_cw == 15,
            r.backoff_counter == 0 && r.retry_count == 0 && r.max_retries == 7,
    {
        Self { cw_min: 15, cw_max: 1023, current_cw: 15, backoff_counter: 0, retry_count: 0, max_retries: 7 }
    }

    /// Back to the smallest window with no backoff and no retries.
    pub fn reset(&mut self)
        ensures
            final(self).current_cw == old(self).cw_min,
            final(self).backoff_counter == 0 && final(self).retry_count == 0,
            final(self).cw_min == old(self).cw_min && final(self).cw_max == old(self).cw_max,
            final(self).max_retries == old(self).max_retries,
    {
        self.current_cw = self.cw_min;
        self.backoff_counter = 0;
        self.retry_count = 0;
    }

    /// Counts a retry; while retries remain, the window doubles (plus one,
    /// up to the largest) and the backoff is half the new window, rounded
    /// up.
    pub fn collision(&mut self)
        requires
            old(self).retry_count < u32::MAX,
            old(self).retry_count + 1 <= old(self).max_retries ==> old(self).current_cw as int * 2 + 1 <= u32::MAX,
            old(self).cw_max < u32::MAX,
        ensures
            final(self).retry_count == old(self).retry_count + 1,
            final(self).retry_count <= old(self).max_retries ==> {
                let cw = if old(self).current_cw * 2 + 1 < old(self).cw_max { old(self).current_cw * 2 + 1 } else { old(self).cw_max as int };
                &&& final(self).current_cw == cw
                &&& final(self).backoff_counter == (cw + 1) / 2
            },
            final(self).retry_count > old(self).max_retries ==> final(self).current_cw == old(self).current_cw
                && final(self).backoff_counter == old(self).backoff_counter,
            final(self).cw_min == old(self).cw_min && final(self).cw_max == old(self).cw_max,
            final(self).max_retries == old(self).max_retries,
    {
        self.retry_count = self.retry_count + 1;
        if self.retry_count <= self.max_retries {
            let doubled = self.current_cw * 2 + 1;
            self.current_cw = if doubled < self.cw_max { doubled } else { self.cw_max };
            self.backoff_counter = self.random_backoff();
        }
    }

    /// A success resets the window (see `reset`).
    pub fn success(&mut self)
        ensures
            final(self).current_cw == old(self).cw_min,
            final(self).backoff_counter == 0 && final(self).retry_count == 0,
            final(self).cw_min == old(self).cw_min && final(self).cw_max == old(self).cw_max,
            final(self).max_retries == old(self).max_retries,
    {
        self.reset();
    }

    pub fn can_retry(&self) -> (r: bool)
        ensures
            r == (self.retry_count < self.max_retries),
    {
        self.retry_count < self.max_retries
    }

    fn random_backoff(&self) -> (r: u32)
        requires
            self.current_cw < u32::MAX,
        ensures
            r == (self.current_cw + 1) / 2,
    {
        (self.current_cw + 1) / 2
    }

    /// Counts one slot down; true once the backoff has run out.
    pub fn decrement_backoff(&mut self) -> (r: bool)
        ensures
            r == (old(self).backoff_counter == 0),
            final(self).backoff_counter == (if old(self).backoff_counter > 0 { (old(self).backoff_counter - 1) as u32 } else { 0 }),
            final(self).current_cw == old(self).current_cw,
            final(self).retry_count == old(self).retry_count,
            final(self).cw_min == old(self).cw_min && final(self).cw_max == old(self).cw_max,
            final(self).max_retries == old(self).max_retries,
    {
        if self.backoff_counter > 0 {
            self.backoff_counter = self.backoff_counter - 1;
            false
        } else {
            true
        }
    }
}

/// The LLC/SNAP header each A-MSDU subframe starts with.
pub open spec fn snap_header() -> Seq<u8> {
    seq![0xAAu8, 0xAA, 0x03, 0x00, 0x00, 0x00]
}

/// One A-MSDU subframe: the SNAP header, the length big-endian (cut to 16
/// bits), the frame, and zero padding to a multiple of four bytes of the
/// frame.
pub open spec fn amsdu_subframe(f: Seq<u8>) -> Seq<u8> {
    let n = (f.len() % 65536) as u16;
    snap_header() + seq![(n / 256) as u8, (n % 256) as u8] + f
        + Seq::new(((4 - f.len() % 4) % 4) as nat, |i: int| 0u8)
}

/// The aggregate of `frames` from `i` on, after `acc`: each subframe is
/// added while the bytes so far, the frame and 14 stay within `max`.
pub open spec fn amsdu_from(frames: Seq<Seq<u8>>, max: nat, i: int, acc: Seq<u8>) -> Seq<u8>
    decreases frames.len() - i,
{
    if i < 0 || i >= frames.len() {
        acc
    } else if acc.len() + frames[i].len() + 14 > max {
        acc
    } else {
        amsdu_from(frames, max, i + 1, acc + amsdu_subframe(frames[i]))
    }
}

/// Packs frames into A-MSDUs.
pub struct Aggregation {
    pub ampdu_enabled: bool,
    pub amsdu_enabled: bool,
    pub max_ampdu_length: u32,
    pub max_amsdu_length: u32,
    pub pending_frames: VecDeque<Vec<u8>>,
}

impl Aggregation {
    /// Both kinds on, with limits of 65535 and 7935 bytes.
    pub fn new() -> (r: Self)
        ensures
            r.ampdu_enabled && r.amsdu_enabled,
            r.max_ampdu_length == 65535 && r.max_amsdu_length == 7935,
            r.pending_frames@.len() == 0,
    {
        Self { ampdu_enabled: true, amsdu_enabled: true, max_ampdu_length: 65535, max_amsdu_length: 7935, pending_frames: VecDeque::new() }
    }

    /// Packs the leading frames that fit into one A-MSDU (see `amsdu_from`).
    pub fn aggregate_amsdu(&mut self, frames: Vec<Vec<u8>>) -> (r: Vec<u8>)
        ensures
            r@ == amsdu_from(frames@.map_values(|f: Vec<u8>| f@), old(self).max_amsdu_length as nat, 0, Seq::empty()),
            *final(self) == *old(self),
    {
        let ghost fs = frames@.map_values(|f: Vec<u8>| f@);
        let mut aggregated: Vec<u8> = Vec::new();
        let mut i: usize = 0;
        while i < frames.len()
            invariant
                i <= frames@.len(),
                fs == frames@.map_values(|f: Vec<u8>| f@),
                aggregated@.len() <= self.max_amsdu_length + 3,
                amsdu_from(fs, self.max_amsdu_length as nat, i as int, aggregated@)
                    == amsdu_from(fs, self.max_amsdu_length as nat, 0, Seq::empty()),
            decreases frames@.len() - i,
        {
            let frame = &frames[i];
            assert(fs[i as int] == frame@);
            if frame.len() as u64 > self.max_amsdu_length as u64 || aggregated.len() as u64 + frame.len() as u64 + 14 > self.max_amsdu_length as u64 {
                return aggregated;
            }
            let ghost before = aggregated@;
            let header: [u8; 6] = [0xAA, 0xAA, 0x03, 0x00, 0x00, 0x00];
            extend_bytes(&mut aggregated, header.as_slice());
            let n = (frame.len() % 65536) as u16;
            aggregated.push((n / 256) as u8);
            aggregated.push((n % 256) as u8);
            extend_bytes(&mut aggregated, frame.as_slice());
            let padding = (4 - (frame.len() % 4)) % 4;
            let mut k: usize = 0;
            let ghost mid = aggregated@;
            while k < padding
                invariant
                    k <= padding,
                    aggregated@ == mid + Seq::new(k as nat, |j: int| 0u8),
                decreases padding - k,
            {
                aggregated.push(0);
                k = k + 1;
                assert(aggregated@ =~= mid + Seq::new(k as nat, |j: int| 0u8));
            }
            assert(header@ =~= snap_header());
            assert(aggregated@ =~= before + amsdu_subframe(frame@));
            i = i + 1;
        }
        aggregated
    }
}

/// The management header of `subtype` from this station.
pub open spec fn mgmt_header(subtype: u8, addr1: Seq<u8>, addr2: Seq<u8>, addr3: Seq<u8>) -> Seq<u8> {
    let w = fc_word(FrameControl { version: 0, frame_type: 0, subtype, to_ds: false, from_ds: false, more_frag: false,
        retry: false, pwr_mgmt: false, more_data: false, protected: false, order: false });
    seq![w as u8, (w >> 8u16) as u8] + seq![0u8, 0] + addr1 + addr2 + addr3 + seq![0u8, 0]
}

/// The supported-rates element every request carries.
pub open spec fn rates_element() -> Seq<u8> {
    seq![1u8, 8, 0x02, 0x04, 0x0B, 0x16, 0x0C, 0x12, 0x18, 0x24]
}

/// The SSID element: its length cut to eight bits, then the bytes.
pub open spec fn ssid_element(ssid: Seq<u8>) -> Seq<u8> {
    seq![0u8, (ssid.len() % 256) as u8] + ssid
}

/// The broadcast address.
pub open spec fn broadcast_addr() -> Seq<u8> {
    seq![0xFFu8, 0xFF, 0xFF, 0xFF, 0xFF, 0xFF]
}

/// The MAC layer of one station.
pub struct Mac80211 {
    pub station: Station,
    pub tx_queues: Vec<TxQueue>,
    pub rate_control: RateControl,
    pub power_mgmt: PowerManagement,
    pub csma_ca: CsmaCA,
    pub aggregation: Aggregation,
    pub sequence_number: u32,
}

fn push_rates_element(frame: &mut Vec<u8>)
    ensures
        final(frame)@ == old(frame)@ + rates_element(),
{
    let rates: [u8; 10] = [1, 8, 0x02, 0x04, 0x0B, 0x16, 0x0C, 0x12, 0x18, 0x24];
    extend_bytes(frame, rates.as_slice());
    assert(rates@ =~= rates_element());
}

fn push_ssid_element(frame: &mut Vec<u8>, ssid: &str)
    ensures
        final(frame)@ == old(frame)@ + ssid_element(ssid.spec_bytes()),
{
    let b = ssid.as_bytes();
    frame.push(0);
    frame.push((b.len() % 256) as u8);
    extend_bytes(frame, b);
    assert(final(frame)@ =~= old(frame)@ + ssid_element(ssid.spec_bytes()));
}

impl Mac80211 {
    /// An idle station at `mac_addr` with four transmit queues of 256
    /// frames and fresh rate, power, backoff and aggregation state.
    pub fn new(mac_addr: [u8; 6]) -> (r: Self)
        ensures
            r.station.mac_addr == mac_addr,
            r.station.state == StationState::Idle,
            r.tx_queues@.len() == 4,
            forall|i: int| 0 <= i < 4 ==> (#[trigger] r.tx_queues@[i]).queue_id == i && r.tx_queues@[i].max_len == 256
                && r.tx_queues@[i].frames@.len() == 0 && r.tx_queues@[i].dropped == 0,
            r.sequence_number == 0,
    {
        let mut tx_queues: Vec<TxQueue> = Vec::new();
        let mut i: usize = 0;
        while i < 4
            invariant
                i <= 4,
                tx_queues@.len() == i,
                forall|j: int| 0 <= j < i ==> (#[trigger] tx_queues@[j]).queue_id == j && tx_queues@[j].max_len == 256
                    && tx_queues@[j].frames@.len() == 0 && tx_queues@[j].dropped == 0,
            decreases 4 - i,
        {
            tx_queues.push(TxQueue::new(i, 256));
            i = i + 1;
        }
        Self {
            station: Station::new(mac_addr),
            tx_queues,
            rate_control: RateControl::new(),
            power_mgmt: PowerManagement::new(),
            csma_ca: CsmaCA::new(),
            aggregation: Aggregation::new(),
            sequence_number: 0,
        }
    }

    pub fn start_scan(&mut self)
        ensures
            final(self).station.state == StationState::Scanning,
            final(self).station.mac_addr == old(self).station.mac_addr,
            final(self).sequence_number == old(self).sequence_number,
    {
        self.station.state = StationState::Scanning;
    }

    /// Beacons are not recorded: nothing changes.
    pub fn process_beacon(&mut self, beacon: BeaconFrame, rssi: i8)
        ensures
            *final(self) == *old(self),
    {
    }

    /// Starts joining `ssid` at `bssid`: the station authenticates next.
    pub fn connect(&mut self, ssid: String, bssid: [u8; 6])
        ensures
            final(self).station.state == StationState::Authenticating,
            final(self).station.ssid == Some(ssid),
            final(self).station.bssid == Some(bssid),
            final(self).station.mac_addr == old(self).station.mac_addr,
            final(self).sequence_number == old(self).sequence_number,
    {
        self.station.ssid = Some(ssid);
        self.station.bssid = Some(bssid);
        self.station.state = StationState::Authenticating;
    }

    /// Leaves the network and resets the backoff.
    pub fn disconnect(&mut self)
        ensures
            final(self).station.state == StationState::Disconnected,
            final(self).station.ssid is None && final(self).station.bssid is None,
            final(self).csma_ca.current_cw == old(self).csma_ca.cw_min,
            final(self).csma_ca.backoff_counter == 0 && final(self).csma_ca.retry_count == 0,
            final(self).station.mac_addr == old(self).station.mac_addr,
            final(self).sequence_number == old(self).sequence_number,
    {
        self.station.state = StationState::Disconnected;
        self.station.ssid = None;
        self.station.bssid = None;
        self.csma_ca.reset();
    }

    /// A broadcast probe request: the header, the SSID element (empty
    /// without a name), and the rates element.
    pub fn create_probe_request(&self, ssid: Option<&str>) -> (r: Vec<u8>)
        ensures
            r@ == mgmt_header(4, broadcast_addr(), self.station.mac_addr@, broadcast_addr())
                + (match ssid { Some(s) => ssid_element(s.spec_bytes()), None => seq![0u8, 0] })
                + rates_element(),
    {
        let fc = FrameControl::new(FrameType::Management, management_subtype_code(ManagementSubtype::ProbeRequest));
        let mut frame: Vec<u8> = Vec::new();
        let header = MacHeader::new(fc, [0xFF; 6], self.station.mac_addr, [0xFF; 6]);
        header.write(&mut frame);
        let ghost h = frame@;
        assert(h =~= mgmt_header(4, broadcast_addr(), self.station.mac_addr@, broadcast_addr()));
        match ssid {
            Some(s) => push_ssid_element(&mut frame, s),
            None => {
                frame.push(0);
                frame.push(0);
            },
        }
        push_rates_element(&mut frame);
        assert(frame@ =~= h + (match ssid { Some(s) => ssid_element(s.spec_bytes()), None => seq![0u8, 0] }) + rates_element());
        frame
    }

    /// An open-system authentication request to `bssid`: algorithm 0,
    /// sequence 1, status 0.
    pub fn create_auth_frame(&self, bssid: [u8; 6]) -> (r: Vec<u8>)
        ensures
            r@ == mgmt_header(9, bssid@, self.station.mac_addr@, bssid@) + seq![0u8, 0, 1, 0, 0, 0],
    {
        let fc = FrameControl::new(FrameType::Management, management_subtype_code(ManagementSubtype::Auth));
        let mut frame: Vec<u8> = Vec::new();
        let header = MacHeader::new(fc, bssid, self.station.mac_addr, bssid);
        header.write(&mut frame);
        let body: [u8; 6] = [0, 0, 1, 0, 0, 0];
        extend_bytes(&mut frame, body.as_slice());
        assert(frame@ =~= mgmt_header(9, bssid@, self.station.mac_addr@, bssid@) + seq![0u8, 0, 1, 0, 0, 0]);
        frame
    }

    /// An association request to `bssid` for `ssid`: capabilities 0x31,
    /// listen interval 10, the SSID element and the rates element.
    pub fn create_assoc_request(&self, ssid: &str, bssid: [u8; 6]) -> (r: Vec<u8>)
        ensures
            r@ == mgmt_header(0, bssid@, self.station.mac_addr@, bssid@) + seq![0x31u8, 0, 10, 0]
                + ssid_element(ssid.spec_bytes()) + rates_element(),
    {
        let fc = FrameControl::new(FrameType::Management, management_subtype_code(ManagementSubtype::AssocRequest));
        let mut frame: Vec<u8> = Vec::new();
        let header = MacHeader::new(fc, bssid, self.station.mac_addr, bssid);
        header.write(&mut frame);
        let fixed: [u8; 4] = [0x31, 0, 10, 0];
        extend_bytes(&mut frame, fixed.as_slice());
        push_ssid_element(&mut frame, ssid);
        push_rates_element(&mut frame);
        assert(frame@ =~= mgmt_header(0, bssid@, self.station.mac_addr@, bssid@) + seq![0x31u8, 0, 10, 0]
            + ssid_element(ssid.spec_bytes()) + rates_element());
        frame
    }

    /// The next sequence number, in twelve bits; the counter wraps.
    pub fn get_next_sequence(&mut self) -> (r: u16)
        ensures
            r == (old(self).sequence_number as u16) & 0x0FFF,
            final(self).sequence_number == wrap32_inc(old(self).sequence_number),
            final(self).station == old(self).station,
    {
        let seq = self.sequence_number;
        self.sequence_number = self.sequence_number.wrapping_add(1);
        (seq as u16) & 0x0FFF
    }

    /// Queues `data` on queue `queue_id` (see `TxQueue::enqueue`), counting
    /// it as sent; an unknown queue is the error and changes nothing.
    pub fn transmit(&mut self, data: Vec<u8>, queue_id: usize) -> (r: Result<(), ()>)
        ensures
            queue_id >= old(self).tx_queues@.len() ==> r is Err && *final(self) == *old(self),
            queue_id < old(self).tx_queues@.len() ==> {
                let q = old(self).tx_queues@[queue_id as int];
                &&& final(self).station.tx_packets == wrap64(old(self).station.tx_packets, 1)
                &&& final(self).station.tx_bytes == wrap64(old(self).station.tx_bytes, data@.len() as u64)
                &&& final(self).tx_queues@.len() == old(self).tx_queues@.len()
                &&& (q.frames@.len() >= q.max_len ==> r is Err && final(self).tx_queues@[queue_id as int].frames@ == q.frames@)
                &&& (q.frames@.len() < q.max_len ==> r is Ok && final(self).tx_queues@[queue_id as int].frames@ == q.frames@.push(data))
                &&& forall|k: int| 0 <= k < old(self).tx_queues@.len() && k != queue_id ==> final(self).tx_queues@[k] == old(self).tx_queues@[k]
            },
    {
        if queue_id >= self.tx_queues.len() {
            return Err(());
        }
        self.station.tx_packets = self.station.tx_packets.wrapping_add(1);
        self.station.tx_bytes = self.station.tx_bytes.wrapping_add(data.len() as u64);
        let mut q = self.tx_queues.remove(queue_id);
        let r = q.enqueue(data);
        self.tx_queues.insert(queue_id, q);
        r
    }

    /// Counts a received frame. Frames of 24 bytes or more are then handed
    /// to the handler of their type, none of which changes anything.
    pub fn receive(&mut self, frame: &[u8])
        ensures
            final(self).station.rx_packets == wrap64(old(self).station.rx_packets, 1),
            final(self).station.rx_bytes == wrap64(old(self).station.rx_bytes, frame@.len() as u64),
            final(self).tx_queues == old(self).tx_queues,
            final(self).sequence_number == old(self).sequence_number,
            final(self).station.state == old(self).station.state,
    {
        self.station.rx_packets = self.station.rx_packets.wrapping_add(1);
        self.station.rx_bytes = self.station.rx_bytes.wrapping_add(frame.len() as u64);
        if frame.len() < 24 {
            return;
        }
        let fc = FrameControl::from_bytes([frame[0], frame[1]]);
        if fc.frame_type == 0 {
            self.handle_management_frame(frame, fc.subtype);
        } else if fc.frame_type == 1 {
            self.handle_control_frame(frame, fc.subtype);
        } else if fc.frame_type == 2 {
            self.handle_data_frame(frame, fc.subtype);
        }
    }

    fn handle_management_frame(&mut self, frame: &[u8], subtype: u8)
        ensures
            *final(self) == *old(self),
    {
    }

    fn handle_control_frame(&mut self, frame: &[u8], subtype: u8)
        ensures
            *final(self) == *old(self),
    {
    }

    fn handle_data_frame(&mut self, frame: &[u8], subtype: u8)
        ensures
            *final(self) == *old(self),
    {
    }
}

} // verus!
