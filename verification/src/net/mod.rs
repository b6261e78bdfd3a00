//! Network stack: frames, packets, sockets and the protocol state machines.

pub mod ethernet;
pub mod arp;
pub mod ip;
pub mod icmp;
pub mod udp;
pub mod tcp;
pub mod socket;
pub mod dhcp;
pub mod dns;
pub mod wireless;

use vstd::prelude::*;
use crate::net::arp::ArpCache;
use crate::net::udp::UdpSockets;
use crate::net::tcp::TcpTables;

verus! {

/// The protocols the stack knows about.
#[derive(Debug, Clone, Copy, PartialEq, Eq, Structural)]
pub enum Protocol {
    Ethernet,
    Arp,
    Ipv4,
    Ipv6,
    Icmp,
    Tcp,
    Udp,
}

/// Counters kept by the network stack.
#[derive(Debug, Clone, Copy)]
pub struct NetworkStats {
    pub packets_sent: u64,
    pub packets_received: u64,
    pub bytes_sent: u64,
    pub bytes_received: u64,
    pub errors: u64,
    pub dropped: u64,
}

impl NetworkStats {
    /// All counters at zero.
    pub fn new() -> (r: Self)
        ensures
            r.packets_sent == 0,
            r.packets_received == 0,
            r.bytes_sent == 0,
            r.bytes_received == 0,
            r.errors == 0,
            r.dropped == 0,
    {
        Self { packets_sent: 0, packets_received: 0, bytes_sent: 0, bytes_received: 0, errors: 0, dropped: 0 }
    }
}

/// Counts one sent packet of `bytes` bytes.
pub fn update_stats_sent(stats: &mut NetworkStats, bytes: usize)
    requires
        old(stats).packets_sent < u64::MAX,
        old(stats).bytes_sent + bytes <= u64::MAX,
    ensures
        final(stats).packets_sent == old(stats).packets_sent + 1,
        final(stats).bytes_sent == old(stats).bytes_sent + bytes,
        final(stats).packets_received == old(stats).packets_received,
        final(stats).bytes_received == old(stats).bytes_received,
        final(stats).errors == old(stats).errors,
        final(stats).dropped == old(stats).dropped,
{
    stats.packets_sent = stats.packets_sent + 1;
    stats.bytes_sent = stats.bytes_sent + bytes as u64;
}

/// Counts one received packet of `bytes` bytes.
pub fn update_stats_received(stats: &mut NetworkStats, bytes: usize)
    requires
        old(stats).packets_received < u64::MAX,
        old(stats).bytes_received + bytes <= u64::MAX,
    ensures
        final(stats).packets_received == old(stats).packets_received + 1,
        final(stats).bytes_received == old(stats).bytes_received + bytes,
        final(stats).packets_sent == old(stats).packets_sent,
        final(stats).bytes_sent == old(stats).bytes_sent,
        final(stats).errors == old(stats).errors,
        final(stats).dropped == old(stats).dropped,
{
    stats.packets_received = stats.packets_received + 1;
    stats.bytes_received = stats.bytes_received + bytes as u64;
}

/// Counts one error.
pub fn update_stats_error(stats: &mut NetworkStats)
    requires
        old(stats).errors < u64::MAX,
    ensures
        *final(stats) == (NetworkStats { errors: (old(stats).errors + 1) as u64, ..*old(stats) }),
{
    stats.errors = stats.errors + 1;
}

/// Counts one dropped packet.
pub fn update_stats_dropped(stats: &mut NetworkStats)
    requires
        old(stats).dropped < u64::MAX,
    ensures
        *final(stats) == (NetworkStats { dropped: (old(stats).dropped + 1) as u64, ..*old(stats) }),
{
    stats.dropped = stats.dropped + 1;
}

// ---------------------------------------------------------------------------
// Byte order. The kernel runs on a little-endian machine, so converting a
// value to network order swaps its bytes.
// ---------------------------------------------------------------------------

/// A 16-bit value with its two bytes exchanged.
pub open spec fn swap16(x: u16) -> u16 {
    ((x % 256) * 256 + x / 256) as u16
}

/// A 32-bit value with its four bytes in reverse order.
pub open spec fn swap32(x: u32) -> u32 {
    ((x % 256) * 0x1000000 + ((x / 256) % 256) * 0x10000 + ((x / 0x10000) % 256) * 256 + x / 0x1000000) as u32
}

/// The big-endian encoding of a 16-bit value.
pub open spec fn be_bytes16(x: u16) -> Seq<u8> {
    seq![(x / 256) as u8, (x % 256) as u8]
}

/// The big-endian encoding of a 32-bit value.
pub open spec fn be_bytes32(x: u32) -> Seq<u8> {
    seq![(x / 0x1000000) as u8, ((x / 0x10000) % 256) as u8, ((x / 256) % 256) as u8, (x % 256) as u8]
}

/// The 16-bit value whose big-endian encoding is `hi`, `lo`.
pub open spec fn be16(hi: u8, lo: u8) -> u16 {
    (hi * 256 + lo) as u16
}

/// The 32-bit value whose big-endian encoding is `a`, `b`, `c`, `d`.
pub open spec fn be32(a: u8, b: u8, c: u8, d: u8) -> u32 {
    (a * 0x1000000 + b * 0x10000 + c * 256 + d) as u32
}

/// Converts a 16-bit value between host and network order.
pub(crate) fn to_be16(x: u16) -> (r: u16)
    ensures
        r == swap16(x),
{
    let r = (x << 8u16) | (x >> 8u16);
    assert(r == swap16(x)) by (bit_vector)
        requires r == (x << 8u16) | (x >> 8u16);
    r
}

/// Converts a 32-bit value between host and network order.
pub(crate) fn to_be32(x: u32) -> (r: u32)
    ensures
        r == swap32(x),
{
    let r = ((x & 0xff) << 24u32) | (((x >> 8u32) & 0xff) << 16u32) | (((x >> 16u32) & 0xff) << 8u32) | (x >> 24u32);
    assert(r == swap32(x)) by (bit_vector)
        requires r == ((x & 0xff) << 24u32) | (((x >> 8u32) & 0xff) << 16u32) | (((x >> 16u32) & 0xff) << 8u32) | (x >> 24u32);
    r
}

/// Reads a big-endian 16-bit value.
pub(crate) fn read_be16(hi: u8, lo: u8) -> (r: u16)
    ensures
        r == be16(hi, lo),
{
    (hi as u16) * 256 + (lo as u16)
}

/// Reads a big-endian 32-bit value.
pub(crate) fn read_be32(a: u8, b: u8, c: u8, d: u8) -> (r: u32)
    ensures
        r == be32(a, b, c, d),
{
    (a as u32) * 0x1000000 + (b as u32) * 0x10000 + (c as u32) * 256 + (d as u32)
}

/// Appends the big-endian encoding of `x`.
pub(crate) fn push_be16(v: &mut Vec<u8>, x: u16)
    ensures
        final(v)@ == old(v)@ + be_bytes16(x),
{
    let hi = (x / 256) as u8;
    let lo = (x % 256) as u8;
    v.push(hi);
    v.push(lo);
    assert(final(v)@ =~= old(v)@ + be_bytes16(x));
}

/// Appends the big-endian encoding of `x`.
pub(crate) fn push_be32(v: &mut Vec<u8>, x: u32)
    ensures
        final(v)@ == old(v)@ + be_bytes32(x),
{
    v.push((x / 0x1000000) as u8);
    v.push(((x / 0x10000) % 256) as u8);
    v.push(((x / 256) % 256) as u8);
    v.push((x % 256) as u8);
    assert(final(v)@ =~= old(v)@ + be_bytes32(x));
}

/// Appends a slice of bytes.
pub(crate) fn extend_bytes(v: &mut Vec<u8>, s: &[u8])
    ensures
        final(v)@ == old(v)@ + s@,
{
    let ghost start = v@;
    let mut i: usize = 0;
    while i < s.len()
        invariant
            0 <= i <= s@.len(),
            v@ == start + s@.subrange(0, i as int),
        decreases s@.len() - i,
    {
        v.push(s[i]);
        i = i + 1;
        assert(v@ =~= start + s@.subrange(0, i as int));
    }
    assert(s@.subrange(0, s@.len() as int) =~= s@);
}

// ---------------------------------------------------------------------------
// Internet checksum
// ---------------------------------------------------------------------------

/// The `j`-th big-endian 16-bit word of `s`; a missing last byte counts as zero.
pub open spec fn word_at(s: Seq<u8>, j: int) -> nat {
    (s[2 * j] as nat) * 256 + (if 2 * j + 1 < s.len() { s[2 * j + 1] as nat } else { 0 })
}

/// The sum of the first `n` words of `s`.
pub open spec fn words_sum(s: Seq<u8>, n: nat) -> nat
    decreases n,
{
    if n == 0 { 0 } else { words_sum(s, (n - 1) as nat) + word_at(s, n - 1) }
}

/// The sum of all 16-bit words of `s`, an odd last byte taken as a high byte.
pub open spec fn ones_sum(s: Seq<u8>) -> nat {
    words_sum(s, ((s.len() + 1) / 2) as nat)
}

/// Folds the carries above bit 16 back into a sum until it fits in 16 bits.
pub open spec fn fold16(x: nat) -> nat
    decreases x,
{
    if x < 65536 {
        x
    } else {
        fold16(x % 65536 + x / 65536)
    }
}

/// The one's complement checksum of a byte sequence.
pub open spec fn internet_checksum(s: Seq<u8>) -> u16 {
    (0xFFFF - fold16(ones_sum(s))) as u16
}

pub proof fn lemma_fold16_bound(x: nat)
    ensures
        fold16(x) < 65536,
    decreases x,
{
    if x >= 65536 {
        lemma_fold16_bound(x % 65536 + x / 65536);
    }
}

pub proof fn lemma_words_sum_bound(s: Seq<u8>, n: nat)
    ensures
        words_sum(s, n) <= 65535 * n,
    decreases n,
{
    if n > 0 {
        lemma_words_sum_bound(s, (n - 1) as nat);
        let j = n - 1;
        assert(s[2 * j] <= 255);
        assert(2 * j + 1 < s.len() ==> s[2 * j + 1] <= 255);
    }
}

/// Adds the 16-bit words of `data` to `sum0`, as the stack's checksum loops do.
pub(crate) fn add_words(data: &[u8], sum0: u32) -> (sum: u32)
    requires
        data@.len() > 0,
        sum0 + ones_sum(data@) <= u32::MAX,
    ensures
        sum == sum0 + ones_sum(data@),
{
    let mut sum = sum0;
    let mut i: usize = 0;
    while i < data.len() - 1
        invariant
            data@.len() > 0,
            i % 2 == 0,
            i <= data@.len(),
            sum == sum0 + words_sum(data@, (i / 2) as nat),
            sum0 + ones_sum(data@) <= u32::MAX,
        decreases data@.len() - i,
    {
        proof {
            assert(words_sum(data@, (i / 2 + 1) as nat) == words_sum(data@, (i / 2) as nat) + word_at(data@, (i / 2) as int));
            lemma_words_sum_mono(data@, (i / 2 + 1) as nat, ((data@.len() + 1) / 2) as nat);
            let a = data@[i as int];
            let b = data@[i + 1];
            assert(((a as u32) << 8u32) | (b as u32) == a * 256 + b) by (bit_vector);
        }
        sum = sum + (((data[i] as u32) << 8u32) | (data[i + 1] as u32));
        i = i + 2;
    }
    if i < data.len() {
        proof {
            assert(words_sum(data@, (i / 2 + 1) as nat) == words_sum(data@, (i / 2) as nat) + word_at(data@, (i / 2) as int));
            lemma_words_sum_mono(data@, (i / 2 + 1) as nat, ((data@.len() + 1) / 2) as nat);
            let a = data@[i as int];
            assert((a as u32) << 8u32 == a * 256) by (bit_vector);
        }
        sum = sum + ((data[i] as u32) << 8u32);
    }
    sum
}

pub proof fn lemma_words_sum_mono(s: Seq<u8>, m: nat, n: nat)
    requires
        m <= n,
    ensures
        words_sum(s, m) <= words_sum(s, n),
    decreases n,
{
    if m < n {
        lemma_words_sum_mono(s, m, (n - 1) as nat);
    }
}

/// Folds the carries of a 32-bit sum into 16 bits.
pub(crate) fn fold_carries(sum0: u32) -> (sum: u32)
    ensures
        sum == fold16(sum0 as nat),
        sum < 65536,
{
    let mut sum = sum0;
    while (sum >> 16u32) != 0
        invariant
            fold16(sum as nat) == fold16(sum0 as nat),
        decreases sum,
    {
        let s = sum;
        assert(((s >> 16u32) != 0 ==> s >= 65536) && (s & 0xFFFF) == s % 65536 && (s >> 16u32) == s / 65536) by (bit_vector);
        sum = (sum & 0xFFFF) + (sum >> 16u32);
    }
    let s = sum;
    assert((s >> 16u32) == 0 ==> s < 65536) by (bit_vector);
    sum
}

/// The one's complement of a folded sum, as a 16-bit value.
pub(crate) fn complement16(sum: u32) -> (r: u16)
    requires
        sum < 65536,
    ensures
        r == 0xFFFF - sum,
{
    let r = !sum as u16;
    assert(r == 0xFFFF - sum) by (bit_vector)
        requires sum < 65536, r == !sum as u16;
    r
}

/// The internet checksum of `data`: the one's complement of the one's
/// complement sum of its 16-bit big-endian words.
pub fn checksum(data: &[u8]) -> (r: u16)
    requires
        data@.len() > 0,
        ones_sum(data@) <= u32::MAX,
    ensures
        r == internet_checksum(data@),
{
    let sum = add_words(data, 0);
    let sum = fold_carries(sum);
    complement16(sum)
}

/// Folding keeps a sum's remainder modulo 65535, and folds a positive sum
/// to a value from 1 to 65535.
pub proof fn lemma_fold16_mod(x: nat)
    ensures
        x == 0 ==> fold16(x) == 0,
        x > 0 ==> 1 <= fold16(x) <= 65535 && fold16(x) % 65535 == x % 65535,
    decreases x,
{
    if x >= 65536 {
        let q = x / 65536;
        let r = x % 65536;
        let y = r + q;
        vstd::arithmetic::div_mod::lemma_fundamental_div_mod(x as int, 65536);
        assert(x == 65535 * q + y);
        assert(q >= 1) by {
            vstd::arithmetic::div_mod::lemma_div_is_ordered(65536, x as int, 65536);
        }
        assert(y < x);
        vstd::arithmetic::div_mod::lemma_mod_multiples_vanish(q as int, y as int, 65535);
        lemma_fold16_mod(y);
    }
}

/// Adding to a sum the complement of its fold makes it fold to 0xFFFF.
pub proof fn lemma_fold_complement(s: nat)
    ensures
        fold16(s) <= 65535,
        fold16((s + (65535 - fold16(s))) as nat) == 65535,
{
    lemma_fold16_mod(s);
    lemma_fold16_bound(s);
    let f = fold16(s);
    let total: nat = (s + (65535 - f)) as nat;
    if s == 0 {
        assert(total == 65535);
    } else {
        assert(total % 65535 == 0) by {
            vstd::arithmetic::div_mod::lemma_fundamental_div_mod(s as int, 65535);
            vstd::arithmetic::div_mod::lemma_fundamental_div_mod(f as int, 65535);
            let k1 = s / 65535;
            let k2 = f / 65535;
            assert(total == 65535 * (k1 - k2 + 1));
            vstd::arithmetic::div_mod::lemma_mod_multiples_vanish(k1 - k2 + 1, 0, 65535);
        }
        lemma_fold16_mod(total);
    }
}

/// A sum plus the one's complement of its fold folds to 0xFFFF.
pub proof fn lemma_complement_closes(s: int, n: nat)
    requires
        s >= 0,
        n == s + ones_complement(s),
    ensures
        fold16(n) == 0xFFFF,
{
    lemma_fold_complement(s as nat);
    lemma_fold16_bound(s as nat);
}

/// Reversing the byte order twice gives the value back.
pub proof fn lemma_swap32_involutive(x: u32)
    ensures
        swap32(swap32(x)) == x,
{
    let y = swap32(x);
    assert(y == ((x % 256) * 0x1000000 + ((x / 256) % 256) * 0x10000 + ((x / 0x10000) % 256) * 256 + x / 0x1000000) as u32);
    assert(((((x % 256) * 0x1000000 + ((x / 256) % 256) * 0x10000 + ((x / 0x10000) % 256) * 256 + x / 0x1000000) as u32) % 256) * 0x1000000
        + (((((x % 256) * 0x1000000 + ((x / 256) % 256) * 0x10000 + ((x / 0x10000) % 256) * 256 + x / 0x1000000) as u32) / 256) % 256) * 0x10000
        + (((((x % 256) * 0x1000000 + ((x / 256) % 256) * 0x10000 + ((x / 0x10000) % 256) * 256 + x / 0x1000000) as u32) / 0x10000) % 256) * 256
        + (((x % 256) * 0x1000000 + ((x / 256) % 256) * 0x10000 + ((x / 0x10000) % 256) * 256 + x / 0x1000000) as u32) / 0x1000000 == x) by (bit_vector);
}

/// The words of an eight-byte header (two bytes, a 16-bit and a 32-bit
/// value big-endian) followed by `data`: the header's four words plus the
/// data's; the 32-bit value read back lowest byte first is its byte swap.
pub proof fn lemma_header8_words(t: u8, co: u8, c: u16, r: u32, data: Seq<u8>)
    ensures
        ({
            let d = seq![t, co] + be_bytes16(c) + be_bytes32(r) + data;
            &&& d.len() >= 8
            &&& d.skip(8) == data
            &&& ones_sum(d) == t * 256 + co + c + r / 65536 + r % 65536 + ones_sum(data)
            &&& le32(d[4], d[5], d[6], d[7]) == swap32(r)
        }),
{
    let d = seq![t, co] + be_bytes16(c) + be_bytes32(r) + data;
    let m = ((data.len() + 1) / 2) as nat;
    assert(d.subrange(8, d.len() as int) =~= data);
    assert(d.skip(8) =~= data);
    lemma_words_sum_shift(d, 8, m);
    assert(((d.len() + 1) / 2) as nat == 4 + m);
    assert(word_at(d, 0) == t * 256 + co);
    assert(word_at(d, 1) == (c / 256) * 256 + c % 256);
    assert((c / 256) * 256 + c % 256 == c) by (nonlinear_arith)
        requires
            c <= 65535;
    assert(word_at(d, 2) == ((r / 0x1000000) as u8) * 256 + (((r / 0x10000) % 256) as u8));
    assert(word_at(d, 3) == (((r / 256) % 256) as u8) * 256 + ((r % 256) as u8));
    assert(((r / 0x1000000) as u8) * 256 + (((r / 0x10000) % 256) as u8) == r / 65536
        && (((r / 256) % 256) as u8) * 256 + ((r % 256) as u8) == r % 65536) by (bit_vector);
    assert(words_sum(d, 0) == 0);
    assert(words_sum(d, 1) == words_sum(d, 0) + word_at(d, 0));
    assert(words_sum(d, 2) == words_sum(d, 1) + word_at(d, 1));
    assert(words_sum(d, 3) == words_sum(d, 2) + word_at(d, 2));
    assert(words_sum(d, 4) == words_sum(d, 3) + word_at(d, 3));
    assert(le32(d[4], d[5], d[6], d[7]) == le32((r / 0x1000000) as u8, ((r / 0x10000) % 256) as u8, ((r / 256) % 256) as u8, (r % 256) as u8));
    assert(le32((r / 0x1000000) as u8, ((r / 0x10000) % 256) as u8, ((r / 256) % 256) as u8, (r % 256) as u8)
        == ((r % 256) * 0x1000000 + ((r / 256) % 256) * 0x10000 + ((r / 0x10000) % 256) * 256 + r / 0x1000000) as u32) by (bit_vector);
}

/// The first `k` words of `s` are the same with bytes appended after an
/// even-length `s`.
proof fn lemma_words_sum_append(s: Seq<u8>, t: Seq<u8>, k: nat)
    requires
        s.len() % 2 == 0,
        2 * k <= s.len(),
    ensures
        words_sum(s + t, k) == words_sum(s, k),
    decreases k,
{
    if k > 0 {
        lemma_words_sum_append(s, t, (k - 1) as nat);
        assert(word_at(s + t, k - 1) == word_at(s, k - 1));
    }
}

/// Appending its checksum, big-endian, to an even-length sequence makes its
/// words fold to 0xFFFF, so that the checksum of the whole is zero.
pub proof fn lemma_checksum_appended(data: Seq<u8>)
    requires
        data.len() % 2 == 0,
    ensures
        fold16(ones_sum(data + be_bytes16(internet_checksum(data)))) == 0xFFFF,
        internet_checksum(data + be_bytes16(internet_checksum(data))) == 0,
{
    let c = internet_checksum(data);
    let t = be_bytes16(c);
    let all = data + t;
    let n = data.len() / 2;
    let s = ones_sum(data);
    assert((data.len() + 1) / 2 == n);
    assert((all.len() + 1) / 2 == n + 1);
    lemma_words_sum_append(data, t, n);
    assert(word_at(all, n as int) == (c / 256) * 256 + c % 256);
    assert(word_at(all, n as int) == c);
    assert(ones_sum(all) == s + c);
    lemma_fold_complement(s);
    lemma_fold16_bound(s);
}

/// The word sum of a sequence is at most 65535 per word.
pub proof fn lemma_ones_sum_bound(s: Seq<u8>)
    ensures
        ones_sum(s) <= 65535 * ((s.len() + 1) / 2),
{
    lemma_words_sum_bound(s, ((s.len() + 1) / 2) as nat);
}

/// Dropping an even number of leading bytes does not increase the word sum.
pub proof fn lemma_ones_sum_suffix(s: Seq<u8>, k: nat)
    requires
        k % 2 == 0,
        k <= s.len(),
    ensures
        ones_sum(s.subrange(k as int, s.len() as int)) <= ones_sum(s),
{
    let t = s.subrange(k as int, s.len() as int);
    lemma_words_sum_shift(s, k, ((t.len() + 1) / 2) as nat);
    lemma_words_sum_split(s, k / 2, ((s.len() + 1) / 2) as nat);
}

pub(crate) proof fn lemma_words_sum_shift(s: Seq<u8>, k: nat, n: nat)
    requires
        k % 2 == 0,
        k <= s.len(),
        n <= (s.len() - k + 1) / 2,
    ensures
        words_sum(s.subrange(k as int, s.len() as int), n) + words_sum(s, k / 2) == words_sum(s, k / 2 + n),
    decreases n,
{
    let t = s.subrange(k as int, s.len() as int);
    if n > 0 {
        lemma_words_sum_shift(s, k, (n - 1) as nat);
        assert(word_at(t, n - 1) == word_at(s, k / 2 + n - 1));
    }
}

proof fn lemma_words_sum_split(s: Seq<u8>, a: nat, b: nat)
    requires
        a <= b,
    ensures
        words_sum(s, a) <= words_sum(s, b),
{
    lemma_words_sum_mono(s, a, b);
}

/// The one's complement of the folded sum `x`, as a 16-bit value.
pub open spec fn ones_complement(x: int) -> u16 {
    (0xFFFF - fold16(x as nat)) as u16
}

/// The 32-bit value read from memory bytes `a`, `b`, `c`, `d` (lowest first).
pub open spec fn le32(a: u8, b: u8, c: u8, d: u8) -> u32 {
    (a + b * 0x100 + c * 0x10000 + d * 0x1000000) as u32
}

/// The first `n` bytes of `s`, or all of them when it is shorter.
pub open spec fn prefix_upto(s: Seq<u8>, n: nat) -> Seq<u8> {
    s.subrange(0, if s.len() < n { s.len() as int } else { n as int })
}

/// Reads a 16-bit value from memory bytes, lowest first.
pub(crate) fn read_le16(lo: u8, hi: u8) -> (r: u16)
    ensures
        r == (lo + hi * 256) as u16,
{
    (lo as u16) + (hi as u16) * 256
}

/// Reads a 32-bit value from memory bytes, lowest first.
pub(crate) fn read_le32(a: u8, b: u8, c: u8, d: u8) -> (r: u32)
    ensures
        r == le32(a, b, c, d),
{
    (a as u32) + (b as u32) * 0x100 + (c as u32) * 0x10000 + (d as u32) * 0x1000000
}

/// The word with high byte `hi` and low byte `lo`, widened to 32 bits.
pub(crate) fn word32(hi: u8, lo: u8) -> (r: u32)
    ensures
        r == hi * 256 + lo,
{
    (hi as u32) * 256 + (lo as u32)
}

/// The high 16 bits of `x`.
pub(crate) fn high_half(x: u32) -> (r: u16)
    ensures
        r == x / 65536,
{
    (x / 65536) as u16
}

/// The low 16 bits of `x`.
pub(crate) fn low_half(x: u32) -> (r: u16)
    ensures
        r == x % 65536,
{
    (x % 65536) as u16
}

/// `hi` and `lo` packed into the high and low halves of a 32-bit value.
pub open spec fn packed_halves(hi: u16, lo: u16) -> u32 {
    (hi * 65536 + lo) as u32
}

/// Packs `hi` and `lo` into one 32-bit value, `hi` in the high half.
pub(crate) fn pack_halves(hi: u16, lo: u16) -> (r: u32)
    ensures
        r == packed_halves(hi, lo),
{
    let r = ((hi as u32) << 16u32) | (lo as u32);
    assert(((hi as u32) << 16u32) | (lo as u32) == hi * 65536 + lo) by (bit_vector);
    r
}

/// The state the stack keeps between packets: counters, the ARP cache, the
/// UDP sockets and the TCP tables.
pub struct NetworkState {
    pub stats: NetworkStats,
    pub arp: ArpCache,
    pub udp: UdpSockets,
    pub tcp: TcpTables,
}

impl NetworkState {
    /// A stack with no sockets, an empty cache and zero counters.
    pub fn new() -> (r: Self)
        ensures
            r.arp.wf(),
            r.arp.entries().len() == 0,
            r.udp@.len() == 0,
            r.tcp.sockets@.len() == 0,
            r.tcp.connections@.len() == 0,
            r.stats == (NetworkStats { packets_sent: 0, packets_received: 0, bytes_sent: 0, bytes_received: 0, errors: 0, dropped: 0 }),
    {
        Self { stats: NetworkStats::new(), arp: ArpCache::new(), udp: std::collections::BTreeMap::new(), tcp: TcpTables::new() }
    }
}

} // verus!
