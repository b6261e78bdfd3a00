//! Media buffers, the pools they come from, and lists of them.

use vstd::prelude::*;
use core::time::Duration;
use crate::multimedia::MediaType;
use crate::multimedia::clock::{duration_from_nanos, nanos_duration};

verus! {

/// The flag bits of a buffer.
#[derive(Debug, Clone, Copy, PartialEq, Eq, Structural)]
pub struct BufferFlags {
    pub bits: u32,
}

pub const BUFFER_LIVE: u32 = 1;
pub const BUFFER_DECODE_ONLY: u32 = 2;
pub const BUFFER_DISCONT: u32 = 4;
pub const BUFFER_RESYNC: u32 = 8;
pub const BUFFER_CORRUPTED: u32 = 16;
pub const BUFFER_MARKER: u32 = 32;
pub const BUFFER_HEADER: u32 = 64;
pub const BUFFER_GAP: u32 = 128;
pub const BUFFER_DROPPABLE: u32 = 256;
pub const BUFFER_DELTA_UNIT: u32 = 512;
pub const BUFFER_TAG_MEMORY: u32 = 1024;
pub const BUFFER_SYNC_AFTER: u32 = 2048;

impl BufferFlags {
    pub fn empty() -> (r: Self)
        ensures
            r.bits == 0,
    {
        BufferFlags { bits: 0 }
    }

    pub fn from_bits(bits: u32) -> (r: Self)
        ensures
            r.bits == bits,
    {
        BufferFlags { bits }
    }
}

/// A buffer of media data: the bytes, their presentation and decoding
/// times, duration and offset, flags and kind, and how many hold the
/// buffer and which pool it came from.
#[derive(Debug)]
pub struct Buffer {
    pub data: Vec<u8>,
    pub pts: Option<i64>,
    pub dts: Option<i64>,
    pub duration: Option<Duration>,
    pub offset: Option<u64>,
    pub flags: BufferFlags,
    pub media_type: MediaType,
    pub metadata: BufferMetadata,
}

/// How many hold a buffer and which pool, by name, it came from.
#[derive(Debug)]
pub struct BufferMetadata {
    pub reference_count: usize,
    pub pool: Option<String>,
}

/// A copy of a byte vector.
fn copy_bytes(v: &Vec<u8>) -> (r: Vec<u8>)
    ensures
        r@ == v@,
{
    let mut r: Vec<u8> = Vec::new();
    let mut i: usize = 0;
    while i < v.len()
        invariant
            i <= v@.len(),
            r@ == v@.take(i as int),
        decreases v@.len() - i,
    {
        r.push(v[i]);
        i = i + 1;
        assert(r@ =~= v@.take(i as int));
    }
    assert(v@.take(i as int) =~= v@);
    r
}

/// `n` zero bytes.
fn zeros(n: usize) -> (r: Vec<u8>)
    ensures
        r@ == Seq::new(n as nat, |i: int| 0u8),
{
    let mut r: Vec<u8> = Vec::new();
    let mut i: usize = 0;
    while i < n
        invariant
            i <= n,
            r@ == Seq::new(i as nat, |k: int| 0u8),
        decreases n - i,
    {
        r.push(0);
        i = i + 1;
        assert(r@ =~= Seq::new(i as nat, |k: int| 0u8));
    }
    r
}

impl Buffer {
    /// How many hold the buffer.
    pub open spec fn holders(&self) -> usize {
        self.metadata.reference_count
    }

    /// The pool the buffer came from, by name.
    pub open spec fn pool_name(&self) -> Option<Seq<char>> {
        match self.metadata.pool { Some(p) => Some(p@), None => None }
    }

    /// A buffer of `data` of this kind, with no times, offset or flags,
    /// held by none and from no pool.
    pub fn new(data: Vec<u8>, media_type: MediaType) -> (r: Self)
        ensures
            r.data == data,
            r.pts is None && r.dts is None && r.duration is None && r.offset is None,
            r.flags.bits == 0,
            r.media_type == media_type,
            r.holders() == 0,
            r.pool_name() is None,
    {
        Buffer {
            data,
            pts: None,
            dts: None,
            duration: None,
            offset: None,
            flags: BufferFlags::empty(),
            media_type,
            metadata: BufferMetadata { reference_count: 0, pool: None },
        }
    }

    pub fn with_pts(self, pts: i64) -> (r: Self)
        ensures
            r == (Buffer { pts: Some(pts), ..self }),
    {
        let mut s = self;
        s.pts = Some(pts);
        s
    }

    pub fn with_dts(self, dts: i64) -> (r: Self)
        ensures
            r == (Buffer { dts: Some(dts), ..self }),
    {
        let mut s = self;
        s.dts = Some(dts);
        s
    }

    pub fn with_duration(self, duration: Duration) -> (r: Self)
        ensures
            r == (Buffer { duration: Some(duration), ..self }),
    {
        let mut s = self;
        s.duration = Some(duration);
        s
    }

    pub fn with_flags(self, flags: BufferFlags) -> (r: Self)
        ensures
            r == (Buffer { flags, ..self }),
    {
        let mut s = self;
        s.flags = flags;
        s
    }

    /// The number of bytes.
    pub fn size(&self) -> (r: usize)
        ensures
            r == self.data@.len(),
    {
        self.data.len()
    }

    /// Whether at most one holds the buffer.
    pub fn is_writable(&self) -> (r: bool)
        ensures
            r == (self.holders() <= 1),
    {
        self.metadata.reference_count <= 1
    }

    /// Makes the buffer one's own: a buffer held by several gets its own
    /// copy of the bytes and one holder.
    pub fn make_writable(&mut self) -> (r: Result<(), BufferError>)
        ensures
            r is Ok,
            final(self).data@ == old(self).data@,
            final(self).holders() == (if old(self).holders() <= 1 { old(self).holders() } else { 1 }),
            final(self).pts == old(self).pts && final(self).dts == old(self).dts,
            final(self).duration == old(self).duration && final(self).offset == old(self).offset,
            final(self).flags == old(self).flags && final(self).media_type == old(self).media_type,
            final(self).pool_name() == old(self).pool_name(),
    {
        if !self.is_writable() {
            let new_data = copy_bytes(&self.data);
            self.data = new_data;
            self.metadata.reference_count = 1;
        }
        Ok(())
    }

    /// A copy of the bytes, times, offset, flags and kind, held by none and
    /// from no pool.
    pub fn copy_deep(&self) -> (r: Self)
        ensures
            r.data@ == self.data@,
            r.pts == self.pts && r.dts == self.dts && r.duration == self.duration && r.offset == self.offset,
            r.flags == self.flags && r.media_type == self.media_type,
            r.holders() == 0,
            r.pool_name() is None,
    {
        Buffer {
            data: copy_bytes(&self.data),
            pts: self.pts,
            dts: self.dts,
            duration: self.duration,
            offset: self.offset,
            flags: self.flags,
            media_type: self.media_type,
            metadata: BufferMetadata { reference_count: 0, pool: None },
        }
    }

    /// Takes the pool of `other` as the buffer's own.
    pub fn copy_metadata(&mut self, other: &Buffer)
        ensures
            final(self).pool_name() == other.pool_name(),
            final(self).holders() == old(self).holders(),
            final(self).data == old(self).data,
    {
        self.metadata.pool = match &other.metadata.pool {
            Some(p) => Some(p.clone()),
            None => None,
        };
    }
}

/// A pool of buffers of one size: its name, the size, the least and most
/// buffers it makes, the free ones, and how many it has made.
pub struct BufferPool {
    name: String,
    buffer_size: usize,
    min_buffers: usize,
    max_buffers: usize,
    free_buffers: Vec<Buffer>,
    allocated_count: usize,
}

/// Whether `b` is a fresh buffer of `size` zero bytes of data.
pub open spec fn blank_buffer(b: Buffer, size: usize) -> bool {
    &&& b.data@ == Seq::new(size as nat, |i: int| 0u8)
    &&& b.pts is None && b.dts is None && b.duration is None && b.offset is None
    &&& b.flags.bits == 0
    &&& b.media_type == MediaType::Data
    &&& b.holders() == 0
    &&& b.pool_name() is None
}

impl BufferPool {
    /// The free buffers.
    pub closed spec fn free(&self) -> Seq<Buffer> {
        self.free_buffers@
    }

    /// The number of buffers made, the buffer size, and the least and most.
    pub closed spec fn sizes(&self) -> (usize, usize, usize, usize) {
        (self.allocated_count, self.buffer_size, self.min_buffers, self.max_buffers)
    }

    /// The pool's name.
    pub closed spec fn name_spec(&self) -> Seq<char> {
        self.name@
    }

    /// A pool that has made `min_buffers` blank buffers, all free.
    pub fn new(name: &str, buffer_size: usize, min_buffers: usize, max_buffers: usize) -> (r: Self)
        ensures
            r.name_spec() == name@,
            r.sizes() == (min_buffers, buffer_size, min_buffers, max_buffers),
            r.free().len() == min_buffers,
            forall|i: int| 0 <= i < min_buffers ==> blank_buffer(#[trigger] r.free()[i], buffer_size),
    {
        let mut pool = BufferPool {
            name: name.to_owned(),
            buffer_size,
            min_buffers,
            max_buffers,
            free_buffers: Vec::new(),
            allocated_count: 0,
        };
        pool.preallocate();
        pool
    }

    /// Makes `min_buffers` blank buffers, free, and counts them made.
    fn preallocate(&mut self)
        requires
            old(self).free_buffers@.len() == 0,
        ensures
            final(self).free_buffers@.len() == old(self).min_buffers,
            forall|i: int| 0 <= i < old(self).min_buffers ==> blank_buffer(#[trigger] final(self).free_buffers@[i], old(self).buffer_size),
            final(self).allocated_count == old(self).min_buffers,
            final(self).name == old(self).name,
            final(self).buffer_size == old(self).buffer_size,
            final(self).min_buffers == old(self).min_buffers,
            final(self).max_buffers == old(self).max_buffers,
    {
        let mut k: usize = 0;
        while k < self.min_buffers
            invariant
                k <= self.min_buffers,
                self.free_buffers@.len() == k,
                forall|i: int| 0 <= i < k ==> blank_buffer(#[trigger] self.free_buffers@[i], self.buffer_size),
                self.name == old(self).name,
                self.buffer_size == old(self).buffer_size,
                self.min_buffers == old(self).min_buffers,
                self.max_buffers == old(self).max_buffers,
            decreases self.min_buffers - k,
        {
            let buffer = Buffer::new(zeros(self.buffer_size), MediaType::Data);
            self.free_buffers.push(buffer);
            k = k + 1;
        }
        self.allocated_count = self.min_buffers;
    }

    /// A buffer: the last free one if any; else a new blank one while fewer
    /// than the most have been made (counted); else the pool is exhausted.
    pub fn acquire(&mut self) -> (r: Result<Buffer, BufferError>)
        ensures
            old(self).free().len() > 0 ==> r == Ok::<Buffer, BufferError>(old(self).free().last())
                && final(self).free() == old(self).free().drop_last() && final(self).sizes() == old(self).sizes(),
            old(self).free().len() == 0 && old(self).sizes().0 < old(self).sizes().3 ==> (r matches Ok(b)
                && blank_buffer(b, old(self).sizes().1))
                && final(self).free() == old(self).free()
                && final(self).sizes() == ((old(self).sizes().0 + 1) as usize, old(self).sizes().1, old(self).sizes().2, old(self).sizes().3),
            old(self).free().len() == 0 && old(self).sizes().0 >= old(self).sizes().3 ==> r == Err::<Buffer, BufferError>(BufferError::PoolExhausted)
                && final(self).free() == old(self).free() && final(self).sizes() == old(self).sizes(),
            final(self).name_spec() == old(self).name_spec(),
    {
        match self.free_buffers.pop() {
            Some(buffer) => {
                return Ok(buffer);
            },
            None => {},
        }
        if self.allocated_count < self.max_buffers {
            self.allocated_count = self.allocated_count + 1;
            Ok(Buffer::new(zeros(self.buffer_size), MediaType::Data))
        } else {
            Err(BufferError::PoolExhausted)
        }
    }

    /// Gives a buffer back to the pool, free again; the pool is its only
    /// holder once it is handed over.
    pub fn release(&mut self, buffer: Buffer)
        ensures
            final(self).free() == old(self).free().push(buffer),
            final(self).sizes() == old(self).sizes(),
            final(self).name_spec() == old(self).name_spec(),
    {
        self.free_buffers.push(buffer);
    }

    /// The counts and sizes.
    pub fn get_stats(&self) -> (r: PoolStats)
        ensures
            r == (PoolStats {
                allocated: self.sizes().0,
                free: self.free().len() as usize,
                min_buffers: self.sizes().2,
                max_buffers: self.sizes().3,
                buffer_size: self.sizes().1,
            }),
    {
        PoolStats {
            allocated: self.allocated_count,
            free: self.free_buffers.len(),
            min_buffers: self.min_buffers,
            max_buffers: self.max_buffers,
            buffer_size: self.buffer_size,
        }
    }
}

/// How a buffer pool stands.
#[derive(Debug, Clone, Copy, PartialEq, Eq, Structural)]
pub struct PoolStats {
    pub allocated: usize,
    pub free: usize,
    pub min_buffers: usize,
    pub max_buffers: usize,
    pub buffer_size: usize,
}

/// A queue of buffers.
pub struct BufferList {
    buffers: Vec<Buffer>,
}

/// The total number of bytes of the buffers.
pub open spec fn total_size(bs: Seq<Buffer>) -> nat
    decreases bs.len(),
{
    if bs.len() == 0 { 0 } else { total_size(bs.drop_last()) + bs.last().data@.len() }
}

/// The sum of two durations, as `Duration::checked_add` gives it (none when
/// it does not fit).
pub uninterp spec fn duration_checked_sum(a: Duration, b: Duration) -> Option<Duration>;

/// Calls `Duration::checked_add`; the result is named `duration_checked_sum`.
#[verifier::external_body]
fn duration_checked_add(a: Duration, b: Duration) -> (r: Option<Duration>)
    ensures
        r == duration_checked_sum(a, b),
{
    a.checked_add(b)
}

/// The total duration of the buffers, from zero: none when one has no
/// duration or the sum does not fit.
pub open spec fn total_duration(bs: Seq<Buffer>) -> Option<Duration>
    decreases bs.len(),
{
    if bs.len() == 0 {
        Some(nanos_duration(0))
    } else {
        match (total_duration(bs.drop_last()), bs.last().duration) {
            (Some(t), Some(d)) => duration_checked_sum(t, d),
            _ => None,
        }
    }
}

/// Whether some buffer has no duration.
pub open spec fn some_without_duration(bs: Seq<Buffer>) -> bool {
    exists|i: int| 0 <= i < bs.len() && (#[trigger] bs[i]).duration is None
}

impl BufferList {
    /// The buffers, first to last.
    pub closed spec fn contents(&self) -> Seq<Buffer> {
        self.buffers@
    }

    pub fn new() -> (r: Self)
        ensures
            r.contents() == Seq::<Buffer>::empty(),
    {
        BufferList { buffers: Vec::new() }
    }

    /// Appends `buffer`.
    pub fn push(&mut self, buffer: Buffer)
        ensures
            final(self).contents() == old(self).contents().push(buffer),
    {
        self.buffers.push(buffer);
    }

    /// Takes out the first buffer, if any.
    pub fn pop(&mut self) -> (r: Option<Buffer>)
        ensures
            old(self).contents().len() > 0 ==> r == Some(old(self).contents()[0])
                && final(self).contents() == old(self).contents().drop_first(),
            old(self).contents().len() == 0 ==> r is None && final(self).contents() == old(self).contents(),
    {
        if self.buffers.len() > 0 {
            let b = self.buffers.remove(0);
            assert(self.buffers@ =~= old(self).buffers@.drop_first());
            Some(b)
        } else {
            None
        }
    }

    pub fn len(&self) -> (r: usize)
        ensures
            r == self.contents().len(),
    {
        self.buffers.len()
    }

    pub fn is_empty(&self) -> (r: bool)
        ensures
            r == (self.contents().len() == 0),
    {
        self.buffers.len() == 0
    }

    pub fn clear(&mut self)
        ensures
            final(self).contents() == Seq::<Buffer>::empty(),
    {
        self.buffers.clear();
    }

    /// The total number of bytes (see `total_size`).
    pub fn calculate_size(&self) -> (r: usize)
        requires
            total_size(self.contents()) <= usize::MAX,
        ensures
            r == total_size(self.contents()),
    {
        let mut sum: usize = 0;
        let mut i: usize = 0;
        while i < self.buffers.len()
            invariant
                i <= self.buffers@.len(),
                sum == total_size(self.buffers@.take(i as int)),
                total_size(self.buffers@) <= usize::MAX,
            decreases self.buffers@.len() - i,
        {
            assert(self.buffers@.take(i + 1).drop_last() =~= self.buffers@.take(i as int));
            proof {
                lemma_total_size_prefix(self.buffers@, i as int + 1);
            }
            sum = sum + self.buffers[i].size();
            i = i + 1;
        }
        assert(self.buffers@.take(i as int) =~= self.buffers@);
        sum
    }

    /// The total duration (see `total_duration`); none when a buffer has no
    /// duration.
    pub fn calculate_duration(&self) -> (r: Option<Duration>)
        ensures
            r == total_duration(self.contents()),
    {
        let mut total = duration_from_nanos(0);
        let mut i: usize = 0;
        while i < self.buffers.len()
            invariant
                i <= self.buffers@.len(),
                total_duration(self.buffers@.take(i as int)) == Some(total),
            decreases self.buffers@.len() - i,
        {
            assert(self.buffers@.take(i + 1).drop_last() =~= self.buffers@.take(i as int));
            match self.buffers[i].duration {
                Some(d) => {
                    match duration_checked_add(total, d) {
                        Some(t) => {
                            total = t;
                        },
                        None => {
                            proof {
                                lemma_total_duration_none(self.buffers@, i as int + 1);
                            }
                            assert(self.buffers@.take(self.buffers@.len() as int) =~= self.buffers@);
                            return None;
                        },
                    }
                },
                None => {
                    proof {
                        lemma_total_duration_none(self.buffers@, i as int + 1);
                    }
                    assert(self.buffers@.take(self.buffers@.len() as int) =~= self.buffers@);
                    return None;
                },
            }
            i = i + 1;
        }
        assert(self.buffers@.take(i as int) =~= self.buffers@);
        Some(total)
    }
}

/// The size of a prefix is at most that of the whole.
proof fn lemma_total_size_prefix(bs: Seq<Buffer>, k: int)
    requires
        0 <= k <= bs.len(),
    ensures
        total_size(bs.take(k)) <= total_size(bs),
    decreases bs.len() - k,
{
    if k < bs.len() {
        lemma_total_size_prefix(bs, k + 1);
        assert(bs.take(k + 1).drop_last() =~= bs.take(k));
    } else {
        assert(bs.take(k) =~= bs);
    }
}

/// Once a prefix has no total duration, no longer prefix has one.
proof fn lemma_total_duration_none(bs: Seq<Buffer>, k: int)
    requires
        0 <= k <= bs.len(),
        total_duration(bs.take(k)) is None,
    ensures
        total_duration(bs.take(bs.len() as int)) is None,
    decreases bs.len() - k,
{
    if k < bs.len() {
        assert(bs.take(k + 1).drop_last() =~= bs.take(k));
        lemma_total_duration_none(bs, k + 1);
    }
}

#[derive(Debug, Clone, Copy, PartialEq, Eq, Structural)]
pub enum BufferError {
    PoolExhausted,
    InvalidSize,
    AllocationFailed,
}

} // verus!
