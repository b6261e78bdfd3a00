//! Uncompressed audio: the byte layout of each sample format.
//!
//! The integer side of the codec stands here: which bytes make a sample and
//! what whole number they hold, and the bytes a whole number is written as.
//! Scaling to and from floating-point samples is left to the caller.

use vstd::prelude::*;
use crate::multimedia::AudioFormat;

verus! {

/// The bytes one sample takes.
pub open spec fn sample_size(f: AudioFormat) -> nat {
    match f {
        AudioFormat::U8 => 1,
        AudioFormat::S16LE | AudioFormat::S16BE => 2,
        AudioFormat::S24LE | AudioFormat::S24BE => 3,
        AudioFormat::S32LE | AudioFormat::S32BE | AudioFormat::F32LE | AudioFormat::F32BE => 4,
        AudioFormat::F64LE | AudioFormat::F64BE => 8,
    }
}

/// Two bytes, low first.
pub open spec fn word16(lo: u8, hi: u8) -> u16 {
    (lo as u16) | ((hi as u16) << 8u16)
}

/// Four bytes, lowest first.
pub open spec fn word32(b0: u8, b1: u8, b2: u8, b3: u8) -> u32 {
    (b0 as u32) | ((b1 as u32) << 8u32) | ((b2 as u32) << 16u32) | ((b3 as u32) << 24u32)
}

/// Eight bytes, lowest first.
pub open spec fn word64(b0: u8, b1: u8, b2: u8, b3: u8, b4: u8, b5: u8, b6: u8, b7: u8) -> u64 {
    (b0 as u64) | ((b1 as u64) << 8u64) | ((b2 as u64) << 16u64) | ((b3 as u64) << 24u64)
        | ((b4 as u64) << 32u64) | ((b5 as u64) << 40u64) | ((b6 as u64) << 48u64) | ((b7 as u64) << 56u64)
}

/// The whole number a sample's bytes hold: an unsigned byte less 128; a
/// signed 16- or 32-bit value; for 24 bits, the upper two of the three
/// bytes read as the decoder reads them; for the floating-point formats, the
/// bit pattern.
pub open spec fn sample_value(f: AudioFormat, c: Seq<u8>) -> i64 {
    match f {
        AudioFormat::U8 => (c[0] - 128) as i64,
        AudioFormat::S16LE => word16(c[0], c[1]) as i16 as i64,
        AudioFormat::S16BE => word16(c[1], c[0]) as i16 as i64,
        AudioFormat::S24LE => (word32(c[0], c[1], c[2], 0) >> 8u32) as i64,
        AudioFormat::S24BE => (word32(c[2], c[1], c[0], 0) >> 8u32) as i64,
        AudioFormat::S32LE => word32(c[0], c[1], c[2], c[3]) as i32 as i64,
        AudioFormat::S32BE => word32(c[3], c[2], c[1], c[0]) as i32 as i64,
        AudioFormat::F32LE => word32(c[0], c[1], c[2], c[3]) as i64,
        AudioFormat::F32BE => word32(c[3], c[2], c[1], c[0]) as i64,
        AudioFormat::F64LE => word64(c[0], c[1], c[2], c[3], c[4], c[5], c[6], c[7]) as i64,
        AudioFormat::F64BE => word64(c[7], c[6], c[5], c[4], c[3], c[2], c[1], c[0]) as i64,
    }
}

/// The samples of `data`: one per whole sample, trailing bytes dropped.
pub open spec fn decoded_samples(f: AudioFormat, data: Seq<u8>) -> Seq<i64> {
    let n = sample_size(f);
    Seq::new(data.len() / n, |i: int| sample_value(f, data.subrange(i * n, i * n + n)))
}

/// The bytes a sample value is written as: its low byte for 8 bits, its two
/// or four bytes in the format's order for 16 and 32 bits and for the
/// 32-bit floating-point pattern, the low three bytes of the 32-bit value
/// for 24 bits, and the eight bytes of the pattern for 64 bits.
pub open spec fn sample_bytes(f: AudioFormat, v: i64) -> Seq<u8> {
    let h = v as u16;
    let w = v as u32;
    let d = v as u64;
    match f {
        AudioFormat::U8 => seq![v as u8],
        AudioFormat::S16LE => seq![h as u8, (h >> 8u16) as u8],
        AudioFormat::S16BE => seq![(h >> 8u16) as u8, h as u8],
        AudioFormat::S24LE => seq![w as u8, (w >> 8u32) as u8, (w >> 16u32) as u8],
        AudioFormat::S24BE => seq![(w >> 16u32) as u8, (w >> 8u32) as u8, w as u8],
        AudioFormat::S32LE | AudioFormat::F32LE => seq![w as u8, (w >> 8u32) as u8, (w >> 16u32) as u8, (w >> 24u32) as u8],
        AudioFormat::S32BE | AudioFormat::F32BE => seq![(w >> 24u32) as u8, (w >> 16u32) as u8, (w >> 8u32) as u8, w as u8],
        AudioFormat::F64LE => seq![d as u8, (d >> 8u64) as u8, (d >> 16u64) as u8, (d >> 24u64) as u8,
            (d >> 32u64) as u8, (d >> 40u64) as u8, (d >> 48u64) as u8, (d >> 56u64) as u8],
        AudioFormat::F64BE => seq![(d >> 56u64) as u8, (d >> 48u64) as u8, (d >> 40u64) as u8, (d >> 32u64) as u8,
            (d >> 24u64) as u8, (d >> 16u64) as u8, (d >> 8u64) as u8, d as u8],
    }
}

/// The bytes of the first `n` values, one after another.
pub open spec fn encoded_samples(f: AudioFormat, vs: Seq<i64>, n: nat) -> Seq<u8>
    decreases n,
{
    if n == 0 || n > vs.len() {
        Seq::empty()
    } else {
        encoded_samples(f, vs, (n - 1) as nat) + sample_bytes(f, vs[n - 1])
    }
}

/// Reads uncompressed audio of one format.
pub struct PcmDecoder {
    format: AudioFormat,
    sample_rate: u32,
    channels: u32,
}

impl PcmDecoder {
    pub closed spec fn spec_format(&self) -> AudioFormat {
        self.format
    }

    pub closed spec fn spec_sample_rate(&self) -> u32 {
        self.sample_rate
    }

    pub closed spec fn spec_channels(&self) -> u32 {
        self.channels
    }

    pub fn new(format: AudioFormat, sample_rate: u32, channels: u32) -> (r: Self)
        ensures
            r.spec_format() == format,
            r.spec_sample_rate() == sample_rate,
            r.spec_channels() == channels,
    {
        Self { format, sample_rate, channels }
    }

    /// The bytes one sample takes.
    pub fn bytes_per_sample(&self) -> (r: usize)
        ensures
            r == sample_size(self.spec_format()),
    {
        match self.format {
            AudioFormat::U8 => 1,
            AudioFormat::S16LE | AudioFormat::S16BE => 2,
            AudioFormat::S24LE | AudioFormat::S24BE => 3,
            AudioFormat::S32LE | AudioFormat::S32BE | AudioFormat::F32LE | AudioFormat::F32BE => 4,
            AudioFormat::F64LE | AudioFormat::F64BE => 8,
        }
    }

    /// The value of the sample at `off`.
    fn sample_at(&self, data: &[u8], off: usize) -> (r: i64)
        requires
            off + sample_size(self.spec_format()) <= data@.len(),
        ensures
            r == sample_value(self.spec_format(), data@.subrange(off as int, off + sample_size(self.spec_format()))),
    {
        let ghost c = data@.subrange(off as int, off + sample_size(self.spec_format()));
        let len = data.len();
        assert(off + sample_size(self.spec_format()) <= len);
        match self.format {
            AudioFormat::U8 => {
                assert(c[0] == data@[off as int]);
                data[off] as i64 - 128
            },
            AudioFormat::S16LE => {
                assert(c[0] == data@[off as int] && c[1] == data@[off + 1]);
                ((data[off] as u16) | ((data[off + 1] as u16) << 8u16)) as i16 as i64
            },
            AudioFormat::S16BE => {
                assert(c[0] == data@[off as int] && c[1] == data@[off + 1]);
                ((data[off + 1] as u16) | ((data[off] as u16) << 8u16)) as i16 as i64
            },
            AudioFormat::S24LE => {
                assert(c[0] == data@[off as int] && c[1] == data@[off + 1] && c[2] == data@[off + 2]);
                (((data[off] as u32) | ((data[off + 1] as u32) << 8u32) | ((data[off + 2] as u32) << 16u32) | ((0u8 as u32) << 24u32)) >> 8u32) as i64
            },
            AudioFormat::S24BE => {
                assert(c[0] == data@[off as int] && c[1] == data@[off + 1] && c[2] == data@[off + 2]);
                (((data[off + 2] as u32) | ((data[off + 1] as u32) << 8u32) | ((data[off] as u32) << 16u32) | ((0u8 as u32) << 24u32)) >> 8u32) as i64
            },
            AudioFormat::S32LE => {
                assert(c[0] == data@[off as int] && c[1] == data@[off + 1] && c[2] == data@[off + 2] && c[3] == data@[off + 3]);
                ((data[off] as u32) | ((data[off + 1] as u32) << 8u32) | ((data[off + 2] as u32) << 16u32) | ((data[off + 3] as u32) << 24u32)) as i32 as i64
            },
            AudioFormat::S32BE => {
                assert(c[0] == data@[off as int] && c[1] == data@[off + 1] && c[2] == data@[off + 2] && c[3] == data@[off + 3]);
                ((data[off + 3] as u32) | ((data[off + 2] as u32) << 8u32) | ((data[off + 1] as u32) << 16u32) | ((data[off] as u32) << 24u32)) as i32 as i64
            },
            AudioFormat::F32LE => {
                assert(c[0] == data@[off as int] && c[1] == data@[off + 1] && c[2] == data@[off + 2] && c[3] == data@[off + 3]);
                ((data[off] as u32) | ((data[off + 1] as u32) << 8u32) | ((data[off + 2] as u32) << 16u32) | ((data[off + 3] as u32) << 24u32)) as i64
            },
            AudioFormat::F32BE => {
                assert(c[0] == data@[off as int] && c[1] == data@[off + 1] && c[2] == data@[off + 2] && c[3] == data@[off + 3]);
                ((data[off + 3] as u32) | ((data[off + 2] as u32) << 8u32) | ((data[off + 1] as u32) << 16u32) | ((data[off] as u32) << 24u32)) as i64
            },
            AudioFormat::F64LE => {
                assert(forall|k: int| 0 <= k < 8 ==> c[k] == data@[off + k]);
                ((data[off] as u64) | ((data[off + 1] as u64) << 8u64) | ((data[off + 2] as u64) << 16u64) | ((data[off + 3] as u64) << 24u64)
                    | ((data[off + 4] as u64) << 32u64) | ((data[off + 5] as u64) << 40u64) | ((data[off + 6] as u64) << 48u64)
                    | ((data[off + 7] as u64) << 56u64)) as i64
            },
            AudioFormat::F64BE => {
                assert(forall|k: int| 0 <= k < 8 ==> c[k] == data@[off + k]);
                ((data[off + 7] as u64) | ((data[off + 6] as u64) << 8u64) | ((data[off + 5] as u64) << 16u64) | ((data[off + 4] as u64) << 24u64)
                    | ((data[off + 3] as u64) << 32u64) | ((data[off + 2] as u64) << 40u64) | ((data[off + 1] as u64) << 48u64)
                    | ((data[off] as u64) << 56u64)) as i64
            },
        }
    }

    /// The whole numbers `data` holds, one per whole sample (see
    /// `sample_value`); trailing bytes that make no whole sample are
    /// dropped.
    pub fn decode_samples(&self, data: &[u8]) -> (r: Vec<i64>)
        ensures
            r@ == decoded_samples(self.spec_format(), data@),
    {
        let bps = self.bytes_per_sample();
        let count = data.len() / bps;
        let mut samples: Vec<i64> = Vec::new();
        let mut i: usize = 0;
        let mut off: usize = 0;
        while i < count
            invariant
                bps == sample_size(self.spec_format()),
                1 <= bps <= 8,
                count == data@.len() / (bps as nat),
                i <= count,
                off == i * bps,
                samples@ =~= decoded_samples(self.spec_format(), data@).take(i as int),
            decreases count - i,
        {
            assert(off + bps <= data@.len()) by (nonlinear_arith)
                requires
                    off == i * bps,
                    i < count,
                    count == data@.len() / (bps as nat),
                    bps >= 1;
            let v = self.sample_at(data, off);
            samples.push(v);
            assert(off + bps == (i + 1) * bps) by (nonlinear_arith)
                requires
                    off == i * bps;
            assert(off + bps <= data@.len());
            let _len = data.len();
            i = i + 1;
            off = off + bps;
        }
        assert(samples@ =~= decoded_samples(self.spec_format(), data@));
        samples
    }

    pub fn get_sample_rate(&self) -> (r: u32)
        ensures
            r == self.spec_sample_rate(),
    {
        self.sample_rate
    }

    pub fn get_channels(&self) -> (r: u32)
        ensures
            r == self.spec_channels(),
    {
        self.channels
    }

    pub fn get_format(&self) -> (r: AudioFormat)
        ensures
            r == self.spec_format(),
    {
        self.format
    }
}

/// Whether `v` is a value of the format's sample type: a byte, a 16- or
/// 32-bit signed value (32 bits also for 24-bit samples), a 32-bit
/// pattern; any value for the 64-bit pattern.
pub open spec fn sample_in_range(f: AudioFormat, v: i64) -> bool {
    match f {
        AudioFormat::U8 => 0 <= v <= 255,
        AudioFormat::S16LE | AudioFormat::S16BE => i16::MIN <= v <= i16::MAX,
        AudioFormat::S24LE | AudioFormat::S24BE | AudioFormat::S32LE | AudioFormat::S32BE => i32::MIN <= v <= i32::MAX,
        AudioFormat::F32LE | AudioFormat::F32BE => 0 <= v <= u32::MAX,
        AudioFormat::F64LE | AudioFormat::F64BE => true,
    }
}

/// Writes uncompressed audio of one format.
pub struct PcmEncoder {
    format: AudioFormat,
    sample_rate: u32,
    channels: u32,
}

impl PcmEncoder {
    pub closed spec fn spec_format(&self) -> AudioFormat {
        self.format
    }

    pub closed spec fn spec_sample_rate(&self) -> u32 {
        self.sample_rate
    }

    pub closed spec fn spec_channels(&self) -> u32 {
        self.channels
    }

    pub fn new(format: AudioFormat, sample_rate: u32, channels: u32) -> (r: Self)
        ensures
            r.spec_format() == format,
            r.spec_sample_rate() == sample_rate,
            r.spec_channels() == channels,
    {
        Self { format, sample_rate, channels }
    }

    fn push_sample(&self, out: &mut Vec<u8>, v: i64)
        ensures
            final(out)@ == old(out)@ + sample_bytes(self.spec_format(), v),
    {
        let h = v as u16;
        let w = v as u32;
        let d = v as u64;
        match self.format {
            AudioFormat::U8 => {
                out.push(v as u8);
            },
            AudioFormat::S16LE => {
                out.push(h as u8);
                out.push((h >> 8u16) as u8);
            },
            AudioFormat::S16BE => {
                out.push((h >> 8u16) as u8);
                out.push(h as u8);
            },
            AudioFormat::S24LE => {
                out.push(w as u8);
                out.push((w >> 8u32) as u8);
                out.push((w >> 16u32) as u8);
            },
            AudioFormat::S24BE => {
                out.push((w >> 16u32) as u8);
                out.push((w >> 8u32) as u8);
                out.push(w as u8);
            },
            AudioFormat::S32LE | AudioFormat::F32LE => {
                out.push(w as u8);
                out.push((w >> 8u32) as u8);
                out.push((w >> 16u32) as u8);
                out.push((w >> 24u32) as u8);
            },
            AudioFormat::S32BE | AudioFormat::F32BE => {
                out.push((w >> 24u32) as u8);
                out.push((w >> 16u32) as u8);
                out.push((w >> 8u32) as u8);
                out.push(w as u8);
            },
            AudioFormat::F64LE => {
                out.push(d as u8);
                out.push((d >> 8u64) as u8);
                out.push((d >> 16u64) as u8);
                out.push((d >> 24u64) as u8);
                out.push((d >> 32u64) as u8);
                out.push((d >> 40u64) as u8);
                out.push((d >> 48u64) as u8);
                out.push((d >> 56u64) as u8);
            },
            AudioFormat::F64BE => {
                out.push((d >> 56u64) as u8);
                out.push((d >> 48u64) as u8);
                out.push((d >> 40u64) as u8);
                out.push((d >> 32u64) as u8);
                out.push((d >> 24u64) as u8);
                out.push((d >> 16u64) as u8);
                out.push((d >> 8u64) as u8);
                out.push(d as u8);
            },
        }
        assert(final(out)@ =~= old(out)@ + sample_bytes(self.spec_format(), v));
    }

    /// The bytes of the sample values, one after another (see
    /// `sample_bytes`).
    pub fn encode_samples(&self, values: &[i64]) -> (r: Vec<u8>)
        ensures
            r@ == encoded_samples(self.spec_format(), values@, values@.len()),
    {
        let mut output: Vec<u8> = Vec::new();
        let mut i: usize = 0;
        while i < values.len()
            invariant
                i <= values@.len(),
                output@ == encoded_samples(self.spec_format(), values@, i as nat),
            decreases values@.len() - i,
        {
            self.push_sample(&mut output, values[i]);
            i = i + 1;
        }
        output
    }

    pub fn set_sample_rate(&mut self, rate: u32)
        ensures
            final(self).spec_sample_rate() == rate,
            final(self).spec_format() == old(self).spec_format(),
            final(self).spec_channels() == old(self).spec_channels(),
    {
        self.sample_rate = rate;
    }

    pub fn set_channels(&mut self, channels: u32)
        ensures
            final(self).spec_channels() == channels,
            final(self).spec_format() == old(self).spec_format(),
            final(self).spec_sample_rate() == old(self).spec_sample_rate(),
    {
        self.channels = channels;
    }

    pub fn get_format(&self) -> (r: AudioFormat)
        ensures
            r == self.spec_format(),
    {
        self.format
    }
}

/// For 16- and 32-bit samples and both floating-point patterns, reading back
/// what was written gives each value written.
pub proof fn lemma_pcm_round_trip(f: AudioFormat, v: i64)
    requires
        sample_in_range(f, v),
        !(f is U8 || f is S24LE || f is S24BE),
    ensures
        sample_bytes(f, v).len() == sample_size(f),
        sample_value(f, sample_bytes(f, v)) == v,
{
    let h = v as u16;
    let w = v as u32;
    let d = v as u64;
    match f {
        AudioFormat::S16LE | AudioFormat::S16BE => {
            assert((((h as u8) as u16) | ((((h >> 8u16) as u8) as u16) << 8u16)) == h) by (bit_vector);
            assert((h as i16) as i64 == v) by (bit_vector)
                requires h == v as u16, i16::MIN <= v <= i16::MAX;
        },
        AudioFormat::S32LE | AudioFormat::S32BE => {
            assert((((w as u8) as u32) | ((((w >> 8u32) as u8) as u32) << 8u32) | ((((w >> 16u32) as u8) as u32) << 16u32)
                | ((((w >> 24u32) as u8) as u32) << 24u32)) == w) by (bit_vector);
            assert((w as i32) as i64 == v) by (bit_vector)
                requires w == v as u32, i32::MIN <= v <= i32::MAX;
        },
        AudioFormat::F32LE | AudioFormat::F32BE => {
            assert((((w as u8) as u32) | ((((w >> 8u32) as u8) as u32) << 8u32) | ((((w >> 16u32) as u8) as u32) << 16u32)
                | ((((w >> 24u32) as u8) as u32) << 24u32)) == w) by (bit_vector);
            assert(w as i64 == v);
        },
        AudioFormat::F64LE | AudioFormat::F64BE => {
            assert((((d as u8) as u64) | ((((d >> 8u64) as u8) as u64) << 8u64) | ((((d >> 16u64) as u8) as u64) << 16u64)
                | ((((d >> 24u64) as u8) as u64) << 24u64) | ((((d >> 32u64) as u8) as u64) << 32u64)
                | ((((d >> 40u64) as u8) as u64) << 40u64) | ((((d >> 48u64) as u8) as u64) << 48u64)
                | ((((d >> 56u64) as u8) as u64) << 56u64)) == d) by (bit_vector);
            assert(d as i64 == v) by (bit_vector)
                requires d == v as u64;
        },
        _ => {},
    }
}

} // verus!
