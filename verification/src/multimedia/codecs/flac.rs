//! FLAC: decoder and encoder settings.

use vstd::prelude::*;
use crate::multimedia::MediaError;

verus! {
pub struct FlacDecoder {
    sample_rate: u32,
    channels: u32,
    bits_per_sample: u32,
}

impl FlacDecoder {
    pub closed spec fn spec_sample_rate(&self) -> u32 {
        self.sample_rate
    }

    pub closed spec fn spec_channels(&self) -> u32 {
        self.channels
    }

    pub closed spec fn spec_bits_per_sample(&self) -> u32 {
        self.bits_per_sample
    }

    pub fn new() -> (r: Self)
        ensures
            r.spec_sample_rate() == 44100,
            r.spec_channels() == 2,
            r.spec_bits_per_sample() == 16,
    {
        Self { sample_rate: 44100, channels: 2, bits_per_sample: 16 }
    }

    pub fn get_sample_rate(&self) -> (r: u32)
        ensures
            r == self.spec_sample_rate(),
    {
        self.sample_rate
    }

    pub fn get_channels(&self) -> (r: u32)
        ensures
            r == self.spec_channels(),
    {
        self.channels
    }

    /// The samples one decoded frame holds: 4096 per channel.
    pub fn samples_per_frame(&self) -> (r: usize)
        requires
            4096 * self.spec_channels() <= usize::MAX,
        ensures
            r == 4096 * self.spec_channels(),
    {
        4096 * (self.channels as usize)
    }
}

pub struct FlacEncoder {
    sample_rate: u32,
    channels: u32,
    compression_level: u32,
}

impl FlacEncoder {
    pub closed spec fn spec_sample_rate(&self) -> u32 {
        self.sample_rate
    }

    pub closed spec fn spec_channels(&self) -> u32 {
        self.channels
    }

    pub closed spec fn spec_compression_level(&self) -> u32 {
        self.compression_level
    }

    pub fn new() -> (r: Self)
        ensures
            r.spec_sample_rate() == 44100,
            r.spec_channels() == 2,
            r.spec_compression_level() == 5,
    {
        Self { sample_rate: 44100, channels: 2, compression_level: 5 }
    }

    /// The bytes an encoded frame is: always the same 4 bytes.
    pub fn encode_frame_bytes(&mut self) -> (r: Result<Vec<u8>, MediaError>)
        ensures
            r matches Ok(v) && v@ == seq![0x66u8, 0x4C, 0x61, 0x43],
            *final(self) == *old(self),
    {
        let v: Vec<u8> = vec![0x66, 0x4C, 0x61, 0x43];
        assert(v@ =~= seq![0x66u8, 0x4C, 0x61, 0x43]);
        Ok(v)
    }

    pub fn set_sample_rate(&mut self, rate: u32) -> (r: Result<(), MediaError>)
        ensures
            r is Ok,
            final(self).spec_sample_rate() == rate,
            final(self).spec_channels() == old(self).spec_channels(),
            final(self).spec_compression_level() == old(self).spec_compression_level(),
    {
        self.sample_rate = rate;
        Ok(())
    }

    pub fn set_channels(&mut self, channels: u32) -> (r: Result<(), MediaError>)
        ensures
            r is Ok,
            final(self).spec_channels() == channels,
            final(self).spec_sample_rate() == old(self).spec_sample_rate(),
            final(self).spec_compression_level() == old(self).spec_compression_level(),
    {
        self.channels = channels;
        Ok(())
    }

    /// The bit rate follows from the input: the setting is ignored.
    pub fn set_bitrate(&mut self, bitrate: u32) -> (r: Result<(), MediaError>)
        ensures
            r is Ok,
            *final(self) == *old(self),
    {
        Ok(())
    }

    /// Nothing is held back: flushing gives no bytes.
    pub fn flush(&mut self) -> (r: Result<Vec<u8>, MediaError>)
        ensures
            r matches Ok(v) && v@.len() == 0,
            *final(self) == *old(self),
    {
        Ok(Vec::new())
    }
}

} // verus!
