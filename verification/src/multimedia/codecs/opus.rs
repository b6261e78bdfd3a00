//! Opus: decoder and encoder settings.

use vstd::prelude::*;
use crate::multimedia::MediaError;

verus! {
pub struct OpusDecoder {
    sample_rate: u32,
    channels: u32,
}

impl OpusDecoder {
    pub closed spec fn spec_sample_rate(&self) -> u32 {
        self.sample_rate
    }

    pub closed spec fn spec_channels(&self) -> u32 {
        self.channels
    }

    pub fn new() -> (r: Self)
        ensures
            r.spec_sample_rate() == 48000,
            r.spec_channels() == 2,
    {
        Self { sample_rate: 48000, channels: 2 }
    }

    pub fn get_sample_rate(&self) -> (r: u32)
        ensures
            r == self.spec_sample_rate(),
    {
        self.sample_rate
    }

    pub fn get_channels(&self) -> (r: u32)
        ensures
            r == self.spec_channels(),
    {
        self.channels
    }

    /// The samples one decoded frame holds: 960 per channel.
    pub fn samples_per_frame(&self) -> (r: usize)
        requires
            960 * self.spec_channels() <= usize::MAX,
        ensures
            r == 960 * self.spec_channels(),
    {
        960 * (self.channels as usize)
    }
}

pub struct OpusEncoder {
    sample_rate: u32,
    channels: u32,
    bitrate: u32,
}

impl OpusEncoder {
    pub closed spec fn spec_sample_rate(&self) -> u32 {
        self.sample_rate
    }

    pub closed spec fn spec_channels(&self) -> u32 {
        self.channels
    }

    pub closed spec fn spec_bitrate(&self) -> u32 {
        self.bitrate
    }

    pub fn new() -> (r: Self)
        ensures
            r.spec_sample_rate() == 48000,
            r.spec_channels() == 2,
            r.spec_bitrate() == 64000,
    {
        Self { sample_rate: 48000, channels: 2, bitrate: 64000 }
    }

    /// The bytes an encoded frame is: always the same 4 bytes.
    pub fn encode_frame_bytes(&mut self) -> (r: Result<Vec<u8>, MediaError>)
        ensures
            r matches Ok(v) && v@ == seq![0x4Fu8, 0x70, 0x75, 0x73],
            *final(self) == *old(self),
    {
        let v: Vec<u8> = vec![0x4F, 0x70, 0x75, 0x73];
        assert(v@ =~= seq![0x4Fu8, 0x70, 0x75, 0x73]);
        Ok(v)
    }

    pub fn set_sample_rate(&mut self, rate: u32) -> (r: Result<(), MediaError>)
        ensures
            r is Ok,
            final(self).spec_sample_rate() == rate,
            final(self).spec_channels() == old(self).spec_channels(),
            final(self).spec_bitrate() == old(self).spec_bitrate(),
    {
        self.sample_rate = rate;
        Ok(())
    }

    pub fn set_channels(&mut self, channels: u32) -> (r: Result<(), MediaError>)
        ensures
            r is Ok,
            final(self).spec_channels() == channels,
            final(self).spec_sample_rate() == old(self).spec_sample_rate(),
            final(self).spec_bitrate() == old(self).spec_bitrate(),
    {
        self.channels = channels;
        Ok(())
    }

    pub fn set_bitrate(&mut self, bitrate: u32) -> (r: Result<(), MediaError>)
        ensures
            r is Ok,
            final(self).spec_bitrate() == bitrate,
            final(self).spec_sample_rate() == old(self).spec_sample_rate(),
            final(self).spec_channels() == old(self).spec_channels(),
    {
        self.bitrate = bitrate;
        Ok(())
    }

    /// Nothing is held back: flushing gives no bytes.
    pub fn flush(&mut self) -> (r: Result<Vec<u8>, MediaError>)
        ensures
            r matches Ok(v) && v@.len() == 0,
            *final(self) == *old(self),
    {
        Ok(Vec::new())
    }
}

} // verus!
