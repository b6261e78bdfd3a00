//! AAC: decoder and encoder settings.

use vstd::prelude::*;
use crate::multimedia::MediaError;

verus! {

#[derive(Debug, Clone, Copy, PartialEq, Eq, Structural)]
pub enum AacProfile {
    Main,
    LC,
    SSR,
    LTP,
    HE,
    HEv2,
}

pub struct AacDecoder {
    sample_rate: u32,
    channels: u32,
    profile: AacProfile,
}

impl AacDecoder {
    pub closed spec fn spec_sample_rate(&self) -> u32 {
        self.sample_rate
    }

    pub closed spec fn spec_channels(&self) -> u32 {
        self.channels
    }

    pub fn new() -> (r: Self)
        ensures
            r.spec_sample_rate() == 44100,
            r.spec_channels() == 2,
    {
        Self { sample_rate: 44100, channels: 2, profile: AacProfile::LC }
    }

    pub fn get_sample_rate(&self) -> (r: u32)
        ensures
            r == self.spec_sample_rate(),
    {
        self.sample_rate
    }

    pub fn get_channels(&self) -> (r: u32)
        ensures
            r == self.spec_channels(),
    {
        self.channels
    }

    /// The samples one decoded frame holds: 1024 per channel.
    pub fn samples_per_frame(&self) -> (r: usize)
        requires
            1024 * self.spec_channels() <= usize::MAX,
        ensures
            r == 1024 * self.spec_channels(),
    {
        1024 * (self.channels as usize)
    }
}

pub struct AacEncoder {
    sample_rate: u32,
    channels: u32,
    bitrate: u32,
}

impl AacEncoder {
    pub closed spec fn spec_sample_rate(&self) -> u32 {
        self.sample_rate
    }

    pub closed spec fn spec_channels(&self) -> u32 {
        self.channels
    }

    pub closed spec fn spec_bitrate(&self) -> u32 {
        self.bitrate
    }

    pub fn new() -> (r: Self)
        ensures
            r.spec_sample_rate() == 44100,
            r.spec_channels() == 2,
            r.spec_bitrate() == 128000,
    {
        Self { sample_rate: 44100, channels: 2, bitrate: 128000 }
    }

    /// The bytes an encoded frame is: always the same 7 bytes.
    pub fn encode_frame_bytes(&mut self) -> (r: Result<Vec<u8>, MediaError>)
        ensures
            r matches Ok(v) && v@ == seq![0xFFu8, 0xF1, 0x50, 0x80, 0x00, 0x00, 0xFC],
            *final(self) == *old(self),
    {
        let v: Vec<u8> = vec![0xFF, 0xF1, 0x50, 0x80, 0x00, 0x00, 0xFC];
        assert(v@ =~= seq![0xFFu8, 0xF1, 0x50, 0x80, 0x00, 0x00, 0xFC]);
        Ok(v)
    }

    pub fn set_sample_rate(&mut self, rate: u32) -> (r: Result<(), MediaError>)
        ensures
            r is Ok,
            final(self).spec_sample_rate() == rate,
            final(self).spec_channels() == old(self).spec_channels(),
            final(self).spec_bitrate() == old(self).spec_bitrate(),
    {
        self.sample_rate = rate;
        Ok(())
    }

    pub fn set_channels(&mut self, channels: u32) -> (r: Result<(), MediaError>)
        ensures
            r is Ok,
            final(self).spec_channels() == channels,
            final(self).spec_sample_rate() == old(self).spec_sample_rate(),
            final(self).spec_bitrate() == old(self).spec_bitrate(),
    {
        self.channels = channels;
        Ok(())
    }

    pub fn set_bitrate(&mut self, bitrate: u32) -> (r: Result<(), MediaError>)
        ensures
            r is Ok,
            final(self).spec_bitrate() == bitrate,
            final(self).spec_sample_rate() == old(self).spec_sample_rate(),
            final(self).spec_channels() == old(self).spec_channels(),
    {
        self.bitrate = bitrate;
        Ok(())
    }

    /// Nothing is held back: flushing gives no bytes.
    pub fn flush(&mut self) -> (r: Result<Vec<u8>, MediaError>)
        ensures
            r matches Ok(v) && v@.len() == 0,
            *final(self) == *old(self),
    {
        Ok(Vec::new())
    }
}

} // verus!
