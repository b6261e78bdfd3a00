//! Vorbis: decoder settings.

use vstd::prelude::*;

verus! {

pub struct VorbisDecoder {
    sample_rate: u32,
    channels: u32,
}

impl VorbisDecoder {
    pub closed spec fn spec_sample_rate(&self) -> u32 {
        self.sample_rate
    }

    pub closed spec fn spec_channels(&self) -> u32 {
        self.channels
    }

    pub fn new() -> (r: Self)
        ensures
            r.spec_sample_rate() == 44100,
            r.spec_channels() == 2,
    {
        Self { sample_rate: 44100, channels: 2 }
    }

    pub fn get_sample_rate(&self) -> (r: u32)
        ensures
            r == self.spec_sample_rate(),
    {
        self.sample_rate
    }

    pub fn get_channels(&self) -> (r: u32)
        ensures
            r == self.spec_channels(),
    {
        self.channels
    }

    /// The samples one decoded frame holds: 1024 per channel.
    pub fn samples_per_frame(&self) -> (r: usize)
        requires
            1024 * self.spec_channels() <= usize::MAX,
        ensures
            r == 1024 * self.spec_channels(),
    {
        1024 * (self.channels as usize)
    }
}

} // verus!
