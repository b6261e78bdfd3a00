//! MP3: frame headers, and decoder and encoder settings.

use vstd::prelude::*;
use crate::multimedia::MediaError;

verus! {

/// The bit rates of MPEG-1 layer III by index.
pub open spec fn mp3_bitrate(index: u8) -> u32 {
    let t = seq![0u32, 32000, 40000, 48000, 56000, 64000, 80000, 96000, 112000, 128000, 160000, 192000, 224000, 256000, 320000, 0];
    t[index as int]
}

/// The sample rates by index.
pub open spec fn mp3_sample_rate(index: u8) -> u32 {
    if index == 0 { 44100 } else if index == 1 { 48000 } else { 32000 }
}

/// The MPEG-1 sample-rate table: index 0 is 44100 Hz, 1 is 48000 Hz and
/// 2 is 32000 Hz; so a header whose sample-rate bits (bits 3 and 2 of its
/// third byte) are 00, 01 or 10 gives those rates.
pub proof fn lemma_mpeg1_sample_rates(d: Seq<u8>)
    requires
        d.len() >= 4,
    ensures
        mp3_sample_rate(0) == 44100,
        mp3_sample_rate(1) == 48000,
        mp3_sample_rate(2) == 32000,
        (d[2] >> 2u8) & 0x03 == 0 ==> mp3_sample_rate((d[2] >> 2u8) & 0x03) == 44100,
        (d[2] >> 2u8) & 0x03 == 1 ==> mp3_sample_rate((d[2] >> 2u8) & 0x03) == 48000,
        (d[2] >> 2u8) & 0x03 == 2 ==> mp3_sample_rate((d[2] >> 2u8) & 0x03) == 32000,
{
}

/// Some entries of the MPEG-1 layer III bit-rate table: index 1 is
/// 32 kbit/s, 9 is 128 kbit/s, 14 is 320 kbit/s, and 0 (free) and 15 (bad)
/// give no rate.
pub proof fn lemma_mpeg1_layer3_bitrates()
    ensures
        mp3_bitrate(0) == 0,
        mp3_bitrate(1) == 32000,
        mp3_bitrate(9) == 128000,
        mp3_bitrate(14) == 320000,
        mp3_bitrate(15) == 0,
{
}

/// Whether four bytes make a header the decoder takes: a sync word, an
/// MPEG version other than the reserved one, a layer other than the
/// reserved one, and a sample-rate index other than the reserved one.
pub open spec fn mp3_header_ok(d: Seq<u8>) -> bool {
    &&& d.len() >= 4
    &&& d[0] == 0xFF && d[1] & 0xE0 == 0xE0
    &&& (d[1] >> 3u8) & 0x03 != 0x01
    &&& (d[1] >> 1u8) & 0x03 != 0x00
    &&& (d[2] >> 2u8) & 0x03 < 3
}

pub struct Mp3Decoder {
    sample_rate: u32,
    channels: u32,
    bitrate: u32,
    frame_size: usize,
}

impl Mp3Decoder {
    pub closed spec fn spec_sample_rate(&self) -> u32 {
        self.sample_rate
    }

    pub closed spec fn spec_channels(&self) -> u32 {
        self.channels
    }

    pub closed spec fn spec_bitrate(&self) -> u32 {
        self.bitrate
    }

    pub closed spec fn spec_frame_size(&self) -> usize {
        self.frame_size
    }

    pub fn new() -> (r: Self)
        ensures
            r.spec_sample_rate() == 44100,
            r.spec_channels() == 2,
            r.spec_bitrate() == 128000,
            r.spec_frame_size() == 1152,
    {
        Self { sample_rate: 44100, channels: 2, bitrate: 128000, frame_size: 1152 }
    }

    /// Reads the frame header at the start of `data`: bit rate, sample rate
    /// and channels (one for mono, two otherwise). A header that is too
    /// short or not taken (see `mp3_header_ok`) is the invalid-format error;
    /// the settings then keep what they had, except that the bit rate has
    /// already been read when only the sample-rate index is reserved.
    pub fn parse_header(&mut self, data: &[u8]) -> (r: Result<(), MediaError>)
        ensures
            r is Ok <==> mp3_header_ok(data@),
            r matches Err(e) ==> e == MediaError::InvalidFormat,
            final(self).spec_frame_size() == old(self).spec_frame_size(),
            r is Ok ==> {
                &&& final(self).spec_bitrate() == mp3_bitrate((data@[2] >> 4u8) & 0x0F)
                &&& final(self).spec_sample_rate() == mp3_sample_rate((data@[2] >> 2u8) & 0x03)
                &&& final(self).spec_channels() == (if (data@[3] >> 6u8) & 0x03 == 0x03 { 1u32 } else { 2u32 })
            },
            r is Err ==> final(self).spec_sample_rate() == old(self).spec_sample_rate()
                && final(self).spec_channels() == old(self).spec_channels(),
            r is Err && (data@.len() < 4 || !(data@[0] == 0xFF && data@[1] & 0xE0 == 0xE0)
                || (data@[1] >> 3u8) & 0x03 == 0x01 || (data@[1] >> 1u8) & 0x03 == 0x00)
                ==> final(self).spec_bitrate() == old(self).spec_bitrate(),
    {
        if data.len() < 4 {
            return Err(MediaError::InvalidFormat);
        }
        if data[0] != 0xFF || (data[1] & 0xE0) != 0xE0 {
            return Err(MediaError::InvalidFormat);
        }
        let version = (data[1] >> 3u8) & 0x03;
        let layer = (data[1] >> 1u8) & 0x03;
        if version == 0x01 || layer == 0x00 {
            return Err(MediaError::InvalidFormat);
        }
        let b2 = data[2];
        let bitrate_index = (b2 >> 4u8) & 0x0F;
        assert(bitrate_index < 16) by (bit_vector)
            requires bitrate_index == (b2 >> 4u8) & 0x0F;
        self.bitrate = match Self::get_bitrate(version, layer, bitrate_index) {
            Ok(b) => b,
            Err(e) => return Err(e),
        };
        let sample_rate_index = (data[2] >> 2u8) & 0x03;
        self.sample_rate = match Self::get_sample_rate(version, sample_rate_index) {
            Ok(s) => s,
            Err(e) => return Err(e),
        };
        let channel_mode = (data[3] >> 6u8) & 0x03;
        self.channels = if channel_mode == 0x03 { 1 } else { 2 };
        Ok(())
    }

    /// The bit rate of an index (the MPEG-1 layer III table).
    fn get_bitrate(version: u8, layer: u8, index: u8) -> (r: Result<u32, MediaError>)
        ensures
            index < 16 ==> r == Ok::<u32, MediaError>(mp3_bitrate(index)),
            index >= 16 ==> r == Err::<u32, MediaError>(MediaError::InvalidFormat),
    {
        let bitrates: [u32; 16] = [0, 32000, 40000, 48000, 56000, 64000, 80000, 96000, 112000, 128000, 160000, 192000, 224000, 256000, 320000, 0];
        if index as usize >= 16 {
            return Err(MediaError::InvalidFormat);
        }
        assert(bitrates@ =~= seq![0u32, 32000, 40000, 48000, 56000, 64000, 80000, 96000, 112000, 128000, 160000, 192000, 224000, 256000, 320000, 0]);
        Ok(bitrates[index as usize])
    }

    /// The sample rate of an index; index 3 is reserved.
    fn get_sample_rate(version: u8, index: u8) -> (r: Result<u32, MediaError>)
        ensures
            index < 3 ==> r == Ok::<u32, MediaError>(mp3_sample_rate(index)),
            index >= 3 ==> r == Err::<u32, MediaError>(MediaError::InvalidFormat),
    {
        let rates: [u32; 4] = [44100, 48000, 32000, 0];
        if index >= 3 {
            return Err(MediaError::InvalidFormat);
        }
        Ok(rates[index as usize])
    }

    pub fn get_sample_rate_setting(&self) -> (r: u32)
        ensures
            r == self.spec_sample_rate(),
    {
        self.sample_rate
    }

    pub fn get_channels(&self) -> (r: u32)
        ensures
            r == self.spec_channels(),
    {
        self.channels
    }

    /// The samples one decoded frame holds: the frame size per channel.
    pub fn samples_per_frame(&self) -> (r: usize)
        requires
            self.spec_frame_size() * self.spec_channels() <= usize::MAX,
        ensures
            r == self.spec_frame_size() * self.spec_channels(),
    {
        self.frame_size * (self.channels as usize)
    }
}

pub struct Mp3Encoder {
    sample_rate: u32,
    channels: u32,
    bitrate: u32,
    quality: u32,
}

/// The bit rates the encoder takes.
pub open spec fn mp3_encoder_bitrate(b: u32) -> bool {
    b == 32000 || b == 40000 || b == 48000 || b == 56000 || b == 64000 || b == 80000 || b == 96000
        || b == 112000 || b == 128000 || b == 160000 || b == 192000 || b == 224000 || b == 256000 || b == 320000
}

impl Mp3Encoder {
    pub closed spec fn spec_sample_rate(&self) -> u32 {
        self.sample_rate
    }

    pub closed spec fn spec_channels(&self) -> u32 {
        self.channels
    }

    pub closed spec fn spec_bitrate(&self) -> u32 {
        self.bitrate
    }

    pub closed spec fn spec_quality(&self) -> u32 {
        self.quality
    }

    pub fn new() -> (r: Self)
        ensures
            r.spec_sample_rate() == 44100,
            r.spec_channels() == 2,
            r.spec_bitrate() == 128000,
            r.spec_quality() == 5,
    {
        Self { sample_rate: 44100, channels: 2, bitrate: 128000, quality: 5 }
    }

    /// The bytes an encoded frame is: a fixed four-byte frame header.
    pub fn encode_frame_bytes(&mut self) -> (r: Result<Vec<u8>, MediaError>)
        ensures
            r matches Ok(v) && v@ == seq![0xFFu8, 0xFB, 0x90, 0x00],
            *final(self) == *old(self),
    {
        let mut frame: Vec<u8> = Vec::new();
        frame.push(0xFF);
        frame.push(0xFB);
        frame.push(0x90);
        frame.push(0x00);
        assert(frame@ =~= seq![0xFFu8, 0xFB, 0x90, 0x00]);
        Ok(frame)
    }

    /// Takes 32, 44.1 or 48 kHz; any other rate is not supported and
    /// changes nothing.
    pub fn set_sample_rate(&mut self, rate: u32) -> (r: Result<(), MediaError>)
        ensures
            (rate == 32000 || rate == 44100 || rate == 48000) ==> r is Ok && final(self).spec_sample_rate() == rate,
            !(rate == 32000 || rate == 44100 || rate == 48000) ==> r == Err::<(), MediaError>(MediaError::NotSupported)
                && final(self).spec_sample_rate() == old(self).spec_sample_rate(),
            final(self).spec_channels() == old(self).spec_channels(),
            final(self).spec_bitrate() == old(self).spec_bitrate(),
            final(self).spec_quality() == old(self).spec_quality(),
    {
        if rate == 32000 || rate == 44100 || rate == 48000 {
            self.sample_rate = rate;
            Ok(())
        } else {
            Err(MediaError::NotSupported)
        }
    }

    /// Takes one or two channels; any other count is not supported and
    /// changes nothing.
    pub fn set_channels(&mut self, channels: u32) -> (r: Result<(), MediaError>)
        ensures
            (channels == 1 || channels == 2) ==> r is Ok && final(self).spec_channels() == channels,
            !(channels == 1 || channels == 2) ==> r == Err::<(), MediaError>(MediaError::NotSupported)
                && final(self).spec_channels() == old(self).spec_channels(),
            final(self).spec_sample_rate() == old(self).spec_sample_rate(),
            final(self).spec_bitrate() == old(self).spec_bitrate(),
            final(self).spec_quality() == old(self).spec_quality(),
    {
        if channels == 1 || channels == 2 {
            self.channels = channels;
            Ok(())
        } else {
            Err(MediaError::NotSupported)
        }
    }

    /// Takes the layer III bit rates from 32 to 320 kbit/s; any other is not
    /// supported and changes nothing.
    pub fn set_bitrate(&mut self, bitrate: u32) -> (r: Result<(), MediaError>)
        ensures
            mp3_encoder_bitrate(bitrate) ==> r is Ok && final(self).spec_bitrate() == bitrate,
            !mp3_encoder_bitrate(bitrate) ==> r == Err::<(), MediaError>(MediaError::NotSupported)
                && final(self).spec_bitrate() == old(self).spec_bitrate(),
            final(self).spec_sample_rate() == old(self).spec_sample_rate(),
            final(self).spec_channels() == old(self).spec_channels(),
            final(self).spec_quality() == old(self).spec_quality(),
    {
        if bitrate == 32000 || bitrate == 40000 || bitrate == 48000 || bitrate == 56000 || bitrate == 64000
            || bitrate == 80000 || bitrate == 96000 || bitrate == 112000 || bitrate == 128000 || bitrate == 160000
            || bitrate == 192000 || bitrate == 224000 || bitrate == 256000 || bitrate == 320000 {
            self.bitrate = bitrate;
            Ok(())
        } else {
            Err(MediaError::NotSupported)
        }
    }

    /// Nothing is held back: flushing gives no bytes.
    pub fn flush(&mut self) -> (r: Result<Vec<u8>, MediaError>)
        ensures
            r matches Ok(v) && v@.len() == 0,
            *final(self) == *old(self),
    {
        Ok(Vec::new())
    }
}

} // verus!
