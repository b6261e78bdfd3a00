//! Media types shared by the codecs, containers and streaming protocols.

pub mod format;
pub mod clock;
pub mod codecs;
pub mod container;
pub mod streaming;
pub mod effects;
pub mod plugin;
pub mod pipeline;
pub mod buffer;
pub mod capture;

use vstd::prelude::*;

verus! {

#[derive(Debug, Clone, Copy, PartialEq, Eq, Structural)]
pub enum MediaType {
    Audio,
    Video,
    Subtitle,
    Data,
}

#[derive(Debug, Clone, Copy, PartialEq, Eq, Structural)]
pub enum StreamState {
    Stopped,
    Paused,
    Playing,
    Buffering,
    Error,
}

#[derive(Debug, Clone, Copy, PartialEq, Eq, Structural)]
pub enum PixelFormat {
    RGB24,
    RGBA32,
    BGR24,
    BGRA32,
    YUV420P,
    YUV422P,
    YUV444P,
    NV12,
    NV21,
    GRAY8,
    GRAY16,
}

#[derive(Debug, Clone, Copy, PartialEq, Eq, Structural)]
pub enum AudioFormat {
    U8,
    S16LE,
    S16BE,
    S24LE,
    S24BE,
    S32LE,
    S32BE,
    F32LE,
    F32BE,
    F64LE,
    F64BE,
}

/// Flags of a packet, one bit each.
#[derive(Debug, Clone, Copy, PartialEq, Eq, Structural)]
pub struct PacketFlags {
    bits: u32,
}

impl PacketFlags {
    /// The set bits.
    pub closed spec fn spec_bits(self) -> u32 {
        self.bits
    }

    /// No flag set.
    pub fn empty() -> (r: Self)
        ensures
            r.spec_bits() == 0,
    {
        Self { bits: 0 }
    }

    /// The packet starts a key frame.
    pub fn key_frame() -> (r: Self)
        ensures
            r.spec_bits() == 1,
    {
        Self { bits: 1 }
    }

    /// The packet's data is damaged.
    pub fn corrupt() -> (r: Self)
        ensures
            r.spec_bits() == 2,
    {
        Self { bits: 2 }
    }

    /// The packet is to be dropped.
    pub fn discard() -> (r: Self)
        ensures
            r.spec_bits() == 4,
    {
        Self { bits: 4 }
    }

    /// The packet comes from a trusted source.
    pub fn trusted() -> (r: Self)
        ensures
            r.spec_bits() == 8,
    {
        Self { bits: 8 }
    }

    /// The set bits.
    pub fn bits(&self) -> (r: u32)
        ensures
            r == self.spec_bits(),
    {
        self.bits
    }

    /// Whether every flag of `other` is set.
    pub fn contains(&self, other: PacketFlags) -> (r: bool)
        ensures
            r == (self.spec_bits() & other.spec_bits() == other.spec_bits()),
    {
        self.bits & other.bits == other.bits
    }

    /// Sets the flags of `other`.
    pub fn insert(&mut self, other: PacketFlags)
        ensures
            final(self).spec_bits() == old(self).spec_bits() | other.spec_bits(),
    {
        self.bits = self.bits | other.bits;
    }
}

pub struct MediaPacket {
    pub stream_index: usize,
    pub pts: Option<i64>,
    pub dts: Option<i64>,
    pub duration: Option<i64>,
    pub data: Vec<u8>,
    pub flags: PacketFlags,
}

impl MediaPacket {
    /// An empty packet of stream 0 at time 0 with no flags, the packet the
    /// demuxers and protocols here hand out.
    pub fn empty_at_zero() -> (r: Self)
        ensures
            r.stream_index == 0,
            r.pts == Some(0i64) && r.dts == Some(0i64) && r.duration == Some(0i64),
            r.data@.len() == 0,
            r.flags.spec_bits() == 0,
    {
        MediaPacket { stream_index: 0, pts: Some(0), dts: Some(0), duration: Some(0), data: Vec::new(), flags: PacketFlags::empty() }
    }
}

pub enum FrameData {
    Audio(AudioFrame),
    Video(VideoFrame),
    Subtitle(SubtitleFrame),
}

pub struct AudioFrame {
    pub samples: Vec<u8>,
    pub sample_count: usize,
    pub channel_layout: ChannelLayout,
}

pub struct VideoFrame {
    pub planes: Vec<Vec<u8>>,
    pub linesize: Vec<usize>,
    pub key_frame: bool,
    pub picture_type: PictureType,
}

pub struct SubtitleFrame {
    pub text: Option<String>,
    pub bitmap: Option<Vec<u8>>,
    pub start_time: i64,
    pub end_time: i64,
}

#[derive(Debug, Clone, Copy, PartialEq, Eq, Structural)]
pub enum ChannelLayout {
    Mono,
    Stereo,
    Surround21,
    Surround51,
    Surround71,
    Custom(u32),
}

#[derive(Debug, Clone, Copy, PartialEq, Eq, Structural)]
pub enum PictureType {
    I,
    P,
    B,
    S,
    SI,
    SP,
    BI,
}

#[derive(Debug, Clone, Copy, PartialEq, Eq, Structural)]
pub enum MediaError {
    NotSupported,
    InvalidFormat,
    CodecNotFound,
    DecodingError,
    EncodingError,
    StreamingError,
    CaptureError,
    PipelineError,
    BufferOverflow,
    BufferUnderflow,
    Timeout,
    InvalidState,
    ResourceBusy,
    OutOfMemory,
}

/// What a stream carries, with the parameters the negotiation reads: the
/// codec by name, and the video and audio parameters that may be adjusted.
pub struct MediaFormat {
    pub media_type: MediaType,
    pub codec: String,
    pub bitrate: Option<u32>,
    pub sample_rate: Option<u32>,
    pub channels: Option<u8>,
    pub width: Option<u32>,
    pub height: Option<u32>,
    pub pixel_format: Option<PixelFormat>,
    pub audio_format: Option<AudioFormat>,
    pub extra_data: Vec<u8>,
}

impl MediaFormat {
    /// A field-by-field copy.
    pub fn copy(&self) -> (r: Self)
        ensures
            r.media_type == self.media_type,
            r.codec@ == self.codec@,
            r.bitrate == self.bitrate,
            r.sample_rate == self.sample_rate,
            r.channels == self.channels,
            r.width == self.width,
            r.height == self.height,
            r.pixel_format == self.pixel_format,
            r.audio_format == self.audio_format,
            r.extra_data@ == self.extra_data@,
    {
        MediaFormat {
            media_type: self.media_type,
            codec: self.codec.clone(),
            bitrate: self.bitrate,
            sample_rate: self.sample_rate,
            channels: self.channels,
            width: self.width,
            height: self.height,
            pixel_format: self.pixel_format,
            audio_format: self.audio_format,
            extra_data: self.extra_data.clone(),
        }
    }
}

} // verus!
