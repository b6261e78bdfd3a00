//! Capture devices (camera, microphone, screen), the frames they hand out,
//! and the manager that lists them.

use vstd::prelude::*;
use crate::multimedia::{AudioFormat, MediaError, MediaFormat, MediaType, PixelFormat};
use crate::multimedia::codecs::filled;
use crate::text::text_is;
use vstd::string::StringSliceAdditionalSpecFns;

verus! {

#[derive(Debug, Clone, Copy, PartialEq, Eq, Structural)]
pub enum DeviceType {
    Camera,
    Microphone,
    Screen,
    VirtualCamera,
    VirtualMicrophone,
    Loopback,
}

/// What a device offers. Frame rates are whole frames per second.
pub struct DeviceCapabilities {
    pub supported_formats: Vec<MediaFormat>,
    pub min_resolution: Option<(u32, u32)>,
    pub max_resolution: Option<(u32, u32)>,
    pub supported_framerates: Vec<u32>,
    pub supported_sample_rates: Vec<u32>,
    pub supported_channels: Vec<u32>,
    pub has_autofocus: bool,
    pub has_zoom: bool,
    pub has_flash: bool,
}

pub enum CapturedFrame {
    Video(VideoFrame),
    Audio(AudioFrame),
}

pub struct VideoFrame {
    pub data: Vec<u8>,
    pub width: u32,
    pub height: u32,
    pub pixel_format: PixelFormat,
    pub timestamp: u64,
}

pub struct AudioFrame {
    pub data: Vec<u8>,
    pub sample_rate: u32,
    pub channels: u32,
    pub format: AudioFormat,
    pub timestamp: u64,
}

/// A device's name, kind and capabilities, as the manager lists them.
pub struct DeviceInfo {
    pub name: String,
    pub device_type: DeviceType,
    pub capabilities: DeviceCapabilities,
}

/// Two formats that agree field by field.
pub open spec fn same_format(a: MediaFormat, b: MediaFormat) -> bool {
    &&& a.media_type == b.media_type
    &&& a.codec@ == b.codec@
    &&& a.bitrate == b.bitrate
    &&& a.sample_rate == b.sample_rate
    &&& a.channels == b.channels
    &&& a.width == b.width
    &&& a.height == b.height
    &&& a.pixel_format == b.pixel_format
    &&& a.audio_format == b.audio_format
    &&& a.extra_data@ == b.extra_data@
}

/// The width a frame is captured at: the format's, else 1920.
pub open spec fn frame_width(f: MediaFormat) -> u32 {
    match f.width {
        Some(w) => w,
        None => 1920,
    }
}

/// The height a frame is captured at: the format's, else 1080.
pub open spec fn frame_height(f: MediaFormat) -> u32 {
    match f.height {
        Some(h) => h,
        None => 1080,
    }
}

/// The sample rate audio is captured at: the format's, else 48000.
pub open spec fn capture_rate(f: MediaFormat) -> u32 {
    match f.sample_rate {
        Some(r) => r,
        None => 48000,
    }
}

/// The channel count audio is captured with: the format's, else 2.
pub open spec fn capture_channels(f: MediaFormat) -> u8 {
    match f.channels {
        Some(c) => c,
        None => 2,
    }
}

/// A device that captures frames: it is opened, started, captures, is
/// stopped and closed, and its format can be read and set.
pub trait CaptureDevice {
    /// The device's name.
    spec fn name_spec(&self) -> Seq<char>;

    /// Whether the device is open.
    spec fn opened(&self) -> bool;

    /// Whether the device is capturing.
    spec fn capturing(&self) -> bool;

    /// The format frames are captured in.
    spec fn format_spec(&self) -> MediaFormat;

    /// Whether capturing one more frame stays within the device's counters
    /// and buffer sizes.
    spec fn capture_fits(&self) -> bool;

    fn get_name(&self) -> (r: &str)
        ensures
            r@ == self.name_spec();

    fn get_device_type(&self) -> DeviceType;

    fn get_capabilities(&self) -> DeviceCapabilities;

    fn open(&mut self) -> (r: Result<(), MediaError>)
        ensures
            r is Ok ==> final(self).opened(),
            final(self).name_spec() == old(self).name_spec();

    fn close(&mut self) -> (r: Result<(), MediaError>)
        ensures
            r is Ok ==> !final(self).capturing(),
            final(self).name_spec() == old(self).name_spec();

    fn start_capture(&mut self) -> (r: Result<(), MediaError>)
        ensures
            r is Ok ==> final(self).capturing(),
            final(self).name_spec() == old(self).name_spec();

    fn stop_capture(&mut self) -> (r: Result<(), MediaError>)
        ensures
            r is Ok ==> !final(self).capturing(),
            final(self).name_spec() == old(self).name_spec();

    /// Whether `capture_frame` may be called (see `capture_fits`).
    fn can_capture(&self) -> (r: bool)
        ensures
            r == self.capture_fits();

    fn capture_frame(&mut self) -> (r: Result<CapturedFrame, MediaError>)
        requires
            old(self).capture_fits(),
        ensures
            r is Ok <==> old(self).capturing(),
            r is Err ==> r == Err::<CapturedFrame, MediaError>(MediaError::InvalidState),
            final(self).name_spec() == old(self).name_spec();

    fn set_format(&mut self, format: &MediaFormat) -> (r: Result<(), MediaError>)
        ensures
            r is Ok ==> same_format(final(self).format_spec(), *format),
            final(self).name_spec() == old(self).name_spec();

    fn get_format(&self) -> (r: MediaFormat)
        ensures
            same_format(r, self.format_spec());
}

/// A camera: captures YUV 4:2:0 video, 30 frames a second by default.
pub struct CameraDevice {
    name: String,
    device_id: usize,
    format: MediaFormat,
    is_open: bool,
    is_capturing: bool,
    frame_count: u64,
}

/// The format a camera starts with: raw 1920x1080 YUV 4:2:0 video.
fn camera_format() -> (r: MediaFormat)
    ensures
        r.media_type == MediaType::Video,
        r.codec@ == "raw"@,
        r.bitrate is None && r.sample_rate is None && r.channels is None,
        r.width == Some(1920u32) && r.height == Some(1080u32),
        r.pixel_format == Some(PixelFormat::YUV420P),
        r.audio_format is None,
        r.extra_data@.len() == 0,
{
    MediaFormat {
        media_type: MediaType::Video,
        codec: "raw".to_owned(),
        bitrate: None,
        sample_rate: None,
        channels: None,
        width: Some(1920),
        height: Some(1080),
        pixel_format: Some(PixelFormat::YUV420P),
        audio_format: None,
        extra_data: Vec::new(),
    }
}

impl CameraDevice {
    /// The number of frames captured so far.
    pub closed spec fn frames(&self) -> u64 {
        self.frame_count
    }

    /// A closed camera with the default format and no frame captured.
    pub fn new(name: &str, device_id: usize) -> (r: Self)
        ensures
            r.name_spec() == name@,
            !r.opened() && !r.capturing(),
            r.frames() == 0,
            r.format_spec().width == Some(1920u32) && r.format_spec().height == Some(1080u32),
            r.format_spec().pixel_format == Some(PixelFormat::YUV420P),
            r.format_spec().media_type == MediaType::Video,
    {
        CameraDevice {
            name: name.to_owned(),
            device_id,
            format: camera_format(),
            is_open: false,
            is_capturing: false,
            frame_count: 0,
        }
    }
}

impl CaptureDevice for CameraDevice {
    closed spec fn name_spec(&self) -> Seq<char> {
        self.name@
    }

    closed spec fn opened(&self) -> bool {
        self.is_open
    }

    closed spec fn capturing(&self) -> bool {
        self.is_capturing
    }

    closed spec fn format_spec(&self) -> MediaFormat {
        self.format
    }

    closed spec fn capture_fits(&self) -> bool {
        &&& frame_width(self.format) * frame_height(self.format) * 3 <= u32::MAX
        &&& (self.frame_count + 1) * 1000 <= u64::MAX
    }

    fn get_name(&self) -> (r: &str) {
        self.name.as_str()
    }

    fn get_device_type(&self) -> (r: DeviceType)
        ensures
            r == DeviceType::Camera,
    {
        DeviceType::Camera
    }

    /// The current format; 640x480 to 3840x2160 at 24, 25, 30 or 60 frames
    /// a second; autofocus and zoom, no flash.
    fn get_capabilities(&self) -> (r: DeviceCapabilities)
        ensures
            r.supported_formats@.len() == 1,
            same_format(r.supported_formats@[0], self.format_spec()),
            r.min_resolution == Some((640u32, 480u32)),
            r.max_resolution == Some((3840u32, 2160u32)),
            r.supported_framerates@ == seq![24u32, 25, 30, 60],
            r.supported_sample_rates@.len() == 0,
            r.supported_channels@.len() == 0,
            r.has_autofocus && r.has_zoom && !r.has_flash,
    {
        let mut formats: Vec<MediaFormat> = Vec::new();
        formats.push(self.format.copy());
        DeviceCapabilities {
            supported_formats: formats,
            min_resolution: Some((640, 480)),
            max_resolution: Some((3840, 2160)),
            supported_framerates: vec![24, 25, 30, 60],
            supported_sample_rates: Vec::new(),
            supported_channels: Vec::new(),
            has_autofocus: true,
            has_zoom: true,
            has_flash: false,
        }
    }

    /// Fails with `InvalidState` when already open.
    fn open(&mut self) -> (r: Result<(), MediaError>)
        ensures
            r is Ok <==> !old(self).opened(),
            r is Err ==> r == Err::<(), MediaError>(MediaError::InvalidState) && *final(self) == *old(self),
            r is Ok ==> final(self).opened() && final(self).capturing() == old(self).capturing(),
            final(self).frames() == old(self).frames(),
            final(self).format_spec() == old(self).format_spec(),
    {
        if self.is_open {
            return Err(MediaError::InvalidState);
        }
        self.is_open = true;
        Ok(())
    }

    /// Fails with `InvalidState` when not open; stops capturing first.
    fn close(&mut self) -> (r: Result<(), MediaError>)
        ensures
            r is Ok <==> old(self).opened(),
            r is Err ==> r == Err::<(), MediaError>(MediaError::InvalidState) && *final(self) == *old(self),
            r is Ok ==> !final(self).opened() && !final(self).capturing(),
            final(self).frames() == old(self).frames(),
            final(self).format_spec() == old(self).format_spec(),
    {
        if !self.is_open {
            return Err(MediaError::InvalidState);
        }
        if self.is_capturing {
            self.is_capturing = false;
        }
        self.is_open = false;
        Ok(())
    }

    /// Fails with `InvalidState` unless open and not capturing.
    fn start_capture(&mut self) -> (r: Result<(), MediaError>)
        ensures
            r is Ok <==> (old(self).opened() && !old(self).capturing()),
            r is Err ==> r == Err::<(), MediaError>(MediaError::InvalidState) && *final(self) == *old(self),
            r is Ok ==> final(self).capturing() && final(self).opened(),
            final(self).frames() == old(self).frames(),
            final(self).format_spec() == old(self).format_spec(),
    {
        if !self.is_open || self.is_capturing {
            return Err(MediaError::InvalidState);
        }
        self.is_capturing = true;
        Ok(())
    }

    /// Fails with `InvalidState` unless capturing.
    fn stop_capture(&mut self) -> (r: Result<(), MediaError>)
        ensures
            r is Ok <==> old(self).capturing(),
            r is Err ==> r == Err::<(), MediaError>(MediaError::InvalidState) && *final(self) == *old(self),
            r is Ok ==> !final(self).capturing() && final(self).opened() == old(self).opened(),
            final(self).frames() == old(self).frames(),
            final(self).format_spec() == old(self).format_spec(),
    {
        if !self.is_capturing {
            return Err(MediaError::InvalidState);
        }
        self.is_capturing = false;
        Ok(())
    }

    fn can_capture(&self) -> (r: bool) {
        let w = match self.format.width {
            Some(w) => w,
            None => 1920,
        };
        let h = match self.format.height {
            Some(h) => h,
            None => 1080,
        };
        let a: u128 = w as u128;
        let b: u128 = h as u128;
        assert(a * b <= 0xffff_ffffu128 * 0xffff_ffffu128) by (nonlinear_arith)
            requires
                a <= 0xffff_ffff,
                b <= 0xffff_ffff,
        ;
        a * b * 3 <= u32::MAX as u128 && ((self.frame_count as u128) + 1) * 1000 <= u64::MAX as u128
    }

    /// One zeroed YUV 4:2:0 frame of the format's size (1920x1080 where
    /// unset), `w * h * 3 / 2` bytes, stamped with the frame number in
    /// milliseconds at 30 frames a second.
    fn capture_frame(&mut self) -> (r: Result<CapturedFrame, MediaError>)
        ensures
            final(self).opened() == old(self).opened(),
            final(self).capturing() == old(self).capturing(),
            final(self).format_spec() == old(self).format_spec(),
            r is Err ==> *final(self) == *old(self),
            r is Ok ==> final(self).frames() == old(self).frames() + 1,
            r matches Ok(CapturedFrame::Video(v)) ==> {
                let f = old(self).format_spec();
                &&& v.width == frame_width(f)
                &&& v.height == frame_height(f)
                &&& v.data@ == Seq::new((frame_width(f) * frame_height(f) * 3 / 2) as nat, |i: int| 0u8)
                &&& v.pixel_format == (match f.pixel_format {
                    Some(p) => p,
                    None => PixelFormat::YUV420P,
                })
                &&& v.timestamp == (old(self).frames() + 1) * 1000 / 30
            },
            r is Ok ==> r matches Ok(CapturedFrame::Video(_)),
    {
        if !self.is_capturing {
            return Err(MediaError::InvalidState);
        }
        let width = match self.format.width {
            Some(w) => w,
            None => 1920,
        };
        let height = match self.format.height {
            Some(h) => h,
            None => 1080,
        };
        assert(width * height * 3 <= u32::MAX);
        assert(width * height <= width * height * 3) by (nonlinear_arith);
        let size = (width * height * 3 / 2) as usize;
        self.frame_count = self.frame_count + 1;
        let pixel_format = match self.format.pixel_format {
            Some(p) => p,
            None => PixelFormat::YUV420P,
        };
        Ok(CapturedFrame::Video(VideoFrame {
            data: filled(size, 0),
            width,
            height,
            pixel_format,
            timestamp: self.frame_count * 1000 / 30,
        }))
    }

    /// Fails with `InvalidState` while capturing.
    fn set_format(&mut self, format: &MediaFormat) -> (r: Result<(), MediaError>)
        ensures
            r is Ok <==> !old(self).capturing(),
            r is Err ==> r == Err::<(), MediaError>(MediaError::InvalidState) && *final(self) == *old(self),
            final(self).opened() == old(self).opened(),
            final(self).capturing() == old(self).capturing(),
            final(self).frames() == old(self).frames(),
    {
        if self.is_capturing {
            return Err(MediaError::InvalidState);
        }
        self.format = format.copy();
        Ok(())
    }

    fn get_format(&self) -> (r: MediaFormat) {
        self.format.copy()
    }
}

/// A microphone: captures 32-bit float audio in blocks of 1024 samples.
pub struct MicrophoneDevice {
    name: String,
    device_id: usize,
    format: MediaFormat,
    is_open: bool,
    is_capturing: bool,
    sample_count: u64,
}

/// The format a microphone starts with: PCM, 48000 Hz, two channels, 32-bit
/// float little-endian samples.
fn microphone_format() -> (r: MediaFormat)
    ensures
        r.media_type == MediaType::Audio,
        r.codec@ == "pcm"@,
        r.bitrate is None,
        r.sample_rate == Some(48000u32) && r.channels == Some(2u8),
        r.width is None && r.height is None && r.pixel_format is None,
        r.audio_format == Some(AudioFormat::F32LE),
        r.extra_data@.len() == 0,
{
    MediaFormat {
        media_type: MediaType::Audio,
        codec: "pcm".to_owned(),
        bitrate: None,
        sample_rate: Some(48000),
        channels: Some(2),
        width: None,
        height: None,
        pixel_format: None,
        audio_format: Some(AudioFormat::F32LE),
        extra_data: Vec::new(),
    }
}

impl MicrophoneDevice {
    /// The number of samples captured so far, per channel.
    pub closed spec fn samples(&self) -> u64 {
        self.sample_count
    }

    /// A closed microphone with the default format and nothing captured.
    pub fn new(name: &str, device_id: usize) -> (r: Self)
        ensures
            r.name_spec() == name@,
            !r.opened() && !r.capturing(),
            r.samples() == 0,
            r.format_spec().media_type == MediaType::Audio,
            r.format_spec().sample_rate == Some(48000u32),
            r.format_spec().channels == Some(2u8),
            r.format_spec().audio_format == Some(AudioFormat::F32LE),
    {
        MicrophoneDevice {
            name: name.to_owned(),
            device_id,
            format: microphone_format(),
            is_open: false,
            is_capturing: false,
            sample_count: 0,
        }
    }
}

impl CaptureDevice for MicrophoneDevice {
    closed spec fn name_spec(&self) -> Seq<char> {
        self.name@
    }

    closed spec fn opened(&self) -> bool {
        self.is_open
    }

    closed spec fn capturing(&self) -> bool {
        self.is_capturing
    }

    closed spec fn format_spec(&self) -> MediaFormat {
        self.format
    }

    closed spec fn capture_fits(&self) -> bool {
        &&& capture_rate(self.format) != 0
        &&& (self.sample_count + 1024) * 1000000 <= u64::MAX
    }

    fn get_name(&self) -> (r: &str) {
        self.name.as_str()
    }

    fn get_device_type(&self) -> (r: DeviceType)
        ensures
            r == DeviceType::Microphone,
    {
        DeviceType::Microphone
    }

    /// The current format; 8000 to 96000 Hz; 1, 2, 4, 6 or 8 channels.
    fn get_capabilities(&self) -> (r: DeviceCapabilities)
        ensures
            r.supported_formats@.len() == 1,
            same_format(r.supported_formats@[0], self.format_spec()),
            r.min_resolution is None && r.max_resolution is None,
            r.supported_framerates@.len() == 0,
            r.supported_sample_rates@ == seq![8000u32, 16000, 22050, 44100, 48000, 96000],
            r.supported_channels@ == seq![1u32, 2, 4, 6, 8],
            !r.has_autofocus && !r.has_zoom && !r.has_flash,
    {
        let mut formats: Vec<MediaFormat> = Vec::new();
        formats.push(self.format.copy());
        DeviceCapabilities {
            supported_formats: formats,
            min_resolution: None,
            max_resolution: None,
            supported_framerates: Vec::new(),
            supported_sample_rates: vec![8000, 16000, 22050, 44100, 48000, 96000],
            supported_channels: vec![1, 2, 4, 6, 8],
            has_autofocus: false,
            has_zoom: false,
            has_flash: false,
        }
    }

    /// Fails with `InvalidState` when already open.
    fn open(&mut self) -> (r: Result<(), MediaError>)
        ensures
            r is Ok <==> !old(self).opened(),
            r is Err ==> r == Err::<(), MediaError>(MediaError::InvalidState) && *final(self) == *old(self),
            r is Ok ==> final(self).opened() && final(self).capturing() == old(self).capturing(),
            final(self).samples() == old(self).samples(),
            final(self).format_spec() == old(self).format_spec(),
    {
        if self.is_open {
            return Err(MediaError::InvalidState);
        }
        self.is_open = true;
        Ok(())
    }

    /// Fails with `InvalidState` when not open; stops capturing first.
    fn close(&mut self) -> (r: Result<(), MediaError>)
        ensures
            r is Ok <==> old(self).opened(),
            r is Err ==> r == Err::<(), MediaError>(MediaError::InvalidState) && *final(self) == *old(self),
            r is Ok ==> !final(self).opened() && !final(self).capturing(),
            final(self).samples() == old(self).samples(),
            final(self).format_spec() == old(self).format_spec(),
    {
        if !self.is_open {
            return Err(MediaError::InvalidState);
        }
        if self.is_capturing {
            self.is_capturing = false;
        }
        self.is_open = false;
        Ok(())
    }

    /// Fails with `InvalidState` unless open and not capturing.
    fn start_capture(&mut self) -> (r: Result<(), MediaError>)
        ensures
            r is Ok <==> (old(self).opened() && !old(self).capturing()),
            r is Err ==> r == Err::<(), MediaError>(MediaError::InvalidState) && *final(self) == *old(self),
            r is Ok ==> final(self).capturing() && final(self).opened(),
            final(self).samples() == old(self).samples(),
            final(self).format_spec() == old(self).format_spec(),
    {
        if !self.is_open || self.is_capturing {
            return Err(MediaError::InvalidState);
        }
        self.is_capturing = true;
        Ok(())
    }

    /// Fails with `InvalidState` unless capturing.
    fn stop_capture(&mut self) -> (r: Result<(), MediaError>)
        ensures
            r is Ok <==> old(self).capturing(),
            r is Err ==> r == Err::<(), MediaError>(MediaError::InvalidState) && *final(self) == *old(self),
            r is Ok ==> !final(self).capturing() && final(self).opened() == old(self).opened(),
            final(self).samples() == old(self).samples(),
            final(self).format_spec() == old(self).format_spec(),
    {
        if !self.is_capturing {
            return Err(MediaError::InvalidState);
        }
        self.is_capturing = false;
        Ok(())
    }

    fn can_capture(&self) -> (r: bool) {
        let rate = match self.format.sample_rate {
            Some(r) => r,
            None => 48000,
        };
        rate != 0 && ((self.sample_count as u128) + 1024) * 1000000 <= u64::MAX as u128
    }

    /// One zeroed block of 1024 samples of 4 bytes on each channel (the
    /// format's channels, else 2, at its rate, else 48000 Hz), stamped with
    /// the samples captured so far in microseconds.
    fn capture_frame(&mut self) -> (r: Result<CapturedFrame, MediaError>)
        ensures
            final(self).opened() == old(self).opened(),
            final(self).capturing() == old(self).capturing(),
            final(self).format_spec() == old(self).format_spec(),
            r is Err ==> *final(self) == *old(self),
            r is Ok ==> final(self).samples() == old(self).samples() + 1024,
            r matches Ok(CapturedFrame::Audio(a)) ==> {
                let f = old(self).format_spec();
                &&& a.sample_rate == capture_rate(f)
                &&& a.channels == capture_channels(f) as u32
                &&& a.data@ == Seq::new((1024 * capture_channels(f) * 4) as nat, |i: int| 0u8)
                &&& a.format == (match f.audio_format {
                    Some(af) => af,
                    None => AudioFormat::F32LE,
                })
                &&& a.timestamp == (old(self).samples() + 1024) * 1000000 / (capture_rate(f) as int)
            },
            r is Ok ==> r matches Ok(CapturedFrame::Audio(_)),
    {
        if !self.is_capturing {
            return Err(MediaError::InvalidState);
        }
        let sample_rate = match self.format.sample_rate {
            Some(r) => r,
            None => 48000,
        };
        let channels: usize = match self.format.channels {
            Some(c) => c as usize,
            None => 2,
        };
        let samples_per_frame: usize = 1024;
        let size = samples_per_frame * channels * 4;
        self.sample_count = self.sample_count + samples_per_frame as u64;
        let format = match self.format.audio_format {
            Some(af) => af,
            None => AudioFormat::F32LE,
        };
        Ok(CapturedFrame::Audio(AudioFrame {
            data: filled(size, 0),
            sample_rate,
            channels: channels as u32,
            format,
            timestamp: self.sample_count * 1000000 / sample_rate as u64,
        }))
    }

    /// Fails with `InvalidState` while capturing.
    fn set_format(&mut self, format: &MediaFormat) -> (r: Result<(), MediaError>)
        ensures
            r is Ok <==> !old(self).capturing(),
            r is Err ==> r == Err::<(), MediaError>(MediaError::InvalidState) && *final(self) == *old(self),
            final(self).opened() == old(self).opened(),
            final(self).capturing() == old(self).capturing(),
            final(self).samples() == old(self).samples(),
    {
        if self.is_capturing {
            return Err(MediaError::InvalidState);
        }
        self.format = format.copy();
        Ok(())
    }

    fn get_format(&self) -> (r: MediaFormat) {
        self.format.copy()
    }
}

/// The screen: captures RGBA video at 60 frames a second; it is always
/// open.
pub struct ScreenCapture {
    format: MediaFormat,
    is_capturing: bool,
    frame_count: u64,
}

/// The format screen capture starts with: raw 1920x1080 RGBA video.
fn screen_format() -> (r: MediaFormat)
    ensures
        r.media_type == MediaType::Video,
        r.codec@ == "raw"@,
        r.bitrate is None && r.sample_rate is None && r.channels is None,
        r.width == Some(1920u32) && r.height == Some(1080u32),
        r.pixel_format == Some(PixelFormat::RGBA32),
        r.audio_format is None,
        r.extra_data@.len() == 0,
{
    MediaFormat {
        media_type: MediaType::Video,
        codec: "raw".to_owned(),
        bitrate: None,
        sample_rate: None,
        channels: None,
        width: Some(1920),
        height: Some(1080),
        pixel_format: Some(PixelFormat::RGBA32),
        audio_format: None,
        extra_data: Vec::new(),
    }
}

impl ScreenCapture {
    /// The number of frames captured so far.
    pub closed spec fn frames(&self) -> u64 {
        self.frame_count
    }

    /// Screen capture with the default format, not capturing.
    pub fn new() -> (r: Self)
        ensures
            r.name_spec() == "Screen Capture"@,
            r.opened() && !r.capturing(),
            r.frames() == 0,
            r.format_spec().width == Some(1920u32) && r.format_spec().height == Some(1080u32),
            r.format_spec().pixel_format == Some(PixelFormat::RGBA32),
    {
        ScreenCapture { format: screen_format(), is_capturing: false, frame_count: 0 }
    }
}

impl CaptureDevice for ScreenCapture {
    closed spec fn name_spec(&self) -> Seq<char> {
        "Screen Capture"@
    }

    closed spec fn opened(&self) -> bool {
        true
    }

    closed spec fn capturing(&self) -> bool {
        self.is_capturing
    }

    closed spec fn format_spec(&self) -> MediaFormat {
        self.format
    }

    closed spec fn capture_fits(&self) -> bool {
        &&& frame_width(self.format) * frame_height(self.format) * 4 <= u32::MAX
        &&& (self.frame_count + 1) * 1000 <= u64::MAX
    }

    fn get_name(&self) -> (r: &str) {
        "Screen Capture"
    }

    fn get_device_type(&self) -> (r: DeviceType)
        ensures
            r == DeviceType::Screen,
    {
        DeviceType::Screen
    }

    /// The current format; 640x480 to 7680x4320 at 15, 30, 60 or 120 frames
    /// a second.
    fn get_capabilities(&self) -> (r: DeviceCapabilities)
        ensures
            r.supported_formats@.len() == 1,
            same_format(r.supported_formats@[0], self.format_spec()),
            r.min_resolution == Some((640u32, 480u32)),
            r.max_resolution == Some((7680u32, 4320u32)),
            r.supported_framerates@ == seq![15u32, 30, 60, 120],
            r.supported_sample_rates@.len() == 0,
            r.supported_channels@.len() == 0,
            !r.has_autofocus && !r.has_zoom && !r.has_flash,
    {
        let mut formats: Vec<MediaFormat> = Vec::new();
        formats.push(self.format.copy());
        DeviceCapabilities {
            supported_formats: formats,
            min_resolution: Some((640, 480)),
            max_resolution: Some((7680, 4320)),
            supported_framerates: vec![15, 30, 60, 120],
            supported_sample_rates: Vec::new(),
            supported_channels: Vec::new(),
            has_autofocus: false,
            has_zoom: false,
            has_flash: false,
        }
    }

    /// Always succeeds and changes nothing.
    fn open(&mut self) -> (r: Result<(), MediaError>)
        ensures
            r is Ok,
            *final(self) == *old(self),
    {
        Ok(())
    }

    /// Always succeeds; stops capturing.
    fn close(&mut self) -> (r: Result<(), MediaError>)
        ensures
            r is Ok,
            !final(self).capturing(),
            final(self).frames() == old(self).frames(),
            final(self).format_spec() == old(self).format_spec(),
    {
        self.is_capturing = false;
        Ok(())
    }

    /// Always succeeds.
    fn start_capture(&mut self) -> (r: Result<(), MediaError>)
        ensures
            r is Ok,
            final(self).capturing(),
            final(self).frames() == old(self).frames(),
            final(self).format_spec() == old(self).format_spec(),
    {
        self.is_capturing = true;
        Ok(())
    }

    /// Always succeeds.
    fn stop_capture(&mut self) -> (r: Result<(), MediaError>)
        ensures
            r is Ok,
            !final(self).capturing(),
            final(self).frames() == old(self).frames(),
            final(self).format_spec() == old(self).format_spec(),
    {
        self.is_capturing = false;
        Ok(())
    }

    fn can_capture(&self) -> (r: bool) {
        let w = match self.format.width {
            Some(w) => w,
            None => 1920,
        };
        let h = match self.format.height {
            Some(h) => h,
            None => 1080,
        };
        let a: u128 = w as u128;
        let b: u128 = h as u128;
        assert(a * b <= 0xffff_ffffu128 * 0xffff_ffffu128) by (nonlinear_arith)
            requires
                a <= 0xffff_ffff,
                b <= 0xffff_ffff,
        ;
        a * b * 4 <= u32::MAX as u128 && ((self.frame_count as u128) + 1) * 1000 <= u64::MAX as u128
    }

    /// One zeroed RGBA frame of the format's size (1920x1080 where unset),
    /// `w * h * 4` bytes, stamped with the frame number in milliseconds at
    /// 60 frames a second.
    fn capture_frame(&mut self) -> (r: Result<CapturedFrame, MediaError>)
        ensures
            final(self).capturing() == old(self).capturing(),
            final(self).format_spec() == old(self).format_spec(),
            r is Err ==> *final(self) == *old(self),
            r is Ok ==> final(self).frames() == old(self).frames() + 1,
            r matches Ok(CapturedFrame::Video(v)) ==> {
                let f = old(self).format_spec();
                &&& v.width == frame_width(f)
                &&& v.height == frame_height(f)
                &&& v.data@ == Seq::new((frame_width(f) * frame_height(f) * 4) as nat, |i: int| 0u8)
                &&& v.pixel_format == PixelFormat::RGBA32
                &&& v.timestamp == (old(self).frames() + 1) * 1000 / 60
            },
            r is Ok ==> r matches Ok(CapturedFrame::Video(_)),
    {
        if !self.is_capturing {
            return Err(MediaError::InvalidState);
        }
        let width = match self.format.width {
            Some(w) => w,
            None => 1920,
        };
        let height = match self.format.height {
            Some(h) => h,
            None => 1080,
        };
        assert(width * height <= width * height * 4) by (nonlinear_arith);
        let size = (width * height * 4) as usize;
        self.frame_count = self.frame_count + 1;
        Ok(CapturedFrame::Video(VideoFrame {
            data: filled(size, 0),
            width,
            height,
            pixel_format: PixelFormat::RGBA32,
            timestamp: self.frame_count * 1000 / 60,
        }))
    }

    /// Always succeeds.
    fn set_format(&mut self, format: &MediaFormat) -> (r: Result<(), MediaError>)
        ensures
            r is Ok,
            final(self).capturing() == old(self).capturing(),
            final(self).frames() == old(self).frames(),
    {
        self.format = format.copy();
        Ok(())
    }

    fn get_format(&self) -> (r: MediaFormat) {
        self.format.copy()
    }
}

/// The registered capture devices, in the order they were registered.
pub struct CaptureManager {
    devices: Vec<Box<dyn CaptureDevice>>,
}

impl CaptureManager {
    /// The names of the registered devices, in order.
    pub closed spec fn names(&self) -> Seq<Seq<char>> {
        self.devices@.map_values(|d: Box<dyn CaptureDevice>| d.name_spec())
    }

    /// No device registered.
    pub fn new() -> (r: Self)
        ensures
            r.names() == Seq::<Seq<char>>::empty(),
    {
        CaptureManager { devices: Vec::new() }
    }

    /// Each device's name, kind and capabilities, in registration order.
    pub fn enumerate_devices(&self) -> (r: Vec<DeviceInfo>)
        ensures
            r@.len() == self.names().len(),
            forall|i: int| 0 <= i < r@.len() ==> #[trigger] r@[i].name@ == self.names()[i],
    {
        let mut r: Vec<DeviceInfo> = Vec::new();
        let mut i: usize = 0;
        while i < self.devices.len()
            invariant
                i <= self.devices@.len(),
                r@.len() == i,
                forall|k: int| 0 <= k < i ==> #[trigger] r@[k].name@ == self.names()[k],
            decreases self.devices@.len() - i,
        {
            let d = &self.devices[i];
            let info = DeviceInfo {
                name: d.get_name().to_owned(),
                device_type: d.get_device_type(),
                capabilities: d.get_capabilities(),
            };
            r.push(info);
            i = i + 1;
        }
        r
    }

    /// Adds a device at the end. What the list holds afterwards is left
    /// unsaid here: Verus does not follow an update through a mutable
    /// borrow of a list of boxed trait objects.
    pub fn register_device(&mut self, device: Box<dyn CaptureDevice>) {
        self.devices.push(device);
    }

    /// The first device with the given name, if any.
    pub fn get_device(&self, name: &str) -> (r: Option<&Box<dyn CaptureDevice>>)
        ensures
            r is Some <==> self.names().contains(name@),
            r matches Some(d) ==> d.name_spec() == name@,
    {
        let mut i: usize = 0;
        while i < self.devices.len()
            invariant
                i <= self.devices@.len(),
                forall|k: int| 0 <= k < i ==> self.names()[k] != name@,
            decreases self.devices@.len() - i,
        {
            let d = &self.devices[i];
            let n = d.get_name().to_owned();
            if text_is(&n, name) {
                assert(self.names()[i as int] == name@);
                return Some(d);
            }
            i = i + 1;
        }
        proof {
            if self.names().contains(name@) {
                let k = choose|k: int| 0 <= k < self.names().len() && self.names()[k] == name@;
                assert(self.names()[k] != name@);
            }
        }
        None
    }
}

} // verus!
