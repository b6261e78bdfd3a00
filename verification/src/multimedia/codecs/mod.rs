//! Codecs: recognising a stream by its first bytes, codec names, and the
//! video decoder interface.

pub mod mp3;
pub mod aac;
pub mod vorbis;
pub mod flac;
pub mod opus;
pub mod pcm;
pub mod h264;
pub mod h265;

use vstd::prelude::*;
use crate::multimedia::{MediaError, PixelFormat};
use crate::multimedia::format::CodecId;

verus! {

/// What a video decoder offers.
pub trait VideoDecoder {
    fn decode_frame(&mut self, data: &[u8]) -> Result<VideoFrame, MediaError>;
    fn get_width(&self) -> u32;
    fn get_height(&self) -> u32;
    fn get_pixel_format(&self) -> PixelFormat;
    fn reset(&mut self);
}

/// A decoded picture: its planes and their line sizes.
pub struct VideoFrame {
    pub data: Vec<Vec<u8>>,
    pub linesize: Vec<usize>,
    pub width: u32,
    pub height: u32,
    pub pixel_format: PixelFormat,
    pub pts: i64,
    pub key_frame: bool,
}

/// Whether `data` holds `pat` at `off`.
pub open spec fn bytes_at(data: Seq<u8>, off: int, pat: Seq<u8>) -> bool {
    off + pat.len() <= data.len() && data.subrange(off, off + pat.len()) == pat
}

pub(crate) fn has_bytes_at(data: &[u8], off: usize, pat: &[u8]) -> (r: bool)
    ensures
        r == bytes_at(data@, off as int, pat@),
{
    if off > data.len() || pat.len() > data.len() - off {
        return false;
    }
    let mut i: usize = 0;
    while i < pat.len()
        invariant
            i <= pat@.len(),
            off + pat.len() <= data.len(),
            forall|j: int| 0 <= j < i ==> data@[off + j] == pat@[j],
        decreases pat@.len() - i,
    {
        if data[off + i] != pat[i] {
            assert(data@.subrange(off as int, off + pat@.len())[i as int] != pat@[i as int]);
            return false;
        }
        i = i + 1;
    }
    assert(data@.subrange(off as int, off + pat@.len()) =~= pat@);
    true
}

/// The codec the first bytes of a stream announce: an MPEG audio sync word,
/// an ADTS sync word, an Ogg page holding a Vorbis or Opus header, or a FLAC
/// signature.
pub open spec fn probed_codec(d: Seq<u8>) -> Option<CodecId> {
    if d.len() >= 2 && d[0] == 0xFF && d[1] & 0xE0 == 0xE0 {
        Some(CodecId::MP3)
    } else if d.len() >= 2 && d[0] == 0xFF && d[1] & 0xF0 == 0xF0 {
        Some(CodecId::AAC)
    } else if bytes_at(d, 0, seq![0x4Fu8, 0x67, 0x67, 0x53]) && d.len() > 28
        && bytes_at(d, 28, seq![0x01u8, 0x76, 0x6F, 0x72, 0x62, 0x69, 0x73]) {
        Some(CodecId::Vorbis)
    } else if bytes_at(d, 0, seq![0x4Fu8, 0x67, 0x67, 0x53]) && d.len() > 28
        && bytes_at(d, 28, seq![0x4Fu8, 0x70, 0x75, 0x73, 0x48, 0x65, 0x61, 0x64]) {
        Some(CodecId::Opus)
    } else if bytes_at(d, 0, seq![0x66u8, 0x4C, 0x61, 0x43]) {
        Some(CodecId::FLAC)
    } else {
        None
    }
}

/// The codec the first bytes of `data` announce (see `probed_codec`).
pub fn probe_codec(data: &[u8]) -> (r: Option<CodecId>)
    ensures
        r == probed_codec(data@),
{
    if data.len() >= 2 && data[0] == 0xFF && (data[1] & 0xE0) == 0xE0 {
        return Some(CodecId::MP3);
    }
    if data.len() >= 2 && data[0] == 0xFF && (data[1] & 0xF0) == 0xF0 {
        return Some(CodecId::AAC);
    }
    let ogg: [u8; 4] = [0x4F, 0x67, 0x67, 0x53];
    let vorbis: [u8; 7] = [0x01, 0x76, 0x6F, 0x72, 0x62, 0x69, 0x73];
    let opus: [u8; 8] = [0x4F, 0x70, 0x75, 0x73, 0x48, 0x65, 0x61, 0x64];
    let flac: [u8; 4] = [0x66, 0x4C, 0x61, 0x43];
    assert(ogg@ =~= seq![0x4Fu8, 0x67, 0x67, 0x53]);
    assert(vorbis@ =~= seq![0x01u8, 0x76, 0x6F, 0x72, 0x62, 0x69, 0x73]);
    assert(opus@ =~= seq![0x4Fu8, 0x70, 0x75, 0x73, 0x48, 0x65, 0x61, 0x64]);
    assert(flac@ =~= seq![0x66u8, 0x4C, 0x61, 0x43]);
    if has_bytes_at(data, 0, ogg.as_slice()) {
        if data.len() > 28 {
            if has_bytes_at(data, 28, vorbis.as_slice()) {
                return Some(CodecId::Vorbis);
            } else if has_bytes_at(data, 28, opus.as_slice()) {
                return Some(CodecId::Opus);
            }
        }
    }
    if has_bytes_at(data, 0, flac.as_slice()) {
        return Some(CodecId::FLAC);
    }
    None
}

/// The display name of a codec.
pub open spec fn codec_name(c: CodecId) -> Seq<char> {
    match c {
        CodecId::NoCodec => "none"@,
        CodecId::H264 => "H.264/AVC"@,
        CodecId::H265 => "H.265/HEVC"@,
        CodecId::VP8 => "VP8"@,
        CodecId::VP9 => "VP9"@,
        CodecId::AV1 => "AV1"@,
        CodecId::MPEG2Video => "MPEG-2 Video"@,
        CodecId::MPEG4 => "MPEG-4"@,
        CodecId::MJPEG => "Motion JPEG"@,
        CodecId::ProRes => "ProRes"@,
        CodecId::DNxHD => "DNxHD"@,
        CodecId::MP3 => "MP3"@,
        CodecId::AAC => "AAC"@,
        CodecId::AC3 => "AC-3"@,
        CodecId::EAC3 => "E-AC-3"@,
        CodecId::DTS => "DTS"@,
        CodecId::Vorbis => "Vorbis"@,
        CodecId::Opus => "Opus"@,
        CodecId::FLAC => "FLAC"@,
        CodecId::ALAC => "ALAC"@,
        CodecId::PCM_S16LE => "PCM S16LE"@,
        CodecId::PCM_S16BE => "PCM S16BE"@,
        CodecId::PCM_S24LE => "PCM S24LE"@,
        CodecId::PCM_S24BE => "PCM S24BE"@,
        CodecId::PCM_S32LE => "PCM S32LE"@,
        CodecId::PCM_S32BE => "PCM S32BE"@,
        CodecId::PCM_F32LE => "PCM F32LE"@,
        CodecId::PCM_F32BE => "PCM F32BE"@,
        CodecId::SubRip => "SubRip"@,
        CodecId::ASS => "ASS"@,
        CodecId::WebVTT => "WebVTT"@,
        CodecId::DVDSub => "DVD Subtitle"@,
        CodecId::PGS => "PGS"@,
    }
}

/// The display name of a codec (see `codec_name`).
pub fn get_codec_name(codec_id: CodecId) -> (r: &'static str)
    ensures
        r@ == codec_name(codec_id),
{
    match codec_id {
        CodecId::NoCodec => "none",
        CodecId::H264 => "H.264/AVC",
        CodecId::H265 => "H.265/HEVC",
        CodecId::VP8 => "VP8",
        CodecId::VP9 => "VP9",
        CodecId::AV1 => "AV1",
        CodecId::MPEG2Video => "MPEG-2 Video",
        CodecId::MPEG4 => "MPEG-4",
        CodecId::MJPEG => "Motion JPEG",
        CodecId::ProRes => "ProRes",
        CodecId::DNxHD => "DNxHD",
        CodecId::MP3 => "MP3",
        CodecId::AAC => "AAC",
        CodecId::AC3 => "AC-3",
        CodecId::EAC3 => "E-AC-3",
        CodecId::DTS => "DTS",
        CodecId::Vorbis => "Vorbis",
        CodecId::Opus => "Opus",
        CodecId::FLAC => "FLAC",
        CodecId::ALAC => "ALAC",
        CodecId::PCM_S16LE => "PCM S16LE",
        CodecId::PCM_S16BE => "PCM S16BE",
        CodecId::PCM_S24LE => "PCM S24LE",
        CodecId::PCM_S24BE => "PCM S24BE",
        CodecId::PCM_S32LE => "PCM S32LE",
        CodecId::PCM_S32BE => "PCM S32BE",
        CodecId::PCM_F32LE => "PCM F32LE",
        CodecId::PCM_F32BE => "PCM F32BE",
        CodecId::SubRip => "SubRip",
        CodecId::ASS => "ASS",
        CodecId::WebVTT => "WebVTT",
        CodecId::DVDSub => "DVD Subtitle",
        CodecId::PGS => "PGS",
    }
}

/// `n` copies of `v`.
pub(crate) fn filled(n: usize, v: u8) -> (r: Vec<u8>)
    ensures
        r@ == Seq::new(n as nat, |i: int| v),
{
    let mut r: Vec<u8> = Vec::new();
    let mut i: usize = 0;
    while i < n
        invariant
            i <= n,
            r@ == Seq::new(i as nat, |k: int| v),
        decreases n - i,
    {
        r.push(v);
        i = i + 1;
        assert(r@ =~= Seq::new(i as nat, |k: int| v));
    }
    r
}

} // verus!
