//! H.265: decoder pictures and encoder settings.

use vstd::prelude::*;
use crate::multimedia::{MediaError, PixelFormat};
use crate::multimedia::codecs::{VideoDecoder, VideoFrame, filled};

verus! {

pub struct H265Decoder {
    width: u32,
    height: u32,
    pixel_format: PixelFormat,
}

impl H265Decoder {
    #[verifier::type_invariant]
    spec fn frame_fits(&self) -> bool {
        self.width as int * self.height as int <= u32::MAX
    }

    pub closed spec fn spec_width(&self) -> u32 {
        self.width
    }

    pub closed spec fn spec_height(&self) -> u32 {
        self.height
    }

    pub closed spec fn spec_pixel_format(&self) -> PixelFormat {
        self.pixel_format
    }

    /// A decoder for 3840 x 2160 pictures in planar YUV 4:2:0.
    pub fn new() -> (r: Self)
        ensures
            r.spec_width() == 3840,
            r.spec_height() == 2160,
            r.spec_pixel_format() == PixelFormat::YUV420P,
    {
        Self { width: 3840, height: 2160, pixel_format: PixelFormat::YUV420P }
    }
}

impl VideoDecoder for H265Decoder {
    /// A blank picture of the decoder's size:
    /// a black luma plane and two neutral chroma planes of a quarter its size.
    fn decode_frame(&mut self, data: &[u8]) -> (r: Result<VideoFrame, MediaError>)
        ensures
            (r matches Ok(f) && {
                let y = (old(self).spec_width() * old(self).spec_height()) as nat;
                &&& f.data@.len() == 3
                &&& f.data@[0]@ == Seq::new(y, |i: int| 0u8)
                &&& f.data@[1]@ == Seq::new(y / 4, |i: int| 128u8)
                &&& f.data@[2]@ == Seq::new(y / 4, |i: int| 128u8)
                &&& f.linesize@ == seq![old(self).spec_width() as usize, (old(self).spec_width() / 2) as usize, (old(self).spec_width() / 2) as usize]
                &&& f.width == old(self).spec_width() && f.height == old(self).spec_height()
                &&& f.pixel_format == old(self).spec_pixel_format()
                &&& f.pts == 0 && !f.key_frame
            }),
    {
        proof {
            use_type_invariant(&*self);
        }
        proof {
            use_type_invariant(&*self);
        }
        let y_size = (self.width * self.height) as usize;
        let uv_size = y_size / 4;
        let mut data_planes: Vec<Vec<u8>> = Vec::new();
        data_planes.push(filled(y_size, 0));
        data_planes.push(filled(uv_size, 128));
        data_planes.push(filled(uv_size, 128));
        let mut linesize: Vec<usize> = Vec::new();
        linesize.push(self.width as usize);
        linesize.push(self.width as usize / 2);
        linesize.push(self.width as usize / 2);
        assert(linesize@ =~= seq![self.width as usize, (self.width / 2) as usize, (self.width / 2) as usize]);
        Ok(VideoFrame {
            data: data_planes,
            linesize,
            width: self.width,
            height: self.height,
            pixel_format: self.pixel_format,
            pts: 0,
            key_frame: false,
        })
    }

    fn get_width(&self) -> (r: u32)
        ensures
            r == self.spec_width(),
    {
        self.width
    }

    fn get_height(&self) -> (r: u32)
        ensures
            r == self.spec_height(),
    {
        self.height
    }

    fn get_pixel_format(&self) -> (r: PixelFormat)
        ensures
            r == self.spec_pixel_format(),
    {
        self.pixel_format
    }

    /// The decoder keeps no state between pictures: nothing changes.
    fn reset(&mut self)
        ensures
            *final(self) == *old(self),
    {
    }
}

pub struct H265Encoder {
    width: u32,
    height: u32,
    pixel_format: PixelFormat,
    bitrate: u32,
}

impl H265Encoder {
    pub closed spec fn spec_size(&self) -> (u32, u32) {
        (self.width, self.height)
    }

    pub closed spec fn spec_pixel_format(&self) -> PixelFormat {
        self.pixel_format
    }

    pub closed spec fn spec_bitrate(&self) -> u32 {
        self.bitrate
    }

    /// An encoder for 3840 x 2160 pictures in planar YUV 4:2:0 at 4 Mbit/s.
    pub fn new() -> (r: Self)
        ensures
            r.spec_size() == (3840u32, 2160u32),
            r.spec_pixel_format() == PixelFormat::YUV420P,
            r.spec_bitrate() == 4_000_000,
    {
        Self { width: 3840, height: 2160, pixel_format: PixelFormat::YUV420P, bitrate: 4_000_000 }
    }

    /// The bytes an encoded picture is: a start code and a parameter-set
    /// NAL header, always the same.
    pub fn encode_frame(&mut self, frame: &VideoFrame) -> (r: Result<Vec<u8>, MediaError>)
        ensures
            r matches Ok(v) && v@ == seq![0x00u8, 0x00, 0x00, 0x01, 0x40, 0x01],
            *final(self) == *old(self),
    {
        let v: Vec<u8> = vec![0x00, 0x00, 0x00, 0x01, 0x40, 0x01];
        assert(v@ =~= seq![0x00u8, 0x00, 0x00, 0x01, 0x40, 0x01]);
        Ok(v)
    }

    pub fn set_resolution(&mut self, width: u32, height: u32) -> (r: Result<(), MediaError>)
        ensures
            r is Ok,
            final(self).spec_size() == (width, height),
            final(self).spec_pixel_format() == old(self).spec_pixel_format(),
            final(self).spec_bitrate() == old(self).spec_bitrate(),
    {
        self.width = width;
        self.height = height;
        Ok(())
    }

    pub fn set_pixel_format(&mut self, format: PixelFormat) -> (r: Result<(), MediaError>)
        ensures
            r is Ok,
            final(self).spec_pixel_format() == format,
            final(self).spec_size() == old(self).spec_size(),
            final(self).spec_bitrate() == old(self).spec_bitrate(),
    {
        self.pixel_format = format;
        Ok(())
    }

    pub fn set_bitrate(&mut self, bitrate: u32) -> (r: Result<(), MediaError>)
        ensures
            r is Ok,
            final(self).spec_bitrate() == bitrate,
            final(self).spec_size() == old(self).spec_size(),
            final(self).spec_pixel_format() == old(self).spec_pixel_format(),
    {
        self.bitrate = bitrate;
        Ok(())
    }

    /// Every picture is encoded alike: asking for a key frame changes nothing.
    pub fn request_keyframe(&mut self)
        ensures
            *final(self) == *old(self),
    {
    }

    /// Nothing is held back: flushing gives no bytes.
    pub fn flush(&mut self) -> (r: Result<Vec<u8>, MediaError>)
        ensures
            r matches Ok(v) && v@.len() == 0,
            *final(self) == *old(self),
    {
        Ok(Vec::new())
    }
}

} // verus!
