//! H.264: the decoder's parameter sets and pictures.

use vstd::prelude::*;
use crate::multimedia::{MediaError, PixelFormat};
use crate::multimedia::codecs::{VideoDecoder, VideoFrame, filled};

verus! {

pub struct H264Decoder {
    width: u32,
    height: u32,
    pixel_format: PixelFormat,
    sps: Option<Vec<u8>>,
    pps: Option<Vec<u8>>,
}

impl H264Decoder {
    #[verifier::type_invariant]
    spec fn frame_fits(&self) -> bool {
        self.width as int * self.height as int <= u32::MAX
    }

    pub closed spec fn spec_width(&self) -> u32 {
        self.width
    }

    pub closed spec fn spec_height(&self) -> u32 {
        self.height
    }

    pub closed spec fn spec_pixel_format(&self) -> PixelFormat {
        self.pixel_format
    }

    /// The last sequence parameter set seen.
    pub closed spec fn spec_sps(&self) -> Option<Seq<u8>> {
        match self.sps { Some(v) => Some(v@), None => None }
    }

    /// The last picture parameter set seen.
    pub closed spec fn spec_pps(&self) -> Option<Seq<u8>> {
        match self.pps { Some(v) => Some(v@), None => None }
    }

    /// A decoder for 1920 x 1080 pictures in planar YUV 4:2:0, with no parameter sets yet.
    pub fn new() -> (r: Self)
        ensures
            r.spec_width() == 1920,
            r.spec_height() == 1080,
            r.spec_pixel_format() == PixelFormat::YUV420P,
            r.spec_sps() is None && r.spec_pps() is None,
    {
        Self { width: 1920, height: 1080, pixel_format: PixelFormat::YUV420P, sps: None, pps: None }
    }

    /// Reads one NAL unit: an empty unit is the invalid-format error; a
    /// sequence parameter set (type 7) or picture parameter set (type 8) is
    /// kept; other types are passed over.
    fn parse_nal_unit(&mut self, data: &[u8]) -> (r: Result<(), MediaError>)
        ensures
            r is Ok <==> data@.len() > 0,
            r matches Err(e) ==> e == MediaError::InvalidFormat,
            final(self).spec_width() == old(self).spec_width(),
            final(self).spec_height() == old(self).spec_height(),
            final(self).spec_pixel_format() == old(self).spec_pixel_format(),
            final(self).spec_sps() == (if data@.len() > 0 && data@[0] & 0x1F == 7 { Some(data@) } else { old(self).spec_sps() }),
            final(self).spec_pps() == (if data@.len() > 0 && data@[0] & 0x1F == 8 { Some(data@) } else { old(self).spec_pps() }),
    {
        proof {
            use_type_invariant(&*self);
        }
        if data.len() == 0 {
            return Err(MediaError::InvalidFormat);
        }
        let nal_type = data[0] & 0x1F;
        if nal_type == 7 {
            self.sps = Some(vstd::slice::slice_to_vec(data));
            self.parse_sps(data)?;
        } else if nal_type == 8 {
            self.pps = Some(vstd::slice::slice_to_vec(data));
        }
        Ok(())
    }

    /// The picture size is not read from the parameter set: nothing changes.
    fn parse_sps(&mut self, data: &[u8]) -> (r: Result<(), MediaError>)
        ensures
            r is Ok,
            *final(self) == *old(self),
    {
        Ok(())
    }
}

impl VideoDecoder for H264Decoder {
    /// A blank picture of the decoder's size, after the unit is read (see `parse_nal_unit`):
    /// a black luma plane and two neutral chroma planes of a quarter its size.
    /// The size and format stay; a parameter set in the unit is kept.
    fn decode_frame(&mut self, data: &[u8]) -> (r: Result<VideoFrame, MediaError>)
        ensures
            data@.len() == 0 ==> r == Err::<VideoFrame, MediaError>(MediaError::InvalidFormat),
            data@.len() > 0 ==> (r matches Ok(f) && {
                let y = (old(self).spec_width() * old(self).spec_height()) as nat;
                &&& f.data@.len() == 3
                &&& f.data@[0]@ == Seq::new(y, |i: int| 0u8)
                &&& f.data@[1]@ == Seq::new(y / 4, |i: int| 128u8)
                &&& f.data@[2]@ == Seq::new(y / 4, |i: int| 128u8)
                &&& f.linesize@ == seq![old(self).spec_width() as usize, (old(self).spec_width() / 2) as usize, (old(self).spec_width() / 2) as usize]
                &&& f.width == old(self).spec_width() && f.height == old(self).spec_height()
                &&& f.pixel_format == old(self).spec_pixel_format()
                &&& f.pts == 0 && !f.key_frame
            }),
            final(self).spec_width() == old(self).spec_width(),
            final(self).spec_height() == old(self).spec_height(),
            final(self).spec_pixel_format() == old(self).spec_pixel_format(),
            final(self).spec_sps() == (if data@.len() > 0 && data@[0] & 0x1F == 7 { Some(data@) } else { old(self).spec_sps() }),
            final(self).spec_pps() == (if data@.len() > 0 && data@[0] & 0x1F == 8 { Some(data@) } else { old(self).spec_pps() }),
    {
        proof {
            use_type_invariant(&*self);
        }
        self.parse_nal_unit(data)?;
        proof {
            use_type_invariant(&*self);
        }
        let y_size = (self.width * self.height) as usize;
        let uv_size = y_size / 4;
        let mut data_planes: Vec<Vec<u8>> = Vec::new();
        data_planes.push(filled(y_size, 0));
        data_planes.push(filled(uv_size, 128));
        data_planes.push(filled(uv_size, 128));
        let mut linesize: Vec<usize> = Vec::new();
        linesize.push(self.width as usize);
        linesize.push(self.width as usize / 2);
        linesize.push(self.width as usize / 2);
        assert(linesize@ =~= seq![self.width as usize, (self.width / 2) as usize, (self.width / 2) as usize]);
        Ok(VideoFrame {
            data: data_planes,
            linesize,
            width: self.width,
            height: self.height,
            pixel_format: self.pixel_format,
            pts: 0,
            key_frame: false,
        })
    }

    fn get_width(&self) -> (r: u32)
        ensures
            r == self.spec_width(),
    {
        self.width
    }

    fn get_height(&self) -> (r: u32)
        ensures
            r == self.spec_height(),
    {
        self.height
    }

    fn get_pixel_format(&self) -> (r: PixelFormat)
        ensures
            r == self.spec_pixel_format(),
    {
        self.pixel_format
    }

    /// Forgets the parameter sets.
    fn reset(&mut self)
        ensures
            final(self).spec_sps() is None && final(self).spec_pps() is None,
            final(self).spec_width() == old(self).spec_width(),
            final(self).spec_height() == old(self).spec_height(),
            final(self).spec_pixel_format() == old(self).spec_pixel_format(),
    {
        proof {
            use_type_invariant(&*self);
        }
        self.sps = None;
        self.pps = None;
    }
}

} // verus!
