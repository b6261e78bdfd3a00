//! DASH streaming.

use vstd::prelude::*;
use crate::multimedia::{MediaError, MediaPacket, MediaType};
use crate::multimedia::streaming::{StreamingProtocol, ProtocolType, StreamDescriptor};

verus! {

struct Representation {
    id: String,
    bandwidth: u32,
    width: Option<u32>,
    height: Option<u32>,
    codecs: String,
    segment_template: String,
}

struct AdaptationSet {
    id: u32,
    media_type: MediaType,
    representations: Vec<Representation>,
}

struct Period {
    id: String,
    duration: Option<u64>,
    adaptation_sets: Vec<AdaptationSet>,
}

/// A DASH client: the manifest's address and its periods.
pub struct DashStreamer {
    mpd_url: String,
    periods: Vec<Period>,
    current_period: usize,
    min_buffer_time: u32,
}

impl DashStreamer {
    /// The manifest's address.
    pub closed spec fn url(&self) -> Seq<char> {
        self.mpd_url@
    }

    /// How many periods are known.
    pub closed spec fn period_count(&self) -> nat {
        self.periods@.len()
    }

    /// The buffer kept before playing, in milliseconds.
    pub closed spec fn min_buffer(&self) -> u32 {
        self.min_buffer_time
    }

    /// A client with no manifest, buffering two seconds.
    pub fn new() -> (r: Self)
        ensures
            r.url().len() == 0,
            r.period_count() == 0,
            r.min_buffer() == 2000,
    {
        Self { mpd_url: String::new(), periods: Vec::new(), current_period: 0, min_buffer_time: 2000 }
    }
}

impl StreamingProtocol for DashStreamer {
    fn name(&self) -> (r: &'static str)
        ensures
            r@ == "DASH"@,
    {
        "DASH"
    }

    fn protocol_type(&self) -> (r: ProtocolType)
        ensures
            r == ProtocolType::DASH,
    {
        ProtocolType::DASH
    }

    fn connect(&mut self, url: &str) -> (r: Result<(), MediaError>)
        ensures
            r is Ok,
            final(self).url() == url@,
            final(self).period_count() == old(self).period_count(),
    {
        self.mpd_url = url.to_owned();
        Ok(())
    }

    fn disconnect(&mut self) -> (r: Result<(), MediaError>)
        ensures
            r is Ok,
            final(self).period_count() == 0,
            final(self).url() == old(self).url(),
    {
        self.periods.clear();
        Ok(())
    }

    fn send_packet(&mut self, packet: &MediaPacket) -> (r: Result<(), MediaError>)
        ensures
            r == Err::<(), MediaError>(MediaError::NotSupported),
    {
        Err(MediaError::NotSupported)
    }

    fn receive_packet(&mut self) -> (r: Result<MediaPacket, MediaError>)
        ensures
            r matches Ok(p) && p.stream_index == 0 && p.data@.len() == 0 && p.pts == Some(0i64),
    {
        Ok(MediaPacket::empty_at_zero())
    }

    fn get_streams(&self) -> (r: Vec<StreamDescriptor>)
        ensures
            r@.len() == 0,
    {
        Vec::new()
    }

    fn set_bitrate(&mut self, bitrate: u32) -> (r: Result<(), MediaError>)
        ensures
            r is Ok,
    {
        Ok(())
    }
}

} // verus!
