//! Streaming protocols: what they are, and the state of a session.

pub mod hls;
pub mod dash;
pub mod rtsp;
pub mod webrtc;

use vstd::prelude::*;
use crate::multimedia::{MediaError, MediaPacket, MediaFormat};

verus! {

#[derive(Debug, Clone, Copy, PartialEq, Eq, Structural)]
pub enum ProtocolType {
    HLS,
    DASH,
    RTSP,
    WebRTC,
    RTMP,
    SRT,
}

#[derive(Debug, Clone, Copy, PartialEq, Eq, Structural)]
pub enum SessionState {
    Idle,
    Connecting,
    Connected,
    Streaming,
    Paused,
    Disconnected,
    Error,
}

/// A stream a protocol offers.
pub struct StreamDescriptor {
    pub stream_id: usize,
    pub format: MediaFormat,
    pub bandwidth: Option<u32>,
    pub language: Option<String>,
    pub name: Option<String>,
}

/// What every streaming protocol offers.
pub trait StreamingProtocol {
    fn name(&self) -> &'static str;
    fn protocol_type(&self) -> ProtocolType;
    fn connect(&mut self, url: &str) -> Result<(), MediaError>;
    fn disconnect(&mut self) -> Result<(), MediaError>;
    fn send_packet(&mut self, packet: &MediaPacket) -> Result<(), MediaError>;
    fn receive_packet(&mut self) -> Result<MediaPacket, MediaError>;
    fn get_streams(&self) -> Vec<StreamDescriptor>;
    fn set_bitrate(&mut self, bitrate: u32) -> Result<(), MediaError>;
}

/// The counters of a session; jitter and latency are kept as the bits of
/// their 32-bit floating-point values.
#[derive(Debug, Clone, Copy, PartialEq, Eq, Structural)]
pub struct SessionStats {
    pub bytes_sent: u64,
    pub bytes_received: u64,
    pub packets_sent: u64,
    pub packets_received: u64,
    pub packets_lost: u64,
    pub jitter_bits: u32,
    pub latency_bits: u32,
    pub bitrate: u32,
}

/// A streaming session: its identifier, protocol, address, streams, state
/// and counters.
pub struct StreamingSession {
    session_id: String,
    protocol: ProtocolType,
    url: String,
    streams: Vec<StreamDescriptor>,
    state: SessionState,
    stats: SessionStats,
}

/// The session identifier every session gets.
fn generate_session_id() -> (r: String)
    ensures
        r@ == "session_12345"@,
{
    "session_12345".to_owned()
}

impl StreamingSession {
    /// The state.
    pub closed spec fn state_spec(&self) -> SessionState {
        self.state
    }

    /// The counters.
    pub closed spec fn stats_spec(&self) -> SessionStats {
        self.stats
    }

    /// The identifier, protocol and address.
    pub closed spec fn identity(&self) -> (Seq<char>, ProtocolType, Seq<char>) {
        (self.session_id@, self.protocol, self.url@)
    }

    /// An idle session of `protocol` to `url`, with no streams and all
    /// counters zero.
    pub fn new(protocol: ProtocolType, url: &str) -> (r: Self)
        ensures
            r.identity() == ("session_12345"@, protocol, url@),
            r.state_spec() == SessionState::Idle,
            r.stats_spec() == (SessionStats {
                bytes_sent: 0, bytes_received: 0, packets_sent: 0, packets_received: 0, packets_lost: 0,
                jitter_bits: 0, latency_bits: 0, bitrate: 0,
            }),
    {
        StreamingSession {
            session_id: generate_session_id(),
            protocol,
            url: url.to_owned(),
            streams: Vec::new(),
            state: SessionState::Idle,
            stats: SessionStats {
                bytes_sent: 0,
                bytes_received: 0,
                packets_sent: 0,
                packets_received: 0,
                packets_lost: 0,
                jitter_bits: 0,
                latency_bits: 0,
                bitrate: 0,
            },
        }
    }

    /// Connects an idle session; any other state is the invalid-state
    /// error and changes nothing.
    pub fn connect(&mut self) -> (r: Result<(), MediaError>)
        ensures
            old(self).state_spec() == SessionState::Idle ==> r is Ok && final(self).state_spec() == SessionState::Connected,
            old(self).state_spec() != SessionState::Idle ==> r == Err::<(), MediaError>(MediaError::InvalidState)
                && final(self).state_spec() == old(self).state_spec(),
            final(self).stats_spec() == old(self).stats_spec(),
            final(self).identity() == old(self).identity(),
    {
        if self.state != SessionState::Idle {
            return Err(MediaError::InvalidState);
        }
        self.state = SessionState::Connecting;
        self.state = SessionState::Connected;
        Ok(())
    }

    /// Starts streaming on a connected session; any other state is the
    /// invalid-state error and changes nothing.
    pub fn start_streaming(&mut self) -> (r: Result<(), MediaError>)
        ensures
            old(self).state_spec() == SessionState::Connected ==> r is Ok && final(self).state_spec() == SessionState::Streaming,
            old(self).state_spec() != SessionState::Connected ==> r == Err::<(), MediaError>(MediaError::InvalidState)
                && final(self).state_spec() == old(self).state_spec(),
            final(self).stats_spec() == old(self).stats_spec(),
            final(self).identity() == old(self).identity(),
    {
        if self.state != SessionState::Connected {
            return Err(MediaError::InvalidState);
        }
        self.state = SessionState::Streaming;
        Ok(())
    }

    /// Pauses a streaming session; any other state is the invalid-state
    /// error and changes nothing.
    pub fn pause(&mut self) -> (r: Result<(), MediaError>)
        ensures
            old(self).state_spec() == SessionState::Streaming ==> r is Ok && final(self).state_spec() == SessionState::Paused,
            old(self).state_spec() != SessionState::Streaming ==> r == Err::<(), MediaError>(MediaError::InvalidState)
                && final(self).state_spec() == old(self).state_spec(),
            final(self).stats_spec() == old(self).stats_spec(),
            final(self).identity() == old(self).identity(),
    {
        if self.state != SessionState::Streaming {
            return Err(MediaError::InvalidState);
        }
        self.state = SessionState::Paused;
        Ok(())
    }

    /// Resumes a paused session; any other state is the invalid-state error
    /// and changes nothing.
    pub fn resume(&mut self) -> (r: Result<(), MediaError>)
        ensures
            old(self).state_spec() == SessionState::Paused ==> r is Ok && final(self).state_spec() == SessionState::Streaming,
            old(self).state_spec() != SessionState::Paused ==> r == Err::<(), MediaError>(MediaError::InvalidState)
                && final(self).state_spec() == old(self).state_spec(),
            final(self).stats_spec() == old(self).stats_spec(),
            final(self).identity() == old(self).identity(),
    {
        if self.state != SessionState::Paused {
            return Err(MediaError::InvalidState);
        }
        self.state = SessionState::Streaming;
        Ok(())
    }

    /// Disconnects the session, whatever its state.
    pub fn disconnect(&mut self) -> (r: Result<(), MediaError>)
        ensures
            r is Ok,
            final(self).state_spec() == SessionState::Disconnected,
            final(self).stats_spec() == old(self).stats_spec(),
            final(self).identity() == old(self).identity(),
    {
        self.state = SessionState::Disconnected;
        Ok(())
    }

    /// The counters.
    pub fn get_stats(&self) -> (r: SessionStats)
        ensures
            r == self.stats_spec(),
    {
        self.stats
    }

    /// Replaces the counters.
    pub fn update_stats(&mut self, stats: SessionStats)
        ensures
            final(self).stats_spec() == stats,
            final(self).state_spec() == old(self).state_spec(),
            final(self).identity() == old(self).identity(),
    {
        self.stats = stats;
    }
}

} // verus!
