//! RTSP client.

use vstd::prelude::*;
use crate::multimedia::{MediaError, MediaPacket};
use crate::multimedia::streaming::{StreamingProtocol, ProtocolType, StreamDescriptor};
use crate::text::{push_text, push_u64_decimal, decimal_text};

verus! {

#[derive(Debug, Clone, Copy, PartialEq, Eq, Structural)]
pub enum RtspState {
    Idle,
    Ready,
    Playing,
    Recording,
}

/// An RTSP client: the server, the session it was given, the sequence number
/// of the last request, and where in the protocol it stands.
pub struct RtspClient {
    server_url: String,
    session_id: Option<String>,
    cseq: u32,
    state: RtspState,
}

/// A request: the request line, the sequence number, the session when one
/// was given, and the empty line that ends it.
pub open spec fn rtsp_request(method: Seq<char>, url: Seq<char>, cseq: u32, session: Option<Seq<char>>) -> Seq<char> {
    method + " "@ + url + " RTSP/1.0\r\n"@ + "CSeq: "@ + decimal_text(cseq as nat) + "\r\n"@
        + (match session {
            Some(s) => "Session: "@ + s + "\r\n"@,
            None => Seq::empty(),
        })
        + "\r\n"@
}

impl RtspClient {
    pub closed spec fn url(&self) -> Seq<char> {
        self.server_url@
    }

    pub closed spec fn session(&self) -> Option<Seq<char>> {
        match self.session_id {
            Some(s) => Some(s@),
            None => None,
        }
    }

    pub closed spec fn sequence(&self) -> u32 {
        self.cseq
    }

    pub closed spec fn state(&self) -> RtspState {
        self.state
    }

    /// An idle client with no server and no session.
    pub fn new() -> (r: Self)
        ensures
            r.url().len() == 0,
            r.session() is None,
            r.sequence() == 0,
            r.state() == RtspState::Idle,
    {
        Self { server_url: String::new(), session_id: None, cseq: 0, state: RtspState::Idle }
    }

    /// The next request for `method` on `url`; its sequence number is one
    /// more than the last.
    pub fn send_request(&mut self, method: &str, url: &str) -> (r: String)
        requires
            old(self).sequence() < u32::MAX,
        ensures
            final(self).sequence() == old(self).sequence() + 1,
            final(self).session() == old(self).session(),
            final(self).state() == old(self).state(),
            final(self).url() == old(self).url(),
            r@ == rtsp_request(method@, url@, final(self).sequence(), old(self).session()),
    {
        self.cseq = self.cseq + 1;
        let mut request = String::new();
        push_text(&mut request, method);
        push_text(&mut request, " ");
        push_text(&mut request, url);
        push_text(&mut request, " RTSP/1.0\r\n");
        push_text(&mut request, "CSeq: ");
        push_u64_decimal(&mut request, self.cseq as u64);
        push_text(&mut request, "\r\n");
        match &self.session_id {
            Some(session) => {
                push_text(&mut request, "Session: ");
                push_text(&mut request, session.as_str());
                push_text(&mut request, "\r\n");
            },
            None => {},
        }
        push_text(&mut request, "\r\n");
        assert(request@ =~= rtsp_request(method@, url@, self.cseq, old(self).session()));
        request
    }
}

impl StreamingProtocol for RtspClient {
    fn name(&self) -> (r: &'static str)
        ensures
            r@ == "RTSP"@,
    {
        "RTSP"
    }

    fn protocol_type(&self) -> (r: ProtocolType)
        ensures
            r == ProtocolType::RTSP,
    {
        ProtocolType::RTSP
    }

    fn connect(&mut self, url: &str) -> (r: Result<(), MediaError>)
        ensures
            r is Ok,
            final(self).url() == url@,
            final(self).state() == RtspState::Ready,
            final(self).session() == old(self).session(),
            final(self).sequence() == old(self).sequence(),
    {
        self.server_url = url.to_owned();
        self.state = RtspState::Ready;
        Ok(())
    }

    fn disconnect(&mut self) -> (r: Result<(), MediaError>)
        ensures
            r is Ok,
            final(self).state() == RtspState::Idle,
            final(self).session() is None,
            final(self).url() == old(self).url(),
            final(self).sequence() == old(self).sequence(),
    {
        self.state = RtspState::Idle;
        self.session_id = None;
        Ok(())
    }

    fn send_packet(&mut self, packet: &MediaPacket) -> (r: Result<(), MediaError>)
        ensures
            r == (if old(self).state() == RtspState::Recording { Ok::<(), MediaError>(()) } else { Err(MediaError::InvalidState) }),
            *final(self) == *old(self),
    {
        if self.state != RtspState::Recording {
            return Err(MediaError::InvalidState);
        }
        Ok(())
    }

    fn receive_packet(&mut self) -> (r: Result<MediaPacket, MediaError>)
        ensures
            old(self).state() != RtspState::Playing ==> r == Err::<MediaPacket, MediaError>(MediaError::InvalidState),
            old(self).state() == RtspState::Playing ==> (r matches Ok(p) && p.stream_index == 0 && p.data@.len() == 0),
            *final(self) == *old(self),
    {
        if self.state != RtspState::Playing {
            return Err(MediaError::InvalidState);
        }
        Ok(MediaPacket::empty_at_zero())
    }

    fn get_streams(&self) -> (r: Vec<StreamDescriptor>)
        ensures
            r@.len() == 0,
    {
        Vec::new()
    }

    fn set_bitrate(&mut self, bitrate: u32) -> (r: Result<(), MediaError>)
        ensures
            r is Ok,
    {
        Ok(())
    }
}

} // verus!
