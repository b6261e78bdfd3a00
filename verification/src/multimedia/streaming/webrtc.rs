//! WebRTC peers: offers, answers and ICE candidates.

use vstd::prelude::*;
use crate::multimedia::{MediaError, MediaPacket};
use crate::multimedia::streaming::{StreamingProtocol, ProtocolType, StreamDescriptor};
use crate::text::push_text;

verus! {

struct IceCandidate {
    candidate: String,
    sdp_mid: String,
    sdp_mline_index: u32,
}

#[derive(Debug, Clone, Copy, PartialEq, Eq, Structural)]
pub enum SdpType {
    Offer,
    Answer,
}

struct SessionDescription {
    sdp_type: SdpType,
    sdp: String,
}

#[derive(Debug, Clone, Copy, PartialEq, Eq, Structural)]
pub enum PeerState {
    New,
    Connecting,
    Connected,
    Disconnected,
    Failed,
}

/// A WebRTC peer: its id, the candidates received, the local and remote
/// descriptions, and the connection state.
pub struct WebRtcPeer {
    peer_id: String,
    ice_candidates: Vec<IceCandidate>,
    local_sdp: Option<SessionDescription>,
    remote_sdp: Option<SessionDescription>,
    state: PeerState,
}

/// The session description every offer and answer carries.
pub open spec fn sdp_text() -> Seq<char> {
    "v=0\r\n"@ + "o=- 0 0 IN IP4 127.0.0.1\r\n"@ + "s=-\r\n"@ + "t=0 0\r\n"@
        + "m=video 9 UDP/TLS/RTP/SAVPF 96\r\n"@ + "c=IN IP4 0.0.0.0\r\n"@ + "a=rtcp:9 IN IP4 0.0.0.0\r\n"@
        + "a=ice-ufrag:4cXi\r\n"@ + "a=ice-pwd:by2GZGG1lw+040DWA6hXM5Bz\r\n"@ + "a=rtpmap:96 VP8/90000\r\n"@
}

impl WebRtcPeer {
    pub closed spec fn id(&self) -> Seq<char> {
        self.peer_id@
    }

    /// The candidates received: candidate, media id and line index.
    pub closed spec fn candidates(&self) -> Seq<(Seq<char>, Seq<char>, u32)> {
        self.ice_candidates@.map_values(|c: IceCandidate| (c.candidate@, c.sdp_mid@, c.sdp_mline_index))
    }

    /// The local description, with its kind.
    pub closed spec fn local(&self) -> Option<(SdpType, Seq<char>)> {
        match self.local_sdp {
            Some(d) => Some((d.sdp_type, d.sdp@)),
            None => None,
        }
    }

    pub closed spec fn has_remote(&self) -> bool {
        self.remote_sdp is Some
    }

    pub closed spec fn state(&self) -> PeerState {
        self.state
    }

    /// A new peer with no descriptions and no candidates.
    pub fn new(peer_id: &str) -> (r: Self)
        ensures
            r.id() == peer_id@,
            r.candidates().len() == 0,
            r.local() is None,
            !r.has_remote(),
            r.state() == PeerState::New,
    {
        let r = Self { peer_id: peer_id.to_owned(), ice_candidates: Vec::new(), local_sdp: None, remote_sdp: None, state: PeerState::New };
        assert(r.candidates() =~= Seq::empty());
        r
    }

    /// The session description text.
    fn generate_sdp(&self, sdp_type: SdpType) -> (r: String)
        ensures
            r@ == sdp_text(),
    {
        let mut sdp = String::new();
        push_text(&mut sdp, "v=0\r\n");
        push_text(&mut sdp, "o=- 0 0 IN IP4 127.0.0.1\r\n");
        push_text(&mut sdp, "s=-\r\n");
        push_text(&mut sdp, "t=0 0\r\n");
        push_text(&mut sdp, "m=video 9 UDP/TLS/RTP/SAVPF 96\r\n");
        push_text(&mut sdp, "c=IN IP4 0.0.0.0\r\n");
        push_text(&mut sdp, "a=rtcp:9 IN IP4 0.0.0.0\r\n");
        push_text(&mut sdp, "a=ice-ufrag:4cXi\r\n");
        push_text(&mut sdp, "a=ice-pwd:by2GZGG1lw+040DWA6hXM5Bz\r\n");
        push_text(&mut sdp, "a=rtpmap:96 VP8/90000\r\n");
        assert(sdp@ =~= sdp_text());
        sdp
    }

    /// Makes an offer, which becomes the local description.
    pub fn create_offer(&mut self) -> (r: Result<String, MediaError>)
        ensures
            r matches Ok(s) && s@ == sdp_text(),
            final(self).local() == Some((SdpType::Offer, sdp_text())),
            final(self).candidates() == old(self).candidates(),
            final(self).has_remote() == old(self).has_remote(),
            final(self).state() == old(self).state(),
    {
        let sdp = self.generate_sdp(SdpType::Offer);
        self.local_sdp = Some(SessionDescription { sdp_type: SdpType::Offer, sdp: sdp.clone() });
        Ok(sdp)
    }

    /// Makes an answer, which becomes the local description; without a
    /// remote description this is an invalid-state error.
    pub fn create_answer(&mut self) -> (r: Result<String, MediaError>)
        ensures
            !old(self).has_remote() ==> r == Err::<String, MediaError>(MediaError::InvalidState) && *final(self) == *old(self),
            old(self).has_remote() ==> (r matches Ok(s) && s@ == sdp_text()
                && final(self).local() == Some((SdpType::Answer, sdp_text()))),
            final(self).candidates() == old(self).candidates(),
            final(self).has_remote() == old(self).has_remote(),
            final(self).state() == old(self).state(),
    {
        if self.remote_sdp.is_none() {
            return Err(MediaError::InvalidState);
        }
        let sdp = self.generate_sdp(SdpType::Answer);
        self.local_sdp = Some(SessionDescription { sdp_type: SdpType::Answer, sdp: sdp.clone() });
        Ok(sdp)
    }

    /// Records a candidate from the other side.
    pub fn add_ice_candidate(&mut self, candidate: &str, sdp_mid: &str, sdp_mline_index: u32)
        ensures
            final(self).candidates() == old(self).candidates().push((candidate@, sdp_mid@, sdp_mline_index)),
            final(self).local() == old(self).local(),
            final(self).has_remote() == old(self).has_remote(),
            final(self).state() == old(self).state(),
    {
        self.ice_candidates.push(IceCandidate { candidate: candidate.to_owned(), sdp_mid: sdp_mid.to_owned(), sdp_mline_index });
        assert(final(self).candidates() =~= old(self).candidates().push((candidate@, sdp_mid@, sdp_mline_index)));
    }
}

impl StreamingProtocol for WebRtcPeer {
    fn name(&self) -> (r: &'static str)
        ensures
            r@ == "WebRTC"@,
    {
        "WebRTC"
    }

    fn protocol_type(&self) -> (r: ProtocolType)
        ensures
            r == ProtocolType::WebRTC,
    {
        ProtocolType::WebRTC
    }

    fn connect(&mut self, url: &str) -> (r: Result<(), MediaError>)
        ensures
            r is Ok,
            final(self).state() == PeerState::Connecting,
    {
        self.state = PeerState::Connecting;
        Ok(())
    }

    fn disconnect(&mut self) -> (r: Result<(), MediaError>)
        ensures
            r is Ok,
            final(self).state() == PeerState::Disconnected,
    {
        self.state = PeerState::Disconnected;
        Ok(())
    }

    fn send_packet(&mut self, packet: &MediaPacket) -> (r: Result<(), MediaError>)
        ensures
            r == (if old(self).state() == PeerState::Connected { Ok::<(), MediaError>(()) } else { Err(MediaError::InvalidState) }),
    {
        if self.state != PeerState::Connected {
            return Err(MediaError::InvalidState);
        }
        Ok(())
    }

    fn receive_packet(&mut self) -> (r: Result<MediaPacket, MediaError>)
        ensures
            old(self).state() != PeerState::Connected ==> r == Err::<MediaPacket, MediaError>(MediaError::InvalidState),
            old(self).state() == PeerState::Connected ==> (r matches Ok(p) && p.stream_index == 0 && p.data@.len() == 0),
    {
        if self.state != PeerState::Connected {
            return Err(MediaError::InvalidState);
        }
        Ok(MediaPacket::empty_at_zero())
    }

    fn get_streams(&self) -> (r: Vec<StreamDescriptor>)
        ensures
            r@.len() == 0,
    {
        Vec::new()
    }

    fn set_bitrate(&mut self, bitrate: u32) -> (r: Result<(), MediaError>)
        ensures
            r is Ok,
    {
        Ok(())
    }
}

} // verus!
