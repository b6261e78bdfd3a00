//! HLS media playlists and master playlists.

use vstd::prelude::*;
use crate::text::{push_text, push_u64_decimal, decimal_text, first_index, text_lines, trimmed, starts_with,
    unsigned_text_value, lines_of, trim_text, chars_of, chars_start_with, string_of, parse_u32, parse_u64};
use crate::multimedia::{MediaError, MediaPacket, MediaFormat, MediaType};
use crate::multimedia::streaming::{StreamingProtocol, ProtocolType, StreamDescriptor};

verus! {

/// One variant stream of a master playlist.
struct Variant {
    bandwidth: u32,
    resolution: Option<(u32, u32)>,
    codecs: String,
    url: String,
    audio_group: Option<String>,
    subtitle_group: Option<String>,
}

/// A master playlist: the variant streams, in the order added.
pub struct MasterPlaylist {
    variants: Vec<Variant>,
}

/// The line of one variant: bandwidth, resolution when known, and codecs,
/// then the variant's address on a line of its own.
pub open spec fn variant_text(bandwidth: u32, resolution: Option<(u32, u32)>, codecs: Seq<char>, url: Seq<char>) -> Seq<char> {
    "#EXT-X-STREAM-INF:BANDWIDTH="@ + decimal_text(bandwidth as nat)
        + (match resolution {
            Some((w, h)) => ",RESOLUTION="@ + decimal_text(w as nat) + "x"@ + decimal_text(h as nat),
            None => Seq::empty(),
        })
        + ",CODECS=\""@ + codecs + "\""@ + "\n"@ + url + "\n"@
}

/// The lines of the first `n` variants.
pub open spec fn variants_text(v: Seq<(u32, Option<(u32, u32)>, Seq<char>, Seq<char>)>, n: nat) -> Seq<char>
    decreases n,
{
    if n == 0 || n > v.len() {
        Seq::empty()
    } else {
        variants_text(v, (n - 1) as nat) + variant_text(v[n - 1].0, v[n - 1].1, v[n - 1].2, v[n - 1].3)
    }
}

/// The codecs every variant is announced with.
pub open spec fn default_codecs() -> Seq<char> {
    "avc1.42E01E,mp4a.40.2"@
}

/// Appends the lines of one variant.
fn push_variant(playlist: &mut String, v: &Variant)
    ensures
        final(playlist)@ == old(playlist)@ + variant_text(v.bandwidth, v.resolution, v.codecs@, v.url@),
{
    push_text(playlist, "#EXT-X-STREAM-INF:BANDWIDTH=");
    push_u64_decimal(playlist, v.bandwidth as u64);
    let ghost mid = playlist@;
    if let Some((w, h)) = v.resolution {
        push_text(playlist, ",RESOLUTION=");
        push_u64_decimal(playlist, w as u64);
        push_text(playlist, "x");
        push_u64_decimal(playlist, h as u64);
    }
    let ghost res_text = match v.resolution {
        Some((w, h)) => ",RESOLUTION="@ + decimal_text(w as nat) + "x"@ + decimal_text(h as nat),
        None => Seq::<char>::empty(),
    };
    assert(playlist@ =~= mid + res_text);
    push_text(playlist, ",CODECS=\"");
    push_text(playlist, v.codecs.as_str());
    push_text(playlist, "\"");
    push_text(playlist, "\n");
    push_text(playlist, v.url.as_str());
    push_text(playlist, "\n");
    assert(playlist@ =~= old(playlist)@ + variant_text(v.bandwidth, v.resolution, v.codecs@, v.url@));
}

impl MasterPlaylist {
    /// Bandwidth, resolution, codecs and address of each variant, in order.
    pub closed spec fn variants(&self) -> Seq<(u32, Option<(u32, u32)>, Seq<char>, Seq<char>)> {
        self.variants@.map_values(|v: Variant| (v.bandwidth, v.resolution, v.codecs@, v.url@))
    }

    /// A playlist with no variants.
    pub fn new() -> (r: Self)
        ensures
            r.variants().len() == 0,
    {
        let r = Self { variants: Vec::new() };
        assert(r.variants() =~= Seq::empty());
        r
    }

    /// Adds a variant, announced with the default codecs.
    pub fn add_variant(&mut self, bandwidth: u32, resolution: Option<(u32, u32)>, url: &str)
        ensures
            final(self).variants() == old(self).variants().push((bandwidth, resolution, default_codecs(), url@)),
    {
        let v = Variant {
            bandwidth,
            resolution,
            codecs: "avc1.42E01E,mp4a.40.2".to_owned(),
            url: url.to_owned(),
            audio_group: None,
            subtitle_group: None,
        };
        self.variants.push(v);
        assert(final(self).variants() =~= old(self).variants().push((bandwidth, resolution, default_codecs(), url@)));
    }

    /// The playlist text: the header line, then each variant's lines.
    pub fn generate(&self) -> (r: String)
        ensures
            r@ == "#EXTM3U\n"@ + variants_text(self.variants(), self.variants().len()),
    {
        let mut playlist = String::new();
        push_text(&mut playlist, "#EXTM3U\n");
        let ghost head = playlist@;
        let mut i: usize = 0;
        while i < self.variants.len()
            invariant
                i <= self.variants@.len(),
                head == "#EXTM3U\n"@,
                playlist@ == head + variants_text(self.variants(), i as nat),
            decreases self.variants@.len() - i,
        {
            let v = &self.variants[i];
            assert(self.variants()[i as int] == (v.bandwidth, v.resolution, v.codecs@, v.url@));
            push_variant(&mut playlist, v);
            i = i + 1;
            assert(playlist@ =~= head + variants_text(self.variants(), i as nat));
        }
        playlist
    }
}

/// One media segment: its address, its duration as the playlist writes
/// it (the text before the comma of its `#EXTINF` line, when there is
/// one), its sequence number, and whether a discontinuity precedes it.
struct Segment {
    url: String,
    duration_text: Option<String>,
    sequence: u64,
    discontinuity: bool,
}

/// A segment as the contracts see it: address, duration text, sequence.
pub type SegmentView = (Seq<char>, Option<Seq<char>>, u64);

/// An HLS media playlist being played: its address, its segments, the
/// next one to fetch, the target duration, the first sequence number,
/// and whether it is live.
pub struct HlsStreamer {
    playlist_url: String,
    segments: Vec<Segment>,
    current_segment: usize,
    target_duration: u32,
    sequence_number: u64,
    is_live: bool,
}

/// The second `:`-separated field of a line: what follows the first colon
/// up to the next one.
pub open spec fn second_field(s: Seq<char>) -> Option<Seq<char>> {
    match first_index(s, ':', 0) {
        None => None,
        Some(i) => {
            let rest = s.skip(i + 1);
            match first_index(rest, ':', 0) {
                None => Some(rest),
                Some(j) => Some(rest.take(j)),
            }
        },
    }
}

/// The text before the first comma.
pub open spec fn before_comma(s: Seq<char>) -> Seq<char> {
    match first_index(s, ',', 0) {
        None => s,
        Some(j) => s.take(j),
    }
}

/// A numeric tag's value read as a 32-bit number, or `default`.
pub open spec fn tag_u32(line: Seq<char>, default: u32) -> u32 {
    match second_field(line) {
        Some(f) => match unsigned_text_value(f) {
            Some(v) => if v <= u32::MAX { v as u32 } else { default },
            None => default,
        },
        None => default,
    }
}

/// A numeric tag's value read as a 64-bit number, or `default`.
pub open spec fn tag_u64(line: Seq<char>, default: u64) -> u64 {
    match second_field(line) {
        Some(f) => match unsigned_text_value(f) {
            Some(v) => if v <= u64::MAX { v as u64 } else { default },
            None => default,
        },
        None => default,
    }
}

/// The playlist state after reading the lines from `i` on: target
/// duration, first sequence number, segments and liveness; nothing when a
/// segment's sequence number would pass the 64-bit range.
pub open spec fn read_lines(l: Seq<Seq<char>>, i: int, target: u32, seq: u64, segs: Seq<SegmentView>, live: bool)
    -> Option<(u32, u64, Seq<SegmentView>, bool)>
    decreases l.len() - i,
{
    if i < 0 || i >= l.len() {
        Some((target, seq, segs, live))
    } else {
        let line = trimmed(l[i]);
        if starts_with(line, "#EXT-X-TARGETDURATION:"@) {
            read_lines(l, i + 1, tag_u32(line, 10), seq, segs, live)
        } else if starts_with(line, "#EXT-X-MEDIA-SEQUENCE:"@) {
            read_lines(l, i + 1, target, tag_u64(line, 0), segs, live)
        } else if starts_with(line, "#EXTINF:"@) {
            if i + 1 < l.len() && !starts_with(trimmed(l[i + 1]), "#"@) {
                let dur = match second_field(line) {
                    Some(f) => Some(before_comma(f)),
                    None => None,
                };
                if seq + segs.len() > u64::MAX {
                    None
                } else {
                    read_lines(l, i + 2, target, seq, segs.push((trimmed(l[i + 1]), dur, (seq + segs.len()) as u64)), live)
                }
            } else {
                read_lines(l, i + 1, target, seq, segs, live)
            }
        } else if line == "#EXT-X-ENDLIST"@ {
            read_lines(l, i + 1, target, seq, segs, false)
        } else {
            read_lines(l, i + 1, target, seq, segs, live)
        }
    }
}

/// Whether the text opens as a playlist must.
pub open spec fn playlist_opens(l: Seq<Seq<char>>) -> bool {
    l.len() > 0 && starts_with(l[0], "#EXTM3U"@)
}

/// Where `c` first stands in `s` from `from` on.
fn find_char(s: &[char], c: char, from: usize) -> (r: Option<usize>)
    requires
        from <= s@.len(),
    ensures
        r matches Some(i) ==> first_index(s@, c, from as int) == Some(i as int) && i < s@.len(),
        r is None ==> first_index(s@, c, from as int) is None,
{
    let mut i = from;
    while i < s.len()
        invariant
            from <= i <= s@.len(),
            first_index(s@, c, from as int) == first_index(s@, c, i as int),
        decreases s@.len() - i,
    {
        if s[i] == c {
            return Some(i);
        }
        i = i + 1;
    }
    None
}

/// The second `:`-separated field (see `second_field`).
fn second_field_of(s: &[char]) -> (r: Option<String>)
    ensures
        r matches Some(f) ==> second_field(s@) == Some(f@),
        r is None ==> second_field(s@) is None,
{
    let n = s.len();
    match find_char(s, ':', 0) {
        None => None,
        Some(i) => {
            let rest = vstd::slice::slice_subrange(s, i + 1, n);
            assert(rest@ =~= s@.skip(i + 1));
            match find_char(rest, ':', 0) {
                None => Some(string_of(rest)),
                Some(j) => {
                    let f = vstd::slice::slice_subrange(rest, 0, j);
                    assert(f@ =~= rest@.take(j as int));
                    Some(string_of(f))
                },
            }
        },
    }
}

/// The text before the first comma (see `before_comma`).
fn before_comma_of(f: &String) -> (r: String)
    ensures
        r@ == before_comma(f@),
{
    let c = chars_of(f.as_str());
    match find_char(c.as_slice(), ',', 0) {
        None => string_of(c.as_slice()),
        Some(j) => {
            let t = vstd::slice::slice_subrange(c.as_slice(), 0, j);
            assert(t@ =~= c@.take(j as int));
            string_of(t)
        },
    }
}

/// Whether the text is exactly `lit`.
fn chars_are(s: &[char], lit: &str) -> (r: bool)
    ensures
        r == (s@ == lit@),
{
    let l = chars_of(lit);
    if l.len() != s.len() {
        return false;
    }
    let b = chars_start_with(s, lit);
    assert(s@.take(l@.len() as int) =~= s@);
    b
}

impl HlsStreamer {
    /// The segments read so far: address, duration text, sequence number.
    pub closed spec fn segments(&self) -> Seq<SegmentView> {
        self.segments@.map_values(|g: Segment| (g.url@, match g.duration_text { Some(d) => Some(d@), None => None }, g.sequence))
    }

    pub closed spec fn target(&self) -> u32 {
        self.target_duration
    }

    pub closed spec fn first_sequence(&self) -> u64 {
        self.sequence_number
    }

    pub closed spec fn live(&self) -> bool {
        self.is_live
    }

    pub closed spec fn url(&self) -> Seq<char> {
        self.playlist_url@
    }

    pub closed spec fn position(&self) -> nat {
        self.current_segment as nat
    }

    /// A streamer with no playlist: no segments, a target duration of 10,
    /// sequence numbers from 0, not live.
    pub fn new() -> (r: Self)
        ensures
            r.segments().len() == 0,
            r.target() == 10 && r.first_sequence() == 0 && !r.live(),
            r.url().len() == 0 && r.position() == 0,
    {
        let r = Self {
            playlist_url: String::new(),
            segments: Vec::new(),
            current_segment: 0,
            target_duration: 10,
            sequence_number: 0,
            is_live: false,
        };
        assert(r.segments() =~= Seq::<SegmentView>::empty());
        r
    }

    /// Reads a media playlist. The first line must begin `#EXTM3U`, else
    /// this is the invalid-format error and nothing changes. Each later
    /// line, trimmed, may set the target duration (10 when unreadable) or
    /// the first sequence number (0 when unreadable), end the list (the
    /// playlist is then not live), or be an `#EXTINF` line whose next line,
    /// unless it begins with `#`, is the address of a new segment numbered
    /// after the first sequence number and the segments before it.
    pub fn parse_playlist(&mut self, content: &str) -> (r: Result<(), MediaError>)
        requires
            playlist_opens(text_lines(content@)) ==> read_lines(text_lines(content@), 1, old(self).target(),
                old(self).first_sequence(), old(self).segments(), old(self).live()) is Some,
        ensures
            !playlist_opens(text_lines(content@)) ==> r == Err::<(), MediaError>(MediaError::InvalidFormat)
                && *final(self) == *old(self),
            playlist_opens(text_lines(content@)) ==> r == Ok::<(), MediaError>(())
                && read_lines(text_lines(content@), 1, old(self).target(), old(self).first_sequence(), old(self).segments(),
                    old(self).live()) == Some((final(self).target(), final(self).first_sequence(), final(self).segments(), final(self).live()))
                && final(self).url() == old(self).url() && final(self).position() == old(self).position(),
    {
        let lines = lines_of(content);
        let ghost l = text_lines(content@);
        assert(forall|k: int| 0 <= k < lines@.len() ==> #[trigger] lines@[k]@ == l[k]) by {
            assert forall|k: int| 0 <= k < lines@.len() implies #[trigger] lines@[k]@ == l[k] by {
                assert(lines@.map_values(|x: String| x@)[k] == lines@[k]@);
            }
        }
        if lines.len() == 0 {
            return Err(MediaError::InvalidFormat);
        }
        let first = chars_of(lines[0].as_str());
        if !chars_start_with(first.as_slice(), "#EXTM3U") {
            return Err(MediaError::InvalidFormat);
        }
        let mut i: usize = 1;
        while i < lines.len()
            invariant
                1 <= i,
                lines@.len() == l.len(),
                forall|k: int| 0 <= k < lines@.len() ==> #[trigger] lines@[k]@ == l[k],
                read_lines(l, i as int, self.target_duration, self.sequence_number, self.segments(), self.is_live)
                    == read_lines(l, 1, old(self).target(), old(self).first_sequence(), old(self).segments(), old(self).live()),
                read_lines(l, 1, old(self).target(), old(self).first_sequence(), old(self).segments(), old(self).live()) is Some,
                self.playlist_url == old(self).playlist_url,
                self.current_segment == old(self).current_segment,
            decreases lines@.len() - i,
        {
            let t = trim_text(lines[i].as_str());
            let line = chars_of(t.as_str());
            if chars_start_with(line.as_slice(), "#EXT-X-TARGETDURATION:") {
                self.target_duration = match second_field_of(line.as_slice()) {
                    Some(f) => match parse_u32(f.as_str()) {
                        Some(v) => v,
                        None => 10,
                    },
                    None => 10,
                };
            } else if chars_start_with(line.as_slice(), "#EXT-X-MEDIA-SEQUENCE:") {
                self.sequence_number = match second_field_of(line.as_slice()) {
                    Some(f) => match parse_u64(f.as_str()) {
                        Some(v) => v,
                        None => 0,
                    },
                    None => 0,
                };
            } else if chars_start_with(line.as_slice(), "#EXTINF:") {
                let duration_text = match second_field_of(line.as_slice()) {
                    Some(f) => Some(before_comma_of(&f)),
                    None => None,
                };
                if i + 1 < lines.len() {
                    let url = trim_text(lines[i + 1].as_str());
                    let url_chars = chars_of(url.as_str());
                    if !chars_start_with(url_chars.as_slice(), "#") {
                        let count = self.segments.len();
                        assert(self.segments().len() == count);
                        let sequence = self.sequence_number + count as u64;
                        let ghost before = self.segments();
                        self.segments.push(Segment { url, duration_text, sequence, discontinuity: false });
                        assert(self.segments() =~= before.push((url_chars@, match duration_text {
                            Some(d) => Some(d@),
                            None => None,
                        }, sequence)));
                        i = i + 1;
                    }
                }
            } else if chars_are(line.as_slice(), "#EXT-X-ENDLIST") {
                self.is_live = false;
            }
            i = i + 1;
        }
        Ok(())
    }
}

impl StreamingProtocol for HlsStreamer {
    fn name(&self) -> (r: &'static str)
        ensures
            r@ == "HLS"@,
    {
        "HLS"
    }

    fn protocol_type(&self) -> (r: ProtocolType)
        ensures
            r == ProtocolType::HLS,
    {
        ProtocolType::HLS
    }

    fn connect(&mut self, url: &str) -> (r: Result<(), MediaError>)
        ensures
            r is Ok,
            final(self).url() == url@,
            final(self).segments() == old(self).segments(),
            final(self).position() == old(self).position(),
    {
        self.playlist_url = url.to_owned();
        Ok(())
    }

    fn disconnect(&mut self) -> (r: Result<(), MediaError>)
        ensures
            r is Ok,
            final(self).segments().len() == 0,
            final(self).position() == 0,
            final(self).url() == old(self).url(),
    {
        self.segments = Vec::new();
        self.current_segment = 0;
        assert(self.segments() =~= Seq::<SegmentView>::empty());
        Ok(())
    }

    fn send_packet(&mut self, packet: &MediaPacket) -> (r: Result<(), MediaError>)
        ensures
            r == Err::<(), MediaError>(MediaError::NotSupported),
    {
        Err(MediaError::NotSupported)
    }

    /// The next segment's packet (empty for now), or the streaming error
    /// once every segment has been taken.
    fn receive_packet(&mut self) -> (r: Result<MediaPacket, MediaError>)
        ensures
            old(self).position() >= old(self).segments().len() ==> r == Err::<MediaPacket, MediaError>(MediaError::StreamingError)
                && final(self).position() == old(self).position(),
            old(self).position() < old(self).segments().len() ==> final(self).position() == old(self).position() + 1
                && (r matches Ok(p) && p.stream_index == 0 && p.data@.len() == 0 && p.pts == Some(0i64)
                    && p.dts == Some(0i64) && p.duration == Some(0i64)),
            final(self).segments() == old(self).segments(),
    {
        if self.current_segment >= self.segments.len() {
            return Err(MediaError::StreamingError);
        }
        self.current_segment = self.current_segment + 1;
        Ok(MediaPacket::empty_at_zero())
    }

    /// One H.264 video stream, 1920x1080 at 2 Mbit/s, named "Main", with a
    /// bandwidth of 2.5 Mbit/s.
    fn get_streams(&self) -> (r: Vec<StreamDescriptor>)
        ensures
            r@.len() == 1,
            r@[0].stream_id == 0,
            r@[0].format.media_type == MediaType::Video,
            r@[0].format.codec@ == "h264"@,
            r@[0].format.bitrate == Some(2_000_000u32),
            r@[0].format.width == Some(1920u32) && r@[0].format.height == Some(1080u32),
            r@[0].format.sample_rate is None && r@[0].format.channels is None,
            r@[0].bandwidth == Some(2_500_000u32),
            r@[0].language is None,
            r@[0].name matches Some(n) && n@ == "Main"@,
    {
        let d = StreamDescriptor {
            stream_id: 0,
            format: MediaFormat {
                media_type: MediaType::Video,
                codec: "h264".to_owned(),
                bitrate: Some(2_000_000),
                sample_rate: None,
                channels: None,
                width: Some(1920),
                height: Some(1080),
                pixel_format: None,
                audio_format: None,
                extra_data: Vec::new(),
            },
            bandwidth: Some(2_500_000),
            language: None,
            name: Some("Main".to_owned()),
        };
        vec![d]
    }

    fn set_bitrate(&mut self, bitrate: u32) -> (r: Result<(), MediaError>)
        ensures
            r is Ok,
    {
        Ok(())
    }
}

} // verus!
