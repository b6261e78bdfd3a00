//! Containers: recognising and opening them, writing MP4, and the registry
//! of known container formats.

use vstd::prelude::*;
use crate::multimedia::{MediaError, MediaFormat, MediaPacket};
use crate::multimedia::format::{FormatContext, StreamInfo};
use crate::multimedia::codecs::{bytes_at, has_bytes_at};
use crate::text::text_is;

verus! {

/// What a container demuxer offers.
pub trait ContainerDemuxer {
    fn probe(&mut self, data: &[u8]) -> bool;
    fn open(&mut self, data: &[u8]) -> Result<FormatContext, MediaError>;
    fn read_packet(&mut self) -> Result<MediaPacket, MediaError>;
    fn seek(&mut self, timestamp: i64) -> Result<(), MediaError>;
    fn get_duration(&self) -> Option<i64>;
    fn get_metadata(&self) -> Vec<(String, String)>;
}

/// A context with no streams and no metadata, under the given names.
fn empty_context(duration: Option<i64>, name: &str, long_name: &str) -> (r: FormatContext)
    ensures
        r.streams@.len() == 0,
        r.duration == duration,
        r.bit_rate is None,
        r.metadata@.len() == 0,
        r.format_name@ == name@,
        r.format_long_name@ == long_name@,
{
    FormatContext {
        streams: Vec::new(),
        duration,
        bit_rate: None,
        metadata: Vec::new(),
        format_name: name.to_owned(),
        format_long_name: long_name.to_owned(),
    }
}

/// The four bytes of "ftyp".
pub open spec fn ftyp() -> Seq<u8> {
    seq![0x66u8, 0x74, 0x79, 0x70]
}

/// An MP4 demuxer. No streams or metadata are read from the file.
pub struct Mp4Demuxer {
    streams: Vec<StreamInfo>,
    current_position: u64,
    duration: Option<i64>,
    metadata: Vec<(String, String)>,
}

impl Mp4Demuxer {
    #[verifier::type_invariant]
    spec fn nothing_read(&self) -> bool {
        self.streams@.len() == 0 && self.metadata@.len() == 0
    }

    pub closed spec fn position(&self) -> u64 {
        self.current_position
    }

    pub closed spec fn spec_duration(&self) -> Option<i64> {
        self.duration
    }

    pub fn new() -> (r: Self)
        ensures
            r.position() == 0,
            r.spec_duration() is None,
    {
        Self { streams: Vec::new(), current_position: 0, duration: None, metadata: Vec::new() }
    }

    /// Checks the file-type box at the start: eight bytes at least, of type
    /// "ftyp".
    fn parse_ftyp(&mut self, data: &[u8]) -> (r: Result<(), MediaError>)
        ensures
            r is Ok <==> (data@.len() >= 8 && bytes_at(data@, 4, ftyp())),
            r matches Err(e) ==> e == MediaError::InvalidFormat,
            *final(self) == *old(self),
    {
        if data.len() < 8 {
            return Err(MediaError::InvalidFormat);
        }
        let t: [u8; 4] = [0x66, 0x74, 0x79, 0x70];
        assert(t@ =~= ftyp());
        if !has_bytes_at(data, 4, t.as_slice()) {
            return Err(MediaError::InvalidFormat);
        }
        Ok(())
    }
}

impl ContainerDemuxer for Mp4Demuxer {
    /// Twelve bytes at least, with an "ftyp", "moov" or "mdat" box type at
    /// offset 4.
    fn probe(&mut self, data: &[u8]) -> (r: bool)
        ensures
            r == (data@.len() >= 12 && (bytes_at(data@, 4, ftyp())
                || bytes_at(data@, 4, seq![0x6Du8, 0x6F, 0x6F, 0x76])
                || bytes_at(data@, 4, seq![0x6Du8, 0x64, 0x61, 0x74]))),
    {
        let t: [u8; 4] = [0x66, 0x74, 0x79, 0x70];
        let moov: [u8; 4] = [0x6D, 0x6F, 0x6F, 0x76];
        let mdat: [u8; 4] = [0x6D, 0x64, 0x61, 0x74];
        assert(t@ =~= ftyp());
        assert(moov@ =~= seq![0x6Du8, 0x6F, 0x6F, 0x76]);
        assert(mdat@ =~= seq![0x6Du8, 0x64, 0x61, 0x74]);
        data.len() >= 12 && (has_bytes_at(data, 4, t.as_slice()) || has_bytes_at(data, 4, moov.as_slice())
            || has_bytes_at(data, 4, mdat.as_slice()))
    }

    /// Opens a file that starts with a file-type box (see `parse_ftyp`): a
    /// context named "mp4" with the demuxer's duration and no streams.
    fn open(&mut self, data: &[u8]) -> (r: Result<FormatContext, MediaError>)
        ensures
            r is Ok <==> (data@.len() >= 8 && bytes_at(data@, 4, ftyp())),
            r matches Err(e) ==> e == MediaError::InvalidFormat,
            r matches Ok(c) ==> c.streams@.len() == 0 && c.duration == old(self).spec_duration() && c.bit_rate is None
                && c.metadata@.len() == 0 && c.format_name@ == "mp4"@ && c.format_long_name@ == "MPEG-4 Part 14"@,
            *final(self) == *old(self),
    {
        self.parse_ftyp(data)?;
        Ok(empty_context(self.duration, "mp4", "MPEG-4 Part 14"))
    }

    fn read_packet(&mut self) -> (r: Result<MediaPacket, MediaError>)
        ensures
            r matches Ok(p) && p.stream_index == 0 && p.data@.len() == 0 && p.pts == Some(0i64),
            *final(self) == *old(self),
    {
        Ok(MediaPacket::empty_at_zero())
    }

    /// Moves to `timestamp`, taken as a position.
    fn seek(&mut self, timestamp: i64) -> (r: Result<(), MediaError>)
        ensures
            r is Ok,
            final(self).position() == timestamp as u64,
            final(self).spec_duration() == old(self).spec_duration(),
    {
        proof {
            use_type_invariant(&*self);
        }
        self.current_position = timestamp as u64;
        Ok(())
    }

    fn get_duration(&self) -> (r: Option<i64>)
        ensures
            r == self.spec_duration(),
    {
        self.duration
    }

    fn get_metadata(&self) -> (r: Vec<(String, String)>)
        ensures
            r@.len() == 0,
    {
        Vec::new()
    }
}

/// The EBML signature that starts a Matroska file.
pub open spec fn ebml_magic() -> Seq<u8> {
    seq![0x1Au8, 0x45, 0xDF, 0xA3]
}

/// A Matroska demuxer. No streams are read from the file.
pub struct MkvDemuxer {
    streams: Vec<StreamInfo>,
    duration: Option<i64>,
}

impl MkvDemuxer {
    #[verifier::type_invariant]
    spec fn nothing_read(&self) -> bool {
        self.streams@.len() == 0
    }

    pub closed spec fn spec_duration(&self) -> Option<i64> {
        self.duration
    }

    pub fn new() -> (r: Self)
        ensures
            r.spec_duration() is None,
    {
        Self { streams: Vec::new(), duration: None }
    }
}

impl ContainerDemuxer for MkvDemuxer {
    /// Whether the file starts with the EBML signature.
    fn probe(&mut self, data: &[u8]) -> (r: bool)
        ensures
            r == bytes_at(data@, 0, ebml_magic()),
    {
        let m: [u8; 4] = [0x1A, 0x45, 0xDF, 0xA3];
        assert(m@ =~= ebml_magic());
        has_bytes_at(data, 0, m.as_slice())
    }

    /// A context named "matroska" with the demuxer's duration and no streams.
    fn open(&mut self, data: &[u8]) -> (r: Result<FormatContext, MediaError>)
        ensures
            r matches Ok(c) && c.streams@.len() == 0 && c.duration == old(self).spec_duration() && c.bit_rate is None
                && c.metadata@.len() == 0 && c.format_name@ == "matroska"@ && c.format_long_name@ == "Matroska"@,
            *final(self) == *old(self),
    {
        Ok(empty_context(self.duration, "matroska", "Matroska"))
    }

    fn read_packet(&mut self) -> (r: Result<MediaPacket, MediaError>)
        ensures
            r matches Ok(p) && p.stream_index == 0 && p.data@.len() == 0 && p.pts == Some(0i64),
            *final(self) == *old(self),
    {
        Ok(MediaPacket::empty_at_zero())
    }

    fn seek(&mut self, timestamp: i64) -> (r: Result<(), MediaError>)
        ensures
            r is Ok,
            *final(self) == *old(self),
    {
        Ok(())
    }

    fn get_duration(&self) -> (r: Option<i64>)
        ensures
            r == self.spec_duration(),
    {
        self.duration
    }

    fn get_metadata(&self) -> (r: Vec<(String, String)>)
        ensures
            r@.len() == 0,
    {
        Vec::new()
    }
}

/// A WebM demuxer: Matroska under another name.
pub struct WebMDemuxer {
    mkv_demuxer: MkvDemuxer,
}

impl WebMDemuxer {
    pub closed spec fn spec_duration(&self) -> Option<i64> {
        self.mkv_demuxer.spec_duration()
    }

    pub fn new() -> (r: Self)
        ensures
            r.spec_duration() is None,
    {
        Self { mkv_demuxer: MkvDemuxer::new() }
    }
}

impl ContainerDemuxer for WebMDemuxer {
    /// Whether the file starts with the EBML signature.
    fn probe(&mut self, data: &[u8]) -> (r: bool)
        ensures
            r == bytes_at(data@, 0, ebml_magic()),
    {
        self.mkv_demuxer.probe(data)
    }

    /// A context named "webm" with the demuxer's duration and no streams.
    fn open(&mut self, data: &[u8]) -> (r: Result<FormatContext, MediaError>)
        ensures
            r matches Ok(c) && c.streams@.len() == 0 && c.duration == old(self).spec_duration() && c.bit_rate is None
                && c.metadata@.len() == 0 && c.format_name@ == "webm"@ && c.format_long_name@ == "WebM"@,
            *final(self) == *old(self),
    {
        let mut ctx = self.mkv_demuxer.open(data)?;
        ctx.format_name = "webm".to_owned();
        ctx.format_long_name = "WebM".to_owned();
        Ok(ctx)
    }

    fn read_packet(&mut self) -> (r: Result<MediaPacket, MediaError>)
        ensures
            r matches Ok(p) && p.stream_index == 0 && p.data@.len() == 0 && p.pts == Some(0i64),
            *final(self) == *old(self),
    {
        self.mkv_demuxer.read_packet()
    }

    fn seek(&mut self, timestamp: i64) -> (r: Result<(), MediaError>)
        ensures
            r is Ok,
            *final(self) == *old(self),
    {
        self.mkv_demuxer.seek(timestamp)
    }

    fn get_duration(&self) -> (r: Option<i64>)
        ensures
            r == self.spec_duration(),
    {
        self.mkv_demuxer.get_duration()
    }

    fn get_metadata(&self) -> (r: Vec<(String, String)>)
        ensures
            r@.len() == 0,
    {
        self.mkv_demuxer.get_metadata()
    }
}

/// What a container muxer offers.
pub trait ContainerMuxer {
    fn add_stream(&mut self, format: &MediaFormat) -> Result<usize, MediaError>;
    fn write_header(&mut self) -> Result<Vec<u8>, MediaError>;
    fn write_packet(&mut self, packet: &MediaPacket) -> Result<Vec<u8>, MediaError>;
    fn write_trailer(&mut self) -> Result<Vec<u8>, MediaError>;
    fn set_metadata(&mut self, key: &str, value: &str);
}

/// The file-type box an MP4 file starts with: its size (28) big-endian,
/// "ftyp", major brand "isom", minor version 0, and the compatible brands
/// "isom", "iso2" and "mp41".
pub open spec fn mp4_ftyp_box() -> Seq<u8> {
    seq![0u8, 0, 0, 28, 0x66, 0x74, 0x79, 0x70, 0x69, 0x73, 0x6F, 0x6D, 0, 0, 0, 0,
        0x69, 0x73, 0x6F, 0x6D, 0x69, 0x73, 0x6F, 0x32, 0x6D, 0x70, 0x34, 0x31]
}

/// Whether `i` is the first position of `key` in `m`.
pub open spec fn first_with_key(m: Seq<(Seq<char>, Seq<char>)>, key: Seq<char>, i: int) -> bool {
    &&& 0 <= i < m.len()
    &&& m[i].0 == key
    &&& forall|j: int| 0 <= j < i ==> (#[trigger] m[j]).0 != key
}

/// The metadata pairs with `key` set to `value`: the first pair with that
/// key replaced in place, or the pair added at the end.
pub open spec fn with_entry(m: Seq<(Seq<char>, Seq<char>)>, key: Seq<char>, value: Seq<char>) -> Seq<(Seq<char>, Seq<char>)> {
    if exists|i: int| 0 <= i < m.len() && (#[trigger] m[i]).0 == key {
        let i = choose|i: int| first_with_key(m, key, i);
        m.update(i, (key, value))
    } else {
        m.push((key, value))
    }
}

/// Whether no key occurs twice.
pub open spec fn keys_distinct(m: Seq<(Seq<char>, Seq<char>)>) -> bool {
    forall|i: int, j: int| 0 <= i < m.len() && 0 <= j < m.len() && i != j ==> (#[trigger] m[i]).0 != (#[trigger] m[j]).0
}

/// An MP4 muxer: keeps the streams added and the metadata set; writes the
/// file-type box as the header and nothing for packets or the trailer.
pub struct Mp4Muxer {
    streams: Vec<MediaFormat>,
    metadata: Vec<(String, String)>,
}

impl Mp4Muxer {
    /// The number of streams added.
    pub closed spec fn stream_count(&self) -> nat {
        self.streams@.len()
    }

    /// The metadata, each key once, in the order keys were first set.
    pub closed spec fn metadata_pairs(&self) -> Seq<(Seq<char>, Seq<char>)> {
        self.metadata@.map_values(|p: (String, String)| (p.0@, p.1@))
    }

    /// No stream and no metadata.
    pub fn new() -> (r: Self)
        ensures
            r.stream_count() == 0,
            r.metadata_pairs() == Seq::<(Seq<char>, Seq<char>)>::empty(),
    {
        Mp4Muxer { streams: Vec::new(), metadata: Vec::new() }
    }

    /// The file-type box (see `mp4_ftyp_box`).
    fn write_ftyp(&self) -> (r: Vec<u8>)
        ensures
            r@ == mp4_ftyp_box(),
    {
        let data: Vec<u8> = vec![0, 0, 0, 28, 0x66, 0x74, 0x79, 0x70, 0x69, 0x73, 0x6F, 0x6D, 0, 0, 0, 0,
            0x69, 0x73, 0x6F, 0x6D, 0x69, 0x73, 0x6F, 0x32, 0x6D, 0x70, 0x34, 0x31];
        assert(data@ =~= mp4_ftyp_box());
        data
    }
}

impl ContainerMuxer for Mp4Muxer {
    /// Adds a stream and answers its index, the number of streams before.
    fn add_stream(&mut self, format: &MediaFormat) -> (r: Result<usize, MediaError>)
        ensures
            r == Ok::<usize, MediaError>(old(self).stream_count() as usize),
            final(self).stream_count() == old(self).stream_count() + 1,
            final(self).metadata_pairs() == old(self).metadata_pairs(),
    {
        let index = self.streams.len();
        self.streams.push(format.copy());
        proof {
            assert(self.metadata@ == old(self).metadata@);
        }
        Ok(index)
    }

    /// The file-type box.
    fn write_header(&mut self) -> (r: Result<Vec<u8>, MediaError>)
        ensures
            r matches Ok(v) && v@ == mp4_ftyp_box(),
            *final(self) == *old(self),
    {
        Ok(self.write_ftyp())
    }

    /// Nothing.
    fn write_packet(&mut self, packet: &MediaPacket) -> (r: Result<Vec<u8>, MediaError>)
        ensures
            r matches Ok(v) && v@.len() == 0,
            *final(self) == *old(self),
    {
        Ok(Vec::new())
    }

    /// Nothing.
    fn write_trailer(&mut self) -> (r: Result<Vec<u8>, MediaError>)
        ensures
            r matches Ok(v) && v@.len() == 0,
            *final(self) == *old(self),
    {
        Ok(Vec::new())
    }

    /// Sets `key` to `value`, replacing an earlier value of the key.
    fn set_metadata(&mut self, key: &str, value: &str)
        ensures
            keys_distinct(old(self).metadata_pairs()) ==> keys_distinct(final(self).metadata_pairs()),
            final(self).metadata_pairs() == with_entry(old(self).metadata_pairs(), key@, value@),
            final(self).stream_count() == old(self).stream_count(),
    {
        let ghost m = self.metadata_pairs();
        let mut i: usize = 0;
        while i < self.metadata.len()
            invariant
                i <= self.metadata@.len(),
                self.metadata_pairs() == m,
                m == old(self).metadata_pairs(),
                self.streams@ == old(self).streams@,
                forall|k: int| 0 <= k < i ==> (#[trigger] m[k]).0 != key@,
            decreases self.metadata@.len() - i,
        {
            if text_is(&self.metadata[i].0, key) {
                assert(m[i as int].0 == key@);
                self.metadata.set(i, (key.to_owned(), value.to_owned()));
                proof {
                    assert(first_with_key(m, key@, i as int));
                    let c = choose|c: int| first_with_key(m, key@, c);
                    assert(c == i as int) by {
                        if c < i as int {
                            assert(m[c].0 != key@);
                        } else if c > i as int {
                            assert(m[i as int].0 != key@);
                        }
                    }
                    let n = m.update(i as int, (key@, value@));
                    assert(self.metadata_pairs() =~= n);
                    assert forall|a: int| 0 <= a < n.len() implies (#[trigger] n[a]).0 == m[a].0 by {}
                }
                return;
            }
            i = i + 1;
        }
        self.metadata.push((key.to_owned(), value.to_owned()));
        assert(self.metadata_pairs() =~= m.push((key@, value@)));
        assert(!(exists|k: int| 0 <= k < m.len() && (#[trigger] m[k]).0 == key@));
    }
}

/// Whether the MP4 demuxer recognises `d` (see `Mp4Demuxer::probe`).
pub open spec fn mp4_probes(d: Seq<u8>) -> bool {
    d.len() >= 12 && (bytes_at(d, 4, ftyp()) || bytes_at(d, 4, seq![0x6Du8, 0x6F, 0x6F, 0x76])
        || bytes_at(d, 4, seq![0x6Du8, 0x64, 0x61, 0x74]))
}

/// The known container formats by name, in name order: demuxers for
/// "mkv", "mp4" and "webm", and no muxer.
pub struct ContainerRegistry {
    demuxers: Vec<String>,
    muxers: Vec<String>,
}

impl ContainerRegistry {
    /// The demuxer names, in order.
    pub closed spec fn demuxer_names(&self) -> Seq<Seq<char>> {
        self.demuxers@.map_values(|s: String| s@)
    }

    /// The registry of the built-in containers.
    pub fn new() -> (r: Self)
        ensures
            r.demuxer_names() == seq!["mkv"@, "mp4"@, "webm"@],
    {
        let mut registry = ContainerRegistry { demuxers: Vec::new(), muxers: Vec::new() };
        registry.register_builtin_containers();
        registry
    }

    /// Adds the MP4, Matroska and WebM demuxers, kept in name order.
    fn register_builtin_containers(&mut self)
        requires
            old(self).demuxers@.len() == 0,
        ensures
            final(self).demuxer_names() == seq!["mkv"@, "mp4"@, "webm"@],
    {
        self.demuxers.push("mkv".to_owned());
        self.demuxers.push("mp4".to_owned());
        self.demuxers.push("webm".to_owned());
        assert(self.demuxer_names() =~= seq!["mkv"@, "mp4"@, "webm"@]);
    }

    /// For each demuxer in name order, asks a fresh MP4 demuxer whether it
    /// recognises `data`, and answers the name at the first yes: the first
    /// name when the data looks like MP4, else `None`.
    pub fn probe_format(&self, data: &[u8]) -> (r: Option<String>)
        ensures
            r is Some <==> (self.demuxer_names().len() > 0 && mp4_probes(data@)),
            r matches Some(n) ==> n@ == self.demuxer_names()[0],
    {
        let mut i: usize = 0;
        while i < self.demuxers.len()
            invariant
                i <= self.demuxers@.len(),
                i > 0 ==> !mp4_probes(data@),
            decreases self.demuxers@.len() - i,
        {
            let mut demuxer = Mp4Demuxer::new();
            if demuxer.probe(data) {
                assert(i == 0);
                return Some(self.demuxers[i].clone());
            }
            i = i + 1;
        }
        None
    }
}

} // verus!
