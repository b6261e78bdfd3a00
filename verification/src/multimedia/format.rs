//! Stream formats, codec ids, rational numbers and format negotiation.

use vstd::prelude::*;
use crate::multimedia::{MediaType, PixelFormat, AudioFormat, MediaFormat};
use crate::text::{lowercase, to_lowercase, text_is};

verus! {

/// A container's description of its contents.
pub struct FormatContext {
    pub streams: Vec<StreamInfo>,
    pub duration: Option<i64>,
    pub bit_rate: Option<u64>,
    pub metadata: Vec<(String, String)>,
    pub format_name: String,
    pub format_long_name: String,
}

/// One stream of a container.
pub struct StreamInfo {
    pub index: usize,
    pub media_type: MediaType,
    pub codec_id: CodecId,
    pub codec_params: CodecParameters,
    pub time_base: Rational,
    pub start_time: Option<i64>,
    pub duration: Option<i64>,
    pub nb_frames: Option<u64>,
    pub metadata: Vec<(String, String)>,
}

#[allow(non_camel_case_types)]
#[derive(Debug, Clone, Copy, PartialEq, Eq, Structural)]
pub enum CodecId {
    NoCodec,
    H264,
    H265,
    VP8,
    VP9,
    AV1,
    MPEG2Video,
    MPEG4,
    MJPEG,
    ProRes,
    DNxHD,
    MP3,
    AAC,
    AC3,
    EAC3,
    DTS,
    Vorbis,
    Opus,
    FLAC,
    ALAC,
    PCM_S16LE,
    PCM_S16BE,
    PCM_S24LE,
    PCM_S24BE,
    PCM_S32LE,
    PCM_S32BE,
    PCM_F32LE,
    PCM_F32BE,
    SubRip,
    ASS,
    WebVTT,
    DVDSub,
    PGS,
}

/// The parameters of a stream's codec.
pub struct CodecParameters {
    pub codec_type: MediaType,
    pub codec_id: CodecId,
    pub bit_rate: Option<u64>,
    pub extra_data: Vec<u8>,
    pub width: Option<u32>,
    pub height: Option<u32>,
    pub pixel_format: Option<PixelFormat>,
    pub frame_rate: Option<Rational>,
    pub aspect_ratio: Option<Rational>,
    pub color_space: Option<ColorSpace>,
    pub color_range: Option<ColorRange>,
    pub field_order: Option<FieldOrder>,
    pub sample_rate: Option<u32>,
    pub channels: Option<u32>,
    pub channel_layout: Option<u64>,
    pub audio_format: Option<AudioFormat>,
    pub frame_size: Option<u32>,
}

#[derive(Debug, Clone, Copy, PartialEq, Eq, Structural)]
pub enum ColorSpace {
    RGB,
    BT709,
    BT601,
    BT2020,
    SMPTE170M,
    SMPTE240M,
}

#[derive(Debug, Clone, Copy, PartialEq, Eq, Structural)]
pub enum ColorRange {
    Limited,
    Full,
}

#[derive(Debug, Clone, Copy, PartialEq, Eq, Structural)]
pub enum FieldOrder {
    Progressive,
    TopFirst,
    BottomFirst,
}

/// A fraction of two 32-bit numbers.
#[derive(Debug, Clone, Copy, PartialEq, Eq, Structural)]
pub struct Rational {
    pub num: u32,
    pub den: u32,
}

/// The greatest common divisor by Euclid's algorithm.
pub open spec fn gcd(a: nat, b: nat) -> nat
    decreases b,
{
    if b == 0 { a } else { gcd(b, a % b) }
}

/// The greatest common divisor divides both numbers, and is zero only when
/// both are.
pub proof fn lemma_gcd_divides(a: nat, b: nat)
    ensures
        gcd(a, b) == 0 <==> (a == 0 && b == 0),
        gcd(a, b) > 0 ==> a % gcd(a, b) == 0 && b % gcd(a, b) == 0,
    decreases b,
{
    if b == 0 {
        if a > 0 {
            vstd::arithmetic::div_mod::lemma_mod_self_0(a as int);
        }
    } else {
        let r = a % b;
        lemma_gcd_divides(b, r);
        let g = gcd(b, r);
        assert(g == gcd(a, b));
        vstd::arithmetic::div_mod::lemma_fundamental_div_mod(a as int, b as int);
        vstd::arithmetic::div_mod::lemma_fundamental_div_mod(b as int, g as int);
        vstd::arithmetic::div_mod::lemma_fundamental_div_mod(r as int, g as int);
        let k = (a / b) * (b / g) + r / g;
        assert(a == k * g) by (nonlinear_arith)
            requires
                a == b * (a / b) + r,
                b == g * (b / g) + b % g,
                r == g * (r / g) + r % g,
                b % g == 0,
                r % g == 0,
                k == (a / b) * (b / g) + r / g;
        vstd::arithmetic::div_mod::lemma_mod_multiples_basic(k as int, g as int);
    }
}

/// Scaling both numbers scales their greatest common divisor.
pub proof fn lemma_gcd_scale(k: nat, a: nat, b: nat)
    requires
        k > 0,
    ensures
        gcd(k * a, k * b) == k * gcd(a, b),
    decreases b,
{
    if b == 0 {
        assert(k * b == 0) by (nonlinear_arith)
            requires
                b == 0;
    } else {
        assert(k * b > 0) by (nonlinear_arith)
            requires
                k > 0,
                b > 0;
        vstd::arithmetic::div_mod::lemma_truncate_middle(a as int, k as int, b as int);
        lemma_gcd_scale(k, b, a % b);
        assert((k * a) % (k * b) == k * (a % b));
    }
}

/// A fraction divided through by the greatest common divisor is in lowest
/// terms: the new numerator and denominator have no common divisor but 1.
pub proof fn lemma_reduced_coprime(num: u32, den: u32)
    requires
        !(num == 0 && den == 0),
    ensures
        gcd(reduced(num, den).0 as nat, reduced(num, den).1 as nat) == 1,
{
    let g = gcd(num as nat, den as nat);
    lemma_gcd_divides(num as nat, den as nat);
    vstd::arithmetic::div_mod::lemma_fundamental_div_mod(num as int, g as int);
    vstd::arithmetic::div_mod::lemma_fundamental_div_mod(den as int, g as int);
    let a = (num as nat) / g;
    let b = (den as nat) / g;
    assert(a <= num && b <= den) by {
        vstd::arithmetic::div_mod::lemma_div_is_ordered_by_denominator(num as int, 1, g as int);
        vstd::arithmetic::div_mod::lemma_div_is_ordered_by_denominator(den as int, 1, g as int);
    }
    assert(reduced(num, den).0 as nat == a && reduced(num, den).1 as nat == b);
    lemma_gcd_scale(g, a, b);
    assert(g * a == num && g * b == den);
    assert(g * gcd(a, b) == g);
    assert(gcd(a, b) == 1) by (nonlinear_arith)
        requires
            g > 0,
            g * gcd(a, b) == g;
}

/// Euclid's algorithm.
fn gcd_u32(a: u32, b: u32) -> (r: u32)
    ensures
        r == gcd(a as nat, b as nat),
    decreases b,
{
    if b == 0 { a } else { gcd_u32(b, a % b) }
}

/// `num / den` divided through by the greatest common divisor.
pub open spec fn reduced(num: u32, den: u32) -> (u32, u32) {
    let g = gcd(num as nat, den as nat);
    (((num as nat) / g) as u32, ((den as nat) / g) as u32)
}

impl Rational {
    /// `num / den` divided through by their greatest common divisor. Both
    /// zero has no such divisor (the division by it would fault).
    pub fn new(num: u32, den: u32) -> (r: Self)
        requires
            !(num == 0 && den == 0),
        ensures
            (r.num, r.den) == reduced(num, den),
            r.num * den == num * r.den,
            gcd(r.num as nat, r.den as nat) == 1,
    {
        let g = gcd_u32(num, den);
        proof {
            lemma_reduced_coprime(num, den);
            lemma_gcd_divides(num as nat, den as nat);
            vstd::arithmetic::div_mod::lemma_fundamental_div_mod(num as int, g as int);
            vstd::arithmetic::div_mod::lemma_fundamental_div_mod(den as int, g as int);
            let a = num / g;
            let b = den / g;
            assert(a * den == num * b) by (nonlinear_arith)
                requires
                    num == g * a,
                    den == g * b;
        }
        Self { num: num / g, den: den / g }
    }
}

/// A picture size.
#[derive(Debug, Clone, Copy, PartialEq, Eq, Structural)]
pub struct Resolution {
    pub width: u32,
    pub height: u32,
}

/// What a sink or source can take: a media type, the codecs, and the
/// parameter values it supports where it restricts them.
pub struct FormatCapability {
    pub media_type: MediaType,
    pub codecs: Vec<CodecId>,
    pub pixel_formats: Option<Vec<PixelFormat>>,
    pub audio_formats: Option<Vec<AudioFormat>>,
    pub sample_rates: Option<Vec<u32>>,
    pub channel_counts: Option<Vec<u32>>,
    pub resolutions: Option<Vec<Resolution>>,
    pub frame_rates: Option<Vec<Rational>>,
}

#[derive(Debug, Clone, Copy, PartialEq, Eq, Structural)]
pub enum FormatError {
    UnsupportedFormat,
    InvalidParameters,
    NegotiationFailed,
}

/// The codec a name stands for, compared in lower case.
pub open spec fn codec_of_name(s: Seq<char>) -> CodecId {
    let l = lowercase(s);
    if l == "h264"@ || l == "avc"@ {
        CodecId::H264
    } else if l == "h265"@ || l == "hevc"@ {
        CodecId::H265
    } else if l == "vp8"@ {
        CodecId::VP8
    } else if l == "vp9"@ {
        CodecId::VP9
    } else if l == "av1"@ {
        CodecId::AV1
    } else if l == "mp3"@ {
        CodecId::MP3
    } else if l == "aac"@ {
        CodecId::AAC
    } else if l == "vorbis"@ {
        CodecId::Vorbis
    } else if l == "opus"@ {
        CodecId::Opus
    } else if l == "flac"@ {
        CodecId::FLAC
    } else {
        CodecId::NoCodec
    }
}

/// The codec a name stands for (see `codec_of_name`).
pub fn codec_from_string(codec: &str) -> (r: CodecId)
    ensures
        r == codec_of_name(codec@),
{
    let l = to_lowercase(codec);
    if text_is(&l, "h264") || text_is(&l, "avc") {
        CodecId::H264
    } else if text_is(&l, "h265") || text_is(&l, "hevc") {
        CodecId::H265
    } else if text_is(&l, "vp8") {
        CodecId::VP8
    } else if text_is(&l, "vp9") {
        CodecId::VP9
    } else if text_is(&l, "av1") {
        CodecId::AV1
    } else if text_is(&l, "mp3") {
        CodecId::MP3
    } else if text_is(&l, "aac") {
        CodecId::AAC
    } else if text_is(&l, "vorbis") {
        CodecId::Vorbis
    } else if text_is(&l, "opus") {
        CodecId::Opus
    } else if text_is(&l, "flac") {
        CodecId::FLAC
    } else {
        CodecId::NoCodec
    }
}

/// The distance between two sizes: the differences of widths and heights,
/// added.
pub open spec fn resolution_distance(r: Resolution, w: u32, h: u32) -> int {
    (if r.width >= w { r.width - w } else { w - r.width }) + (if r.height >= h { r.height - h } else { h - r.height })
}

/// The index of the first nearest size, scanning from `i` with `best` the
/// nearest so far.
pub open spec fn nearest_resolution_from(rs: Seq<Resolution>, w: u32, h: u32, i: int, best: int) -> int
    decreases rs.len() - i,
{
    if i < 0 || i >= rs.len() {
        best
    } else {
        nearest_resolution_from(rs, w, h, i + 1,
            if resolution_distance(rs[i], w, h) < resolution_distance(rs[best], w, h) { i } else { best })
    }
}

/// The first of the nearest sizes to `w` x `h`, or 1920 x 1080 from none.
pub open spec fn nearest_resolution(rs: Seq<Resolution>, w: u32, h: u32) -> Resolution {
    if rs.len() == 0 {
        Resolution { width: 1920, height: 1080 }
    } else {
        rs[nearest_resolution_from(rs, w, h, 1, 0)]
    }
}

/// The index of the first nearest value, scanning from `i` with `best` the
/// nearest so far.
pub open spec fn nearest_value_from(vs: Seq<u32>, t: u32, i: int, best: int) -> int
    decreases vs.len() - i,
{
    if i < 0 || i >= vs.len() {
        best
    } else {
        let d = |v: u32| if v >= t { v - t } else { t - v };
        nearest_value_from(vs, t, i + 1, if d(vs[i]) < d(vs[best]) { i } else { best })
    }
}

/// The first of the values nearest to `t`, or `t` from none.
pub open spec fn nearest_value(vs: Seq<u32>, t: u32) -> u32 {
    if vs.len() == 0 { t } else { vs[nearest_value_from(vs, t, 1, 0)] }
}

/// Values the negotiation can compare without overflow: below 2^30.
pub open spec fn small(v: u32) -> bool {
    v < 0x4000_0000
}

/// The negotiator's lists that must be usable: a restricting list of pixel
/// or audio formats is not empty, and sizes and rates are small.
pub open spec fn capability_ok(c: FormatCapability) -> bool {
    &&& (c.pixel_formats matches Some(p) ==> p@.len() > 0)
    &&& (c.audio_formats matches Some(a) ==> a@.len() > 0)
    &&& (c.resolutions matches Some(rs) ==> forall|j: int| 0 <= j < rs@.len() ==> small(#[trigger] rs@[j].width) && small(rs@[j].height))
    &&& (c.sample_rates matches Some(sr) ==> forall|j: int| 0 <= j < sr@.len() ==> small(#[trigger] sr@[j]))
}

/// Whether a capability takes streams of type `mt` with codec `cid`.
pub open spec fn capability_takes(c: FormatCapability, mt: MediaType, cid: CodecId) -> bool {
    c.media_type == mt && c.codecs@.contains(cid)
}

/// The first capability, from `i` on, that takes `mt` with `cid`.
pub open spec fn first_capability(caps: Seq<FormatCapability>, mt: MediaType, cid: CodecId, i: int) -> Option<int>
    decreases caps.len() - i,
{
    if i < 0 || i >= caps.len() {
        None
    } else if capability_takes(caps[i], mt, cid) {
        Some(i)
    } else {
        first_capability(caps, mt, cid, i + 1)
    }
}

/// The pixel format agreed with `c`: the requested one, unless `c` lists
/// formats without it, in which case `c`'s first.
pub open spec fn agreed_pixel_format(c: FormatCapability, req: MediaFormat) -> Option<PixelFormat> {
    match (c.pixel_formats, req.pixel_format) {
        (Some(pf), Some(f)) => if req.media_type == MediaType::Video && !pf@.contains(f) { Some(pf@[0]) } else { req.pixel_format },
        _ => req.pixel_format,
    }
}

/// The size agreed with `c`: the requested one, unless `c` lists sizes
/// without it, in which case the nearest listed.
pub open spec fn agreed_resolution(c: FormatCapability, req: MediaFormat) -> (Option<u32>, Option<u32>) {
    match (c.resolutions, req.width, req.height) {
        (Some(rs), Some(w), Some(h)) =>
            if req.media_type == MediaType::Video && !(exists|j: int| 0 <= j < rs@.len() && rs@[j].width == w && rs@[j].height == h) {
                let n = nearest_resolution(rs@, w, h);
                (Some(n.width), Some(n.height))
            } else {
                (req.width, req.height)
            },
        _ => (req.width, req.height),
    }
}

/// The audio format agreed with `c` (as for pixel formats).
pub open spec fn agreed_audio_format(c: FormatCapability, req: MediaFormat) -> Option<AudioFormat> {
    match (c.audio_formats, req.audio_format) {
        (Some(af), Some(f)) => if req.media_type == MediaType::Audio && !af@.contains(f) { Some(af@[0]) } else { req.audio_format },
        _ => req.audio_format,
    }
}

/// The sample rate agreed with `c`: the requested one, unless `c` lists
/// rates without it, in which case the nearest listed.
pub open spec fn agreed_sample_rate(c: FormatCapability, req: MediaFormat) -> Option<u32> {
    match (c.sample_rates, req.sample_rate) {
        (Some(sr), Some(r)) => if req.media_type == MediaType::Audio && !sr@.contains(r) { Some(nearest_value(sr@, r)) } else { req.sample_rate },
        _ => req.sample_rate,
    }
}

/// Whether `n` is what negotiating `req` against `caps` gives: the request
/// with the parameters agreed with the first capability that takes it.
pub open spec fn negotiated(caps: Seq<FormatCapability>, req: MediaFormat, n: MediaFormat) -> bool {
    match first_capability(caps, req.media_type, codec_of_name(req.codec@), 0) {
        None => false,
        Some(i) => {
            let c = caps[i];
            &&& n.media_type == req.media_type
            &&& n.codec@ == req.codec@
            &&& n.bitrate == req.bitrate
            &&& n.channels == req.channels
            &&& n.extra_data@ == req.extra_data@
            &&& n.pixel_format == agreed_pixel_format(c, req)
            &&& (n.width, n.height) == agreed_resolution(c, req)
            &&& n.audio_format == agreed_audio_format(c, req)
            &&& n.sample_rate == agreed_sample_rate(c, req)
        },
    }
}

/// The first capability found is one that takes the stream, and none before
/// it does; none is found exactly when no capability takes it.
pub proof fn lemma_first_capability(caps: Seq<FormatCapability>, mt: MediaType, cid: CodecId, k: int)
    requires
        0 <= k,
    ensures
        first_capability(caps, mt, cid, k) is None <==> !(exists|j: int| k <= j < caps.len() && capability_takes(#[trigger] caps[j], mt, cid)),
        first_capability(caps, mt, cid, k) matches Some(i) ==> k <= i < caps.len() && capability_takes(caps[i], mt, cid)
            && forall|j: int| k <= j < i ==> !capability_takes(#[trigger] caps[j], mt, cid),
    decreases caps.len() - k,
{
    if k < caps.len() {
        lemma_first_capability(caps, mt, cid, k + 1);
        if !capability_takes(caps[k], mt, cid) {
            assert forall|j: int| k <= j < caps.len() && capability_takes(#[trigger] caps[j], mt, cid) implies k + 1 <= j by {}
        }
    }
}

/// The index the nearest-size scan ends on is one of the sizes.
proof fn lemma_nearest_resolution_in(rs: Seq<Resolution>, w: u32, h: u32, i: int, best: int)
    requires
        0 <= best < rs.len(),
    ensures
        0 <= nearest_resolution_from(rs, w, h, i, best) < rs.len(),
    decreases rs.len() - i,
{
    if !(i < 0 || i >= rs.len()) {
        lemma_nearest_resolution_in(rs, w, h, i + 1,
            if resolution_distance(rs[i], w, h) < resolution_distance(rs[best], w, h) { i } else { best });
    }
}

/// The index the nearest-value scan ends on is one of the values.
proof fn lemma_nearest_value_in(vs: Seq<u32>, t: u32, i: int, best: int)
    requires
        0 <= best < vs.len(),
    ensures
        0 <= nearest_value_from(vs, t, i, best) < vs.len(),
    decreases vs.len() - i,
{
    if !(i < 0 || i >= vs.len()) {
        let d = |v: u32| if v >= t { v - t } else { t - v };
        lemma_nearest_value_in(vs, t, i + 1, if d(vs[i]) < d(vs[best]) { i } else { best });
    }
}

/// Negotiating a format that negotiation gave changes nothing: the same
/// capability is found and every agreed parameter is already allowed by
/// it. Such a format also meets `negotiate`'s demands on sizes and rates.
pub proof fn lemma_negotiation_idempotent(caps: Seq<FormatCapability>, req: MediaFormat, n: MediaFormat)
    requires
        forall|j: int| 0 <= j < caps.len() ==> capability_ok(#[trigger] caps[j]),
        req.width matches Some(w) ==> small(w),
        req.height matches Some(h) ==> small(h),
        req.sample_rate matches Some(s) ==> small(s),
        negotiated(caps, req, n),
    ensures
        negotiated(caps, n, n),
        n.width matches Some(w) ==> small(w),
        n.height matches Some(h) ==> small(h),
        n.sample_rate matches Some(s) ==> small(s),
{
    let cid = codec_of_name(req.codec@);
    lemma_first_capability(caps, req.media_type, cid, 0);
    let i = first_capability(caps, req.media_type, cid, 0)->0;
    let c = caps[i];
    assert(capability_ok(c));
    assert(codec_of_name(n.codec@) == cid);
    match (c.pixel_formats, req.pixel_format) {
        (Some(pf), Some(f)) => {
            if req.media_type == MediaType::Video && !pf@.contains(f) {
                assert(pf@.contains(pf@[0]));
            }
        },
        _ => {},
    }
    match (c.audio_formats, req.audio_format) {
        (Some(af), Some(f)) => {
            if req.media_type == MediaType::Audio && !af@.contains(f) {
                assert(af@.contains(af@[0]));
            }
        },
        _ => {},
    }
    match (c.resolutions, req.width, req.height) {
        (Some(rs), Some(w), Some(h)) => {
            if req.media_type == MediaType::Video && !(exists|j: int| 0 <= j < rs@.len() && rs@[j].width == w && rs@[j].height == h) {
                if rs@.len() > 0 {
                    lemma_nearest_resolution_in(rs@, w, h, 1, 0);
                    let j = nearest_resolution_from(rs@, w, h, 1, 0);
                    assert(small(rs@[j].width) && small(rs@[j].height));
                    assert(rs@[j].width == n.width->0 && rs@[j].height == n.height->0);
                }
            }
        },
        _ => {},
    }
    match (c.sample_rates, req.sample_rate) {
        (Some(sr), Some(r)) => {
            if req.media_type == MediaType::Audio && !sr@.contains(r) {
                if sr@.len() > 0 {
                    lemma_nearest_value_in(sr@, r, 1, 0);
                    let j = nearest_value_from(sr@, r, 1, 0);
                    assert(small(sr@[j]));
                    assert(sr@.contains(sr@[j]));
                }
            }
        },
        _ => {},
    }
}

/// How far `v` is from `t`.
pub open spec fn gap(v: u32, t: u32) -> int {
    if v >= t { v - t } else { t - v }
}

proof fn lemma_nearest_value_scan(vs: Seq<u32>, t: u32, i: int, best: int)
    requires
        0 <= best < vs.len(),
        0 <= i,
        forall|j: int| 0 <= j < i && j < vs.len() ==> gap(vs[best], t) <= gap(#[trigger] vs[j], t),
    ensures
        0 <= nearest_value_from(vs, t, i, best) < vs.len(),
        forall|j: int| 0 <= j < vs.len() ==> gap(vs[nearest_value_from(vs, t, i, best)], t) <= gap(#[trigger] vs[j], t),
    decreases vs.len() - i,
{
    if i < vs.len() {
        let nb = if gap(vs[i], t) < gap(vs[best], t) { i } else { best };
        lemma_nearest_value_scan(vs, t, i + 1, nb);
    }
}

/// The value `nearest_value` picks from a non-empty list is one of the
/// listed values, and no listed value is nearer to `t`.
pub proof fn lemma_nearest_value_is_nearest(vs: Seq<u32>, t: u32)
    requires
        vs.len() > 0,
    ensures
        vs.contains(nearest_value(vs, t)),
        forall|j: int| 0 <= j < vs.len() ==> gap(nearest_value(vs, t), t) <= gap(#[trigger] vs[j], t),
{
    lemma_nearest_value_scan(vs, t, 1, 0);
    assert(vs[nearest_value_from(vs, t, 1, 0)] == nearest_value(vs, t));
}

proof fn lemma_nearest_resolution_scan(rs: Seq<Resolution>, w: u32, h: u32, i: int, best: int)
    requires
        0 <= best < rs.len(),
        0 <= i,
        forall|j: int| 0 <= j < i && j < rs.len() ==> resolution_distance(rs[best], w, h) <= resolution_distance(#[trigger] rs[j], w, h),
    ensures
        0 <= nearest_resolution_from(rs, w, h, i, best) < rs.len(),
        forall|j: int| 0 <= j < rs.len() ==> resolution_distance(rs[nearest_resolution_from(rs, w, h, i, best)], w, h)
            <= resolution_distance(#[trigger] rs[j], w, h),
    decreases rs.len() - i,
{
    if i < rs.len() {
        let nb = if resolution_distance(rs[i], w, h) < resolution_distance(rs[best], w, h) { i } else { best };
        lemma_nearest_resolution_scan(rs, w, h, i + 1, nb);
    }
}

/// The size `nearest_resolution` picks from a non-empty list is one of the
/// listed sizes, and no listed size is nearer to `w` x `h` (width and
/// height differences added).
pub proof fn lemma_nearest_resolution_is_nearest(rs: Seq<Resolution>, w: u32, h: u32)
    requires
        rs.len() > 0,
    ensures
        rs.contains(nearest_resolution(rs, w, h)),
        forall|j: int| 0 <= j < rs.len() ==> gap(nearest_resolution(rs, w, h).width, w) + gap(nearest_resolution(rs, w, h).height, h)
            <= gap((#[trigger] rs[j]).width, w) + gap(rs[j].height, h),
{
    lemma_nearest_resolution_scan(rs, w, h, 1, 0);
    assert(rs[nearest_resolution_from(rs, w, h, 1, 0)] == nearest_resolution(rs, w, h));
}

/// An audio rate the capability does not list is replaced by a listed one,
/// as near to the requested rate as any listed rate.
pub proof fn lemma_agreed_rate_is_nearest(c: FormatCapability, req: MediaFormat)
    requires
        req.media_type == MediaType::Audio,
        c.sample_rates matches Some(sr) && sr@.len() > 0,
        req.sample_rate matches Some(x) && !c.sample_rates->0@.contains(x),
    ensures
        agreed_sample_rate(c, req) matches Some(r) && c.sample_rates->0@.contains(r)
            && forall|j: int| 0 <= j < c.sample_rates->0@.len()
                ==> gap(r, req.sample_rate->0) <= gap(#[trigger] c.sample_rates->0@[j], req.sample_rate->0),
{
    lemma_nearest_value_is_nearest(c.sample_rates->0@, req.sample_rate->0);
}

/// Holds the capabilities offered, in the order added.
pub struct FormatNegotiator {
    supported_formats: Vec<FormatCapability>,
}

fn has_codec(v: &Vec<CodecId>, c: CodecId) -> (r: bool)
    ensures
        r == v@.contains(c),
{
    let mut i: usize = 0;
    while i < v.len()
        invariant
            i <= v@.len(),
            forall|j: int| 0 <= j < i ==> v@[j] != c,
        decreases v@.len() - i,
    {
        if v[i] == c {
            return true;
        }
        i = i + 1;
    }
    false
}

fn has_pixel_format(v: &Vec<PixelFormat>, c: PixelFormat) -> (r: bool)
    ensures
        r == v@.contains(c),
{
    let mut i: usize = 0;
    while i < v.len()
        invariant
            i <= v@.len(),
            forall|j: int| 0 <= j < i ==> v@[j] != c,
        decreases v@.len() - i,
    {
        if v[i] == c {
            return true;
        }
        i = i + 1;
    }
    false
}

fn has_audio_format(v: &Vec<AudioFormat>, c: AudioFormat) -> (r: bool)
    ensures
        r == v@.contains(c),
{
    let mut i: usize = 0;
    while i < v.len()
        invariant
            i <= v@.len(),
            forall|j: int| 0 <= j < i ==> v@[j] != c,
        decreases v@.len() - i,
    {
        if v[i] == c {
            return true;
        }
        i = i + 1;
    }
    false
}

fn has_value(v: &Vec<u32>, c: u32) -> (r: bool)
    ensures
        r == v@.contains(c),
{
    let mut i: usize = 0;
    while i < v.len()
        invariant
            i <= v@.len(),
            forall|j: int| 0 <= j < i ==> v@[j] != c,
        decreases v@.len() - i,
    {
        if v[i] == c {
            return true;
        }
        i = i + 1;
    }
    false
}

fn has_resolution(v: &Vec<Resolution>, w: u32, h: u32) -> (r: bool)
    ensures
        r == exists|j: int| 0 <= j < v@.len() && v@[j].width == w && v@[j].height == h,
{
    let mut i: usize = 0;
    while i < v.len()
        invariant
            i <= v@.len(),
            forall|j: int| 0 <= j < i ==> !(v@[j].width == w && v@[j].height == h),
        decreases v@.len() - i,
    {
        if v[i].width == w && v[i].height == h {
            return true;
        }
        i = i + 1;
    }
    false
}

fn distance(r: Resolution, w: u32, h: u32) -> (d: u32)
    requires
        small(r.width) && small(r.height) && small(w) && small(h),
    ensures
        d == resolution_distance(r, w, h),
{
    let dw = if r.width >= w { r.width - w } else { w - r.width };
    let dh = if r.height >= h { r.height - h } else { h - r.height };
    dw + dh
}

impl FormatNegotiator {
    /// The capabilities, in the order added.
    pub closed spec fn capabilities(&self) -> Seq<FormatCapability> {
        self.supported_formats@
    }

    /// A negotiator with no capabilities.
    pub fn new() -> (r: Self)
        ensures
            r.capabilities().len() == 0,
    {
        Self { supported_formats: Vec::new() }
    }

    /// Adds a capability after the others.
    pub fn add_capability(&mut self, capability: FormatCapability)
        ensures
            final(self).capabilities() == old(self).capabilities().push(capability),
    {
        self.supported_formats.push(capability);
    }

    /// The first of the nearest sizes (see `nearest_resolution`).
    fn find_closest_resolution(target: &Resolution, resolutions: &Vec<Resolution>) -> (r: Resolution)
        requires
            small(target.width) && small(target.height),
            forall|j: int| 0 <= j < resolutions@.len() ==> small(#[trigger] resolutions@[j].width) && small(resolutions@[j].height),
        ensures
            r == nearest_resolution(resolutions@, target.width, target.height),
    {
        if resolutions.len() == 0 {
            return Resolution { width: 1920, height: 1080 };
        }
        let ghost rs = resolutions@;
        let mut best: usize = 0;
        let mut i: usize = 1;
        while i < resolutions.len()
            invariant
                1 <= i <= rs.len(),
                rs == resolutions@,
                best < i,
                small(target.width) && small(target.height),
                forall|j: int| 0 <= j < rs.len() ==> small(#[trigger] rs[j].width) && small(rs[j].height),
                nearest_resolution_from(rs, target.width, target.height, i as int, best as int)
                    == nearest_resolution_from(rs, target.width, target.height, 1, 0),
            decreases rs.len() - i,
        {
            if distance(resolutions[i], target.width, target.height) < distance(resolutions[best], target.width, target.height) {
                best = i;
            }
            i = i + 1;
        }
        resolutions[best]
    }

    /// The first of the values nearest to `target` (see `nearest_value`).
    fn find_closest_value(target: u32, values: &Vec<u32>) -> (r: u32)
        requires
            small(target),
            forall|j: int| 0 <= j < values@.len() ==> small(#[trigger] values@[j]),
        ensures
            r == nearest_value(values@, target),
    {
        if values.len() == 0 {
            return target;
        }
        let ghost vs = values@;
        let mut best: usize = 0;
        let mut i: usize = 1;
        while i < values.len()
            invariant
                1 <= i <= vs.len(),
                vs == values@,
                best < i,
                nearest_value_from(vs, target, i as int, best as int) == nearest_value_from(vs, target, 1, 0),
            decreases vs.len() - i,
        {
            let v = values[i];
            let b = values[best];
            let dv = if v >= target { v - target } else { target - v };
            let db = if b >= target { b - target } else { target - b };
            if dv < db {
                best = i;
            }
            i = i + 1;
        }
        values[best]
    }

    /// Agrees a format with the first capability that takes the requested
    /// media type and codec: the request, with each parameter that the
    /// capability restricts and does not allow replaced as the `agreed_*`
    /// functions say. With no such capability the result is the
    /// unsupported-format error.
    pub fn negotiate(&self, requested: &MediaFormat) -> (r: Result<MediaFormat, FormatError>)
        requires
            forall|j: int| 0 <= j < self.capabilities().len() ==> capability_ok(#[trigger] self.capabilities()[j]),
            requested.width matches Some(w) ==> small(w),
            requested.height matches Some(h) ==> small(h),
            requested.sample_rate matches Some(s) ==> small(s),
        ensures
            ({
                let cid = codec_of_name(requested.codec@);
                match first_capability(self.capabilities(), requested.media_type, cid, 0) {
                    None => r == Err::<MediaFormat, FormatError>(FormatError::UnsupportedFormat),
                    Some(i) => {
                        let c = self.capabilities()[i];
                        r matches Ok(n) && {
                            &&& n.media_type == requested.media_type
                            &&& n.codec@ == requested.codec@
                            &&& n.bitrate == requested.bitrate
                            &&& n.channels == requested.channels
                            &&& n.extra_data@ == requested.extra_data@
                            &&& n.pixel_format == agreed_pixel_format(c, *requested)
                            &&& (n.width, n.height) == agreed_resolution(c, *requested)
                            &&& n.audio_format == agreed_audio_format(c, *requested)
                            &&& n.sample_rate == agreed_sample_rate(c, *requested)
                        }
                    },
                }
            }),
            r is Err <==> !(exists|j: int| 0 <= j < self.capabilities().len()
                && capability_takes(#[trigger] self.capabilities()[j], requested.media_type, codec_of_name(requested.codec@))),
            r matches Ok(n) ==> negotiated(self.capabilities(), *requested, n),
    {
        proof {
            lemma_first_capability(self.capabilities(), requested.media_type, codec_of_name(requested.codec@), 0);
        }
        let codec_id = codec_from_string(requested.codec.as_str());
        let ghost caps = self.capabilities();
        let mut k: usize = 0;
        while k < self.supported_formats.len()
            invariant
                k <= caps.len(),
                caps == self.capabilities(),
                codec_id == codec_of_name(requested.codec@),
                forall|j: int| 0 <= j < caps.len() ==> capability_ok(#[trigger] caps[j]),
                requested.width matches Some(w) ==> small(w),
                requested.height matches Some(h) ==> small(h),
                requested.sample_rate matches Some(s) ==> small(s),
                first_capability(caps, requested.media_type, codec_id, 0) == first_capability(caps, requested.media_type, codec_id, k as int),
            decreases caps.len() - k,
        {
            let capability = &self.supported_formats[k];
            if capability.media_type != requested.media_type || !has_codec(&capability.codecs, codec_id) {
                k = k + 1;
                continue;
            }
            assert(capability_ok(caps[k as int]));
            let mut negotiated = requested.copy();
            if requested.media_type == MediaType::Video {
                match (&capability.pixel_formats, requested.pixel_format) {
                    (Some(pixel_formats), Some(f)) => {
                        if !has_pixel_format(pixel_formats, f) {
                            negotiated.pixel_format = Some(pixel_formats[0]);
                        }
                    },
                    _ => {},
                }
                match (&capability.resolutions, requested.width, requested.height) {
                    (Some(resolutions), Some(w), Some(h)) => {
                        if !has_resolution(resolutions, w, h) {
                            let closest = Self::find_closest_resolution(&Resolution { width: w, height: h }, resolutions);
                            negotiated.width = Some(closest.width);
                            negotiated.height = Some(closest.height);
                        }
                    },
                    _ => {},
                }
            }
            if requested.media_type == MediaType::Audio {
                match (&capability.audio_formats, requested.audio_format) {
                    (Some(audio_formats), Some(f)) => {
                        if !has_audio_format(audio_formats, f) {
                            negotiated.audio_format = Some(audio_formats[0]);
                        }
                    },
                    _ => {},
                }
                match (&capability.sample_rates, requested.sample_rate) {
                    (Some(sample_rates), Some(rate)) => {
                        if !has_value(sample_rates, rate) {
                            let closest = Self::find_closest_value(rate, sample_rates);
                            negotiated.sample_rate = Some(closest);
                        }
                    },
                    _ => {},
                }
            }
            return Ok(negotiated);
        }
        Err(FormatError::UnsupportedFormat)
    }
}

} // verus!
