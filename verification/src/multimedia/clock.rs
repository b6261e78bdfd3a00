//! Timestamps in a time base, and the time bases themselves.

use vstd::prelude::*;
use core::time::Duration;
use crate::multimedia::format::{gcd, lemma_gcd_divides, reduced};

verus! {

/// A time base: seconds per tick, as a fraction.
#[derive(Debug, Clone, Copy, PartialEq, Eq, Structural)]
pub struct Rational {
    pub num: u32,
    pub den: u32,
}

fn gcd_of(a: u32, b: u32) -> (r: u32)
    ensures
        r == gcd(a as nat, b as nat),
    decreases b,
{
    if b == 0 { a } else { gcd_of(b, a % b) }
}

impl Rational {
    /// `num / den` divided through by their greatest common divisor. Both
    /// zero has no such divisor (the division by it would fault).
    pub fn new(num: u32, den: u32) -> (r: Self)
        requires
            !(num == 0 && den == 0),
        ensures
            (r.num, r.den) == reduced(num, den),
            r.num * den == num * r.den,
    {
        let g = gcd_of(num, den);
        proof {
            lemma_gcd_divides(num as nat, den as nat);
            vstd::arithmetic::div_mod::lemma_fundamental_div_mod(num as int, g as int);
            vstd::arithmetic::div_mod::lemma_fundamental_div_mod(den as int, g as int);
            let a = num / g;
            let b = den / g;
            assert(a * den == num * b) by (nonlinear_arith)
                requires
                    num == g * a,
                    den == g * b;
        }
        Self { num: num / g, den: den / g }
    }
}

/// The duration of `n` nanoseconds, as `Duration::from_nanos` gives it.
pub uninterp spec fn nanos_duration(n: u64) -> Duration;

/// Calls `Duration::from_nanos`; the result is named `nanos_duration`.
#[verifier::external_body]
pub(crate) fn duration_from_nanos(n: u64) -> (r: Duration)
    ensures
        r == nanos_duration(n),
{
    Duration::from_nanos(n)
}

/// Division rounding toward zero.
pub open spec fn div_toward_zero(a: int, b: int) -> int {
    if a >= 0 { a / b } else { -((-a) / b) }
}

/// The nanoseconds `ticks` ticks of `tb` last, rounded toward zero and then
/// cut to 64 bits.
pub open spec fn ticks_nanos(ticks: i64, tb: Rational) -> u64 {
    div_toward_zero(ticks * tb.num * 1_000_000_000, tb.den as int) as u64
}

/// A presentation time, decode time and duration, each when known, counted
/// in ticks of a time base.
pub struct Timestamp {
    pts: Option<i64>,
    dts: Option<i64>,
    duration: Option<i64>,
    timebase: Rational,
}

impl Timestamp {
    pub closed spec fn spec_pts(&self) -> Option<i64> {
        self.pts
    }

    pub closed spec fn spec_dts(&self) -> Option<i64> {
        self.dts
    }

    pub closed spec fn spec_duration(&self) -> Option<i64> {
        self.duration
    }

    pub closed spec fn spec_timebase(&self) -> Rational {
        self.timebase
    }

    /// No times known yet, in `timebase`.
    pub fn new(timebase: Rational) -> (r: Self)
        ensures
            r.spec_pts() is None && r.spec_dts() is None && r.spec_duration() is None,
            r.spec_timebase() == timebase,
    {
        Self { pts: None, dts: None, duration: None, timebase }
    }

    pub fn set_pts(&mut self, pts: i64)
        ensures
            final(self).spec_pts() == Some(pts),
            final(self).spec_dts() == old(self).spec_dts(),
            final(self).spec_duration() == old(self).spec_duration(),
            final(self).spec_timebase() == old(self).spec_timebase(),
    {
        self.pts = Some(pts);
    }

    pub fn set_dts(&mut self, dts: i64)
        ensures
            final(self).spec_dts() == Some(dts),
            final(self).spec_pts() == old(self).spec_pts(),
            final(self).spec_duration() == old(self).spec_duration(),
            final(self).spec_timebase() == old(self).spec_timebase(),
    {
        self.dts = Some(dts);
    }

    pub fn set_duration(&mut self, duration: i64)
        ensures
            final(self).spec_duration() == Some(duration),
            final(self).spec_pts() == old(self).spec_pts(),
            final(self).spec_dts() == old(self).spec_dts(),
            final(self).spec_timebase() == old(self).spec_timebase(),
    {
        self.duration = Some(duration);
    }

    /// `ticks` as nanoseconds (see `ticks_nanos`).
    fn to_nanos(&self, ticks: i64) -> (r: u64)
        requires
            self.spec_timebase().den != 0,
        ensures
            r == ticks_nanos(ticks, self.spec_timebase()),
    {
        let t = ticks as i128;
        let magnitude: i128 = if t >= 0 { t } else { -t };
        assert(0 <= magnitude <= 0x8000_0000_0000_0000);
        let num = self.timebase.num as i128;
        assert(magnitude * num <= 0x8000_0000_0000_0000 * 0xFFFF_FFFF) by (nonlinear_arith)
            requires
                0 <= magnitude <= 0x8000_0000_0000_0000,
                0 <= num <= 0xFFFF_FFFF;
        assert(0 <= magnitude * num);
        let m1: i128 = magnitude * num;
        assert(m1 * 1_000_000_000 <= 0x8000_0000_0000_0000 * 0xFFFF_FFFF * 1_000_000_000) by (nonlinear_arith)
            requires
                0 <= m1 <= 0x8000_0000_0000_0000 * 0xFFFF_FFFF;
        let scaled: i128 = m1 * 1_000_000_000i128;
        assert(scaled == magnitude * self.timebase.num * 1_000_000_000) by (nonlinear_arith)
            requires
                scaled == m1 * 1_000_000_000,
                m1 == magnitude * num,
                num == self.timebase.num;
        let q: i128 = scaled / (self.timebase.den as i128);
        let nanos: i128 = if t >= 0 { q } else { -q };
        proof {
            if t < 0 {
                assert(-(ticks * self.timebase.num * 1_000_000_000) == magnitude * self.timebase.num * 1_000_000_000) by (nonlinear_arith)
                    requires
                        magnitude == -ticks;
            }
        }
        nanos as u64
    }

    /// The presentation time as a duration, when known.
    pub fn pts_time(&self) -> (r: Option<Duration>)
        requires
            self.spec_timebase().den != 0,
        ensures
            r == (match self.spec_pts() {
                Some(p) => Some(nanos_duration(ticks_nanos(p, self.spec_timebase()))),
                None => None,
            }),
    {
        match self.pts {
            Some(p) => Some(duration_from_nanos(self.to_nanos(p))),
            None => None,
        }
    }

    /// The decode time as a duration, when known.
    pub fn dts_time(&self) -> (r: Option<Duration>)
        requires
            self.spec_timebase().den != 0,
        ensures
            r == (match self.spec_dts() {
                Some(p) => Some(nanos_duration(ticks_nanos(p, self.spec_timebase()))),
                None => None,
            }),
    {
        match self.dts {
            Some(p) => Some(duration_from_nanos(self.to_nanos(p))),
            None => None,
        }
    }

    /// The duration as a duration, when known.
    pub fn duration_time(&self) -> (r: Option<Duration>)
        requires
            self.spec_timebase().den != 0,
        ensures
            r == (match self.spec_duration() {
                Some(p) => Some(nanos_duration(ticks_nanos(p, self.spec_timebase()))),
                None => None,
            }),
    {
        match self.duration {
            Some(p) => Some(duration_from_nanos(self.to_nanos(p))),
            None => None,
        }
    }

    /// The same times in `new_timebase`: each multiplied by the whole
    /// number of new ticks per old tick, rounded down.
    pub fn rescale(&self, new_timebase: Rational) -> (r: Self)
        requires
            self.spec_timebase().num * new_timebase.den <= i64::MAX,
            self.spec_timebase().den * new_timebase.num <= i64::MAX,
            self.spec_timebase().den * new_timebase.num != 0,
            ({
                let s = (self.spec_timebase().num * new_timebase.den) / (self.spec_timebase().den * new_timebase.num);
                &&& (self.spec_pts() matches Some(p) ==> i64::MIN <= p * s <= i64::MAX)
                &&& (self.spec_dts() matches Some(d) ==> i64::MIN <= d * s <= i64::MAX)
                &&& (self.spec_duration() matches Some(d) ==> i64::MIN <= d * s <= i64::MAX)
            }),
        ensures
            ({
                let s = (self.spec_timebase().num * new_timebase.den) / (self.spec_timebase().den * new_timebase.num);
                &&& r.spec_timebase() == new_timebase
                &&& r.spec_pts() == (match self.spec_pts() { Some(p) => Some((p * s) as i64), None => None })
                &&& r.spec_dts() == (match self.spec_dts() { Some(d) => Some((d * s) as i64), None => None })
                &&& r.spec_duration() == (match self.spec_duration() { Some(d) => Some((d * s) as i64), None => None })
            }),
    {
        let a: i64 = (self.timebase.num as i64) * (new_timebase.den as i64);
        let b: i64 = (self.timebase.den as i64) * (new_timebase.num as i64);
        let scale: i64 = a / b;
        assert(a >= 0 && b > 0);
        let pts = match self.pts { Some(p) => Some(p * scale), None => None };
        let dts = match self.dts { Some(d) => Some(d * scale), None => None };
        let duration = match self.duration { Some(d) => Some(d * scale), None => None };
        Self { pts, dts, duration, timebase: new_timebase }
    }
}

} // verus!
