//! Instants on the UTC timeline, as the till's logic reads them.
//!
//! An [`UtcInstant`] holds what `chrono`'s `DateTime<Utc>` is ordered by: whole seconds since
//! the Unix epoch and the nanoseconds past that second. Parsing and printing stay with
//! `chrono`, through the wrappers below; comparing and offsetting instants is done here.
use chrono::{Datelike, Timelike};
use std::fmt::Write;
use vstd::prelude::*;

verus! {

/// The calendar fields of an instant in UTC.
#[derive(Debug, Clone, Copy, PartialEq, Eq, Structural)]
pub struct CivilTime {
    /// The proleptic Gregorian year.
    pub year: i32,
    /// The month, `1..=12`.
    pub month: u32,
    /// The day of the month, `1..=31`.
    pub day: u32,
    /// The hour, `0..=23`.
    pub hour: u32,
    /// The minute, `0..=59`.
    pub minute: u32,
    /// The second, `0..=59`.
    pub second: u32,
}

/// The fields lie in their calendar ranges.
pub open spec fn civil_in_range(c: CivilTime) -> bool {
    1 <= c.month <= 12 && 1 <= c.day <= 31 && c.hour < 24 && c.minute < 60 && c.second < 60
}

/// A point on the UTC timeline: `secs` seconds after the Unix epoch, plus `nanos`
/// nanoseconds (a leap second carries `nanos` of a billion or more, as in `chrono`).
#[derive(Debug, Clone, Copy, PartialEq, Eq, Structural, Hash)]
pub struct UtcInstant {
    secs: i64,
    nanos: u32,
}

/// `a` comes strictly before `b`.
pub open spec fn instant_before(a: UtcInstant, b: UtcInstant) -> bool {
    a.spec_secs() < b.spec_secs() || (a.spec_secs() == b.spec_secs() && a.spec_nanos()
        < b.spec_nanos())
}

/// What `chrono` parses from an RFC 3339 timestamp, converted to UTC; `None` when the text
/// is not one.
pub uninterp spec fn rfc3339_instant(text: Seq<char>) -> Option<UtcInstant>;

/// What `chrono`'s `to_rfc3339` writes for an instant; `None` for an instant outside the
/// range `chrono` can represent.
pub uninterp spec fn rfc3339_text(at: UtcInstant) -> Option<Seq<char>>;

/// What `chrono`'s `format` writes for an instant under a `strftime`-style pattern; `None` for
/// a pattern `chrono` cannot write or an instant outside its range.
pub uninterp spec fn formatted_instant(at: UtcInstant, pattern: Seq<char>) -> Option<Seq<char>>;

impl UtcInstant {
    /// Whole seconds since the epoch.
    pub closed spec fn spec_secs(self) -> int {
        self.secs as int
    }

    /// Nanoseconds past the second.
    pub closed spec fn spec_nanos(self) -> int {
        self.nanos as int
    }

    /// The seconds fit an `i64` and the nanoseconds a `u32`.
    pub proof fn lemma_ranges(self)
        ensures
            i64::MIN <= self.spec_secs() <= i64::MAX,
            0 <= self.spec_nanos() <= u32::MAX,
    {
    }

    /// The instant `secs` seconds and `nanos` nanoseconds after the epoch.
    pub fn from_timestamp(secs: i64, nanos: u32) -> (t: UtcInstant)
        ensures
            t.spec_secs() == secs,
            t.spec_nanos() == nanos,
    {
        UtcInstant { secs, nanos }
    }

    /// Whole seconds since the epoch.
    pub fn secs(&self) -> (s: i64)
        ensures
            s == self.spec_secs(),
    {
        self.secs
    }

    /// Nanoseconds past the second.
    pub fn nanos(&self) -> (n: u32)
        ensures
            n == self.spec_nanos(),
    {
        self.nanos
    }

    /// Whether this instant comes strictly before `other`.
    pub fn is_before(&self, other: &UtcInstant) -> (b: bool)
        ensures
            b == instant_before(*self, *other),
    {
        self.secs < other.secs || (self.secs == other.secs && self.nanos < other.nanos)
    }

    /// The instant `seconds` later, or `None` past the range of the timeline.
    pub fn plus_seconds(&self, seconds: i64) -> (r: Option<UtcInstant>)
        ensures
            r is Some <==> i64::MIN <= self.spec_secs() + seconds <= i64::MAX,
            r matches Some(t) ==> t.spec_secs() == self.spec_secs() + seconds && t.spec_nanos()
                == self.spec_nanos(),
    {
        match self.secs.checked_add(seconds) {
            Some(s) => Some(UtcInstant { secs: s, nanos: self.nanos }),
            None => None,
        }
    }

    /// Whole seconds from `earlier` to this instant, rounded towards the earlier second as
    /// `chrono`'s `num_seconds` does; `None` when that does not fit.
    pub fn seconds_since(&self, earlier: &UtcInstant) -> (r: Option<i64>)
        ensures
            r is Some <==> i64::MIN <= self.spec_secs() - earlier.spec_secs() <= i64::MAX,
            r matches Some(d) ==> d == self.spec_secs() - earlier.spec_secs(),
    {
        self.secs.checked_sub(earlier.secs)
    }

    /// The instant written under a `strftime`-style pattern, as `chrono` formats it; `None`
    /// for a pattern `chrono` cannot write or an instant outside its range.
    pub fn format(&self, pattern: &str) -> (r: Option<String>)
        ensures
            r is Some <==> formatted_instant(*self, pattern@) is Some,
            r matches Some(s) ==> formatted_instant(*self, pattern@) == Some(s@),
    {
        write_formatted(self, pattern)
    }

    /// The instant as `chrono` writes it in RFC 3339; `None` outside the range `chrono`
    /// represents.
    pub fn to_rfc3339(&self) -> (r: Option<String>)
        ensures
            r is Some <==> rfc3339_text(*self) is Some,
            r matches Some(s) ==> rfc3339_text(*self) == Some(s@),
    {
        write_rfc3339(self)
    }
}

/// `chrono`'s `DateTime::parse_from_rfc3339`, converted to UTC. A parsed instant is a
/// `DateTime`, so `chrono` can write it again.
#[verifier::external_body]
pub(crate) fn parse_rfc3339(text: &str) -> (r: Option<UtcInstant>)
    ensures
        r == rfc3339_instant(text@),
        r matches Some(t) ==> rfc3339_text(t) is Some,
{
    match chrono::DateTime::parse_from_rfc3339(text) {
        Ok(t) => Some(UtcInstant { secs: t.timestamp(), nanos: t.timestamp_subsec_nanos() }),
        Err(_) => None,
    }
}

/// `chrono`'s `to_rfc3339` on the UTC instant.
#[verifier::external_body]
fn write_rfc3339(at: &UtcInstant) -> (r: Option<String>)
    ensures
        r is Some <==> rfc3339_text(*at) is Some,
        r matches Some(s) ==> rfc3339_text(*at) == Some(s@),
{
    match chrono::DateTime::from_timestamp(at.secs, at.nanos) {
        Some(t) => Some(t.to_rfc3339()),
        None => None,
    }
}

/// `chrono`'s `DateTime::format` on the UTC instant, written out; a pattern that `chrono`
/// reports it cannot write gives `None` instead of a panic.
#[verifier::external_body]
fn write_formatted(at: &UtcInstant, pattern: &str) -> (r: Option<String>)
    ensures
        r is Some <==> formatted_instant(*at, pattern@) is Some,
        r matches Some(s) ==> formatted_instant(*at, pattern@) == Some(s@),
{
    match chrono::DateTime::from_timestamp(at.secs, at.nanos) {
        Some(t) => {
            let mut out = String::new();
            match write!(out, "{}", t.format(pattern)) {
                Ok(()) => Some(out),
                Err(_) => None,
            }
        },
        None => None,
    }
}

/// `chrono`'s `Utc::now()`, read as calendar fields. Of the reading only the ranges of the
/// fields are stated, as `chrono`'s `Datelike` and `Timelike` document them: it is the
/// machine's clock.
#[verifier::external_body]
pub(crate) fn now_civil() -> (c: CivilTime)
    ensures
        civil_in_range(c),
{
    let t = chrono::Utc::now();
    CivilTime {
        year: t.year(),
        month: t.month(),
        day: t.day(),
        hour: t.hour(),
        minute: t.minute(),
        second: t.second(),
    }
}

/// `chrono`'s `Utc::now()`. Of the instant only that `chrono` can write it is stated (a
/// `DateTime`'s own timestamp converts back to it, as `DateTime::from_timestamp`'s
/// documentation shows): it is the machine's clock.
#[verifier::external_body]
pub(crate) fn now() -> (t: UtcInstant)
    ensures
        rfc3339_text(t) is Some,
{
    let t = chrono::Utc::now();
    UtcInstant { secs: t.timestamp(), nanos: t.timestamp_subsec_nanos() }
}

} // verus!
