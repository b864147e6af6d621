//! Points in time, as the cache tiers compare them.

use vstd::prelude::*;
use crate::text::text_of;

verus! {

/// The RFC 3339 form, in UTC with nine digits of nanoseconds and `Z` for
/// the offset, of the instant `nanos` nanoseconds past the second `secs`
/// of the Unix epoch; nothing where the calendar cannot hold the instant.
pub uninterp spec fn rfc3339_nanos(secs: i64, nanos: u32) -> Option<Seq<char>>;

/// `chrono::DateTime::from_timestamp` and then
/// `chrono::DateTime::to_rfc3339_opts` with nanoseconds and `Z`: the
/// written form of an instant, where `chrono` can represent it.
#[verifier::external_body]
fn format_rfc3339(secs: i64, nanos: u32) -> (text: Option<String>)
    ensures
        text_of(text) == rfc3339_nanos(secs, nanos),
{
    chrono::DateTime::from_timestamp(secs, nanos).map(
        |at| at.to_rfc3339_opts(chrono::SecondsFormat::Nanos, true),
    )
}

/// A point in time: whole seconds since the Unix epoch and the nanoseconds
/// past that second.
#[derive(Debug, Clone, Copy, PartialEq, Eq, Structural)]
pub struct Instant {
    pub secs: i64,
    pub nanos: u32,
}

impl Instant {
    /// Whether `self` is strictly later than `other`.
    pub open spec fn is_after(self, other: Instant) -> bool {
        self.secs > other.secs || (self.secs == other.secs && self.nanos > other.nanos)
    }

    /// `self` moved `seconds` into the future; the seconds stop at the
    /// largest representable value instead of wrapping.
    pub open spec fn plus_seconds(self, seconds: u64) -> Instant {
        Instant {
            secs: if self.secs + seconds > i64::MAX {
                i64::MAX
            } else {
                (self.secs + seconds) as i64
            },
            nanos: self.nanos,
        }
    }

    pub fn new(secs: i64, nanos: u32) -> (instant: Instant)
        ensures
            instant == (Instant { secs, nanos }),
    {
        Instant { secs, nanos }
    }

    /// Strict comparison of two instants, later first.
    pub fn later_than(&self, other: &Instant) -> (later: bool)
        ensures
            later == self.is_after(*other),
    {
        self.secs > other.secs || (self.secs == other.secs && self.nanos > other.nanos)
    }

    /// The instant as frames of a stream state it, in RFC 3339 form;
    /// nothing where the instant lies outside the calendar.
    pub fn to_rfc3339(&self) -> (text: Option<String>)
        ensures
            text_of(text) == rfc3339_nanos(self.secs, self.nanos),
    {
        format_rfc3339(self.secs, self.nanos)
    }

    /// The instant `seconds` after `self`, saturating at the largest
    /// representable second.
    pub fn add_seconds(&self, seconds: u64) -> (moved: Instant)
        ensures
            moved == self.plus_seconds(seconds),
    {
        let sum: i128 = self.secs as i128 + seconds as i128;
        let secs: i64 = if sum > i64::MAX as i128 {
            i64::MAX
        } else {
            sum as i64
        };
        Instant { secs, nanos: self.nanos }
    }
}

} // verus!
