//! Points in time as plain seconds and nanoseconds since the Unix epoch.

use vstd::prelude::*;

verus! {

/// A point in time as it arrives from a caller: seconds since the Unix epoch
/// and a nanosecond part that has not been checked yet.
#[derive(Clone, Copy, Debug, PartialEq, Eq, Structural)]
pub struct WireTimestamp {
    pub seconds: i64,
    pub nanos: i32,
}

/// An instant on the UTC time line: whole seconds since the Unix epoch and
/// the nanoseconds past that second.
#[derive(Clone, Copy, Debug, PartialEq, Eq, Structural)]
pub struct Timestamp {
    pub seconds: i64,
    pub nanos: u32,
}

/// Whether the calendar library can represent the instant `seconds` and
/// `nanos` after the Unix epoch as a UTC date and time.
pub uninterp spec fn datetime_exists(seconds: i64, nanos: u32) -> bool;

/// Calls `chrono::DateTime::from_timestamp` and reports whether it produced a
/// date and time. The contract only names that answer; nothing about which
/// instants are representable is claimed.
#[verifier::external_body]
fn datetime_from_timestamp(seconds: i64, nanos: u32) -> (found: bool)
    ensures
        found == datetime_exists(seconds, nanos),
{
    chrono::DateTime::from_timestamp(seconds, nanos).is_some()
}

/// The nanosecond field of a wire timestamp reinterpreted as unsigned, the way
/// a two's complement cast does it.
pub open spec fn wire_nanos(nanos: i32) -> u32 {
    if nanos >= 0 {
        nanos as u32
    } else {
        (nanos + 0x1_0000_0000) as u32
    }
}

impl Timestamp {
    /// The Unix epoch, which the pipeline treats as "no date given".
    pub open spec fn spec_epoch() -> Timestamp {
        Timestamp { seconds: 0, nanos: 0 }
    }

    /// The Unix epoch.
    #[verifier::when_used_as_spec(spec_epoch)]
    pub fn epoch() -> (t: Timestamp)
        ensures
            t == Timestamp::spec_epoch(),
    {
        Timestamp { seconds: 0, nanos: 0 }
    }

    /// The instant a wire timestamp denotes, if the calendar can represent it.
    pub open spec fn spec_from_wire(ts: WireTimestamp) -> Option<Timestamp> {
        if datetime_exists(ts.seconds, wire_nanos(ts.nanos)) {
            Some(Timestamp { seconds: ts.seconds, nanos: wire_nanos(ts.nanos) })
        } else {
            None
        }
    }

    /// Checks a wire timestamp against the calendar.
    pub fn from_wire(ts: WireTimestamp) -> (r: Option<Timestamp>)
        ensures
            r == Timestamp::spec_from_wire(ts),
    {
        let nanos: u32 = if ts.nanos >= 0 {
            ts.nanos as u32
        } else {
            ((ts.nanos as i64) + 0x1_0000_0000) as u32
        };
        if datetime_from_timestamp(ts.seconds, nanos) {
            Some(Timestamp { seconds: ts.seconds, nanos })
        } else {
            None
        }
    }

    /// The instant a wire timestamp denotes, or the epoch where the calendar
    /// cannot represent it.
    pub open spec fn spec_from_wire_or_epoch(ts: WireTimestamp) -> Timestamp {
        match Timestamp::spec_from_wire(ts) {
            Some(t) => t,
            None => Timestamp::spec_epoch(),
        }
    }

    /// Checks a wire timestamp and falls back to the epoch.
    pub fn from_wire_or_epoch(ts: WireTimestamp) -> (r: Timestamp)
        ensures
            r == Timestamp::spec_from_wire_or_epoch(ts),
    {
        match Timestamp::from_wire(ts) {
            Some(t) => t,
            None => Timestamp::epoch(),
        }
    }

    /// Whether `self` lies strictly before `other` on the time line.
    pub open spec fn spec_before(self, other: Timestamp) -> bool {
        self.seconds < other.seconds || (self.seconds == other.seconds && self.nanos
            < other.nanos)
    }

    /// Whether `self` lies strictly before `other` on the time line.
    #[verifier::when_used_as_spec(spec_before)]
    pub fn before(self, other: Timestamp) -> (r: bool)
        ensures
            r == self.spec_before(other),
    {
        self.seconds < other.seconds || (self.seconds == other.seconds && self.nanos
            < other.nanos)
    }
}

} // verus!
