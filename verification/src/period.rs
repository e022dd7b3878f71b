//! The period of a batch and the checks a caller makes before creating one.

use vstd::prelude::*;
use crate::timestamp::{Timestamp, WireTimestamp};

verus! {

/// A period as a caller submits it.
#[derive(Clone, Copy, Debug, PartialEq, Eq, Structural)]
pub struct DateRange {
    pub start: Option<WireTimestamp>,
    pub end: Option<WireTimestamp>,
}

/// Why a period was rejected.
#[derive(Clone, Copy, Debug, PartialEq, Eq, Structural)]
pub enum PeriodError {
    MissingStart,
    InvalidStart,
    MissingEnd,
    InvalidEnd,
    StartIsEpoch,
    EndIsEpoch,
    EndNotAfterStart,
}

impl PeriodError {
    /// The text that describes the rejection to a person.
    pub open spec fn spec_message(self) -> Seq<char> {
        match self {
            PeriodError::MissingStart => "Start timestamp is required"@,
            PeriodError::InvalidStart => "Invalid start timestamp"@,
            PeriodError::MissingEnd => "End timestamp is required"@,
            PeriodError::InvalidEnd => "Invalid end timestamp"@,
            PeriodError::StartIsEpoch => "Period start cannot be the default timestamp (Unix epoch)"@,
            PeriodError::EndIsEpoch => "Period end cannot be the default timestamp (Unix epoch)"@,
            PeriodError::EndNotAfterStart => "Period end must be after period start"@,
        }
    }

    /// Renders the rejection as text.
    pub fn message(self) -> (s: &'static str)
        ensures
            s@ == self.spec_message(),
    {
        match self {
            PeriodError::MissingStart => "Start timestamp is required",
            PeriodError::InvalidStart => "Invalid start timestamp",
            PeriodError::MissingEnd => "End timestamp is required",
            PeriodError::InvalidEnd => "Invalid end timestamp",
            PeriodError::StartIsEpoch => "Period start cannot be the default timestamp (Unix epoch)",
            PeriodError::EndIsEpoch => "Period end cannot be the default timestamp (Unix epoch)",
            PeriodError::EndNotAfterStart => "Period end must be after period start",
        }
    }
}

/// The outcome of checking a period. Both ends must be given and be
/// instants that the calendar can represent; neither may be the epoch; and
/// the end must lie after the start. The first check that fails, in this
/// order, decides the error: start given, start representable, end given,
/// end representable, start not the epoch, end not the epoch, end after
/// start.
pub open spec fn checked_period(period: DateRange) -> Result<(Timestamp, Timestamp), PeriodError> {
    match period.start {
        None => Err(PeriodError::MissingStart),
        Some(start_ts) => match Timestamp::spec_from_wire(start_ts) {
            None => Err(PeriodError::InvalidStart),
            Some(start) => match period.end {
                None => Err(PeriodError::MissingEnd),
                Some(end_ts) => match Timestamp::spec_from_wire(end_ts) {
                    None => Err(PeriodError::InvalidEnd),
                    Some(end) => if start == Timestamp::spec_epoch() {
                        Err(PeriodError::StartIsEpoch)
                    } else if end == Timestamp::spec_epoch() {
                        Err(PeriodError::EndIsEpoch)
                    } else if !start.spec_before(end) {
                        Err(PeriodError::EndNotAfterStart)
                    } else {
                        Ok((start, end))
                    },
                },
            },
        },
    }
}

/// Decides a period whose two ends have already been looked up in the
/// calendar: the part of the check that knows nothing about calendars.
pub open spec fn checked_instants(start: Timestamp, end: Timestamp) -> Result<
    (Timestamp, Timestamp),
    PeriodError,
> {
    if start == Timestamp::spec_epoch() {
        Err(PeriodError::StartIsEpoch)
    } else if end == Timestamp::spec_epoch() {
        Err(PeriodError::EndIsEpoch)
    } else if !start.spec_before(end) {
        Err(PeriodError::EndNotAfterStart)
    } else {
        Ok((start, end))
    }
}

/// Checks two instants as the ends of a period.
pub fn validate_instants(start: Timestamp, end: Timestamp) -> (r: Result<
    (Timestamp, Timestamp),
    PeriodError,
>)
    ensures
        r == checked_instants(start, end),
{
    if start.seconds == 0 && start.nanos == 0 {
        Err(PeriodError::StartIsEpoch)
    } else if end.seconds == 0 && end.nanos == 0 {
        Err(PeriodError::EndIsEpoch)
    } else if !start.before(end) {
        Err(PeriodError::EndNotAfterStart)
    } else {
        Ok((start, end))
    }
}

/// Checks a period and returns its two ends.
pub fn validate_period(period: &DateRange) -> (r: Result<(Timestamp, Timestamp), PeriodError>)
    ensures
        r == checked_period(*period),
{
    let start_ts: WireTimestamp = match period.start {
        Some(ts) => ts,
        None => {
            return Err(PeriodError::MissingStart);
        },
    };
    let start: Timestamp = match Timestamp::from_wire(start_ts) {
        Some(t) => t,
        None => {
            return Err(PeriodError::InvalidStart);
        },
    };
    let end_ts: WireTimestamp = match period.end {
        Some(ts) => ts,
        None => {
            return Err(PeriodError::MissingEnd);
        },
    };
    let end: Timestamp = match Timestamp::from_wire(end_ts) {
        Some(t) => t,
        None => {
            return Err(PeriodError::InvalidEnd);
        },
    };
    validate_instants(start, end)
}

/// A period that passes the check has an end after its start, and neither
/// end is the epoch.
pub proof fn lemma_checked_period_is_sound(period: DateRange)
    ensures
        match checked_period(period) {
            Ok((start, end)) => start.spec_before(end) && start != Timestamp::spec_epoch() && end
                != Timestamp::spec_epoch(),
            Err(_) => true,
        },
{
}

} // verus!
