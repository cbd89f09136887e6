use vstd::prelude::*;
use crate::error::IngestError;

verus! {

/// Milliseconds in one second.
pub const MILLIS_PER_SECOND: i64 = 1000;

/// Nanoseconds in one millisecond.
pub const NANOS_PER_MILLI: i64 = 1_000_000;

/// Earliest whole second that the calendar type holds: -9999-01-01T00:00:00Z.
pub const MIN_UNIX_SECONDS: i64 = -377_705_116_800;

/// Latest whole second that the calendar type holds: 9999-12-31T23:59:59Z.
pub const MAX_UNIX_SECONDS: i64 = 253_402_300_799;

/// Whole seconds of `millis`, rounded toward negative infinity.
pub open spec fn floor_seconds(millis: int) -> int {
    millis / 1000
}

/// Sub-second part of `millis` in nanoseconds; never negative.
pub open spec fn sub_second_nanos(millis: int) -> int {
    (millis % 1000) * 1_000_000
}

/// Whether a whole second lies in the calendar's range.
pub open spec fn seconds_in_range(seconds: int) -> bool {
    MIN_UNIX_SECONDS <= seconds <= MAX_UNIX_SECONDS
}

/// A UTC instant as whole seconds since the epoch and a nanosecond remainder.
#[derive(Debug, Clone, Copy, PartialEq, Eq, Structural)]
pub struct CalendarTimestamp {
    pub seconds: i64,
    pub nanoseconds: u32,
}

impl CalendarTimestamp {
    /// Seconds in range and nanoseconds below one second.
    pub open spec fn wf(&self) -> bool {
        seconds_in_range(self.seconds as int) && self.nanoseconds < 1_000_000_000
    }

    /// The instant in nanoseconds since the epoch.
    pub open spec fn total_nanos(&self) -> int {
        self.seconds as int * 1_000_000_000 + self.nanoseconds as int
    }
}

/// Relies on time::OffsetDateTime::from_unix_timestamp: it succeeds exactly for
/// the seconds between -9999-01-01T00:00:00Z and 9999-12-31T23:59:59Z (the
/// range without the crate's large-dates feature).
#[verifier::external_body]
fn unix_seconds_representable(seconds: i64) -> (r: bool)
    ensures
        r == seconds_in_range(seconds as int),
{
    time::OffsetDateTime::from_unix_timestamp(seconds).is_ok()
}

/// Splits epoch milliseconds into floored whole seconds and a non-negative
/// nanosecond remainder: -500 ms is second -1 plus 500 000 000 ns.
pub fn split_millis(millis: i64) -> (r: (i64, u32))
    ensures
        r.0 as int == floor_seconds(millis as int),
        r.1 as int == sub_second_nanos(millis as int),
        0 <= r.1 < 1_000_000_000,
        r.0 as int * 1000 + r.1 as int / 1_000_000 == millis as int,
{
    let mut secs: i64 = millis / MILLIS_PER_SECOND;
    let mut rem: i64 = millis % MILLIS_PER_SECOND;
    if rem < 0 {
        secs = secs - 1;
        rem = rem + MILLIS_PER_SECOND;
    }
    (secs, (rem * NANOS_PER_MILLI) as u32)
}

/// Converts epoch milliseconds into a calendar timestamp, with floored seconds,
/// failing when the seconds leave the calendar's range.
pub fn normalize(millis: i64) -> (r: Result<CalendarTimestamp, IngestError>)
    ensures
        seconds_in_range(floor_seconds(millis as int)) ==> r == Ok::<CalendarTimestamp, IngestError>(
            CalendarTimestamp {
                seconds: floor_seconds(millis as int) as i64,
                nanoseconds: sub_second_nanos(millis as int) as u32,
            },
        ),
        !seconds_in_range(floor_seconds(millis as int)) ==> r == Err::<CalendarTimestamp, IngestError>(
            IngestError::TimestampOutOfRange,
        ),
        r is Ok ==> r->Ok_0.wf() && r->Ok_0.total_nanos() == millis as int * 1_000_000,
{
    let (seconds, nanoseconds) = split_millis(millis);
    if unix_seconds_representable(seconds) {
        Ok(CalendarTimestamp { seconds, nanoseconds })
    } else {
        Err(IngestError::TimestampOutOfRange)
    }
}

} // verus!
