use vstd::prelude::*;

use chrono::{DateTime, Utc};

verus! {

/// Earliest second (since the Unix epoch) that chrono can represent as a UTC
/// date and time: -262143-01-01T00:00:00Z.
pub const MIN_TIMESTAMP_SECS: i64 = -8334601228800;

/// Latest second (since the Unix epoch) that chrono can represent as a UTC
/// date and time: +262142-12-31T23:59:59Z.
pub const MAX_TIMESTAMP_SECS: i64 = 8210266876799;

/// Nanoseconds in one second.
pub const NANOS_PER_SEC: u32 = 1_000_000_000;

/// Nanoseconds in one millisecond.
pub const NANOS_PER_MILLI: u32 = 1_000_000;

/// An instant in UTC: whole seconds since the Unix epoch and the nanoseconds
/// past that second.
#[derive(Clone, Copy, Debug, PartialEq, Eq, Structural)]
pub struct Timestamp {
    pub secs: i64,
    pub nanos: u32,
}

impl Timestamp {
    /// A non-leap instant inside the range of dates that chrono handles.
    pub open spec fn wf(self) -> bool {
        MIN_TIMESTAMP_SECS <= self.secs <= MAX_TIMESTAMP_SECS && self.nanos < NANOS_PER_SEC
    }

    /// Nanoseconds since the Unix epoch.
    pub open spec fn total_nanos(self) -> int {
        self.secs * (NANOS_PER_SEC as int) + self.nanos
    }

    pub open spec fn le(self, other: Timestamp) -> bool {
        self.total_nanos() <= other.total_nanos()
    }

    /// Checks that the instant is well formed.
    pub fn is_valid(&self) -> (r: bool)
        ensures
            r == self.wf(),
    {
        MIN_TIMESTAMP_SECS <= self.secs && self.secs <= MAX_TIMESTAMP_SECS && self.nanos
            < NANOS_PER_SEC
    }
}

/// Integer division rounded toward zero.
pub open spec fn div_toward_zero(a: int, b: int) -> int
    recommends
        b > 0,
{
    if a >= 0 {
        a / b
    } else {
        -((-a) / b)
    }
}

/// Whole milliseconds from `start` to `end`, rounded toward zero; negative
/// when `end` comes first.
pub open spec fn millis_between(start: Timestamp, end: Timestamp) -> int {
    div_toward_zero(end.total_nanos() - start.total_nanos(), NANOS_PER_MILLI as int)
}

/// Relies on chrono's `Utc::now`, which reads the system clock and builds the
/// instant with `DateTime::from_timestamp(secs, subsec_nanos)`: the nanoseconds
/// stay below one second and the second lies in chrono's range. Nothing is
/// promised of two calls relative to each other. chrono panics when the system
/// clock reads a time before the Unix epoch, a state of the host that no
/// precondition can exclude.
#[verifier::external_body]
pub(crate) fn now() -> (r: Timestamp)
    ensures
        r.wf(),
{
    let t = Utc::now();
    Timestamp { secs: t.timestamp(), nanos: t.timestamp_subsec_nanos() }
}

/// Relies on chrono's `DateTime::from_timestamp`, subtraction of two
/// `DateTime<Utc>` and `TimeDelta::num_milliseconds`: for non-leap instants in
/// range the difference is exact, and `num_milliseconds` truncates it toward
/// zero.
#[verifier::external_body]
pub(crate) fn elapsed_millis(start: &Timestamp, end: &Timestamp) -> (r: i64)
    requires
        start.wf(),
        end.wf(),
    ensures
        r as int == millis_between(*start, *end),
{
    let a = DateTime::from_timestamp(start.secs, start.nanos).unwrap();
    let b = DateTime::from_timestamp(end.secs, end.nanos).unwrap();
    (b - a).num_milliseconds()
}

} // verus!
