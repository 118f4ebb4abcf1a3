//! The two clocks: wall-clock time, which stamps the tasks, and the monotonic
//! clock, against which the timer process measures a phase.
//!
//! Nothing here is proved.  What a clock returns depends on when it is asked,
//! so the contracts promise nothing about the readings; the code that uses a
//! reading is verified for every value of it.

use std::time::Duration;
use std::time::Instant;
use vstd::prelude::*;

verus! {

/// A point in local wall-clock time, held as plain numbers.
#[derive(Clone, Copy, Debug, PartialEq, Eq, Structural)]
pub struct Timestamp {
    /// Whole non-leap seconds since 1970-01-01 00:00:00 UTC.
    pub secs: i64,
    /// Nanoseconds since the last second boundary.
    pub nanos: u32,
    /// Seconds that local time is ahead of UTC.
    pub utc_offset_secs: i32,
}

impl Timestamp {
    /// `self` is the same point in time as `other` or a later one.  The offset
    /// from UTC plays no part.
    pub open spec fn not_before(self, other: Timestamp) -> bool {
        self.secs > other.secs || (self.secs == other.secs && self.nanos >= other.nanos)
    }
}

/// Reads the wall clock through `chrono::Local::now` and takes the reading
/// apart with `DateTime::timestamp`, `DateTime::timestamp_subsec_nanos` and
/// `FixedOffset::local_minus_utc`.  Nothing is claimed of the reading.
/// `Local::now` panics on a machine whose clock is set before 1970 or whose
/// time-zone data gives no offset for the reading; neither depends on an
/// argument, so no caller can rule them out.
#[verifier::external_body]
pub(crate) fn local_now() -> (now: Timestamp) {
    let now = chrono::Local::now();
    Timestamp {
        secs: now.timestamp(),
        nanos: now.timestamp_subsec_nanos(),
        utc_offset_secs: now.offset().local_minus_utc(),
    }
}

/// `std::time::Instant`, a reading of the monotonic clock.  Verus sees nothing
/// inside it.
#[verifier::external_type_specification]
#[verifier::external_body]
pub struct ExInstant(Instant);

/// `Instant::now` reads the monotonic clock.  Nothing is claimed of the
/// reading.
pub assume_specification[ Instant::now ]() -> (now: Instant);

/// `Instant::elapsed` measures the time since the instant was read.  Nothing
/// is claimed of the measure.
pub assume_specification[ Instant::elapsed ](since: &Instant) -> (elapsed: Duration);

/// `Duration::as_secs` gives the whole seconds in a duration.  Nothing is
/// claimed of their number.
pub assume_specification[ Duration::as_secs ](duration: &Duration) -> (secs: u64);

} // verus!
