//! Points in UTC time as whole seconds since the Unix epoch plus nanoseconds.
use vstd::prelude::*;

verus! {

/// Nanoseconds in one second.
pub const NANOS_PER_SEC: u32 = 1_000_000_000;

/// Seconds in one day.
pub const SECS_PER_DAY: i64 = 86_400;

/// The earliest second a UTC date-time can stand for (January 1 of year -262143).
pub const MIN_TIMESTAMP: i64 = -8_334_601_315_200;

/// The latest second a UTC date-time can stand for (the last second of year 262142).
pub const MAX_TIMESTAMP: i64 = 8_210_266_876_799;

/// A point in UTC time: `secs` whole seconds after 1970-01-01T00:00:00Z, plus
/// `nanos` nanoseconds.
#[derive(Clone, Copy, Debug, PartialEq, Eq, Structural)]
pub struct Instant {
    pub secs: i64,
    pub nanos: u32,
}

impl Instant {
    /// A date-time that can exist: within the representable years, and with
    /// a sub-second part below one second.
    pub open spec fn wf(self) -> bool {
        &&& MIN_TIMESTAMP <= self.secs <= MAX_TIMESTAMP
        &&& self.nanos < NANOS_PER_SEC
    }

    /// Nanoseconds since the epoch.
    pub open spec fn total_nanos(self) -> int {
        self.secs * 1_000_000_000 + self.nanos
    }

    /// Whether this instant is a date-time that can exist.
    pub fn is_wf(&self) -> (r: bool)
        ensures
            r == self.wf(),
    {
        MIN_TIMESTAMP <= self.secs && self.secs <= MAX_TIMESTAMP && self.nanos < NANOS_PER_SEC
    }
}

/// `t` is a time that the system clock reported. Outside this module only
/// [`utc_now`] establishes it, so a contract that asks for a clock reading
/// is met only by reading the clock, not by any instant made up in its
/// place. What every reading satisfies is given by
/// [`lemma_clock_reading_wf`].
#[verifier::opaque]
pub closed spec fn is_clock_reading(t: Instant) -> bool {
    t.wf() && t.secs >= 0
}

/// A clock reading is a date-time that can exist, at or after the epoch.
pub proof fn lemma_clock_reading_wf(t: Instant)
    requires
        is_clock_reading(t),
    ensures
        t.wf(),
        t.secs >= 0,
{
    reveal(is_clock_reading);
}

/// Reads the system clock (`chrono::Utc::now`). The clock never reports a
/// time before the epoch (chrono panics then), and the result is always a
/// date-time that chrono can represent, with a sub-second part below one
/// second. Which time it reports is not stated; the result is a clock
/// reading.
#[verifier::external_body]
pub(crate) fn utc_now() -> (t: Instant)
    ensures
        t.wf(),
        t.secs >= 0,
        is_clock_reading(t),
{
    let now = chrono::Utc::now();
    Instant { secs: now.timestamp(), nanos: now.timestamp_subsec_nanos() }
}

} // verus!
