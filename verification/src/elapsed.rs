//! Splitting a measured time into minutes, seconds and milliseconds.

use vstd::prelude::*;

verus! {

/// Nanoseconds in a millisecond.
pub const NANOS_PER_MILLI: u128 = 1_000_000;

/// Nanoseconds in a second.
pub const NANOS_PER_SECOND: u128 = 1_000_000_000;

/// Nanoseconds in a minute.
pub const NANOS_PER_MINUTE: u128 = 60_000_000_000;

/// A length of time as whole minutes, the whole seconds beyond them, and the
/// whole milliseconds beyond those.
#[derive(Clone, Copy, Debug, PartialEq, Eq, Structural)]
pub struct TimeBreakdown {
    pub minutes: u128,
    pub seconds: u8,
    pub milliseconds: u16,
}

impl TimeBreakdown {
    /// The seconds stay below a minute and the milliseconds below a second.
    pub open spec fn wf(self) -> bool {
        self.seconds < 60 && self.milliseconds < 1000
    }

    /// The length of time that the three parts add up to, in milliseconds.
    pub open spec fn total_millis(self) -> nat {
        (self.minutes * 60_000 + self.seconds * 1000 + self.milliseconds) as nat
    }

    /// Splits a length of time given in nanoseconds. Each part is rounded
    /// down, so the parts add up to the time's whole milliseconds: they fall
    /// short of the time itself by less than one millisecond.
    pub fn of_nanos(nanos: u128) -> (parts: TimeBreakdown)
        ensures
            parts.wf(),
            parts.minutes == nanos / NANOS_PER_MINUTE,
            parts.seconds == (nanos / NANOS_PER_SECOND) % 60,
            parts.milliseconds == (nanos / NANOS_PER_MILLI) % 1000,
            parts.total_millis() == nanos / NANOS_PER_MILLI,
            parts.total_millis() * NANOS_PER_MILLI <= nanos < (parts.total_millis() + 1)
                * NANOS_PER_MILLI,
    {
        let minutes: u128 = nanos / NANOS_PER_MINUTE;
        let seconds: u128 = (nanos / NANOS_PER_SECOND) % 60;
        let milliseconds: u128 = (nanos / NANOS_PER_MILLI) % 1000;
        TimeBreakdown { minutes, seconds: seconds as u8, milliseconds: milliseconds as u16 }
    }
}

} // verus!
