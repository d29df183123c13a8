//! The time budget of a connection attempt and its form for the readiness wait.

use vstd::prelude::*;

verus! {

/// The nanoseconds in a second.
pub const NANOS_PER_SEC: u32 = 1_000_000_000;

/// The nanoseconds in a microsecond.
pub const NANOS_PER_MICRO: u32 = 1_000;

/// The microseconds in a second.
pub const MICROS_PER_SEC: u32 = 1_000_000;

/// How long the caller is willing to wait: whole seconds plus nanoseconds.
///
/// Any pair of values is a timeout; `nanos` may exceed one second, in which
/// case the excess counts as further seconds.
#[derive(Clone, Copy, Debug, PartialEq, Eq, Structural)]
pub struct Timeout {
    pub secs: u64,
    pub nanos: u32,
}

/// A wait in the form the readiness wait takes: whole seconds and
/// microseconds, the latter below one second.
#[derive(Clone, Copy, Debug, PartialEq, Eq, Structural)]
pub struct TimeVal {
    pub sec: i64,
    pub usec: i64,
}

impl TimeVal {
    /// Both parts are non-negative and `usec` is less than a second.
    pub open spec fn wf(self) -> bool {
        0 <= self.sec && 0 <= self.usec < MICROS_PER_SEC
    }

    /// The length of the wait in microseconds.
    pub open spec fn micros(self) -> int {
        self.sec * MICROS_PER_SEC + self.usec
    }

    /// The longest wait that can be written down.
    pub open spec fn longest() -> TimeVal {
        TimeVal { sec: i64::MAX, usec: 999_999 }
    }
}

impl Timeout {
    /// The length of the timeout in nanoseconds.
    pub open spec fn total_nanos(self) -> nat {
        self.secs as nat * (NANOS_PER_SEC as nat) + self.nanos as nat
    }

    /// The least number of whole microseconds that is no shorter than the timeout.
    pub open spec fn micros(self) -> nat {
        (self.total_nanos() + NANOS_PER_MICRO - 1) as nat / (NANOS_PER_MICRO as nat)
    }

    /// The wait that stands for this timeout: `micros()` split into seconds and
    /// microseconds, or the longest wait where the seconds would not fit.
    pub open spec fn timeval(self) -> TimeVal {
        let sec = self.micros() / (MICROS_PER_SEC as nat);
        if sec > i64::MAX {
            TimeVal::longest()
        } else {
            TimeVal { sec: sec as i64, usec: (self.micros() % (MICROS_PER_SEC as nat)) as i64 }
        }
    }

    /// A timeout of whole seconds.
    pub fn from_secs(secs: u64) -> (t: Timeout)
        ensures
            t == (Timeout { secs, nanos: 0 }),
            t.total_nanos() == secs * NANOS_PER_SEC,
    {
        Timeout { secs, nanos: 0 }
    }

    /// Whether the timeout is no time at all.
    pub fn is_zero(&self) -> (zero: bool)
        ensures
            zero == (self.total_nanos() == 0),
    {
        self.secs == 0 && self.nanos == 0
    }

    /// Converts the timeout for the readiness wait, rounding up to the next
    /// microsecond so that the wait never ends before the timeout has passed.
    pub fn to_timeval(&self) -> (tv: TimeVal)
        ensures
            tv == self.timeval(),
            tv.wf(),
            tv.micros() == 0 <==> self.total_nanos() == 0,
            tv != TimeVal::longest() ==> tv.micros() == self.micros(),
            tv != TimeVal::longest() ==> self.total_nanos() <= tv.micros() * NANOS_PER_MICRO
                < self.total_nanos() + NANOS_PER_MICRO,
    {
        // The nanoseconds alone, in whole microseconds; they may hold seconds.
        let sub_micros: u64 = (self.nanos as u64 + 999) / 1_000;
        let carry: u64 = sub_micros / 1_000_000;
        let usec: u64 = sub_micros % 1_000_000;
        if self.secs > 9_223_372_036_854_775_807u64 - carry {
            TimeVal { sec: i64::MAX, usec: 999_999 }
        } else {
            TimeVal { sec: (self.secs + carry) as i64, usec: usec as i64 }
        }
    }
}

} // verus!
