//! Cheap nanosecond timestamps and a stopwatch built on them.
//!
//! Hot paths measure latency with plain timestamp reads. The readings come
//! from the system clock, so contracts relate results to inputs where a
//! relation exists, and say nothing about the reading itself.

use vstd::prelude::*;

verus! {

/// Relies on `std::time::SystemTime::now`: the current time in whole
/// nanoseconds since the Unix epoch, zero for a clock before the epoch;
/// the value depends on the clock.
#[verifier::external_body]
fn system_nanos() -> (r: u64) {
    match std::time::SystemTime::now().duration_since(std::time::UNIX_EPOCH) {
        Ok(d) => {
            let ns = d.as_nanos();
            if ns > u64::MAX as u128 {
                u64::MAX
            } else {
                ns as u64
            }
        },
        Err(_) => 0,
    }
}

/// Relies on `core::time::Duration::from_nanos`: the duration of that many
/// nanoseconds.
#[verifier::external_body]
fn duration_from_nanos(nanos: u64) -> (r: core::time::Duration) {
    core::time::Duration::from_nanos(nanos)
}

/// Nanoseconds truncated to whole microseconds.
pub fn nanos_to_micros(nanos: u64) -> (r: u64)
    ensures
        r == nanos / 1000,
{
    nanos / 1000
}

/// Nanoseconds truncated to whole milliseconds.
pub fn nanos_to_millis(nanos: u64) -> (r: u64)
    ensures
        r == nanos / 1000000,
{
    nanos / 1000000
}

/// Fast timestamp source.
pub struct FastTimer;

impl FastTimer {
    /// A timer handle.
    pub fn new() -> (r: Self) {
        FastTimer
    }

    /// The current timestamp in nanoseconds.
    pub fn now_nanos(&self) -> (r: u64) {
        system_nanos()
    }

    /// The current timestamp in microseconds.
    pub fn now_micros(&self) -> (r: u64) {
        nanos_to_micros(self.now_nanos())
    }

    /// The current timestamp in milliseconds.
    pub fn now_millis(&self) -> (r: u64) {
        nanos_to_millis(self.now_nanos())
    }

    /// Nanoseconds from `start_nanos` to now, zero when the clock has not
    /// passed `start_nanos`.
    pub fn elapsed_nanos(&self, start_nanos: u64) -> (r: u64) {
        self.now_nanos().saturating_sub(start_nanos)
    }

    /// The elapsed time from `start_nanos` to now, as a duration.
    pub fn elapsed_duration(&self, start_nanos: u64) -> (r: core::time::Duration) {
        duration_from_nanos(self.elapsed_nanos(start_nanos))
    }
}

/// The current timestamp in nanoseconds.
pub fn fast_now_nanos() -> (r: u64) {
    system_nanos()
}

/// The current timestamp in microseconds.
pub fn fast_now_micros() -> (r: u64) {
    nanos_to_micros(fast_now_nanos())
}

/// The current timestamp in milliseconds.
pub fn fast_now_millis() -> (r: u64) {
    nanos_to_millis(fast_now_nanos())
}

/// Nanoseconds from `start_nanos` to now, zero when the clock has not
/// passed `start_nanos`.
pub fn fast_elapsed_nanos(start_nanos: u64) -> (r: u64) {
    fast_now_nanos().saturating_sub(start_nanos)
}

/// The elapsed time from `start_nanos` to now, as a duration.
pub fn fast_elapsed(start_nanos: u64) -> (r: core::time::Duration) {
    duration_from_nanos(fast_elapsed_nanos(start_nanos))
}

/// Stopwatch: remembers the timestamp it was started at.
pub struct FastStopwatch {
    start_nanos: u64,
    label: &'static str,
}

impl FastStopwatch {
    /// The timestamp this stopwatch started at.
    pub closed spec fn spec_start_nanos(&self) -> u64 {
        self.start_nanos
    }

    /// The label this stopwatch was started under.
    pub closed spec fn spec_label(&self) -> Seq<char> {
        self.label@
    }

    /// Starts a stopwatch now.
    pub fn start(label: &'static str) -> (r: Self)
        ensures
            r.spec_label() == label@,
    {
        FastStopwatch { start_nanos: fast_now_nanos(), label }
    }

    /// Nanoseconds on the stopwatch.
    pub fn elapsed_nanos(&self) -> (r: u64) {
        fast_elapsed_nanos(self.start_nanos)
    }

    /// The time on the stopwatch, as a duration.
    pub fn elapsed(&self) -> (r: core::time::Duration) {
        fast_elapsed(self.start_nanos)
    }

    /// Microseconds on the stopwatch.
    pub fn elapsed_micros(&self) -> (r: u64) {
        nanos_to_micros(self.elapsed_nanos())
    }

    /// Milliseconds on the stopwatch.
    pub fn elapsed_millis(&self) -> (r: u64) {
        nanos_to_millis(self.elapsed_nanos())
    }
}

} // verus!
