//! UTC-scale microsecond clock.
//!
//! A calibrated clock pairs a monotonic base instant with a base UTC
//! timestamp, so reading the time is a monotonic elapsed query plus an
//! addition instead of a wall-clock call; recalibration bounds the drift.
//! What the clock reads is the machine's time, so the contracts state only
//! what holds of every reading.

use vstd::prelude::*;

verus! {

#[verifier::external_type_specification]
#[verifier::external_body]
pub struct ExInstant(std::time::Instant);

/// Relies on `i64::saturating_add`: the sum, clamped at the numeric
/// bounds.
pub assume_specification[ i64::saturating_add ](a: i64, b: i64) -> (r: i64)
    ensures
        r == if a + b > i64::MAX {
            i64::MAX
        } else if a + b < i64::MIN {
            i64::MIN
        } else {
            (a + b) as i64
        },
;

/// Relies on `i64::saturating_sub`: the difference, clamped at the numeric
/// bounds.
pub assume_specification[ i64::saturating_sub ](a: i64, b: i64) -> (r: i64)
    ensures
        r == if a - b > i64::MAX {
            i64::MAX
        } else if a - b < i64::MIN {
            i64::MIN
        } else {
            (a - b) as i64
        },
;

/// Relies on `std::time::Instant::now`: an opaque monotonic reading.
#[verifier::external_body]
fn instant_now() -> (r: std::time::Instant) {
    std::time::Instant::now()
}

/// Relies on `std::time::Instant::elapsed`: whole microseconds since the
/// instant, never negative as a duration; the value depends on the clock.
#[verifier::external_body]
fn instant_elapsed_micros(t: &std::time::Instant) -> (r: u64) {
    let us = t.elapsed().as_micros();
    if us > u64::MAX as u128 {
        u64::MAX
    } else {
        us as u64
    }
}

/// Relies on `std::time::Instant::elapsed`: whole seconds since the
/// instant; the value depends on the clock.
#[verifier::external_body]
fn instant_elapsed_secs(t: &std::time::Instant) -> (r: u64) {
    let s = t.elapsed().as_secs();
    s
}

/// Relies on `std::time::Instant::duration_since`: whole nanoseconds from
/// `earlier` to `later`, zero when `earlier` is the later one.
#[verifier::external_body]
fn instant_nanos_between(later: &std::time::Instant, earlier: &std::time::Instant) -> (r: u64) {
    let ns = later.duration_since(*earlier).as_nanos();
    if ns > u64::MAX as u128 {
        u64::MAX
    } else {
        ns as u64
    }
}

/// Relies on `chrono::Utc::now`: the current UTC time in whole
/// microseconds since the epoch; the value depends on the clock.
#[verifier::external_body]
fn utc_timestamp_micros() -> (r: i64) {
    chrono::Utc::now().timestamp_micros()
}

/// Default seconds between recalibrations.
pub const DEFAULT_CALIBRATION_INTERVAL_SECS: u64 = 300;

/// Microseconds of drift tolerated before the clock rebases.
pub const CALIBRATION_DRIFT_TOLERANCE_US: i64 = 1000;

/// High-performance clock: a monotonic base plus a base UTC microsecond
/// timestamp.
#[derive(Debug)]
pub struct HighPerformanceClock {
    base_instant: std::time::Instant,
    base_timestamp_us: i64,
    last_calibration: std::time::Instant,
    calibration_interval_secs: u64,
}

impl HighPerformanceClock {
    /// The UTC microsecond timestamp of the clock's base instant.
    pub closed spec fn spec_base_timestamp_us(&self) -> i64 {
        self.base_timestamp_us
    }

    /// Seconds between recalibrations.
    pub closed spec fn spec_calibration_interval_secs(&self) -> u64 {
        self.calibration_interval_secs
    }

    /// A clock with the default recalibration interval.
    pub fn new() -> (r: Self)
        ensures
            r.spec_calibration_interval_secs() == DEFAULT_CALIBRATION_INTERVAL_SECS,
    {
        Self::new_with_calibration_interval(DEFAULT_CALIBRATION_INTERVAL_SECS)
    }

    /// A clock calibrated from several samples, keeping the lowest-latency
    /// baseline to reduce the initial error.
    pub fn new_with_calibration_interval(calibration_interval_secs: u64) -> (r: Self)
        ensures
            r.spec_calibration_interval_secs() == calibration_interval_secs,
    {
        let mut best_offset: u64 = u64::MAX;
        let mut best_instant = instant_now();
        let mut best_timestamp = utc_timestamp_micros();
        let mut i: usize = 0;
        while i < 3
            decreases 3 - i,
        {
            let instant_before = instant_now();
            let timestamp = utc_timestamp_micros();
            let instant_after = instant_now();
            let sample_latency = instant_nanos_between(&instant_after, &instant_before);
            if sample_latency < best_offset {
                best_offset = sample_latency;
                best_instant = instant_before;
                best_timestamp = timestamp;
            }
            i = i + 1;
        }
        HighPerformanceClock {
            base_instant: best_instant,
            base_timestamp_us: best_timestamp,
            last_calibration: best_instant,
            calibration_interval_secs,
        }
    }

    /// The current UTC-scale time in microseconds: the base timestamp plus
    /// the monotonic time elapsed since the base, saturating. Never behind
    /// the base timestamp.
    pub fn now_micros(&self) -> (r: i64)
        ensures
            r >= self.spec_base_timestamp_us(),
    {
        let elapsed = instant_elapsed_micros(&self.base_instant);
        let elapsed_i64: i64 = if elapsed > i64::MAX as u64 {
            i64::MAX
        } else {
            elapsed as i64
        };
        self.base_timestamp_us.saturating_add(elapsed_i64)
    }

    /// Reads the clock, recalibrating first when the calibration interval
    /// has passed, to keep the drift bounded.
    pub fn now_micros_with_calibration(&mut self) -> (r: i64)
        ensures
            final(self).spec_calibration_interval_secs() == old(
                self,
            ).spec_calibration_interval_secs(),
            r >= final(self).spec_base_timestamp_us(),
    {
        if instant_elapsed_secs(&self.last_calibration) >= self.calibration_interval_secs {
            self.recalibrate();
        }
        self.now_micros()
    }

    /// Rebases the clock when the accumulated drift against the wall clock
    /// exceeds the tolerance.
    fn recalibrate(&mut self)
        ensures
            final(self).spec_calibration_interval_secs() == old(
                self,
            ).spec_calibration_interval_secs(),
    {
        let current_monotonic = instant_now();
        let current_utc = utc_timestamp_micros();
        let since_base_ns = instant_nanos_between(&current_monotonic, &self.base_instant);
        let since_base_us = since_base_ns / 1000;
        let since_base_i64: i64 = if since_base_us > i64::MAX as u64 {
            i64::MAX
        } else {
            since_base_us as i64
        };
        let expected_utc = self.base_timestamp_us.saturating_add(since_base_i64);
        let drift_us = current_utc.saturating_sub(expected_utc);
        if drift_us > CALIBRATION_DRIFT_TOLERANCE_US || drift_us < -CALIBRATION_DRIFT_TOLERANCE_US
         {
            self.base_instant = current_monotonic;
            self.base_timestamp_us = current_utc;
        }
        self.last_calibration = current_monotonic;
    }
}

impl Default for HighPerformanceClock {
    /// A clock with the default recalibration interval.
    fn default() -> (r: Self)
        ensures
            r.spec_calibration_interval_secs() == DEFAULT_CALIBRATION_INTERVAL_SECS,
    {
        Self::new()
    }
}

/// Relies on `chrono::Utc::now`: the current UTC time in microseconds,
/// on the same scale every caller of this module sees.
#[verifier::external_body]
pub fn now_micros() -> (r: i64) {
    chrono::Utc::now().timestamp_micros()
}

/// Microseconds elapsed from `start_timestamp_us` to now, saturating.
pub fn elapsed_micros_since(start_timestamp_us: i64) -> (r: i64) {
    now_micros().saturating_sub(start_timestamp_us)
}

} // verus!
