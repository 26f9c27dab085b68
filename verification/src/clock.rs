use vstd::prelude::*;

verus! {

/// Ceiling, in nanoseconds, on any frame delta the clock reports: a stalled
/// frame (a debugger stop, an OS scheduling hiccup) is clamped to 100 ms so
/// the scheduler never runs an unbounded burst of catch-up updates.
pub const MAX_FRAME_DELTA_NANOS: u64 = 100_000_000;

#[verifier::external_type_specification]
#[verifier::external_body]
pub struct ExInstant(std::time::Instant);

/// Relies on std::time::Instant::now: an opaque reading of the monotonic
/// clock.  Nothing can be promised about the value it returns.
#[verifier::external_body]
fn instant_now() -> std::time::Instant {
    std::time::Instant::now()
}

/// Relies on std::time::Instant::saturating_duration_since: the elapsed
/// time from `earlier` to `later`, or zero if `later` is the earlier one.
/// The result is converted to whole nanoseconds, saturating at u64::MAX.
/// Nothing is promised of the value: the caller clamps it anyway.
#[verifier::external_body]
fn nanos_between(earlier: &std::time::Instant, later: &std::time::Instant) -> u64 {
    u64::try_from(later.saturating_duration_since(*earlier).as_nanos()).unwrap_or(u64::MAX)
}

/// Measures elapsed wall time between consecutive samples.
pub struct Clock {
    last: std::time::Instant,
}

impl Clock {
    /// A clock whose first sample measures from now.
    pub fn new() -> Clock {
        Clock { last: instant_now() }
    }

    /// Reads the monotonic clock, returns the nanoseconds elapsed since the
    /// previous sample (or since construction), clamped to
    /// `MAX_FRAME_DELTA_NANOS`, and remembers the current reading for the
    /// next sample.  Whatever the time source does, no sample ever exceeds
    /// the ceiling.
    pub fn sample(&mut self) -> (delta: u64)
        ensures
            delta <= MAX_FRAME_DELTA_NANOS,
    {
        let now = instant_now();
        let raw = nanos_between(&self.last, &now);
        self.last = now;
        if raw > MAX_FRAME_DELTA_NANOS {
            MAX_FRAME_DELTA_NANOS
        } else {
            raw
        }
    }
}

} // verus!
