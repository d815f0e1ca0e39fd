//! Elapsed-time measurement in nanoseconds.
use vstd::prelude::*;

verus! {

/// Relies on time::precise_time_ns: a reading of the system's monotonic clock
/// in nanoseconds. Nothing is known of its value.
#[verifier::external_body]
fn precise_time_ns() -> u64 {
    time::precise_time_ns()
}

/// Nanoseconds from `start` to `now`, or 0 where `now` reads earlier than `start`.
pub open spec fn elapsed(start: u64, now: u64) -> u64 {
    if now >= start {
        (now - start) as u64
    } else {
        0
    }
}

/// A stopwatch started at a clock reading.
pub struct Timer {
    start_ns: u64,
}

impl Timer {
    /// The clock reading at which the timer was last started.
    pub closed spec fn started_at(&self) -> u64 {
        self.start_ns
    }

    /// A timer started now.
    pub fn new() -> Timer {
        Timer { start_ns: precise_time_ns() }
    }

    /// Starts the timer again from now.
    pub fn start(&mut self) {
        self.start_ns = precise_time_ns();
    }

    /// Nanoseconds from the start to the clock reading `now_ns`.
    pub fn count_at(&self, now_ns: u64) -> (r: u64)
        ensures
            r == elapsed(self.started_at(), now_ns),
    {
        if now_ns >= self.start_ns {
            now_ns - self.start_ns
        } else {
            0
        }
    }

    /// Nanoseconds from the start to now.
    pub fn count(&self) -> (r: u64)
        ensures
            r <= u64::MAX - self.started_at(),
    {
        self.count_at(precise_time_ns())
    }
}

} // verus!
