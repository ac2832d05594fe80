//! The real polling clock, backed by the OS monotonic clock.

use vstd::prelude::*;
use vstd::pervasive::arbitrary;
use crate::ports::ClockPort;

verus! {

#[verifier::external_type_specification]
#[verifier::external_body]
pub struct ExInstant(std::time::Instant);

/// Relies on std::time::Instant::now: the current instant of the monotonic
/// clock.
#[verifier::external_body]
fn instant_now() -> std::time::Instant {
    std::time::Instant::now()
}

/// Relies on std::time::Instant::elapsed (read out through
/// Duration::as_millis): the whole milliseconds since the instant,
/// saturated to the largest value.
#[verifier::external_body]
fn millis_since(start: &std::time::Instant) -> u64 {
    let ms = start.elapsed().as_millis();
    if ms > u64::MAX as u128 {
        u64::MAX
    } else {
        ms as u64
    }
}

/// The wall clock behind a real capture's poll loop.  Elapsed time is
/// measured from the first reading, which the poll loop makes as polling
/// begins.  The wall clock is shared, ambient state, so nothing is promised
/// of its readings: the port is not modelled.
pub struct SystemClock {
    start: Option<std::time::Instant>,
}

impl SystemClock {
    /// A clock that will start counting at its first reading.
    pub fn new() -> SystemClock {
        SystemClock { start: None }
    }
}

impl ClockPort for SystemClock {
    open spec fn modeled() -> bool {
        false
    }

    closed spec fn readings(&self) -> Seq<u64> {
        arbitrary()
    }

    fn elapsed_ms(&mut self) -> (e: u64) {
        match self.start {
            None => {
                self.start = Some(instant_now());
                0
            },
            Some(start) => millis_since(&start),
        }
    }
}

} // verus!
