//! The clocks: the wall clock, as milliseconds since the Unix epoch, and a
//! monotonic clock, as milliseconds since it was started.

use std::time::Instant;

use vstd::prelude::*;

verus! {

/// `chrono::Utc::now()`, read as milliseconds since the Unix epoch by
/// `DateTime::timestamp_millis`. The value depends on the moment of the
/// call, so nothing is stated of it.
#[verifier::external_body]
pub(crate) fn now_millis() -> i64 {
    chrono::Utc::now().timestamp_millis()
}

/// A moment of the monotonic clock, `std::time::Instant`.
#[verifier::external_type_specification]
#[verifier::external_body]
pub struct ExInstant(Instant);

/// `std::time::Instant::now`: the current moment of the monotonic clock.
/// It depends on the moment of the call, so nothing is stated of it.
#[verifier::external_body]
fn instant_now() -> (r: Instant) {
    Instant::now()
}

/// `Instant::elapsed`, read as whole milliseconds by `Duration::as_millis`.
/// It depends on the moment of the call, so nothing is stated of it.
#[verifier::external_body]
fn elapsed_millis(origin: &Instant) -> (r: u128) {
    origin.elapsed().as_millis()
}

/// A monotonic clock: it never goes back, whatever happens to the wall
/// clock.
pub struct MonotonicClock {
    origin: Instant,
}

impl MonotonicClock {
    /// Starts a clock at the current moment.
    pub fn start() -> (r: Self) {
        MonotonicClock { origin: instant_now() }
    }

    /// Milliseconds since the clock was started, at most `i64::MAX`.
    pub fn now_ms(&self) -> (r: i64)
        ensures
            r >= 0,
    {
        let ms = elapsed_millis(&self.origin);
        if ms > i64::MAX as u128 {
            i64::MAX
        } else {
            ms as i64
        }
    }
}

} // verus!
