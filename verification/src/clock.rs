//! The clock that playback is timed by.

use vstd::prelude::*;

verus! {

/// A point in time of the monotonic clock.
#[verifier::external_type_specification]
#[verifier::external_body]
pub struct ExInstant(web_time::Instant);

/// `web_time::Instant::now`: the present moment. Nothing is known of it.
#[verifier::external_body]
fn instant_now() -> web_time::Instant {
    web_time::Instant::now()
}

/// `web_time::Instant::elapsed` and `Duration::as_millis`: the whole
/// milliseconds that have passed since `start`. Nothing is known of their
/// number.
#[verifier::external_body]
fn elapsed_millis(start: &web_time::Instant) -> u128 {
    start.elapsed().as_millis()
}

/// A stopwatch that runs from the moment it was made.
pub struct Clock {
    start: web_time::Instant,
}

impl Clock {
    /// A stopwatch that starts now.
    pub fn new() -> Clock {
        Clock { start: instant_now() }
    }

    /// The milliseconds since the stopwatch was made.
    pub fn millis(&self) -> u128 {
        elapsed_millis(&self.start)
    }
}

} // verus!
