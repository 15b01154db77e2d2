//! Time as the state machine sees it: readings of a monotonic clock in whole
//! milliseconds, and the windows that gestures are measured against.
//!
//! The transitions take the reading as an argument, so that a caller can
//! replay any timing. [`Clock`] produces readings from the system's
//! monotonic clock for callers that want the real time.

use std::time::Instant;
use vstd::prelude::*;

verus! {

/// Two presses of the same key closer together than this many milliseconds
/// form one gesture.
pub const CHORD_WINDOW_MS: u64 = 1000;

/// The loading animation advances by one frame once this many milliseconds
/// have passed since its last advance.
pub const ANIMATION_STEP_MS: u64 = 150;

/// Milliseconds from the reading `earlier` to the reading `later`; zero when
/// `later` is not after `earlier`.
pub open spec fn elapsed_ms(earlier: u64, later: u64) -> int {
    if later >= earlier {
        later - earlier
    } else {
        0
    }
}

/// A reading `earlier` exists and less than `window` milliseconds lie between
/// it and `now`.
pub open spec fn within_window(earlier: Option<u64>, now: u64, window: u64) -> bool {
    earlier matches Some(t) && elapsed_ms(t, now) < window
}

pub fn elapsed_between(earlier: u64, later: u64) -> (ms: u64)
    ensures
        ms == elapsed_ms(earlier, later),
{
    if later >= earlier {
        later - earlier
    } else {
        0
    }
}

pub fn is_within_window(earlier: Option<u64>, now: u64, window: u64) -> (inside: bool)
    ensures
        inside == within_window(earlier, now, window),
{
    match earlier {
        Some(t) => elapsed_between(t, now) < window,
        None => false,
    }
}

#[verifier::external_type_specification]
#[verifier::external_body]
pub struct ExInstant(Instant);

/// `Instant::now` reads the system's monotonic clock. Nothing is claimed of
/// the reading.
pub assume_specification[ Instant::now ]() -> (t: Instant)
;

/// `Instant::elapsed` measures the time since the instant was taken. Nothing
/// is claimed of the measure.
pub assume_specification[ Instant::elapsed ](t: &Instant) -> (d: core::time::Duration)
;

/// `Duration::as_millis` gives the whole milliseconds of a duration. Nothing
/// is claimed of the number.
pub assume_specification[ core::time::Duration::as_millis ](d: &core::time::Duration) -> (ms: u128)
;

/// A source of readings: the milliseconds since the clock was started.
pub struct Clock {
    origin: Instant,
}

impl Clock {
    /// Starts a clock; its readings count from now.
    pub fn start() -> Clock {
        Clock { origin: Instant::now() }
    }

    /// The current reading. A reading too large for `u64` is reported as
    /// `u64::MAX`.
    pub fn now_ms(&self) -> u64 {
        reading_of_millis(self.origin.elapsed().as_millis())
    }
}

/// The reading that stands for a count of milliseconds: the count itself, or
/// `u64::MAX` if the count is too large for `u64`.
pub open spec fn saturated_millis(ms: u128) -> u64 {
    if ms > u64::MAX {
        u64::MAX
    } else {
        ms as u64
    }
}

/// Turns the milliseconds that the system's clock counted into a reading.
pub fn reading_of_millis(ms: u128) -> (reading: u64)
    ensures
        reading == saturated_millis(ms),
{
    if ms > 0xffff_ffff_ffff_ffff {
        u64::MAX
    } else {
        ms as u64
    }
}

} // verus!
