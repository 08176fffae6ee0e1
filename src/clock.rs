
use vstd::prelude::*;

verus! {

/// `std::time::Instant`, carried through as an opaque value.
#[verifier::external_type_specification]
#[verifier::external_body]
pub struct ExInstant(std::time::Instant);

/// Relies on `std::time::Instant::now`: reads the monotonic clock. Nothing is known of
/// the value it returns.
pub assume_specification[ std::time::Instant::now ]() -> std::time::Instant;

/// Relies on `std::time::Instant::elapsed`: the time since the instant was taken. It
/// depends on when it is called, so nothing is stated of it.
pub assume_specification[ std::time::Instant::elapsed ](self_: &std::time::Instant) -> std::time::Duration;

/// Relies on `std::time::Duration::as_millis`: the whole milliseconds in a duration.
/// `Duration` is opaque here, so nothing is stated of the result.
pub assume_specification[ std::time::Duration::as_millis ](self_: &std::time::Duration) -> u128;

/// Time in milliseconds from `from` to `to`, saturating at zero when `to`
/// lies before `from`.
pub open spec fn elapsed(from: u64, to: u64) -> nat {
    if to >= from {
        (to - from) as nat
    } else {
        0
    }
}

pub fn elapsed_ms(from: u64, to: u64) -> (r: u64)
    ensures
        r as nat == elapsed(from, to),
{
    if to >= from {
        to - from
    } else {
        0
    }
}

/// A monotonic clock that reads time as whole milliseconds since it was
/// started.
pub struct Clock {
    origin: std::time::Instant,
}

impl Clock {
    pub fn start() -> (r: Clock) {
        Clock { origin: std::time::Instant::now() }
    }

    /// Milliseconds since the clock was started, saturating at `u64::MAX`.
    pub fn now_ms(&self) -> (r: u64) {
        let ms: u128 = self.origin.elapsed().as_millis();
        if ms > u64::MAX as u128 {
            u64::MAX
        } else {
            ms as u64
        }
    }
}

} // verus!
