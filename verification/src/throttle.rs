//! The rate limiter on the process's own clock.

use vstd::prelude::*;
use crate::limiter::{admits_at, after_call, RateLimiter};

verus! {

/// A point in time of tokio's monotonic clock.
#[verifier::external_type_specification]
#[verifier::external_body]
pub struct ExInstant(tokio::time::Instant);

/// Calls `tokio::time::Instant::now`, which reads the monotonic clock.
/// Nothing is claimed of the instant that comes back.
#[verifier::external_body]
fn clock_now() -> (now: tokio::time::Instant) {
    tokio::time::Instant::now()
}

/// Calls `tokio::time::Instant::elapsed`, which gives the time that has
/// passed since `origin` (zero if the clock reads earlier than `origin`),
/// and hands it back in nanoseconds. Nothing is claimed of the number: it
/// depends on when the call is made.
#[verifier::external_body]
fn nanos_since(origin: &tokio::time::Instant) -> (nanos: u128) {
    origin.elapsed().as_nanos()
}

/// The throttle of the service: a rate limiter that reads the time itself.
///
/// Times are counted in nanoseconds since the limiter was made.
pub struct AlertThrottle {
    origin: tokio::time::Instant,
    limiter: RateLimiter,
}

impl View for AlertThrottle {
    type V = Option<nat>;

    /// When the limiter last admitted a caller, if it ever did.
    closed spec fn view(&self) -> Option<nat> {
        self.limiter@
    }
}

impl AlertThrottle {
    /// A limiter that has admitted no one yet, so that the first caller passes.
    pub fn new() -> (throttle: Self)
        ensures
            throttle@ is None,
    {
        AlertThrottle { origin: clock_now(), limiter: RateLimiter::new() }
    }

    /// Asks for admission at the time `now`; see [`RateLimiter::try_acquire_at`].
    pub fn try_acquire_at(&mut self, now: u128) -> (admitted: bool)
        ensures
            admitted == admits_at(old(self)@, now as nat),
            final(self)@ == after_call(old(self)@, now as nat),
    {
        self.limiter.try_acquire_at(now)
    }

    /// Asks for admission now. The limiter reads the clock once and decides as
    /// [`RateLimiter::try_acquire_at`] does for the time it read.
    pub fn try_acquire(&mut self) -> (admitted: bool)
        ensures
            exists|now: nat|
                admitted == admits_at(old(self)@, now) && final(self)@ == #[trigger] after_call(
                    old(self)@,
                    now,
                ),
    {
        let now = nanos_since(&self.origin);
        self.try_acquire_at(now)
    }
}

} // verus!
