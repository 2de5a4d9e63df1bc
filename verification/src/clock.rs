//! The cell's view of time: an opaque monotonic birth instant, the elapsed
//! time read from it, and the expiry test a time-to-live is held against.
//! Elapsed time is whatever the clock says — nothing is promised of its
//! value, and every caller is verified for every possible reading.
use vstd::prelude::*;

verus! {

#[verifier::external_type_specification]
#[verifier::external_body]
pub struct ExInstant(std::time::Instant);

/// Relies on `std::time::Instant::now` (std): an opaque reading of the
/// monotonic clock. Nothing is promised of it.
#[verifier::external_body]
pub fn instant_now() -> std::time::Instant {
    std::time::Instant::now()
}

/// Relies on `Instant::elapsed` and `Duration::as_nanos` (std): the time
/// since `birth` in nanoseconds, saturated to `u64`. The value depends on
/// the clock, so nothing is promised of it.
#[verifier::external_body]
pub fn elapsed_nanos(birth: &std::time::Instant) -> u64 {
    u64::try_from(birth.elapsed().as_nanos()).unwrap_or(u64::MAX)
}

/// A time-to-live of `ttl_sec` seconds is exceeded exactly when the elapsed
/// time is strictly greater than it.
pub open spec fn expired(ttl_sec: u64, elapsed_ns: u64) -> bool {
    elapsed_ns > ttl_sec * 1_000_000_000
}

/// Decides expiry of a `ttl_sec`-second time-to-live after `elapsed_ns`
/// nanoseconds.
pub fn is_expired(ttl_sec: u64, elapsed_ns: u64) -> (r: bool)
    ensures
        r == expired(ttl_sec, elapsed_ns),
{
    (elapsed_ns as u128) > (ttl_sec as u128) * 1_000_000_000u128
}

} // verus!
