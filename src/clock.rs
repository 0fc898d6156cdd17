use vstd::prelude::*;

use crate::delay_heap::DelayHeap;

verus! {

#[verifier::external_type_specification]
#[verifier::external_body]
pub struct ExInstant(std::time::Instant);

/// Where a queue's clock stands at the instant the queue was made, in
/// nanoseconds: instants up to about 292 years earlier or later keep their
/// order on the clock.
pub const ORIGIN_READING: u64 = 0x8000_0000_0000_0000;

/// Relies on Instant::now: a reading of the monotonic clock.
#[verifier::external_body]
pub(crate) fn instant_now() -> std::time::Instant {
    std::time::Instant::now()
}

/// Relies on Instant::saturating_duration_since: the time from `origin` to
/// `t`, zero when `t` is earlier.
#[verifier::external_body]
fn duration_since(origin: &std::time::Instant, t: &std::time::Instant) -> std::time::Duration {
    t.saturating_duration_since(*origin)
}

/// Relies on Duration::as_nanos: the length of `d` in whole nanoseconds.
#[verifier::external_body]
fn duration_nanos(d: &std::time::Duration) -> u128 {
    d.as_nanos()
}

/// `n` nanoseconds as a `u64`, u64::MAX when they do not fit.
pub fn clamp_nanos(n: u128) -> (r: u64)
    ensures
        r == vstd::math::min(n as int, u64::MAX as int),
{
    if n > u64::MAX as u128 {
        u64::MAX
    } else {
        n as u64
    }
}

/// The length of `d` in nanoseconds, u64::MAX when it does not fit.
pub(crate) fn nanos_of(d: &std::time::Duration) -> u64 {
    clamp_nanos(duration_nanos(d))
}

/// The reading of a clock that stands at `ORIGIN_READING` at its origin, for
/// an instant `after` nanoseconds later than the origin or `before`
/// nanoseconds earlier (at most one of the two is nonzero).
pub fn clock_value(after: u64, before: u64) -> (r: u64)
    ensures
        before == 0 ==> r == vstd::math::min(ORIGIN_READING + after, u64::MAX as int),
        before > 0 ==> r == vstd::math::max(ORIGIN_READING - before, 0),
{
    if before == 0 {
        if after > u64::MAX - ORIGIN_READING {
            u64::MAX
        } else {
            ORIGIN_READING + after
        }
    } else if before > ORIGIN_READING {
        0
    } else {
        ORIGIN_READING - before
    }
}

/// The instant `t` on the clock whose origin is `origin`: earlier instants
/// read lower, later ones higher.
pub(crate) fn clock_reading(origin: &std::time::Instant, t: &std::time::Instant) -> u64 {
    let after = nanos_of(&duration_since(origin, t));
    let before = nanos_of(&duration_since(t, origin));
    clock_value(after, before)
}

/// Whether a removal has to wait now: `store` is empty or its head is not
/// ready on the clock whose origin is `origin`.
pub(crate) fn head_blocked<T>(store: &DelayHeap<T>, origin: &std::time::Instant) -> (r: bool)
    ensures
        store@.len() == 0 ==> r,
{
    store.must_wait(clock_reading(origin, &instant_now()))
}

} // verus!
