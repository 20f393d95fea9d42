//! Reference retry policy: the delay before retrying a failed storage
//! operation, the wait before reclaiming an orphaned in-flight mail, and the
//! exponential backoff between delivery attempts.
//!
//! All durations are in milliseconds.

use vstd::prelude::*;

verus! {

/// Storage retry delays below this threshold jump straight to one minute.
pub const IO_RETRY_THRESHOLD_MS: u64 = 30_000;

/// The delay a short storage retry delay jumps to.
pub const IO_RETRY_FLOOR_MS: u64 = 60_000;

/// The least interval the reference backoff ever schedules.
pub const MIN_BACKOFF_MS: u64 = 60_000;

/// How long a freshly started queue waits before reclaiming an in-flight
/// mail found on disk. Must exceed the longest time a live peer can hold a
/// claim, so that anything still present afterwards belongs to a dead one.
pub const FOUND_INFLIGHT_CHECK_DELAY_MS: u64 = 3_600_000;

/// The doubled value of `d`, stopping at `u64::MAX` instead of wrapping.
pub open spec fn double_sat(d: u64) -> u64 {
    if 2 * d <= u64::MAX {
        (2 * d) as u64
    } else {
        u64::MAX
    }
}

/// What the next storage retry delay is: one minute while the delay is still
/// short, and double the previous delay afterwards.
pub open spec fn io_retry_next_spec(d: u64) -> u64 {
    if d < IO_RETRY_THRESHOLD_MS {
        IO_RETRY_FLOOR_MS
    } else {
        double_sat(d)
    }
}

/// Delay before the next retry of a failed storage operation. The first call
/// of a retry loop hands in zero, so the first retry is immediate and the
/// delay then backs off: 60 s, 120 s, 240 s, ...
pub fn io_error_next_retry_delay(d: u64) -> (r: u64)
    ensures
        r == io_retry_next_spec(d),
{
    if d < IO_RETRY_THRESHOLD_MS {
        IO_RETRY_FLOOR_MS
    } else if d <= u64::MAX / 2 {
        2 * d
    } else {
        u64::MAX
    }
}

/// Wait before recovering orphaned in-flight mails.
pub fn found_inflight_check_delay() -> (r: u64)
    ensures
        r == FOUND_INFLIGHT_CHECK_DELAY_MS,
{
    FOUND_INFLIGHT_CHECK_DELAY_MS
}

/// The reference backoff: the next interval between delivery attempts is
/// twice the last one, but never below one minute.
pub open spec fn next_interval_spec(last: u64) -> u64 {
    if double_sat(last) < MIN_BACKOFF_MS {
        MIN_BACKOFF_MS
    } else {
        double_sat(last)
    }
}

/// Compute the next backoff interval from the last one.
pub fn next_interval(last: u64) -> (r: u64)
    ensures
        r == next_interval_spec(last),
{
    let doubled: u64 = if last <= u64::MAX / 2 {
        2 * last
    } else {
        u64::MAX
    };
    if doubled < MIN_BACKOFF_MS {
        MIN_BACKOFF_MS
    } else {
        doubled
    }
}

/// The interval scheduled after the k-th consecutive transient failure of a
/// mail first enqueued with a zero interval: the reference backoff applied k
/// times to zero.
pub open spec fn nth_backoff(k: nat) -> u64
    decreases k,
{
    if k == 0 {
        0
    } else {
        next_interval_spec(nth_backoff((k - 1) as nat))
    }
}

/// Under the reference backoff, a mail first enqueued with a zero interval
/// is rescheduled after one minute, then two, then four.
pub proof fn lemma_backoff_first_steps()
    ensures
        nth_backoff(1) == 60_000,
        nth_backoff(2) == 120_000,
        nth_backoff(3) == 240_000,
{
    assert(nth_backoff(0) == 0);
    assert(nth_backoff(1) == 60_000);
    assert(nth_backoff(2) == 120_000);
    assert(nth_backoff(3) == 240_000);
}

/// The reference backoff never shrinks from one retry to the next.
pub proof fn lemma_next_interval_monotonic(a: u64, b: u64)
    requires
        a <= b,
    ensures
        next_interval_spec(a) <= next_interval_spec(b),
{
}

/// Backoff monotonicity: the intervals a repeatedly failing mail is scheduled
/// with never decrease.
pub proof fn lemma_backoff_monotonic(k: nat)
    ensures
        nth_backoff(k) <= nth_backoff(k + 1),
    decreases k,
{
    if k > 0 {
        lemma_backoff_monotonic((k - 1) as nat);
        lemma_next_interval_monotonic(nth_backoff((k - 1) as nat), nth_backoff(k));
    }
}

} // verus!
