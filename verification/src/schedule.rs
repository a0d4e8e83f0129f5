//! When a recurring task first runs: the delay from "now" to the next instant
//! that is aligned with the task's interval and offset, counted from the Unix
//! epoch.
use std::time::Duration;
use vstd::prelude::*;
use vstd::arithmetic::div_mod::{
    lemma_fundamental_div_mod,
    lemma_fundamental_div_mod_converse_mod,
};

use crate::duration::{
    duration_as_millis, duration_from_millis, duration_millis, duration_nanos, max_duration_millis,
};

verus! {

/// The delay, in milliseconds, from `now` (milliseconds since the Unix epoch)
/// to the next scheduled time of a task with the given interval and offset
/// (both in milliseconds): the next time `t > now` with
/// `t % interval == offset % interval`.
pub open spec fn initial_delay_millis(now: nat, interval: nat, offset: nat) -> nat
    recommends
        interval > 0,
{
    let phase = now % interval;
    if offset > phase {
        (offset - phase) as nat
    } else {
        (offset + interval - phase) as nat
    }
}

/// The duration, in nanoseconds, that `calculate_initial_delay_at` returns:
/// the delay in whole milliseconds, narrowed to `u64` as `Duration::from_millis`
/// takes it.
pub open spec fn initial_delay_nanos(now: nat, interval: Duration, offset: Duration) -> nat {
    (initial_delay_millis(now, duration_millis(interval), duration_millis(offset)) as u64) as nat
        * 1_000_000
}

/// `(q * m + x) % m == x` for `0 <= x < m`, and `== x - m` for `m <= x < 2 * m`.
proof fn lemma_mod_of_shifted(q: int, m: int, x: int)
    requires
        m > 0,
        0 <= x < 2 * m,
    ensures
        x < m ==> (q * m + x) % m == x,
        m <= x ==> (q * m + x) % m == x - m,
{
    if x < m {
        lemma_fundamental_div_mod_converse_mod(q * m + x, m, q, x);
    } else {
        assert((q + 1) * m + (x - m) == q * m + x) by (nonlinear_arith);
        lemma_fundamental_div_mod_converse_mod(q * m + x, m, q + 1, x - m);
    }
}

/// The initial delay is the first instant that the schedule aligns with: it is
/// positive, at most one interval, lands on a time congruent to the offset
/// modulo the interval, and no earlier positive delay does.
pub proof fn lemma_initial_delay_is_next_aligned_time(now: nat, interval: nat, offset: nat)
    requires
        interval > 0,
        offset <= interval,
    ensures
        0 < initial_delay_millis(now, interval, offset) <= interval,
        (now + initial_delay_millis(now, interval, offset)) % interval == offset % interval,
        forall|t: nat|
            0 < t < initial_delay_millis(now, interval, offset) ==> #[trigger] ((now + t)
                % interval) != offset % interval,
{
    let i = interval as int;
    let q = now as int / i;
    let r = now as int % i;
    let d = initial_delay_millis(now, interval, offset) as int;
    lemma_fundamental_div_mod(now as int, i);
    assert(now as int == q * i + r) by (nonlinear_arith)
        requires
            now as int == i * (now as int / i) + (now as int % i),
            q == now as int / i,
            r == now as int % i,
    ;
    assert(0 <= r < i);
    // the offset taken modulo the interval
    if offset < interval {
        lemma_mod_of_shifted(0, i, offset as int);
    } else {
        lemma_mod_of_shifted(0, i, offset as int);
    }
    assert(offset as int % i == (if offset < interval { offset as int } else { 0 }));
    // where the delay lands
    lemma_mod_of_shifted(q, i, r + d);
    assert(now + d == q * i + (r + d));
    assert forall|t: nat| 0 < t < d implies #[trigger] ((now + t) % interval) != offset % interval by {
        lemma_mod_of_shifted(q, i, r + t);
        assert(now + t == q * i + (r + t));
    }
}

/// For every schedule the manager accepts, the first run is at the next time
/// aligned with the schedule's interval and offset (in whole milliseconds), at
/// most one interval away; and where the interval's milliseconds fit in `u64`,
/// the returned duration is exactly that delay.
pub proof fn lemma_first_run_of_accepted_schedule(now: nat, interval: Duration, offset: Duration)
    requires
        duration_nanos(offset) < duration_nanos(interval),
        duration_millis(interval) > 0,
    ensures
        ({
            let i = duration_millis(interval);
            let o = duration_millis(offset);
            let d = initial_delay_millis(now, i, o);
            &&& 0 < d <= i
            &&& (now + d) % i == o % i
            &&& forall|t: nat| 0 < t < d ==> #[trigger] ((now + t) % i) != o % i
            &&& i <= u64::MAX ==> initial_delay_nanos(now, interval, offset) == d * 1_000_000
        }),
{
    let i = duration_millis(interval);
    let o = duration_millis(offset);
    assert(o <= i) by {
        vstd::arithmetic::div_mod::lemma_div_is_ordered(
            duration_nanos(offset) as int,
            duration_nanos(interval) as int,
            1_000_000,
        );
    }
    lemma_initial_delay_is_next_aligned_time(now, i, o);
}

/// Computes the delay from `now_since_epoch_millis` to the next time aligned
/// with `interval` and `offset`: the schedule runs at every multiple of the
/// interval since the Unix epoch, shifted by the offset. "Now" is a time since
/// the epoch that a `Duration` can hold.
pub fn calculate_initial_delay_at(
    now_since_epoch_millis: u128,
    interval: Duration,
    offset: Duration,
) -> (delay: Duration)
    requires
        duration_millis(interval) > 0,
        now_since_epoch_millis <= max_duration_millis(),
    ensures
        duration_nanos(delay) == initial_delay_nanos(
            now_since_epoch_millis as nat,
            interval,
            offset,
        ),
{
    let now = now_since_epoch_millis;
    let interval_millis = duration_as_millis(&interval);
    let offset_millis = duration_as_millis(&offset);
    proof {
        lemma_fundamental_div_mod(now as int, interval_millis as int);
        assert(now as int == interval_millis * (now / interval_millis) + now % interval_millis);
        assert((now / interval_millis) * interval_millis == interval_millis * (now
            / interval_millis)) by (nonlinear_arith);
    }
    let next_scheduled_time = (now / interval_millis) * interval_millis + offset_millis;
    let scheduled_from_now = if next_scheduled_time > now {
        next_scheduled_time - now
    } else {
        next_scheduled_time + interval_millis - now
    };
    assert(scheduled_from_now == initial_delay_millis(
        now as nat,
        interval_millis as nat,
        offset_millis as nat,
    ));
    duration_from_millis(scheduled_from_now as u64)
}

} // verus!
