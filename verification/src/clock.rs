//! Reading the system clock once, to place the first run of each task.
use std::time::{Duration, SystemTime, SystemTimeError};
use vstd::prelude::*;

use crate::duration::{duration_as_millis, duration_millis, duration_nanos, max_duration_millis};
use crate::schedule::{
    calculate_initial_delay_at, initial_delay_millis, initial_delay_nanos,
    lemma_first_run_of_accepted_schedule,
};

verus! {

#[verifier::external_type_specification]
#[verifier::external_body]
pub struct ExSystemTime(SystemTime);

#[verifier::external_type_specification]
#[verifier::external_body]
pub struct ExSystemTimeError(SystemTimeError);

/// Why the system clock could not be read as a time since the Unix epoch.
#[derive(Debug, Clone, Copy, PartialEq, Eq, Structural)]
pub enum ClockError {
    /// The system clock reads a time before the Unix epoch.
    BeforeUnixEpoch,
}

impl ClockError {
    /// The text of the failure, as the manager reports it.
    pub fn message(&self) -> (m: &'static str)
        ensures
            m@ == "Y2k happened?"@,
    {
        "Y2k happened?"
    }
}

/// Calls `SystemTime::now`. Nothing is claimed of the result: it is whatever
/// the system clock reads.
#[verifier::external_body]
fn system_time_now() -> SystemTime {
    SystemTime::now()
}

/// Calls `SystemTime::duration_since` with `SystemTime::UNIX_EPOCH`. Nothing is
/// claimed of the result: a `SystemTime` is opaque here, and the call fails
/// exactly when `t` lies before the epoch.
#[verifier::external_body]
fn duration_since_unix_epoch(t: &SystemTime) -> Result<Duration, SystemTimeError> {
    t.duration_since(SystemTime::UNIX_EPOCH)
}

/// Turns the time elapsed since the Unix epoch, as the clock reported it, into
/// whole milliseconds: a time before the epoch is refused.
pub fn millis_since_epoch(since_epoch: Result<Duration, SystemTimeError>) -> (r: Result<
    u128,
    ClockError,
>)
    ensures
        since_epoch matches Ok(d) ==> r == Ok::<u128, ClockError>(duration_millis(d) as u128)
            && duration_millis(d) <= max_duration_millis()
            && (duration_millis(d) * 1_000_000 <= duration_nanos(d) < (duration_millis(d) + 1)
            * 1_000_000),
        since_epoch is Err ==> r == Err::<u128, ClockError>(ClockError::BeforeUnixEpoch),
{
    match since_epoch {
        Ok(d) => {
            proof {
                lemma_reading_in_whole_millis(d);
            }
            Ok(duration_as_millis(&d))
        },
        Err(_) => Err(ClockError::BeforeUnixEpoch),
    }
}

/// The current time, in whole milliseconds since the Unix epoch, or the reason
/// it cannot be had. Which time, and whether the clock reads a time before the
/// epoch, is up to the system clock; `millis_since_epoch` states what is
/// returned for each reading.
pub fn now_since_epoch_millis() -> (r: Result<u128, ClockError>)
    ensures
        r matches Ok(ms) ==> ms <= max_duration_millis(),
{
    let now = system_time_now();
    millis_since_epoch(duration_since_unix_epoch(&now))
}

/// The delay until a task's first run, computed from a reading of the clock:
/// the time elapsed since the Unix epoch, or the error that a reading before
/// the epoch gives. A reading before the epoch is refused.
pub fn initial_delay_since_epoch(
    since_epoch: Result<Duration, SystemTimeError>,
    interval: Duration,
    offset: Duration,
) -> (r: Result<Duration, ClockError>)
    requires
        duration_millis(interval) > 0,
    ensures
        since_epoch matches Ok(e) ==> r matches Ok(delay) && duration_nanos(delay)
            == initial_delay_nanos(duration_millis(e), interval, offset) && duration_millis(e)
            <= max_duration_millis(),
        since_epoch is Err ==> r == Err::<Duration, ClockError>(ClockError::BeforeUnixEpoch),
{
    match millis_since_epoch(since_epoch) {
        Ok(now) => Ok(calculate_initial_delay_at(now, interval, offset)),
        Err(e) => Err(e),
    }
}

/// Calculates the initial delay to align with the next scheduled time, reading
/// the system clock for "now". What is returned for each reading of the clock
/// is stated by `initial_delay_since_epoch`; which reading is taken is up to the
/// system clock.
///
/// The manager only holds schedules whose offset is below their interval;
/// intervals shorter than one millisecond cannot be placed.
pub fn calculate_initial_delay(interval: Duration, offset: Duration) -> (r: Result<
    Duration,
    ClockError,
>)
    requires
        duration_millis(interval) > 0,
    ensures
        r matches Ok(delay) ==> exists|now: nat|
            now <= max_duration_millis() && duration_nanos(delay) == #[trigger] initial_delay_nanos(
                now,
                interval,
                offset,
            ),
{
    let now = system_time_now();
    let since_epoch = duration_since_unix_epoch(&now);
    let ghost reading = since_epoch;
    let r = initial_delay_since_epoch(since_epoch, interval, offset);
    proof {
        if let Ok(e) = reading {
            let reading = duration_millis(e);
            assert(reading <= max_duration_millis());
            assert(duration_nanos(r->Ok_0) == initial_delay_nanos(reading, interval, offset));
        }
    }
    r
}

/// A clock reading becomes its whole milliseconds: the returned count of
/// milliseconds spans no more than the reading, and less than one millisecond
/// less than it.
pub proof fn lemma_reading_in_whole_millis(e: Duration)
    ensures
        duration_millis(e) * 1_000_000 <= duration_nanos(e) < (duration_millis(e) + 1) * 1_000_000,
{
    let n = duration_nanos(e) as int;
    vstd::arithmetic::div_mod::lemma_fundamental_div_mod(n, 1_000_000);
    assert(0 <= n % 1_000_000 < 1_000_000);
    assert(duration_millis(e) * 1_000_000 == 1_000_000 * (n / 1_000_000)) by (nonlinear_arith)
        requires
            duration_millis(e) == n / 1_000_000,
    ;
}

/// The first run is placed relative to the clock reading itself: for a reading
/// `e` since the Unix epoch, the delay returned for it lands the first run,
/// counted in whole milliseconds since the epoch, on the next time congruent to
/// the offset modulo the interval, at most one interval after the reading.
pub proof fn lemma_first_run_after_reading(e: Duration, interval: Duration, offset: Duration)
    requires
        duration_nanos(offset) < duration_nanos(interval),
        0 < duration_millis(interval) <= u64::MAX,
    ensures
        ({
            let now = duration_millis(e);
            let i = duration_millis(interval);
            let o = duration_millis(offset);
            let d = initial_delay_nanos(now, interval, offset) / 1_000_000;
            &&& initial_delay_nanos(now, interval, offset) % 1_000_000 == 0
            &&& 0 < d <= i
            &&& (now + d) % i == o % i
            &&& forall|t: nat| 0 < t < d ==> #[trigger] ((now + t) % i) != o % i
        }),
{
    let now = duration_millis(e);
    lemma_first_run_of_accepted_schedule(now, interval, offset);
    let dm = initial_delay_millis(now, duration_millis(interval), duration_millis(offset));
    assert(initial_delay_nanos(now, interval, offset) == dm * 1_000_000);
    vstd::arithmetic::div_mod::lemma_mod_multiples_basic(dm as int, 1_000_000);
    vstd::arithmetic::div_mod::lemma_div_multiples_vanish(dm as int, 1_000_000);
    assert(dm * 1_000_000 == 1_000_000 * dm) by (nonlinear_arith);
}

} // verus!
