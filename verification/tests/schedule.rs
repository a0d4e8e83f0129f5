use std::time::{Duration, SystemTime};

use recurring_tasks::clock::{
    calculate_initial_delay, millis_since_epoch, now_since_epoch_millis, ClockError,
};
use recurring_tasks::duration::{duration_as_millis, duration_as_nanos, duration_from_millis};
use recurring_tasks::schedule::calculate_initial_delay_at;

fn at(now: Duration, interval: Duration, offset: Duration) -> Duration {
    calculate_initial_delay_at(now.as_millis(), interval, offset)
}

#[test]
fn half_offset() {
    let interval = Duration::from_secs(60);
    let offset = Duration::from_secs(30);

    let delay = at(Duration::from_secs(0), interval, offset);
    assert_eq!(delay, offset, "0 is offset");

    let delay = at(offset, interval, offset);
    assert_eq!(delay, interval, "offset is interval");

    let diff = Duration::from_secs(15);
    let delay = at(offset - diff, interval, offset);
    assert_eq!(delay, diff, "less than offset is offset remainder");

    let diff = Duration::from_secs(15);
    let delay = at(offset + diff, interval, offset);
    assert_eq!(
        delay,
        interval - diff,
        "more than offset is interval remainder"
    );
}

#[test]
fn quarter_offset() {
    let interval = Duration::from_secs(60);
    let offset = Duration::from_secs(15);

    let delay = at(Duration::from_secs(0), interval, offset);
    assert_eq!(delay, offset, "0 is offset");

    let delay = at(offset, interval, offset);
    assert_eq!(delay, interval, "offset is interval");

    let diff = Duration::from_secs(5);
    let delay = at(offset - diff, interval, offset);
    assert_eq!(delay, diff, "less than offset is offset remainder");

    let diff = Duration::from_secs(15);
    let delay = at(offset + diff, interval, offset);
    assert_eq!(
        delay,
        interval - diff,
        "more than offset is interval remainder"
    );
}

#[test]
fn no_offset_runs_at_next_multiple_of_interval() {
    let interval = Duration::from_secs(30);
    let zero = Duration::ZERO;
    assert_eq!(at(Duration::from_secs(0), interval, zero), interval);
    assert_eq!(at(Duration::from_secs(10), interval, zero), Duration::from_secs(20));
    assert_eq!(at(Duration::from_secs(3600), interval, zero), interval);
    assert_eq!(at(Duration::from_millis(3_600_001), interval, zero), Duration::from_millis(29_999));
}

#[test]
fn top_of_the_hour_and_midnight() {
    let hour = Duration::from_secs(3600);
    // 02:40:00 after the epoch: the top of the hour is 20 minutes away
    let now = Duration::from_secs(2 * 3600 + 40 * 60);
    assert_eq!(at(now, hour, Duration::ZERO), Duration::from_secs(20 * 60));
    // half past the hour
    assert_eq!(at(now, hour, Duration::from_secs(30 * 60)), Duration::from_secs(50 * 60));
    // a quarter past the hour
    assert_eq!(at(now, hour, Duration::from_secs(15 * 60)), Duration::from_secs(35 * 60));
    let day = Duration::from_secs(86_400);
    assert_eq!(at(now, day, Duration::ZERO), Duration::from_secs(86_400 - 2 * 3600 - 40 * 60));
}

#[test]
fn sub_second_interval() {
    let interval = Duration::from_millis(250);
    let offset = Duration::from_millis(100);
    assert_eq!(at(Duration::from_millis(1_000), interval, offset), Duration::from_millis(100));
    assert_eq!(at(Duration::from_millis(1_100), interval, offset), Duration::from_millis(250));
    assert_eq!(at(Duration::from_millis(1_180), interval, offset), Duration::from_millis(170));
}

#[test]
fn delay_lands_on_next_aligned_time() {
    let interval_ms: u128 = 7_000;
    let offset_ms: u128 = 3_000;
    for now in [0u128, 1, 2_999, 3_000, 3_001, 6_999, 7_000, 123_456, 9_999_999] {
        let d = calculate_initial_delay_at(
            now,
            Duration::from_millis(interval_ms as u64),
            Duration::from_millis(offset_ms as u64),
        )
        .as_millis();
        assert!(d > 0 && d <= interval_ms);
        assert_eq!((now + d) % interval_ms, offset_ms);
        for t in 1..d {
            assert_ne!((now + t) % interval_ms, offset_ms);
        }
    }
}

#[test]
fn milliseconds_are_whole() {
    // 1.5 ms interval and 1.2 ms offset: both count as one whole millisecond
    let interval = Duration::from_micros(1_500);
    let offset = Duration::from_micros(1_200);
    assert_eq!(calculate_initial_delay_at(10, interval, offset), Duration::from_millis(1));
}

#[test]
fn delay_from_the_system_clock_is_within_one_interval() {
    let interval = Duration::from_secs(60);
    let offset = Duration::from_secs(30);
    let delay = calculate_initial_delay(interval, offset).expect("clock after the epoch");
    assert!(delay > Duration::ZERO);
    assert!(delay <= interval);
    assert_eq!(delay.subsec_nanos() % 1_000_000, 0);
}

#[test]
fn clock_reads_a_time_after_the_epoch() {
    let ms = now_since_epoch_millis().expect("clock after the epoch");
    // later than 2020-01-01
    assert!(ms > 1_577_836_800_000);
    assert_eq!(ClockError::BeforeUnixEpoch.message(), "Y2k happened?");
}

#[test]
fn duration_conversions() {
    let d = Duration::new(3, 456_789_012);
    assert_eq!(duration_as_nanos(&d), 3_456_789_012);
    assert_eq!(duration_as_millis(&d), 3_456);
    assert_eq!(duration_from_millis(1_234), Duration::new(1, 234_000_000));
    assert_eq!(duration_as_nanos(&Duration::MAX), u64::MAX as u128 * 1_000_000_000 + 999_999_999);
}

#[test]
fn clock_readings_become_milliseconds_or_are_refused() {
    let after = (SystemTime::UNIX_EPOCH + Duration::from_millis(1_234_567)).duration_since(SystemTime::UNIX_EPOCH);
    assert_eq!(millis_since_epoch(after), Ok(1_234_567));
    let before = SystemTime::UNIX_EPOCH.duration_since(SystemTime::UNIX_EPOCH + Duration::from_secs(1));
    assert_eq!(millis_since_epoch(before), Err(ClockError::BeforeUnixEpoch));
}
