use price_poller::error::PollError;
use price_poller::schedule::{first_fire_delay, first_fire_delay_now, wait_seconds, Delay};

#[test]
fn wait_for_half_minute_interval() {
    assert_eq!(wait_seconds(30, 10), Ok(20));
    assert_eq!(wait_seconds(30, 0), Ok(30));
    assert_eq!(wait_seconds(30, 29), Ok(1));
    assert_eq!(wait_seconds(30, 30), Ok(30));
    assert_eq!(wait_seconds(30, 59), Ok(1));
}

#[test]
fn wait_for_full_minute_interval() {
    assert_eq!(wait_seconds(60, 0), Ok(0));
    assert_eq!(wait_seconds(60, 1), Ok(59));
    assert_eq!(wait_seconds(60, 59), Ok(1));
}

#[test]
fn wait_stays_within_a_minute_and_aligns() {
    for interval in 1u64..=60 {
        for second in 0u32..60 {
            let wait = wait_seconds(interval, second).unwrap();
            assert!(wait < 60);
            assert_eq!((second as u64 + wait) % interval, 0);
        }
    }
}

#[test]
fn later_fires_keep_to_multiples_when_interval_divides_the_minute() {
    for interval in [1u64, 2, 3, 4, 5, 6, 10, 12, 15, 20, 30, 60] {
        for second in 0u32..60 {
            let wait = wait_seconds(interval, second).unwrap();
            for k in 0u64..200 {
                let at = second as u64 + wait + k * interval;
                assert_eq!((at % 60) % interval, 0);
            }
        }
    }
}

#[test]
fn later_fires_drift_when_interval_does_not_divide_the_minute() {
    let wait = wait_seconds(7, 0).unwrap();
    assert_eq!(wait, 7);
    // the ninth firing falls on second 3 of the next minute
    let at = wait + 8 * 7;
    assert_eq!(at % 60, 3);
    assert_ne!((at % 60) % 7, 0);
}

#[test]
fn wait_for_interval_above_a_minute() {
    assert_eq!(wait_seconds(90, 10), Ok(20));
    assert_eq!(wait_seconds(120, 0), Ok(0));
    assert_eq!(wait_seconds(3600, 15), Ok(45));
}

#[test]
fn wait_rejects_zero_interval() {
    assert_eq!(wait_seconds(0, 10), Err(PollError::Scheduler));
}

#[test]
fn wait_rejects_interval_that_overflows() {
    assert_eq!(wait_seconds(u64::MAX, 1), Err(PollError::Scheduler));
    assert_eq!(wait_seconds(u64::MAX - 58, 59), Err(PollError::Scheduler));
    assert_eq!(wait_seconds(u64::MAX, 0), Ok((u64::MAX - 0) % 60));
    assert_eq!(wait_seconds(u64::MAX - 59, 59), Ok((u64::MAX - 59 - 59) % 60));
}

#[test]
fn first_fire_is_wait_less_one_second_plus_rest_of_second() {
    assert_eq!(first_fire_delay(30, 10, 500), Ok(Delay { secs: 19, nanos: 999_999_500 }));
    assert_eq!(first_fire_delay(30, 29, 999_999_999), Ok(Delay { secs: 0, nanos: 1 }));
    assert_eq!(first_fire_delay(15, 44, 250_000_000), Ok(Delay { secs: 0, nanos: 750_000_000 }));
}

#[test]
fn first_fire_at_the_start_of_a_second() {
    assert_eq!(first_fire_delay(30, 10, 0), Ok(Delay { secs: 20, nanos: 0 }));
    assert_eq!(first_fire_delay(30, 29, 0), Ok(Delay { secs: 1, nanos: 0 }));
}

#[test]
fn first_fire_at_the_end_of_a_second() {
    assert_eq!(first_fire_delay(30, 10, 1_000_000_000), Ok(Delay { secs: 19, nanos: 0 }));
}

#[test]
fn first_fire_lands_on_a_whole_second() {
    for interval in [1u64, 7, 30, 45, 59] {
        for second in 0u32..60 {
            for nanosecond in [0u32, 1, 499_999_999, 999_999_999] {
                let delay = first_fire_delay(interval, second, nanosecond).unwrap();
                let wait = wait_seconds(interval, second).unwrap();
                assert!(delay.nanos < 1_000_000_000);
                let total = delay.secs as u128 * 1_000_000_000 + delay.nanos as u128;
                assert_eq!(total + nanosecond as u128, wait as u128 * 1_000_000_000);
            }
        }
    }
}

#[test]
fn first_fire_fails_when_wait_is_zero() {
    assert_eq!(first_fire_delay(60, 0, 123), Err(PollError::Scheduler));
    assert_eq!(first_fire_delay(120, 0, 0), Err(PollError::Scheduler));
}

#[test]
fn first_fire_fails_inside_a_leap_second() {
    assert_eq!(first_fire_delay(30, 59, 1_000_000_001), Err(PollError::Scheduler));
    assert_eq!(first_fire_delay(30, 59, 1_999_999_999), Err(PollError::Scheduler));
}

#[test]
fn first_fire_fails_for_zero_interval() {
    assert_eq!(first_fire_delay(0, 10, 500), Err(PollError::Scheduler));
}

#[test]
fn first_fire_fails_for_interval_that_overflows() {
    assert_eq!(first_fire_delay(u64::MAX, 10, 500), Err(PollError::Scheduler));
}

#[test]
fn first_fire_from_the_clock_is_at_most_one_interval_away() {
    for interval in [1u64, 7, 30, 59] {
        let delay = first_fire_delay_now(interval).unwrap();
        assert!(delay.nanos < 1_000_000_000);
        let total = delay.secs as u128 * 1_000_000_000 + delay.nanos as u128;
        assert!(total <= interval as u128 * 1_000_000_000);
    }
}

#[test]
fn first_fire_from_the_clock_fails_for_zero_interval() {
    assert_eq!(first_fire_delay_now(0), Err(PollError::Scheduler));
}

#[test]
fn first_fire_from_the_clock_aligns_with_the_system_clock() {
    let before = std::time::SystemTime::now()
        .duration_since(std::time::UNIX_EPOCH)
        .unwrap();
    let delay = first_fire_delay_now(30).unwrap();
    let after = std::time::SystemTime::now()
        .duration_since(std::time::UNIX_EPOCH)
        .unwrap();
    let span = std::time::Duration::new(delay.secs, delay.nanos);
    // the clock was read between the two readings here, so the firing lies
    // between the two sums, and it falls on a whole half minute
    let low = (before + span).as_nanos();
    let high = (after + span).as_nanos();
    let half_minute = 30u128 * 1_000_000_000;
    let fire = (high / half_minute) * half_minute;
    assert!(low <= fire && fire <= high);
}

#[test]
fn default_interval_is_half_a_minute() {
    assert_eq!(price_poller::schedule::DEFAULT_INTERVAL, 30);
}

#[test]
fn first_fire_fails_only_at_the_full_minute() {
    for interval in 1u64..=60 {
        for second in 0u32..60 {
            for nanosecond in [0u32, 1, 999_999_999, 1_000_000_000] {
                let failed = first_fire_delay(interval, second, nanosecond).is_err();
                assert_eq!(failed, interval == 60 && second == 0);
            }
        }
    }
}

#[test]
fn fires_drift_for_every_interval_that_does_not_divide_the_minute() {
    for interval in 1u64..=60 {
        if 60 % interval == 0 {
            continue;
        }
        for second in 0u32..60 {
            let wait = wait_seconds(interval, second).unwrap();
            let drifted = (0u64..200).any(|k| {
                let at = second as u64 + wait + k * interval;
                (at % 60) % interval != 0
            });
            assert!(drifted);
        }
    }
}

#[test]
fn first_fire_from_the_clock_never_fails_below_a_full_minute() {
    for interval in 1u64..=59 {
        let delay = first_fire_delay_now(interval).unwrap();
        assert!(delay.nanos < 1_000_000_000);
        let total = delay.secs as u128 * 1_000_000_000 + delay.nanos as u128;
        assert!(0 < total && total <= interval as u128 * 1_000_000_000);
    }
}

#[test]
fn first_fire_from_the_clock_at_a_full_minute_interval() {
    // fails only if the clock stands in the first second of a minute
    match first_fire_delay_now(60) {
        Ok(delay) => {
            let total = delay.secs as u128 * 1_000_000_000 + delay.nanos as u128;
            assert!(0 < total && total <= 59 * 1_000_000_000);
        }
        Err(kind) => assert_eq!(kind, PollError::Scheduler),
    }
}
