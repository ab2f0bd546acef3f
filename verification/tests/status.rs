use netcheck::runner::{Event, Status, TimeDelta, Timestamp};

fn at(secs: i64) -> Timestamp {
    Timestamp { secs, subsec_nanos: 0 }
}

#[test]
fn test_status_new() {
    let status = Status::new(3);
    assert_eq!(status.threshold, 3);
    assert_eq!(status.unavailable_count, 0);
    assert_eq!(status.unavailable_counted, 0);
    assert_eq!(status.is_unavailable, false);
    assert_eq!(status.available_counted, 0);
    assert_eq!(status.unavailable_events, vec![]);
}

#[test]
fn test_status_handle_available() {
    let mut status = Status::new(3);
    status.is_unavailable = true;
    status.unavailable_started = Timestamp::now();
    assert_eq!(status.handle_available(), Event::NoChange);
    assert_eq!(status.handle_available(), Event::NoChange);
    match status.handle_available() {
        Event::UnavailableToAvailable(duration) => {
            assert!(duration.num_nanoseconds().expect("should unwrap") > 0)
        }
        _ => panic!("Expected UnavailableToAvailable"),
    }
}

#[test]
fn test_status_handle_unavailable() {
    let mut status = Status::new(3);
    assert_eq!(status.handle_available(), Event::NoChange);
    assert_eq!(status.handle_available(), Event::NoChange);
    assert_eq!(status.handle_available(), Event::NoChange);
    assert_eq!(status.handle_unavailable(), Event::NoChange);
    assert_eq!(status.handle_unavailable(), Event::NoChange);
    assert_eq!(status.handle_unavailable(), Event::AvailableToUnavailable);
}

#[test]
fn status_new_takes_zero_threshold_as_one() {
    let mut status = Status::new(0);
    assert_eq!(status.threshold, 1);
    assert_eq!(status.observe_unavailable(at(5)), Event::AvailableToUnavailable);
    assert!(status.is_unavailable);
}

#[test]
fn status_default_is_fresh_with_threshold_one() {
    let status = Status::default();
    assert_eq!(status.threshold, 1);
    assert_eq!(status.is_unavailable, false);
    assert_eq!(status.unavailable_started, Timestamp { secs: 0, subsec_nanos: 0 });
    assert!(status.unavailable_events.is_empty());
    assert!(status.can_observe());
}

#[test]
fn unavailable_flips_on_exactly_the_threshold() {
    for threshold in 1u8..=20 {
        let mut status = Status::new(threshold);
        for seen in 1..=(threshold as i64 + 5) {
            let event = status.observe_unavailable(at(seen));
            if seen == threshold as i64 {
                assert_eq!(event, Event::AvailableToUnavailable);
            } else {
                assert_eq!(event, Event::NoChange);
            }
            assert_eq!(status.is_unavailable, seen >= threshold as i64);
            assert_eq!(status.unavailable_counted, seen as u64);
            assert_eq!(status.available_counted, 0);
        }
        assert_eq!(status.unavailable_count, 1);
        assert_eq!(status.unavailable_started, at(threshold as i64));
    }
}

#[test]
fn available_flips_back_on_exactly_the_threshold() {
    for threshold in 1u8..=20 {
        let mut status = Status::new(threshold);
        for seen in 0..threshold as i64 {
            status.observe_unavailable(at(100 + seen));
        }
        assert!(status.is_unavailable);
        let started = status.unavailable_started;
        assert_eq!(started, at(100 + threshold as i64 - 1));
        for seen in 1..=(threshold as i64 + 5) {
            let now = Timestamp { secs: 1000 + seen, subsec_nanos: 7 };
            let event = status.observe_available(now);
            if seen == threshold as i64 {
                let nanos = (1000 + seen - started.secs) as i128 * 1_000_000_000 + 7;
                assert_eq!(event, Event::UnavailableToAvailable(TimeDelta { nanos }));
            } else {
                assert_eq!(event, Event::NoChange);
            }
            assert_eq!(status.is_unavailable, seen < threshold as i64);
            assert_eq!(status.unavailable_counted, 0);
        }
        assert_eq!(status.unavailable_events.len(), 1);
        assert_eq!(status.unavailable_count, 1);
    }
}

#[test]
fn opposite_observation_resets_the_run() {
    let mut status = Status::new(3);
    assert_eq!(status.observe_unavailable(at(1)), Event::NoChange);
    assert_eq!(status.observe_unavailable(at(2)), Event::NoChange);
    assert_eq!(status.unavailable_counted, 2);
    assert_eq!(status.observe_available(at(3)), Event::NoChange);
    assert_eq!(status.unavailable_counted, 0);
    assert_eq!(status.is_unavailable, false);
    assert_eq!(status.observe_unavailable(at(4)), Event::NoChange);
    assert_eq!(status.observe_unavailable(at(5)), Event::NoChange);
    assert_eq!(status.is_unavailable, false);
    assert_eq!(status.observe_unavailable(at(6)), Event::AvailableToUnavailable);
    assert_eq!(status.is_unavailable, true);
    assert_eq!(status.available_counted, 0);

    assert_eq!(status.observe_available(at(7)), Event::NoChange);
    assert_eq!(status.observe_available(at(8)), Event::NoChange);
    assert_eq!(status.available_counted, 2);
    assert_eq!(status.observe_unavailable(at(9)), Event::NoChange);
    assert_eq!(status.available_counted, 0);
    assert_eq!(status.is_unavailable, true);
    assert_eq!(status.unavailable_started, at(6));
    assert_eq!(status.unavailable_count, 1);
}

#[test]
fn history_holds_recoveries_only() {
    let mut status = Status::new(1);
    assert_eq!(status.observe_unavailable(at(10)), Event::AvailableToUnavailable);
    let first = status.observe_available(at(25));
    assert_eq!(first, Event::UnavailableToAvailable(TimeDelta { nanos: 15_000_000_000 }));
    assert_eq!(status.observe_available(at(26)), Event::NoChange);
    assert_eq!(status.observe_unavailable(at(30)), Event::AvailableToUnavailable);
    let second = status.observe_available(Timestamp { secs: 30, subsec_nanos: 500 });
    assert_eq!(second, Event::UnavailableToAvailable(TimeDelta { nanos: 500 }));
    assert_eq!(status.unavailable_events, vec![first, second]);
    assert_eq!(status.unavailable_count, 2);
    assert_eq!(status.threshold, 1);
}

#[test]
fn outage_is_negative_where_the_clock_stepped_back() {
    let mut status = Status::new(1);
    status.observe_unavailable(at(100));
    let event = status.observe_available(at(99));
    assert_eq!(event, Event::UnavailableToAvailable(TimeDelta { nanos: -1_000_000_000 }));
}

#[test]
fn can_observe_is_false_at_the_counters_limit() {
    let mut status = Status::new(2);
    assert!(status.can_observe());
    status.available_counted = u64::MAX;
    assert!(!status.can_observe());
    status.available_counted = 0;
    status.unavailable_counted = u64::MAX;
    assert!(!status.can_observe());
    status.unavailable_counted = 0;
    status.unavailable_count = u64::MAX;
    assert!(status.can_observe());
    status.unavailable_counted = 1;
    assert!(!status.can_observe());
    status.is_unavailable = true;
    assert!(status.can_observe());
}

#[test]
fn timestamp_now_reads_the_clock() {
    let before = chrono::Utc::now().timestamp();
    let now = Timestamp::now();
    let after = chrono::Utc::now().timestamp();
    assert!(before <= now.secs && now.secs <= after);
    assert!(now.secs > 1_600_000_000);
    assert!(now.subsec_nanos < 1_000_000_000);
}

#[test]
fn timestamp_default_is_the_epoch() {
    assert_eq!(Timestamp::default(), Timestamp { secs: 0, subsec_nanos: 0 });
}

#[test]
fn signed_duration_since_is_the_difference() {
    let earlier = Timestamp { secs: 10, subsec_nanos: 900_000_000 };
    let later = Timestamp { secs: 12, subsec_nanos: 100_000_000 };
    assert_eq!(later.signed_duration_since(earlier), TimeDelta { nanos: 1_200_000_000 });
    assert_eq!(earlier.signed_duration_since(later), TimeDelta { nanos: -1_200_000_000 });
    let first = Timestamp { secs: i64::MIN, subsec_nanos: 0 };
    let last = Timestamp { secs: i64::MAX, subsec_nanos: u32::MAX };
    assert_eq!(
        last.signed_duration_since(first).nanos,
        (i64::MAX as i128 - i64::MIN as i128) * 1_000_000_000 + u32::MAX as i128
    );
}

#[test]
fn time_delta_in_seconds_and_nanoseconds() {
    assert_eq!(TimeDelta::nanoseconds(42), TimeDelta { nanos: 42 });
    assert_eq!(TimeDelta { nanos: 2_999_999_999 }.num_seconds(), 2);
    assert_eq!(TimeDelta { nanos: -2_999_999_999 }.num_seconds(), -2);
    assert_eq!(TimeDelta { nanos: -1 }.num_seconds(), 0);
    assert_eq!(TimeDelta { nanos: 0 }.num_seconds(), 0);
    assert_eq!(TimeDelta { nanos: i128::MIN }.num_seconds(), i128::MIN / 1_000_000_000);
    assert_eq!(TimeDelta { nanos: i128::MAX }.num_seconds(), i128::MAX / 1_000_000_000);
    assert_eq!(TimeDelta { nanos: -1_000_000_001 }.num_seconds(), -1);
    assert_eq!(TimeDelta { nanos: 5 }.num_nanoseconds(), Some(5));
    assert_eq!(TimeDelta { nanos: i64::MAX as i128 }.num_nanoseconds(), Some(i64::MAX));
    assert_eq!(TimeDelta { nanos: i64::MIN as i128 }.num_nanoseconds(), Some(i64::MIN));
    assert_eq!(TimeDelta { nanos: i64::MAX as i128 + 1 }.num_nanoseconds(), None);
    assert_eq!(TimeDelta { nanos: i64::MIN as i128 - 1 }.num_nanoseconds(), None);
}
