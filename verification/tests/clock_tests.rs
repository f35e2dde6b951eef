use podcast::clock::{Timestamp, MAX_SECONDS, NANOS_PER_SECOND};

fn at(secs: i64, nanos: u32) -> Timestamp {
    Timestamp::new(secs, nanos).unwrap()
}

#[test]
fn new_accepts_times_in_range() {
    assert_eq!(Timestamp::new(0, 0), Some(Timestamp { secs: 0, nanos: 0 }));
    assert_eq!(
        Timestamp::new(MAX_SECONDS, NANOS_PER_SECOND - 1),
        Some(Timestamp { secs: MAX_SECONDS, nanos: 999_999_999 })
    );
    assert_eq!(Timestamp::new(-MAX_SECONDS, 0), Some(Timestamp { secs: -MAX_SECONDS, nanos: 0 }));
}

#[test]
fn new_refuses_times_out_of_range() {
    assert_eq!(Timestamp::new(MAX_SECONDS + 1, 0), None);
    assert_eq!(Timestamp::new(-MAX_SECONDS - 1, 0), None);
    assert_eq!(Timestamp::new(0, NANOS_PER_SECOND), None);
    assert_eq!(Timestamp::new(i64::MAX, 0), None);
    assert_eq!(Timestamp::new(i64::MIN, u32::MAX), None);
}

#[test]
fn now_is_after_2020() {
    let now = Timestamp::now().unwrap();
    assert!(now.secs > 1_577_836_800);
    assert!(now.nanos < NANOS_PER_SECOND);
}

#[test]
fn seconds_until_counts_whole_seconds() {
    assert_eq!(at(100, 0).seconds_until(&at(160, 0)), 60);
    assert_eq!(at(100, 0).seconds_until(&at(100, 0)), 0);
    assert_eq!(at(0, 0).seconds_until(&at(172_800, 0)), 172_800);
}

#[test]
fn seconds_until_rounds_toward_zero() {
    assert_eq!(at(100, 500_000_000).seconds_until(&at(160, 0)), 59);
    assert_eq!(at(100, 0).seconds_until(&at(160, 999_999_999)), 60);
    assert_eq!(at(160, 0).seconds_until(&at(100, 500_000_000)), -59);
    assert_eq!(at(160, 999_999_999).seconds_until(&at(100, 0)), -60);
    assert_eq!(at(5, 1).seconds_until(&at(5, 0)), 0);
}

#[test]
fn seconds_until_is_negative_backwards() {
    assert_eq!(at(160, 0).seconds_until(&at(100, 0)), -60);
    assert_eq!(at(-50, 0).seconds_until(&at(-150, 0)), -100);
}

#[test]
fn seconds_until_spans_the_whole_range() {
    assert_eq!(at(-MAX_SECONDS, 0).seconds_until(&at(MAX_SECONDS, 0)), 2 * MAX_SECONDS);
    assert_eq!(
        at(MAX_SECONDS, 999_999_999).seconds_until(&at(-MAX_SECONDS, 0)),
        -2 * MAX_SECONDS
    );
}

#[test]
fn folding_leap_second_keeps_ordinary_readings() {
    assert_eq!(Timestamp::folding_leap_second(59, 0), Timestamp::new(59, 0));
    assert_eq!(Timestamp::folding_leap_second(59, 999_999_999), Timestamp::new(59, 999_999_999));
    assert_eq!(Timestamp::folding_leap_second(-7, 12), Some(Timestamp { secs: -7, nanos: 12 }));
}

#[test]
fn folding_leap_second_holds_it_as_the_last_nanosecond() {
    assert_eq!(
        Timestamp::folding_leap_second(59, 1_000_000_000),
        Some(Timestamp { secs: 59, nanos: 999_999_999 })
    );
    assert_eq!(
        Timestamp::folding_leap_second(59, 1_999_999_999),
        Some(Timestamp { secs: 59, nanos: 999_999_999 })
    );
    assert_eq!(
        Timestamp::folding_leap_second(MAX_SECONDS, u32::MAX),
        Some(Timestamp { secs: MAX_SECONDS, nanos: 999_999_999 })
    );
}

#[test]
fn folding_leap_second_refuses_seconds_out_of_range() {
    assert_eq!(Timestamp::folding_leap_second(MAX_SECONDS + 1, 0), None);
    assert_eq!(Timestamp::folding_leap_second(-MAX_SECONDS - 1, 1_500_000_000), None);
}
