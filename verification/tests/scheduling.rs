use chrono::{DateTime, NaiveDate, NaiveDateTime, Timelike, Utc};
use durable::schedule::{AlarmDate, ScheduledTime, ScheduledTimeInit, TimeSpan};
use std::time::Duration;

fn millis(time: ScheduledTime<u8>, now: u64) -> i128 {
    match time.schedule(now) {
        AlarmDate::Millis(millis) => millis,
        AlarmDate::Date(_) => panic!("a date"),
    }
}

#[test]
fn a_date_is_kept() {
    assert!(matches!(ScheduledTime::new(7u8).schedule(99), AlarmDate::Date(7)));
}

#[test]
fn an_i64_is_an_offset() {
    let time: ScheduledTime<u8> = ScheduledTime::from(1_500i64);
    assert_eq!(millis(time, 1_700_000_000_000), 1_700_000_001_500);
    assert_eq!(millis(ScheduledTime::from(-1_500i64), 1_000), -500);
    assert_eq!(millis(ScheduledTime::from(i64::MAX), 0), 9_223_372_036_854_775_808);
}

#[test]
fn a_duration_is_an_offset() {
    let duration = Duration::new(2, 345_678_901);
    assert_eq!(millis(ScheduledTime::from(duration), 1_000), 3_345);
    assert_eq!(millis(ScheduledTime::from(Duration::from_millis(1)), 41), 42);
    assert_eq!(
        millis(ScheduledTime::from(Duration::MAX), 5),
        (5.0 + Duration::MAX.as_millis() as f64) as i128
    );
}

#[test]
fn a_span_has_the_milliseconds_of_a_duration() {
    for duration in [
        Duration::new(0, 0),
        Duration::new(0, 999_999),
        Duration::new(0, 1_000_000),
        Duration::new(1, 999_999_999),
        Duration::MAX,
    ] {
        let span = TimeSpan::from_duration(&duration);
        assert_eq!(span.secs, duration.as_secs());
        assert_eq!(span.nanos, duration.subsec_nanos());
        assert_eq!(span.as_millis(), duration.as_millis());
    }
}

#[test]
fn a_span_is_an_offset() {
    let span = TimeSpan { secs: 1, nanos: 999_999_999 };
    assert_eq!(millis(ScheduledTime::from(span), 10), 2_009);
}

#[test]
fn a_date_time_is_a_timestamp() {
    let date: NaiveDateTime = DateTime::<Utc>::from_timestamp(1_431_648_000, 555_999_999).unwrap().naive_utc();
    let time: ScheduledTime<u8> = ScheduledTime::from(date);
    assert!(matches!(time.init, ScheduledTimeInit::Timestamp(1_431_648_000_555)));
    assert_eq!(millis(time, 77), 1_431_648_000_555);
    let leap = NaiveDate::from_ymd_opt(1970, 1, 1)
        .unwrap()
        .and_hms_opt(0, 0, 5)
        .unwrap()
        .with_nanosecond(1_500_000_000)
        .unwrap();
    assert_eq!(millis(ScheduledTime::from(leap), 0), 6_500);
    assert_eq!(millis(ScheduledTime::from(NaiveDateTime::MIN), 0), -8_334_601_228_800_000);
}

#[test]
fn a_timestamp_is_a_number_of_milliseconds() {
    assert_eq!(millis(ScheduledTime::at_millis(12), 500), 12);
    assert_eq!(millis(ScheduledTime::at_millis(i64::MIN + 1), 500), i64::MIN as i128);
}

#[test]
fn law_offset_counts_from_now() {
    assert_eq!(millis(ScheduledTime::from(9_007_199_254_740_000i64), 992), 9_007_199_254_740_992);
    // With more than 53 bits the sum is rounded.
    assert_eq!(millis(ScheduledTime::from(1i64), 9_007_199_254_740_992), 9_007_199_254_740_992);
}

#[test]
fn law_timestamp_ignores_the_clock() {
    assert_eq!(millis(ScheduledTime::at_millis(5), 0), millis(ScheduledTime::at_millis(5), 1_000_000));
}

#[test]
fn schedules_add_up_like_floating_point() {
    let mut seed: u64 = 4_101_842_887_655_102_017;
    for _ in 0..5_000 {
        seed ^= seed << 13;
        seed ^= seed >> 7;
        seed ^= seed << 17;
        let now = seed;
        let duration = Duration::new(seed.rotate_left(17), (seed % 1_000_000_000) as u32);
        let expected = (now as f64 + duration.as_millis() as f64) as i128;
        assert_eq!(millis(ScheduledTime::from(duration), now), expected);
    }
}
