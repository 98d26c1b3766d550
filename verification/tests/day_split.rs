use chrono::{DateTime, Datelike, Local, TimeZone, Timelike, Utc};
use hubnity::calendar::{day_key, duration_secs, midnight_utc_of, whole_secs_between, LocalDateTime};

/// The library's reading of a local date-time.
fn reading(dt: &DateTime<Local>) -> LocalDateTime {
    LocalDateTime {
        year: dt.year(),
        month: dt.month(),
        day: dt.day(),
        hour: dt.hour(),
        minute: dt.minute(),
        second: dt.second(),
        utc_ns: dt.timestamp_nanos_opt().unwrap(),
    }
}

/// Local midnight of the reading's date as this machine's zone resolves it.
fn resolved_midnight(dt: &DateTime<Local>) -> Option<i64> {
    let naive = dt.date_naive().and_hms_opt(0, 0, 0).unwrap();
    Local.from_local_datetime(&naive).single().map(|m| m.timestamp_nanos_opt().unwrap())
}

fn midnight_of(dt: &DateTime<Local>) -> i64 {
    midnight_utc_of(&reading(dt), resolved_midnight(dt))
}

fn as_local(ns: i64) -> DateTime<Local> {
    Utc.timestamp_nanos(ns).with_timezone(&Local)
}

#[test]
fn test_day_key_new_year_rollover() {
    let dec31 = Local.with_ymd_and_hms(2024, 12, 31, 23, 59, 59).unwrap();
    let jan01 = Local.with_ymd_and_hms(2025, 1, 1, 0, 0, 1).unwrap();

    assert_ne!(day_key(&reading(&dec31)), day_key(&reading(&jan01)), "year boundary must be detected");
    assert_eq!(day_key(&reading(&dec31)), (2024, 366));
    assert_eq!(day_key(&reading(&jan01)), (2025, 1));
}

#[test]
fn test_day_key_same_day() {
    let morning = Local.with_ymd_and_hms(2025, 6, 15, 0, 0, 0).unwrap();
    let night = Local.with_ymd_and_hms(2025, 6, 15, 23, 59, 59).unwrap();
    assert_eq!(day_key(&reading(&morning)), day_key(&reading(&night)));
}

#[test]
fn test_day_key_midnight_boundary() {
    let before = Local.with_ymd_and_hms(2025, 6, 15, 23, 59, 59).unwrap();
    let after = Local.with_ymd_and_hms(2025, 6, 16, 0, 0, 0).unwrap();
    assert_ne!(day_key(&reading(&before)), day_key(&reading(&after)));
}

#[test]
fn test_day_key_same_ordinal_different_year() {
    let y2024 = Local.with_ymd_and_hms(2024, 4, 9, 12, 0, 0).unwrap();
    let y2025 = Local.with_ymd_and_hms(2025, 4, 10, 12, 0, 0).unwrap();
    assert_eq!(y2024.ordinal(), y2025.ordinal(), "setup: both should be day 100");
    assert_ne!(day_key(&reading(&y2024)), day_key(&reading(&y2025)), "different years must not be equal");
}

#[test]
fn test_midnight_utc_is_local_midnight() {
    let dt = Local.with_ymd_and_hms(2025, 6, 15, 22, 30, 45).unwrap();
    let midnight_local = as_local(midnight_of(&dt));

    assert_eq!(midnight_local.hour(), 0);
    assert_eq!(midnight_local.minute(), 0);
    assert_eq!(midnight_local.second(), 0);
    assert_eq!(midnight_local.date_naive(), dt.date_naive());
}

#[test]
fn test_midnight_utc_same_for_same_day() {
    let t1 = Local.with_ymd_and_hms(2025, 3, 17, 8, 0, 0).unwrap();
    let t2 = Local.with_ymd_and_hms(2025, 3, 17, 23, 59, 59).unwrap();
    assert_eq!(midnight_of(&t1), midnight_of(&t2));
}

#[test]
fn test_chunk_split_at_midnight() {
    let chunk_start = Local.with_ymd_and_hms(2025, 6, 15, 23, 55, 0).unwrap().timestamp_nanos_opt().unwrap();

    let tick_local = Local.with_ymd_and_hms(2025, 6, 16, 0, 0, 1).unwrap();
    let midnight = midnight_of(&tick_local);

    let secs_yesterday = duration_secs(chunk_start, midnight);
    assert_eq!(secs_yesterday, 300, "5 minutes before midnight = 300 secs");

    let new_start_local = as_local(midnight);
    assert_eq!(new_start_local.hour(), 0);
    assert_eq!(new_start_local.minute(), 0);
    assert_eq!(new_start_local.second(), 0);
    assert_eq!(new_start_local.date_naive(), tick_local.date_naive());
}

#[test]
fn test_chunk_split_late_detection() {
    let chunk_start = Local.with_ymd_and_hms(2025, 12, 31, 23, 50, 0).unwrap().timestamp_nanos_opt().unwrap();

    let tick_local = Local.with_ymd_and_hms(2026, 1, 1, 0, 0, 3).unwrap();
    let midnight = midnight_of(&tick_local);

    let secs_yesterday = duration_secs(chunk_start, midnight);
    assert_eq!(secs_yesterday, 600);

    let midnight_local = as_local(midnight);
    assert_eq!(midnight_local.year(), 2026);
    assert_eq!(midnight_local.month(), 1);
    assert_eq!(midnight_local.day(), 1);
}

#[test]
fn test_chunk_no_yesterday_if_started_after_midnight() {
    let chunk_start = Local.with_ymd_and_hms(2025, 6, 16, 0, 5, 0).unwrap().timestamp_nanos_opt().unwrap();

    let tick_local = Local.with_ymd_and_hms(2025, 6, 16, 0, 5, 1).unwrap();
    let midnight = midnight_of(&tick_local);

    let secs_yesterday = duration_secs(chunk_start, midnight);
    assert_eq!(secs_yesterday, 0, "chunk started after midnight — no yesterday portion");
}

#[test]
fn day_key_counts_leap_days() {
    let mar1_leap = LocalDateTime { year: 2024, month: 3, day: 1, hour: 0, minute: 0, second: 0, utc_ns: 0 };
    let mar1 = LocalDateTime { year: 2025, month: 3, day: 1, hour: 0, minute: 0, second: 0, utc_ns: 0 };
    let dec31_1900 = LocalDateTime { year: 1900, month: 12, day: 31, hour: 0, minute: 0, second: 0, utc_ns: 0 };
    let dec31_2000 = LocalDateTime { year: 2000, month: 12, day: 31, hour: 0, minute: 0, second: 0, utc_ns: 0 };
    assert_eq!(day_key(&mar1_leap), (2024, 61));
    assert_eq!(day_key(&mar1), (2025, 60));
    assert_eq!(day_key(&dec31_1900), (1900, 365));
    assert_eq!(day_key(&dec31_2000), (2000, 366));
}

#[test]
fn midnight_falls_back_to_reading_when_unresolved() {
    let r = LocalDateTime { year: 2025, month: 3, day: 30, hour: 3, minute: 0, second: 0, utc_ns: 1_743_296_400_000 };
    assert_eq!(midnight_utc_of(&r, None), 1_743_296_400_000);
    assert_eq!(midnight_utc_of(&r, Some(42)), 42);
}

#[test]
fn whole_secs_truncate_toward_zero() {
    assert_eq!(whole_secs_between(0, 1_999_999_999), 1);
    assert_eq!(whole_secs_between(1_999_999_999, 0), -1);
    assert_eq!(whole_secs_between(5_000, 5_000), 0);
    assert_eq!(duration_secs(1_999_999_999, 0), 0);
    assert_eq!(duration_secs(0, 600_500_000_000), 600);
}

#[test]
fn whole_secs_count_at_full_precision() {
    // 10.0009 s to 11.0001 s is less than one second
    assert_eq!(duration_secs(10_000_900_000, 11_000_100_000), 0);
    assert_eq!(duration_secs(10_000_900_000, 11_000_900_000), 1);
}
