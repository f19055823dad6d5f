use ingestor::internal::exporter::traces::{
    civil_in_range, days_from_civil, parse_fraction_nanos, parse_iso8601_utc_nanos, utc_timestamp_fits,
};
use ingestor::internal::normalize::time::{end_unix_nano, unix_nano};
use ingestor::internal::specs::timing::{Milliseconds, RequestTiming};

#[test]
fn days_from_civil_counts_from_the_epoch() {
    assert_eq!(days_from_civil(1970, 1, 1), 0);
    assert_eq!(days_from_civil(2000, 3, 1), 11017);
    assert_eq!(days_from_civil(1969, 12, 31), -1);
}

#[test]
fn fraction_nanos_reads_up_to_nine_digits() {
    assert_eq!(parse_fraction_nanos("123"), 123_000_000);
    assert_eq!(parse_fraction_nanos("1234567891"), 123_456_789);
    assert_eq!(parse_fraction_nanos("12x9"), 120_000_000);
    assert_eq!(parse_fraction_nanos(""), 0);
}

#[test]
fn iso8601_utc_timestamps_become_unix_nanos() {
    assert_eq!(parse_iso8601_utc_nanos("2026-06-08T10:15:30.123Z"), Some(1_780_913_730_123_000_000));
    assert_eq!(parse_iso8601_utc_nanos("1970-01-01T00:00:00Z"), Some(0));
    assert_eq!(parse_iso8601_utc_nanos("2026-06-08T10:15:30.123"), None);
    assert_eq!(parse_iso8601_utc_nanos("1969-12-31T23:59:59Z"), None);
    assert_eq!(parse_iso8601_utc_nanos("2026-06-08 10:15:30Z"), None);
}

#[test]
fn unix_nano_reads_rfc3339() {
    assert_eq!(unix_nano(Some("2026-06-08T10:15:30.123Z")), Some(1_780_913_730_123_000_000));
    assert_eq!(unix_nano(Some("2026-06-08T12:15:30.123+02:00")), Some(1_780_913_730_123_000_000));
    assert_eq!(unix_nano(Some("1969-12-31T23:59:59Z")), None);
    assert_eq!(unix_nano(Some("not a time")), None);
    assert_eq!(unix_nano(None), None);
}

#[test]
fn end_unix_nano_adds_the_duration() {
    let d = Milliseconds { bits: 1.5f64.to_bits(), nanos: 1_500_000 };
    assert_eq!(end_unix_nano(Some(1_000), Some(d)), Some(1_501_000));
    assert_eq!(end_unix_nano(None, Some(d)), None);
    assert_eq!(end_unix_nano(Some(1_000), None), None);
    assert_eq!(end_unix_nano(Some(u64::MAX), Some(d)), None);
}

#[test]
fn request_timing_start_and_end() {
    let mut t = RequestTiming::empty();
    t.started_at = Some("2026-06-08T10:15:30.123Z".to_string());
    t.duration_ms = Some(Milliseconds { bits: 143.7f64.to_bits(), nanos: 143_700_000 });
    assert_eq!(t.start_unix_nano(), Some(1_780_913_730_123_000_000));
    assert_eq!(t.end_unix_nano(), Some(1_780_913_730_266_700_000));
}

#[test]
fn day_counts_that_leave_i64_are_detected() {
    assert!(civil_in_range(1970, 1, 1));
    assert!(civil_in_range(-4713, 11, 24));
    assert!(!civil_in_range(i64::MAX, 1, 1));
    assert!(!civil_in_range(i64::MIN, 1, 1));
    assert!(utc_timestamp_fits("2026-06-08T10:15:30.123Z"));
    assert!(utc_timestamp_fits("not a timestamp"));
    assert!(!utc_timestamp_fits("99999999999999999-01-01T00:00:00Z"));
}

#[test]
fn the_day_after_counts_one_more() {
    assert_eq!(days_from_civil(1970, 1, 1), 0);
    assert_eq!(days_from_civil(2024, 3, 1), days_from_civil(2024, 2, 29) + 1);
    assert_eq!(days_from_civil(2023, 3, 1), days_from_civil(2023, 2, 28) + 1);
    assert_eq!(days_from_civil(2100, 3, 1), days_from_civil(2100, 2, 28) + 1);
    assert_eq!(days_from_civil(2000, 3, 1), days_from_civil(2000, 2, 29) + 1);
    assert_eq!(days_from_civil(2026, 1, 1), days_from_civil(2025, 12, 31) + 1);
    assert_eq!(days_from_civil(-1, 1, 1), days_from_civil(-2, 12, 31) + 1);
}
