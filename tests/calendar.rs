use ssl_expiry::calendar::{days_in_month, is_leap, time_diff, Timestamp};
use ssl_expiry::time_text::parse_time_text;
use ssl_expiry::text::decimal_text;

fn ts(year: u16, month: u8, day: u8, hour: u8, minute: u8, second: u8) -> Timestamp {
    Timestamp { year, month, day, hour, minute, second }
}

#[test]
fn leap_years_follow_gregorian_rules() {
    assert!(is_leap(2024));
    assert!(!is_leap(2023));
    assert!(!is_leap(1900));
    assert!(is_leap(2000));
}

#[test]
fn month_lengths() {
    assert_eq!(days_in_month(2024, 2), 29);
    assert_eq!(days_in_month(2023, 2), 28);
    assert_eq!(days_in_month(2023, 4), 30);
    assert_eq!(days_in_month(2023, 12), 31);
}

#[test]
fn day_numbers_from_year_one() {
    assert_eq!(ts(1, 1, 1, 0, 0, 0).day_number(), 0);
    assert_eq!(ts(1970, 1, 1, 0, 0, 0).day_number(), 719_162);
    assert_eq!(ts(2000, 3, 1, 0, 0, 0).day_number(), 730_179);
}

#[test]
fn validity_of_fields() {
    assert!(ts(2024, 2, 29, 23, 59, 59).is_valid());
    assert!(!ts(2023, 2, 29, 0, 0, 0).is_valid());
    assert!(!ts(2023, 13, 1, 0, 0, 0).is_valid());
    assert!(!ts(0, 1, 1, 0, 0, 0).is_valid());
    assert!(!ts(2023, 1, 1, 24, 0, 0).is_valid());
}

#[test]
fn diff_crosses_a_leap_day() {
    let from = ts(2024, 2, 28, 12, 0, 0);
    let to = ts(2024, 3, 1, 13, 0, 1);
    assert_eq!(time_diff(&from, &to), (2, 3601));
}

#[test]
fn diff_crosses_a_year_end() {
    let from = ts(2023, 12, 31, 23, 59, 59);
    let to = ts(2024, 1, 1, 0, 0, 0);
    assert_eq!(time_diff(&from, &to), (0, 1));
}

#[test]
fn negative_diff_truncates_toward_zero() {
    let from = ts(2030, 1, 2, 0, 0, 0);
    let to = ts(2030, 1, 1, 12, 0, 0);
    assert_eq!(time_diff(&from, &to), (0, -43_200));
    let to = ts(2029, 12, 30, 0, 0, 0);
    assert_eq!(time_diff(&from, &to), (-3, 0));
}

#[test]
fn parses_single_digit_day() {
    assert_eq!(parse_time_text("Feb  3 09:05:07 2031 GMT"), Some(ts(2031, 2, 3, 9, 5, 7)));
}

#[test]
fn parses_two_digit_day_and_last_year() {
    assert_eq!(parse_time_text("Dec 31 23:59:59 9999 GMT"), Some(ts(9999, 12, 31, 23, 59, 59)));
    assert_eq!(parse_time_text("Sep 15 00:00:00 2025 GMT"), Some(ts(2025, 9, 15, 0, 0, 0)));
}

#[test]
fn rejects_malformed_time_text() {
    assert_eq!(parse_time_text("Feb 30 00:00:00 2031 GMT"), None);
    assert_eq!(parse_time_text("Feb 03 00:00:00 2031 GMT"), None);
    assert_eq!(parse_time_text("Fib  3 00:00:00 2031 GMT"), None);
    assert_eq!(parse_time_text("Feb  3 24:00:00 2031 GMT"), None);
    assert_eq!(parse_time_text("Feb  3 00:00:00 0999 GMT"), None);
    assert_eq!(parse_time_text("Feb  3 00:00:00 2031 UTC"), None);
    assert_eq!(parse_time_text("Feb  3 00:00:00 2031"), None);
    assert_eq!(parse_time_text(""), None);
}

#[test]
fn decimal_rendering() {
    assert_eq!(decimal_text(0), "0");
    assert_eq!(decimal_text(5), "5");
    assert_eq!(decimal_text(-120), "-120");
    assert_eq!(decimal_text(i64::MAX), "9223372036854775807");
    assert_eq!(decimal_text(i64::MIN), "-9223372036854775808");
}
