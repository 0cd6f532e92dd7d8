use pointer::logger::{current_date_str, days_to_ymd, log_line, timestamp_str, utc_parts};

#[test]
fn epoch_day() {
    assert_eq!(days_to_ymd(0), (1970, 1, 1));
    assert_eq!(days_to_ymd(1), (1970, 1, 2));
}

#[test]
fn month_and_year_boundaries() {
    assert_eq!(days_to_ymd(31), (1970, 2, 1));
    assert_eq!(days_to_ymd(59), (1970, 3, 1));
    assert_eq!(days_to_ymd(364), (1970, 12, 31));
    assert_eq!(days_to_ymd(365), (1971, 1, 1));
}

#[test]
fn leap_days() {
    assert_eq!(days_to_ymd(789), (1972, 2, 29));
    assert_eq!(days_to_ymd(790), (1972, 3, 1));
    assert_eq!(days_to_ymd(10957), (2000, 1, 1));
    assert_eq!(days_to_ymd(11016), (2000, 2, 29));
    // 2100 is not a leap year.
    assert_eq!(days_to_ymd(47540), (2100, 2, 28));
    assert_eq!(days_to_ymd(47541), (2100, 3, 1));
}

#[test]
fn later_dates() {
    assert_eq!(days_to_ymd(19834), (2024, 4, 21));
    assert_eq!(days_to_ymd(2932896), (9999, 12, 31));
}

#[test]
fn utc_split() {
    assert_eq!(utc_parts(0), (1970, 1, 1, 0, 0, 0));
    assert_eq!(utc_parts(1776769724), (2026, 4, 21, 11, 8, 44));
    assert_eq!(utc_parts(86399), (1970, 1, 1, 23, 59, 59));
}

#[test]
fn formatted_times() {
    assert_eq!(timestamp_str(1776769724), "2026-04-21 11:08:44 UTC");
    assert_eq!(timestamp_str(0), "1970-01-01 00:00:00 UTC");
    assert_eq!(current_date_str(1776769724), "2026-04-21");
    assert_eq!(current_date_str(951782400), "2000-02-29");
}

#[test]
fn log_line_format() {
    assert_eq!(
        log_line("2026-04-21 11:08:44 UTC", "INFO", "started"),
        "[2026-04-21 11:08:44 UTC] [INFO] started"
    );
}
