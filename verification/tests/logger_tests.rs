use faster_chant::logger::{civil_date, format_timestamp, is_leap, log_line, pad_number};

#[test]
fn leap_years() {
    assert!(is_leap(2000));
    assert!(!is_leap(1900));
    assert!(is_leap(2024));
    assert!(!is_leap(2023));
}

#[test]
fn civil_dates() {
    assert_eq!(civil_date(0), (1970, 1, 1));
    assert_eq!(civil_date(31), (1970, 2, 1));
    assert_eq!(civil_date(365), (1971, 1, 1));
    assert_eq!(civil_date(789), (1972, 2, 29));
    assert_eq!(civil_date(10957), (2000, 1, 1));
    assert_eq!(civil_date(19782), (2024, 2, 29));
    assert_eq!(civil_date(20453), (2025, 12, 31));
    assert_eq!(civil_date(20454), (2026, 1, 1));
}

#[test]
fn padding() {
    assert_eq!(pad_number(7, 2), "07");
    assert_eq!(pad_number(123, 2), "123");
    assert_eq!(pad_number(5, 3), "005");
    assert_eq!(pad_number(0, 4), "0000");
}

#[test]
fn timestamps_in_utc_plus_eight() {
    assert_eq!(format_timestamp(0, 0), "1970-01-01 08:00:00.000");
    // 2024-02-28 16:00:00 UTC is 2024-02-29 00:00:00 in UTC+8
    assert_eq!(format_timestamp(1709136000, 7), "2024-02-29 00:00:00.007");
    assert_eq!(format_timestamp(1735689599, 999), "2025-01-01 07:59:59.999");
}

#[test]
fn log_lines() {
    assert_eq!(log_line("T", "INFO ", "hello"), "T [INFO ] hello\n");
}
