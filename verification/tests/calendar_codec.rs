use vesting_scheduler::calendar::{
    days_to_month_day, format_datetime, is_leap_year, timestamp_to_datetime, write_u32, write_u8,
};
use vesting_scheduler::DateTime;

#[test]
fn test_timestamp_conversion() {
    // Known timestamp: Oct 21, 2024, 12:00:00 UTC
    let timestamp: u64 = 1729512000000;
    let dt = timestamp_to_datetime(timestamp);

    assert_eq!(dt.year, 2024);
    assert_eq!(dt.month, 10);
    assert_eq!(dt.day, 21);
    assert_eq!(dt.hour, 12);
    assert_eq!(dt.minute, 0);
    assert_eq!(dt.second, 0);

    // Round-trip into text
    let formatted = format_datetime(dt);
    let expected = b"2024-10-21 12:00:00";
    assert_eq!(&formatted[..], expected);
}

#[test]
fn test_leap_year() {
    // 2024 is a leap year; February has 29 days, so Mar 1 follows Feb 29
    let leap_day: u64 = 1709251200000; // 2024-03-01 00:00:00 UTC
    let dt = timestamp_to_datetime(leap_day);

    assert_eq!(dt.year, 2024);
    assert_eq!(dt.month, 3);
    assert_eq!(dt.day, 1);
}

#[test]
fn century_leap_year_rule() {
    assert!(!is_leap_year(1900));
    assert!(is_leap_year(2000));
    assert!(is_leap_year(2024));
    assert!(!is_leap_year(2023));
    assert!(!is_leap_year(2100));
}

#[test]
fn epoch_converts_to_january_first_1970() {
    let dt = timestamp_to_datetime(0);
    assert_eq!(dt.year, 1970);
    assert_eq!(dt.month, 1);
    assert_eq!(dt.day, 1);
    assert_eq!(dt.hour, 0);
    assert_eq!(dt.minute, 0);
    assert_eq!(dt.second, 0);
    assert_eq!(&format_datetime(dt)[..], b"1970-01-01 00:00:00");
}

#[test]
fn last_day_of_a_leap_year_resolves() {
    let dt = timestamp_to_datetime(1735603200000); // 2024-12-31 00:00:00 UTC
    assert_eq!(dt.year, 2024);
    assert_eq!(dt.month, 12);
    assert_eq!(dt.day, 31);
}

#[test]
fn leap_day_itself_resolves() {
    let dt = timestamp_to_datetime(1709164800000); // 2024-02-29 00:00:00 UTC
    assert_eq!(dt.year, 2024);
    assert_eq!(dt.month, 2);
    assert_eq!(dt.day, 29);
}

#[test]
fn march_first_in_a_common_year() {
    let dt = timestamp_to_datetime(1677628800000); // 2023-03-01 00:00:00 UTC
    assert_eq!(dt.year, 2023);
    assert_eq!(dt.month, 3);
    assert_eq!(dt.day, 1);
}

#[test]
fn sub_second_precision_is_discarded() {
    let dt = timestamp_to_datetime(1729512000999);
    assert_eq!(dt.second, 0);
    assert_eq!(&format_datetime(dt)[..], b"2024-10-21 12:00:00");
}

#[test]
fn day_of_year_walks_the_month_table() {
    assert_eq!(days_to_month_day(0, 2023), (1, 1));
    assert_eq!(days_to_month_day(31, 2023), (2, 1));
    assert_eq!(days_to_month_day(59, 2023), (3, 1));
    assert_eq!(days_to_month_day(59, 2024), (2, 29));
    assert_eq!(days_to_month_day(60, 2024), (3, 1));
    assert_eq!(days_to_month_day(364, 2023), (12, 31));
    assert_eq!(days_to_month_day(365, 2024), (12, 31));
}

#[test]
fn day_count_past_the_year_falls_back_to_december_31() {
    assert_eq!(days_to_month_day(365, 2023), (12, 31));
    assert_eq!(days_to_month_day(400, 2024), (12, 31));
}

#[test]
fn formatting_zero_pads_every_field() {
    let dt = DateTime { year: 2025, month: 1, day: 2, hour: 3, minute: 4, second: 5 };
    assert_eq!(&format_datetime(dt)[..], b"2025-01-02 03:04:05");
}

#[test]
fn formatting_truncates_years_to_four_digits() {
    let dt = DateTime { year: 12345, month: 6, day: 7, hour: 8, minute: 9, second: 0 };
    assert_eq!(&format_datetime(dt)[..], b"2345-06-07 08:09:00");
}

#[test]
fn digit_writers_fill_their_slots_only() {
    let mut buf: [u8; 19] = [b'x'; 19];
    write_u32(&mut buf, 2024);
    assert_eq!(&buf[0..4], b"2024");
    assert_eq!(buf[4], b'x');

    write_u8(&mut buf, 5, 7);
    assert_eq!(&buf[5..7], b"07");
    assert_eq!(buf[7], b'x');

    write_u8(&mut buf, 17, 59);
    assert_eq!(&buf[17..19], b"59");
    assert_eq!(buf[16], b'x');
}
