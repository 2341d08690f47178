use escrow_program::text::{decimal_string, digit_str, timestamp_string};
use escrow_program::utils::{bytes_to_hex_string, format_timestamp};

#[test]
fn hex_is_two_lower_case_digits_per_byte() {
    assert_eq!(bytes_to_hex_string(&[]), "");
    assert_eq!(bytes_to_hex_string(&[0x00, 0x0f, 0xa0, 0xff, 0x5c]), "000fa0ff5c");
    let id: Vec<u8> = (0u8..20).collect();
    let expected: String = id.iter().map(|b| format!("{:02x}", b)).collect();
    assert_eq!(bytes_to_hex_string(&id), expected);
}

#[test]
fn digits_are_hexadecimal() {
    assert_eq!(digit_str(0), "0");
    assert_eq!(digit_str(9), "9");
    assert_eq!(digit_str(10), "a");
    assert_eq!(digit_str(15), "f");
}

#[test]
fn decimal_text_of_integers() {
    for n in [0i64, 7, 10, 99, 100, 1_700_000_000, -1, -10, -12345, i64::MAX, i64::MIN] {
        assert_eq!(decimal_string(n), format!("{}", n));
    }
}

#[test]
fn timestamps_read_as_utc_dates() {
    assert_eq!(format_timestamp(0), "1970-01-01 00:00:00 UTC");
    assert_eq!(format_timestamp(1431648000), "2015-05-15 00:00:00 UTC");
    assert_eq!(format_timestamp(1_700_000_000), "2023-11-14 22:13:20 UTC");
    assert_eq!(format_timestamp(-1), "1969-12-31 23:59:59 UTC");
}

#[test]
fn timestamps_out_of_range_are_named_invalid() {
    assert_eq!(format_timestamp(i64::MAX), "9223372036854775807 (invalid timestamp)");
    assert_eq!(format_timestamp(i64::MIN), "-9223372036854775808 (invalid timestamp)");
}

#[test]
fn timestamp_text_from_its_calendar_text() {
    assert_eq!(timestamp_string(5, Some(String::from("a date"))), "a date UTC");
    assert_eq!(timestamp_string(-42, None), "-42 (invalid timestamp)");
}
