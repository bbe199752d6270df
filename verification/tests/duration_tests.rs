use term_clock::duration::format_duration;
use term_clock::text::{digit_to_char, push_decimal, push_two_digits};

#[test]
fn an_hour_a_minute_and_a_second() {
    assert_eq!(format_duration(3661), "01:01:01");
}

#[test]
fn under_a_minute() {
    assert_eq!(format_duration(59), "00:00:59");
}

#[test]
fn nothing_elapsed() {
    assert_eq!(format_duration(0), "00:00:00");
}

#[test]
fn hours_are_not_capped() {
    assert_eq!(format_duration(360_000), "100:00:00");
    assert_eq!(format_duration(86_399), "23:59:59");
    assert_eq!(format_duration(u64::MAX), "5124095576030431:00:15");
}

#[test]
fn digits_and_numerals() {
    assert_eq!(digit_to_char(0), '0');
    assert_eq!(digit_to_char(7), '7');
    assert_eq!(digit_to_char(9), '9');
    let mut out = String::from("x");
    push_decimal(&mut out, 0);
    push_decimal(&mut out, 1204);
    assert_eq!(out, "x01204");
    let mut padded = String::new();
    push_two_digits(&mut padded, 5);
    push_two_digits(&mut padded, 42);
    push_two_digits(&mut padded, 123);
    assert_eq!(padded, "0542123");
}
