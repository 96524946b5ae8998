use query_logger::render::decimal_string;
use query_logger::render::format_elapsed;

#[test]
fn decimal_of_zero() {
    assert_eq!(decimal_string(0), "0");
}

#[test]
fn decimal_of_single_digit() {
    assert_eq!(decimal_string(7), "7");
}

#[test]
fn decimal_of_round_number() {
    assert_eq!(decimal_string(1000), "1000");
}

#[test]
fn decimal_of_many_digits() {
    assert_eq!(decimal_string(123456789), "123456789");
}

#[test]
fn decimal_of_largest_value() {
    assert_eq!(decimal_string(u64::MAX), "18446744073709551615");
}

#[test]
fn elapsed_matches_duration_debug_at_three_digit_precision() {
    let cases: Vec<u64> = vec![
        0,
        1,
        999,
        1_000,
        1_234,
        999_999,
        1_000_000,
        1_500_499,
        1_500_500,
        1_501_500,
        123_456_499,
        123_456_789,
        999_999_499,
        999_999_500,
        999_999_999,
        1_000_000_000,
        1_234_499_999,
        1_234_500_000,
        1_235_500_000,
        1_999_500_000,
        59_999_999_999,
        3_600_000_000_000,
    ];
    for ns in cases {
        assert_eq!(
            format_elapsed(ns),
            format!("{:.3?}", std::time::Duration::from_nanos(ns)),
            "for {} nanoseconds",
            ns
        );
    }
}

#[test]
fn elapsed_nanoseconds_carry_a_zero_fraction() {
    assert_eq!(format_elapsed(0), "0.000ns");
    assert_eq!(format_elapsed(999), "999.000ns");
}

#[test]
fn elapsed_microseconds_with_three_exact_digits() {
    assert_eq!(format_elapsed(1_000), "1.000\u{00B5}s");
    assert_eq!(format_elapsed(1_234), "1.234\u{00B5}s");
    assert_eq!(format_elapsed(999_999), "999.999\u{00B5}s");
}

#[test]
fn elapsed_milliseconds_round_half_to_even() {
    assert_eq!(format_elapsed(1_000_000), "1.000ms");
    assert_eq!(format_elapsed(123_456_789), "123.457ms");
    assert_eq!(format_elapsed(123_456_499), "123.456ms");
    // Ties go to the even digit.
    assert_eq!(format_elapsed(1_500_500), "1.500ms");
    assert_eq!(format_elapsed(1_501_500), "1.502ms");
}

#[test]
fn elapsed_milliseconds_carry_into_the_integer_part() {
    // The unit is chosen before rounding, as Duration's Debug does it.
    assert_eq!(format_elapsed(999_999_999), "1000.000ms");
}

#[test]
fn elapsed_seconds_round_half_to_even() {
    assert_eq!(format_elapsed(1_000_000_000), "1.000s");
    assert_eq!(format_elapsed(1_500_000_000), "1.500s");
    assert_eq!(format_elapsed(1_234_499_999), "1.234s");
    // Ties go to the even digit.
    assert_eq!(format_elapsed(1_234_500_000), "1.234s");
    assert_eq!(format_elapsed(1_235_500_000), "1.236s");
    assert_eq!(format_elapsed(59_999_999_999), "60.000s");
}
