use foxess_dashboard::decimal::parse_milli;
use foxess_dashboard::format::{decimal_string, fixed_string, to_hex_lower};
use foxess_dashboard::json::integer_literal;

#[test]
fn parse_milli_reads_kilowatts_as_watts() {
    assert_eq!(parse_milli("1.234"), Some(1234));
    assert_eq!(parse_milli("4.2"), Some(4200));
    assert_eq!(parse_milli("0"), Some(0));
    assert_eq!(parse_milli("-1.4"), Some(-1400));
    assert_eq!(parse_milli("+7"), Some(7000));
    assert_eq!(parse_milli("1."), Some(1000));
    assert_eq!(parse_milli(".5"), Some(500));
    assert_eq!(parse_milli("78.0"), Some(78000));
}

#[test]
fn parse_milli_rounds_half_away_from_zero() {
    assert_eq!(parse_milli("0.0005"), Some(1));
    assert_eq!(parse_milli("0.00049999"), Some(0));
    assert_eq!(parse_milli("-0.0005"), Some(-1));
    assert_eq!(parse_milli("-0.0004"), Some(0));
    assert_eq!(parse_milli("1.2345"), Some(1235));
    assert_eq!(parse_milli("1.23449"), Some(1234));
}

#[test]
fn parse_milli_reads_exponents() {
    assert_eq!(parse_milli("5e+02"), Some(500000));
    assert_eq!(parse_milli("1.5E-3"), Some(2));
    assert_eq!(parse_milli("-2.5e-3"), Some(-3));
    assert_eq!(parse_milli("1e-7"), Some(0));
    assert_eq!(parse_milli("12e-1"), Some(1200));
    assert_eq!(parse_milli("1e-99999999999999999999999999"), Some(0));
    assert_eq!(parse_milli("0e99999999999999999999999999"), Some(0));
    assert_eq!(parse_milli("1e99999999999999999999999999"), None);
    assert_eq!(parse_milli("1e16"), None);
    assert_eq!(parse_milli("9e15"), Some(9_000_000_000_000_000_000));
}

#[test]
fn parse_milli_range_limits() {
    assert_eq!(parse_milli("9223372036854775.807"), Some(i64::MAX));
    assert_eq!(parse_milli("9223372036854775.808"), None);
    assert_eq!(parse_milli("-9223372036854775.808"), Some(i64::MIN));
    assert_eq!(parse_milli("-9223372036854775.809"), None);
    assert_eq!(parse_milli("00000000000000000000000000001.5"), Some(1500));
}

#[test]
fn parse_milli_rejects_what_is_not_a_number() {
    assert_eq!(parse_milli(""), None);
    assert_eq!(parse_milli("."), None);
    assert_eq!(parse_milli("-"), None);
    assert_eq!(parse_milli("abc"), None);
    assert_eq!(parse_milli("1e"), None);
    assert_eq!(parse_milli("1e+"), None);
    assert_eq!(parse_milli("12 "), None);
    assert_eq!(parse_milli(" 12"), None);
    assert_eq!(parse_milli("1.2.3"), None);
    assert_eq!(parse_milli("inf"), None);
    assert_eq!(parse_milli("NaN"), None);
    assert_eq!(parse_milli("--1"), None);
}

#[test]
fn integer_literal_reads_integers_only() {
    assert_eq!(integer_literal("0"), Some(0));
    assert_eq!(integer_literal("-42"), Some(-42));
    assert_eq!(integer_literal("9223372036854775807"), Some(i64::MAX));
    assert_eq!(integer_literal("9223372036854775808"), None);
    assert_eq!(integer_literal("-9223372036854775808"), Some(i64::MIN));
    assert_eq!(integer_literal("0.0"), None);
    assert_eq!(integer_literal("1e3"), None);
    assert_eq!(integer_literal("+1"), None);
    assert_eq!(integer_literal("-"), None);
    assert_eq!(integer_literal(""), None);
}

#[test]
fn fixed_string_rounds_ties_to_even() {
    assert_eq!(fixed_string(1234, 2), "1.23");
    assert_eq!(fixed_string(1235, 2), "1.24");
    assert_eq!(fixed_string(4200, 2), "4.20");
    assert_eq!(fixed_string(-1400, 2), "-1.40");
    assert_eq!(fixed_string(-4, 2), "-0.00");
    assert_eq!(fixed_string(0, 2), "0.00");
    assert_eq!(fixed_string(78000, 0), "78");
    assert_eq!(fixed_string(24500, 0), "24");
    assert_eq!(fixed_string(25500, 0), "26");
    assert_eq!(fixed_string(78500, 0), "78");
    assert_eq!(fixed_string(1125, 2), "1.12");
    assert_eq!(fixed_string(1135, 2), "1.14");
    assert_eq!(fixed_string(-1125, 2), "-1.12");
    assert_eq!(fixed_string(24501, 0), "25");
    assert_eq!(fixed_string(24499, 0), "24");
    assert_eq!(fixed_string(1234, 3), "1.234");
    assert_eq!(fixed_string(i64::MIN, 2), "-9223372036854775.81");
}

#[test]
fn decimal_string_writes_integers() {
    assert_eq!(decimal_string(0), "0");
    assert_eq!(decimal_string(7), "7");
    assert_eq!(decimal_string(1700000000123), "1700000000123");
    assert_eq!(decimal_string(u128::MAX), u128::MAX.to_string());
}

#[test]
fn to_hex_lower_writes_two_digits_per_byte() {
    assert_eq!(to_hex_lower(&[0, 15, 16, 255, 0xab]), "000f10ffab");
    assert_eq!(to_hex_lower(&[]), "");
}
