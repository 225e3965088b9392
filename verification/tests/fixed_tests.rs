use water_security::fixed::{format_scaled, parse_scaled, pow10_i64};
use water_security::render::u64_to_dec;

const Q: i64 = 100_000_000;

#[test]
fn parses_plain_decimals() {
    assert_eq!(parse_scaled("97.5", 4, Q), Some(975_000));
    assert_eq!(parse_scaled("0", 4, Q), Some(0));
    assert_eq!(parse_scaled("-3.25", 4, Q), Some(-32_500));
    assert_eq!(parse_scaled("+7", 4, Q), Some(70_000));
    assert_eq!(parse_scaled(".5", 4, Q), Some(5_000));
    assert_eq!(parse_scaled("5.", 4, Q), Some(50_000));
    assert_eq!(parse_scaled("0.0001", 4, Q), Some(1));
    assert_eq!(parse_scaled("10000", 4, Q), Some(100_000_000));
    assert_eq!(parse_scaled("007", 4, Q), Some(70_000));
}

#[test]
fn refuses_what_is_not_a_decimal() {
    assert_eq!(parse_scaled("", 4, Q), None);
    assert_eq!(parse_scaled(".", 4, Q), None);
    assert_eq!(parse_scaled("-", 4, Q), None);
    assert_eq!(parse_scaled("abc", 4, Q), None);
    assert_eq!(parse_scaled("1.2.3", 4, Q), None);
    assert_eq!(parse_scaled("1e5", 4, Q), None);
    assert_eq!(parse_scaled("1 2", 4, Q), None);
}

#[test]
fn refuses_what_the_quantity_cannot_hold() {
    // A fifth fractional digit does not fit four-digit quantities.
    assert_eq!(parse_scaled("0.00001", 4, Q), None);
    // Beyond the raw bound.
    assert_eq!(parse_scaled("10000.0001", 4, Q), None);
    assert_eq!(parse_scaled("99999999999999999999", 4, Q), None);
}

#[test]
fn renders_minimal_decimals() {
    assert_eq!(format_scaled(975_000, 4), "97.5");
    assert_eq!(format_scaled(0, 4), "0");
    assert_eq!(format_scaled(-32_500, 4), "-3.25");
    assert_eq!(format_scaled(1, 4), "0.0001");
    assert_eq!(format_scaled(100_000_000, 4), "10000");
    assert_eq!(format_scaled(9_750_000_000, 8), "97.5");
    assert_eq!(format_scaled(942_925, 2), "9429.25");
}

#[test]
fn rendering_then_parsing_gives_the_value_back() {
    for &v in &[0i64, 1, -1, 975_000, -32_500, 100_000_000, 99_999_999] {
        let s = format_scaled(v, 4);
        assert_eq!(parse_scaled(&s, 4, Q), Some(v), "round trip of {v}");
    }
    let s = format_scaled(123_456_789, 8);
    assert_eq!(parse_scaled(&s, 8, 50_000_000_000_000_000), Some(123_456_789));
}

#[test]
fn decimal_renderings_of_integers() {
    assert_eq!(u64_to_dec(0), "0");
    assert_eq!(u64_to_dec(7), "7");
    assert_eq!(u64_to_dec(1234), "1234");
    assert_eq!(pow10_i64(0), 1);
    assert_eq!(pow10_i64(4), 10_000);
    assert_eq!(pow10_i64(9), 1_000_000_000);
}
