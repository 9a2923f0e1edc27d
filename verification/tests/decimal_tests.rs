use latency_probe::decimal::{parse_u16, render_decimal};

#[test]
fn renders_zero() {
    assert_eq!(render_decimal(0).as_str(), "0");
}

#[test]
fn renders_single_digits() {
    for n in 0..10u128 {
        assert_eq!(render_decimal(n), format!("{}", n));
    }
}

#[test]
fn renders_multi_digit_values() {
    assert_eq!(render_decimal(10).as_str(), "10");
    assert_eq!(render_decimal(10_000).as_str(), "10000");
    assert_eq!(render_decimal(90_061_234).as_str(), "90061234");
}

#[test]
fn renders_largest_value() {
    assert_eq!(
        render_decimal(u128::MAX).as_str(),
        "340282366920938463463374607431768211455"
    );
}

#[test]
fn parses_ordinary_ports() {
    assert_eq!(parse_u16("0"), Some(0));
    assert_eq!(parse_u16("80"), Some(80));
    assert_eq!(parse_u16("8080"), Some(8080));
    assert_eq!(parse_u16("65535"), Some(65535));
}

#[test]
fn parses_leading_zeros() {
    assert_eq!(parse_u16("00080"), Some(80));
}

#[test]
fn rejects_out_of_range_values() {
    assert_eq!(parse_u16("65536"), None);
    assert_eq!(parse_u16("999999999999999999999999"), None);
}

#[test]
fn accepts_one_leading_plus_sign() {
    assert_eq!(parse_u16("+80"), Some(80));
    assert_eq!(parse_u16("+0"), Some(0));
    assert_eq!(parse_u16("+65535"), Some(65535));
}

#[test]
fn rejects_non_digit_strings() {
    assert_eq!(parse_u16(""), None);
    assert_eq!(parse_u16("+"), None);
    assert_eq!(parse_u16("++80"), None);
    assert_eq!(parse_u16("-80"), None);
    assert_eq!(parse_u16("80a"), None);
    assert_eq!(parse_u16(" 80"), None);
    assert_eq!(parse_u16("port"), None);
}

#[test]
fn rendered_values_parse_back() {
    for n in [0u128, 1, 9, 10, 99, 100, 65535] {
        assert_eq!(parse_u16(render_decimal(n).as_str()), Some(n as u16));
    }
}
