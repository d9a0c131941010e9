use block_lighting::control::parse_control_micros;

fn parse(s: &str) -> Option<i64> {
    parse_control_micros(&s.as_bytes().to_vec())
}

#[test]
fn parses_plain_integers() {
    assert_eq!(parse("0"), Some(0));
    assert_eq!(parse("50"), Some(50_000_000));
    assert_eq!(parse("100"), Some(100_000_000));
    assert_eq!(parse("7"), Some(7_000_000));
}

#[test]
fn parses_fractions() {
    assert_eq!(parse("12.5"), Some(12_500_000));
    assert_eq!(parse("0.123456"), Some(123_456));
    assert_eq!(parse(".5"), Some(500_000));
    assert_eq!(parse("5."), Some(5_000_000));
    assert_eq!(parse("0.000001"), Some(1));
}

#[test]
fn parses_signs() {
    assert_eq!(parse("+7.25"), Some(7_250_000));
    assert_eq!(parse("-3.5"), Some(-3_500_000));
    assert_eq!(parse("-0"), Some(0));
    assert_eq!(parse("+.5"), Some(500_000));
}

#[test]
fn accepts_the_largest_integer_part() {
    assert_eq!(parse("999999999999"), Some(999_999_999_999_000_000));
}

#[test]
fn rejects_malformed_input() {
    assert_eq!(parse(""), None);
    assert_eq!(parse("."), None);
    assert_eq!(parse("+"), None);
    assert_eq!(parse("-"), None);
    assert_eq!(parse("abc"), None);
    assert_eq!(parse("12x"), None);
    assert_eq!(parse("1.2.3"), None);
    assert_eq!(parse("1e3"), None);
    assert_eq!(parse(" 5"), None);
}

#[test]
fn rejects_out_of_bounds_input() {
    // Thirteen integer digits.
    assert_eq!(parse("1234567890123"), None);
    // Seven fractional digits.
    assert_eq!(parse("0.1234567"), None);
}
