use trade_advisor::decimal::parse_cents;

#[test]
fn parse_cents_reads_two_fraction_digits() {
    assert_eq!(parse_cents("988.28"), Some(98828));
}

#[test]
fn parse_cents_reads_one_fraction_digit() {
    assert_eq!(parse_cents("1015.8"), Some(101580));
}

#[test]
fn parse_cents_reads_whole_numbers() {
    assert_eq!(parse_cents("100"), Some(10000));
    assert_eq!(parse_cents("0"), Some(0));
}

#[test]
fn parse_cents_keeps_the_sign() {
    assert_eq!(parse_cents("-12.5"), Some(-1250));
}

#[test]
fn parse_cents_truncates_toward_zero() {
    assert_eq!(parse_cents("1.239"), Some(123));
    assert_eq!(parse_cents("-1.239"), Some(-123));
}

#[test]
fn parse_cents_rejects_text() {
    assert_eq!(parse_cents("abc"), None);
    assert_eq!(parse_cents(""), None);
    assert_eq!(parse_cents("1..2"), None);
}

#[test]
fn parse_cents_rejects_an_overlarge_magnitude() {
    assert_eq!(parse_cents("999999999999999999999"), None);
}
