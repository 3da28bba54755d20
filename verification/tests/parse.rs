use dinkleberg::parse::parse_u64;

#[test]
fn parses_plain_decimals() {
    assert_eq!(parse_u64("0"), Some(0));
    assert_eq!(parse_u64("7"), Some(7));
    assert_eq!(parse_u64("123"), Some(123));
    assert_eq!(parse_u64("861296196624703717"), Some(861296196624703717));
}

#[test]
fn accepts_leading_zeroes() {
    assert_eq!(parse_u64("007"), Some(7));
    assert_eq!(parse_u64("000"), Some(0));
}

#[test]
fn parses_the_largest_value() {
    assert_eq!(parse_u64("18446744073709551615"), Some(u64::MAX));
}

#[test]
fn rejects_values_that_do_not_fit() {
    assert_eq!(parse_u64("18446744073709551616"), None);
    assert_eq!(parse_u64("99999999999999999999999"), None);
}

#[test]
fn rejects_empty_text() {
    assert_eq!(parse_u64(""), None);
}

#[test]
fn rejects_non_digit_text() {
    assert_eq!(parse_u64("12a"), None);
    assert_eq!(parse_u64("a12"), None);
    assert_eq!(parse_u64("-5"), None);
    assert_eq!(parse_u64("+5"), None);
    assert_eq!(parse_u64("1 2"), None);
}
