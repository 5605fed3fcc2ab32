use powermon::command::{parse_duration, Command, IntervalError};

#[test]
fn parses_plain_milliseconds() {
    assert_eq!(parse_duration("1000"), Ok(1000));
    assert_eq!(parse_duration("1"), Ok(1));
    assert_eq!(parse_duration("0"), Ok(0));
}

#[test]
fn accepts_a_leading_plus_sign() {
    assert_eq!(parse_duration("+250"), Ok(250));
}

#[test]
fn accepts_leading_zeros() {
    assert_eq!(parse_duration("007"), Ok(7));
}

#[test]
fn rejects_non_numeric_values() {
    assert_eq!(parse_duration("abc"), Err(IntervalError));
    assert_eq!(parse_duration("12a"), Err(IntervalError));
    assert_eq!(parse_duration("1 000"), Err(IntervalError));
    assert_eq!(parse_duration("-5"), Err(IntervalError));
    assert_eq!(parse_duration("1.5"), Err(IntervalError));
}

#[test]
fn rejects_empty_and_sign_only_values() {
    assert_eq!(parse_duration(""), Err(IntervalError));
    assert_eq!(parse_duration("+"), Err(IntervalError));
}

#[test]
fn bounds_of_the_sixty_four_bit_range() {
    assert_eq!(parse_duration("18446744073709551615"), Ok(u64::MAX));
    assert_eq!(parse_duration("18446744073709551616"), Err(IntervalError));
    assert_eq!(parse_duration("99999999999999999999999"), Err(IntervalError));
}

#[test]
fn default_interval_is_one_second() {
    assert_eq!(Command::default().interval, 1000);
}
