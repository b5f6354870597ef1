use expense_tracker::number::format_i64;
use expense_tracker::number::parse_i64;

#[test]
fn parse_accepts_what_std_accepts() {
    for text in ["123", "-42", "+7", "0", "-0", "007", "9223372036854775807", "-9223372036854775808"] {
        assert_eq!(parse_i64(text), text.parse::<i64>().ok());
    }
    assert_eq!(parse_i64("-42"), Some(-42));
    assert_eq!(parse_i64("+7"), Some(7));
    assert_eq!(parse_i64("-9223372036854775808"), Some(i64::MIN));
}

#[test]
fn parse_rejects_what_std_rejects() {
    for text in ["", "-", "+", "12a", " 12", "12 ", "9223372036854775808", "-9223372036854775809", "+-1", "1_000", "\u{663}", "99999999999999999999999"] {
        assert_eq!(parse_i64(text), None);
        assert!(text.parse::<i64>().is_err());
    }
}

#[test]
fn format_writes_decimal() {
    assert_eq!(format_i64(0), "0");
    assert_eq!(format_i64(-5), "-5");
    assert_eq!(format_i64(1234567890), "1234567890");
    assert_eq!(format_i64(i64::MIN), i64::MIN.to_string());
    assert_eq!(format_i64(i64::MAX), i64::MAX.to_string());
}

#[test]
fn format_then_parse_gives_back_the_number() {
    for n in [0i64, 1, -1, 42, -987654321, i64::MIN, i64::MAX] {
        assert_eq!(parse_i64(&format_i64(n)), Some(n));
    }
}
