use sqlite_loadable::number::{parse_i32, parse_i64};

const SAMPLES: [&str; 44] = [
    "", "0", "1", "9", "10", "42", "007", "+5", "-5", "+0", "-0", "+", "-", "+-5", "-+5", "--5",
    "++5", " 1", "1 ", "1_000", "1,000", "1.0", "1e3", "0x10", "abc", "12a", "a12", "\u{ff15}",
    "\u{0665}", "2147483647", "2147483648", "-2147483648", "-2147483649", "+2147483647",
    "9223372036854775807", "9223372036854775808", "-9223372036854775808", "-9223372036854775809",
    "18446744073709551616", "340282366920938463463374607431768211456",
    "000000000000000000000000000000000000000000001",
    "-00000000000000000000000000000000000009223372036854775808",
    "99999999999999999999999999999999999999999999999999999999999999999999999", "1\0",
];

#[test]
fn parse_i64_agrees_with_std() {
    for text in SAMPLES {
        assert_eq!(parse_i64(text), text.parse::<i64>().ok(), "on {:?}", text);
    }
}

#[test]
fn parse_i32_agrees_with_std() {
    for text in SAMPLES {
        assert_eq!(parse_i32(text), text.parse::<i32>().ok(), "on {:?}", text);
    }
}

#[test]
fn parse_exact_values() {
    assert_eq!(parse_i32("42"), Some(42));
    assert_eq!(parse_i32("-2147483648"), Some(i32::MIN));
    assert_eq!(parse_i32("2147483648"), None);
    assert_eq!(parse_i64("9999999999"), Some(9999999999));
    assert_eq!(parse_i64("-9223372036854775808"), Some(i64::MIN));
    assert_eq!(parse_i64("9223372036854775808"), None);
    assert_eq!(parse_i64("3.14"), None);
}

#[test]
fn parse_every_small_number() {
    for n in -1200i64..1200 {
        let text = format!("{}", n);
        assert_eq!(parse_i64(&text), Some(n));
        assert_eq!(parse_i32(&text), Some(n as i32));
    }
}
