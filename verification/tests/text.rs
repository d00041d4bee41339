use qrmi::text::{concat3, i64_text, new_v4, parse_u64, text_eq, to_lowercase, u64_text, utf8_text};

#[test]
fn decimal_text_of_numbers() {
    assert_eq!(u64_text(0), "0");
    assert_eq!(u64_text(28800), "28800");
    assert_eq!(u64_text(u64::MAX), "18446744073709551615");
    assert_eq!(i64_text(-1517), "-1517");
    assert_eq!(i64_text(1517), "1517");
}

#[test]
fn parse_u64_accepts_plain_and_plus_signed_digits() {
    assert_eq!(parse_u64("42"), Ok(42));
    assert_eq!(parse_u64("+7"), Ok(7));
    assert_eq!(parse_u64("007"), Ok(7));
    assert_eq!(parse_u64("18446744073709551615"), Ok(u64::MAX));
}

#[test]
fn parse_u64_refuses_everything_else() {
    assert!(parse_u64("").is_err());
    assert!(parse_u64("+").is_err());
    assert!(parse_u64("-1").is_err());
    assert!(parse_u64("12a").is_err());
    assert!(parse_u64(" 12").is_err());
    assert!(parse_u64("18446744073709551616").is_err());
}

#[test]
fn parse_reads_back_printed_numbers() {
    for n in [0u64, 1, 9, 10, 99, 100, 3600, 28800, u64::MAX] {
        assert_eq!(parse_u64(&u64_text(n)), Ok(n));
    }
}

#[test]
fn lowercase_and_equality() {
    assert_eq!(to_lowercase("ACTIVE"), "active");
    assert_eq!(to_lowercase("OnLine"), "online");
    assert!(text_eq("batch", "batch"));
    assert!(!text_eq("batch", "Batch"));
    assert_eq!(concat3("a", "-", "b"), "a-b");
}

#[test]
fn utf8_decoding() {
    assert_eq!(utf8_text(b"{\"a\":1}".to_vec()), Ok("{\"a\":1}".to_string()));
    assert_eq!(utf8_text(vec![0xff, 0xfe]), Err("invalid utf-8 sequence of 1 bytes from index 0".to_string()));
}

#[test]
fn new_v4_is_a_hyphenated_random_uuid() {
    let a = new_v4();
    let b = new_v4();
    assert_ne!(a, b);
    for u in [a, b] {
        let chars: Vec<char> = u.chars().collect();
        assert_eq!(chars.len(), 36);
        for (i, c) in chars.iter().enumerate() {
            if i == 8 || i == 13 || i == 18 || i == 23 {
                assert_eq!(*c, '-');
            } else {
                assert!(c.is_ascii_hexdigit() && !c.is_ascii_uppercase());
            }
        }
        assert_eq!(chars[14], '4');
        assert!(matches!(chars[19], '8' | '9' | 'a' | 'b'));
    }
}

#[test]
fn signed_and_unsigned_decimal_text() {
    assert_eq!(u64_text(0), "0");
    assert_eq!(u64_text(1234567890), "1234567890");
    assert_eq!(u64_text(u64::MAX), "18446744073709551615");
    assert_eq!(i64_text(-42), "-42");
    assert_eq!(i64_text(i64::MIN), "-9223372036854775808");
    assert_eq!(i64_text(i64::MAX), "9223372036854775807");
}

#[test]
fn parse_errors_carry_the_parser_message() {
    assert_eq!(parse_u64("x"), Err("invalid digit found in string".to_string()));
}
