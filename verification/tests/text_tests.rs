use schliessfach_manager::text::{contains_text, eq_ignore_case, euro_string, i64_text, pad_left_string, parse_i32, u64_text};

#[test]
fn parse_i32_follows_str_parse() {
    for s in ["0", "42", "-17", "+8", "2147483647", "-2147483648", "", "-", "+", "12a", " 1", "2147483648", "-2147483649", "99999999999"] {
        assert_eq!(parse_i32(s), s.parse::<i32>().ok(), "{}", s);
    }
}

#[test]
fn number_and_amount_texts() {
    assert_eq!(u64_text(0), "0");
    assert_eq!(u64_text(18446744073709551615), "18446744073709551615");
    assert_eq!(i64_text(-9223372036854775808), "-9223372036854775808");
    assert_eq!(euro_string(0), "0.00 €");
    assert_eq!(euro_string(-99), "-0.99 €");
    assert_eq!(pad_left_string(&"ab".to_string(), 4), "  ab");
    assert_eq!(pad_left_string(&"abcdef".to_string(), 4), "abcdef");
}

#[test]
fn text_search_helpers() {
    assert!(contains_text("Hauptgebäude", "gebä"));
    assert!(contains_text("abc", ""));
    assert!(!contains_text("ab", "abc"));
    assert!(eq_ignore_case("LaBeL", "label"));
    assert!(!eq_ignore_case("Höhe", "HÖHE"));
}
