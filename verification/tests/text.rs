use llm_openai::text::{parse_unsigned, same_text, starts_with, u64_to_decimal};

#[test]
fn decimal_numerals() {
    assert_eq!(u64_to_decimal(0), "0");
    assert_eq!(u64_to_decimal(7), "7");
    assert_eq!(u64_to_decimal(10), "10");
    assert_eq!(u64_to_decimal(1_700_000_000), "1700000000");
    assert_eq!(u64_to_decimal(u64::MAX), "18446744073709551615");
}

#[test]
fn decimal_numerals_agree_with_display() {
    for n in [0u64, 1, 9, 10, 11, 99, 100, 101, 12345, 1 << 32, u64::MAX - 1] {
        assert_eq!(u64_to_decimal(n), n.to_string());
    }
}

#[test]
fn unsigned_numbers_are_read() {
    assert_eq!(parse_unsigned("0", u32::MAX), Some(0));
    assert_eq!(parse_unsigned("42", u32::MAX), Some(42));
    assert_eq!(parse_unsigned("+42", u32::MAX), Some(42));
    assert_eq!(parse_unsigned("007", u32::MAX), Some(7));
    assert_eq!(parse_unsigned("4294967295", u32::MAX), Some(u32::MAX));
    assert_eq!(parse_unsigned("255", 255), Some(255));
}

#[test]
fn what_is_no_unsigned_number_is_refused() {
    for text in ["", "+", "-1", "++1", "1+", " 1", "1 ", "1_000", "0x10", "1.0", "١", "4294967296",
        "99999999999999999999999999"]
    {
        assert_eq!(parse_unsigned(text, u32::MAX), None, "text {text:?}");
    }
    assert_eq!(parse_unsigned("256", 255), None);
    assert_eq!(parse_unsigned("0256", 255), None);
}

#[test]
fn unsigned_numbers_agree_with_std() {
    for text in ["", "+", "+0", "-0", "12", "+12", "012", "4294967295", "4294967296", "12a", "a12"] {
        assert_eq!(parse_unsigned(text, u32::MAX), text.parse::<u32>().ok(), "text {text:?}");
        assert_eq!(
            parse_unsigned(text, 255).map(|v| v as u8),
            text.parse::<u8>().ok(),
            "text {text:?}"
        );
    }
}

#[test]
fn long_runs_of_zeros_are_read() {
    let zeros = "0".repeat(200_000);
    assert_eq!(parse_unsigned(&zeros, u32::MAX), Some(0));
    assert_eq!(parse_unsigned(&format!("+{zeros}42"), u32::MAX), Some(42));
    assert_eq!(parse_unsigned(&format!("{zeros}x"), u32::MAX), None);
}

#[test]
fn prefixes() {
    assert!(starts_with("data: x", "data: "));
    assert!(starts_with("data: ", "data: "));
    assert!(starts_with("anything", ""));
    assert!(!starts_with("data:", "data: "));
    assert!(!starts_with("", "d"));
    assert!(starts_with("Vršič pass", "Vrši"));
    assert!(!starts_with("Vrsic", "Vrš"));
}

#[test]
fn equal_texts() {
    assert!(same_text("", ""));
    assert!(same_text("top_p", "top_p"));
    assert!(!same_text("top_p", "top_"));
    assert!(!same_text("top_", "top_p"));
    assert!(!same_text("n", "N"));
}
