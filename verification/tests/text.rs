use cilicili::text::{decimal_string, has_prefix, has_suffix, parse_u64, preview, signed_decimal_string};

#[test]
fn decimal_string_writes_digits() {
    assert_eq!(decimal_string(0), "0");
    assert_eq!(decimal_string(7), "7");
    assert_eq!(decimal_string(1203), "1203");
    assert_eq!(decimal_string(u64::MAX), "18446744073709551615");
}

#[test]
fn signed_decimal_string_writes_sign() {
    assert_eq!(signed_decimal_string(0), "0");
    assert_eq!(signed_decimal_string(-404), "-404");
    assert_eq!(signed_decimal_string(i32::MIN), "-2147483648");
    assert_eq!(signed_decimal_string(i32::MAX), "2147483647");
}

#[test]
fn parse_u64_reads_what_the_standard_parser_reads() {
    let cases = ["0", "7", "+7", "007", "170001", "18446744073709551615", "18446744073709551616", "", "+", "-1", "1 ", " 1", "1_0", "１２", "+-1", "++1", "99999999999999999999999"];
    for text in cases {
        assert_eq!(parse_u64(text), text.parse::<u64>().ok(), "{:?}", text);
    }
}

#[test]
fn prefix_and_suffix() {
    assert!(has_prefix("BV1xx411c7mD", "BV"));
    assert!(!has_prefix("B", "BV"));
    assert!(has_prefix("av170001", ""));
    assert!(has_suffix("音频_audio.m4s", ".m4s"));
    assert!(!has_suffix("m4s", ".m4s"));
    assert!(!has_suffix("a.m4s.bak", ".m4s"));
}

#[test]
fn preview_cuts_by_characters() {
    assert_eq!(preview("视频标题", 4), "视频标题");
    assert_eq!(preview("视频标题", 2), "视频...");
    assert_eq!(preview("", 0), "");
    assert_eq!(preview("abc", 0), "...");
}
