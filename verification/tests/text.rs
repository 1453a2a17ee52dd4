use code_review::text::{decimal, is_whitespace, signed_decimal, spaces, trim};

#[test]
fn whitespace_is_the_unicode_white_space_property() {
    let mut code: u32 = 0;
    while code <= 0x10FFFF {
        if let Some(c) = char::from_u32(code) {
            assert_eq!(is_whitespace(c), c.is_whitespace(), "U+{:04X}", code);
        }
        code += 1;
    }
}

#[test]
fn whitespace_named_cases() {
    assert!(is_whitespace(' '));
    assert!(is_whitespace('\t'));
    assert!(is_whitespace('\n'));
    assert!(is_whitespace('\r'));
    assert!(is_whitespace('\u{a0}'));
    assert!(is_whitespace('\u{3000}'));
    assert!(!is_whitespace('a'));
    assert!(!is_whitespace('\u{8}'));
    assert!(!is_whitespace('\u{200b}'));
}

#[test]
fn trim_removes_both_ends_only() {
    assert_eq!(trim("  let x = 1;  "), "let x = 1;");
    assert_eq!(trim("\t\n a  b \r\n"), "a  b");
    assert_eq!(trim("abc"), "abc");
}

#[test]
fn trim_of_blank_text_is_empty() {
    assert_eq!(trim(""), "");
    assert_eq!(trim("   "), "");
    assert_eq!(trim("\n"), "");
}

#[test]
fn trim_handles_wide_characters() {
    assert_eq!(trim("\u{3000}héllo wörld\u{a0}"), "héllo wörld");
    assert_eq!(trim(" 日本語 "), "日本語");
}

#[test]
fn trim_agrees_with_std() {
    let samples = [
        "",
        " ",
        "x",
        " x",
        "x ",
        "  x  y  ",
        "\u{2028}a\u{2029}",
        "\u{200b} a \u{200b}",
        "a\u{85}",
        "\u{1680}\u{2000}\u{200a}z\u{202f}\u{205f}",
    ];
    for sample in samples {
        assert_eq!(trim(sample), sample.trim());
    }
}

#[test]
fn spaces_has_the_asked_length() {
    assert_eq!(spaces(0), "");
    assert_eq!(spaces(1), " ");
    assert_eq!(spaces(6), "      ");
    assert_eq!(spaces(19).len(), 19);
}

#[test]
fn decimal_writes_every_digit() {
    assert_eq!(decimal(1234567890), "1234567890");
    for d in 0..10u128 {
        assert_eq!(decimal(d), format!("{}", d));
    }
}

#[test]
fn decimal_writes_numbers_without_leading_zeros() {
    assert_eq!(decimal(0), "0");
    assert_eq!(decimal(7), "7");
    assert_eq!(decimal(10), "10");
    assert_eq!(decimal(30), "30");
    assert_eq!(decimal(1005), "1005");
    assert_eq!(decimal(u128::MAX), "340282366920938463463374607431768211455");
}

#[test]
fn signed_decimal_writes_the_sign() {
    assert_eq!(signed_decimal(0), "0");
    assert_eq!(signed_decimal(1), "1");
    assert_eq!(signed_decimal(255), "255");
    assert_eq!(signed_decimal(-1), "-1");
    assert_eq!(signed_decimal(i32::MAX), "2147483647");
    assert_eq!(signed_decimal(i32::MIN), "-2147483648");
}
