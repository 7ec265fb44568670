use facturx_create::text::{
    chars_of, count_ascii_digits, ends_with, is_ascii_digit, is_ascii_upper, is_blank,
    is_whitespace, keep_alphanumeric, str_equals, string_of, trim_chars,
};

#[test]
fn whitespace_is_what_the_standard_library_says() {
    for code in 0u32..=0x10FFFF {
        if let Some(c) = char::from_u32(code) {
            assert_eq!(is_whitespace(c), c.is_whitespace(), "U+{:04X}", code);
            assert_eq!(is_ascii_digit(c), c.is_ascii_digit());
            assert_eq!(is_ascii_upper(c), c.is_ascii_uppercase());
        }
    }
}

#[test]
fn blank_and_trim_agree_with_the_standard_library() {
    let samples = [
        "", " ", "a", " a", "a ", "  a b  ", "\t\n", "\u{a0}x\u{2003}", "\u{3000}", "x\u{85}",
        " \u{feff} ", "é ", "\r\nfoo\r\n", "\u{1680}\u{2000}\u{200a}\u{2028}\u{2029}\u{202f}\u{205f}",
        "\u{180e}", "\u{200b}",
    ];
    for s in samples {
        assert_eq!(is_blank(s), s.trim().is_empty(), "{:?}", s);
        assert_eq!(string_of(&trim_chars(s)), s.trim(), "{:?}", s);
    }
}

#[test]
fn characters_round_trip() {
    for s in ["", "abc", "é€𝄞"] {
        assert_eq!(chars_of(s), s.chars().collect::<Vec<char>>());
        assert_eq!(string_of(&chars_of(s)), s);
    }
}

#[test]
fn comparisons() {
    assert!(str_equals("", ""));
    assert!(str_equals("factur-x.xml", "factur-x.xml"));
    assert!(!str_equals("factur-x.xml", "factur-x.xmL"));
    assert!(!str_equals("a", "ab"));
    assert!(ends_with("factur-x.xml", ".xml"));
    assert!(ends_with(".xml", ".xml"));
    assert!(ends_with("x", ""));
    assert!(!ends_with("xml", ".xml"));
    assert!(!ends_with("factur-x.xml ", ".xml"));
    assert!(!ends_with("factur-x.txt", ".xml"));
}

#[test]
fn digits_and_letters() {
    assert_eq!(count_ascii_digits("123 456 789 01234"), 14);
    assert_eq!(count_ascii_digits("abc"), 0);
    assert_eq!(count_ascii_digits("١٢٣4"), 1);
    assert_eq!(keep_alphanumeric("FR 12-345.678/901"), "FR12345678901");
    assert_eq!(keep_alphanumeric("é-٣_漢"), "é٣漢");
    assert_eq!(keep_alphanumeric(" -_"), "");
    for code in 0u32..=0x10FFFF {
        if let Some(c) = char::from_u32(code) {
            let kept = keep_alphanumeric(&c.to_string());
            assert_eq!(!kept.is_empty(), c.is_alphanumeric());
        }
    }
}
