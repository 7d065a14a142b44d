use phraser::text::{
    blank, chars_of, contains, join2, join3, parse_i32, replace_all, same_text,
    strip_prefix_or_self, text_between, trim, trim_end_slashes, white_space,
};

#[test]
fn same_text_compares_characters() {
    assert!(same_text("", ""));
    assert!(same_text("häß", "häß"));
    assert!(!same_text("a", "b"));
    assert!(!same_text("a", "ab"));
}

#[test]
fn trim_agrees_with_std() {
    for s in ["", " ", "\t a b \n", "a", "\u{3000}x\u{85}", "\u{200b}x\u{200b}", "x \u{a0}"] {
        assert_eq!(trim(s), s.trim());
        assert_eq!(blank(s), s.trim().is_empty());
    }
}

#[test]
fn white_space_agrees_with_std() {
    for code in 0u32..0x110000 {
        if let Some(c) = char::from_u32(code) {
            assert_eq!(white_space(c), c.is_whitespace());
        }
    }
}

#[test]
fn replace_agrees_with_std() {
    for (s, pattern) in [
        ("", "ab"),
        ("abab", "ab"),
        ("aab", "ab"),
        ("aaa", "aa"),
        ("x${output}y${output}", "${output}"),
        ("${out${output}put}", "${output}"),
    ] {
        for with in ["", "Z", "${output}", "ab"] {
            assert_eq!(replace_all(s, pattern, with), s.replace(pattern, with));
        }
        assert_eq!(contains(s, pattern), s.contains(pattern));
    }
    assert!(contains("abc", ""));
    assert!(contains("", ""));
}

#[test]
fn prefix_is_removed_once() {
    assert_eq!(strip_prefix_or_self("models/models/a", "models/"), "models/a");
    assert_eq!(strip_prefix_or_self("model", "models/"), "model");
}

#[test]
fn end_slashes_are_removed() {
    assert_eq!(trim_end_slashes("https://a/v1//"), "https://a/v1");
    assert_eq!(trim_end_slashes("https://a/v1"), "https://a/v1");
    assert_eq!(trim_end_slashes("///"), "");
}

#[test]
fn pieces_are_joined() {
    assert_eq!(join2("a", "b"), "ab");
    assert_eq!(join3("a", "", "c"), "ac");
    let chars = chars_of("häß");
    assert_eq!(chars, vec!['h', 'ä', 'ß']);
    assert_eq!(text_between(&chars, 1, 3), "äß");
}

#[test]
fn numbers_agree_with_std() {
    for s in [
        "", "+", "-", "0", "-0", "+7", "007", "12a", "1 2", "2147483647", "2147483648",
        "-2147483648", "-2147483649", "99999999999999999999", "--1", "٣",
    ] {
        assert_eq!(parse_i32(s), s.parse::<i32>().ok());
    }
}
