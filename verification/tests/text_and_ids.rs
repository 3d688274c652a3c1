use task_api::text::{chars_of, contains_char, join3, strip_prefix, trim, white_space};

#[test]
fn trim_removes_unicode_white_space_at_both_ends() {
    assert_eq!(trim("  hello world \t\n"), "hello world");
    assert_eq!(trim("\u{3000}\u{a0}name\u{2009}"), "name");
    assert_eq!(trim("   "), "");
    assert_eq!(trim(""), "");
    assert_eq!(trim("a b"), "a b");
}

#[test]
fn trim_agrees_with_std() {
    for s in ["  x ", "\u{85}y\u{2028}", "\u{200b}z\u{200b}", " \u{1680} q \u{205f}", "é ü"] {
        assert_eq!(trim(s), s.trim());
    }
}

#[test]
fn trimming_twice_is_trimming_once() {
    for s in ["  a ", "\tb\t", "c", "   "] {
        assert_eq!(trim(trim(s)), trim(s));
    }
}

#[test]
fn white_space_agrees_with_std() {
    for n in 0u32..0x3100 {
        if let Some(c) = char::from_u32(n) {
            assert_eq!(white_space(c), c.is_whitespace(), "U+{:04X}", n);
        }
    }
}

#[test]
fn contains_char_finds_characters() {
    assert!(contains_char("a@b", '@'));
    assert!(!contains_char("ab", '@'));
    assert!(!contains_char("", '@'));
}

#[test]
fn strip_prefix_removes_a_leading_prefix_only() {
    assert_eq!(strip_prefix("Bearer abc", "Bearer "), Some("abc"));
    assert_eq!(strip_prefix("Bearer ", "Bearer "), Some(""));
    assert_eq!(strip_prefix("bearer abc", "Bearer "), None);
    assert_eq!(strip_prefix("Bear", "Bearer "), None);
    assert_eq!(strip_prefix("xyz", ""), Some("xyz"));
}

#[test]
fn chars_of_lists_the_characters() {
    assert_eq!(chars_of("añb"), vec!['a', 'ñ', 'b']);
    assert_eq!(join3("a", "bc", "d"), "abcd");
}
