use sentio::text::{before, decimal, same_text, split, strip_prefix, to_ascii_lowercase, trim};

#[test]
fn trim_takes_unicode_white_space() {
    for text in ["", " ", " a ", "\u{3000}x y\u{a0}\r\n", "a\u{85}", "\u{200b}z"] {
        assert_eq!(trim(text), text.trim());
    }
}

#[test]
fn lower_case_is_ascii_only() {
    for text in ["", "AbZ[@", "\u{c4}B"] {
        assert_eq!(to_ascii_lowercase(text), text.to_ascii_lowercase());
    }
}

#[test]
fn split_keeps_empty_pieces() {
    for text in ["", ",", "a,b", ",a,,b,"] {
        let expected: Vec<&str> = text.split(',').collect();
        assert_eq!(split(text, ','), expected);
    }
    assert_eq!(before("a;b;c", ';'), "a");
    assert_eq!(before("abc", ';'), "abc");
    assert_eq!(before(";", ';'), "");
}

#[test]
fn prefixes_are_stripped_once() {
    assert_eq!(strip_prefix("aab", "a").as_deref(), Some("ab"));
    assert_eq!(strip_prefix("a", "ab"), None);
    assert_eq!(strip_prefix("b", "a"), None);
    assert_eq!(strip_prefix("x", "").as_deref(), Some("x"));
}

#[test]
fn numbers_are_written_in_decimal() {
    for n in [0, 9, 10, 120, 65535, u64::MAX] {
        assert_eq!(decimal(n), n.to_string());
    }
}

#[test]
fn texts_are_compared_character_by_character() {
    assert!(same_text("", ""));
    assert!(same_text("a\u{fc}", "a\u{fc}"));
    assert!(!same_text("a", "A"));
    assert!(!same_text("a", "ab"));
}
