use libsql_server::text::{
    eq_ignore_ascii_case, push_decimal, push_signed, split_words, starts_with, str_eq, trim,
    trim_start_matches, white_space,
};

#[test]
fn white_space_is_that_of_unicode() {
    for v in 0..=0x10ffff_u32 {
        if let Some(c) = char::from_u32(v) {
            assert_eq!(white_space(c), c.is_whitespace(), "{v:x}");
        }
    }
}

#[test]
fn trim_removes_white_space_at_both_ends() {
    for s in ["", " ", "a", "  a b \t", "\u{3000}x\u{2003}", "\n\n", "é ", " é", "a\u{200b}"] {
        assert_eq!(trim(s), s.trim());
    }
}

#[test]
fn words_are_split_at_white_space() {
    for s in ["", "  ", "a", " a  bc\td ", "Bearer k", "\u{a0}x\u{a0}y", "é ü"] {
        let expected: Vec<&str> = s.split_whitespace().collect();
        assert_eq!(split_words(s), expected);
    }
}

#[test]
fn case_is_ignored_for_ascii_letters_only() {
    assert!(eq_ignore_ascii_case("BeArEr", "bearer"));
    assert!(!eq_ignore_ascii_case("bearer", "bearers"));
    assert!(!eq_ignore_ascii_case("É", "é"));
    assert!(!eq_ignore_ascii_case("[", "{"));
    assert!(eq_ignore_ascii_case("", ""));
}

#[test]
fn prefixes_are_found_and_removed() {
    assert!(starts_with("/api/x", "/api/"));
    assert!(!starts_with("/api", "/api/"));
    assert!(starts_with("x", ""));
    assert_eq!(trim_start_matches("///a/b", "/"), "a/b");
    assert_eq!(trim_start_matches("http://http://h", "http://"), "h");
    assert_eq!(trim_start_matches("abc", ""), "abc".trim_start_matches(""));
    assert_eq!(trim_start_matches("éé1", "é"), "1");
}

#[test]
fn strings_are_compared_by_characters() {
    assert!(str_eq("é", "é"));
    assert!(!str_eq("e", "é"));
    assert!(!str_eq("ab", "abc"));
    assert!(str_eq("", ""));
}

#[test]
fn numbers_are_printed_in_decimal() {
    for n in [0_u128, 9, 10, 42, 1000, u64::MAX as u128, u128::MAX] {
        let mut out = String::from("n=");
        push_decimal(&mut out, n);
        assert_eq!(out, format!("n={n}"));
    }
    for n in [0_i64, -1, 7, -10, i64::MAX, i64::MIN] {
        let mut out = String::new();
        push_signed(&mut out, n);
        assert_eq!(out, n.to_string());
    }
}
