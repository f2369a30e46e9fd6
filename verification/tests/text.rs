use snmalloc_rs::text::{chars_of, contains_text, text_eq};

#[test]
fn equal_texts_are_equal() {
    assert!(text_eq("windows", "windows"));
    assert!(text_eq("", ""));
    assert!(text_eq("naïve", "naïve"));
}

#[test]
fn different_texts_are_not_equal() {
    assert!(!text_eq("windows", "window"));
    assert!(!text_eq("linux", "Linux"));
    assert!(!text_eq("", "x"));
    assert!(!text_eq("abc", "abd"));
}

#[test]
fn chars_are_listed_in_order() {
    assert_eq!(chars_of("a-b"), vec!['a', '-', 'b']);
    assert_eq!(chars_of(""), Vec::<char>::new());
    assert_eq!(chars_of("é!"), vec!['é', '!']);
}

#[test]
fn substring_is_found_anywhere() {
    assert!(contains_text("x86_64-pc-windows-msvc", "msvc"));
    assert!(contains_text("x86_64-pc-windows-msvc", "x86_64"));
    assert!(contains_text("aarch64-linux-android", "linux"));
    assert!(contains_text("abc", "abc"));
}

#[test]
fn empty_needle_is_found_everywhere() {
    assert!(contains_text("abc", ""));
    assert!(contains_text("", ""));
}

#[test]
fn missing_substring_is_not_found() {
    assert!(!contains_text("x86_64-unknown-linux-gnu", "msvc"));
    assert!(!contains_text("", "a"));
    assert!(!contains_text("ab", "abc"));
    assert!(!contains_text("aab", "aba"));
}

#[test]
fn substring_search_counts_characters_not_bytes() {
    assert!(contains_text("ééclang", "clang"));
    assert!(!contains_text("é", "\u{a9}"));
}
