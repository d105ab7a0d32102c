use fromit::text::{
    decimal_text, ends_with, find_char, join, rfind_char, same, slice, starts_with, strip_first,
    strip_last, trim,
};

#[test]
fn same_compares_character_by_character() {
    assert!(same("abc", "abc"));
    assert!(!same("abc", "abd"));
    assert!(!same("abc", "ab"));
    assert!(same("", ""));
}

#[test]
fn join_concatenates() {
    assert_eq!(join("ab", "cd"), "abcd");
    assert_eq!(join("", "cd"), "cd");
}

#[test]
fn find_counts_characters() {
    assert_eq!(find_char("a{b{c", '{'), Some(1));
    assert_eq!(find_char("abc", '{'), None);
    assert_eq!(find_char("é{", '{'), Some(1));
    assert_eq!(rfind_char("a}b}c", '}'), Some(3));
    assert_eq!(rfind_char("abc", '}'), None);
    assert_eq!(rfind_char("", '}'), None);
}

#[test]
fn slice_takes_characters() {
    assert_eq!(slice("hello", 1, 3), "el");
    assert_eq!(slice("héllo", 1, 3), "él");
    assert_eq!(slice("hello", 2, 2), "");
}

#[test]
fn trim_removes_white_space_around() {
    assert_eq!(trim("  a b \n"), "a b");
    assert_eq!(trim("a"), "a");
    assert_eq!(trim(" \t "), "");
    assert_eq!(trim(""), "");
}

#[test]
fn strip_removes_one_character() {
    assert_eq!(strip_last("<a>>", '>'), "<a>");
    assert_eq!(strip_last("<a", '>'), "<a");
    assert_eq!(strip_last("", '>'), "");
    assert_eq!(strip_first("<<a", '<'), "<a");
    assert_eq!(strip_first("a", '<'), "a");
}

#[test]
fn ends_and_starts() {
    assert!(ends_with("a,", ','));
    assert!(!ends_with("a", ','));
    assert!(!ends_with("", ','));
    assert!(starts_with("where T: X", "where"));
    assert!(!starts_with("whe", "where"));
    assert!(starts_with("x", ""));
}

#[test]
fn decimal_writes_numbers() {
    assert_eq!(decimal_text(0), "0");
    assert_eq!(decimal_text(7), "7");
    assert_eq!(decimal_text(10), "10");
    assert_eq!(decimal_text(1203), "1203");
}
