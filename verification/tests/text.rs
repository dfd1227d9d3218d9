use rustle::text::{concat_str, contains, split_nonempty_lines, starts_with, to_decimal};

#[test]
fn decimal_and_strings() {
    assert_eq!(to_decimal(0), "0");
    assert_eq!(to_decimal(18446744073709551615), "18446744073709551615");
    assert_eq!(concat_str("ab", "cd"), "abcd");
    assert!(starts_with("ncm://1", "ncm://"));
    assert!(!starts_with("nc", "ncm://"));
    assert_eq!(split_nonempty_lines("a\n\nb\n"), vec!["a".to_string(), "b".to_string()]);
}

#[test]
fn contains_finds_pieces() {
    assert!(contains("hello world", "o w"));
    assert!(contains("abc", ""));
    assert!(contains("", ""));
    assert!(!contains("ab", "abc"));
    assert!(!contains("hello", "lo!"));
    assert!(contains("缓冲中", "冲中"));
}
