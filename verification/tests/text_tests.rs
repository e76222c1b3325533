use ratisui::text::{
    eq_ignore_ascii_case, i64_to_string, join_strings, replace_str, split_lines, to_chars, trim,
    u64_to_string,
};

#[test]
fn decimal_rendering() {
    assert_eq!(u64_to_string(0), "0");
    assert_eq!(u64_to_string(6379), "6379");
    assert_eq!(u64_to_string(u64::MAX), "18446744073709551615");
    assert_eq!(i64_to_string(-42), "-42");
    assert_eq!(i64_to_string(i64::MIN), "-9223372036854775808");
}

#[test]
fn lines_like_str_lines() {
    let v = to_chars("a\r\nb\n\nc\n");
    let lines: Vec<String> = split_lines(&v).iter().map(|l| l.iter().collect()).collect();
    assert_eq!(lines, vec!["a", "b", "", "c"]);
    let expected: Vec<&str> = "a\r\nb\n\nc\n".lines().collect();
    assert_eq!(lines, expected);
}

#[test]
fn trim_like_str_trim() {
    assert_eq!(trim("  get key \t\n"), "get key");
    assert_eq!(trim("   "), "");
    assert_eq!(trim("x"), "x");
}

#[test]
fn ascii_case_insensitive_compare() {
    assert!(eq_ignore_ascii_case("clear", "CLEAR"));
    assert!(eq_ignore_ascii_case("Monitor", "mOnItOr"));
    assert!(!eq_ignore_ascii_case("clear", "clears"));
    assert!(!eq_ignore_ascii_case("é", "É"));
}

#[test]
fn replace_all_occurrences() {
    assert_eq!(replace_str("a\tb\t", "\t", "    "), "a    b    ");
    assert_eq!(replace_str("aaa", "aa", "b"), "ba");
    assert_eq!(replace_str("abc", "x", "y"), "abc");
}

#[test]
fn join_with_separator() {
    let pieces = vec!["'@".to_string(), "$end'".to_string()];
    assert_eq!(join_strings(&pieces, "title"), "'@title$end'");
    assert_eq!(join_strings(&vec![], ","), "");
}
