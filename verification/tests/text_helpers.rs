use iwselect::text::{chomp_line, contains_pattern, cut_at_double_space, parse_index, split_lines, trim_str};

#[test]
fn chomp_strips_line_endings() {
    assert_eq!(chomp_line("abc\n"), "abc");
    assert_eq!(chomp_line("abc\r\n"), "abc");
    assert_eq!(chomp_line("abc\r"), "abc");
    assert_eq!(chomp_line("abc"), "abc");
    assert_eq!(chomp_line("\n"), "");
    assert_eq!(chomp_line(""), "");
}

#[test]
fn trim_removes_surrounding_whitespace() {
    assert_eq!(trim_str("  wlan0   "), "wlan0");
    assert_eq!(trim_str("wlan0"), "wlan0");
    assert_eq!(trim_str("   "), "");
    assert_eq!(trim_str("\t a b \r"), "a b");
}

#[test]
fn double_space_cut_keeps_first_segment() {
    assert_eq!(cut_at_double_space("ab  cd"), "ab");
    assert_eq!(cut_at_double_space("a b c"), "a b c");
    assert_eq!(cut_at_double_space("  x"), "");
    assert_eq!(cut_at_double_space("x "), "x ");
    assert_eq!(cut_at_double_space(""), "");
}

#[test]
fn pattern_search_finds_substrings() {
    assert!(contains_pattern("wlan0 scanning now", "scanning"));
    assert!(contains_pattern("scanning", "scanning"));
    assert!(!contains_pattern("wlan0 available", "scanning"));
    assert!(!contains_pattern("scan", "scanning"));
    assert!(contains_pattern("anything", ""));
}

#[test]
fn decimal_parsing_is_exact() {
    assert_eq!(parse_index("0"), Some(0));
    assert_eq!(parse_index("42"), Some(42));
    assert_eq!(parse_index("007"), Some(7));
    assert_eq!(parse_index(""), None);
    assert_eq!(parse_index("4x"), None);
    assert_eq!(parse_index("-1"), None);
    assert_eq!(parse_index(" 1"), None);
    assert_eq!(parse_index("99999999999999999999999999"), None);
}

#[test]
fn line_splitting_matches_separator_semantics() {
    assert_eq!(split_lines("a\nb"), vec!["a", "b"]);
    assert_eq!(split_lines("a\n"), vec!["a", ""]);
    assert_eq!(split_lines(""), vec![""]);
    assert_eq!(split_lines("\n\n"), vec!["", "", ""]);
    assert_eq!(split_lines("one line"), vec!["one line"]);
}
