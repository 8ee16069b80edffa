use hermes_api::text::{collapse_whitespace, contains, decimal, lines, split_trimmed, trim};

#[test]
fn trim_removes_surrounding_white_space() {
    assert_eq!(trim("  a b \n"), "a b");
    assert_eq!(trim(""), "");
    assert_eq!(trim(" \t "), "");
}

#[test]
fn split_trimmed_drops_empty_pieces() {
    assert_eq!(split_trimmed("a, b,,c ", ","), vec!["a", "b", "c"]);
}

#[test]
fn collapse_joins_words_with_single_spaces() {
    assert_eq!(collapse_whitespace("  Deep   Sea\tBlue "), "Deep Sea Blue");
}

#[test]
fn contains_finds_a_needle() {
    assert!(contains("Consumer Electronics", "Electronics"));
    assert!(!contains("Collectibles", "Electronics"));
    assert!(contains("abc", ""));
}

#[test]
fn decimal_writes_numerals() {
    assert_eq!(decimal(0), "0");
    assert_eq!(decimal(1205), "1205");
}

#[test]
fn lines_follow_line_feeds() {
    assert_eq!(lines("a\r\nb\n"), vec!["a", "b"]);
    assert_eq!(lines("a\n\nb"), vec!["a", "", "b"]);
    assert!(lines("").is_empty());
}
