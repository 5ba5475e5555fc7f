use matrix_mcp::text::{chars_of, concat2, concat3, concat4, contains_text, join_with_newlines};

#[test]
fn contains_text_finds_substrings() {
    assert!(contains_text("tasks://weekly-review", "weekly"));
    assert!(contains_text("weekly", "weekly"));
    assert!(!contains_text("week", "weekly"));
    assert!(!contains_text("wee kly", "weekly"));
    assert!(contains_text("anything", ""));
    assert!(contains_text("", ""));
    assert!(!contains_text("", "a"));
    assert!(contains_text("🧚 fairy", "fairy"));
}

#[test]
fn join_with_newlines_puts_newline_between_parts() {
    assert_eq!(join_with_newlines(&vec![]), "");
    assert_eq!(join_with_newlines(&vec!["a".to_string()]), "a");
    assert_eq!(
        join_with_newlines(&vec!["a".to_string(), "b".to_string(), "c".to_string()]),
        "a\nb\nc"
    );
}

#[test]
fn concat_and_chars() {
    assert_eq!(concat2("a", "b"), "ab");
    assert_eq!(concat3("a", "b", "c"), "abc");
    assert_eq!(concat4("a", "b", "c", "d"), "abcd");
    assert_eq!(chars_of("hé🧚"), vec!['h', 'é', '🧚']);
}
