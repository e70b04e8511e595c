use mission_capture::text::{contains_text, join_lines, same_text, split_text};

#[test]
fn contains_text_finds_substrings() {
    assert!(contains_text("bounty collected: 500", "bounty collected"));
    assert!(contains_text("abc", ""));
    assert!(!contains_text("ab", "abc"));
    assert!(!contains_text("Bounty Collected", "bounty collected"));
}

#[test]
fn same_text_compares_characters() {
    assert!(same_text("CTRL", "CTRL"));
    assert!(!same_text("CTRL", "CTR"));
    assert!(!same_text("ALT", "ALt"));
}

#[test]
fn split_text_keeps_empty_pieces() {
    assert_eq!(split_text("Ctrl+Shift+M", '+'), vec!["Ctrl", "Shift", "M"]);
    assert_eq!(split_text("", '+'), vec![""]);
    assert_eq!(split_text("a++b+", '+'), vec!["a", "", "b", ""]);
}

#[test]
fn join_lines_puts_one_space_between() {
    assert_eq!(join_lines(&vec!["Bounty".to_string(), "Collected: 500".to_string()]), "Bounty Collected: 500");
    assert_eq!(join_lines(&vec!["one".to_string()]), "one");
    assert_eq!(join_lines(&vec![]), "");
}
