use farcaster_node::text::{decimal_text, joined, same_text, split_on};

#[test]
fn split_on_keeps_empty_fields() {
    assert_eq!(split_on("x,y,,z", ','), vec!["x", "y", "", "z"]);
    assert_eq!(split_on("héllo wörld", ' '), vec!["héllo", "wörld"]);
    assert_eq!(split_on("abc", ' '), vec!["abc"]);
    assert_eq!(split_on(",", ','), vec!["", ""]);
}

#[test]
fn decimal_text_writes_numbers() {
    assert_eq!(decimal_text(0), "0");
    assert_eq!(decimal_text(7), "7");
    assert_eq!(decimal_text(10), "10");
    assert_eq!(decimal_text(1234567890), "1234567890");
    assert_eq!(decimal_text(u64::MAX), u64::MAX.to_string());
}

#[test]
fn texts_compare_and_join() {
    assert!(same_text("abc", "abc"));
    assert!(!same_text("abc", "abd"));
    assert!(!same_text("abc", "ab"));
    assert_eq!(joined("ab", "cd"), "abcd");
    assert_eq!(joined("", ""), "");
}
