use deepchat_desktop::text::{
    decimal_text, has_prefix, has_suffix, is_blank, join2, same_text,
};

#[test]
fn blank_is_what_trims_to_nothing_for_every_character() {
    for c in '\0'..=char::MAX {
        let text = c.to_string();
        assert_eq!(is_blank(&text), text.trim().is_empty(), "{:?}", c);
    }
    assert!(is_blank(""));
    assert!(is_blank(" \u{3000}\n"));
    assert!(!is_blank(" x "));
}

#[test]
fn numbers_read_as_usual() {
    for n in [0, 7, 10, 99, 100, 1_760_000_000_123, u128::MAX] {
        assert_eq!(decimal_text(n), n.to_string());
    }
}

#[test]
fn texts_compare_by_their_characters() {
    assert!(same_text("路径", "路径"));
    assert!(!same_text("a", "A"));
    assert!(has_suffix("a.deepseek.com", ".deepseek.com"));
    assert!(has_suffix("路径", "径"));
    assert!(!has_suffix("com", ".com"));
    assert_eq!(join2("a", "b"), "ab");
}

#[test]
fn bytes_compare_from_the_front() {
    assert!(has_prefix(b"DSENC1:x", b"DSENC1:"));
    assert!(has_prefix(b"abc", b""));
    assert!(!has_prefix(b"DSENC", b"DSENC1:"));
    assert!(!has_prefix(b"DSENC2:x", b"DSENC1:"));
}
