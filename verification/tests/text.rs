use ares::decoders::text::{same_bytes, same_text};

#[test]
fn bytes_are_compared_one_by_one() {
    assert!(same_bytes(b"", b""));
    assert!(same_bytes(b"abc", b"abc"));
    assert!(!same_bytes(b"abc", b"abd"));
    assert!(!same_bytes(b"abc", b"xbc"));
    assert!(!same_bytes(b"abc", b"ab"));
    assert!(!same_bytes(b"ab", b"abc"));
    assert!(!same_bytes(b"", b"a"));
}

#[test]
fn texts_are_compared_character_by_character() {
    assert!(same_text("", ""));
    assert!(same_text("hello world", "hello world"));
    assert!(same_text("héllo 😂", "héllo 😂"));
    assert!(!same_text("hello", "hellp"));
    assert!(!same_text("hello", "hello "));
    assert!(!same_text("é", "e"));
    assert!(!same_text("", "a"));
}
