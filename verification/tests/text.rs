use c_ward::text::{parse_u32, split_bytes, split_words};

#[test]
fn split_keeps_empty_pieces() {
    assert_eq!(split_bytes(b"a::b", b':'), vec![b"a".to_vec(), b"".to_vec(), b"b".to_vec()]);
    assert_eq!(split_bytes(b"", b':'), vec![b"".to_vec()]);
    assert_eq!(split_bytes(b"x:", b':'), vec![b"x".to_vec(), b"".to_vec()]);
}

#[test]
fn parse_u32_as_rust_does() {
    assert_eq!(parse_u32(b"0"), Some(0));
    assert_eq!(parse_u32(b"+42"), Some(42));
    assert_eq!(parse_u32(b"4294967295"), Some(u32::MAX));
    assert_eq!(parse_u32(b"4294967296"), None);
    assert_eq!(parse_u32(b""), None);
    assert_eq!(parse_u32(b"+"), None);
    assert_eq!(parse_u32(b"-1"), None);
    assert_eq!(parse_u32(b"12a"), None);
}

#[test]
fn words_split_on_whitespace() {
    assert_eq!(split_words(b"  alice  10\t20\n"), vec![b"alice".to_vec(), b"10".to_vec(), b"20".to_vec()]);
    assert!(split_words(b"   ").is_empty());
    assert_eq!(split_words("a\u{a0}b".as_bytes()), vec![b"a".to_vec(), b"b".to_vec()]);
}
