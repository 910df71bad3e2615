use c_ward::cformat::{assert_fail_line, debug_cstr, perror_line, snprintf_copy};

fn shown(s: &[u8]) -> Vec<u8> {
    format!("\"{}\"", s.escape_ascii()).into_bytes()
}

#[test]
fn quoting_matches_escape_ascii() {
    assert_eq!(debug_cstr(b"hi"), b"\"hi\"".to_vec());
    let tricky: &[u8] = b"a\"b\\\n\t\r\x01\xff'~ ";
    assert_eq!(debug_cstr(tricky), shown(tricky));
    let all: Vec<u8> = (1u8..=255).collect();
    assert_eq!(debug_cstr(&all), shown(&all));
}

#[test]
fn perror_lines() {
    assert_eq!(perror_line(b"", b"No such file"), b"\"No such file\"\n".to_vec());
    assert_eq!(perror_line(b"open", b"No such file"), b"\"open\": \"No such file\"\n".to_vec());
}

#[test]
fn assertion_lines() {
    assert_eq!(
        assert_fail_line(b"x > 0", b"main.c", 12, b"main"),
        b"Assertion failed: \"x > 0\" (\"main.c\":12: \"main\")\n".to_vec()
    );
    assert_eq!(
        assert_fail_line(b"a\"", b"f", -3, b"g"),
        b"Assertion failed: \"a\\\"\" (\"f\":-3: \"g\")\n".to_vec()
    );
}

#[test]
fn snprintf_stores_within_buffer() {
    assert_eq!(snprintf_copy(b"hello", 5, 3), b"hel".to_vec());
    assert_eq!(snprintf_copy(b"hello", 5, 5), b"hello".to_vec());
    assert_eq!(snprintf_copy(b"hello", 5, 6), b"hello\0".to_vec());
    assert_eq!(snprintf_copy(b"hello", 5, 100), b"hello\0".to_vec());
    assert_eq!(snprintf_copy(b"hello", 5, 0), Vec::<u8>::new());
    assert_eq!(snprintf_copy(b"", -1, 10), Vec::<u8>::new());
}
