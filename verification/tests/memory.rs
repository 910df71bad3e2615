use c_ward::mem::{bcmp, memchr, memcmp, memcpy, memmove, memrchr, memset, strlen};

#[test]
fn memchr_finds_first() {
    let s = b"hello";
    assert_eq!(memchr(s, b'l' as i32, 5), Some(2));
    assert_eq!(memchr(s, b'z' as i32, 5), None);
    assert_eq!(memchr(s, b'o' as i32, 4), None);
}

#[test]
fn memrchr_finds_last() {
    let s = b"hello";
    assert_eq!(memrchr(s, b'l' as i32, 5), Some(3));
    assert_eq!(memrchr(s, b'h' as i32, 5), Some(0));
    assert_eq!(memrchr(s, b'z' as i32, 5), None);
}

#[test]
fn memcmp_orders_bytes() {
    assert_eq!(memcmp(b"abc", b"abd", 3), -1);
    assert_eq!(memcmp(b"abd", b"abc", 3), 1);
    assert_eq!(memcmp(b"abc", b"abd", 2), 0);
    assert_eq!(bcmp(b"xyz", b"xyz", 3), 0);
    assert_ne!(bcmp(b"xyz", b"xya", 3), 0);
}

#[test]
fn memcpy_and_memset() {
    let mut dst = vec![0u8; 5];
    memcpy(&mut dst, b"abc", 3);
    assert_eq!(dst, b"abc\0\0".to_vec());
    memset(&mut dst, b'x' as i32, 2);
    assert_eq!(dst, b"xxc\0\0".to_vec());
}

#[test]
fn memmove_overlapping() {
    let mut buf = b"abcdef".to_vec();
    memmove(&mut buf, 1, 0, 4);
    assert_eq!(buf, b"aabcdf".to_vec());
    let mut buf = b"abcdef".to_vec();
    memmove(&mut buf, 0, 2, 4);
    assert_eq!(buf, b"cdefef".to_vec());
}

#[test]
fn strlen_stops_at_nul() {
    assert_eq!(strlen(b"abc\0def"), 3);
    assert_eq!(strlen(b"\0"), 0);
}
