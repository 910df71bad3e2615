use c_ward::utmp::{find_utxid, find_utxline, getutxid_matches, getutxline_matches, UtmpKey};

fn key(ut_type: i16, id: &[u8], line: &[u8]) -> UtmpKey {
    UtmpKey { ut_type, ut_id: id.to_vec(), ut_line: line.to_vec() }
}

#[test]
fn clock_queries_match_by_type() {
    let q = key(2, b"zz", b"");
    assert!(getutxid_matches(&q, &key(2, b"ab", b"tty1")));
    assert!(!getutxid_matches(&q, &key(1, b"zz", b"tty1")));
}

#[test]
fn process_queries_match_by_id() {
    let q = key(7, b"ab", b"");
    assert!(getutxid_matches(&q, &key(8, b"ab", b"x")));
    assert!(!getutxid_matches(&q, &key(7, b"ac", b"x")));
}

#[test]
fn unknown_queries_match_nothing() {
    let q = key(0, b"ab", b"");
    assert!(!getutxid_matches(&q, &key(0, b"ab", b"")));
    let entries = vec![key(0, b"ab", b""), key(7, b"ab", b"")];
    assert_eq!(find_utxid(&q, &entries), None);
}

#[test]
fn search_stops_at_first_match() {
    let entries = vec![key(2, b"", b""), key(7, b"s1", b"pts/0"), key(6, b"s2", b"pts/1"), key(7, b"s1", b"pts/2")];
    assert_eq!(find_utxid(&key(5, b"s1", b""), &entries), Some(1));
    assert_eq!(find_utxid(&key(2, b"", b""), &entries), Some(0));
    assert_eq!(find_utxline(&key(0, b"", b"pts/1"), &entries), Some(2));
    assert_eq!(find_utxline(&key(0, b"", b"pts/9"), &entries), None);
}

#[test]
fn line_queries_want_user_or_login_records() {
    let q = key(0, b"", b"tty1");
    assert!(getutxline_matches(&q, &key(7, b"", b"tty1")));
    assert!(getutxline_matches(&q, &key(6, b"", b"tty1")));
    assert!(!getutxline_matches(&q, &key(8, b"", b"tty1")));
    assert!(!getutxline_matches(&q, &key(7, b"", b"tty2")));
}
