use c_ward::nss::{
    classify_status, getgr_r, getgrouplist, getpw_r, next_buffer_len, retry_action,
    GetentStatus, RetryAction,
};

const ROOT: &[u8] = b"root:x:0:0:root:/root:/bin/bash\n";

#[test]
fn passwd_record_layout() {
    let rec = getpw_r(ROOT, 100).unwrap_or_else(|e| panic!("error {}", e));
    assert_eq!(rec.buf, b"root\0x\0root\0/root\0/bin/bash\0".to_vec());
    assert_eq!((rec.pw_name, rec.pw_passwd, rec.pw_gecos, rec.pw_dir, rec.pw_shell), (0, 5, 7, 12, 18));
    assert_eq!((rec.pw_uid, rec.pw_gid), (0, 0));
}

#[test]
fn passwd_record_errors() {
    assert!(matches!(getpw_r(ROOT, 4), Err(34)));
    assert!(matches!(getpw_r(ROOT, 27), Err(34)));
    assert!(getpw_r(ROOT, 28).is_ok());
    assert!(matches!(getpw_r(b"root:x:0:0:root:/root:/bin/bash", 100), Err(5)));
    assert!(matches!(getpw_r(b"root:x:0\n", 100), Err(5)));
    assert!(matches!(getpw_r(b"root:x:zero:0:root:/root:/bin/bash\n", 100), Err(5)));
    assert!(matches!(getpw_r(b"root:x:0:0:\xff:/root:/bin/bash\n", 100), Err(5)));
}

#[test]
fn passwd_record_reads_back_fields() {
    let rec = getpw_r(b"alice:*:1000:100:Alice A:/home/alice:/bin/sh\n", 64).unwrap_or_else(|e| panic!("error {}", e));
    let at = |o: usize| {
        let end = rec.buf[o..].iter().position(|b| *b == 0).unwrap();
        rec.buf[o..o + end].to_vec()
    };
    assert_eq!(at(rec.pw_name), b"alice".to_vec());
    assert_eq!(at(rec.pw_passwd), b"*".to_vec());
    assert_eq!(at(rec.pw_gecos), b"Alice A".to_vec());
    assert_eq!(at(rec.pw_dir), b"/home/alice".to_vec());
    assert_eq!(at(rec.pw_shell), b"/bin/sh".to_vec());
    assert_eq!((rec.pw_uid, rec.pw_gid), (1000, 100));
}

#[test]
fn group_record_layout() {
    let rec = getgr_r(b"wheel:x:10:alice,bob\n", 100, 0x1000, 8).unwrap_or_else(|e| panic!("error {}", e));
    let mut expected = b"wheel\0x\0".to_vec();
    expected.extend_from_slice(&[0u8; 32]);
    expected.extend_from_slice(b"alice\0bob\0");
    assert_eq!(rec.buf, expected);
    assert_eq!((rec.gr_name, rec.gr_passwd, rec.gr_gid, rec.gr_mem), (0, 6, 10, 16));
    assert_eq!(rec.members, vec![40, 46]);
}

#[test]
fn group_record_without_members() {
    let rec = getgr_r(b"empty:x:7:\n", 100, 0x1003, 8).unwrap_or_else(|e| panic!("error {}", e));
    assert_eq!(rec.gr_gid, 7);
    assert!(rec.members.is_empty());
    assert_eq!(rec.gr_mem, 13);
    assert_eq!(rec.buf.len(), 21);
}

#[test]
fn group_record_errors() {
    assert!(matches!(getgr_r(b"wheel:x:10:alice,bob\n", 20, 0x1000, 8), Err(34)));
    assert!(matches!(getgr_r(b"wheel:x:10\n", 100, 0x1000, 8), Err(5)));
    assert!(matches!(getgr_r(b"wheel:x:ten:a\n", 100, 0x1000, 8), Err(5)));
    assert!(matches!(getgr_r(b"wheel:x:10:a", 100, 0x1000, 8), Err(5)));
}

#[test]
fn group_lists() {
    assert_eq!(getgrouplist(b"alice 10 20 10 30\n", b"alice", 10, 10), Some(vec![10, 20, 30]));
    assert_eq!(getgrouplist(b"alice 10 20 10 30\n", b"alice", 10, 3), Some(vec![10, 20, 30]));
    assert_eq!(getgrouplist(b"alice 10 20 10 30\n", b"alice", 10, 2), None);
    assert_eq!(getgrouplist(b"alice 10 20\n", b"bob", 10, 10), None);
    assert_eq!(getgrouplist(b"alice 10 x\n", b"alice", 10, 10), None);
    assert_eq!(getgrouplist(b"alice\n", b"alice", 5, 10), Some(vec![5]));
    assert_eq!(getgrouplist(b"alice\n", b"alice", 5, 0), None);
    assert_eq!(getgrouplist(b"alice 7 8\n", b"alice", 5, -1), Some(vec![5, 7, 8]));
}

#[test]
fn lookup_loop_decisions() {
    assert!(matches!(classify_status(Some(0)), GetentStatus::Found));
    assert!(matches!(classify_status(Some(2)), GetentStatus::NotFound));
    assert!(matches!(classify_status(Some(1)), GetentStatus::Unexpected));
    assert!(matches!(classify_status(None), GetentStatus::Failed));
    assert_eq!(next_buffer_len(0), 1024);
    assert_eq!(next_buffer_len(1024), 2048);
    assert!(matches!(retry_action(0, 34), RetryAction::Done));
    assert!(matches!(retry_action(-1, 34), RetryAction::Retry));
    assert!(matches!(retry_action(-1, 5), RetryAction::Fail));
}
