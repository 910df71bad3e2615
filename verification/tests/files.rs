use c_ward::files::{
    copy_file_range_check, dirent_type, fadvise_advice, fcntl_reply, fcntl_request, fifo_mode,
    file_kind, make_dirent, mmap_flags, open_mode, open_takes_mode, permission_bits,
    readdir64_r, readlink_copy, realpath_copy, seek_target, sendfile_check, stat_to_libc,
    statx_check, ttyname_r, Advice, DirRead, FcntlRequest, FileKind, KernelStat, SeekTarget,
};

#[test]
fn fcntl_commands_decode() {
    assert!(matches!(fcntl_request(3, 0), Some(FcntlRequest::GetStatusFlags)));
    assert!(matches!(fcntl_request(4, -1), Some(FcntlRequest::SetStatusFlags(0xffff_ffff))));
    assert!(matches!(fcntl_request(1, 0), Some(FcntlRequest::GetDescriptorFlags)));
    assert!(matches!(fcntl_request(2, 1), Some(FcntlRequest::SetDescriptorFlags(1))));
    assert!(matches!(fcntl_request(1030, 3), Some(FcntlRequest::DupCloexec(3))));
    assert!(fcntl_request(99, 0).is_none());
}

#[test]
fn fcntl_replies() {
    assert_eq!(fcntl_reply(&FcntlRequest::GetStatusFlags, Ok(0o2)), (2, None));
    assert_eq!(fcntl_reply(&FcntlRequest::SetStatusFlags(0), Ok(7)), (0, None));
    assert_eq!(fcntl_reply(&FcntlRequest::SetDescriptorFlags(1), Ok(7)), (0, None));
    assert_eq!(fcntl_reply(&FcntlRequest::DupCloexec(3), Ok(5)), (5, None));
    assert_eq!(fcntl_reply(&FcntlRequest::GetDescriptorFlags, Err(9)), (-1, Some(9)));
}

#[test]
fn seek_origins() {
    assert!(matches!(seek_target(-5, 0), Some(SeekTarget::Start(v)) if v == u64::MAX - 4));
    assert!(matches!(seek_target(3, 1), Some(SeekTarget::Current(3))));
    assert!(matches!(seek_target(-3, 2), Some(SeekTarget::End(-3))));
    assert!(seek_target(0, 7).is_none());
}

#[test]
fn modes_split_into_type_and_permissions() {
    assert!(matches!(file_kind(0o100644), FileKind::RegularFile));
    assert!(matches!(file_kind(0o040755), FileKind::Directory));
    assert!(matches!(file_kind(0o120777), FileKind::Symlink));
    assert!(matches!(file_kind(0o020600), FileKind::CharacterDevice));
    assert!(matches!(file_kind(0o060600), FileKind::BlockDevice));
    assert!(matches!(file_kind(0o140600), FileKind::Socket));
    assert!(matches!(file_kind(0o030000), FileKind::Unknown));
    assert!(matches!(file_kind(fifo_mode(0o644)), FileKind::Fifo));
    assert_eq!(fifo_mode(0o644), 0o010644);
    assert_eq!(permission_bits(0o104755), 0o4755);
    assert_eq!(permission_bits(0o644), 0o644);
}

#[test]
fn open_reads_mode_only_when_creating() {
    assert!(open_takes_mode(0o101));
    assert!(!open_takes_mode(0o1));
    assert_eq!(open_mode(0o101, 0o100644), 0o644);
    assert_eq!(open_mode(0o2, 0o100644), 0);
}

#[test]
fn mmap_splits_anonymous_flag() {
    assert_eq!(mmap_flags(0x22), (true, 0x2));
    assert_eq!(mmap_flags(0x2), (false, 0x2));
}

#[test]
fn dirent_codes_follow_mode_bits() {
    assert_eq!(dirent_type(&FileKind::Directory), 4);
    assert_eq!(dirent_type(&FileKind::RegularFile), 8);
    assert_eq!(dirent_type(&FileKind::Symlink), 10);
    assert_eq!(dirent_type(&FileKind::Unknown), 0);
    assert_eq!(dirent_type(&file_kind(0o010000)) as u32, 0o010000 >> 12);
}

#[test]
fn dirent_record_layout() {
    let d = make_dirent(7, &FileKind::RegularFile, b"file");
    assert_eq!(d.ino, 7);
    assert_eq!(d.off, 0);
    assert_eq!(d.reclen, 24);
    assert_eq!(d.d_type, 8);
    assert_eq!(d.name.len(), 256);
    assert_eq!(&d.name[..4], b"file");
    assert!(d.name[4..].iter().all(|b| *b == 0));
    let long = vec![b'x'; 300];
    let d = make_dirent(1, &FileKind::Directory, &long);
    assert_eq!(d.reclen, 320);
    assert!(d.name.iter().all(|b| *b == b'x'));
}

#[test]
fn readdir_outcomes() {
    assert!(matches!(readdir64_r(DirRead::End), Ok(None)));
    assert!(matches!(readdir64_r(DirRead::Failed(13)), Err(13)));
    match readdir64_r(DirRead::Entry { ino: 3, kind: FileKind::Fifo, name: b"p".to_vec() }) {
        Ok(Some(d)) => {
            assert_eq!(d.ino, 3);
            assert_eq!(d.d_type, 1);
            assert_eq!(d.reclen, 21);
            assert_eq!(d.name[0], b'p');
        }
        _ => panic!("expected an entry"),
    }
}

#[test]
fn fadvise_codes() {
    assert!(matches!(fadvise_advice(0), Some(Advice::Normal)));
    assert!(matches!(fadvise_advice(1), Some(Advice::Random)));
    assert!(matches!(fadvise_advice(2), Some(Advice::Sequential)));
    assert!(matches!(fadvise_advice(3), Some(Advice::WillNeed)));
    assert!(matches!(fadvise_advice(4), Some(Advice::DontNeed)));
    assert!(matches!(fadvise_advice(5), Some(Advice::NoReuse)));
    assert!(fadvise_advice(6).is_none());
}

#[test]
fn sendfile_offsets() {
    assert_eq!(sendfile_check(None, usize::MAX), Ok(()));
    assert_eq!(sendfile_check(Some(5), 10), Ok(()));
    assert_eq!(sendfile_check(Some(-1), 10), Err(22));
    assert_eq!(sendfile_check(Some(i64::MAX), 1), Err(22));
    assert_eq!(sendfile_check(Some(i64::MAX - 1), 1), Ok(()));
    assert_eq!(sendfile_check(Some(0), usize::MAX), Err(22));
}

#[test]
fn descriptor_and_pointer_checks() {
    assert_eq!(copy_file_range_check(-1, 3, 0), Err(9));
    assert_eq!(copy_file_range_check(3, -1, 7), Err(9));
    assert_eq!(copy_file_range_check(3, 4, 0), Ok(()));
    assert_eq!(statx_check(true, false), Err(14));
    assert_eq!(statx_check(false, true), Err(14));
    assert_eq!(statx_check(false, false), Ok(()));
}

#[test]
fn link_and_tty_names() {
    assert_eq!(readlink_copy(b"/target", 3), b"/ta".to_vec());
    assert_eq!(readlink_copy(b"/target", 100), b"/target".to_vec());
    assert_eq!(ttyname_r(b"/dev/pts/0", 10), Err(34));
    assert_eq!(ttyname_r(b"/dev/pts/0", 11), Ok(b"/dev/pts/0".to_vec()));
    assert_eq!(realpath_copy(b"/usr/bin\0\0\0", 8), b"/usr/bin\0".to_vec());
}

fn kernel_stat() -> KernelStat {
    KernelStat {
        dev: 1,
        ino: 2,
        nlink: 3,
        mode: 0o100644,
        uid: 1000,
        gid: 100,
        rdev: 0,
        size: 4096,
        blksize: 4096,
        blocks: 8,
        atime: 10,
        atime_nsec: 11,
        mtime: 12,
        mtime_nsec: 13,
        ctime: 14,
        ctime_nsec: 15,
    }
}

#[test]
fn stat_conversion() {
    let l = stat_to_libc(&kernel_stat()).expect("fits");
    assert_eq!((l.dev, l.ino, l.nlink, l.mode, l.uid, l.gid), (1, 2, 3, 0o100644, 1000, 100));
    assert_eq!((l.rdev, l.size, l.blksize, l.blocks), (0, 4096, 4096, 8));
    assert_eq!((l.atime, l.atime_nsec, l.mtime, l.mtime_nsec, l.ctime, l.ctime_nsec), (10, 11, 12, 13, 14, 15));
    let mut s = kernel_stat();
    s.atime = u64::MAX;
    assert!(stat_to_libc(&s).is_none());
    let mut s = kernel_stat();
    s.mtime_nsec = 1u64 << 63;
    assert!(stat_to_libc(&s).is_none());
    let mut s = kernel_stat();
    s.ctime = u64::MAX;
    assert_eq!(stat_to_libc(&s).expect("fits").ctime, -1);
}
