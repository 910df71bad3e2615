use c_ward::sys::{
    calloc_len, dlsym, get_avphys_pages, get_nprocs_conf, get_phys_pages, getcwd, pages_in,
    sysconf, sysconf_with, DlsymResult,
};

#[test]
fn sysconf_names() {
    assert_eq!(sysconf(84), Some(1));
    assert_eq!(sysconf(1), None);
    assert!(matches!(sysconf(30), Some(p) if p > 0));
    assert_eq!(sysconf_with(30, 4096), Some(4096));
    assert_eq!(sysconf_with(84, 4096), Some(1));
    assert_eq!(sysconf_with(2, 4096), None);
}

#[test]
fn page_counts() {
    assert_eq!(pages_in(1000, 4096, 4096), 1000);
    assert_eq!(pages_in(10, 0, 4096), 0);
    assert_eq!(pages_in(8192, 0, 4096), 2);
    assert_eq!(pages_in(u64::MAX, 1, 1), i64::MAX);
    let page = sysconf(30).unwrap() as u64;
    assert_eq!(get_phys_pages(1 << 20, 4096), Some(((1u64 << 32) / page) as i64));
    assert_eq!(get_avphys_pages(1 << 19, 1 << 19, 4096), Some(((1u64 << 32) / page) as i64));
}

#[test]
fn processor_counts() {
    assert_eq!(get_nprocs_conf(Some(8)), 8);
    assert_eq!(get_nprocs_conf(None), 1);
    assert_eq!(get_nprocs_conf(Some(usize::MAX)), i32::MAX);
}

#[test]
fn calloc_sizes() {
    assert_eq!(calloc_len(3, 4), Some(12));
    assert_eq!(calloc_len(usize::MAX, 2), None);
    assert_eq!(calloc_len(0, usize::MAX), Some(0));
}

#[test]
fn cwd_is_root() {
    assert_eq!(getcwd(1), None);
    assert_eq!(getcwd(2), Some(b"/\0".to_vec()));
    assert_eq!(getcwd(100), Some(b"/\0".to_vec()));
}

#[test]
fn dlsym_symbols() {
    assert!(matches!(dlsym(true, b"statx"), Some(DlsymResult::Statx)));
    assert!(matches!(dlsym(true, b"__pthread_get_minstack"), Some(DlsymResult::Null)));
    assert!(matches!(dlsym(true, b"gnu_get_libc_version"), Some(DlsymResult::Null)));
    assert!(dlsym(false, b"statx").is_none());
    assert!(dlsym(true, b"open").is_none());
}
