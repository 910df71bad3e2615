use c_ward::env::{getenv, getlogin, setenv, unsetenv, Environ};

fn environ(entries: &[&[u8]]) -> Environ {
    Environ { entries: entries.iter().map(|e| e.to_vec()).collect() }
}

#[test]
fn getenv_reads_first_match() {
    let env = environ(&[b"HOME=/root", b"PATH=/bin", b"HOME=/other"]);
    assert_eq!(getenv(&env, b"HOME"), Some(b"/root".to_vec()));
    assert_eq!(getenv(&env, b"PATH"), Some(b"/bin".to_vec()));
    assert_eq!(getenv(&env, b"PAT"), None);
    assert_eq!(getenv(&env, b"SHELL"), None);
}

#[test]
fn getlogin_reads_logname() {
    let env = environ(&[b"LOGNAME=alice"]);
    assert_eq!(getlogin(&env), Some(b"alice".to_vec()));
    assert_eq!(getlogin(&environ(&[])), None);
}

#[test]
fn setenv_then_getenv_gives_value() {
    let mut env = environ(&[b"A=1"]);
    assert_eq!(setenv(&mut env, Some(b"B"), Some(b"2"), 0), Ok(()));
    assert_eq!(getenv(&env, b"B"), Some(b"2".to_vec()));
    assert_eq!(setenv(&mut env, Some(b"A"), Some(b"9"), 0), Ok(()));
    assert_eq!(getenv(&env, b"A"), Some(b"1".to_vec()));
    assert_eq!(setenv(&mut env, Some(b"A"), Some(b"9"), 1), Ok(()));
    assert_eq!(getenv(&env, b"A"), Some(b"9".to_vec()));
    assert_eq!(env.entries.len(), 2);
}

#[test]
fn setenv_refuses_bad_keys() {
    let mut env = environ(&[b"A=1"]);
    assert_eq!(setenv(&mut env, Some(b""), Some(b"x"), 1), Err(22));
    assert_eq!(setenv(&mut env, Some(b"A=B"), Some(b"x"), 1), Err(22));
    assert_eq!(setenv(&mut env, None, Some(b"x"), 1), Err(22));
    assert_eq!(setenv(&mut env, Some(b"K"), None, 1), Err(22));
    assert_eq!(env.entries, vec![b"A=1".to_vec()]);
}

#[test]
fn unsetenv_removes_key() {
    let mut env = environ(&[b"A=1", b"B=2", b"C=3"]);
    assert_eq!(unsetenv(&mut env, Some(b"A")), Ok(()));
    assert_eq!(getenv(&env, b"A"), None);
    assert_eq!(getenv(&env, b"B"), Some(b"2".to_vec()));
    assert_eq!(getenv(&env, b"C"), Some(b"3".to_vec()));
    assert_eq!(unsetenv(&mut env, Some(b"Z")), Ok(()));
    assert_eq!(env.entries.len(), 2);
    assert_eq!(unsetenv(&mut env, Some(b"")), Err(22));
    assert_eq!(unsetenv(&mut env, None), Err(22));
}
