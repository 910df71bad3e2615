use c_ward::errno::{format_decimal, strerror_message, xpg_strerror_r};

#[test]
fn decimal_forms() {
    assert_eq!(format_decimal(0), b"0".to_vec());
    assert_eq!(format_decimal(1234), b"1234".to_vec());
    assert_eq!(format_decimal(-7), b"-7".to_vec());
    assert_eq!(format_decimal(i32::MIN), b"-2147483648".to_vec());
}

#[test]
fn unknown_errors_are_numbered() {
    assert_eq!(strerror_message(None, 4242), b"Unknown error 4242".to_vec());
    assert_eq!(strerror_message(Some(b"No such file or directory"), 2), b"No such file or directory".to_vec());
}

#[test]
fn strerror_r_truncates_and_terminates() {
    assert_eq!(xpg_strerror_r(b"Permission denied", 0), Err(34));
    assert_eq!(xpg_strerror_r(b"Permission denied", 1), Ok(vec![0]));
    assert_eq!(xpg_strerror_r(b"Permission denied", 5), Ok(b"Perm\0".to_vec()));
    assert_eq!(xpg_strerror_r(b"Permission denied", 100), Ok(b"Permission denied\0".to_vec()));
}
