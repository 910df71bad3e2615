use c_ward::ctype::{
    ctype_b_entry, isalnum, isalpha, isascii, isblank, iscntrl, isdigit, isgraph, islower,
    isprint, ispunct, isspace, isupper, isxdigit, tolower, tolower_entry, toupper, toupper_entry,
};

#[test]
fn classes_of_letters_and_digits() {
    assert_eq!(isalpha(b'A' as i32), 1);
    assert_eq!(isalpha(b'1' as i32), 0);
    assert_eq!(isdigit(b'7' as i32), 1);
    assert_eq!(isalnum(b'z' as i32), 1);
    assert_eq!(isalnum(b'-' as i32), 0);
    assert_eq!(isupper(b'Q' as i32), 1);
    assert_eq!(islower(b'Q' as i32), 0);
    assert_eq!(isxdigit(b'f' as i32), 1);
    assert_eq!(isxdigit(b'g' as i32), 0);
}

#[test]
fn classes_of_spaces_and_controls() {
    assert_eq!(isspace(b' ' as i32), 1);
    assert_eq!(isspace(b'\n' as i32), 1);
    assert_eq!(isspace(b'x' as i32), 0);
    assert_eq!(isblank(b'\t' as i32), 1);
    assert_eq!(isblank(b'\n' as i32), 0);
    assert_eq!(iscntrl(0x7f), 1);
    assert_eq!(isprint(b' ' as i32), 1);
    assert_eq!(isgraph(b' ' as i32), 0);
    assert_eq!(ispunct(b'!' as i32), 1);
    assert_eq!(isascii(200), 0);
    assert_eq!(isascii(-1), 0);
    assert_eq!(isascii(127), 1);
}

#[test]
fn case_mapping_round_trip() {
    assert_eq!(tolower(b'A' as i32), b'a' as i32);
    assert_eq!(toupper(b'a' as i32), b'A' as i32);
    assert_eq!(tolower(b'1' as i32), b'1' as i32);
    assert_eq!(toupper(tolower(b'M' as i32)), b'M' as i32);
    assert_eq!(tolower(toupper(b'm' as i32)), b'm' as i32);
    assert_eq!(toupper(-1), -1);
}

#[test]
fn lsb_table_entries() {
    assert_eq!(ctype_b_entry(b'A' as i32), 0x8d5);
    assert_eq!(ctype_b_entry(b'a' as i32), 0x8d6);
    assert_eq!(ctype_b_entry(b'0' as i32), 0x8d8);
    assert_eq!(ctype_b_entry(b' ' as i32), 0x160);
    assert_eq!(ctype_b_entry(b'\t' as i32), 0x320);
    assert_eq!(ctype_b_entry(b'!' as i32), 0x4c0);
    assert_eq!(ctype_b_entry(0x7f), 0x200);
    assert_eq!(ctype_b_entry(200), 0);
    assert_eq!(ctype_b_entry(-5), 0);
    assert_eq!(tolower_entry(b'B' as i32), b'b' as i32);
    assert_eq!(tolower_entry(200), 0);
    assert_eq!(toupper_entry(b'b' as i32), b'B' as i32);
    assert_eq!(toupper_entry(-3), 0);
}
