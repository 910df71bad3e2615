//! Character classification and case conversion in the "C" locale.

use vstd::prelude::*;

verus! {

/// `1` for true, `0` for false: the C truth value.
pub open spec fn truth(b: bool) -> i32 {
    if b {
        1
    } else {
        0
    }
}

/// `'A'..='Z'`.
pub open spec fn is_upper(c: int) -> bool {
    65 <= c <= 90
}

/// `'a'..='z'`.
pub open spec fn is_lower(c: int) -> bool {
    97 <= c <= 122
}

/// A letter.
pub open spec fn is_alpha(c: int) -> bool {
    is_upper(c) || is_lower(c)
}

/// `'0'..='9'`.
pub open spec fn is_digit(c: int) -> bool {
    48 <= c <= 57
}

/// A letter or a digit.
pub open spec fn is_alnum(c: int) -> bool {
    is_alpha(c) || is_digit(c)
}

/// A hexadecimal digit: a digit, `'a'..='f'` or `'A'..='F'`.
pub open spec fn is_xdigit(c: int) -> bool {
    is_digit(c) || 97 <= c <= 102 || 65 <= c <= 70
}

/// Space, tab, newline, carriage return, vertical tab or form feed.
pub open spec fn is_space(c: int) -> bool {
    c == 32 || c == 9 || c == 10 || c == 13 || c == 11 || c == 12
}

/// Space or tab.
pub open spec fn is_blank(c: int) -> bool {
    c == 32 || c == 9
}

/// A control character: `0..=31` or `127`.
pub open spec fn is_cntrl(c: int) -> bool {
    0 <= c <= 31 || c == 127
}

/// A printing character other than space: `33..=126`.
pub open spec fn is_graph(c: int) -> bool {
    33 <= c <= 126
}

/// A printing character: space or a graphic one.
pub open spec fn is_print(c: int) -> bool {
    c == 32 || is_graph(c)
}

/// A graphic character that is neither a letter nor a digit.
pub open spec fn is_punct(c: int) -> bool {
    is_graph(c) && !is_alnum(c)
}

/// A seven-bit value.
pub open spec fn is_ascii(c: int) -> bool {
    0 <= c <= 127
}

/// The lower-case counterpart of an upper-case letter; other values are
/// unchanged.
pub open spec fn lower_of(c: int) -> int {
    if is_upper(c) {
        c + 32
    } else {
        c
    }
}

/// The upper-case counterpart of a lower-case letter; other values are
/// unchanged.
pub open spec fn upper_of(c: int) -> int {
    if is_lower(c) {
        c - 32
    } else {
        c
    }
}

/// `1` when `c` is a letter or a digit.
pub fn isalnum(c: i32) -> (r: i32)
    ensures
        r == truth(is_alnum(c as int)),
{
    if isdigit(c) != 0 || isalpha(c) != 0 {
        1
    } else {
        0
    }
}

/// `1` when `c` is a letter.
pub fn isalpha(c: i32) -> (r: i32)
    ensures
        r == truth(is_alpha(c as int)),
{
    if isupper(c) != 0 || islower(c) != 0 {
        1
    } else {
        0
    }
}

/// `1` when `c` is in `0..=127`.
pub fn isascii(c: i32) -> (r: i32)
    ensures
        r == truth(is_ascii(c as int)),
{
    if 0 <= c && c <= 127 {
        1
    } else {
        0
    }
}

/// `1` when `c` is a space or a tab.
pub fn isblank(c: i32) -> (r: i32)
    ensures
        r == truth(is_blank(c as int)),
{
    if c == 32 || c == 9 {
        1
    } else {
        0
    }
}

/// `1` when `c` is a control character.
pub fn iscntrl(c: i32) -> (r: i32)
    ensures
        r == truth(is_cntrl(c as int)),
{
    if (0 <= c && c <= 31) || c == 127 {
        1
    } else {
        0
    }
}

/// `1` when `c` is a decimal digit.
pub fn isdigit(c: i32) -> (r: i32)
    ensures
        r == truth(is_digit(c as int)),
{
    if 48 <= c && c <= 57 {
        1
    } else {
        0
    }
}

/// `1` when `c` is a printing character other than space.
pub fn isgraph(c: i32) -> (r: i32)
    ensures
        r == truth(is_graph(c as int)),
{
    if 33 <= c && c <= 126 {
        1
    } else {
        0
    }
}

/// `1` when `c` is a lower-case letter.
pub fn islower(c: i32) -> (r: i32)
    ensures
        r == truth(is_lower(c as int)),
{
    if 97 <= c && c <= 122 {
        1
    } else {
        0
    }
}

/// `1` when `c` is a printing character.
pub fn isprint(c: i32) -> (r: i32)
    ensures
        r == truth(is_print(c as int)),
{
    if c == 32 || isgraph(c) != 0 {
        1
    } else {
        0
    }
}

/// `1` when `c` is a graphic character that is neither a letter nor a digit.
pub fn ispunct(c: i32) -> (r: i32)
    ensures
        r == truth(is_punct(c as int)),
{
    if isgraph(c) != 0 && isalnum(c) == 0 {
        1
    } else {
        0
    }
}

/// `1` when `c` is white space.
pub fn isspace(c: i32) -> (r: i32)
    ensures
        r == truth(is_space(c as int)),
        r == 1 <==> (c == 32 || (9 <= c && c <= 13)),
        r == 0 || r == 1,
{
    let is_space = c == 32 || c == 9 || c == 10 || c == 13 || c == 0x0b || c == 0x0c;
    if is_space {
        1
    } else {
        0
    }
}

/// `1` when `c` is an upper-case letter.
pub fn isupper(c: i32) -> (r: i32)
    ensures
        r == truth(is_upper(c as int)),
{
    if 65 <= c && c <= 90 {
        1
    } else {
        0
    }
}

/// The bit that tells the two cases of an ASCII letter apart.
pub const ALPHA_CASE_BIT: i32 = 0x20;

/// `1` when `c` is a hexadecimal digit.
pub fn isxdigit(c: i32) -> (r: i32)
    ensures
        r == truth(is_xdigit(c as int)),
{
    let lowered_unchecked = c | ALPHA_CASE_BIT;
    assert((97 <= (c | 0x20i32) && (c | 0x20i32) <= 102) <==> ((97 <= c && c <= 102) || (65 <= c
        && c <= 70))) by (bit_vector);
    if isdigit(c) != 0 || (97 <= lowered_unchecked && lowered_unchecked <= 102) {
        1
    } else {
        0
    }
}

/// The lower-case counterpart of an upper-case letter; other values are
/// returned unchanged.
pub fn tolower(c: i32) -> (r: i32)
    ensures
        r == lower_of(c as int),
{
    if isupper(c) != 0 {
        assert(65 <= c && c <= 90 ==> c | 0x20i32 == c + 32) by (bit_vector);
        c | ALPHA_CASE_BIT
    } else {
        c
    }
}

/// The upper-case counterpart of a lower-case letter; other values are
/// returned unchanged.
pub fn toupper(c: i32) -> (r: i32)
    ensures
        r == upper_of(c as int),
{
    if islower(c) != 0 {
        assert(97 <= c && c <= 122 ==> c & !0x20i32 == c - 32) by (bit_vector);
        c & !ALPHA_CASE_BIT
    } else {
        c
    }
}

/// The class mask of `c` in the layout of the LSB `__ctype_b_loc` table,
/// written as a big-endian value: bit 0 upper, 1 lower, 2 alpha, 3 digit,
/// 4 xdigit, 5 space, 6 print, 7 graph, 8 blank, 9 cntrl, 10 punct,
/// 11 alnum.
pub open spec fn class_bits(c: int) -> int {
    (if is_upper(c) { 1int } else { 0 }) + (if is_lower(c) { 2int } else { 0 }) + (if is_alpha(c) {
        4int
    } else {
        0
    }) + (if is_digit(c) { 8int } else { 0 }) + (if is_xdigit(c) { 16int } else { 0 }) + (
    if is_space(c) {
        32int
    } else {
        0
    }) + (if is_print(c) { 64int } else { 0 }) + (if is_graph(c) { 128int } else { 0 }) + (
    if is_blank(c) {
        256int
    } else {
        0
    }) + (if is_cntrl(c) { 512int } else { 0 }) + (if is_punct(c) { 1024int } else { 0 }) + (
    if is_alnum(c) {
        2048int
    } else {
        0
    })
}

/// The entry for `c`, in `-128..256`, of the LSB class table, in big-endian
/// layout.
pub fn ctype_b_entry(c: i32) -> (r: u16)
    requires
        -128 <= c < 256,
    ensures
        r == class_bits(c as int),
        (r / 32) % 2 == 1 <==> (c == 32 || (9 <= c && c <= 13)),
{
    let mut bits: u16 = 0;
    if isupper(c) != 0 {
        bits = bits + 1;
    }
    if islower(c) != 0 {
        bits = bits + 2;
    }
    if isalpha(c) != 0 {
        bits = bits + 4;
    }
    if isdigit(c) != 0 {
        bits = bits + 8;
    }
    if isxdigit(c) != 0 {
        bits = bits + 16;
    }
    if isspace(c) != 0 {
        bits = bits + 32;
    }
    if isprint(c) != 0 {
        bits = bits + 64;
    }
    if isgraph(c) != 0 {
        bits = bits + 128;
    }
    if isblank(c) != 0 {
        bits = bits + 256;
    }
    if iscntrl(c) != 0 {
        bits = bits + 512;
    }
    if ispunct(c) != 0 {
        bits = bits + 1024;
    }
    if isalnum(c) != 0 {
        bits = bits + 2048;
    }
    bits
}

/// The entry for `c`, in `-128..256`, of the LSB lower-case table: the
/// lower-case counterpart for seven-bit values, `0` elsewhere.
pub fn tolower_entry(c: i32) -> (r: i32)
    requires
        -128 <= c < 256,
    ensures
        r == (if is_ascii(c as int) { lower_of(c as int) } else { 0 }),
{
    if isascii(c) != 0 {
        tolower(c)
    } else {
        0
    }
}

/// The entry for `c`, in `-128..256`, of the LSB upper-case table: the
/// upper-case counterpart for seven-bit values, `0` elsewhere.
pub fn toupper_entry(c: i32) -> (r: i32)
    requires
        -128 <= c < 256,
    ensures
        r == (if is_ascii(c as int) { upper_of(c as int) } else { 0 }),
{
    if isascii(c) != 0 {
        toupper(c)
    } else {
        0
    }
}

/// Case round trips: converting to one case and then to the other gives the
/// same as converting to the other directly, and each conversion is
/// idempotent. Only the letters `A..Z` and `a..z` change, each to the
/// letter 32 places away.
pub proof fn lemma_case_round_trip(c: int)
    ensures
        lower_of(upper_of(c)) == lower_of(c),
        upper_of(lower_of(c)) == upper_of(c),
        lower_of(lower_of(c)) == lower_of(c),
        upper_of(upper_of(c)) == upper_of(c),
        is_upper(c) ==> upper_of(lower_of(c)) == c,
        is_lower(c) ==> lower_of(upper_of(c)) == c,
        (65 <= c <= 90) ==> lower_of(c) == c + 32,
        !(65 <= c <= 90) ==> lower_of(c) == c,
        (97 <= c <= 122) ==> upper_of(c) == c - 32,
        !(97 <= c <= 122) ==> upper_of(c) == c,
{
}

/// The classes of the "C" locale by their members: white space is space and
/// the five control characters tab, newline, vertical tab, form feed and
/// carriage return (`9..=13`); blanks are space and tab; control characters
/// are `0..=31` and `127`; punctuation is the four runs of ASCII symbols
/// `!` to `/`, `:` to `@`, `[` to the backquote and `{` to `~`; nothing
/// outside `0..=127` is in any class.
pub proof fn lemma_class_members(c: int)
    ensures
        is_space(c) <==> c == 32 || (9 <= c <= 13),
        is_blank(c) <==> c == 32 || c == 9,
        is_cntrl(c) <==> (0 <= c < 32) || c == 127,
        is_punct(c) <==> (33 <= c <= 47) || (58 <= c <= 64) || (91 <= c <= 96) || (123 <= c <= 126),
        is_xdigit(c) <==> (48 <= c <= 57) || (65 <= c <= 70) || (97 <= c <= 102),
        is_alnum(c) <==> (48 <= c <= 57) || (65 <= c <= 90) || (97 <= c <= 122),
        is_print(c) <==> 32 <= c <= 126,
        !is_ascii(c) ==> !is_space(c) && !is_cntrl(c) && !is_print(c) && !is_alnum(c),
        is_upper(c) <==> 65 <= c <= 90,
        is_lower(c) <==> 97 <= c <= 122,
        is_digit(c) <==> 48 <= c <= 57,
{
}

/// Class relations: the alphanumerics are the letters and the digits, the
/// graphic characters split into alphanumerics and punctuation, the printing
/// characters are the graphic ones and space, and no control character
/// prints.
pub proof fn lemma_class_relations(c: int)
    ensures
        is_alnum(c) <==> is_alpha(c) || is_digit(c),
        is_graph(c) <==> is_alnum(c) || is_punct(c),
        is_print(c) <==> is_graph(c) || c == 32,
        is_cntrl(c) ==> !is_print(c),
        is_digit(c) ==> is_xdigit(c),
        is_blank(c) ==> is_space(c),
        is_alpha(c) ==> is_ascii(c) && is_graph(c),
{
}

} // verus!
