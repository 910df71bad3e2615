//! Text that the C entry points print or copy out: C strings quoted as
//! Rust's `{:?}` shows them, the lines of `perror` and of a failed
//! assertion, and the bytes that `snprintf` stores.

use vstd::prelude::*;
use crate::errno::{format_decimal, signed_decimal};

verus! {

/// The lowercase hexadecimal digit of `n`, for `n < 16`.
pub open spec fn hex_digit(n: int) -> u8 {
    if n < 10 {
        (48 + n) as u8
    } else {
        (87 + n) as u8
    }
}

/// The escape of one byte, as `core::ascii::escape_default` gives it: `\t`,
/// `\r`, `\n`, `\\`, `\'` and `\"` for those six, the byte itself for the
/// other printable ASCII bytes, `\xNN` in lowercase hexadecimal for the rest.
pub open spec fn escape_byte(b: u8) -> Seq<u8> {
    if b == 9 {
        seq![92u8, 116u8]
    } else if b == 13 {
        seq![92u8, 114u8]
    } else if b == 10 {
        seq![92u8, 110u8]
    } else if b == 92 {
        seq![92u8, 92u8]
    } else if b == 39 {
        seq![92u8, 39u8]
    } else if b == 34 {
        seq![92u8, 34u8]
    } else if 0x20 <= b <= 0x7e {
        seq![b]
    } else {
        seq![92u8, 120u8, hex_digit(b as int / 16), hex_digit(b as int % 16)]
    }
}

/// The escapes of the bytes of `s`, one after the other.
pub open spec fn escape_all(s: Seq<u8>) -> Seq<u8>
    decreases s.len(),
{
    if s.len() == 0 {
        Seq::empty()
    } else {
        escape_all(s.drop_last()) + escape_byte(s.last())
    }
}

/// A C string as `{:?}` shows it: its escaped bytes between double quotes.
pub open spec fn quoted(s: Seq<u8>) -> Seq<u8> {
    seq![34u8] + escape_all(s) + seq![34u8]
}

fn hex(n: u8) -> (r: u8)
    requires
        n < 16,
    ensures
        r == hex_digit(n as int),
{
    if n < 10 {
        48 + n
    } else {
        87 + n
    }
}

fn push_escape(out: &mut Vec<u8>, b: u8)
    ensures
        final(out)@ == old(out)@ + escape_byte(b),
{
    let ghost start = out@;
    if b == 9 {
        out.push(92);
        out.push(116);
    } else if b == 13 {
        out.push(92);
        out.push(114);
    } else if b == 10 {
        out.push(92);
        out.push(110);
    } else if b == 92 {
        out.push(92);
        out.push(92);
    } else if b == 39 {
        out.push(92);
        out.push(39);
    } else if b == 34 {
        out.push(92);
        out.push(34);
    } else if 0x20 <= b && b <= 0x7e {
        out.push(b);
    } else {
        out.push(92);
        out.push(120);
        out.push(hex(b / 16));
        out.push(hex(b % 16));
    }
    assert(out@ =~= start + escape_byte(b));
}

fn push_bytes(out: &mut Vec<u8>, s: &[u8])
    ensures
        final(out)@ == old(out)@ + s@,
{
    let ghost start = out@;
    let mut i: usize = 0;
    while i < s.len()
        invariant
            i <= s@.len(),
            out@ =~= start + s@.take(i as int),
        decreases s@.len() - i,
    {
        out.push(s[i]);
        i += 1;
    }
    assert(s@.take(s@.len() as int) =~= s@);
}

fn push_quoted(out: &mut Vec<u8>, s: &[u8])
    ensures
        final(out)@ == old(out)@ + quoted(s@),
{
    let ghost start = out@;
    out.push(34);
    let mut i: usize = 0;
    while i < s.len()
        invariant
            i <= s@.len(),
            out@ =~= start + seq![34u8] + escape_all(s@.take(i as int)),
        decreases s@.len() - i,
    {
        assert(s@.take(i + 1).drop_last() =~= s@.take(i as int));
        push_escape(out, s[i]);
        i += 1;
    }
    assert(s@.take(s@.len() as int) =~= s@);
    out.push(34);
    assert(out@ =~= start + quoted(s@));
}

/// The C string `s` quoted as `{:?}` shows it.
pub fn debug_cstr(s: &[u8]) -> (r: Vec<u8>)
    ensures
        r@ == quoted(s@),
{
    let mut out: Vec<u8> = Vec::new();
    push_quoted(&mut out, s);
    assert(out@ =~= quoted(s@));
    out
}

/// The bytes `": "`.
pub open spec fn colon_space() -> Seq<u8> {
    seq![58u8, 32u8]
}

/// The line that `perror` writes to standard error: the quoted error
/// message, after the quoted user message and `": "` when that is not
/// empty, and a newline.
pub open spec fn perror_text(user: Seq<u8>, message: Seq<u8>) -> Seq<u8> {
    if user.len() == 0 {
        quoted(message).push(10u8)
    } else {
        (quoted(user) + colon_space() + quoted(message)).push(10u8)
    }
}

/// The line that `perror` writes for the user message `user` (empty when
/// the caller passed none) and the message of the current `errno`.
pub fn perror_line(user: &[u8], message: &[u8]) -> (r: Vec<u8>)
    ensures
        r@ == perror_text(user@, message@),
{
    let mut out: Vec<u8> = Vec::new();
    if user.len() > 0 {
        push_quoted(&mut out, user);
        out.push(58);
        out.push(32);
    }
    push_quoted(&mut out, message);
    out.push(10);
    assert(out@ =~= perror_text(user@, message@));
    out
}

/// The bytes `"Assertion failed: "`.
pub open spec fn assertion_failed_prefix() -> Seq<u8> {
    seq![65u8, 115, 115, 101, 114, 116, 105, 111, 110, 32, 102, 97, 105, 108, 101, 100, 58, 32]
}

/// The line that `__assert_fail` writes to standard error before it aborts.
pub open spec fn assert_fail_text(expr: Seq<u8>, file: Seq<u8>, line: int, func: Seq<u8>) -> Seq<u8> {
    (assertion_failed_prefix() + quoted(expr) + seq![32u8, 40u8] + quoted(file) + seq![58u8]
        + signed_decimal(line) + colon_space() + quoted(func) + seq![41u8]).push(10u8)
}

/// The line that `__assert_fail` writes: the failed expression, where it
/// stands and in which function.
pub fn assert_fail_line(expr: &[u8], file: &[u8], line: i32, func: &[u8]) -> (r: Vec<u8>)
    ensures
        r@ == assert_fail_text(expr@, file@, line as int, func@),
{
    let prefix: [u8; 18] = [65, 115, 115, 101, 114, 116, 105, 111, 110, 32, 102, 97, 105, 108, 101, 100, 58, 32];
    assert(prefix@ =~= assertion_failed_prefix());
    let mut out: Vec<u8> = Vec::new();
    push_bytes(&mut out, &prefix);
    push_quoted(&mut out, expr);
    out.push(32);
    out.push(40);
    push_quoted(&mut out, file);
    out.push(58);
    let digits = format_decimal(line);
    push_bytes(&mut out, digits.as_slice());
    out.push(58);
    out.push(32);
    push_quoted(&mut out, func);
    out.push(41);
    out.push(10);
    assert(out@ =~= assert_fail_text(expr@, file@, line as int, func@));
    out
}

/// The bytes that `snprintf` stores into a buffer of `len` bytes, given the
/// formatted output and the count that formatting returned: the output and
/// its NUL, cut to the buffer; nothing when formatting failed.
pub open spec fn snprintf_stored(out: Seq<u8>, num_bytes: int, len: int) -> Seq<u8> {
    if num_bytes >= 0 {
        out.push(0u8).take(if num_bytes + 1 <= len { num_bytes + 1 } else { len })
    } else {
        Seq::empty()
    }
}

/// The bytes that `snprintf` stores; what it returns is `num_bytes`.
pub fn snprintf_copy(out: &[u8], num_bytes: i32, len: usize) -> (r: Vec<u8>)
    requires
        num_bytes >= 0 ==> out@.len() == num_bytes,
    ensures
        r@ == snprintf_stored(out@, num_bytes as int, len as int),
{
    let mut stored: Vec<u8> = Vec::new();
    if num_bytes < 0 {
        return stored;
    }
    let n: usize = out.len();
    let count: usize = if n < len {
        n + 1
    } else {
        len
    };
    let ghost full = out@.push(0u8);
    let mut i: usize = 0;
    while i < count
        invariant
            i <= count,
            count <= n + 1,
            n == out@.len(),
            full == out@.push(0u8),
            stored@ =~= full.take(i as int),
        decreases count - i,
    {
        if i < n {
            stored.push(out[i]);
        } else {
            stored.push(0u8);
        }
        i += 1;
    }
    stored
}

/// Whether every byte of `s` is printable ASCII other than a quote or a
/// backslash.
pub open spec fn plain_text(s: Seq<u8>) -> bool {
    forall|i: int|
        0 <= i < s.len() ==> 0x20 <= #[trigger] s[i] <= 0x7e && s[i] != 34 && s[i] != 39 && s[i]
            != 92
}

proof fn lemma_escape_plain(s: Seq<u8>)
    requires
        plain_text(s),
    ensures
        escape_all(s) == s,
    decreases s.len(),
{
    if s.len() > 0 {
        let t = s.drop_last();
        assert forall|i: int| 0 <= i < t.len() implies 0x20 <= #[trigger] t[i] <= 0x7e && t[i]
            != 34 && t[i] != 39 && t[i] != 92 by {
            assert(t[i] == s[i]);
        }
        lemma_escape_plain(t);
        let b = s[s.len() - 1];
        assert(0x20 <= b <= 0x7e && b != 34 && b != 39 && b != 92);
        assert(escape_byte(b) == seq![b]);
        assert(escape_all(s) =~= s);
    } else {
        assert(escape_all(s) =~= s);
    }
}

/// A C string of printable ASCII bytes, none of them a quote or a
/// backslash, is shown by `{:?}` as itself between double quotes.
pub proof fn lemma_plain_quoted(s: Seq<u8>)
    requires
        plain_text(s),
    ensures
        quoted(s) == seq![34u8] + s + seq![34u8],
{
    lemma_escape_plain(s);
}

/// What `snprintf` stores never runs past the buffer, and when the buffer
/// has room for the output and its NUL, it holds exactly those.
pub proof fn lemma_snprintf_fits(out: Seq<u8>, num_bytes: int, len: int)
    requires
        num_bytes >= 0,
        out.len() == num_bytes,
        len >= 0,
    ensures
        snprintf_stored(out, num_bytes, len).len() <= len,
        num_bytes < len ==> snprintf_stored(out, num_bytes, len) == out.push(0u8),
{
    assert(out.push(0u8).take(num_bytes + 1) =~= out.push(0u8));
}

} // verus!
