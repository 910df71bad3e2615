//! Error messages: `strerror` and its reentrant form.

use vstd::prelude::*;
use crate::data::ERANGE;

verus! {

/// The decimal digits of `n`, most significant first, `0` for zero.
pub open spec fn decimal(n: nat) -> Seq<u8>
    decreases n,
{
    if n < 10 {
        seq![(48 + n) as u8]
    } else {
        decimal(n / 10).push((48 + n % 10) as u8)
    }
}

/// The decimal form of `n`, with a leading `-` when it is negative.
pub open spec fn signed_decimal(n: int) -> Seq<u8> {
    if n < 0 {
        seq![45u8] + decimal((-n) as nat)
    } else {
        decimal(n as nat)
    }
}

/// The decimal digits of `n`.
fn digits_of(n: u64) -> (r: Vec<u8>)
    ensures
        r@ == decimal(n as nat),
    decreases n,
{
    if n < 10 {
        let mut v: Vec<u8> = Vec::new();
        v.push((48 + n) as u8);
        v
    } else {
        let mut v = digits_of(n / 10);
        v.push((48 + n % 10) as u8);
        v
    }
}

/// The decimal form of `n`, as Rust's `{}` formats an integer.
pub fn format_decimal(n: i32) -> (r: Vec<u8>)
    ensures
        r@ == signed_decimal(n as int),
{
    if n < 0 {
        let m: i64 = n as i64;
        let mut v: Vec<u8> = Vec::new();
        v.push(45u8);
        let d = digits_of((-m) as u64);
        v.extend_from_slice(d.as_slice());
        assert(v@ =~= seq![45u8] + decimal((-(n as int)) as nat));
        v
    } else {
        digits_of(n as u64)
    }
}

/// `Unknown error ` followed by the number.
pub open spec fn unknown_error_message(errnum: int) -> Seq<u8> {
    seq![85u8, 110, 107, 110, 111, 119, 110, 32, 101, 114, 114, 111, 114, 32] + signed_decimal(errnum)
}

/// The message for `errnum`: its known description, or `Unknown error`
/// with the number.
pub fn strerror_message(known: Option<&[u8]>, errnum: i32) -> (r: Vec<u8>)
    ensures
        r@ == (match known {
            Some(m) => m@,
            None => unknown_error_message(errnum as int),
        }),
{
    match known {
        Some(m) => {
            let mut v: Vec<u8> = Vec::new();
            v.extend_from_slice(m);
            v
        },
        None => {
            let prefix: [u8; 14] = [85, 110, 107, 110, 111, 119, 110, 32, 101, 114, 114, 111, 114, 32];
            let mut v: Vec<u8> = Vec::new();
            v.extend_from_slice(&prefix);
            let d = format_decimal(errnum);
            v.extend_from_slice(d.as_slice());
            assert(v@ =~= unknown_error_message(errnum as int));
            v
        },
    }
}

/// The bytes that `strerror_r` writes for `message` into a buffer of
/// `buflen` bytes: as much of the message as fits before a terminating NUL;
/// an empty buffer is refused with `ERANGE`.
pub fn xpg_strerror_r(message: &[u8], buflen: usize) -> (r: Result<Vec<u8>, i32>)
    ensures
        buflen == 0 ==> r == Err::<Vec<u8>, i32>(ERANGE),
        buflen > 0 ==> (r matches Ok(b) && b@ == message@.take(
            if buflen - 1 < message@.len() {
                buflen - 1
            } else {
                message@.len() as int
            },
        ).push(0u8)),
{
    if buflen == 0 {
        return Err(ERANGE);
    }
    let n = if buflen - 1 < message.len() {
        buflen - 1
    } else {
        message.len()
    };
    let mut b: Vec<u8> = Vec::new();
    let mut i: usize = 0;
    while i < n
        invariant
            i <= n,
            n <= message@.len(),
            b@ == message@.take(i as int),
        decreases n - i,
    {
        b.push(message[i]);
        i += 1;
        assert(b@ =~= message@.take(i as int));
    }
    b.push(0u8);
    Ok(b)
}

} // verus!
