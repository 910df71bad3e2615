//! Memory and string routines over byte buffers.

use vstd::prelude::*;

verus! {

/// The three-way comparison of `a` and `b` from position `i` up to `len`:
/// the first differing byte decides, `0` when there is none.
pub open spec fn compare_from(a: Seq<u8>, b: Seq<u8>, i: int, len: int) -> int
    decreases len - i,
{
    if i >= len {
        0
    } else if a[i] < b[i] {
        -1
    } else if a[i] > b[i] {
        1
    } else {
        compare_from(a, b, i + 1, len)
    }
}

/// [`compare_from`] over the positions `i..len` given as machine integers.
pub open spec fn order_between(a: Seq<u8>, b: Seq<u8>, i: usize, len: usize) -> int {
    compare_from(a, b, i as int, len as int)
}

/// The buffer `old` after the `len` bytes starting at `src` were copied to
/// the position `dst`, as if through a temporary buffer.
pub open spec fn moved(old: Seq<u8>, dst: int, src: int, len: int) -> Seq<u8> {
    Seq::new(old.len(), |p: int| if dst <= p < dst + len { old[src + (p - dst)] } else { old[p] })
}

/// Index of the first occurrence of the byte `c as u8` among the first `len`
/// bytes of `s`.
pub fn memchr(s: &[u8], c: i32, len: usize) -> (r: Option<usize>)
    requires
        len <= s@.len(),
    ensures
        match r {
            Some(i) => i < len && s@[i as int] == c as u8 && forall|j: int|
                0 <= j < i ==> s@[j] != c as u8,
            None => forall|j: int| 0 <= j < len ==> s@[j] != c as u8,
        },
{
    let byte = c as u8;
    let mut i: usize = 0;
    while i < len
        invariant
            i <= len,
            len <= s@.len(),
            byte == c as u8,
            forall|j: int| 0 <= j < i ==> s@[j] != byte,
        decreases len - i,
    {
        if s[i] == byte {
            return Some(i);
        }
        i += 1;
    }
    None
}

/// Index of the last occurrence of the byte `c as u8` among the first `len`
/// bytes of `s`.
pub fn memrchr(s: &[u8], c: i32, len: usize) -> (r: Option<usize>)
    requires
        len <= s@.len(),
    ensures
        match r {
            Some(i) => i < len && s@[i as int] == c as u8 && forall|j: int|
                i < j < len ==> s@[j] != c as u8,
            None => forall|j: int| 0 <= j < len ==> s@[j] != c as u8,
        },
{
    let byte = c as u8;
    let mut i: usize = 0;
    while i < len
        invariant
            i <= len,
            len <= s@.len(),
            byte == c as u8,
            forall|j: int| len - i <= j < len ==> s@[j] != byte,
        decreases len - i,
    {
        if s[len - i - 1] == byte {
            return Some(len - i - 1);
        }
        i += 1;
    }
    None
}

/// Compares the first `len` bytes of `a` and `b` as unsigned bytes:
/// `-1`, `0` or `1` as the first differing byte of `a` is smaller or larger.
pub fn memcmp(a: &[u8], b: &[u8], len: usize) -> (r: i32)
    requires
        len <= a@.len(),
        len <= b@.len(),
    ensures
        r == order_between(a@, b@, 0, len),
        forall|j: int|
            0 <= j < len && a@[j] != b@[j] && (forall|k: int| 0 <= k < j ==> a@[k] == b@[k]) ==> r
                == (if a@[j] < b@[j] { -1int } else { 1int }),
        r == 0 <==> forall|j: int| 0 <= j < len ==> a@[j] == b@[j],
{
    proof {
        lemma_order_decided(a@, b@, len);
    }
    let mut i: usize = 0;
    while i < len
        invariant
            i <= len,
            len <= a@.len(),
            len <= b@.len(),
            order_between(a@, b@, 0, len) == order_between(a@, b@, i, len),
            forall|j: int|
                0 <= j < len && a@[j] != b@[j] && (forall|k: int| 0 <= k < j ==> a@[k] == b@[k]) ==>
                    order_between(a@, b@, 0, len) == (if a@[j] < b@[j] { -1int } else { 1int }),
            order_between(a@, b@, 0, len) == 0 <==> forall|j: int| 0 <= j < len ==> a@[j] == b@[j],
        decreases len - i,
    {
        if a[i] < b[i] {
            return -1;
        } else if a[i] > b[i] {
            return 1;
        }
        i += 1;
    }
    0
}

/// The same comparison as [`memcmp`].
pub fn bcmp(a: &[u8], b: &[u8], len: usize) -> (r: i32)
    requires
        len <= a@.len(),
        len <= b@.len(),
    ensures
        r == order_between(a@, b@, 0, len),
        forall|j: int|
            0 <= j < len && a@[j] != b@[j] && (forall|k: int| 0 <= k < j ==> a@[k] == b@[k]) ==> r
                == (if a@[j] < b@[j] { -1int } else { 1int }),
        r == 0 <==> forall|j: int| 0 <= j < len ==> a@[j] == b@[j],
{
    memcmp(a, b, len)
}

/// Copies the first `len` bytes of `src` to the start of `dst`.
pub fn memcpy(dst: &mut Vec<u8>, src: &[u8], len: usize)
    requires
        len <= old(dst)@.len(),
        len <= src@.len(),
    ensures
        final(dst)@ == src@.take(len as int) + old(dst)@.skip(len as int),
{
    let mut i: usize = 0;
    while i != len
        invariant
            i <= len,
            len <= src@.len(),
            dst@.len() == old(dst)@.len(),
            len <= dst@.len(),
            forall|p: int| 0 <= p < i ==> dst@[p] == src@[p],
            forall|p: int| i <= p < dst@.len() ==> dst@[p] == old(dst)@[p],
        decreases len - i,
    {
        dst[i] = src[i];
        i += 1;
    }
    assert(dst@ =~= src@.take(len as int) + old(dst)@.skip(len as int));
}

/// Copies `len` bytes inside `buf` from `src` to `dst`, front to back; the
/// result is that of a plain copy whenever the destination does not start
/// inside the source.
pub fn memcpy_forward(buf: &mut Vec<u8>, dst: usize, src: usize, len: usize)
    requires
        dst + len <= old(buf)@.len(),
        src + len <= old(buf)@.len(),
        dst <= src || src + len <= dst,
    ensures
        final(buf)@ == moved(old(buf)@, dst as int, src as int, len as int),
{
    let ghost orig = buf@;
    let n = buf.len();
    let mut i: usize = 0;
    while i != len
        invariant
            i <= len,
            n == orig.len(),
            dst + len <= orig.len(),
            src + len <= orig.len(),
            dst <= src || src + len <= dst,
            buf@.len() == orig.len(),
            forall|p: int|
                0 <= p < orig.len() ==> #[trigger] buf@[p] == (if dst <= p < dst + i {
                    orig[src + (p - dst)]
                } else {
                    orig[p]
                }),
        decreases len - i,
    {
        let b = buf[src + i];
        buf[dst + i] = b;
        i += 1;
    }
    assert(buf@ =~= moved(orig, dst as int, src as int, len as int));
}

/// Copies `len` bytes inside `buf` from `src` to `dst`, back to front; the
/// result is that of a plain copy whenever the source does not start inside
/// the destination.
pub fn memcpy_backward(buf: &mut Vec<u8>, dst: usize, src: usize, len: usize)
    requires
        dst + len <= old(buf)@.len(),
        src + len <= old(buf)@.len(),
        src <= dst || dst + len <= src,
    ensures
        final(buf)@ == moved(old(buf)@, dst as int, src as int, len as int),
{
    let ghost orig = buf@;
    let n = buf.len();
    let mut i: usize = 0;
    while i != len
        invariant
            i <= len,
            n == orig.len(),
            dst + len <= orig.len(),
            src + len <= orig.len(),
            src <= dst || dst + len <= src,
            buf@.len() == orig.len(),
            forall|p: int|
                0 <= p < orig.len() ==> #[trigger] buf@[p] == (if dst + len - i <= p < dst + len {
                    orig[src + (p - dst)]
                } else {
                    orig[p]
                }),
        decreases len - i,
    {
        let b = buf[src + len - i - 1];
        buf[dst + len - i - 1] = b;
        i += 1;
    }
    assert(buf@ =~= moved(orig, dst as int, src as int, len as int));
}

/// Copies `len` bytes inside `buf` from `src` to `dst`; the two ranges may
/// overlap.
pub fn memmove(buf: &mut Vec<u8>, dst: usize, src: usize, len: usize)
    requires
        dst + len <= old(buf)@.len(),
        src + len <= old(buf)@.len(),
    ensures
        final(buf)@ == moved(old(buf)@, dst as int, src as int, len as int),
{
    if dst < src {
        memcpy_forward(buf, dst, src, len);
    } else {
        memcpy_backward(buf, dst, src, len);
    }
}

/// Sets the first `len` bytes of `dst` to `fill as u8`.
pub fn memset(dst: &mut Vec<u8>, fill: i32, len: usize)
    requires
        len <= old(dst)@.len(),
    ensures
        final(dst)@.len() == old(dst)@.len(),
        forall|p: int| 0 <= p < len ==> final(dst)@[p] == fill as u8,
        forall|p: int| len <= p < old(dst)@.len() ==> final(dst)@[p] == old(dst)@[p],
{
    let byte = fill as u8;
    let mut i: usize = 0;
    while i != len
        invariant
            i <= len,
            len <= dst@.len(),
            byte == fill as u8,
            dst@.len() == old(dst)@.len(),
            forall|p: int| 0 <= p < i ==> dst@[p] == byte,
            forall|p: int| i <= p < dst@.len() ==> dst@[p] == old(dst)@[p],
        decreases len - i,
    {
        dst[i] = byte;
        i += 1;
    }
}

/// Length of the NUL-terminated string at the start of `s`: the index of
/// its first zero byte.
pub fn strlen(s: &[u8]) -> (r: usize)
    requires
        exists|i: int| 0 <= i < s@.len() && s@[i] == 0,
    ensures
        r < s@.len(),
        s@[r as int] == 0,
        forall|j: int| 0 <= j < r ==> s@[j] != 0,
{
    let mut len: usize = 0;
    while s[len] != 0
        invariant
            len < s@.len(),
            exists|i: int| len <= i < s@.len() && s@[i] == 0,
            forall|j: int| 0 <= j < len ==> s@[j] != 0,
        decreases s@.len() - len,
    {
        len += 1;
    }
    len
}

/// Comparison laws: the result is `-1`, `0` or `1`; swapping the operands
/// negates it; it is `0` exactly when the compared bytes are equal.
pub proof fn lemma_compare_laws(a: Seq<u8>, b: Seq<u8>, i: int, len: int)
    requires
        0 <= i,
        len <= a.len(),
        len <= b.len(),
    ensures
        compare_from(a, b, i, len) == -1 || compare_from(a, b, i, len) == 0 || compare_from(
            a,
            b,
            i,
            len,
        ) == 1,
        compare_from(a, b, i, len) == -compare_from(b, a, i, len),
        compare_from(a, b, i, len) == 0 <==> forall|j: int| i <= j < len ==> a[j] == b[j],
        compare_from(a, a, i, len) == 0,
    decreases len - i,
{
    if i < len {
        lemma_compare_laws(a, b, i + 1, len);
        lemma_compare_laws(a, a, i + 1, len);
        if a[i] == b[i] && compare_from(a, b, i + 1, len) != 0 {
            let j = choose|j: int| i + 1 <= j < len && a[j] != b[j];
            assert(i <= j < len && a[j] != b[j]);
        }
    }
}

/// The first difference decides, by unsigned byte value: where `a` and `b`
/// agree before position `j` and differ at `j`, the comparison from `i` is
/// `-1` when the byte of `a` is the smaller one as a number in `0..=255`
/// (`u8`, so `0xe9` is above `0x65`), `1` when it is the larger one.
pub proof fn lemma_first_difference_decides(a: Seq<u8>, b: Seq<u8>, i: int, len: int, j: int)
    requires
        i <= j < len,
        a[j] != b[j],
        forall|k: int| i <= k < j ==> a[k] == b[k],
    ensures
        compare_from(a, b, i, len) == (if a[j] < b[j] { -1int } else { 1int }),
    decreases j - i,
{
    if i < j {
        lemma_first_difference_decides(a, b, i + 1, len, j);
    }
}

/// [`lemma_first_difference_decides`] and [`lemma_compare_laws`] for the
/// comparison of the first `len` bytes.
pub proof fn lemma_order_decided(a: Seq<u8>, b: Seq<u8>, len: usize)
    requires
        len <= a.len(),
        len <= b.len(),
    ensures
        forall|j: int|
            0 <= j < len && a[j] != b[j] && (forall|k: int| 0 <= k < j ==> a[k] == b[k]) ==>
                order_between(a, b, 0, len) == (if a[j] < b[j] { -1int } else { 1int }),
        order_between(a, b, 0, len) == 0 <==> forall|j: int| 0 <= j < len ==> a[j] == b[j],
{
    lemma_compare_laws(a, b, 0, len as int);
    assert forall|j: int|
        0 <= j < len && a[j] != b[j] && (forall|k: int| 0 <= k < j ==> a[k] == b[k]) implies
        order_between(a, b, 0, len) == (if a[j] < b[j] { -1int } else { 1int }) by {
        lemma_first_difference_decides(a, b, 0, len as int, j);
    }
}

/// Whether `a` and `b` hold the same bytes.
pub fn same_bytes(a: &[u8], b: &[u8]) -> (r: bool)
    ensures
        r == (a@ == b@),
{
    if a.len() != b.len() {
        return false;
    }
    let mut i: usize = 0;
    while i < a.len()
        invariant
            i <= a@.len(),
            a@.len() == b@.len(),
            forall|j: int| 0 <= j < i ==> a@[j] == b@[j],
        decreases a@.len() - i,
    {
        if a[i] != b[i] {
            return false;
        }
        i += 1;
    }
    assert(a@ =~= b@);
    true
}


/// Reading back a copy: after `memcpy` of `len` bytes, comparing the first
/// `len` bytes of the destination with the source finds them equal, and the
/// bytes after them are those the destination had.
pub proof fn lemma_copy_then_compare(dst: Seq<u8>, src: Seq<u8>, len: int)
    requires
        0 <= len <= dst.len(),
        len <= src.len(),
    ensures
        compare_from(src.take(len) + dst.skip(len), src, 0, len) == 0,
        (src.take(len) + dst.skip(len)).len() == dst.len(),
        forall|p: int| len <= p < dst.len() ==> #[trigger] (src.take(len) + dst.skip(len))[p] == dst[p],
{
    let copied = src.take(len) + dst.skip(len);
    assert forall|j: int| 0 <= j < len implies copied[j] == src[j] by {}
    lemma_compare_laws(copied, src, 0, len);
}

} // verus!
