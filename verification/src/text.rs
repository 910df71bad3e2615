//! Splitting byte strings into fields and reading decimal numbers.

use vstd::prelude::*;

verus! {

/// The pieces of `s` between the occurrences of `sep`, in order; there is
/// always one more piece than there are separators.
pub open spec fn split(s: Seq<u8>, sep: u8) -> Seq<Seq<u8>>
    decreases s.len(),
{
    if s.len() == 0 {
        seq![Seq::empty()]
    } else {
        let init = split(s.drop_last(), sep);
        if s.last() == sep {
            init.push(Seq::empty())
        } else {
            init.update(init.len() - 1, init.last().push(s.last()))
        }
    }
}

/// [`split`] never yields an empty list.
pub proof fn lemma_split_nonempty(s: Seq<u8>, sep: u8)
    ensures
        split(s, sep).len() >= 1,
    decreases s.len(),
{
    if s.len() > 0 {
        lemma_split_nonempty(s.drop_last(), sep);
    }
}

/// The pieces `ps` joined back together with `sep` between each two.
pub open spec fn join_with(ps: Seq<Seq<u8>>, sep: u8) -> Seq<u8>
    decreases ps.len(),
{
    if ps.len() == 0 {
        Seq::empty()
    } else if ps.len() == 1 {
        ps[0]
    } else {
        join_with(ps.drop_last(), sep) + seq![sep] + ps.last()
    }
}

/// Splitting loses nothing and cuts at every separator: the pieces of `s`
/// joined with `sep` give back `s`, there is at least one piece, and no
/// piece holds `sep`.
pub proof fn lemma_split_rejoins(s: Seq<u8>, sep: u8)
    ensures
        split(s, sep).len() >= 1,
        join_with(split(s, sep), sep) == s,
        forall|k: int, i: int|
            0 <= k < split(s, sep).len() && 0 <= i < split(s, sep)[k].len() ==> #[trigger] split(
                s,
                sep,
            )[k][i] != sep,
    decreases s.len(),
{
    if s.len() == 0 {
        assert(join_with(split(s, sep), sep) =~= s);
    } else {
        let init = split(s.drop_last(), sep);
        lemma_split_rejoins(s.drop_last(), sep);
        let ps = split(s, sep);
        if s.last() == sep {
            assert(ps.drop_last() =~= init);
            assert(join_with(ps, sep) =~= s);
        } else {
            let n = init.len();
            if n == 1 {
                assert(join_with(ps, sep) =~= s);
            } else {
                assert(ps.drop_last() =~= init.drop_last());
                assert(ps.last() == init.last().push(s.last()));
                let pre = join_with(init.drop_last(), sep) + seq![sep];
                assert(join_with(init, sep) == pre + init.last());
                assert(join_with(ps, sep) == pre + init.last().push(s.last()));
                assert(pre + init.last().push(s.last()) =~= (pre + init.last()).push(s.last()));
                assert(s =~= s.drop_last().push(s.last()));
                assert(join_with(ps, sep) =~= s);
            }
            assert forall|k: int, i: int| 0 <= k < ps.len() && 0 <= i < ps[k].len() implies #[trigger] ps[k][i] != sep by {
                if k < n - 1 {
                    assert(ps[k] == init[k]);
                } else if i < init.last().len() {
                    assert(ps[k][i] == init[k][i]);
                }
            }
        }
    }
}

/// The views of a list of byte vectors.
pub open spec fn views(v: Seq<Vec<u8>>) -> Seq<Seq<u8>> {
    v.map_values(|e: Vec<u8>| e@)
}

/// Splits `s` at each occurrence of `sep`.
pub fn split_bytes(s: &[u8], sep: u8) -> (r: Vec<Vec<u8>>)
    ensures
        views(r@) == split(s@, sep),
{
    let mut done: Vec<Vec<u8>> = Vec::new();
    let mut cur: Vec<u8> = Vec::new();
    let mut i: usize = 0;
    assert(s@.take(0) =~= Seq::<u8>::empty());
    while i < s.len()
        invariant
            i <= s@.len(),
            views(done@).push(cur@) == split(s@.take(i as int), sep),
        decreases s@.len() - i,
    {
        assert(s@.take(i + 1).drop_last() =~= s@.take(i as int));
        let ghost before = views(done@).push(cur@);
        if s[i] == sep {
            done.push(cur);
            cur = Vec::new();
            assert(views(done@).push(cur@) =~= before.push(Seq::empty()));
        } else {
            cur.push(s[i]);
            assert(views(done@).push(cur@) =~= before.update(before.len() - 1, before.last().push(
                s@[i as int],
            )));
        }
        i += 1;
    }
    assert(s@.take(s@.len() as int) =~= s@);
    done.push(cur);
    r_eq(done)
}

fn r_eq(v: Vec<Vec<u8>>) -> (r: Vec<Vec<u8>>)
    ensures
        r == v,
{
    v
}

/// The value of a string of decimal digits.
pub open spec fn decimal_value(digits: Seq<u8>) -> int
    decreases digits.len(),
{
    if digits.len() == 0 {
        0
    } else {
        10 * decimal_value(digits.drop_last()) + (digits.last() - 48)
    }
}

/// Every byte is a decimal digit.
pub open spec fn all_digits(s: Seq<u8>) -> bool {
    forall|j: int| 0 <= j < s.len() ==> 48 <= #[trigger] s[j] <= 57
}

/// `s` without a leading `+`.
pub open spec fn digits_part(s: Seq<u8>) -> Seq<u8> {
    if s.len() > 0 && s[0] == 43 {
        s.skip(1)
    } else {
        s
    }
}

/// The number `s` denotes as an unsigned 32-bit integer in Rust's syntax:
/// an optional `+` and then one or more decimal digits, of a value that
/// fits.
pub open spec fn parse_u32_spec(s: Seq<u8>) -> Option<u32> {
    let digits = digits_part(s);
    if digits.len() == 0 || !all_digits(digits) || decimal_value(digits) > u32::MAX {
        None
    } else {
        Some(decimal_value(digits) as u32)
    }
}

/// A longer string of digits is worth at least as much.
proof fn lemma_decimal_grows(d: Seq<u8>, i: int)
    requires
        0 <= i <= d.len(),
        all_digits(d),
    ensures
        decimal_value(d.take(i)) <= decimal_value(d),
        decimal_value(d.take(i)) >= 0,
    decreases d.len() - i,
{
    if i < d.len() {
        lemma_decimal_grows(d, i + 1);
        assert(d.take(i + 1).drop_last() =~= d.take(i));
        assert(d.take(i + 1).last() == d[i]);
    } else {
        assert(d.take(i) =~= d);
    }
    lemma_decimal_nonneg(d.take(i));
}

proof fn lemma_decimal_nonneg(d: Seq<u8>)
    requires
        all_digits(d),
    ensures
        decimal_value(d) >= 0,
    decreases d.len(),
{
    if d.len() > 0 {
        lemma_decimal_nonneg(d.drop_last());
    }
}

/// Reads an unsigned 32-bit decimal number as Rust's `str::parse` does.
pub fn parse_u32(s: &[u8]) -> (r: Option<u32>)
    ensures
        r == parse_u32_spec(s@),
{
    let start: usize = if s.len() > 0 && s[0] == 43 {
        1
    } else {
        0
    };
    let ghost digits = digits_part(s@);
    assert(digits =~= s@.skip(start as int));
    if start == s.len() {
        return None;
    }
    let mut acc: u64 = 0;
    let mut i: usize = start;
    while i < s.len()
        invariant
            start <= i <= s@.len(),
            digits == s@.skip(start as int),
            digits == digits_part(s@),
            all_digits(digits.take(i - start)),
            acc == decimal_value(digits.take(i - start)),
            acc <= u32::MAX,
        decreases s@.len() - i,
    {
        let b = s[i];
        if b < 48 || b > 57 {
            assert(digits[i - start] == b);
            assert(!all_digits(digits));
            return None;
        }
        assert(digits.take(i - start + 1).drop_last() =~= digits.take(i - start));
        assert(digits.take(i - start + 1).last() == b);
        let next = acc * 10 + (b - 48) as u64;
        assert(all_digits(digits.take(i - start + 1)));
        assert(next == decimal_value(digits.take(i - start + 1)));
        if next > 0xffff_ffff {
            proof {
                if all_digits(digits) {
                    lemma_decimal_grows(digits, i - start + 1);
                    assert(decimal_value(digits) > u32::MAX);
                }
            }
            return None;
        }
        acc = next;
        i += 1;
    }
    assert(digits.take(i - start) =~= digits);
    Some(acc as u32)
}

/// The length of the encoding of a white-space character (in the sense of
/// Rust's `char::is_whitespace`) that starts at `i` in the UTF-8 text `s`,
/// or `0` when none starts there.
pub open spec fn ws_len(s: Seq<u8>, i: int) -> int {
    let b0 = s[i];
    if (9 <= b0 <= 13) || b0 == 32 {
        1
    } else if b0 == 0xc2 && i + 1 < s.len() && (s[i + 1] == 0x85 || s[i + 1] == 0xa0) {
        2
    } else if i + 2 < s.len() && ((b0 == 0xe1 && s[i + 1] == 0x9a && s[i + 2] == 0x80) || (b0
        == 0xe2 && s[i + 1] == 0x80 && ((0x80 <= s[i + 2] <= 0x8a) || s[i + 2] == 0xa8 || s[i
        + 2] == 0xa9 || s[i + 2] == 0xaf)) || (b0 == 0xe2 && s[i + 1] == 0x81 && s[i + 2] == 0x9f)
        || (b0 == 0xe3 && s[i + 1] == 0x80 && s[i + 2] == 0x80)) {
        3
    } else {
        0
    }
}

/// The end of the word that starts at `i`: the first position from `i` on
/// where white space starts, or the end of `s`.
pub open spec fn word_end(s: Seq<u8>, i: int) -> int
    decreases s.len() - i,
{
    if i < 0 || i >= s.len() || ws_len(s, i) > 0 {
        i
    } else {
        word_end(s, i + 1)
    }
}

/// The words of `s` from position `i` on: the maximal runs without white
/// space, in order, as `str::split_whitespace` yields them.
pub open spec fn words_from(s: Seq<u8>, i: int) -> Seq<Seq<u8>>
    decreases s.len() - i, 1int,
{
    if i < 0 || i >= s.len() {
        Seq::empty()
    } else if ws_len(s, i) > 0 {
        words_from(s, i + ws_len(s, i))
    } else {
        let j = word_end(s, i);
        if j <= i || j > s.len() {
            Seq::empty()
        } else {
            seq![s.subrange(i, j)] + words_from(s, j)
        }
    }
}

/// The words of `s`.
pub open spec fn words(s: Seq<u8>) -> Seq<Seq<u8>> {
    words_from(s, 0)
}

/// The length of white space at `i`, as [`ws_len`].
fn ws_at(s: &[u8], i: usize) -> (r: usize)
    requires
        i < s@.len(),
    ensures
        r == ws_len(s@, i as int),
{
    let b0 = s[i];
    let n = s.len();
    if (9 <= b0 && b0 <= 13) || b0 == 32 {
        1
    } else if b0 == 0xc2 && n - i > 1 && (s[i + 1] == 0x85 || s[i + 1] == 0xa0) {
        2
    } else if n - i > 2 && ((b0 == 0xe1 && s[i + 1] == 0x9a && s[i + 2] == 0x80) || (b0 == 0xe2
        && s[i + 1] == 0x80 && ((0x80 <= s[i + 2] && s[i + 2] <= 0x8a) || s[i + 2] == 0xa8 || s[i
        + 2] == 0xa9 || s[i + 2] == 0xaf)) || (b0 == 0xe2 && s[i + 1] == 0x81 && s[i + 2] == 0x9f)
        || (b0 == 0xe3 && s[i + 1] == 0x80 && s[i + 2] == 0x80)) {
        3
    } else {
        0
    }
}

/// Splits `s` into its words, separated by white space.
pub fn split_words(s: &[u8]) -> (r: Vec<Vec<u8>>)
    ensures
        views(r@) == words(s@),
{
    let n = s.len();
    let mut done: Vec<Vec<u8>> = Vec::new();
    let mut i: usize = 0;
    while i < n
        invariant
            i <= n,
            n == s@.len(),
            words(s@) == views(done@) + words_from(s@, i as int),
        decreases n - i, 1int,
    {
        let w = ws_at(s, i);
        if w > 0 {
            i = i + w;
        } else {
            let mut j: usize = i;
            let mut word: Vec<u8> = Vec::new();
            while j < n && ws_at(s, j) == 0
                invariant
                    i <= j <= n,
                    n == s@.len(),
                    word_end(s@, i as int) == word_end(s@, j as int),
                    word@ == s@.subrange(i as int, j as int),
                decreases n - j,
            {
                word.push(s[j]);
                j += 1;
                assert(word@ =~= s@.subrange(i as int, j as int));
            }
            assert(j == word_end(s@, j as int));
            let ghost before = views(done@);
            done.push(word);
            assert(views(done@) =~= before + seq![s@.subrange(i as int, j as int)]);
            i = j;
        }
    }
    assert(views(done@) =~= views(done@) + words_from(s@, i as int));
    done
}

} // verus!
