//! Name-service records: the `passwd` and `group` lines that `getent`
//! prints, laid out in a caller's buffer as the C interfaces return them,
//! and the group list of a user.

use vstd::prelude::*;
use vstd::utf8::valid_utf8;
use crate::data::{EIO, ERANGE};
use crate::text::{split, split_bytes, views, parse_u32, parse_u32_spec, words, split_words, join_with, lemma_split_rejoins};

verus! {

/// The byte `:` that separates the fields of a record.
pub const COLON: u8 = 58;
/// The byte `,` that separates the members of a group.
pub const COMMA: u8 = 44;
/// The byte `\n` that ends the output of `getent`.
pub const NEWLINE: u8 = 10;

/// Whether `bytes` is valid UTF-8, as `std::str::from_utf8` decides.
#[verifier::external_body]
pub(crate) fn is_utf8(bytes: &[u8]) -> (r: bool)
    ensures
        r == valid_utf8(bytes@),
{
    std::str::from_utf8(bytes).is_ok()
}

/// The line of a `getent` output: the output without its final newline, or
/// nothing when the output is not UTF-8 or does not end with a newline.
pub open spec fn getent_line(out: Seq<u8>) -> Option<Seq<u8>> {
    if valid_utf8(out) && out.len() > 0 && out.last() == NEWLINE {
        Some(out.drop_last())
    } else {
        None
    }
}

fn line_of(out: &[u8]) -> (r: Option<Vec<u8>>)
    ensures
        match r {
            Some(l) => getent_line(out@) == Some(l@),
            None => getent_line(out@) is None,
        },
{
    if !is_utf8(out) || out.len() == 0 || out[out.len() - 1] != NEWLINE {
        return None;
    }
    let mut l: Vec<u8> = Vec::new();
    let mut i: usize = 0;
    while i < out.len() - 1
        invariant
            out@.len() > 0,
            i + 1 <= out@.len(),
            l@ == out@.take(i as int),
        decreases out@.len() - i,
    {
        l.push(out[i]);
        i += 1;
        assert(l@ =~= out@.take(i as int));
    }
    assert(l@ =~= out@.drop_last());
    Some(l)
}

/// The fields `parts[k..]` filled in order into a buffer that has
/// `remaining` bytes left: a field of kind `true` is copied with a
/// terminating NUL and its offset recorded, a field of kind `false` is read
/// as a number. A missing field or a number that does not parse gives
/// `EIO`, a string that does not fit with its NUL gives `ERANGE`, the first
/// failure deciding.
pub open spec fn fill_from(
    parts: Seq<Seq<u8>>,
    kinds: Seq<bool>,
    k: int,
    buf: Seq<u8>,
    offsets: Seq<usize>,
    numbers: Seq<u32>,
    remaining: int,
) -> Result<(Seq<u8>, Seq<usize>, Seq<u32>), i32>
    decreases kinds.len() - k,
{
    if k < 0 || k >= kinds.len() {
        Ok((buf, offsets, numbers))
    } else if parts.len() <= k {
        Err(EIO)
    } else if kinds[k] {
        if parts[k].len() >= remaining {
            Err(ERANGE)
        } else {
            fill_from(
                parts,
                kinds,
                k + 1,
                buf + parts[k] + seq![0u8],
                offsets.push(buf.len() as usize),
                numbers,
                remaining - parts[k].len() - 1,
            )
        }
    } else {
        match parse_u32_spec(parts[k]) {
            Some(n) => fill_from(parts, kinds, k + 1, buf, offsets, numbers.push(n), remaining),
            None => Err(EIO),
        }
    }
}

/// [`fill_from`] from the first field with an empty buffer of `buflen`
/// bytes.
pub open spec fn fill(parts: Seq<Seq<u8>>, kinds: Seq<bool>, buflen: int) -> Result<
    (Seq<u8>, Seq<usize>, Seq<u32>),
    i32,
> {
    fill_from(parts, kinds, 0, Seq::empty(), Seq::empty(), Seq::empty(), buflen)
}

fn fill_fields(parts: &Vec<Vec<u8>>, kinds: &[bool], buflen: usize) -> (r: Result<
    (Vec<u8>, Vec<usize>, Vec<u32>),
    i32,
>)
    ensures
        match r {
            Ok((b, o, n)) => fill(views(parts@), kinds@, buflen as int) == Ok::<
                (Seq<u8>, Seq<usize>, Seq<u32>),
                i32,
            >((b@, o@, n@)) && b@.len() <= buflen,
            Err(e) => fill(views(parts@), kinds@, buflen as int) == Err::<
                (Seq<u8>, Seq<usize>, Seq<u32>),
                i32,
            >(e),
        },
{
    let mut buf: Vec<u8> = Vec::new();
    let mut offsets: Vec<usize> = Vec::new();
    let mut numbers: Vec<u32> = Vec::new();
    let mut remaining: usize = buflen;
    let mut k: usize = 0;
    while k < kinds.len()
        invariant
            k <= kinds@.len(),
            buf@.len() + remaining == buflen,
            fill(views(parts@), kinds@, buflen as int) == fill_from(
                views(parts@),
                kinds@,
                k as int,
                buf@,
                offsets@,
                numbers@,
                remaining as int,
            ),
        decreases kinds@.len() - k,
    {
        if parts.len() <= k {
            return Err(EIO);
        }
        let part = &parts[k];
        assert(part@ == views(parts@)[k as int]);
        if kinds[k] {
            if part.len() >= remaining {
                return Err(ERANGE);
            }
            offsets.push(buf.len());
            let mut j: usize = 0;
            let ghost start = buf@;
            while j < part.len()
                invariant
                    j <= part@.len(),
                    buf@ == start + part@.take(j as int),
                decreases part@.len() - j,
            {
                buf.push(part[j]);
                j += 1;
                assert(buf@ =~= start + part@.take(j as int));
            }
            buf.push(0u8);
            assert(buf@ =~= start + part@ + seq![0u8]);
            remaining = remaining - part.len() - 1;
        } else {
            match parse_u32(part.as_slice()) {
                Some(n) => numbers.push(n),
                None => return Err(EIO),
            }
        }
        k += 1;
    }
    Ok((buf, offsets, numbers))
}

/// A `passwd` record laid out in a buffer: the bytes written and the
/// offsets of the NUL-terminated strings in them.
pub struct PasswdRecord {
    /// The bytes written to the start of the caller's buffer.
    pub buf: Vec<u8>,
    /// Offset of the user name.
    pub pw_name: usize,
    /// Offset of the password field.
    pub pw_passwd: usize,
    /// The user id.
    pub pw_uid: u32,
    /// The group id.
    pub pw_gid: u32,
    /// Offset of the comment field.
    pub pw_gecos: usize,
    /// Offset of the home directory.
    pub pw_dir: usize,
    /// Offset of the shell.
    pub pw_shell: usize,
}

/// The kinds of the seven `passwd` fields: name, password, uid, gid, gecos,
/// directory, shell.
pub open spec fn passwd_kinds() -> Seq<bool> {
    seq![true, true, false, false, true, true, true]
}

/// What a `getent passwd` output gives in a buffer of `buflen` bytes: the
/// bytes written, the offsets of the five strings and the two ids.
pub open spec fn passwd_outcome(out: Seq<u8>, buflen: int) -> Result<
    (Seq<u8>, Seq<usize>, Seq<u32>),
    i32,
> {
    match getent_line(out) {
        Some(line) => fill(split(line, COLON), passwd_kinds(), buflen),
        None => Err(EIO),
    }
}

/// Lays out the `passwd` record of a `getent passwd` output in a buffer of
/// `buflen` bytes. A malformed output gives `EIO`, a buffer that is too
/// small `ERANGE`.
pub fn getpw_r(out: &[u8], buflen: usize) -> (r: Result<PasswdRecord, i32>)
    ensures
        match r {
            Ok(rec) => passwd_outcome(out@, buflen as int) == Ok::<
                (Seq<u8>, Seq<usize>, Seq<u32>),
                i32,
            >(
                (
                    rec.buf@,
                    seq![rec.pw_name, rec.pw_passwd, rec.pw_gecos, rec.pw_dir, rec.pw_shell],
                    seq![rec.pw_uid, rec.pw_gid],
                ),
            ),
            Err(e) => passwd_outcome(out@, buflen as int) == Err::<
                (Seq<u8>, Seq<usize>, Seq<u32>),
                i32,
            >(e),
        },
{
    let line = match line_of(out) {
        Some(l) => l,
        None => return Err(EIO),
    };
    let parts = split_bytes(line.as_slice(), COLON);
    let kinds: [bool; 7] = [true, true, false, false, true, true, true];
    assert(kinds@ =~= passwd_kinds());
    let (buf, offsets, numbers) = match fill_fields(&parts, &kinds, buflen) {
        Ok(t) => t,
        Err(e) => return Err(e),
    };
    proof {
        lemma_fill_shape(views(parts@), passwd_kinds(), 0, Seq::empty(), Seq::empty(), Seq::empty(), buflen as int);
        reveal_with_fuel(count_kind, 8);
        assert(count_kind(passwd_kinds(), 0, true) == 5);
        assert(count_kind(passwd_kinds(), 0, false) == 2);
    }
    let rec = PasswdRecord {
        pw_name: offsets[0],
        pw_passwd: offsets[1],
        pw_uid: numbers[0],
        pw_gid: numbers[1],
        pw_gecos: offsets[2],
        pw_dir: offsets[3],
        pw_shell: offsets[4],
        buf,
    };
    assert(offsets@ =~= seq![rec.pw_name, rec.pw_passwd, rec.pw_gecos, rec.pw_dir, rec.pw_shell]);
    assert(numbers@ =~= seq![rec.pw_uid, rec.pw_gid]);
    Ok(rec)
}

/// The string fields of `parts[k..]`, in order.
pub open spec fn strings_of(parts: Seq<Seq<u8>>, kinds: Seq<bool>, k: int) -> Seq<Seq<u8>>
    decreases kinds.len() - k,
{
    if k < 0 || k >= kinds.len() {
        Seq::empty()
    } else {
        (if kinds[k] { seq![parts[k]] } else { Seq::empty() }) + strings_of(parts, kinds, k + 1)
    }
}

/// The string `s` stands NUL-terminated at offset `o` of `b`.
pub open spec fn placed_at(b: Seq<u8>, o: int, s: Seq<u8>) -> bool {
    0 <= o && o + s.len() < b.len() && b.subrange(o, o + s.len()) == s && b[o + s.len()] == 0
}

/// Reading back a filled record: every string field stands NUL-terminated
/// at its recorded offset, the bytes fit in the buffer, and a larger buffer
/// gives the same record.
pub proof fn lemma_fill_reads_back(
    parts: Seq<Seq<u8>>,
    kinds: Seq<bool>,
    k: int,
    buf: Seq<u8>,
    offsets: Seq<usize>,
    numbers: Seq<u32>,
    remaining: int,
    placed: Seq<Seq<u8>>,
    more: int,
)
    requires
        0 <= k,
        0 <= more,
        0 <= remaining,
        buf.len() + remaining <= usize::MAX,
        placed.len() == offsets.len(),
        forall|m: int| 0 <= m < offsets.len() ==> placed_at(buf, offsets[m] as int, #[trigger] placed[m]),
    ensures
        fill_from(parts, kinds, k, buf, offsets, numbers, remaining) matches Ok((b, o, n)) ==> {
            &&& b.len() <= buf.len() + remaining
            &&& k < kinds.len() ==> parts.len() >= kinds.len()
            &&& o.len() == placed.len() + strings_of(parts, kinds, k).len()
            &&& forall|m: int|
                0 <= m < o.len() ==> placed_at(
                    b,
                    o[m] as int,
                    #[trigger] (placed + strings_of(parts, kinds, k))[m],
                )
            &&& fill_from(parts, kinds, k, buf, offsets, numbers, remaining + more) == Ok::<
                (Seq<u8>, Seq<usize>, Seq<u32>),
                i32,
            >((b, o, n))
        },
    decreases kinds.len() - k,
{
    if k < kinds.len() && parts.len() > k {
        if kinds[k] {
            if parts[k].len() < remaining {
                let nb = buf + parts[k] + seq![0u8];
                let no = offsets.push(buf.len() as usize);
                let np = placed.push(parts[k]);
                assert forall|m: int| 0 <= m < no.len() implies placed_at(nb, no[m] as int, #[trigger] np[m]) by {
                    if m < offsets.len() {
                        assert(placed_at(buf, offsets[m] as int, placed[m]));
                        assert(nb.subrange(offsets[m] as int, offsets[m] + placed[m].len()) =~= buf.subrange(
                            offsets[m] as int,
                            offsets[m] + placed[m].len(),
                        ));
                    } else {
                        assert(nb.subrange(buf.len() as int, buf.len() + parts[k].len() as int) =~= parts[k]);
                    }
                }
                lemma_fill_reads_back(
                    parts,
                    kinds,
                    k + 1,
                    nb,
                    no,
                    numbers,
                    remaining - parts[k].len() - 1,
                    np,
                    more,
                );
                assert(np + strings_of(parts, kinds, k + 1) =~= placed + strings_of(parts, kinds, k));
            }
        } else {
            if let Some(n) = parse_u32_spec(parts[k]) {
                lemma_fill_reads_back(parts, kinds, k + 1, buf, offsets, numbers.push(n), remaining, placed, more);
                assert(strings_of(parts, kinds, k) =~= strings_of(parts, kinds, k + 1));
            }
        }
    }
}

/// Reading back a `passwd` record: the bytes fit in the buffer, the name,
/// password, comment, directory and shell fields of the line stand
/// NUL-terminated at their offsets, and a larger buffer gives the same
/// record.
pub proof fn lemma_passwd_reads_back(out: Seq<u8>, buflen: int, more: int)
    requires
        0 <= more,
        0 <= buflen <= usize::MAX,
    ensures
        passwd_outcome(out, buflen) matches Ok((b, o, n)) ==> {
            let f = split(getent_line(out)->0, COLON);
            &&& b.len() <= buflen
            &&& placed_at(b, o[0] as int, f[0])
            &&& placed_at(b, o[1] as int, f[1])
            &&& placed_at(b, o[2] as int, f[4])
            &&& placed_at(b, o[3] as int, f[5])
            &&& placed_at(b, o[4] as int, f[6])
            &&& passwd_outcome(out, buflen + more) == passwd_outcome(out, buflen)
        },
{
    if let Some(line) = getent_line(out) {
        let f = split(line, COLON);
        lemma_fill_reads_back(f, passwd_kinds(), 0, Seq::empty(), Seq::empty(), Seq::empty(), buflen, Seq::empty(), more);
        if let Ok((b, o, n)) = passwd_outcome(out, buflen) {
            let kk = passwd_kinds();
            assert(strings_of(f, kk, 7) =~= Seq::<Seq<u8>>::empty());
            assert(strings_of(f, kk, 6) =~= seq![f[6]]);
            assert(strings_of(f, kk, 5) =~= seq![f[5], f[6]]);
            assert(strings_of(f, kk, 4) =~= seq![f[4], f[5], f[6]]);
            assert(strings_of(f, kk, 3) =~= seq![f[4], f[5], f[6]]);
            assert(strings_of(f, kk, 2) =~= seq![f[4], f[5], f[6]]);
            assert(strings_of(f, kk, 1) =~= seq![f[1], f[4], f[5], f[6]]);
            assert(strings_of(f, passwd_kinds(), 0) =~= seq![f[0], f[1], f[4], f[5], f[6]]);
            assert(Seq::<Seq<u8>>::empty() + strings_of(f, passwd_kinds(), 0) =~= seq![f[0], f[1], f[4], f[5], f[6]]);
        }
    }
}

/// The number of strings and of numbers that a filling adds: one per field
/// of each kind.
pub open spec fn count_kind(kinds: Seq<bool>, k: int, kind: bool) -> int
    decreases kinds.len() - k,
{
    if k < 0 || k >= kinds.len() {
        0
    } else {
        (if kinds[k] == kind { 1int } else { 0 }) + count_kind(kinds, k + 1, kind)
    }
}

/// A successful filling records one offset per string field and one number
/// per numeric field.
pub proof fn lemma_fill_shape(
    parts: Seq<Seq<u8>>,
    kinds: Seq<bool>,
    k: int,
    buf: Seq<u8>,
    offsets: Seq<usize>,
    numbers: Seq<u32>,
    remaining: int,
)
    requires
        0 <= k,
    ensures
        fill_from(parts, kinds, k, buf, offsets, numbers, remaining) matches Ok((b, o, n)) ==> o.len()
            == offsets.len() + count_kind(kinds, k, true) && n.len() == numbers.len() + count_kind(
            kinds,
            k,
            false,
        ),
    decreases kinds.len() - k,
{
    if k < kinds.len() && parts.len() > k {
        if kinds[k] {
            if parts[k].len() < remaining {
                lemma_fill_shape(
                    parts,
                    kinds,
                    k + 1,
                    buf + parts[k] + seq![0u8],
                    offsets.push(buf.len() as usize),
                    numbers,
                    remaining - parts[k].len() - 1,
                );
            }
        } else {
            if let Some(n) = parse_u32_spec(parts[k]) {
                lemma_fill_shape(parts, kinds, k + 1, buf, offsets, numbers.push(n), remaining);
            }
        }
    }
}

/// `n` zero bytes.
pub open spec fn zeros(n: int) -> Seq<u8> {
    Seq::new(n as nat, |i: int| 0u8)
}

/// The members of a group, each followed by a NUL.
pub open spec fn joined(ms: Seq<Seq<u8>>) -> Seq<u8>
    decreases ms.len(),
{
    if ms.len() == 0 {
        Seq::empty()
    } else {
        joined(ms.drop_last()) + ms.last() + seq![0u8]
    }
}

/// The offsets of the members in [`joined`] laid out from `base`.
pub open spec fn member_starts(ms: Seq<Seq<u8>>, base: int) -> Seq<usize>
    decreases ms.len(),
{
    if ms.len() == 0 {
        Seq::empty()
    } else {
        member_starts(ms.drop_last(), base).push((base + joined(ms.drop_last()).len()) as usize)
    }
}

/// The members named by the member field: none for an empty field, else the
/// pieces between its commas.
pub open spec fn members_of(part: Seq<u8>) -> Seq<Seq<u8>> {
    if part.len() == 0 {
        Seq::empty()
    } else {
        split(part, COMMA)
    }
}

/// The kinds of the first three `group` fields: name, password, gid.
pub open spec fn group_kinds() -> Seq<bool> {
    seq![true, true, false]
}

/// The padding that aligns the member table of a buffer at address
/// `buf_addr` after `used` bytes: from `1` to `ptr_size` bytes.
pub open spec fn table_pad(buf_addr: int, used: int, ptr_size: int) -> int {
    ptr_size - (buf_addr + used) % ptr_size
}

/// What a `getent group` output gives in a buffer of `buflen` bytes at
/// address `buf_addr`, with pointers of `ptr_size` bytes: the bytes written
/// (the table of member pointers left as zeros), the offsets of the name and
/// password, the gid, the offset of the member table and the offsets of the
/// members.
pub open spec fn group_outcome(out: Seq<u8>, buflen: int, buf_addr: int, ptr_size: int) -> Result<
    (Seq<u8>, Seq<usize>, u32, usize, Seq<usize>),
    i32,
> {
    match getent_line(out) {
        None => Err(EIO),
        Some(line) => {
            let parts = split(line, COLON);
            match fill(parts, group_kinds(), buflen) {
                Err(e) => Err(e),
                Ok((b, o, n)) => {
                    if parts.len() <= 3 {
                        Err(EIO)
                    } else if parts[3].len() > buflen - b.len() {
                        Err(ERANGE)
                    } else {
                        let ms = members_of(parts[3]);
                        let pad = table_pad(buf_addr, b.len() as int, ptr_size);
                        let table = (ms.len() + 1) * ptr_size;
                        if pad + table + joined(ms).len() > buflen - b.len() {
                            Err(ERANGE)
                        } else {
                            Ok(
                                (
                                    b + zeros(pad + table) + joined(ms),
                                    o,
                                    n[0],
                                    (b.len() + pad) as usize,
                                    member_starts(ms, b.len() + pad + table),
                                ),
                            )
                        }
                    }
                }
            }
        },
    }
}

/// A `group` record laid out in a buffer.
pub struct GroupRecord {
    /// The bytes written to the start of the caller's buffer; the member
    /// table in them is left as zeros for the caller to fill with pointers.
    pub buf: Vec<u8>,
    /// Offset of the group name.
    pub gr_name: usize,
    /// Offset of the password field.
    pub gr_passwd: usize,
    /// The group id.
    pub gr_gid: u32,
    /// Offset of the member table.
    pub gr_mem: usize,
    /// Offsets of the member names, in order.
    pub members: Vec<usize>,
}

/// The members, each followed by a NUL, and their offsets from the start.
fn join_members(ms: &Vec<Vec<u8>>) -> (r: Option<(Vec<u8>, Vec<usize>)>)
    ensures
        match r {
            Some((bytes, starts)) => bytes@ == joined(views(ms@)) && starts@ == member_starts(
                views(ms@),
                0,
            ),
            None => joined(views(ms@)).len() > usize::MAX,
        },
{
    let mut bytes: Vec<u8> = Vec::new();
    let mut starts: Vec<usize> = Vec::new();
    let mut i: usize = 0;
    assert(views(ms@).take(0) =~= Seq::<Seq<u8>>::empty());
    while i < ms.len()
        invariant
            i <= ms@.len(),
            bytes@ == joined(views(ms@).take(i as int)),
            starts@ == member_starts(views(ms@).take(i as int), 0),
        decreases ms@.len() - i,
    {
        let m = &ms[i];
        assert(m@ == views(ms@)[i as int]);
        assert(views(ms@).take(i + 1).drop_last() =~= views(ms@).take(i as int));
        if m.len() >= usize::MAX - bytes.len() {
            proof {
                lemma_joined_grows(views(ms@), i as int + 1);
            }
            return None;
        }
        starts.push(bytes.len());
        let ghost before = bytes@;
        let mut j: usize = 0;
        while j < m.len()
            invariant
                j <= m@.len(),
                bytes@ == before + m@.take(j as int),
            decreases m@.len() - j,
        {
            bytes.push(m[j]);
            j += 1;
            assert(bytes@ =~= before + m@.take(j as int));
        }
        bytes.push(0u8);
        assert(bytes@ =~= before + m@ + seq![0u8]);
        i += 1;
    }
    assert(views(ms@).take(ms@.len() as int) =~= views(ms@));
    Some((bytes, starts))
}

/// A longer list of members takes at least as many bytes.
proof fn lemma_joined_grows(ms: Seq<Seq<u8>>, i: int)
    requires
        0 <= i <= ms.len(),
    ensures
        joined(ms.take(i)).len() <= joined(ms).len(),
    decreases ms.len() - i,
{
    if i < ms.len() {
        lemma_joined_grows(ms, i + 1);
        assert(ms.take(i + 1).drop_last() =~= ms.take(i));
    } else {
        assert(ms.take(i) =~= ms);
    }
}

/// Lays out the `group` record of a `getent group` output in a buffer of
/// `buflen` bytes at address `buf_addr`, with pointers of `ptr_size` bytes.
/// A malformed output gives `EIO`, a buffer that is too small `ERANGE`.
pub fn getgr_r(out: &[u8], buflen: usize, buf_addr: usize, ptr_size: usize) -> (r: Result<
    GroupRecord,
    i32,
>)
    requires
        ptr_size > 0,
        buf_addr + buflen <= usize::MAX,
    ensures
        match r {
            Ok(rec) => group_outcome(out@, buflen as int, buf_addr as int, ptr_size as int) == Ok::<
                (Seq<u8>, Seq<usize>, u32, usize, Seq<usize>),
                i32,
            >((rec.buf@, seq![rec.gr_name, rec.gr_passwd], rec.gr_gid, rec.gr_mem, rec.members@)),
            Err(e) => group_outcome(out@, buflen as int, buf_addr as int, ptr_size as int) == Err::<
                (Seq<u8>, Seq<usize>, u32, usize, Seq<usize>),
                i32,
            >(e),
        },
{
    let line = match line_of(out) {
        Some(l) => l,
        None => return Err(EIO),
    };
    let parts = split_bytes(line.as_slice(), COLON);
    let kinds: [bool; 3] = [true, true, false];
    assert(kinds@ =~= group_kinds());
    let (buf, offsets, numbers) = match fill_fields(&parts, &kinds, buflen) {
        Ok(t) => t,
        Err(e) => return Err(e),
    };
    proof {
        lemma_fill_shape(views(parts@), group_kinds(), 0, Seq::empty(), Seq::empty(), Seq::empty(), buflen as int);
        reveal_with_fuel(count_kind, 4);
        assert(count_kind(group_kinds(), 0, true) == 2);
        assert(count_kind(group_kinds(), 0, false) == 1);
    }
    if parts.len() <= 3 {
        return Err(EIO);
    }
    let part = &parts[3];
    assert(part@ == views(parts@)[3]);
    let used = buf.len();
    let remaining = buflen - used;
    if part.len() > remaining {
        return Err(ERANGE);
    }
    let members: Vec<Vec<u8>> = if part.len() == 0 {
        Vec::new()
    } else {
        split_bytes(part.as_slice(), COMMA)
    };
    assert(views(members@) =~= members_of(part@));
    let pad = ptr_size - (buf_addr + used) % ptr_size;
    let ghost ms = members_of(part@);
    let slots = match members.len().checked_add(1) {
        Some(n) => n,
        None => {
            assert((ms.len() + 1) * ptr_size >= ms.len() + 1) by (nonlinear_arith)
                requires
                    ptr_size >= 1,
            ;
            return Err(ERANGE);
        },
    };
    let table = match slots.checked_mul(ptr_size) {
        Some(t) => t,
        None => return Err(ERANGE),
    };
    assert(table == (ms.len() + 1) * ptr_size);
    assert(pad == table_pad(buf_addr as int, used as int, ptr_size as int));
    let (strings, starts) = match join_members(&members) {
        Some(t) => t,
        None => return Err(ERANGE),
    };
    if pad > remaining || table > remaining - pad || strings.len() > remaining - pad - table {
        return Err(ERANGE);
    }
    let base = used + pad + table;
    let mut image = buf;
    let mut z: usize = 0;
    let ghost b0 = image@;
    let filler = pad + table;
    while z < filler
        invariant
            z <= filler,
            image@ == b0 + zeros(z as int),
        decreases filler - z,
    {
        image.push(0u8);
        z += 1;
        assert(image@ =~= b0 + zeros(z as int));
    }
    let ghost b1 = image@;
    let mut q: usize = 0;
    while q < strings.len()
        invariant
            q <= strings@.len(),
            image@ == b1 + strings@.take(q as int),
        decreases strings@.len() - q,
    {
        image.push(strings[q]);
        q += 1;
        assert(image@ =~= b1 + strings@.take(q as int));
    }
    assert(strings@.take(strings@.len() as int) =~= strings@);
    let mut member_offsets: Vec<usize> = Vec::new();
    let mut t: usize = 0;
    proof {
        lemma_member_starts_bounded(views(members@), 0);
        lemma_member_starts_shift(views(members@), base as int);
    }
    while t < starts.len()
        invariant
            t <= starts@.len(),
            starts@ == member_starts(views(members@), 0),
            base + strings@.len() <= usize::MAX,
            strings@ == joined(views(members@)),
            forall|k: int| 0 <= k < starts@.len() ==> starts@[k] <= strings@.len(),
            member_offsets@ == member_starts(views(members@), base as int).take(t as int),
            member_starts(views(members@), base as int).len() == starts@.len(),
            forall|k: int|
                0 <= k < starts@.len() ==> member_starts(views(members@), base as int)[k] == base
                    + starts@[k],
        decreases starts@.len() - t,
    {
        member_offsets.push(base + starts[t]);
        t += 1;
        assert(member_offsets@ =~= member_starts(views(members@), base as int).take(t as int));
    }
    assert(member_offsets@ =~= member_starts(views(members@), base as int));
    assert(image@ =~= b0 + zeros(pad + table) + joined(ms));
    assert(b0.len() == used);
    assert(offsets@ =~= seq![offsets@[0], offsets@[1]]);
    Ok(
        GroupRecord {
            buf: image,
            gr_name: offsets[0],
            gr_passwd: offsets[1],
            gr_gid: numbers[0],
            gr_mem: used + pad,
            members: member_offsets,
        },
    )
}

/// The member offsets stay within the member bytes.
proof fn lemma_member_starts_bounded(ms: Seq<Seq<u8>>, base: int)
    requires
        base == 0,
    ensures
        member_starts(ms, base).len() == ms.len(),
        forall|k: int|
            0 <= k < ms.len() ==> member_starts(ms, base)[k] <= joined(ms).len(),
    decreases ms.len(),
{
    if ms.len() > 0 {
        lemma_member_starts_bounded(ms.drop_last(), base);
    }
}

/// Member offsets from `base` are those from zero moved by `base`.
proof fn lemma_member_starts_shift(ms: Seq<Seq<u8>>, base: int)
    requires
        0 <= base,
        base + joined(ms).len() <= usize::MAX,
    ensures
        member_starts(ms, base).len() == ms.len(),
        forall|k: int|
            0 <= k < ms.len() ==> member_starts(ms, base)[k] == base + member_starts(ms, 0)[k],
    decreases ms.len(),
{
    if ms.len() > 0 {
        lemma_member_starts_shift(ms.drop_last(), base);
        lemma_member_starts_bounded(ms.drop_last(), 0);
    }
}

/// The groups after the words `toks[k..]`: each word is a gid; a gid equal
/// to `group` is skipped, any other is appended unless the list already
/// holds `ngroups` entries, in which case, as for a word that is no number,
/// there is no result.
pub open spec fn groups_from(toks: Seq<Seq<u8>>, k: int, group: u32, ngroups: int, acc: Seq<u32>) -> Option<
    Seq<u32>,
>
    decreases toks.len() - k,
{
    if k < 0 || k >= toks.len() {
        Some(acc)
    } else {
        match parse_u32_spec(toks[k]) {
            None => None,
            Some(gid) => if gid == group {
                groups_from(toks, k + 1, group, ngroups, acc)
            } else if acc.len() == ngroups {
                None
            } else {
                groups_from(toks, k + 1, group, ngroups, acc.push(gid))
            },
        }
    }
}

/// The group list that a `getent initgroups` output gives for `user`, its
/// primary group `group` and room for `ngroups` entries: `group` first, then
/// the other listed groups in order; nothing when the output is malformed,
/// names another user, or the groups do not fit.
pub open spec fn grouplist_outcome(out: Seq<u8>, user: Seq<u8>, group: u32, ngroups: int) -> Option<
    Seq<u32>,
> {
    match getent_line(out) {
        None => None,
        Some(line) => {
            let toks = words(line);
            if toks.len() == 0 || toks[0] != user || ngroups == 0 {
                None
            } else {
                groups_from(toks, 1, group, ngroups, seq![group])
            }
        },
    }
}

/// The group list of `user` from a `getent initgroups` output, for a
/// caller with room for `ngroups` entries.
pub fn getgrouplist(out: &[u8], user: &[u8], group: u32, ngroups: i32) -> (r: Option<Vec<u32>>)
    ensures
        match r {
            Some(g) => grouplist_outcome(out@, user@, group, ngroups as int) == Some(g@),
            None => grouplist_outcome(out@, user@, group, ngroups as int) is None,
        },
{
    let line = match line_of(out) {
        Some(l) => l,
        None => return None,
    };
    let toks = split_words(line.as_slice());
    if toks.len() == 0 {
        return None;
    }
    let first = &toks[0];
    assert(first@ == views(toks@)[0]);
    if first.len() != user.len() {
        return None;
    }
    let mut c: usize = 0;
    while c < user.len()
        invariant
            c <= user@.len(),
            first@.len() == user@.len(),
            toks@.len() > 0,
            first@ == views(toks@)[0],
            views(toks@) == words(line@),
            getent_line(out@) == Some(line@),
            forall|j: int| 0 <= j < c ==> first@[j] == user@[j],
        decreases user@.len() - c,
    {
        if first[c] != user[c] {
            assert(first@[c as int] != user@[c as int]);
            assert(first@ != user@);
            return None;
        }
        c += 1;
    }
    assert(first@ =~= user@);
    if ngroups == 0 {
        return None;
    }
    let mut groups: Vec<u32> = Vec::new();
    groups.push(group);
    let mut k: usize = 1;
    while k < toks.len()
        invariant
            1 <= k <= toks@.len(),
            grouplist_outcome(out@, user@, group, ngroups as int) == groups_from(
                views(toks@),
                k as int,
                group,
                ngroups as int,
                groups@,
            ),
        decreases toks@.len() - k,
    {
        let tok = &toks[k];
        assert(tok@ == views(toks@)[k as int]);
        let gid = match parse_u32(tok.as_slice()) {
            Some(g) => g,
            None => return None,
        };
        if gid != group {
            if ngroups >= 0 && groups.len() == ngroups as usize {
                return None;
            }
            groups.push(gid);
        }
        k += 1;
    }
    Some(groups)
}

/// What the exit status of `getent` means.
pub enum GetentStatus {
    /// Status `0`: the output holds the record.
    Found,
    /// Status `2`: there is no such record.
    NotFound,
    /// No status (the command was killed): an I/O error.
    Failed,
    /// Any other status, which the C interfaces treat as a bug.
    Unexpected,
}

/// Classifies the exit status of `getent`.
pub fn classify_status(code: Option<i32>) -> (r: GetentStatus)
    ensures
        r == (match code {
            Some(0) => GetentStatus::Found,
            Some(2) => GetentStatus::NotFound,
            Some(_) => GetentStatus::Unexpected,
            None => GetentStatus::Failed,
        }),
{
    match code {
        Some(0) => GetentStatus::Found,
        Some(2) => GetentStatus::NotFound,
        Some(_) => GetentStatus::Unexpected,
        None => GetentStatus::Failed,
    }
}

/// The size of the next buffer that the non-reentrant lookups try: 1024
/// bytes first, then twice the previous size.
pub fn next_buffer_len(len: usize) -> (r: usize)
    requires
        len <= usize::MAX / 2,
    ensures
        r == (if len == 0 { 1024 } else { 2 * len }),
{
    if len == 0 {
        1024
    } else {
        len * 2
    }
}

/// What a non-reentrant lookup does after one attempt with the reentrant
/// function, which returned `status` while `errno` held `errno`: stop with
/// the record on `0`, try again with a larger buffer while `errno` is
/// `ERANGE`, and stop without a record otherwise.
pub enum RetryAction {
    /// The record was found (or found missing): return it.
    Done,
    /// Grow the buffer and try again.
    Retry,
    /// Return no record.
    Fail,
}

/// Decides the next step of a non-reentrant lookup.
pub fn retry_action(status: i32, errno: i32) -> (r: RetryAction)
    ensures
        r == (if status == 0 {
            RetryAction::Done
        } else if errno != ERANGE {
            RetryAction::Fail
        } else {
            RetryAction::Retry
        }),
{
    if status == 0 {
        RetryAction::Done
    } else if errno != ERANGE {
        RetryAction::Fail
    } else {
        RetryAction::Retry
    }
}


/// A string placed in a buffer stays placed when bytes are appended.
proof fn lemma_placed_extend(b: Seq<u8>, o: int, s: Seq<u8>, rest: Seq<u8>)
    requires
        placed_at(b, o, s),
    ensures
        placed_at(b + rest, o, s),
{
    assert((b + rest).subrange(o, o + s.len()) =~= b.subrange(o, o + s.len()));
}

/// A string placed in a buffer is placed, moved by the prefix's length,
/// when bytes are put in front.
proof fn lemma_placed_shift(pre: Seq<u8>, j: Seq<u8>, o: int, s: Seq<u8>)
    requires
        placed_at(j, o, s),
    ensures
        placed_at(pre + j, pre.len() + o, s),
{
    assert((pre + j).subrange(pre.len() + o, pre.len() + o + s.len()) =~= j.subrange(o, o + s.len()));
}

/// Every member stands NUL-terminated at its offset in the joined members.
proof fn lemma_joined_places(ms: Seq<Seq<u8>>)
    requires
        joined(ms).len() <= usize::MAX,
    ensures
        member_starts(ms, 0).len() == ms.len(),
        forall|k: int| 0 <= k < ms.len() ==> placed_at(joined(ms), member_starts(ms, 0)[k] as int, #[trigger] ms[k]),
    decreases ms.len(),
{
    if ms.len() > 0 {
        let init = ms.drop_last();
        let j0 = joined(init);
        lemma_joined_places(init);
        assert forall|k: int| 0 <= k < ms.len() implies placed_at(joined(ms), member_starts(ms, 0)[k] as int, #[trigger] ms[k]) by {
            if k < init.len() {
                assert(ms[k] == init[k]);
                lemma_placed_extend(j0, member_starts(init, 0)[k] as int, init[k], ms.last() + seq![0u8]);
                assert(j0 + (ms.last() + seq![0u8]) =~= joined(ms));
            } else {
                assert(joined(ms).subrange(j0.len() as int, (j0.len() + ms.last().len()) as int) =~= ms.last());
            }
        }
    }
}

/// The padding puts the member table at an address that is a multiple of
/// the pointer size.
proof fn lemma_pad_aligns(x: int, p: int)
    requires
        x >= 0,
        p > 0,
    ensures
        (x + (p - x % p)) % p == 0,
{
    vstd::arithmetic::div_mod::lemma_fundamental_div_mod(x, p);
    let q = x / p;
    assert(x + (p - x % p) == (q + 1) * p) by (nonlinear_arith)
        requires
            x == p * q + x % p,
    ;
    vstd::arithmetic::div_mod::lemma_mod_multiples_basic(q + 1, p);
}

/// Reading back a `group` record: the bytes fit in the buffer, the name and
/// password stand NUL-terminated at their offsets, the member table lies
/// zeroed at a pointer-aligned address with room for every member and the
/// terminating null, and each member stands NUL-terminated at its offset.
pub proof fn lemma_group_reads_back(out: Seq<u8>, buflen: int, buf_addr: int, ptr_size: int)
    requires
        0 <= buflen,
        0 <= buf_addr,
        ptr_size > 0,
        buf_addr + buflen <= usize::MAX,
    ensures
        group_outcome(out, buflen, buf_addr, ptr_size) matches Ok((b, o, g, mem, starts)) ==> {
            let f = split(getent_line(out)->0, COLON);
            let ms = members_of(f[3]);
            &&& b.len() <= buflen
            &&& placed_at(b, o[0] as int, f[0])
            &&& placed_at(b, o[1] as int, f[1])
            &&& (buf_addr + mem) % ptr_size == 0
            &&& mem + (ms.len() + 1) * ptr_size <= b.len()
            &&& forall|i: int| mem <= i < mem + (ms.len() + 1) * ptr_size ==> b[i] == 0
            &&& starts.len() == ms.len()
            &&& forall|k: int| 0 <= k < ms.len() ==> placed_at(b, starts[k] as int, #[trigger] ms[k])
        },
{
    if let Some(line) = getent_line(out) {
        let f = split(line, COLON);
        let gk = group_kinds();
        lemma_fill_reads_back(f, gk, 0, Seq::empty(), Seq::empty(), Seq::empty(), buflen, Seq::empty(), 0);
        if let Ok((b0, o, n)) = fill(f, gk, buflen) {
            if f.len() > 3 && f[3].len() <= buflen - b0.len() {
                let ms = members_of(f[3]);
                let pad = table_pad(buf_addr, b0.len() as int, ptr_size);
                let table = (ms.len() + 1) * ptr_size;
                if pad + table + joined(ms).len() <= buflen - b0.len() {
                    let z = zeros(pad + table);
                    let b = b0 + z + joined(ms);
                    assert(strings_of(f, gk, 3) =~= Seq::<Seq<u8>>::empty());
                    assert(strings_of(f, gk, 2) =~= Seq::<Seq<u8>>::empty());
                    assert(strings_of(f, gk, 1) =~= seq![f[1]]);
                    assert(strings_of(f, gk, 0) =~= seq![f[0], f[1]]);
                    assert(Seq::<Seq<u8>>::empty() + strings_of(f, gk, 0) =~= seq![f[0], f[1]]);
                    assert(placed_at(b0, o[0] as int, f[0]));
                    assert(placed_at(b0, o[1] as int, f[1]));
                    lemma_placed_extend(b0, o[0] as int, f[0], z + joined(ms));
                    lemma_placed_extend(b0, o[1] as int, f[1], z + joined(ms));
                    assert(b0 + (z + joined(ms)) =~= b);
                    lemma_pad_aligns(buf_addr + b0.len(), ptr_size);
                    let base = b0.len() + pad + table;
                    lemma_joined_places(ms);
                    lemma_member_starts_bounded(ms, 0);
                    lemma_member_starts_shift(ms, base);
                    assert forall|k: int| 0 <= k < ms.len() implies placed_at(b, member_starts(ms, base)[k] as int, #[trigger] ms[k]) by {
                        lemma_placed_shift(b0 + z, joined(ms), member_starts(ms, 0)[k] as int, ms[k]);
                    }
                    assert forall|i: int| b0.len() + pad <= i < b0.len() + pad + table implies b[i] == 0 by {
                        assert(b[i] == z[i - b0.len()]);
                    }
                }
            }
        }
    }
}


/// The members of a laid-out `group` record are exactly those its member
/// field names: none for an empty field; otherwise one per comma-separated
/// piece, so that the members joined with commas give back the field and no
/// member holds a comma, each standing NUL-terminated at its offset. A
/// group with one member has that one member.
pub proof fn lemma_group_members(out: Seq<u8>, buflen: int, buf_addr: int, ptr_size: int)
    requires
        0 <= buflen,
        0 <= buf_addr,
        ptr_size > 0,
        buf_addr + buflen <= usize::MAX,
    ensures
        group_outcome(out, buflen, buf_addr, ptr_size) matches Ok((b, o, g, mem, starts)) ==> {
            let field = split(getent_line(out)->0, COLON)[3];
            let ms = members_of(field);
            &&& starts.len() == ms.len()
            &&& forall|k: int| 0 <= k < ms.len() ==> placed_at(b, starts[k] as int, #[trigger] ms[k])
            &&& field.len() == 0 ==> starts.len() == 0
            &&& field.len() > 0 ==> join_with(ms, COMMA) == field
            &&& forall|k: int, i: int| 0 <= k < ms.len() && 0 <= i < ms[k].len() ==> #[trigger] ms[k][i] != COMMA
            &&& (field.len() > 0 && forall|i: int| 0 <= i < field.len() ==> field[i] != COMMA) ==> (
                starts.len() == 1 && placed_at(b, starts[0] as int, field))
        },
{
    lemma_group_reads_back(out, buflen, buf_addr, ptr_size);
    if let Some(line) = getent_line(out) {
        let f = split(line, COLON);
        if f.len() > 3 {
            let field = f[3];
            lemma_split_rejoins(field, COMMA);
            if field.len() > 0 && forall|i: int| 0 <= i < field.len() ==> field[i] != COMMA {
                let ms = split(field, COMMA);
                if ms.len() >= 2 {
                    lemma_join_holds_separator(ms, COMMA);
                    let p = choose|p: int| 0 <= p < join_with(ms, COMMA).len() && join_with(ms, COMMA)[p] == COMMA;
                    assert(field[p] == COMMA);
                }
                assert(ms.len() == 1);
                assert(join_with(ms, COMMA) == ms[0]);
            }
        }
    }
}

/// Two or more pieces joined with `sep` hold `sep`.
proof fn lemma_join_holds_separator(ps: Seq<Seq<u8>>, sep: u8)
    requires
        ps.len() >= 2,
    ensures
        exists|p: int| 0 <= p < join_with(ps, sep).len() && join_with(ps, sep)[p] == sep,
{
    let pre = join_with(ps.drop_last(), sep);
    let j = join_with(ps, sep);
    assert(j == pre + seq![sep] + ps.last());
    assert(j[pre.len() as int] == sep);
}

/// The shape of a group list under construction: the primary group first,
/// no other entry equal to it, and no more entries than the caller has room
/// for.
pub open spec fn grouplist_shaped(g: Seq<u32>, group: u32, ngroups: int) -> bool {
    &&& g.len() >= 1
    &&& g[0] == group
    &&& forall|j: int| 1 <= j < g.len() ==> #[trigger] g[j] != group
    &&& ngroups >= 0 ==> g.len() <= ngroups
}

proof fn lemma_groups_from_shaped(toks: Seq<Seq<u8>>, k: int, group: u32, ngroups: int, acc: Seq<u32>)
    requires
        grouplist_shaped(acc, group, ngroups),
    ensures
        groups_from(toks, k, group, ngroups, acc) matches Some(g) ==> grouplist_shaped(g, group, ngroups),
    decreases toks.len() - k,
{
    if 0 <= k < toks.len() {
        if let Some(gid) = parse_u32_spec(toks[k]) {
            if gid == group {
                lemma_groups_from_shaped(toks, k + 1, group, ngroups, acc);
            } else if acc.len() != ngroups {
                let next = acc.push(gid);
                assert(grouplist_shaped(next, group, ngroups));
                lemma_groups_from_shaped(toks, k + 1, group, ngroups, next);
            }
        }
    }
}

/// A group list, when there is one, starts with the primary group, holds it
/// nowhere else, and fits the room the caller gave.
pub proof fn lemma_grouplist_shape(out: Seq<u8>, user: Seq<u8>, group: u32, ngroups: int)
    ensures
        grouplist_outcome(out, user, group, ngroups) matches Some(g) ==> grouplist_shaped(g, group, ngroups),
{
    if let Some(line) = getent_line(out) {
        let toks = words(line);
        if toks.len() > 0 && toks[0] == user && ngroups != 0 {
            lemma_groups_from_shaped(toks, 1, group, ngroups, seq![group]);
        }
    }
}

} // verus!
