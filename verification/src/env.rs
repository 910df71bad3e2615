//! The process environment: a list of `key=value` entries.

use vstd::prelude::*;
use crate::data::EINVAL;

verus! {

/// The byte `=`.
pub const EQUALS: u8 = 61;

/// The environment, one `key=value` byte string per entry, in order.
pub struct Environ {
    /// The entries.
    pub entries: Vec<Vec<u8>>,
}

impl View for Environ {
    type V = Seq<Seq<u8>>;

    open spec fn view(&self) -> Seq<Seq<u8>> {
        self.entries@.map_values(|e: Vec<u8>| e@)
    }
}

/// `key` is the part of `entry` before its first `=`.
pub open spec fn entry_key_is(entry: Seq<u8>, key: Seq<u8>) -> bool {
    &&& key.len() < entry.len()
    &&& entry[key.len() as int] == EQUALS
    &&& entry.take(key.len() as int) == key
    &&& forall|j: int| 0 <= j < key.len() ==> key[j] != EQUALS
}

/// Index of the first entry from `i` on whose key is `key`.
pub open spec fn find_from(entries: Seq<Seq<u8>>, key: Seq<u8>, i: int) -> Option<int>
    decreases entries.len() - i,
{
    if i < 0 || i >= entries.len() {
        None
    } else if entry_key_is(entries[i], key) {
        Some(i)
    } else {
        find_from(entries, key, i + 1)
    }
}

/// Index of the first entry whose key is `key`.
pub open spec fn find_key(entries: Seq<Seq<u8>>, key: Seq<u8>) -> Option<int> {
    find_from(entries, key, 0)
}

/// What [`find_from`] finds: the first matching index from `i` on, or no
/// match at all.
pub proof fn lemma_find_from(entries: Seq<Seq<u8>>, key: Seq<u8>, i: int)
    requires
        0 <= i,
    ensures
        match find_from(entries, key, i) {
            Some(j) => i <= j < entries.len() && entry_key_is(entries[j], key) && forall|k: int|
                i <= k < j ==> !entry_key_is(#[trigger] entries[k], key),
            None => forall|k: int| i <= k < entries.len() ==> !entry_key_is(#[trigger] entries[k], key),
        },
    decreases entries.len() - i,
{
    if i < entries.len() && !entry_key_is(entries[i], key) {
        lemma_find_from(entries, key, i + 1);
    }
}

/// The value of the first entry whose key is `key`.
pub open spec fn lookup(entries: Seq<Seq<u8>>, key: Seq<u8>) -> Option<Seq<u8>> {
    match find_key(entries, key) {
        Some(i) => Some(entries[i].skip(key.len() + 1int)),
        None => None,
    }
}

/// A key that may be set or unset: not empty and without `=`.
pub open spec fn valid_key(key: Seq<u8>) -> bool {
    key.len() > 0 && forall|j: int| 0 <= j < key.len() ==> key[j] != EQUALS
}

/// The entry `key=value`.
pub open spec fn entry_of(key: Seq<u8>, value: Seq<u8>) -> Seq<u8> {
    key + seq![EQUALS] + value
}

/// The entries after setting `key` to `value`: the first entry with that
/// key is replaced when `overwrite` holds and kept otherwise; without such
/// an entry the new one is appended.
pub open spec fn set_entries(entries: Seq<Seq<u8>>, key: Seq<u8>, value: Seq<u8>, overwrite: bool) -> Seq<
    Seq<u8>,
> {
    match find_key(entries, key) {
        Some(i) => if overwrite {
            entries.update(i, entry_of(key, value))
        } else {
            entries
        },
        None => entries.push(entry_of(key, value)),
    }
}

/// The entries after unsetting `key`: the first entry with that key is
/// replaced by the last entry, which is then dropped.
pub open spec fn unset_entries(entries: Seq<Seq<u8>>, key: Seq<u8>) -> Seq<Seq<u8>> {
    match find_key(entries, key) {
        Some(i) => entries.update(i, entries.last()).drop_last(),
        None => entries,
    }
}

/// No two entries have the same key.
pub open spec fn unique_keys(entries: Seq<Seq<u8>>) -> bool {
    forall|i: int, j: int, key: Seq<u8>|
        #![trigger entry_key_is(entries[i], key), entry_key_is(entries[j], key)]
        0 <= i < entries.len() && 0 <= j < entries.len() && entry_key_is(entries[i], key)
            && entry_key_is(entries[j], key) ==> i == j
}

/// Whether the key of `entry` is `key`.
fn entry_matches(entry: &Vec<u8>, key: &[u8]) -> (r: bool)
    ensures
        r == entry_key_is(entry@, key@),
{
    let n = entry.len();
    let mut p: usize = 0;
    while p < n && entry[p] != EQUALS
        invariant
            p <= n,
            n == entry@.len(),
            forall|j: int| 0 <= j < p ==> entry@[j] != EQUALS,
        decreases n - p,
    {
        p += 1;
    }
    if p == n || p != key.len() {
        assert(!entry_key_is(entry@, key@)) by {
            if entry_key_is(entry@, key@) {
                if key@.len() < p {
                    assert(entry@[key@.len() as int] != EQUALS);
                } else {
                    assert(entry@[p as int] == key@[p as int]);
                }
            }
        }
        return false;
    }
    let mut i: usize = 0;
    while i < p
        invariant
            i <= p,
            p == key@.len(),
            p < entry@.len(),
            n == entry@.len(),
            forall|j: int| 0 <= j < p ==> entry@[j] != EQUALS,
            forall|j: int| 0 <= j < i ==> entry@[j] == key@[j],
        decreases p - i,
    {
        if entry[i] != key[i] {
            assert(entry@.take(p as int)[i as int] != key@[i as int]);
            return false;
        }
        i += 1;
    }
    assert(entry@.take(p as int) =~= key@);
    true
}

/// Index of the first entry whose key is `key`.
pub fn find_entry(env: &Environ, key: &[u8]) -> (r: Option<usize>)
    ensures
        match r {
            Some(i) => find_key(env@, key@) == Some(i as int) && i < env@.len() && entry_key_is(
                env@[i as int],
                key@,
            ),
            None => find_key(env@, key@) is None,
        },
{
    proof {
        lemma_find_from(env@, key@, 0);
    }
    let n = env.entries.len();
    let mut i: usize = 0;
    while i < n
        invariant
            i <= n,
            n == env@.len(),
            find_key(env@, key@) == find_from(env@, key@, i as int),
        decreases n - i,
    {
        if entry_matches(&env.entries[i], key) {
            return Some(i);
        }
        i += 1;
    }
    None
}

/// The value of the first entry whose key is `key`.
pub fn getenv(env: &Environ, key: &[u8]) -> (r: Option<Vec<u8>>)
    ensures
        match r {
            Some(v) => lookup(env@, key@) == Some(v@),
            None => lookup(env@, key@) is None,
        },
{
    match find_entry(env, key) {
        Some(i) => {
            let entry = &env.entries[i];
            assert(entry@ == env@[i as int]);
            let n = entry.len();
            let mut v: Vec<u8> = Vec::new();
            let mut j: usize = key.len() + 1;
            while j < n
                invariant
                    n == entry@.len(),
                    key@.len() + 1 <= j <= entry@.len(),
                    entry@ == env@[i as int],
                    v@ == entry@.subrange(key@.len() + 1int, j as int),
                decreases entry@.len() - j,
            {
                v.push(entry[j]);
                j += 1;
                assert(v@ =~= entry@.subrange(key@.len() + 1int, j as int));
            }
            assert(v@ =~= entry@.skip(key@.len() + 1int));
            Some(v)
        },
        None => None,
    }
}

/// The value of `LOGNAME`.
pub fn getlogin(env: &Environ) -> (r: Option<Vec<u8>>)
    ensures
        match r {
            Some(v) => lookup(env@, seq![76u8, 79, 71, 78, 65, 77, 69]) == Some(v@),
            None => lookup(env@, seq![76u8, 79, 71, 78, 65, 77, 69]) is None,
        },
{
    let name: [u8; 7] = [76, 79, 71, 78, 65, 77, 69];
    assert(name@ =~= seq![76u8, 79, 71, 78, 65, 77, 69]);
    getenv(env, &name)
}

/// Whether `key` may be set or unset.
fn key_is_valid(key: &[u8]) -> (r: bool)
    ensures
        r == valid_key(key@),
{
    if key.len() == 0 {
        return false;
    }
    let mut i: usize = 0;
    while i < key.len()
        invariant
            i <= key@.len(),
            forall|j: int| 0 <= j < i ==> key@[j] != EQUALS,
        decreases key@.len() - i,
    {
        if key[i] == EQUALS {
            return false;
        }
        i += 1;
    }
    true
}

/// Sets `key` to `value`. A missing key or value, an empty key and a key
/// with `=` are refused with `EINVAL`; otherwise the entries become
/// [`set_entries`] of the old ones.
pub fn setenv(env: &mut Environ, key: Option<&[u8]>, value: Option<&[u8]>, overwrite: i32) -> (r:
    Result<(), i32>)
    ensures
        match (key, value) {
            (Some(k), Some(v)) => if valid_key(k@) {
                r is Ok && final(env)@ == set_entries(old(env)@, k@, v@, overwrite != 0)
            } else {
                r == Err::<(), i32>(EINVAL) && final(env)@ == old(env)@
            },
            _ => r == Err::<(), i32>(EINVAL) && final(env)@ == old(env)@,
        },
{
    let (key, value) = match (key, value) {
        (Some(k), Some(v)) => (k, v),
        _ => return Err(EINVAL),
    };
    if !key_is_valid(key) {
        return Err(EINVAL);
    }
    let mut owned: Vec<u8> = Vec::new();
    owned.extend_from_slice(key);
    owned.push(EQUALS);
    owned.extend_from_slice(value);
    assert(owned@ =~= entry_of(key@, value@));
    match find_entry(env, key) {
        Some(i) => {
            if overwrite != 0 {
                env.entries.set(i, owned);
                assert(env@ =~= old(env)@.update(i as int, entry_of(key@, value@)));
            }
        },
        None => {
            env.entries.push(owned);
            assert(env@ =~= old(env)@.push(entry_of(key@, value@)));
        },
    }
    Ok(())
}

/// Unsets `key`. A missing key, an empty key and a key with `=` are refused
/// with `EINVAL`; otherwise the entries become [`unset_entries`] of the old
/// ones.
pub fn unsetenv(env: &mut Environ, key: Option<&[u8]>) -> (r: Result<(), i32>)
    ensures
        match key {
            Some(k) => if valid_key(k@) {
                r is Ok && final(env)@ == unset_entries(old(env)@, k@)
            } else {
                r == Err::<(), i32>(EINVAL) && final(env)@ == old(env)@
            },
            None => r == Err::<(), i32>(EINVAL) && final(env)@ == old(env)@,
        },
{
    let key = match key {
        Some(k) => k,
        None => return Err(EINVAL),
    };
    if !key_is_valid(key) {
        return Err(EINVAL);
    }
    match find_entry(env, key) {
        Some(i) => {
            let ghost before = env@;
            env.entries.swap_remove(i);
            assert(env@ =~= before.update(i as int, before.last()).drop_last());
        },
        None => {},
    }
    Ok(())
}

/// An entry has a single key.
pub proof fn lemma_single_key(entry: Seq<u8>, k1: Seq<u8>, k2: Seq<u8>)
    requires
        entry_key_is(entry, k1),
        entry_key_is(entry, k2),
    ensures
        k1 == k2,
{
    if k1.len() < k2.len() {
        assert(entry.take(k2.len() as int)[k1.len() as int] == entry[k1.len() as int]);
    } else if k2.len() < k1.len() {
        assert(entry.take(k1.len() as int)[k2.len() as int] == entry[k2.len() as int]);
    }
    assert(k1 =~= k2);
}

/// The first match is the one [`find_key`] finds.
pub proof fn lemma_find_is(entries: Seq<Seq<u8>>, key: Seq<u8>, j: int)
    requires
        0 <= j < entries.len(),
        entry_key_is(entries[j], key),
        forall|k: int| 0 <= k < j ==> !entry_key_is(#[trigger] entries[k], key),
    ensures
        find_key(entries, key) == Some(j),
{
    lemma_find_from(entries, key, 0);
}

/// Without a match [`find_key`] finds nothing.
pub proof fn lemma_find_none(entries: Seq<Seq<u8>>, key: Seq<u8>)
    requires
        forall|k: int| 0 <= k < entries.len() ==> !entry_key_is(#[trigger] entries[k], key),
    ensures
        find_key(entries, key) is None,
{
    lemma_find_from(entries, key, 0);
}

/// The entry built from a valid key has that key and that value.
pub proof fn lemma_entry_of(key: Seq<u8>, value: Seq<u8>)
    requires
        valid_key(key),
    ensures
        entry_key_is(entry_of(key, value), key),
        entry_of(key, value).skip(key.len() + 1int) == value,
{
    assert(entry_of(key, value).take(key.len() as int) =~= key);
    assert(entry_of(key, value).skip(key.len() + 1int) =~= value);
}

/// Reading a variable after setting it: with `overwrite`, or when the
/// variable was not set before, the new value is read back; without
/// `overwrite` an existing value stays.
pub proof fn lemma_get_after_set(entries: Seq<Seq<u8>>, key: Seq<u8>, value: Seq<u8>, overwrite: bool)
    requires
        valid_key(key),
    ensures
        overwrite || lookup(entries, key) is None ==> lookup(
            set_entries(entries, key, value, overwrite),
            key,
        ) == Some(value),
        !overwrite && lookup(entries, key) is Some ==> lookup(
            set_entries(entries, key, value, overwrite),
            key,
        ) == lookup(entries, key),
{
    lemma_find_from(entries, key, 0);
    lemma_entry_of(key, value);
    let s = set_entries(entries, key, value, overwrite);
    match find_key(entries, key) {
        Some(i) => {
            if overwrite {
                assert forall|k: int| 0 <= k < i implies !entry_key_is(#[trigger] s[k], key) by {
                    assert(s[k] == entries[k]);
                }
                lemma_find_is(s, key, i);
            }
        },
        None => {
            assert forall|k: int| 0 <= k < entries.len() implies !entry_key_is(#[trigger] s[k], key) by {
                assert(s[k] == entries[k]);
            }
            lemma_find_is(s, key, entries.len() as int);
        },
    }
}

/// Setting a variable leaves every other variable as it was.
pub proof fn lemma_set_keeps_others(
    entries: Seq<Seq<u8>>,
    key: Seq<u8>,
    value: Seq<u8>,
    overwrite: bool,
    other: Seq<u8>,
)
    requires
        valid_key(key),
        other != key,
    ensures
        lookup(set_entries(entries, key, value, overwrite), other) == lookup(entries, other),
{
    lemma_find_from(entries, key, 0);
    lemma_find_from(entries, other, 0);
    lemma_entry_of(key, value);
    let s = set_entries(entries, key, value, overwrite);
    if entry_key_is(entry_of(key, value), other) {
        lemma_single_key(entry_of(key, value), key, other);
    }
    assert forall|k: int| 0 <= k < s.len() && #[trigger] entry_key_is(s[k], other) implies k
        < entries.len() && s[k] == entries[k] by {
        if k < entries.len() && s[k] != entries[k] {
            assert(s[k] == entry_of(key, value));
        }
    }
    assert forall|k: int|
        0 <= k < entries.len() && #[trigger] entry_key_is(entries[k], other) implies s[k]
        == entries[k] by {
        if s[k] != entries[k] {
            let i = find_key(entries, key)->0;
            assert(k == i);
            lemma_single_key(entries[k], key, other);
        }
    }
    match find_key(entries, other) {
        Some(j) => {
            assert forall|k: int| 0 <= k < j implies !entry_key_is(#[trigger] s[k], other) by {}
            lemma_find_is(s, other, j);
        },
        None => {
            assert forall|k: int| 0 <= k < s.len() implies !entry_key_is(#[trigger] s[k], other) by {}
            lemma_find_none(s, other);
        },
    }
}

/// Reading a variable after unsetting it finds nothing, when no two entries
/// share a key.
pub proof fn lemma_get_after_unset(entries: Seq<Seq<u8>>, key: Seq<u8>)
    requires
        unique_keys(entries),
    ensures
        lookup(unset_entries(entries, key), key) is None,
{
    lemma_find_from(entries, key, 0);
    let s = unset_entries(entries, key);
    match find_key(entries, key) {
        Some(i) => {
            assert forall|k: int| 0 <= k < s.len() implies !entry_key_is(#[trigger] s[k], key) by {
                if k == i {
                    if entry_key_is(entries[entries.len() - 1], key) {
                        assert(entries.len() - 1 == i);
                    }
                } else {
                    if entry_key_is(entries[k], key) {
                        assert(k == i);
                    }
                }
            }
            lemma_find_none(s, key);
        },
        None => {},
    }
}

/// Setting and unsetting keep the keys of the entries unique.
pub proof fn lemma_unique_kept(entries: Seq<Seq<u8>>, key: Seq<u8>, value: Seq<u8>, overwrite: bool)
    requires
        unique_keys(entries),
        valid_key(key),
    ensures
        unique_keys(set_entries(entries, key, value, overwrite)),
        unique_keys(unset_entries(entries, key)),
{
    lemma_find_from(entries, key, 0);
    lemma_entry_of(key, value);
    let s = set_entries(entries, key, value, overwrite);
    assert forall|i: int, j: int, k: Seq<u8>|
        #![trigger entry_key_is(s[i], k), entry_key_is(s[j], k)]
        0 <= i < s.len() && 0 <= j < s.len() && entry_key_is(s[i], k) && entry_key_is(s[j], k)
        implies i == j by {
        if entry_key_is(entry_of(key, value), k) {
            lemma_single_key(entry_of(key, value), key, k);
        }
        match find_key(entries, key) {
            Some(f) => {
                if overwrite {
                    if i == f && j != f {
                        assert(entry_key_is(entries[f], k));
                    } else if j == f && i != f {
                        assert(entry_key_is(entries[f], k));
                    }
                }
            },
            None => {
                if i == entries.len() && j < entries.len() {
                    assert(k == key);
                } else if j == entries.len() && i < entries.len() {
                    assert(k == key);
                }
            },
        }
    }
    let u = unset_entries(entries, key);
    assert forall|i: int, j: int, k: Seq<u8>|
        #![trigger entry_key_is(u[i], k), entry_key_is(u[j], k)]
        0 <= i < u.len() && 0 <= j < u.len() && entry_key_is(u[i], k) && entry_key_is(u[j], k)
        implies i == j by {
        match find_key(entries, key) {
            Some(f) => {
                let l = entries.len() - 1;
                let oi = if i == f { l } else { i };
                let oj = if j == f { l } else { j };
                assert(entries[oi] == u[i]);
                assert(entries[oj] == u[j]);
                assert(oi == oj);
            },
            None => {},
        }
    }
}


/// Unsetting a variable leaves every other variable as it was, when no two
/// entries share a key.
pub proof fn lemma_unset_keeps_others(entries: Seq<Seq<u8>>, key: Seq<u8>, other: Seq<u8>)
    requires
        unique_keys(entries),
        other != key,
    ensures
        lookup(unset_entries(entries, key), other) == lookup(entries, other),
{
    lemma_find_from(entries, key, 0);
    lemma_find_from(entries, other, 0);
    let u = unset_entries(entries, key);
    match find_key(entries, key) {
        Some(i) => {
            let l = entries.len() - 1;
            if entry_key_is(entries[i], other) {
                lemma_single_key(entries[i], key, other);
            }
            match find_key(entries, other) {
                Some(j) => {
                    let pos = if j == l { i } else { j };
                    assert(u[pos] == entries[j]);
                    assert forall|k: int| 0 <= k < pos implies !entry_key_is(#[trigger] u[k], other) by {
                        let ok = if k == i { l } else { k };
                        assert(u[k] == entries[ok]);
                        if entry_key_is(entries[ok], other) {
                            assert(ok == j);
                        }
                    }
                    lemma_find_is(u, other, pos);
                },
                None => {
                    assert forall|k: int| 0 <= k < u.len() implies !entry_key_is(#[trigger] u[k], other) by {
                        let ok = if k == i { l } else { k };
                        assert(u[k] == entries[ok]);
                    }
                    lemma_find_none(u, other);
                },
            }
        },
        None => {},
    }
}

} // verus!
