//! The search rules of the `utmpx` database: which record `getutxid` and
//! `getutxline` stop at.

use vstd::prelude::*;
use crate::data::{
    RUN_LVL, BOOT_TIME, NEW_TIME, OLD_TIME, INIT_PROCESS, LOGIN_PROCESS, USER_PROCESS,
    DEAD_PROCESS,
};
use crate::mem::same_bytes;

verus! {

/// The fields of a `utmpx` record that the searches look at.
pub struct UtmpKey {
    /// `ut_type`.
    pub ut_type: i16,
    /// `ut_id`, all its bytes.
    pub ut_id: Vec<u8>,
    /// `ut_line`, all its bytes.
    pub ut_line: Vec<u8>,
}

/// Whether a record of type `t` is one of the clock and run-level records,
/// which `getutxid` matches by type.
pub open spec fn is_time_type(t: i16) -> bool {
    t == RUN_LVL || t == BOOT_TIME || t == NEW_TIME || t == OLD_TIME
}

/// Whether a record of type `t` is one of the process records, which
/// `getutxid` matches by id.
pub open spec fn is_process_type(t: i16) -> bool {
    t == INIT_PROCESS || t == LOGIN_PROCESS || t == USER_PROCESS || t == DEAD_PROCESS
}

/// Whether `getutxid` stops at the record `entry` for the query `query`: a
/// clock or run-level query matches a record of the same type, a process
/// query a record with the same id, any other query nothing.
pub open spec fn id_matches(query: UtmpKey, entry: UtmpKey) -> bool {
    if is_time_type(query.ut_type) {
        entry.ut_type == query.ut_type
    } else if is_process_type(query.ut_type) {
        entry.ut_id@ == query.ut_id@
    } else {
        false
    }
}

/// Whether `getutxline` stops at the record `entry` for the query `query`:
/// a user or login record on the same line.
pub open spec fn line_matches(query: UtmpKey, entry: UtmpKey) -> bool {
    (entry.ut_type == USER_PROCESS || entry.ut_type == LOGIN_PROCESS) && entry.ut_line@
        == query.ut_line@
}

/// Whether `getutxid` stops at `entry`.
pub fn getutxid_matches(query: &UtmpKey, entry: &UtmpKey) -> (r: bool)
    ensures
        r == id_matches(*query, *entry),
        1 <= query.ut_type <= 4 ==> (r <==> entry.ut_type == query.ut_type),
        5 <= query.ut_type <= 8 ==> (r <==> entry.ut_id@ == query.ut_id@),
        !(1 <= query.ut_type <= 8) ==> !r,
{
    proof {
        lemma_id_search_rules(*query, *entry);
    }
    let t = query.ut_type;
    if t == RUN_LVL || t == BOOT_TIME || t == NEW_TIME || t == OLD_TIME {
        entry.ut_type == t
    } else if t == INIT_PROCESS || t == LOGIN_PROCESS || t == USER_PROCESS || t == DEAD_PROCESS {
        same_bytes(entry.ut_id.as_slice(), query.ut_id.as_slice())
    } else {
        false
    }
}

/// Whether `getutxline` stops at `entry`.
pub fn getutxline_matches(query: &UtmpKey, entry: &UtmpKey) -> (r: bool)
    ensures
        r == line_matches(*query, *entry),
{
    (entry.ut_type == USER_PROCESS || entry.ut_type == LOGIN_PROCESS) && same_bytes(
        entry.ut_line.as_slice(),
        query.ut_line.as_slice(),
    )
}

/// `getutxid` over the records that remain to be read: the first one that
/// matches the query, or nothing when none does (the database then runs out
/// and the call fails).
pub fn find_utxid(query: &UtmpKey, entries: &[UtmpKey]) -> (r: Option<usize>)
    ensures
        match r {
            Some(i) => i < entries@.len() && id_matches(*query, entries@[i as int]) && forall|
                j: int,
            | 0 <= j < i ==> !id_matches(*query, #[trigger] entries@[j]),
            None => forall|j: int|
                0 <= j < entries@.len() ==> !id_matches(*query, #[trigger] entries@[j]),
        },
        forall|j: int|
            0 <= j < entries@.len() && 5 <= query.ut_type <= 8 && #[trigger] entries@[j].ut_id@
                == query.ut_id@ ==> (r is Some && r->0 <= j),
        forall|j: int|
            0 <= j < entries@.len() && 1 <= query.ut_type <= 4 && #[trigger] entries@[j].ut_type
                == query.ut_type ==> (r is Some && r->0 <= j),
{
    let r = first_utxid(query, entries);
    proof {
        assert forall|j: int| 0 <= j < entries@.len() implies
            (5 <= query.ut_type <= 8 && #[trigger] entries@[j].ut_id@ == query.ut_id@ ==> (r is Some && r->0 <= j))
            && (1 <= query.ut_type <= 4 && entries@[j].ut_type == query.ut_type ==> (r is Some && r->0 <= j)) by {
            lemma_id_search_rules(*query, entries@[j]);
        }
    }
    r
}

/// The first record at which `getutxid` stops.
fn first_utxid(query: &UtmpKey, entries: &[UtmpKey]) -> (r: Option<usize>)
    ensures
        match r {
            Some(i) => i < entries@.len() && id_matches(*query, entries@[i as int]) && forall|
                j: int,
            | 0 <= j < i ==> !id_matches(*query, #[trigger] entries@[j]),
            None => forall|j: int|
                0 <= j < entries@.len() ==> !id_matches(*query, #[trigger] entries@[j]),
        },
{
    let mut i: usize = 0;
    while i < entries.len()
        invariant
            i <= entries@.len(),
            forall|j: int| 0 <= j < i ==> !id_matches(*query, #[trigger] entries@[j]),
        decreases entries@.len() - i,
    {
        if getutxid_matches(query, &entries[i]) {
            return Some(i);
        }
        i += 1;
    }
    None
}

/// `getutxline` over the records that remain to be read: the first user or
/// login record on the query's line, or nothing when none is.
pub fn find_utxline(query: &UtmpKey, entries: &[UtmpKey]) -> (r: Option<usize>)
    ensures
        match r {
            Some(i) => i < entries@.len() && line_matches(*query, entries@[i as int]) && forall|
                j: int,
            | 0 <= j < i ==> !line_matches(*query, #[trigger] entries@[j]),
            None => forall|j: int|
                0 <= j < entries@.len() ==> !line_matches(*query, #[trigger] entries@[j]),
        },
{
    let mut i: usize = 0;
    while i < entries.len()
        invariant
            i <= entries@.len(),
            forall|j: int| 0 <= j < i ==> !line_matches(*query, #[trigger] entries@[j]),
        decreases entries@.len() - i,
    {
        if getutxline_matches(query, &entries[i]) {
            return Some(i);
        }
        i += 1;
    }
    None
}

/// The search rules of `getutxid` by the query's type: a clock or run-level
/// query (`RUN_LVL`, `BOOT_TIME`, `NEW_TIME`, `OLD_TIME`, the types `1` to
/// `4`) stops at a record of the same type; a process query
/// (`INIT_PROCESS`, `LOGIN_PROCESS`, `USER_PROCESS`, `DEAD_PROCESS`, the
/// types `5` to `8`) stops at a record with the same `ut_id`, whatever that
/// record's type, so that a `DEAD_PROCESS` query finds the session it ends;
/// a query of any other type stops nowhere. `getutxline` stops at a login or
/// user record (types `6` and `7`) on the query's line.
pub proof fn lemma_id_search_rules(query: UtmpKey, entry: UtmpKey)
    ensures
        1 <= query.ut_type <= 4 ==> (id_matches(query, entry) <==> entry.ut_type == query.ut_type),
        5 <= query.ut_type <= 8 ==> (id_matches(query, entry) <==> entry.ut_id@ == query.ut_id@),
        !(1 <= query.ut_type <= 8) ==> !id_matches(query, entry),
        line_matches(query, entry) <==> (entry.ut_type == 6 || entry.ut_type == 7) && entry.ut_line@
            == query.ut_line@,
{
}

/// A query of neither kind that `getutxid` knows never matches: the search
/// reads the whole database and fails.
pub proof fn lemma_unknown_query_never_matches(query: UtmpKey, entry: UtmpKey)
    requires
        !is_time_type(query.ut_type),
        !is_process_type(query.ut_type),
    ensures
        !id_matches(query, entry),
{
}

} // verus!
