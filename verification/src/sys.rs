//! System queries and small allocation helpers.

use vstd::prelude::*;
use crate::data::{_SC_PAGESIZE, _SC_NPROCESSORS_ONLN};
use crate::mem::same_bytes;

verus! {

/// `rustix::param::page_size`: the system's page size. Nothing is stated of
/// its value.
#[verifier::external_body]
fn page_size() -> (r: usize) {
    rustix::param::page_size()
}

/// What `sysconf` answers for `name` on a system with pages of `page_size`
/// bytes: the page size, or one online processor; nothing for other names.
pub fn sysconf_with(name: i32, page_size: usize) -> (r: Option<i64>)
    requires
        page_size <= i64::MAX,
    ensures
        r == (if name == _SC_PAGESIZE {
            Some(page_size as i64)
        } else if name == _SC_NPROCESSORS_ONLN {
            Some(1i64)
        } else {
            None::<i64>
        }),
{
    if name == _SC_PAGESIZE {
        Some(page_size as i64)
    } else if name == _SC_NPROCESSORS_ONLN {
        Some(1)
    } else {
        None
    }
}

/// `sysconf(name)`: the page size that the system reports, one online
/// processor, or nothing for other names; nothing also where the page size
/// does not fit in a `long`.
pub fn sysconf(name: i32) -> (r: Option<i64>)
    ensures
        name == _SC_NPROCESSORS_ONLN ==> r == Some(1i64),
        name != _SC_PAGESIZE && name != _SC_NPROCESSORS_ONLN ==> r is None,
        name == _SC_PAGESIZE ==> (r matches Some(p) ==> p >= 0),
{
    if name != _SC_PAGESIZE {
        return sysconf_with(name, 0);
    }
    let p = page_size();
    if p as u64 > i64::MAX as u64 {
        return None;
    }
    sysconf_with(name, p)
}

/// The number of pages of `page_size` bytes in `units` memory units of
/// `mem_unit` bytes (a unit of `0` counting as one byte), saturated to
/// `i64::MAX`.
pub open spec fn pages_of(units: int, mem_unit: int, page_size: int) -> int {
    let unit = if mem_unit == 0 {
        1
    } else {
        mem_unit
    };
    let pages = (units * unit) / page_size;
    if pages > i64::MAX {
        i64::MAX as int
    } else {
        pages
    }
}

/// The number of pages in `units` memory units of `mem_unit` bytes.
pub fn pages_in(units: u64, mem_unit: u32, page_size: usize) -> (r: i64)
    requires
        page_size > 0,
        units * (if mem_unit == 0 { 1 } else { mem_unit as int }) <= u64::MAX,
    ensures
        r == pages_of(units as int, mem_unit as int, page_size as int),
{
    let unit: u64 = if mem_unit == 0 {
        1
    } else {
        mem_unit as u64
    };
    let bytes = units * unit;
    let pages = bytes / (page_size as u64);
    if pages > i64::MAX as u64 {
        i64::MAX
    } else {
        pages as i64
    }
}

/// `get_phys_pages`: the pages of total memory that `sysinfo` reports, in
/// the system's page size; nothing where the page size is zero.
pub fn get_phys_pages(totalram: u64, mem_unit: u32) -> (r: Option<i64>)
    requires
        totalram * (if mem_unit == 0 { 1 } else { mem_unit as int }) <= u64::MAX,
    ensures
        r matches Some(n) ==> exists|p: int|
            p > 0 && n == #[trigger] pages_of(totalram as int, mem_unit as int, p),
{
    let p = page_size();
    if p == 0 {
        return None;
    }
    Some(pages_in(totalram, mem_unit, p))
}

/// `get_avphys_pages`: the pages of free and buffer memory that `sysinfo`
/// reports, in the system's page size; nothing where the page size is zero.
pub fn get_avphys_pages(freeram: u64, bufferram: u64, mem_unit: u32) -> (r: Option<i64>)
    requires
        (freeram + bufferram) * (if mem_unit == 0 { 1 } else { mem_unit as int }) <= u64::MAX,
    ensures
        r matches Some(n) ==> exists|p: int|
            p > 0 && n == #[trigger] pages_of(freeram + bufferram, mem_unit as int, p),
{
    assert(freeram + bufferram <= u64::MAX) by (nonlinear_arith)
        requires
            (freeram + bufferram) * (if mem_unit == 0 { 1 } else { mem_unit as int }) <= u64::MAX,
    ;
    let p = page_size();
    if p == 0 {
        return None;
    }
    Some(pages_in(freeram + bufferram, mem_unit, p))
}

/// `get_nprocs_conf` from the parallelism that the system reports, if it
/// reports one: that number saturated to `i32::MAX`, else one.
pub fn get_nprocs_conf(parallelism: Option<usize>) -> (r: i32)
    ensures
        r == (match parallelism {
            Some(n) => if n <= i32::MAX {
                n as i32
            } else {
                i32::MAX
            },
            None => 1,
        }),
{
    match parallelism {
        Some(n) => if n <= i32::MAX as usize {
            n as i32
        } else {
            i32::MAX
        },
        None => 1,
    }
}

/// The size in bytes of an array of `nmemb` elements of `size` bytes, or
/// nothing when it overflows (`calloc` then fails with `ENOMEM`).
pub fn calloc_len(nmemb: usize, size: usize) -> (r: Option<usize>)
    ensures
        r == (if nmemb * size <= usize::MAX {
            Some((nmemb * size) as usize)
        } else {
            None::<usize>
        }),
{
    nmemb.checked_mul(size)
}

/// `getcwd` into a buffer of `len` bytes: the root directory `/` with its
/// NUL, or nothing when it does not fit.
pub fn getcwd(len: usize) -> (r: Option<Vec<u8>>)
    ensures
        len < 2 ==> r is None,
        len >= 2 ==> (r matches Some(v) && v@ == seq![47u8, 0u8]),
{
    if len < 2 {
        return None;
    }
    let mut v: Vec<u8> = Vec::new();
    v.push(47u8);
    v.push(0u8);
    Some(v)
}

/// What `dlsym` finds.
pub enum DlsymResult {
    /// The library's own `statx`.
    Statx,
    /// No symbol: a null pointer.
    Null,
}

/// The bytes of `b"statx"`.
pub open spec fn statx_name() -> Seq<u8> {
    seq![115u8, 116, 97, 116, 120]
}

/// The bytes of `b"__pthread_get_minstack"`.
pub open spec fn minstack_name() -> Seq<u8> {
    seq![95u8, 95, 112, 116, 104, 114, 101, 97, 100, 95, 103, 101, 116, 95, 109, 105, 110, 115, 116, 97, 99, 107]
}

/// The bytes of `b"gnu_get_libc_version"`.
pub open spec fn libc_version_name() -> Seq<u8> {
    seq![103u8, 110, 117, 95, 103, 101, 116, 95, 108, 105, 98, 99, 95, 118, 101, 114, 115, 105, 111, 110]
}

/// `dlsym` on the default handle: `statx` resolves to the library's own,
/// `__pthread_get_minstack` and `gnu_get_libc_version` to nothing; any other
/// lookup is unsupported.
pub fn dlsym(handle_is_null: bool, symbol: &[u8]) -> (r: Option<DlsymResult>)
    ensures
        r == (if handle_is_null && symbol@ == statx_name() {
            Some(DlsymResult::Statx)
        } else if handle_is_null && (symbol@ == minstack_name() || symbol@ == libc_version_name()) {
            Some(DlsymResult::Null)
        } else {
            None::<DlsymResult>
        }),
{
    let statx: [u8; 5] = [115, 116, 97, 116, 120];
    let minstack: [u8; 22] = [95, 95, 112, 116, 104, 114, 101, 97, 100, 95, 103, 101, 116, 95, 109, 105, 110, 115, 116, 97, 99, 107];
    let version: [u8; 20] = [103, 110, 117, 95, 103, 101, 116, 95, 108, 105, 98, 99, 95, 118, 101, 114, 115, 105, 111, 110];
    assert(statx@ =~= statx_name());
    assert(minstack@ =~= minstack_name());
    assert(version@ =~= libc_version_name());
    if handle_is_null && same_bytes(symbol, &statx) {
        return Some(DlsymResult::Statx);
    }
    if handle_is_null && same_bytes(symbol, &minstack) {
        return Some(DlsymResult::Null);
    }
    if handle_is_null && same_bytes(symbol, &version) {
        return Some(DlsymResult::Null);
    }
    None
}

} // verus!
