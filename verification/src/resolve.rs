//! Host name resolution for `getaddrinfo`: which requests are supported,
//! the validation of the host name, the records built from the resolved
//! addresses, and the error codes.

use vstd::prelude::*;
use vstd::utf8::valid_utf8;
use crate::data::{EAI_NONAME, EAI_SYSTEM, EILSEQ};
use crate::mem::same_bytes;
use crate::nss::is_utf8;

verus! {

/// Socket type of a stream socket.
pub const SOCK_STREAM: i32 = 1;
/// Address family of IPv4.
pub const AF_INET: u16 = 2;
/// Address family of IPv6.
pub const AF_INET6: u16 = 10;
/// Size of a `sockaddr_in`.
pub const SOCKADDR_IN_LEN: u32 = 16;
/// Size of a `sockaddr_in6`.
pub const SOCKADDR_IN6_LEN: u32 = 28;

/// The fields of the `hints` argument of `getaddrinfo` that it looks at.
pub struct AddrHints {
    /// `ai_flags`.
    pub flags: i32,
    /// `ai_family`.
    pub family: i32,
    /// `ai_socktype`.
    pub socktype: i32,
    /// `ai_protocol`.
    pub protocol: i32,
    /// `ai_addrlen`.
    pub addrlen: u32,
    /// Whether `ai_addr` is set.
    pub has_addr: bool,
    /// Whether `ai_canonname` is set.
    pub has_canonname: bool,
    /// Whether `ai_next` is set.
    pub has_next: bool,
}

/// Whether `getaddrinfo` supports the hints `h`: a stream socket and
/// nothing else asked for.
pub open spec fn hints_supported(h: AddrHints) -> bool {
    &&& h.flags == 0
    &&& h.family == 0
    &&& h.socktype == SOCK_STREAM
    &&& h.protocol == 0
    &&& h.addrlen == 0
    &&& !h.has_addr
    &&& !h.has_canonname
    &&& !h.has_next
}

/// Whether `getaddrinfo` supports the hints `h` (the C entry point aborts on
/// others).
pub fn check_hints(h: &AddrHints) -> (r: bool)
    ensures
        r == hints_supported(*h),
{
    h.flags == 0 && h.family == 0 && h.socktype == SOCK_STREAM && h.protocol == 0 && h.addrlen
        == 0 && !h.has_addr && !h.has_canonname && !h.has_next
}

/// How `getaddrinfo` fails: its return code, and the `errno` it sets.
pub struct GaiError {
    /// The `EAI_*` code.
    pub code: i32,
    /// The error number set along with `EAI_SYSTEM`.
    pub errno: Option<i32>,
}

/// `getaddrinfo` before the lookup: the host name must be UTF-8, else it
/// fails with `EAI_SYSTEM` and `EILSEQ`. Only plain name lookups are
/// supported: no service, and hints, if any, that ask for a stream socket
/// and nothing more.
pub fn getaddrinfo_request(node: &[u8], hints: Option<&AddrHints>) -> (r: Result<(), GaiError>)
    requires
        hints matches Some(h) ==> hints_supported(*h),
    ensures
        valid_utf8(node@) ==> r is Ok,
        !valid_utf8(node@) ==> (r matches Err(e) && e.code == EAI_SYSTEM && e.errno == Some(
            EILSEQ,
        )),
{
    if is_utf8(node) {
        Ok(())
    } else {
        Err(GaiError { code: EAI_SYSTEM, errno: Some(EILSEQ) })
    }
}

/// A resolved address.
pub enum IpAddress {
    /// An IPv4 address, in network order.
    V4([u8; 4]),
    /// An IPv6 address, in network order.
    V6([u8; 16]),
}

/// One record of the list that `getaddrinfo` returns: the socket address
/// (with port `0`) and its length. The other fields stay zero.
pub struct AddrInfoRecord {
    /// The address.
    pub addr: IpAddress,
    /// The family written into the socket address.
    pub sock_family: u16,
    /// `ai_addrlen`: the size of the socket address.
    pub addrlen: u32,
}

/// The record that `getaddrinfo` builds for `addr`.
pub open spec fn record_of(addr: IpAddress) -> AddrInfoRecord {
    match addr {
        IpAddress::V4(a) => AddrInfoRecord {
            addr: IpAddress::V4(a),
            sock_family: AF_INET,
            addrlen: SOCKADDR_IN_LEN,
        },
        IpAddress::V6(a) => AddrInfoRecord {
            addr: IpAddress::V6(a),
            sock_family: AF_INET6,
            addrlen: SOCKADDR_IN6_LEN,
        },
    }
}

fn record(addr: &IpAddress) -> (r: AddrInfoRecord)
    ensures
        r == record_of(*addr),
{
    match addr {
        IpAddress::V4(a) => AddrInfoRecord {
            addr: IpAddress::V4(*a),
            sock_family: AF_INET,
            addrlen: SOCKADDR_IN_LEN,
        },
        IpAddress::V6(a) => AddrInfoRecord {
            addr: IpAddress::V6(*a),
            sock_family: AF_INET6,
            addrlen: SOCKADDR_IN6_LEN,
        },
    }
}

/// Why the lookup failed: the operating system's error number, if it was
/// one, and the message of the error.
pub struct ResolveFailure {
    /// The error number of an I/O error.
    pub os_errno: Option<i32>,
    /// The error's message.
    pub message: Vec<u8>,
}

/// The bytes of the message of a lookup that the server answered with a
/// server failure.
pub open spec fn server_failure_message() -> Seq<u8> {
    seq![102u8, 97, 105, 108, 101, 100, 32, 116, 111, 32, 114, 101, 115, 111, 108, 118, 101, 32, 104, 111, 115, 116, 58, 32, 115, 101, 114, 118, 101, 114, 32, 114, 101, 115, 112, 111, 110, 100, 101, 100, 32, 119, 105, 116, 104, 32, 101, 114, 114, 111, 114, 58, 32, 115, 101, 114, 118, 101, 114, 32, 102, 97, 105, 108, 117, 114, 101]
}

/// The bytes of the message of a lookup that the server answered with "no
/// such name".
pub open spec fn no_such_name_message() -> Seq<u8> {
    seq![102u8, 97, 105, 108, 101, 100, 32, 116, 111, 32, 114, 101, 115, 111, 108, 118, 101, 32, 104, 111, 115, 116, 58, 32, 115, 101, 114, 118, 101, 114, 32, 114, 101, 115, 112, 111, 110, 100, 101, 100, 32, 119, 105, 116, 104, 32, 101, 114, 114, 111, 114, 58, 32, 110, 111, 32, 115, 117, 99, 104, 32, 110, 97, 109, 101]
}

/// The error that `getaddrinfo` reports for a failed lookup, or nothing for
/// a failure it does not know (the C entry point aborts on those).
pub open spec fn gai_error_of(os_errno: Option<i32>, message: Seq<u8>) -> Option<GaiError> {
    match os_errno {
        Some(e) => Some(GaiError { code: EAI_SYSTEM, errno: Some(e) }),
        None => if message == server_failure_message() || message == no_such_name_message() {
            Some(GaiError { code: EAI_NONAME, errno: None })
        } else {
            None
        },
    }
}

/// Classifies a failed lookup: an I/O error is `EAI_SYSTEM` with its error
/// number; a server failure or an unknown name is `EAI_NONAME`.
pub fn classify_resolve_failure(failure: &ResolveFailure) -> (r: Option<GaiError>)
    ensures
        r == gai_error_of(failure.os_errno, failure.message@),
{
    match failure.os_errno {
        Some(e) => Some(GaiError { code: EAI_SYSTEM, errno: Some(e) }),
        None => {
            let server_failure: [u8; 67] = [102, 97, 105, 108, 101, 100, 32, 116, 111, 32, 114, 101, 115, 111, 108, 118, 101, 32, 104, 111, 115, 116, 58, 32, 115, 101, 114, 118, 101, 114, 32, 114, 101, 115, 112, 111, 110, 100, 101, 100, 32, 119, 105, 116, 104, 32, 101, 114, 114, 111, 114, 58, 32, 115, 101, 114, 118, 101, 114, 32, 102, 97, 105, 108, 117, 114, 101];
            let no_such_name: [u8; 65] = [102, 97, 105, 108, 101, 100, 32, 116, 111, 32, 114, 101, 115, 111, 108, 118, 101, 32, 104, 111, 115, 116, 58, 32, 115, 101, 114, 118, 101, 114, 32, 114, 101, 115, 112, 111, 110, 100, 101, 100, 32, 119, 105, 116, 104, 32, 101, 114, 114, 111, 114, 58, 32, 110, 111, 32, 115, 117, 99, 104, 32, 110, 97, 109, 101];
            assert(server_failure@ =~= server_failure_message());
            assert(no_such_name@ =~= no_such_name_message());
            if same_bytes(failure.message.as_slice(), &server_failure) || same_bytes(
                failure.message.as_slice(),
                &no_such_name,
            ) {
                Some(GaiError { code: EAI_NONAME, errno: None })
            } else {
                None
            }
        },
    }
}

/// `getaddrinfo` after the lookup: one record per resolved address, in the
/// order of the lookup, or the error of a failed lookup.
pub fn getaddrinfo_reply(resolved: &Result<Vec<IpAddress>, ResolveFailure>) -> (r: Result<
    Vec<AddrInfoRecord>,
    GaiError,
>)
    requires
        resolved matches Err(f) ==> gai_error_of(f.os_errno, f.message@) is Some,
    ensures
        match resolved {
            Ok(addrs) => r matches Ok(recs) && recs@.len() == addrs@.len() && forall|i: int|
                0 <= i < addrs@.len() ==> #[trigger] recs@[i] == record_of(addrs@[i]),
            Err(f) => r == Err::<Vec<AddrInfoRecord>, GaiError>(
                gai_error_of(f.os_errno, f.message@)->0,
            ),
        },
{
    match resolved {
        Ok(addrs) => {
            let mut recs: Vec<AddrInfoRecord> = Vec::new();
            let mut i: usize = 0;
            while i < addrs.len()
                invariant
                    i <= addrs@.len(),
                    recs@.len() == i,
                    forall|j: int| 0 <= j < i ==> #[trigger] recs@[j] == record_of(addrs@[j]),
                decreases addrs@.len() - i,
            {
                recs.push(record(&addrs[i]));
                i += 1;
            }
            Ok(recs)
        },
        Err(f) => match classify_resolve_failure(f) {
            Some(e) => Err(e),
            None => Err(GaiError { code: EAI_NONAME, errno: None }),
        },
    }
}

/// The message of `EAI_NONAME`.
pub open spec fn noname_text() -> Seq<u8> {
    seq![78u8, 97, 109, 101, 32, 100, 111, 101, 115, 32, 110, 111, 116, 32, 114, 101, 115, 111, 108, 118, 101]
}

/// The message of `EAI_SYSTEM`.
pub open spec fn system_text() -> Seq<u8> {
    seq![83u8, 121, 115, 116, 101, 109, 32, 101, 114, 114, 111, 114]
}

/// `gai_strerror`: the message of one of the two codes that `getaddrinfo`
/// returns, without its NUL. Other codes are not supported (the C entry
/// point aborts on those).
pub fn gai_strerror(errcode: i32) -> (r: Vec<u8>)
    requires
        errcode == EAI_NONAME || errcode == EAI_SYSTEM,
    ensures
        errcode == EAI_NONAME ==> r@ == noname_text(),
        errcode == EAI_SYSTEM ==> r@ == system_text(),
{
    if errcode == EAI_NONAME {
        let text: [u8; 21] = [78, 97, 109, 101, 32, 100, 111, 101, 115, 32, 110, 111, 116, 32, 114, 101, 115, 111, 108, 118, 101];
        let v = bytes_of(&text);
        assert(v@ =~= noname_text());
        v
    } else {
        let text: [u8; 12] = [83, 121, 115, 116, 101, 109, 32, 101, 114, 114, 111, 114];
        let v = bytes_of(&text);
        assert(v@ =~= system_text());
        v
    }
}

fn bytes_of(s: &[u8]) -> (r: Vec<u8>)
    ensures
        r@ == s@,
{
    let mut v: Vec<u8> = Vec::new();
    let mut i: usize = 0;
    while i < s.len()
        invariant
            i <= s@.len(),
            v@ =~= s@.take(i as int),
        decreases s@.len() - i,
    {
        v.push(s[i]);
        i += 1;
    }
    assert(v@ =~= s@);
    v
}

} // verus!
