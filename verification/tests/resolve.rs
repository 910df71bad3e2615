use c_ward::resolve::{
    check_hints, classify_resolve_failure, gai_strerror, getaddrinfo_reply,
    getaddrinfo_request, AddrHints, IpAddress, ResolveFailure,
};

fn stream_hints() -> AddrHints {
    AddrHints {
        flags: 0,
        family: 0,
        socktype: 1,
        protocol: 0,
        addrlen: 0,
        has_addr: false,
        has_canonname: false,
        has_next: false,
    }
}

#[test]
fn only_stream_hints_are_supported() {
    assert!(check_hints(&stream_hints()));
    let mut h = stream_hints();
    h.socktype = 2;
    assert!(!check_hints(&h));
    let mut h = stream_hints();
    h.has_canonname = true;
    assert!(!check_hints(&h));
    let mut h = stream_hints();
    h.flags = 1;
    assert!(!check_hints(&h));
}

#[test]
fn host_name_must_be_utf8() {
    assert!(getaddrinfo_request(b"example.com", None).is_ok());
    assert!(getaddrinfo_request(b"example.com", Some(&stream_hints())).is_ok());
    let e = getaddrinfo_request(b"bad\xff", None).unwrap_err();
    assert_eq!(e.code, -11);
    assert_eq!(e.errno, Some(84));
}

#[test]
fn records_follow_resolved_addresses() {
    let mut v6 = [0u8; 16];
    v6[15] = 1;
    let recs = getaddrinfo_reply(&Ok(vec![IpAddress::V4([127, 0, 0, 1]), IpAddress::V6(v6)]))
        .unwrap_or_else(|_| panic!("expected records"));
    assert_eq!(recs.len(), 2);
    assert!(matches!(recs[0].addr, IpAddress::V4([127, 0, 0, 1])));
    assert_eq!((recs[0].sock_family, recs[0].addrlen), (2, 16));
    assert!(matches!(recs[1].addr, IpAddress::V6(a) if a == v6));
    assert_eq!((recs[1].sock_family, recs[1].addrlen), (10, 28));
    let none = getaddrinfo_reply(&Ok(vec![])).unwrap_or_else(|_| panic!("expected records"));
    assert!(none.is_empty());
}

#[test]
fn lookup_failures_map_to_codes() {
    let io = ResolveFailure { os_errno: Some(111), message: b"connection refused".to_vec() };
    let e = classify_resolve_failure(&io).expect("known");
    assert_eq!((e.code, e.errno), (-11, Some(111)));
    let nx = ResolveFailure {
        os_errno: None,
        message: b"failed to resolve host: server responded with error: no such name".to_vec(),
    };
    let e = classify_resolve_failure(&nx).expect("known");
    assert_eq!((e.code, e.errno), (-2, None));
    let sf = ResolveFailure {
        os_errno: None,
        message: b"failed to resolve host: server responded with error: server failure".to_vec(),
    };
    match getaddrinfo_reply(&Err(sf)) {
        Err(e) => assert_eq!((e.code, e.errno), (-2, None)),
        Ok(_) => panic!("expected an error"),
    }
    let other = ResolveFailure { os_errno: None, message: b"something else".to_vec() };
    assert!(classify_resolve_failure(&other).is_none());
}

#[test]
fn gai_messages() {
    assert_eq!(gai_strerror(-2), b"Name does not resolve".to_vec());
    assert_eq!(gai_strerror(-11), b"System error".to_vec());
}
