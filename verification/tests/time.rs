use c_ward::time::{
    blank_tm, clear_timezone, date_time_to_tm, gmtime_r, localtime_r, localtime_with_type,
    mktime, mktime_in_zone, rule_types, set_timezone, timegm, timelocal, tm_to_date_time,
    tz_error_to_errno, tzset, tzset_with_rule, utc_type, utc_zone, AlternateRule, CivilTime,
    LocalType, Tm, TransitionDay, TzErrorKind, ZoneLocalType, ZoneModel, ZoneRule,
};

fn zone_type(ut_offset: i32, is_dst: bool, name: &[u8]) -> ZoneLocalType {
    ZoneLocalType { ut_offset, is_dst, designation: Some(name.to_vec()) }
}

/// The zone of the `TZ` string `EST5EDT,M3.2.0,M11.1.0`.
fn est_zone() -> ZoneModel {
    ZoneModel {
        transitions: vec![],
        local_types: vec![zone_type(-18_000, false, b"EST")],
        leap_seconds: vec![],
        rule: Some(ZoneRule::Alternate(AlternateRule {
            std: zone_type(-18_000, false, b"EST"),
            dst: zone_type(-14_400, true, b"EDT"),
            dst_start: TransitionDay::MonthWeekDay(3, 2, 0),
            dst_start_time: 7200,
            dst_end: TransitionDay::MonthWeekDay(11, 1, 0),
            dst_end_time: 7200,
        })),
    }
}

fn fixed_zone(t: ZoneLocalType) -> ZoneModel {
    let copy = ZoneLocalType { ut_offset: t.ut_offset, is_dst: t.is_dst, designation: t.designation.clone() };
    ZoneModel { transitions: vec![], local_types: vec![copy], leap_seconds: vec![], rule: Some(ZoneRule::Fixed(t)) }
}

fn tm(year: i32, mon: i32, mday: i32, hour: i32, min: i32, sec: i32, isdst: i32) -> Tm {
    Tm {
        tm_sec: sec,
        tm_min: min,
        tm_hour: hour,
        tm_mday: mday,
        tm_mon: mon,
        tm_year: year,
        tm_wday: 0,
        tm_yday: 0,
        tm_isdst: isdst,
        tm_gmtoff: 0,
        tm_zone: None,
    }
}

fn fields(t: &Tm) -> (i32, i32, i32, i32, i32, i32, i32, i32, i32, i64) {
    (t.tm_year, t.tm_mon, t.tm_mday, t.tm_hour, t.tm_min, t.tm_sec, t.tm_wday, t.tm_yday, t.tm_isdst, t.tm_gmtoff)
}

#[test]
fn gmtime_of_epoch() {
    let t = gmtime_r(0).unwrap();
    assert_eq!(fields(&t), (70, 0, 1, 0, 0, 0, 4, 0, 0, 0));
    assert_eq!(t.tm_zone, Some(vec![]));
    let t = gmtime_r(946_684_799).unwrap();
    assert_eq!(fields(&t), (99, 11, 31, 23, 59, 59, 5, 364, 0, 0));
}

#[test]
fn timegm_of_y2k() {
    assert_eq!(timegm(&tm(100, 0, 1, 0, 0, 0, 0)), Ok(946_684_800));
    assert_eq!(timegm(&tm(100, 0, 1, 0, 0, 0, -1)), Ok(946_684_800));
    assert_eq!(timegm(&tm(70, 0, 1, 0, 0, 0, 0)), Ok(0));
}

#[test]
fn timegm_refuses_fields_out_of_byte_range() {
    assert_eq!(timegm(&tm(100, 300, 1, 0, 0, 0, 0)), Err(75));
    assert_eq!(timegm(&tm(100, 0, -1, 0, 0, 0, 0)), Err(75));
    assert_eq!(timegm(&tm(100, 0, 1, 0, 0, 256, 0)), Err(75));
    assert_eq!(timegm(&tm(100, 12, 1, 0, 0, 0, 0)), Err(5));
}

#[test]
fn gmtime_then_timegm_round_trips() {
    for t in [0i64, 1, 86_399, 951_868_800, 1_700_000_000, -86_400] {
        let b = gmtime_r(t).unwrap();
        assert_eq!(timegm(&b), Ok(t));
    }
}

#[test]
fn local_time_in_a_posix_zone() {
    let est = est_zone();
    let t = localtime_r(0, Ok(&est)).unwrap();
    assert_eq!(fields(&t), (69, 11, 31, 19, 0, 0, 3, 364, 0, -18_000));
    assert_eq!(t.tm_zone, Some(b"EST".to_vec()));
    let t = localtime_r(1_689_000_000, Ok(&est)).unwrap();
    assert_eq!(t.tm_isdst, 1);
    assert_eq!(t.tm_gmtoff, -14_400);
    assert_eq!(t.tm_zone, Some(b"EDT".to_vec()));
    assert_eq!(timelocal(&tm(70, 0, 1, 0, 0, 0, 0), Ok(&est)), Ok(18_000));
}

#[test]
fn zone_errors_become_errno() {
    assert_eq!(tz_error_to_errno(&TzErrorKind::Io(Some(2))), 2);
    assert_eq!(tz_error_to_errno(&TzErrorKind::FileIo(Some(13))), 13);
    assert_eq!(tz_error_to_errno(&TzErrorKind::StringIo(None)), 5);
    assert_eq!(tz_error_to_errno(&TzErrorKind::Other), 5);
    assert_eq!(localtime_r(0, Err(TzErrorKind::Io(Some(2)))).map(|t| t.tm_year), Err(2));
    assert_eq!(timelocal(&tm(70, 0, 1, 0, 0, 0, 0), Err(TzErrorKind::Other)), Err(5));
    let out = mktime(&tm(70, 0, 1, 0, 0, 0, 0), Err(TzErrorKind::FileIo(None)));
    assert_eq!(out.result.map(|r| r.0), Err(5));
    assert_eq!(out.globals.std_name, None);
}

#[test]
fn mktime_sets_globals_from_rule() {
    let est = est_zone();
    let out = mktime(&tm(100, 0, 1, 0, 0, 0, 0), Ok(&est));
    let (u, t) = out.result.unwrap();
    assert_eq!(u, 946_702_800);
    assert_eq!(fields(&t), (100, 0, 1, 0, 0, 0, 6, 0, 0, -18_000));
    assert_eq!(out.globals.std_name, Some(b"EST".to_vec()));
    assert_eq!(out.globals.dst_name, Some(b"EDT".to_vec()));
    assert_eq!(out.globals.timezone, 18_000);
    assert_eq!(out.globals.daylight, 1);
    let utc = utc_zone();
    let out = mktime(&tm(100, 0, 1, 0, 0, 0, 0), Ok(&utc));
    assert_eq!(out.result.map(|r| r.0), Ok(946_684_800));
    assert_eq!(out.globals.std_name, Some(vec![]));
    assert_eq!(out.globals.daylight, 0);
}

#[test]
fn tzset_globals() {
    let est = est_zone();
    let g = tzset(Ok(&est));
    assert_eq!((g.std_name, g.dst_name, g.timezone, g.daylight), (Some(b"EST".to_vec()), Some(b"EDT".to_vec()), 18_000, 1));
    let g = tzset(Err(TzErrorKind::Other));
    assert_eq!((g.std_name, g.dst_name, g.timezone, g.daylight), (None, None, 0, 0));
    let g = tzset_with_rule(&fixed_zone(zone_type(3600, false, b"CET")));
    assert_eq!((g.std_name, g.dst_name, g.timezone, g.daylight), (Some(b"CET".to_vec()), Some(b"CET".to_vec()), -3600, 0));
    let g = tzset_with_rule(&utc_zone());
    assert_eq!((g.std_name, g.dst_name, g.timezone, g.daylight), (None, None, 0, 0));
    let g = clear_timezone();
    assert_eq!(g.std_name, None);
    let std = LocalType { ut_offset: -18_000, is_dst: false, designation: b"EST".to_vec() };
    let dst = LocalType { ut_offset: -14_400, is_dst: true, designation: b"EDT".to_vec() };
    let g = set_timezone(&std, Some(&dst));
    assert_eq!((g.std_name, g.dst_name, g.timezone, g.daylight), (Some(b"EST".to_vec()), Some(b"EDT".to_vec()), 18_000, 1));
}

#[test]
fn rule_types_and_utc() {
    let u = utc_type();
    assert_eq!((u.ut_offset, u.is_dst, u.designation), (0, false, vec![]));
    let (s, d) = rule_types(&utc_zone());
    assert_eq!(s.ut_offset, 0);
    assert!(d.is_none());
    let (s, d) = rule_types(&est_zone());
    assert_eq!(s.designation, b"EST".to_vec());
    assert_eq!(d.map(|l| l.ut_offset), Some(-14_400));
}

#[test]
fn broken_down_time_fields() {
    let c = CivilTime { year: 2024, month: 2, month_day: 29, hour: 13, minute: 5, second: 9, week_day: 4, year_day: 59 };
    let l = LocalType { ut_offset: 3600, is_dst: true, designation: b"X".to_vec() };
    let t = date_time_to_tm(&c, &l);
    assert_eq!(fields(&t), (124, 1, 29, 13, 5, 9, 4, 59, 1, 3600));
    assert_eq!(t.tm_zone, Some(b"X".to_vec()));
    let b = blank_tm();
    assert_eq!(fields(&b), (0, 0, 0, 0, 0, 0, 0, 0, -1, 0));
    assert_eq!(b.tm_zone, None);
}

#[test]
fn tm_to_date_time_uses_dst_type_when_asked() {
    let est = est_zone();
    let (c, l, u) = tm_to_date_time(&tm(100, 0, 1, 12, 0, 0, 1), &est).unwrap();
    assert_eq!((c.year, c.month, c.month_day, c.hour), (2000, 1, 1, 12));
    assert_eq!(l.designation, b"EDT".to_vec());
    assert_eq!(u, 946_728_000 + 14_400);
    let (_, l, u) = tm_to_date_time(&tm(100, 0, 1, 12, 0, 0, 0), &est).unwrap();
    assert_eq!(l.designation, b"EST".to_vec());
    assert_eq!(u, 946_728_000 + 18_000);
    assert_eq!(tm_to_date_time(&tm(100, 0, 1, 12, 0, 0, 0), &utc_zone()).map(|r| r.2), Ok(946_728_000));
}

#[test]
fn unknown_dst_flag_searches_the_zone() {
    let est = est_zone();
    // Winter: the one occurrence is in standard time.
    let (c, l, u) = tm_to_date_time(&tm(100, 0, 1, 12, 0, 0, -1), &est).unwrap();
    assert_eq!((c.week_day, c.year_day), (6, 0));
    assert_eq!(l.designation, b"EST".to_vec());
    assert_eq!(u, 946_728_000 + 18_000);
    // Summer: daylight saving time.
    let (_, l, u) = tm_to_date_time(&tm(100, 6, 1, 12, 0, 0, -1), &est).unwrap();
    assert_eq!(l.designation, b"EDT".to_vec());
    assert_eq!(u, 962_452_800 + 14_400);
    // 2000-03-12 02:30 is skipped, 2000-11-05 01:30 occurs twice.
    assert!(matches!(tm_to_date_time(&tm(100, 2, 12, 2, 30, 0, -1), &est), Err(5)));
    assert!(matches!(tm_to_date_time(&tm(100, 10, 5, 1, 30, 0, -1), &est), Err(5)));
    let out = mktime_in_zone(&tm(100, 2, 12, 2, 30, 0, -1), &est);
    assert_eq!(out.result.map(|r| r.0), Err(5));
    assert_eq!(out.globals.std_name, None);
    assert_eq!(timelocal(&tm(100, 10, 5, 1, 30, 0, -1), Ok(&est)), Err(5));
}

#[test]
fn timegm_of_leap_day() {
    assert_eq!(timegm(&tm(100, 1, 29, 0, 0, 0, -1)), Ok(951_782_400));
    assert_eq!(timegm(&tm(100, 1, 29, 0, 0, 0, 0)), Ok(951_782_400));
    assert_eq!(timegm(&tm(101, 1, 29, 0, 0, 0, 0)), Err(5));
}

#[test]
fn local_time_round_trips_through_timelocal() {
    let est = est_zone();
    for t in [0i64, 946_728_000, 962_452_800, 1_689_000_000] {
        let mut b = localtime_r(t, Ok(&est)).unwrap();
        b.tm_isdst = -1;
        assert_eq!(timelocal(&b, Ok(&est)), Ok(t));
    }
}

#[test]
fn local_time_in_a_given_type() {
    let cet = LocalType { ut_offset: 3600, is_dst: false, designation: b"CET".to_vec() };
    let t = localtime_with_type(0, &cet).unwrap();
    assert_eq!(fields(&t), (70, 0, 1, 1, 0, 0, 4, 0, 0, 3600));
    assert_eq!(t.tm_zone, Some(b"CET".to_vec()));
    let bad = LocalType { ut_offset: i32::MIN, is_dst: false, designation: vec![] };
    assert_eq!(localtime_with_type(0, &bad).map(|t| t.tm_year), Err(5));
    assert_eq!(gmtime_r(i64::MAX).map(|t| t.tm_year), Err(5));
    // The year -2147482648 is moved to the origin 1900 with wrapping.
    assert_eq!(gmtime_r(-67_768_068_995_185_864).map(|t| (t.tm_year, t.tm_mon)), Ok((2_147_482_748, 6)));
}

#[test]
fn years_and_months_wrap_at_the_edges() {
    let first = gmtime_r(-67_768_100_567_971_200).unwrap();
    assert_eq!((first.tm_year, first.tm_mon, first.tm_mday, first.tm_hour), (2_147_481_748, 0, 1, 0));
    assert_eq!(timegm(&first), Ok(-67_768_100_567_971_200));
    assert_eq!(timegm(&tm(2_147_481_748, 0, 1, 0, 0, 0, 0)), Ok(-67_768_100_567_971_200));
    let last = gmtime_r(67_767_976_233_532_799).unwrap();
    assert_eq!((last.tm_year, last.tm_mon, last.tm_mday, last.tm_sec), (2_147_481_747, 11, 31, 59));
    assert_eq!(timegm(&last), Ok(67_767_976_233_532_799));
    assert_eq!(gmtime_r(-67_768_100_567_971_201).map(|t| t.tm_year), Err(5));
    // A month of 255 wraps to 0, which no date has.
    assert_eq!(timegm(&tm(100, 255, 1, 0, 0, 0, 0)), Err(5));
    assert_eq!(mktime(&tm(100, 255, 1, 0, 0, 0, 0), Ok(&utc_zone())).result.map(|r| r.0), Err(5));
}

#[test]
fn invalid_dates_are_refused() {
    let est = est_zone();
    assert!(matches!(tm_to_date_time(&tm(100, 12, 1, 0, 0, 0, 0), &est), Err(5)));
    assert!(matches!(tm_to_date_time(&tm(100, 0, 0, 0, 0, 0, 0), &est), Err(5)));
    assert!(matches!(tm_to_date_time(&tm(100, 0, 1, 24, 0, 0, -1), &est), Err(5)));
    assert_eq!(mktime(&tm(100, 12, 1, 0, 0, 0, 0), Ok(&est)).result.map(|r| r.0), Err(5));
}

#[test]
fn local_time_with_its_flag_round_trips() {
    let est = est_zone();
    for t in [0i64, 946_728_000, 962_452_800, 1_689_000_000] {
        let b = localtime_r(t, Ok(&est)).unwrap();
        assert_eq!(timelocal(&b, Ok(&est)), Ok(t));
        assert_eq!(mktime(&b, Ok(&est)).result.map(|r| r.0), Ok(t));
    }
}
