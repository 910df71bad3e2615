//! Conversions between Unix time and broken-down time, through the time
//! zone rules of the `tz` crate.

use vstd::prelude::*;
use crate::data::{EIO, EOVERFLOW};

verus! {

/// A time zone as the `tz` crate holds it, read from the system or from
/// `TZ`.
#[verifier::external_type_specification]
#[verifier::external_body]
pub struct ExTimeZone(tz::TimeZone);

/// A date and a time of day on the proleptic Gregorian calendar, with the
/// day of the week and of the year.
pub struct CivilTime {
    /// The year.
    pub year: i32,
    /// The month, from `1`.
    pub month: u8,
    /// The day of the month, from `1`.
    pub month_day: u8,
    /// Hours since midnight.
    pub hour: u8,
    /// Minutes.
    pub minute: u8,
    /// Seconds, `60` for a leap second.
    pub second: u8,
    /// Days since Sunday.
    pub week_day: u8,
    /// Days since January 1.
    pub year_day: u16,
}

/// The ranges that the `tz` crate documents for the fields of a date time.
pub open spec fn valid_civil(c: CivilTime) -> bool {
    &&& 1 <= c.month <= 12
    &&& 1 <= c.month_day <= 31
    &&& c.hour <= 23
    &&& c.minute <= 59
    &&& c.second <= 60
    &&& c.week_day <= 6
    &&& c.year_day <= 365
}

/// A local time type: the offset from UT in seconds, whether it is daylight
/// saving time, and its designation such as `CET`.
pub struct LocalType {
    /// Seconds east of UT.
    pub ut_offset: i32,
    /// Daylight saving time.
    pub is_dst: bool,
    /// The designation, possibly empty.
    pub designation: Vec<u8>,
}

/// The fields of C's `struct tm`.
pub struct Tm {
    /// Seconds.
    pub tm_sec: i32,
    /// Minutes.
    pub tm_min: i32,
    /// Hours.
    pub tm_hour: i32,
    /// Day of the month.
    pub tm_mday: i32,
    /// Month, from `0`.
    pub tm_mon: i32,
    /// Years since 1900.
    pub tm_year: i32,
    /// Days since Sunday.
    pub tm_wday: i32,
    /// Days since January 1.
    pub tm_yday: i32,
    /// Daylight saving time: positive, zero, or negative for unknown.
    pub tm_isdst: i32,
    /// Seconds east of UT.
    pub tm_gmtoff: i64,
    /// The designation of the time zone, or none.
    pub tm_zone: Option<Vec<u8>>,
}

/// The globals `tzname`, `timezone` and `daylight`.
pub struct TimezoneGlobals {
    /// `tzname[0]`, the name of standard time.
    pub std_name: Option<Vec<u8>>,
    /// `tzname[1]`, the name of daylight saving time.
    pub dst_name: Option<Vec<u8>>,
    /// `timezone`: seconds west of UT of standard time.
    pub timezone: i64,
    /// `daylight`: `1` when the zone has daylight saving time.
    pub daylight: i32,
}

/// What went wrong in loading a time zone.
#[derive(Clone, Copy)]
pub enum TzErrorKind {
    /// An I/O error, with its OS error number if it has one.
    Io(Option<i32>),
    /// An I/O error while reading a zone file.
    FileIo(Option<i32>),
    /// An I/O error while reading a `TZ` string.
    StringIo(Option<i32>),
    /// Any other error.
    Other,
}

/// The date time that `tz` gives for the Unix time `t` in a local time type
/// that is `ut_offset` seconds east of UT.
pub uninterp spec fn tz_civil_from_unix(t: i64, ut_offset: i32) -> Option<CivilTime>;

/// The date time and Unix time that `tz` gives for a date and time of day
/// in a local time type that is `ut_offset` seconds east of UT.
pub uninterp spec fn tz_date_time_new(
    year: i32,
    month: u8,
    month_day: u8,
    hour: u8,
    minute: u8,
    second: u8,
    ut_offset: i32,
) -> Option<(CivilTime, i64)>;

/// `tz::DateTime::from_timespec_and_local` at `t` for a local time type
/// built by `tz::LocalTimeType::with_ut_offset`: the date time, named by
/// [`tz_civil_from_unix`], within the documented ranges. There is one
/// exactly where `with_ut_offset` accepts the offset (all but `i32::MIN`)
/// and the local time `t + ut_offset` lies within the range of
/// `UtcDateTime::from_timespec` (its bounds `MIN_UNIX_TIME` and
/// `MAX_UNIX_TIME`, the years `i32::MIN` to `i32::MAX`). Where `t` itself
/// lies in that range, `tz::DateTime::new` of the date and time of day
/// found, in the same type, gives back this date time and `t`: `new`
/// subtracts the offset from the Unix time of the date, which inverts
/// `from_timespec`, and checks `t` against the same bounds.
#[verifier::external_body]
fn civil_from_unix(t: i64, ut_offset: i32) -> (r: Option<CivilTime>)
    ensures
        r == tz_civil_from_unix(t, ut_offset),
        r matches Some(c) ==> valid_civil(c),
        r is Some <==> (ut_offset != i32::MIN && in_tz_range(t + ut_offset)),
        r matches Some(c) ==> (in_tz_range(t as int) ==> tz_date_time_new(
            c.year,
            c.month,
            c.month_day,
            c.hour,
            c.minute,
            c.second,
            ut_offset,
        ) == Some((c, t))),
{
    let local = match tz::LocalTimeType::with_ut_offset(ut_offset) {
        Ok(l) => l,
        Err(_) => return None,
    };
    match tz::DateTime::from_timespec_and_local(t, 0, local) {
        Ok(d) => Some(CivilTime { year: d.year(), month: d.month(), month_day: d.month_day(), hour: d.hour(), minute: d.minute(), second: d.second(), week_day: d.week_day(), year_day: d.year_day() }),
        Err(_) => None,
    }
}

/// `tz::DateTime::new` for a local time type `ut_offset` seconds east of UT:
/// the date time and its Unix time, named by [`tz_date_time_new`]; the date
/// and time of day are the ones given, and the fields lie in the documented
/// ranges.
#[verifier::external_body]
fn date_time_new(year: i32, month: u8, month_day: u8, hour: u8, minute: u8, second: u8, ut_offset: i32) -> (r: Option<(CivilTime, i64)>)
    ensures
        r == tz_date_time_new(year, month, month_day, hour, minute, second, ut_offset),
        r matches Some((c, u)) ==> valid_civil(c) && c.year == year && c.month == month && c.month_day
            == month_day && c.hour == hour && c.minute == minute && c.second == second,
{
    let local = match tz::LocalTimeType::with_ut_offset(ut_offset) {
        Ok(l) => l,
        Err(_) => return None,
    };
    match tz::DateTime::new(year, month, month_day, hour, minute, second, 0, local) {
        Ok(d) => Some((CivilTime { year: d.year(), month: d.month(), month_day: d.month_day(), hour: d.hour(), minute: d.minute(), second: d.second(), week_day: d.week_day(), year_day: d.year_day() }, d.unix_time())),
        Err(_) => None,
    }
}

/// A local time type as the `tz` crate holds it.
#[verifier::external_type_specification]
#[verifier::external_body]
pub struct ExLocalTimeType(tz::LocalTimeType);

/// A byte that `tz` accepts in a time zone designation: an ASCII letter or
/// digit, `+` or `-`.
pub open spec fn designation_byte(b: u8) -> bool {
    (48 <= b <= 57) || (65 <= b <= 90) || (97 <= b <= 122) || b == 43 || b == 45
}

/// A designation as a `tz` local time type can hold it: none (read as the
/// empty string), or three to seven accepted bytes.
pub open spec fn valid_designation(d: Seq<u8>) -> bool {
    d.len() == 0 || (3 <= d.len() <= 7 && forall|i: int| 0 <= i < d.len() ==> designation_byte(#[trigger] d[i]))
}

/// A local time type as `tz` can hold it: an offset other than `i32::MIN`
/// and a valid designation.
pub open spec fn valid_local_type(l: LocalType) -> bool {
    l.ut_offset != i32::MIN && valid_designation(l.designation@)
}

/// `tz::LocalTimeType::ut_offset`, `is_dst` and `time_zone_designation` of
/// `l`, as a [`LocalType`]. Which type `l` is cannot be stated (the type is
/// opaque here); what is stated is what every value of it satisfies, as the
/// crate's only constructors (`new`, `with_ut_offset`, `utc`) check it: the
/// offset is not `i32::MIN`, and the designation is empty (none) or three to
/// seven ASCII letters, digits, `+` or `-`.
#[verifier::external_body]
fn local_type(l: &tz::LocalTimeType) -> (r: LocalType)
    ensures
        valid_local_type(r),
{
    LocalType { ut_offset: l.ut_offset(), is_dst: l.is_dst(), designation: l.time_zone_designation().as_bytes().to_vec() }
}

/// The local time type of UTC in the `tz` crate: no offset, no daylight
/// saving time, an empty designation.
pub fn utc_type() -> (r: LocalType)
    ensures
        type_view(r) == utc_view(),
{
    LocalType { ut_offset: 0, is_dst: false, designation: Vec::new() }
}

fn copy_bytes(v: &Vec<u8>) -> (r: Vec<u8>)
    ensures
        r@ == v@,
{
    let mut r: Vec<u8> = Vec::new();
    let mut i: usize = 0;
    while i < v.len()
        invariant
            i <= v@.len(),
            r@ == v@.take(i as int),
        decreases v@.len() - i,
    {
        r.push(v[i]);
        i += 1;
        assert(r@ =~= v@.take(i as int));
    }
    assert(v@.take(v@.len() as int) =~= v@);
    r
}

/// A local time type as a value: offset, daylight saving flag, designation.
pub open spec fn type_view(l: LocalType) -> (i32, bool, Seq<u8>) {
    (l.ut_offset, l.is_dst, l.designation@)
}

/// The value of the local time type of UTC.
pub open spec fn utc_view() -> (i32, bool, Seq<u8>) {
    (0i32, false, Seq::<u8>::empty())
}

/// `year - 1900` as `tm_year` holds it, wrapping around the range of `i32`.
pub open spec fn tm_year_of(year: i32) -> i32 {
    if year - 1900 < i32::MIN {
        (year - 1900 + 0x1_0000_0000) as i32
    } else {
        (year - 1900) as i32
    }
}

/// The year of `tm_year`: `tm_year + 1900`, wrapping around the range of
/// `i32`.
pub open spec fn year_of_tm(tm_year: i32) -> i32 {
    if tm_year + 1900 > i32::MAX {
        (tm_year + 1900 - 0x1_0000_0000) as i32
    } else {
        (tm_year + 1900) as i32
    }
}

/// The month of a `tm_mon` that fits in a byte: `tm_mon + 1`, wrapping
/// around at 256.
pub open spec fn month_of_tm(tm_mon: i32) -> u8 {
    if tm_mon == 255 {
        0u8
    } else {
        (tm_mon + 1) as u8
    }
}

/// The Unix times that `tz` can hold: from the first second of the year
/// `i32::MIN` to the last second of the year `i32::MAX`.
pub open spec fn in_tz_range(t: int) -> bool {
    -67768100567971200 <= t <= 67767976233532799
}

/// The broken-down time of a date time in a local time type.
pub open spec fn tm_of(c: CivilTime, l: (i32, bool, Seq<u8>), t: Tm) -> bool {
    &&& t.tm_year == tm_year_of(c.year)
    &&& t.tm_mon == c.month - 1
    &&& t.tm_mday == c.month_day
    &&& t.tm_hour == c.hour
    &&& t.tm_min == c.minute
    &&& t.tm_sec == c.second
    &&& t.tm_wday == c.week_day
    &&& t.tm_yday == c.year_day
    &&& t.tm_isdst == (if l.1 { 1int } else { 0 })
    &&& t.tm_gmtoff == l.0
    &&& t.tm_zone matches Some(z) && z@ == l.2
}

/// The broken-down time of a date time `c` in the local time type `l`.
pub fn date_time_to_tm(c: &CivilTime, l: &LocalType) -> (r: Tm)
    requires
        c.month >= 1,
    ensures
        tm_of(*c, type_view(*l), r),
{
    Tm {
        tm_year: c.year.wrapping_sub(1900),
        tm_mon: (c.month - 1) as i32,
        tm_mday: c.month_day as i32,
        tm_hour: c.hour as i32,
        tm_min: c.minute as i32,
        tm_sec: c.second as i32,
        tm_wday: c.week_day as i32,
        tm_yday: c.year_day as i32,
        tm_isdst: if l.is_dst {
            1
        } else {
            0
        },
        tm_gmtoff: l.ut_offset as i64,
        tm_zone: Some(copy_bytes(&l.designation)),
    }
}

/// The broken-down time that C initialises its static results with.
pub fn blank_tm() -> (r: Tm)
    ensures
        r.tm_year == 0 && r.tm_mon == 0 && r.tm_mday == 0 && r.tm_hour == 0 && r.tm_min == 0
            && r.tm_sec == 0 && r.tm_wday == 0 && r.tm_yday == 0 && r.tm_isdst == -1
            && r.tm_gmtoff == 0 && r.tm_zone is None,
{
    Tm {
        tm_year: 0,
        tm_mon: 0,
        tm_mday: 0,
        tm_hour: 0,
        tm_min: 0,
        tm_sec: 0,
        tm_wday: 0,
        tm_yday: 0,
        tm_isdst: -1,
        tm_gmtoff: 0,
        tm_zone: None,
    }
}

/// The fields of `tm` that must fit in a byte: month, day, hour, minute and
/// second.
pub open spec fn tm_fields_fit(tm: Tm) -> bool {
    &&& 0 <= tm.tm_mon <= 255
    &&& 0 <= tm.tm_mday <= 255
    &&& 0 <= tm.tm_hour <= 255
    &&& 0 <= tm.tm_min <= 255
    &&& 0 <= tm.tm_sec <= 255
}

/// The error number for an error in loading a time zone: the OS error of an
/// I/O error, `EIO` otherwise.
pub fn tz_error_to_errno(err: &TzErrorKind) -> (r: i32)
    ensures
        r == (match *err {
            TzErrorKind::Io(Some(e)) => e,
            TzErrorKind::FileIo(Some(e)) => e,
            TzErrorKind::StringIo(Some(e)) => e,
            _ => EIO,
        }),
{
    match err {
        TzErrorKind::Io(Some(e)) => *e,
        TzErrorKind::FileIo(Some(e)) => *e,
        TzErrorKind::StringIo(Some(e)) => *e,
        _ => EIO,
    }
}

/// The Unix time that `tz::DateTime::new` gives for the date and time of
/// day of `tm` in a local time type `ut_offset` seconds east of UT.
pub open spec fn tm_unix_time(tm: Tm, ut_offset: i32) -> Option<i64> {
    match tz_date_time_new(
        year_of_tm(tm.tm_year),
        month_of_tm(tm.tm_mon),
        tm.tm_mday as u8,
        tm.tm_hour as u8,
        tm.tm_min as u8,
        tm.tm_sec as u8,
        ut_offset,
    ) {
        Some((_, u)) => Some(u),
        None => None,
    }
}

/// The broken-down time of the Unix time `t` in the local time type `l`:
/// [`localtime_result`]. On success its fields fit in bytes, the local time
/// lies in the range of `tz`, and where `t` does too the date and time of
/// day convert back to `t` in the same type.
pub fn localtime_with_type(t: i64, l: &LocalType) -> (r: Result<Tm, i32>)
    ensures
        localtime_result(t, type_view(*l), r),
        r matches Ok(tm) ==> tm_fields_fit(tm) && in_tz_range(t + l.ut_offset),
        r matches Ok(tm) ==> (in_tz_range(t as int) ==> tm_unix_time(tm, l.ut_offset) == Some(t)),
{
    match civil_from_unix(t, l.ut_offset) {
        None => Err(EIO),
        Some(c) => Ok(date_time_to_tm(&c, l)),
    }
}

/// The broken-down UTC time of the Unix time `t`: `EIO` where `tz` has no
/// date time for it. What it gives, `timegm` converts back to `t`.
pub fn gmtime_r(t: i64) -> (r: Result<Tm, i32>)
    ensures
        localtime_result(t, utc_view(), r),
        r matches Ok(tm) ==> unix_time_spec(tm, utc_zone_view()) == Ok::<i64, i32>(t),
{
    let l = utc_type();
    localtime_with_type(t, &l)
}

/// An optional byte string as a value.
pub open spec fn bytes_view(o: Option<Vec<u8>>) -> Option<Seq<u8>> {
    match o {
        Some(v) => Some(v@),
        None => None,
    }
}

/// The globals as values: `tzname[0]`, `tzname[1]`, `timezone`, `daylight`.
pub open spec fn globals_view(g: TimezoneGlobals) -> (Option<Seq<u8>>, Option<Seq<u8>>, i64, i32) {
    (bytes_view(g.std_name), bytes_view(g.dst_name), g.timezone, g.daylight)
}

/// The globals when no zone is known: no names, no offset, no daylight
/// saving time.
pub open spec fn cleared_view() -> (Option<Seq<u8>>, Option<Seq<u8>>, i64, i32) {
    (None, None, 0i64, 0i32)
}

/// The globals for a zone with standard type `std` and daylight saving type
/// `dst`: both names (the standard name twice without daylight saving
/// time), the standard offset as seconds west of UT, and whether there is
/// daylight saving time.
pub open spec fn set_view(std: (i32, bool, Seq<u8>), dst: Option<(i32, bool, Seq<u8>)>) -> (
    Option<Seq<u8>>,
    Option<Seq<u8>>,
    i64,
    i32,
) {
    (
        Some(std.2),
        Some(
            match dst {
                Some(d) => d.2,
                None => std.2,
            },
        ),
        (-std.0) as i64,
        if dst is Some {
            1i32
        } else {
            0i32
        },
    )
}

/// The globals when no zone is known.
pub fn clear_timezone() -> (r: TimezoneGlobals)
    ensures
        globals_view(r) == cleared_view(),
{
    TimezoneGlobals { std_name: None, dst_name: None, timezone: 0, daylight: 0 }
}

/// The globals for a zone with standard type `std` and daylight saving type
/// `dst`.
pub fn set_timezone(std: &LocalType, dst: Option<&LocalType>) -> (r: TimezoneGlobals)
    ensures
        globals_view(r) == set_view(
            type_view(*std),
            match dst {
                Some(d) => Some(type_view(*d)),
                None => None,
            },
        ),
{
    let std_name = copy_bytes(&std.designation);
    let (dst_name, daylight) = match dst {
        Some(d) => (copy_bytes(&d.designation), 1i32),
        None => (copy_bytes(&std.designation), 0i32),
    };
    TimezoneGlobals {
        std_name: Some(std_name),
        dst_name: Some(dst_name),
        timezone: -(std.ut_offset as i64),
        daylight,
    }
}

/// What `mktime` returns and the globals it leaves.
pub struct MktimeOutcome {
    /// The Unix time and the normalised broken-down time, or an error
    /// number.
    pub result: Result<(i64, Tm), i32>,
    /// The globals `tzname`, `timezone` and `daylight` afterwards.
    pub globals: TimezoneGlobals,
}

/// A local time type as a zone stores it: the offset from UT in seconds,
/// whether it is daylight saving time, and its designation, if it has one.
pub struct ZoneLocalType {
    /// Seconds east of UT.
    pub ut_offset: i32,
    /// Daylight saving time.
    pub is_dst: bool,
    /// The designation, such as `CET`.
    pub designation: Option<Vec<u8>>,
}

/// The day of a transition of an alternating rule.
pub enum TransitionDay {
    /// A day of the year in `1..=365`, February 29 not counted.
    Julian1WithoutLeap(u16),
    /// A day of the year in `0..=365`, February 29 counted.
    Julian0WithLeap(u16),
    /// A month, a week of it (`5` for the last) and a day of the week.
    MonthWeekDay(u8, u8, u8),
}

/// A rule that alternates standard time and daylight saving time.
pub struct AlternateRule {
    /// Standard time.
    pub std: ZoneLocalType,
    /// Daylight saving time.
    pub dst: ZoneLocalType,
    /// The day daylight saving time starts.
    pub dst_start: TransitionDay,
    /// The local time of day, in seconds, at which it starts.
    pub dst_start_time: i32,
    /// The day daylight saving time ends.
    pub dst_end: TransitionDay,
    /// The local time of day, in seconds, at which it ends.
    pub dst_end_time: i32,
}

/// The rule of a time zone for times after its last transition.
pub enum ZoneRule {
    /// One local time type throughout.
    Fixed(ZoneLocalType),
    /// Standard time and daylight saving time in alternation.
    Alternate(AlternateRule),
}

/// A time zone as plain values: its transitions (the time of each, with
/// the index of the local time type from then on), its local time types,
/// its leap seconds (time and correction) and its rule after the last
/// transition.
pub struct ZoneModel {
    /// The transitions, in order.
    pub transitions: Vec<(i64, usize)>,
    /// The local time types.
    pub local_types: Vec<ZoneLocalType>,
    /// The leap seconds.
    pub leap_seconds: Vec<(i64, i32)>,
    /// The rule after the last transition.
    pub rule: Option<ZoneRule>,
}

/// A zone's local time type as a value.
pub open spec fn zone_type_view(l: ZoneLocalType) -> (i32, bool, Option<Seq<u8>>) {
    (
        l.ut_offset,
        l.is_dst,
        match l.designation {
            Some(d) => Some(d@),
            None => None,
        },
    )
}

/// A zone's rule as a value.
pub enum RuleView {
    /// One local time type throughout.
    Fixed((i32, bool, Option<Seq<u8>>)),
    /// Standard and daylight saving types, and the start and end of daylight
    /// saving time.
    Alternate((i32, bool, Option<Seq<u8>>), (i32, bool, Option<Seq<u8>>), TransitionDay, i32, TransitionDay, i32),
}

/// A time zone as a value.
pub struct ZoneView {
    /// The transitions.
    pub transitions: Seq<(i64, usize)>,
    /// The local time types.
    pub local_types: Seq<(i32, bool, Option<Seq<u8>>)>,
    /// The leap seconds.
    pub leap_seconds: Seq<(i64, i32)>,
    /// The rule after the last transition.
    pub rule: Option<RuleView>,
}

/// A zone's rule as a value.
pub open spec fn rule_view(r: Option<ZoneRule>) -> Option<RuleView> {
    match r {
        Some(ZoneRule::Fixed(l)) => Some(RuleView::Fixed(zone_type_view(l))),
        Some(ZoneRule::Alternate(a)) => Some(
            RuleView::Alternate(
                zone_type_view(a.std),
                zone_type_view(a.dst),
                a.dst_start,
                a.dst_start_time,
                a.dst_end,
                a.dst_end_time,
            ),
        ),
        None => None,
    }
}

impl View for ZoneModel {
    type V = ZoneView;

    open spec fn view(&self) -> ZoneView {
        ZoneView {
            transitions: self.transitions@,
            local_types: self.local_types@.map_values(|l: ZoneLocalType| zone_type_view(l)),
            leap_seconds: self.leap_seconds@,
            rule: rule_view(self.rule),
        }
    }
}

/// A declared `tz` rule day.
#[verifier::external_type_specification]
#[verifier::external_body]
pub struct ExRuleDay(tz::timezone::RuleDay);

/// A declared `tz` transition rule.
#[verifier::external_type_specification]
#[verifier::external_body]
pub struct ExTransitionRule(tz::timezone::TransitionRule);

/// `tz::LocalTimeType::new` for `l`; nothing where `tz` refuses it. The
/// built type is opaque here: nothing is stated of it.
#[verifier::external_body]
fn tz_type(l: &ZoneLocalType) -> (r: Option<tz::LocalTimeType>) {
    tz::LocalTimeType::new(l.ut_offset, l.is_dst, l.designation.as_deref()).ok()
}

/// The `tz` rule day for `d`, through `Julian1WithoutLeap::new`,
/// `Julian0WithLeap::new` or `MonthWeekDay::new`; nothing where `tz`
/// refuses it. The built day is opaque here: nothing is stated of it.
#[verifier::external_body]
fn tz_rule_day(d: &TransitionDay) -> (r: Option<tz::timezone::RuleDay>) {
    match *d {
        TransitionDay::Julian1WithoutLeap(n) => tz::timezone::Julian1WithoutLeap::new(n).ok().map(tz::timezone::RuleDay::Julian1WithoutLeap),
        TransitionDay::Julian0WithLeap(n) => tz::timezone::Julian0WithLeap::new(n).ok().map(tz::timezone::RuleDay::Julian0WithLeap),
        TransitionDay::MonthWeekDay(m, w, d) => tz::timezone::MonthWeekDay::new(m, w, d).ok().map(tz::timezone::RuleDay::MonthWeekDay),
    }
}

/// The `tz` transition rule for `r`, through `AlternateTime::new` for an
/// alternating one; nothing where `tz` refuses it. The built rule is opaque
/// here: nothing is stated of it.
#[verifier::external_body]
fn tz_rule(r: &ZoneRule) -> (res: Option<tz::timezone::TransitionRule>) {
    match r {
        ZoneRule::Fixed(l) => Some(tz::timezone::TransitionRule::Fixed(tz_type(l)?)),
        ZoneRule::Alternate(a) => tz::timezone::AlternateTime::new(tz_type(&a.std)?, tz_type(&a.dst)?, tz_rule_day(&a.dst_start)?, a.dst_start_time, tz_rule_day(&a.dst_end)?, a.dst_end_time).ok().map(tz::timezone::TransitionRule::Alternate),
    }
}

/// `tz::TimeZone::new` over the transitions (`Transition::new`), local time
/// types, leap seconds (`LeapSecond::new`) and rule of `zone`; nothing where
/// `tz` refuses them. The built zone is opaque here: nothing is stated of
/// it; what the wrappers below read from it is named over `zone`.
#[verifier::external_body]
fn tz_zone(zone: &ZoneModel) -> (r: Option<tz::TimeZone>) {
    let types: Option<Vec<tz::LocalTimeType>> = zone.local_types.iter().map(tz_type).collect();
    let transitions = zone.transitions.iter().map(|t| tz::timezone::Transition::new(t.0, t.1)).collect();
    let leaps = zone.leap_seconds.iter().map(|l| tz::timezone::LeapSecond::new(l.0, l.1)).collect();
    let rule = match &zone.rule {
        None => None,
        Some(r) => Some(tz_rule(r)?),
    };
    tz::TimeZone::new(transitions, types?, leaps, rule).ok()
}

/// What `tz::DateTime::find` and `FoundDateTimeList::unique` give in the
/// zone `zone` for a date and time of day: an error of the search, nothing
/// where the wall-clock time does not occur exactly once, or the day of the
/// week, the day of the year, the local time type and the Unix time of its
/// one occurrence. An error also where `tz` refuses the zone.
pub uninterp spec fn tz_find_unique(
    zone: ZoneView,
    year: i32,
    month: u8,
    month_day: u8,
    hour: u8,
    minute: u8,
    second: u8,
) -> Result<Option<(u8, u16, (i32, bool, Seq<u8>), i64)>, ()>;

/// The local time type that `tz::TimeZone::find_local_time_type` gives in
/// the zone `zone` at the Unix time `t`; nothing where it fails or `tz`
/// refuses the zone.
pub uninterp spec fn tz_local_type_at(zone: ZoneView, t: i64) -> Option<(i32, bool, Seq<u8>)>;

/// `tz::DateTime::find` with `FoundDateTimeList::unique` in the zone built
/// from `zone`, named by [`tz_find_unique`]; the days lie in the documented
/// ranges and the local time type is one that `tz` can hold. A date time is
/// found only for inputs that `check_date_time_inputs` (or, in a zone with
/// neither transitions nor a rule, `DateTime::new`) accepts, so these lie in
/// the documented ranges too.
#[verifier::external_body]
fn find_unique(zone: &ZoneModel, year: i32, month: u8, month_day: u8, hour: u8, minute: u8, second: u8) -> (r: Result<Option<(u8, u16, LocalType, i64)>, ()>)
    ensures
        match r {
            Ok(Some((w, yd, l, u))) => tz_find_unique(zone@, year, month, month_day, hour, minute, second) matches Ok(Some((w2, yd2, l2, u2)))
                && w2 == w && yd2 == yd && l2 == type_view(l) && u2 == u && w <= 6 && yd <= 365 && valid_local_type(l)
                && 1 <= month <= 12 && 1 <= month_day <= 31 && hour <= 23 && minute <= 59 && second <= 60,
            Ok(None) => tz_find_unique(zone@, year, month, month_day, hour, minute, second) matches Ok(None),
            Err(()) => tz_find_unique(zone@, year, month, month_day, hour, minute, second) is Err,
        },
{
    let z = match tz_zone(zone) {
        Some(z) => z,
        None => return Err(()),
    };
    match tz::DateTime::find(year, month, month_day, hour, minute, second, 0, z.as_ref()) {
        Err(_) => Err(()),
        Ok(found) => match found.unique() {
            Some(d) => Ok(Some((d.week_day(), d.year_day(), local_type(d.local_time_type()), d.unix_time()))),
            None => Ok(None),
        },
    }
}

/// `TimeZone::find_local_time_type` at `t` in the zone built from `zone`,
/// named by [`tz_local_type_at`]; the type is one that `tz` can hold.
#[verifier::external_body]
fn zone_local_type_at(zone: &ZoneModel, t: i64) -> (r: Option<LocalType>)
    ensures
        match r {
            Some(l) => tz_local_type_at(zone@, t) == Some(type_view(l)) && valid_local_type(l),
            None => tz_local_type_at(zone@, t) is None,
        },
{
    let z = tz_zone(zone)?;
    match z.find_local_time_type(t) {
        Ok(l) => Some(local_type(l)),
        Err(_) => None,
    }
}

/// The zone of UTC as a value: one local time type with no offset, no
/// daylight saving time and no designation, and no rule; the contents of
/// `tz::TimeZone::utc`.
pub open spec fn utc_zone_view() -> ZoneView {
    ZoneView {
        transitions: Seq::empty(),
        local_types: seq![(0i32, false, None::<Seq<u8>>)],
        leap_seconds: Seq::empty(),
        rule: None,
    }
}

/// The zone of UTC.
pub fn utc_zone() -> (r: ZoneModel)
    ensures
        r@ == utc_zone_view(),
{
    let mut types: Vec<ZoneLocalType> = Vec::new();
    types.push(ZoneLocalType { ut_offset: 0, is_dst: false, designation: None });
    let r = ZoneModel { transitions: Vec::new(), local_types: types, leap_seconds: Vec::new(), rule: None };
    assert(r@.local_types =~= utc_zone_view().local_types);
    assert(r@.transitions =~= utc_zone_view().transitions);
    assert(r@.leap_seconds =~= utc_zone_view().leap_seconds);
    r
}

/// A zone's local time type as its date times show it: a missing
/// designation reads as the empty string.
pub open spec fn shown_view(t: (i32, bool, Option<Seq<u8>>)) -> (i32, bool, Seq<u8>) {
    (
        t.0,
        t.1,
        match t.2 {
            Some(d) => d,
            None => Seq::empty(),
        },
    )
}

/// A zone's local time type as a [`LocalType`].
pub fn local_of(l: &ZoneLocalType) -> (r: LocalType)
    ensures
        type_view(r) == shown_view(zone_type_view(*l)),
{
    let designation = match &l.designation {
        Some(d) => copy_bytes(d),
        None => Vec::new(),
    };
    LocalType { ut_offset: l.ut_offset, is_dst: l.is_dst, designation }
}

/// The standard and daylight saving local time types of a zone's rule;
/// UTC when there is no rule.
pub open spec fn rule_types_spec(rule: Option<RuleView>) -> ((i32, bool, Seq<u8>), Option<(i32, bool, Seq<u8>)>) {
    match rule {
        Some(RuleView::Fixed(l)) => (shown_view(l), None),
        Some(RuleView::Alternate(s, d, _, _, _, _)) => (shown_view(s), Some(shown_view(d))),
        None => (utc_view(), None),
    }
}

/// The standard and daylight saving local time types of the rule of
/// `zone`; UTC when there is no rule.
pub fn rule_types(zone: &ZoneModel) -> (r: (LocalType, Option<LocalType>))
    ensures
        type_view(r.0) == rule_types_spec(zone@.rule).0,
        match r.1 {
            Some(a) => rule_types_spec(zone@.rule).1 == Some(type_view(a)),
            None => rule_types_spec(zone@.rule).1 is None,
        },
{
    match &zone.rule {
        Some(ZoneRule::Fixed(l)) => (local_of(l), None),
        Some(ZoneRule::Alternate(a)) => (local_of(&a.std), Some(local_of(&a.dst))),
        None => (utc_type(), None),
    }
}

/// The local time type applied to a broken-down time whose daylight saving
/// flag `tm_isdst` is known: the rule's daylight saving type for a positive
/// flag where the rule has one, its standard type otherwise.
pub open spec fn known_flag_type(tm_isdst: i32, rule: Option<RuleView>) -> (i32, bool, Seq<u8>) {
    let (std, dst) = rule_types_spec(rule);
    if tm_isdst > 0 && dst is Some {
        dst->0
    } else {
        std
    }
}

/// The date time that the broken-down time `tm` stands for in `zone`, with
/// its local time type and Unix time. A month, day, hour, minute or second
/// that does not fit in a byte gives `EOVERFLOW`; the year and the month
/// are moved to the calendar's origin with wrapping arithmetic
/// ([`year_of_tm`], [`month_of_tm`]). With a known daylight
/// saving flag the rule's standard type, or for a positive flag its daylight
/// saving type where there is one, is applied to the date; with an unknown
/// flag the zone is searched for the one occurrence of that wall-clock time.
/// A date that `tz` refuses, or a wall-clock time that does not occur
/// exactly once, gives `EIO`.
pub open spec fn date_time_spec(tm: Tm, zone: ZoneView) -> Result<(CivilTime, (i32, bool, Seq<u8>), i64), i32> {
    if !tm_fields_fit(tm) {
        Err(EOVERFLOW)
    } else {
        let year = year_of_tm(tm.tm_year);
        let month = month_of_tm(tm.tm_mon);
        let month_day = tm.tm_mday as u8;
        let hour = tm.tm_hour as u8;
        let minute = tm.tm_min as u8;
        let second = tm.tm_sec as u8;
        if tm.tm_isdst < 0 {
            match tz_find_unique(zone, year, month, month_day, hour, minute, second) {
                Ok(Some((week_day, year_day, l, u))) => Ok(
                    (CivilTime { year, month, month_day, hour, minute, second, week_day, year_day }, l, u),
                ),
                _ => Err(EIO),
            }
        } else {
            let ty = known_flag_type(tm.tm_isdst, zone.rule);
            match tz_date_time_new(year, month, month_day, hour, minute, second, ty.0) {
                Some((c, u)) => Ok((c, ty, u)),
                None => Err(EIO),
            }
        }
    }
}

/// `r` is what [`date_time_spec`] gives, its local time type as a value.
pub open spec fn date_time_result(tm: Tm, zone: ZoneView, r: Result<(CivilTime, LocalType, i64), i32>) -> bool {
    match r {
        Ok((c, l, u)) => date_time_spec(tm, zone) == Ok::<(CivilTime, (i32, bool, Seq<u8>), i64), i32>((c, type_view(l), u)),
        Err(e) => date_time_spec(tm, zone) == Err::<(CivilTime, (i32, bool, Seq<u8>), i64), i32>(e),
    }
}

/// The date time of the broken-down time `tm` in `zone`: [`date_time_spec`].
/// On success the date time is a valid one, and its date and time of day
/// are those of `tm` (year and month moved to the calendar's origin).
pub fn tm_to_date_time(tm: &Tm, zone: &ZoneModel) -> (r: Result<(CivilTime, LocalType, i64), i32>)
    ensures
        date_time_result(*tm, zone@, r),
        r matches Ok((c, l, u)) ==> valid_civil(c) && c.year == year_of_tm(tm.tm_year) && c.month
            == month_of_tm(tm.tm_mon) && c.month_day == tm.tm_mday && c.hour == tm.tm_hour
            && c.minute == tm.tm_min && c.second == tm.tm_sec,
{
    if !(0 <= tm.tm_mon && tm.tm_mon <= 255 && 0 <= tm.tm_mday && tm.tm_mday <= 255 && 0
        <= tm.tm_hour && tm.tm_hour <= 255 && 0 <= tm.tm_min && tm.tm_min <= 255 && 0 <= tm.tm_sec
        && tm.tm_sec <= 255) {
        return Err(EOVERFLOW);
    }
    let year = tm.tm_year.wrapping_add(1900);
    let month = (tm.tm_mon as u8).wrapping_add(1);
    let month_day = tm.tm_mday as u8;
    let hour = tm.tm_hour as u8;
    let minute = tm.tm_min as u8;
    let second = tm.tm_sec as u8;
    if tm.tm_isdst < 0 {
        match find_unique(zone, year, month, month_day, hour, minute, second) {
            Ok(Some((week_day, year_day, l, u))) => {
                let c = CivilTime { year, month, month_day, hour, minute, second, week_day, year_day };
                Ok((c, l, u))
            },
            _ => Err(EIO),
        }
    } else {
        let (std, dst) = rule_types(zone);
        let ty = if tm.tm_isdst > 0 {
            match dst {
                Some(d) => d,
                None => std,
            }
        } else {
            std
        };
        match date_time_new(year, month, month_day, hour, minute, second, ty.ut_offset) {
            Some((c, u)) => Ok((c, ty, u)),
            None => Err(EIO),
        }
    }
}

/// `r` is the broken-down time of the Unix time `t` in the local time type
/// `l`: `EIO` where `tz` has no date time for it.
pub open spec fn localtime_result(t: i64, l: (i32, bool, Seq<u8>), r: Result<Tm, i32>) -> bool {
    match tz_civil_from_unix(t, l.0) {
        None => r == Err::<Tm, i32>(EIO),
        Some(c) => r matches Ok(tm) && tm_of(c, l, tm),
    }
}

/// The error number that a failed load of the zone gives.
pub open spec fn load_errno(k: TzErrorKind) -> i32 {
    match k {
        TzErrorKind::Io(Some(e)) => e,
        TzErrorKind::FileIo(Some(e)) => e,
        TzErrorKind::StringIo(Some(e)) => e,
        _ => EIO,
    }
}

/// The broken-down local time of the Unix time `t` in `zone`, or the error
/// number for the zone that could not be loaded: the local time type that
/// the zone has at `t` applied to `t`; `EIO` where it has none. What it
/// gives, `timelocal` and `mktime` convert back to `t` where `t` lies in the
/// range of `tz` and the type that they apply for its daylight saving flag
/// has the offset of the type at `t`.
pub fn localtime_r(t: i64, zone: Result<&ZoneModel, TzErrorKind>) -> (r: Result<Tm, i32>)
    ensures
        match zone {
            Err(k) => r == Err::<Tm, i32>(load_errno(k)),
            Ok(z) => match tz_local_type_at(z@, t) {
                None => r == Err::<Tm, i32>(EIO),
                Some(l) => localtime_result(t, l, r),
            },
        },
        match zone {
            Err(_) => true,
            Ok(z) => r matches Ok(tm) ==> (in_tz_range(t as int) && known_flag_type(tm.tm_isdst, z@.rule).0
                == tm.tm_gmtoff ==> unix_time_spec(tm, z@) == Ok::<i64, i32>(t)),
        },
{
    let zone = match zone {
        Ok(z) => z,
        Err(k) => return Err(tz_error_to_errno(&k)),
    };
    let l = match zone_local_type_at(zone, t) {
        Some(l) => l,
        None => return Err(EIO),
    };
    localtime_with_type(t, &l)
}

/// The globals for a zone's rule: set from its types when it has a rule,
/// cleared otherwise.
pub open spec fn tzset_view(rule: Option<RuleView>) -> (Option<Seq<u8>>, Option<Seq<u8>>, i64, i32) {
    match rule {
        Some(RuleView::Fixed(l)) => set_view(shown_view(l), None),
        Some(RuleView::Alternate(s, d, _, _, _, _)) => set_view(shown_view(s), Some(shown_view(d))),
        None => cleared_view(),
    }
}

/// The globals for `zone`: set from the types of its rule, cleared when it
/// has none.
pub fn tzset_with_rule(zone: &ZoneModel) -> (r: TimezoneGlobals)
    ensures
        globals_view(r) == tzset_view(zone@.rule),
{
    match &zone.rule {
        Some(ZoneRule::Fixed(l)) => set_timezone(&local_of(l), None),
        Some(ZoneRule::Alternate(a)) => set_timezone(&local_of(&a.std), Some(&local_of(&a.dst))),
        None => clear_timezone(),
    }
}

/// The globals after `tzset` with the zone loaded from the system, or the
/// error of loading it: cleared when there is no zone or the zone has no
/// rule.
pub fn tzset(zone: Result<&ZoneModel, TzErrorKind>) -> (r: TimezoneGlobals)
    ensures
        globals_view(r) == match zone {
            Err(_) => cleared_view(),
            Ok(z) => tzset_view(z@.rule),
        },
{
    match zone {
        Ok(z) => tzset_with_rule(z),
        Err(_) => clear_timezone(),
    }
}

/// What `mktime` gives for `tm` in `zone`: the Unix time and broken-down
/// time of [`date_time_spec`], whose date time is a valid one, with the
/// globals set from the types of the zone's rule; the error, with the
/// globals cleared.
pub open spec fn mktime_result(tm: Tm, zone: ZoneView, r: MktimeOutcome) -> bool {
    match date_time_spec(tm, zone) {
        Err(e) => r.result == Err::<(i64, Tm), i32>(e) && globals_view(r.globals) == cleared_view(),
        Ok((c, l, u)) => r.result matches Ok((u2, t)) && u2 == u && valid_civil(c) && tm_of(c, l, t) && globals_view(
            r.globals,
        ) == set_view(rule_types_spec(zone.rule).0, rule_types_spec(zone.rule).1),
    }
}

/// `mktime` of `tm` in `zone`: [`mktime_result`].
pub fn mktime_in_zone(tm: &Tm, zone: &ZoneModel) -> (r: MktimeOutcome)
    ensures
        mktime_result(*tm, zone@, r),
{
    let (std, dst) = rule_types(zone);
    match tm_to_date_time(tm, zone) {
        Err(e) => MktimeOutcome { result: Err(e), globals: clear_timezone() },
        Ok((c, l, u)) => {
            let t = date_time_to_tm(&c, &l);
            let globals = match &dst {
                Some(d) => set_timezone(&std, Some(d)),
                None => set_timezone(&std, None),
            };
            MktimeOutcome { result: Ok((u, t)), globals }
        },
    }
}

/// `mktime` of `tm` in the zone loaded from the system, or the error of
/// loading it (the globals then cleared).
pub fn mktime(tm: &Tm, zone: Result<&ZoneModel, TzErrorKind>) -> (r: MktimeOutcome)
    ensures
        match zone {
            Err(k) => r.result == Err::<(i64, Tm), i32>(load_errno(k)) && globals_view(r.globals)
                == cleared_view(),
            Ok(z) => mktime_result(*tm, z@, r),
        },
{
    match zone {
        Err(k) => MktimeOutcome { result: Err(tz_error_to_errno(&k)), globals: clear_timezone() },
        Ok(z) => mktime_in_zone(tm, z),
    }
}

/// The Unix time of [`date_time_spec`], or its error.
pub open spec fn unix_time_spec(tm: Tm, zone: ZoneView) -> Result<i64, i32> {
    match date_time_spec(tm, zone) {
        Ok((_, _, u)) => Ok(u),
        Err(e) => Err(e),
    }
}

/// The Unix time of the broken-down UTC time `tm`.
pub fn timegm(tm: &Tm) -> (r: Result<i64, i32>)
    ensures
        r == unix_time_spec(*tm, utc_zone_view()),
{
    let zone = utc_zone();
    match tm_to_date_time(tm, &zone) {
        Ok((_c, _l, u)) => Ok(u),
        Err(e) => Err(e),
    }
}

/// The Unix time of the broken-down local time `tm` in the zone loaded from
/// the system, or the error of loading it.
pub fn timelocal(tm: &Tm, zone: Result<&ZoneModel, TzErrorKind>) -> (r: Result<i64, i32>)
    ensures
        r == match zone {
            Err(k) => Err::<i64, i32>(load_errno(k)),
            Ok(z) => unix_time_spec(*tm, z@),
        },
{
    let zone = match zone {
        Ok(z) => z,
        Err(k) => return Err(tz_error_to_errno(&k)),
    };
    match tm_to_date_time(tm, zone) {
        Ok((_c, _l, u)) => Ok(u),
        Err(e) => Err(e),
    }
}

} // verus!
