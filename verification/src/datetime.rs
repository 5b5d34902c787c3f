//! Time zones, and moments shown in them. A moment is an instant counted in nanoseconds from
//! the Unix epoch, within the years `chrono` can hold; its calendar readings, offsets and text
//! come from `chrono` and `chrono-tz`, and its arithmetic with durations is checked here.
use vstd::prelude::*;
use chrono::{Datelike, TimeZone, Timelike};
use chrono_tz::OffsetComponents;
use crate::text::{append_str, decimal, format_u64, str_eq};
use crate::timedelta::{duration_in_range, TimeDelta};

verus! {

broadcast use vstd::string::group_string_axioms;

/// The first second `chrono` can hold: the start of the year -262143 (proleptic Gregorian), in
/// seconds from the Unix epoch.
pub open spec fn first_second() -> int {
    -8_334_601_228_800
}

/// The last second `chrono` can hold: the end of the year 262142.
pub open spec fn last_second() -> int {
    8_210_266_876_799
}

/// Whether `n` nanoseconds from the Unix epoch fall in a second `chrono` can hold.
pub open spec fn moment_in_range(n: int) -> bool {
    first_second() * 1_000_000_000 <= n < (last_second() + 1) * 1_000_000_000
}

/// The moment `n` nanoseconds from the epoch, as its second (rounded down) and the nanoseconds
/// past it, where `chrono` can hold it.
pub open spec fn moment_parts(n: int) -> Option<(i64, u32)> {
    if moment_in_range(n) {
        Some(((n / 1_000_000_000) as i64, (n % 1_000_000_000) as u32))
    } else {
        None
    }
}

/// Whether a second and the nanoseconds past it make a moment `chrono` can hold.
pub open spec fn valid_moment(secs: int, nanos: int) -> bool {
    0 <= nanos < 1_000_000_000 && first_second() <= secs <= last_second()
}

/// Whether every moment in `times` can be held.
pub open spec fn local_times_in_range(times: LocalTimes<i64>) -> bool {
    match times {
        LocalTimes::Single(a) => valid_moment(a as int, 0),
        LocalTimes::Ambiguous(a, b) => valid_moment(a as int, 0) && valid_moment(b as int, 0),
        LocalTimes::Invalid => true,
    }
}

/// Whether `year` is a leap year of the proleptic Gregorian calendar.
pub open spec fn is_leap_year(year: int) -> bool {
    year % 4 == 0 && (year % 100 != 0 || year % 400 == 0)
}

/// The number of days of a month of a year.
pub open spec fn days_in_month(year: int, month: int) -> int {
    if month == 2 {
        if is_leap_year(year) { 29 } else { 28 }
    } else if month == 4 || month == 6 || month == 9 || month == 11 {
        30
    } else {
        31
    }
}

/// Whether six fields name a date and time of the days `chrono` holds: a year in its range, a
/// month, a day of that month, and a time of day in whole seconds.
pub open spec fn date_time_exists(year: int, month: int, day: int, hour: int, min: int, sec: int) -> bool {
    &&& -262_143 <= year <= 262_142
    &&& 1 <= month <= 12
    &&& 1 <= day <= days_in_month(year, month)
    &&& 0 <= hour < 24
    &&& 0 <= min < 60
    &&& 0 <= sec < 60
}

/// Whether `chrono-tz` knows a time zone by the name `name` (its `Tz::from_str` succeeds).
pub uninterp spec fn tz_exists(name: Seq<char>) -> bool;

/// The moments that a local date and time stands for in the zone named `zone` (`chrono`'s
/// `TimeZone::with_ymd_and_hms` on the `chrono-tz` zone, each result as a timestamp).
pub uninterp spec fn tz_local_times(zone: Seq<char>, year: i32, month: u32, day: u32, hour: u32, min: u32, sec: u32) -> LocalTimes<i64>;

/// The calendar date and wall-clock time of a moment in the zone named `zone` (`chrono`'s
/// `Datelike` and `Timelike` readings of it shown in the `chrono-tz` zone).
pub uninterp spec fn tz_local_fields(zone: Seq<char>, secs: i64, nanos: u32) -> LocalFields;

/// The base offset from UTC and the daylight-saving offset, in seconds, of the zone named
/// `zone` at a moment (`chrono-tz`'s `OffsetComponents`).
pub uninterp spec fn tz_offsets(zone: Seq<char>, secs: i64, nanos: u32) -> (i64, i64);

/// Whether `chrono` reads `pattern` as a strftime pattern without an unknown specifier.
pub uninterp spec fn strftime_valid(pattern: Seq<char>) -> bool;

/// The text of a moment, shown in the zone named `zone`, after the strftime `pattern`.
pub uninterp spec fn tz_formatted(zone: Seq<char>, secs: i64, nanos: u32, pattern: Seq<char>) -> Seq<char>;

/// The RFC 3339 text of a moment shown in the zone named `zone`.
pub uninterp spec fn tz_rfc3339(zone: Seq<char>, secs: i64, nanos: u32) -> Seq<char>;

/// The moment on the same local day as a given moment, in the zone named `zone`, with the
/// wall-clock time replaced by `hour`, `minute` and `second` (`chrono`'s `with_hour`,
/// `with_minute` and `with_second` in turn), where each step gives one.
pub uninterp spec fn tz_time_of_day(zone: Seq<char>, secs: i64, nanos: u32, hour: u32, minute: u32, second: u32) -> Option<(i64, u32)>;

/// Whether `chrono-tz` knows the zone `name` (`Tz::from_str`).
#[verifier::external_body]
fn timezone_exists(name: &str) -> (r: bool)
    ensures
        r == tz_exists(name@),
{
    <chrono_tz::Tz as std::str::FromStr>::from_str(name).is_ok()
}

/// The moments a local date and time stands for in the zone named `zone`: `Tz::from_str`, then
/// `TimeZone::with_ymd_and_hms`, each result taken by its `timestamp`. The result is named,
/// not stated; being `chrono` moments of whole seconds, each lies in the range it holds, and by
/// its documentation fields that name no date and time give none.
#[verifier::external_body]
fn local_times(zone: &str, year: i32, month: u32, day: u32, hour: u32, min: u32, sec: u32) -> (r: LocalTimes<i64>)
    ensures
        r == tz_local_times(zone@, year, month, day, hour, min, sec),
        local_times_in_range(r),
        !date_time_exists(year as int, month as int, day as int, hour as int, min as int, sec as int) ==> r is Invalid,
{
    let tz = match <chrono_tz::Tz as std::str::FromStr>::from_str(zone) { Ok(t) => t, Err(_) => return LocalTimes::Invalid };
    match tz.with_ymd_and_hms(year, month, day, hour, min, sec) {
        chrono::LocalResult::Single(a) => LocalTimes::Single(a.timestamp()),
        chrono::LocalResult::Ambiguous(a, b) => LocalTimes::Ambiguous(a.timestamp(), b.timestamp()),
        chrono::LocalResult::None => LocalTimes::Invalid,
    }
}

/// `chrono`'s `DateTime::from_timestamp(secs, nsecs)`, taken back by its timestamp and its
/// nanoseconds. By its source it refuses exactly the seconds outside the years it holds.
#[verifier::external_body]
fn utc_from_timestamp(secs: i64, nsecs: u32) -> (r: Option<(i64, u32)>)
    requires
        nsecs < 1_000_000_000,
    ensures
        r == (if first_second() <= secs <= last_second() { Some((secs, nsecs)) } else { None }),
{
    match chrono::DateTime::from_timestamp(secs, nsecs) {
        Some(d) => Some((d.timestamp(), d.timestamp_subsec_nanos())),
        None => None,
    }
}

/// `chrono`'s `Utc::now`, by its timestamp and nanoseconds. Any moment it gives lies in the
/// range `chrono` holds; which moment depends on the clock, and it panics on a clock set before
/// the epoch.
#[verifier::external_body]
fn utc_now() -> (r: (i64, u32))
    ensures
        valid_moment(r.0 as int, r.1 as int),
{
    let now = chrono::Utc::now();
    (now.timestamp(), now.timestamp_subsec_nanos())
}

/// `chrono`'s `DateTime::checked_add_signed`: a moment moved on by a duration, each given by
/// its parts. By its source it is refused exactly when it leaves the years `chrono` holds.
#[verifier::external_body]
fn moment_checked_add(secs: i64, nanos: u32, d_secs: i64, d_nanos: u32) -> (r: Option<(i64, u32)>)
    requires
        valid_moment(secs as int, nanos as int),
        d_nanos < 1_000_000_000,
        duration_in_range(d_secs * 1_000_000_000 + d_nanos),
    ensures
        r == moment_parts(secs * 1_000_000_000 + nanos + (d_secs * 1_000_000_000 + d_nanos)),
{
    let (Some(m), Some(d)) = (chrono::DateTime::from_timestamp(secs, nanos), chrono::TimeDelta::new(d_secs, d_nanos)) else {
        return None;
    };
    match m.checked_add_signed(d) {
        Some(t) => Some((t.timestamp(), t.timestamp_subsec_nanos())),
        None => None,
    }
}

/// `chrono`'s `DateTime::checked_sub_signed`: a moment moved back by a duration, each given
/// by its parts. By its source it is refused exactly when it leaves the years `chrono` holds.
#[verifier::external_body]
fn moment_checked_sub(secs: i64, nanos: u32, d_secs: i64, d_nanos: u32) -> (r: Option<(i64, u32)>)
    requires
        valid_moment(secs as int, nanos as int),
        d_nanos < 1_000_000_000,
        duration_in_range(d_secs * 1_000_000_000 + d_nanos),
    ensures
        r == moment_parts(secs * 1_000_000_000 + nanos - (d_secs * 1_000_000_000 + d_nanos)),
{
    let (Some(m), Some(d)) = (chrono::DateTime::from_timestamp(secs, nanos), chrono::TimeDelta::new(d_secs, d_nanos)) else {
        return None;
    };
    match m.checked_sub_signed(d) {
        Some(t) => Some((t.timestamp(), t.timestamp_subsec_nanos())),
        None => None,
    }
}

/// `chrono`'s `DateTime::signed_duration_since`: the duration from the second moment to the
/// first, taken back by its whole seconds (rounded toward zero) and the nanoseconds left. By
/// its source and its documentation it is exact and never overflows.
#[verifier::external_body]
fn moment_difference(secs: i64, nanos: u32, o_secs: i64, o_nanos: u32) -> (r: (i64, i32))
    requires
        valid_moment(secs as int, nanos as int),
        valid_moment(o_secs as int, o_nanos as int),
    ensures
        r.0 * 1_000_000_000 + r.1 == (secs * 1_000_000_000 + nanos) - (o_secs * 1_000_000_000 + o_nanos),
        -1_000_000_000 < r.1 < 1_000_000_000,
{
    match (chrono::DateTime::from_timestamp(secs, nanos), chrono::DateTime::from_timestamp(o_secs, o_nanos)) {
        (Some(a), Some(b)) => {
            let d = a.signed_duration_since(b);
            (d.num_seconds(), d.subsec_nanos())
        },
        _ => (0, 0),
    }
}

/// A moment's calendar date and wall-clock time in the zone named `zone`, read by `chrono`.
/// The result is named, not stated; for a zone `chrono-tz` does not know, every field is 0.
#[verifier::external_body]
fn zone_local_fields(zone: &str, secs: i64, nanos: u32) -> (r: LocalFields)
    ensures
        r == tz_local_fields(zone@, secs, nanos),
{
    let d = match (zone.parse::<chrono_tz::Tz>(), chrono::DateTime::from_timestamp(secs, nanos)) {
        (Ok(tz), Some(d)) => d.with_timezone(&tz),
        _ => return LocalFields { year: 0, month: 0, day: 0, hour: 0, minute: 0, second: 0 },
    };
    LocalFields { year: d.year(), month: d.month(), day: d.day(), hour: d.hour(), minute: d.minute(), second: d.second() }
}

/// The base and daylight-saving offsets, in seconds, of the zone named `zone` at a moment
/// (`chrono-tz`'s `TimeZone::offset_from_utc_datetime`, then `base_utc_offset` and
/// `dst_offset`). The result is named, not stated; its source holds both as `i32` seconds. For
/// a zone it does not know, both are 0.
#[verifier::external_body]
fn zone_offsets(zone: &str, secs: i64, nanos: u32) -> (r: (i64, i64))
    ensures
        r == tz_offsets(zone@, secs, nanos),
        i32::MIN <= r.0 <= i32::MAX,
        i32::MIN <= r.1 <= i32::MAX,
{
    match (zone.parse::<chrono_tz::Tz>(), chrono::DateTime::from_timestamp(secs, nanos)) {
        (Ok(tz), Some(d)) => {
            let off = tz.offset_from_utc_datetime(&d.naive_utc());
            (off.base_utc_offset().num_seconds(), off.dst_offset().num_seconds())
        },
        _ => (0, 0),
    }
}

/// Whether `chrono` parses `pattern` as strftime items without an error item
/// (`StrftimeItems::parse`); formatting with such a pattern cannot fail.
#[verifier::external_body]
fn pattern_is_valid(pattern: &str) -> (r: bool)
    ensures
        r == strftime_valid(pattern@),
{
    chrono::format::StrftimeItems::new(pattern).parse().is_ok()
}

/// A moment shown in the zone named `zone`, formatted by `chrono` after the strftime
/// `pattern` (`DateTime::format`, then `to_string`, which panics on a pattern with an unknown
/// specifier). The result is named, not stated; for a zone it does not know, it is empty.
#[verifier::external_body]
fn zone_format(zone: &str, secs: i64, nanos: u32, pattern: &str) -> (r: String)
    requires
        strftime_valid(pattern@),
    ensures
        r@ == tz_formatted(zone@, secs, nanos, pattern@),
{
    match (zone.parse::<chrono_tz::Tz>(), chrono::DateTime::from_timestamp(secs, nanos)) {
        (Ok(tz), Some(d)) => d.with_timezone(&tz).format(pattern).to_string(),
        _ => String::new(),
    }
}

/// A moment shown in the zone named `zone`, as `chrono`'s `DateTime::to_rfc3339` writes it.
/// The result is named, not stated; for a zone it does not know, it is empty.
#[verifier::external_body]
fn zone_rfc3339(zone: &str, secs: i64, nanos: u32) -> (r: String)
    ensures
        r@ == tz_rfc3339(zone@, secs, nanos),
{
    match (zone.parse::<chrono_tz::Tz>(), chrono::DateTime::from_timestamp(secs, nanos)) {
        (Ok(tz), Some(d)) => d.with_timezone(&tz).to_rfc3339(),
        _ => String::new(),
    }
}

/// The moment on the same local day as a given one, in the zone named `zone`, with the
/// wall-clock time set to `hour`, `minute` and `second`: `TimeZone::from_utc_datetime`, then
/// `Timelike::with_hour`, `with_minute` and `with_second`. The result is named, not stated;
/// by their documentation an hour past 23, or a minute or second past 59, gives none, and any
/// moment given is one `chrono` holds.
#[verifier::external_body]
fn zone_time_of_day(zone: &str, secs: i64, nanos: u32, hour: u32, minute: u32, second: u32) -> (r: Option<(i64, u32)>)
    requires
        valid_moment(secs as int, nanos as int),
    ensures
        r == tz_time_of_day(zone@, secs, nanos, hour, minute, second),
        hour >= 24 || minute >= 60 || second >= 60 ==> r is None,
        r matches Some(p) ==> valid_moment(p.0 as int, p.1 as int),
{
    let (Ok(tz), Some(now)) = (zone.parse::<chrono_tz::Tz>(), chrono::DateTime::from_timestamp(secs, nanos)) else {
        return None;
    };
    match tz.from_utc_datetime(&now.naive_utc()).with_hour(hour).and_then(|d| d.with_minute(minute)).and_then(|d| d.with_second(second)) {
        Some(t) => Some((t.timestamp(), t.timestamp_subsec_nanos())),
        None => None,
    }
}

/// A moment's calendar date and wall-clock time in its zone.
#[derive(Debug, Clone, Copy, PartialEq, Eq, Structural)]
pub struct LocalFields {
    pub year: i32,
    pub month: u32,
    pub day: u32,
    pub hour: u32,
    pub minute: u32,
    pub second: u32,
}

/// What a local date and time stands for: one moment, two (a clock turned back; earliest
/// first), or none (an invalid date, or a clock turned forward over it).
#[derive(Debug, Clone, Copy, PartialEq, Eq, Structural)]
pub enum LocalTimes<T> {
    Single(T),
    Ambiguous(T, T),
    Invalid,
}

/// Why a date, a time, a duration or a zone was refused.
#[derive(Debug, Clone, Copy, PartialEq, Eq, Structural)]
pub enum DateTimeError {
    InvalidTimezone,
    InvalidDate,
    InvalidTime,
    TimeOutOfBounds,
    InvalidWeeks,
    InvalidDays,
    InvalidHours,
    InvalidMinutes,
    InvalidSeconds,
    InvalidMillis,
    NegativeDuration,
}

impl DateTimeError {
    /// The error's message.
    pub fn message(&self) -> (r: &'static str)
        ensures
            r@ == (match *self {
                DateTimeError::InvalidTimezone => "Invalid timezone"@,
                DateTimeError::InvalidDate => "Invalid date"@,
                DateTimeError::InvalidTime => "Invalid time"@,
                DateTimeError::TimeOutOfBounds => "Invalid time (might exceed bounds?)"@,
                DateTimeError::InvalidWeeks => "Invalid number of weeks"@,
                DateTimeError::InvalidDays => "Invalid number of days"@,
                DateTimeError::InvalidHours => "Invalid number of hours"@,
                DateTimeError::InvalidMinutes => "Invalid number of minutes"@,
                DateTimeError::InvalidSeconds => "Invalid number of seconds"@,
                DateTimeError::InvalidMillis => "Invalid number of milliseconds"@,
                DateTimeError::NegativeDuration => "Source duration value is out of range for the target type"@,
            }),
    {
        match self {
            DateTimeError::InvalidTimezone => "Invalid timezone",
            DateTimeError::InvalidDate => "Invalid date",
            DateTimeError::InvalidTime => "Invalid time",
            DateTimeError::TimeOutOfBounds => "Invalid time (might exceed bounds?)",
            DateTimeError::InvalidWeeks => "Invalid number of weeks",
            DateTimeError::InvalidDays => "Invalid number of days",
            DateTimeError::InvalidHours => "Invalid number of hours",
            DateTimeError::InvalidMinutes => "Invalid number of minutes",
            DateTimeError::InvalidSeconds => "Invalid number of seconds",
            DateTimeError::InvalidMillis => "Invalid number of milliseconds",
            DateTimeError::NegativeDuration => "Source duration value is out of range for the target type",
        }
    }
}

/// The zone that a common abbreviation stands for.
pub open spec fn tz_alias(name: Seq<char>) -> Option<Seq<char>> {
    if name == "UTC"@ {
        Some("UTC"@)
    } else if name == "IST"@ {
        Some("Asia/Kolkata"@)
    } else if name == "PST"@ || name == "PDT"@ {
        Some("America/Los_Angeles"@)
    } else if name == "EDT"@ {
        Some("America/New_York"@)
    } else {
        None
    }
}

/// The abbreviations people use name their zones: `UTC` itself, `IST` Asia/Kolkata, `PST` and
/// `PDT` America/Los_Angeles, `EDT` America/New_York; no other name is taken as an
/// abbreviation.
pub proof fn lemma_abbreviations_name_their_zones(name: Seq<char>)
    ensures
        name == "UTC"@ ==> tz_alias(name) == Some("UTC"@),
        name == "IST"@ ==> tz_alias(name) == Some("Asia/Kolkata"@),
        name == "PST"@ || name == "PDT"@ ==> tz_alias(name) == Some("America/Los_Angeles"@),
        name == "EDT"@ ==> tz_alias(name) == Some("America/New_York"@),
        tz_alias(name) is Some ==> name == "UTC"@ || name == "IST"@ || name == "PST"@ || name == "PDT"@ || name == "EDT"@,
{
    lemma_abbreviations_differ();
}

/// The five abbreviations are five different texts.
proof fn lemma_abbreviations_differ()
    ensures
        "UTC"@ != "IST"@,
        "UTC"@ != "PST"@,
        "UTC"@ != "PDT"@,
        "UTC"@ != "EDT"@,
        "IST"@ != "PST"@,
        "IST"@ != "PDT"@,
        "IST"@ != "EDT"@,
        "PST"@ != "PDT"@,
        "PST"@ != "EDT"@,
        "PDT"@ != "EDT"@,
{
    reveal_strlit("UTC");
    reveal_strlit("IST");
    reveal_strlit("PST");
    reveal_strlit("PDT");
    reveal_strlit("EDT");
    assert("UTC"@[0] != "IST"@[0]);
    assert("UTC"@[0] != "PST"@[0]);
    assert("UTC"@[0] != "PDT"@[0]);
    assert("UTC"@[0] != "EDT"@[0]);
    assert("IST"@[0] != "PST"@[0]);
    assert("IST"@[0] != "PDT"@[0]);
    assert("IST"@[0] != "EDT"@[0]);
    assert("PST"@[1] != "PDT"@[1]);
    assert("PST"@[0] != "EDT"@[0]);
    assert("PDT"@[0] != "EDT"@[0]);
}

/// A time zone, by its name in the time zone database.
#[derive(Debug, Clone)]
pub struct Timezone {
    name: String,
}

impl Timezone {
    /// The zone's name.
    pub closed spec fn name_spec(&self) -> Seq<char> {
        self.name@
    }

    /// The zone `name` names: an abbreviation that people use (`UTC`, `IST`, `PST`, `PDT`,
    /// `EDT`) stands for its zone, and any other name must be one `chrono-tz` knows.
    pub fn new(name: &str) -> (r: Result<Timezone, DateTimeError>)
        ensures
            name@ == "UTC"@ ==> (r matches Ok(t) && t.name_spec() == "UTC"@),
            name@ == "IST"@ ==> (r matches Ok(t) && t.name_spec() == "Asia/Kolkata"@),
            name@ == "PST"@ || name@ == "PDT"@ ==> (r matches Ok(t) && t.name_spec() == "America/Los_Angeles"@),
            name@ == "EDT"@ ==> (r matches Ok(t) && t.name_spec() == "America/New_York"@),
            match tz_alias(name@) {
                Some(z) => r matches Ok(t) && t.name_spec() == z,
                None => if tz_exists(name@) {
                    r matches Ok(t) && t.name_spec() == name@
                } else {
                    r == Err::<Timezone, DateTimeError>(DateTimeError::InvalidTimezone)
                },
            },
    {
        proof {
            lemma_abbreviations_name_their_zones(name@);
        }
        if str_eq(name, "UTC") {
            return Ok(Timezone { name: "UTC".to_string() });
        }
        if str_eq(name, "IST") {
            return Ok(Timezone { name: "Asia/Kolkata".to_string() });
        }
        if str_eq(name, "PST") || str_eq(name, "PDT") {
            return Ok(Timezone { name: "America/Los_Angeles".to_string() });
        }
        if str_eq(name, "EDT") {
            return Ok(Timezone { name: "America/New_York".to_string() });
        }
        if timezone_exists(name) {
            Ok(Timezone { name: name.to_string() })
        } else {
            Err(DateTimeError::InvalidTimezone)
        }
    }

    /// Coordinated universal time.
    pub fn utc() -> (r: Timezone)
        ensures
            r.name_spec() == "UTC"@,
    {
        Timezone { name: "UTC".to_string() }
    }

    /// The zone's name (its text form).
    pub fn name(&self) -> (r: &str)
        ensures
            r@ == self.name_spec(),
    {
        self.name.as_str()
    }

    /// Whether two zones are the same zone.
    pub fn same_as(&self, other: &Timezone) -> (r: bool)
        ensures
            r == (self.name_spec() == other.name_spec()),
    {
        str_eq(self.name.as_str(), other.name.as_str())
    }
}

/// A moment, shown in a time zone: the second from the epoch it falls in (rounded down), the
/// nanoseconds past that second, and the zone.
#[derive(Debug)]
pub struct DateTime {
    secs: i64,
    nanos: u32,
    tz: Timezone,
}

impl DateTime {
    #[verifier::type_invariant]
    spec fn well_formed(self) -> bool {
        valid_moment(self.secs as int, self.nanos as int)
    }

    /// The moment, in nanoseconds from the Unix epoch.
    pub closed spec fn instant(&self) -> int {
        self.secs * 1_000_000_000 + self.nanos
    }

    /// The name of the zone the moment is shown in.
    pub closed spec fn zone(&self) -> Seq<char> {
        self.tz.name_spec()
    }

    /// The second the moment falls in.
    pub closed spec fn second_of(&self) -> i64 {
        self.secs
    }

    /// The nanoseconds past that second.
    pub closed spec fn nanos_of(&self) -> u32 {
        self.nanos
    }

    /// The moment of second `secs` and `nanos` nanoseconds past it, shown in `tz`.
    fn at(secs: i64, nanos: u32, tz: &Timezone) -> (r: DateTime)
        requires
            valid_moment(secs as int, nanos as int),
        ensures
            r.instant() == secs * 1_000_000_000 + nanos,
            r.second_of() == secs,
            r.nanos_of() == nanos,
            r.zone() == tz.name_spec(),
    {
        DateTime { secs, nanos, tz: tz.copy() }
    }

    /// The moment's second and nanoseconds, which the type's invariant keeps in range.
    fn parts(&self) -> (r: (i64, u32))
        ensures
            r.0 == self.second_of(),
            r.1 == self.nanos_of(),
            valid_moment(r.0 as int, r.1 as int),
            self.instant() == r.0 * 1_000_000_000 + r.1,
    {
        proof {
            use_type_invariant(self);
        }
        (self.secs, self.nanos)
    }

    /// Seconds from the epoch, rounded down (`timestamp_seconds`).
    pub fn timestamp_seconds(&self) -> (r: i64)
        ensures
            r == self.instant() / 1_000_000_000,
    {
        let (s, n) = self.parts();
        proof {
            vstd::arithmetic::div_mod::lemma_fundamental_div_mod_converse(self.instant(), 1_000_000_000, s as int, n as int);
        }
        s
    }

    /// Milliseconds from the epoch, rounded down (`timestamp_millis`).
    pub fn timestamp_millis(&self) -> (r: i64)
        ensures
            r == self.instant() / 1_000_000,
    {
        let (s, n) = self.parts();
        proof {
            vstd::arithmetic::div_mod::lemma_fundamental_div_mod(n as int, 1_000_000);
            vstd::arithmetic::div_mod::lemma_fundamental_div_mod_converse(
                self.instant(),
                1_000_000,
                s * 1000 + (n as int) / 1_000_000,
                (n as int) % 1_000_000,
            );
        }
        s * 1000 + (n / 1_000_000) as i64
    }

    /// The microseconds past the moment's second (what the `timestamp_micros` field shows).
    pub fn timestamp_micros(&self) -> (r: u32)
        ensures
            r == (self.instant() % 1_000_000_000) / 1_000,
    {
        let (s, n) = self.parts();
        proof {
            vstd::arithmetic::div_mod::lemma_fundamental_div_mod_converse(self.instant(), 1_000_000_000, s as int, n as int);
        }
        n / 1_000
    }

    /// The nanoseconds past the moment's second (what the `timestamp_nanos` field shows).
    pub fn timestamp_nanos(&self) -> (r: u32)
        ensures
            r == self.instant() % 1_000_000_000,
    {
        let (s, n) = self.parts();
        proof {
            vstd::arithmetic::div_mod::lemma_fundamental_div_mod_converse(self.instant(), 1_000_000_000, s as int, n as int);
        }
        n
    }

    /// The zone the moment is shown in.
    pub fn tz(&self) -> (r: Timezone)
        ensures
            r.name_spec() == self.zone(),
    {
        self.tz.copy()
    }

    /// The moment's calendar date and wall-clock time in its zone.
    pub fn local_fields(&self) -> (r: LocalFields)
        ensures
            r == tz_local_fields(self.zone(), self.second_of(), self.nanos_of()),
    {
        let (s, n) = self.parts();
        zone_local_fields(self.tz.name(), s, n)
    }

    /// The zone's base offset from UTC at the moment.
    pub fn base_offset(&self) -> (r: TimeDelta)
        ensures
            r@ == tz_offsets(self.zone(), self.second_of(), self.nanos_of()).0 * 1_000_000_000,
    {
        let (s, n) = self.parts();
        let (base, _dst) = zone_offsets(self.tz.name(), s, n);
        TimeDelta::from_parts(base, 0)
    }

    /// The zone's daylight-saving offset at the moment.
    pub fn dst_offset(&self) -> (r: TimeDelta)
        ensures
            r@ == tz_offsets(self.zone(), self.second_of(), self.nanos_of()).1 * 1_000_000_000,
    {
        let (s, n) = self.parts();
        let (_base, dst) = zone_offsets(self.tz.name(), s, n);
        TimeDelta::from_parts(dst, 0)
    }

    /// The same moment, shown in `tz`.
    pub fn with_timezone(&self, tz: &Timezone) -> (r: DateTime)
        ensures
            r.instant() == self.instant(),
            r.zone() == tz.name_spec(),
    {
        let (s, n) = self.parts();
        DateTime::at(s, n, tz)
    }

    /// The moment formatted after a strftime `pattern`, which must be one `chrono` reads
    /// without an unknown specifier.
    pub fn format(&self, pattern: &str) -> (r: String)
        requires
            strftime_valid(pattern@),
        ensures
            r@ == tz_formatted(self.zone(), self.second_of(), self.nanos_of(), pattern@),
    {
        let (s, n) = self.parts();
        zone_format(self.tz.name(), s, n, pattern)
    }

    /// The moment formatted after `pattern`, or none where `chrono` would not read the pattern.
    pub fn try_format(&self, pattern: &str) -> (r: Option<String>)
        ensures
            strftime_valid(pattern@) ==> (r matches Some(t) && t@ == tz_formatted(self.zone(), self.second_of(), self.nanos_of(), pattern@)),
            !strftime_valid(pattern@) ==> r is None,
    {
        if pattern_is_valid(pattern) {
            Some(self.format(pattern))
        } else {
            None
        }
    }

    /// The moment's RFC 3339 text in its zone (its text form).
    pub fn to_rfc3339(&self) -> (r: String)
        ensures
            r@ == tz_rfc3339(self.zone(), self.second_of(), self.nanos_of()),
    {
        let (s, n) = self.parts();
        zone_rfc3339(self.tz.name(), s, n)
    }

    /// The moment `d` later, in the same zone; it must stay in the years `chrono` holds.
    pub fn plus(&self, d: &TimeDelta) -> (r: DateTime)
        requires
            moment_in_range(self.instant() + d@),
        ensures
            r.instant() == self.instant() + d@,
            r.zone() == self.zone(),
    {
        let (s, n) = self.parts();
        let (ds, dn) = d.parts();
        match moment_checked_add(s, n, ds, dn) {
            Some((t, tn)) => {
                proof {
                    lemma_moment_parts(self.instant() + d@);
                }
                DateTime::at(t, tn, &self.tz)
            },
            None => {
                proof {
                    assert(false);
                }
                DateTime::at(s, n, &self.tz)
            },
        }
    }

    /// The moment `d` earlier, in the same zone; it must stay in the years `chrono` holds.
    pub fn minus(&self, d: &TimeDelta) -> (r: DateTime)
        requires
            moment_in_range(self.instant() - d@),
        ensures
            r.instant() == self.instant() - d@,
            r.zone() == self.zone(),
    {
        let (s, n) = self.parts();
        let (ds, dn) = d.parts();
        match moment_checked_sub(s, n, ds, dn) {
            Some((t, tn)) => {
                proof {
                    lemma_moment_parts(self.instant() - d@);
                }
                DateTime::at(t, tn, &self.tz)
            },
            None => {
                proof {
                    assert(false);
                }
                DateTime::at(s, n, &self.tz)
            },
        }
    }

    /// The duration from `other` to this moment.
    pub fn duration_since(&self, other: &DateTime) -> (r: TimeDelta)
        ensures
            r@ == self.instant() - other.instant(),
    {
        let (s, n) = self.parts();
        let (os, on) = other.parts();
        let (q, sub) = moment_difference(s, n, os, on);
        if sub < 0 {
            let nanos: u32 = (sub + 1_000_000_000) as u32;
            TimeDelta::from_parts(q - 1, nanos)
        } else {
            TimeDelta::from_parts(q, sub as u32)
        }
    }

    /// Whether two moments are the same instant, wherever they are shown.
    pub fn same_instant(&self, other: &DateTime) -> (r: bool)
        ensures
            r == (self.instant() == other.instant()),
    {
        let (s, n) = self.parts();
        let (os, on) = other.parts();
        s == os && n == on
    }

    /// Whether this moment comes before `other`.
    pub fn is_before(&self, other: &DateTime) -> (r: bool)
        ensures
            r == (self.instant() < other.instant()),
    {
        let (s, n) = self.parts();
        let (os, on) = other.parts();
        s < os || (s == os && n < on)
    }

    /// Whether this moment comes no later than `other`.
    pub fn is_at_or_before(&self, other: &DateTime) -> (r: bool)
        ensures
            r == (self.instant() <= other.instant()),
    {
        let (s, n) = self.parts();
        let (os, on) = other.parts();
        s < os || (s == os && n <= on)
    }
}

/// A moment `chrono` holds splits into a second and the nanoseconds past it that make a
/// valid moment and add back up to it.
proof fn lemma_moment_parts(n: int)
    requires
        moment_in_range(n),
    ensures
        moment_parts(n) matches Some(p) && valid_moment(p.0 as int, p.1 as int) && p.0 * 1_000_000_000 + p.1 == n,
{
    vstd::arithmetic::div_mod::lemma_fundamental_div_mod(n, 1_000_000_000);
}

/// The first moment a local date and time stands for, and with `all` the second one of an
/// ambiguous time; an invalid date is refused.
pub open spec fn pick_local_spec<T>(times: LocalTimes<T>, all: Option<bool>) -> Result<(T, Option<T>), DateTimeError> {
    match times {
        LocalTimes::Single(a) => Ok((a, None)),
        LocalTimes::Ambiguous(a, b) => if all == Some(true) {
            Ok((a, Some(b)))
        } else {
            Ok((a, None))
        },
        LocalTimes::Invalid => Err(DateTimeError::InvalidDate),
    }
}

/// The first moment a local date and time stands for, and with `all` the second one of an
/// ambiguous time.
pub fn pick_local<T>(times: LocalTimes<T>, all: Option<bool>) -> (r: Result<(T, Option<T>), DateTimeError>)
    ensures
        r == pick_local_spec(times, all),
{
    match times {
        LocalTimes::Single(a) => Ok((a, None)),
        LocalTimes::Ambiguous(a, b) => {
            let want_all = match all {
                Some(x) => x,
                None => false,
            };
            if want_all {
                Ok((a, Some(b)))
            } else {
                Ok((a, None))
            }
        },
        LocalTimes::Invalid => Err(DateTimeError::InvalidDate),
    }
}

impl Timezone {
    /// A copy of the zone.
    pub fn copy(&self) -> (r: Timezone)
        ensures
            r.name_spec() == self.name_spec(),
    {
        Timezone { name: self.name.clone() }
    }

    /// The moment a date and time in UTC stands for, shown in this zone (with `all`, the second
    /// of an ambiguous time too).
    pub fn utc_to_tz(&self, year: i32, month: u32, day: u32, hour: u32, min: u32, sec: u32, all: Option<bool>) -> (r: Result<(DateTime, Option<DateTime>), DateTimeError>)
        ensures
            match pick_local_spec(tz_local_times("UTC"@, year, month, day, hour, min, sec), all) {
                Ok((a, b)) => r matches Ok((x, y)) && x.instant() == a * 1_000_000_000 && x.zone() == self.name_spec() && match b {
                    Some(t) => y matches Some(z) && z.instant() == t * 1_000_000_000 && z.zone() == self.name_spec(),
                    None => y is None,
                },
                Err(e) => r == Err::<(DateTime, Option<DateTime>), DateTimeError>(e),
            },
            !date_time_exists(year as int, month as int, day as int, hour as int, min as int, sec as int)
                ==> r == Err::<(DateTime, Option<DateTime>), DateTimeError>(DateTimeError::InvalidDate),
    {
        let times = local_times("UTC", year, month, day, hour, min, sec);
        let (a, b) = pick_local(times, all)?;
        let second = match b {
            Some(t) => Some(DateTime::at(t, 0, self)),
            None => None,
        };
        Ok((DateTime::at(a, 0, self), second))
    }

    /// The moment a date and time in this zone stands for, shown in UTC (with `all`, the second
    /// of an ambiguous time too).
    pub fn tz_to_utc(&self, year: i32, month: u32, day: u32, hour: u32, min: u32, sec: u32, all: Option<bool>) -> (r: Result<(DateTime, Option<DateTime>), DateTimeError>)
        ensures
            match pick_local_spec(tz_local_times(self.name_spec(), year, month, day, hour, min, sec), all) {
                Ok((a, b)) => r matches Ok((x, y)) && x.instant() == a * 1_000_000_000 && x.zone() == "UTC"@ && match b {
                    Some(t) => y matches Some(z) && z.instant() == t * 1_000_000_000 && z.zone() == "UTC"@,
                    None => y is None,
                },
                Err(e) => r == Err::<(DateTime, Option<DateTime>), DateTimeError>(e),
            },
            !date_time_exists(year as int, month as int, day as int, hour as int, min as int, sec as int)
                ==> r == Err::<(DateTime, Option<DateTime>), DateTimeError>(DateTimeError::InvalidDate),
    {
        let times = local_times(self.name.as_str(), year, month, day, hour, min, sec);
        let (a, b) = pick_local(times, all)?;
        let utc = Timezone::utc();
        let second = match b {
            Some(t) => Some(DateTime::at(t, 0, &utc)),
            None => None,
        };
        Ok((DateTime::at(a, 0, &utc), second))
    }

    /// The moment `secs` seconds from the epoch, shown in this zone; refused outside the years
    /// `chrono` holds.
    pub fn from_time(&self, secs: i64) -> (r: Result<DateTime, DateTimeError>)
        ensures
            moment_in_range(secs * 1_000_000_000) ==> (r matches Ok(d) && d.instant() == secs * 1_000_000_000 && d.zone() == self.name_spec()),
            !moment_in_range(secs * 1_000_000_000) ==> r == Err::<DateTime, DateTimeError>(DateTimeError::TimeOutOfBounds),
    {
        match utc_from_timestamp(secs, 0) {
            Some((s, n)) => Ok(DateTime::at(s, n, self)),
            None => Err(DateTimeError::TimeOutOfBounds),
        }
    }

    /// The moment `millis` milliseconds from the epoch, shown in this zone; refused outside
    /// the years `chrono` holds.
    pub fn from_time_millis(&self, millis: i64) -> (r: Result<DateTime, DateTimeError>)
        ensures
            moment_in_range(millis * 1_000_000) ==> (r matches Ok(d) && d.instant() == millis * 1_000_000 && d.zone() == self.name_spec()),
            !moment_in_range(millis * 1_000_000) ==> r == Err::<DateTime, DateTimeError>(DateTimeError::TimeOutOfBounds),
    {
        let secs = match millis.checked_div_euclid(1000) {
            Some(q) => q,
            None => 0,
        };
        let rem = match millis.checked_rem_euclid(1000) {
            Some(m) => m,
            None => 0,
        };
        assert(millis == secs * 1000 + rem && 0 <= rem < 1000) by {
            vstd::arithmetic::div_mod::lemma_fundamental_div_mod(millis as int, 1000);
        }
        let nanos: u32 = (rem as u32) * 1_000_000;
        match utc_from_timestamp(secs, nanos) {
            Some((s, n)) => Ok(DateTime::at(s, n, self)),
            None => Err(DateTimeError::TimeOutOfBounds),
        }
    }

    /// The moment `micros` microseconds from the epoch, shown in this zone; refused outside
    /// the years `chrono` holds.
    pub fn from_time_micros(&self, micros: i64) -> (r: Result<DateTime, DateTimeError>)
        ensures
            moment_in_range(micros * 1_000) ==> (r matches Ok(d) && d.instant() == micros * 1_000 && d.zone() == self.name_spec()),
            !moment_in_range(micros * 1_000) ==> r == Err::<DateTime, DateTimeError>(DateTimeError::TimeOutOfBounds),
    {
        let secs = match micros.checked_div_euclid(1_000_000) {
            Some(q) => q,
            None => 0,
        };
        let rem = match micros.checked_rem_euclid(1_000_000) {
            Some(m) => m,
            None => 0,
        };
        assert(micros == secs * 1_000_000 + rem && 0 <= rem < 1_000_000) by {
            vstd::arithmetic::div_mod::lemma_fundamental_div_mod(micros as int, 1_000_000);
        }
        let nanos: u32 = (rem as u32) * 1_000;
        match utc_from_timestamp(secs, nanos) {
            Some((s, n)) => Ok(DateTime::at(s, n, self)),
            None => Err(DateTimeError::TimeOutOfBounds),
        }
    }

    /// The moment `nanos` nanoseconds from the epoch, shown in this zone; every `i64` count of
    /// them is one `chrono` holds.
    pub fn from_time_nanos(&self, nanos: i64) -> (r: DateTime)
        ensures
            r.instant() == nanos,
            r.zone() == self.name_spec(),
    {
        let secs = match nanos.checked_div_euclid(1_000_000_000) {
            Some(q) => q,
            None => 0,
        };
        let rem = match nanos.checked_rem_euclid(1_000_000_000) {
            Some(m) => m,
            None => 0,
        };
        assert(nanos == secs * 1_000_000_000 + rem && 0 <= rem < 1_000_000_000) by {
            vstd::arithmetic::div_mod::lemma_fundamental_div_mod(nanos as int, 1_000_000_000);
        }
        DateTime::at(secs, rem as u32, self)
    }

    /// The current moment, shown in this zone. Which moment it is depends on the clock.
    pub fn now(&self) -> (r: DateTime)
        ensures
            r.zone() == self.name_spec(),
    {
        let (s, n) = utc_now();
        DateTime::at(s, n, self)
    }

    /// The moment on the UTC day of the moment `now_secs` seconds and `now_nanos` nanoseconds
    /// from the epoch, at `hour`, `minute` and `second` UTC (its nanoseconds kept), shown in
    /// this zone; an hour past 23 or a minute or second past 59 is refused.
    pub fn utc_time_of_day(&self, now_secs: i64, now_nanos: u32, hour: u32, minute: u32, second: u32) -> (r: Result<DateTime, DateTimeError>)
        requires
            valid_moment(now_secs as int, now_nanos as int),
        ensures
            hour < 24 && minute < 60 && second < 60 ==> (r matches Ok(d)
                && d.instant() == ((now_secs as int) / 86_400 * 86_400 + hour * 3_600 + minute * 60 + second) * 1_000_000_000 + now_nanos
                && d.zone() == self.name_spec()),
            !(hour < 24 && minute < 60 && second < 60) ==> r == Err::<DateTime, DateTimeError>(DateTimeError::InvalidTime),
    {
        if hour >= 24 || minute >= 60 || second >= 60 {
            return Err(DateTimeError::InvalidTime);
        }
        let day = match now_secs.checked_div_euclid(86_400) {
            Some(q) => q,
            None => 0,
        };
        assert(0 <= now_secs - day * 86_400 < 86_400) by {
            vstd::arithmetic::div_mod::lemma_fundamental_div_mod(now_secs as int, 86_400);
        }
        let secs: i64 = day * 86_400 + (hour as i64) * 3_600 + (minute as i64) * 60 + (second as i64);
        Ok(DateTime::at(secs, now_nanos, self))
    }

    /// The current moment's UTC day at `hour`, `minute` and `second` UTC, shown in this zone.
    pub fn time_utc_to_tz(&self, hour: u32, minute: u32, second: u32) -> (r: Result<DateTime, DateTimeError>)
        ensures
            r matches Ok(d) ==> d.zone() == self.name_spec(),
            r matches Ok(d) ==> exists|s: i64, n: u32|
                valid_moment(s as int, n as int) && #[trigger] d.instant() == ((s as int) / 86_400 * 86_400
                    + hour * 3_600 + minute * 60 + second) * 1_000_000_000 + n,
            r matches Err(e) ==> e == DateTimeError::InvalidTime,
            (r is Err) == !(hour < 24 && minute < 60 && second < 60),
    {
        let (s, n) = utc_now();
        let r = self.utc_time_of_day(s, n, hour, minute, second);
        proof {
            if let Ok(d) = &r {
                assert(valid_moment(s as int, n as int) && d.instant() == ((s as int) / 86_400 * 86_400
                    + hour * 3_600 + minute * 60 + second) * 1_000_000_000 + n);
            }
        }
        r
    }

    /// The moment on this zone's local day of the moment `now_secs` seconds and `now_nanos`
    /// nanoseconds from the epoch, at `hour`, `minute` and `second` on this zone's clock, shown
    /// in UTC; refused where `chrono` gives none.
    pub fn local_time_of_day(&self, now_secs: i64, now_nanos: u32, hour: u32, minute: u32, second: u32) -> (r: Result<DateTime, DateTimeError>)
        requires
            valid_moment(now_secs as int, now_nanos as int),
        ensures
            match tz_time_of_day(self.name_spec(), now_secs, now_nanos, hour, minute, second) {
                Some(p) => r matches Ok(d) && d.instant() == p.0 * 1_000_000_000 + p.1 && d.zone() == "UTC"@,
                None => r == Err::<DateTime, DateTimeError>(DateTimeError::InvalidTime),
            },
            !(hour < 24 && minute < 60 && second < 60) ==> r is Err,
    {
        match zone_time_of_day(self.name.as_str(), now_secs, now_nanos, hour, minute, second) {
            Some((s, n)) => Ok(DateTime::at(s, n, &Timezone::utc())),
            None => Err(DateTimeError::InvalidTime),
        }
    }

    /// The current moment's local day in this zone at `hour`, `minute` and `second` on this
    /// zone's clock, shown in UTC.
    pub fn time_tz_to_utc(&self, hour: u32, minute: u32, second: u32) -> (r: Result<DateTime, DateTimeError>)
        ensures
            r matches Ok(d) ==> d.zone() == "UTC"@,
            r matches Ok(d) ==> exists|s: i64, n: u32|
                valid_moment(s as int, n as int) && (#[trigger] tz_time_of_day(self.name_spec(), s, n, hour, minute, second)
                    matches Some(p) && d.instant() == p.0 * 1_000_000_000 + p.1),
            r matches Err(e) ==> e == DateTimeError::InvalidTime,
            r is Err ==> exists|s: i64, n: u32|
                valid_moment(s as int, n as int) && #[trigger] tz_time_of_day(self.name_spec(), s, n, hour, minute, second) is None,
            !(hour < 24 && minute < 60 && second < 60) ==> r is Err,
    {
        let (s, n) = utc_now();
        let r = self.local_time_of_day(s, n, hour, minute, second);
        proof {
            assert(valid_moment(s as int, n as int));
            let t = tz_time_of_day(self.name_spec(), s, n, hour, minute, second);
            if let Ok(d) = &r {
                assert(t matches Some(p) && d.instant() == p.0 * 1_000_000_000 + p.1);
            } else {
                assert(t is None);
            }
        }
        r
    }
}

/// Rust's remainder of `a` by a positive `b`: it takes the sign of `a`.
pub open spec fn trunc_rem(a: int, b: int) -> int {
    if a >= 0 {
        a % b
    } else {
        -((-a) % b)
    }
}

/// A number shown with at least two digits (`{:02}`): a sign for a negative one, a leading
/// zero for one of one digit.
pub open spec fn pad2(n: int) -> Seq<char> {
    if n < 0 {
        seq!['-'] + decimal((-n) as nat)
    } else if n < 10 {
        seq!['0'] + decimal(n as nat)
    } else {
        decimal(n as nat)
    }
}

/// The text of an offset: `-` for a negative one and `+` otherwise, its hours, a colon, and its
/// minutes within the hour.
pub open spec fn offset_string_spec(seconds: int, hours: int, minutes: int) -> Seq<char> {
    (if seconds < 0 { "-"@ } else { "+"@ }) + pad2(hours) + ":"@ + pad2(trunc_rem(minutes, 60))
}

fn magnitude(n: i64) -> (r: u64)
    ensures
        r as int == (if n < 0 { -n } else { n as int }),
{
    if n < 0 {
        let m: i64 = -(n + 1);
        (m as u64) + 1
    } else {
        n as u64
    }
}

fn push_pad2(out: &mut String, n: i64)
    ensures
        final(out)@ == old(out)@ + pad2(n as int),
{
    let mag = magnitude(n);
    let digits = format_u64(mag);
    if n < 0 {
        append_str(out, "-");
        proof {
            reveal_strlit("-");
        }
    } else if n < 10 {
        append_str(out, "0");
        proof {
            reveal_strlit("0");
        }
    }
    append_str(out, digits.as_str());
    proof {
        reveal_strlit("-");
        reveal_strlit("0");
        assert("-"@ =~= seq!['-']);
        assert("0"@ =~= seq!['0']);
    }
}

/// The text of an offset of `seconds` in all, `hours` whole hours and `minutes` whole minutes
/// (a duration's counts, each rounded toward zero).
pub fn offset_string(seconds: i64, hours: i64, minutes: i64) -> (r: String)
    ensures
        r@ == offset_string_spec(seconds as int, hours as int, minutes as int),
{
    let mut out = if seconds < 0 { "-".to_string() } else { "+".to_string() };
    push_pad2(&mut out, hours);
    append_str(&mut out, ":");
    let m: i64 = minutes % 60;
    assert(m as int == trunc_rem(minutes as int, 60)) by {
        if minutes < 0 {
            assert(m <= 0);
        }
    }
    push_pad2(&mut out, m);
    out
}

} // verus!
