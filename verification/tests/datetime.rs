use khronos_runtime::datetime::{offset_string, pick_local, DateTimeError, LocalTimes, Timezone};
use khronos_runtime::timedelta::TimeDelta;

#[test]
fn test_timezone() {
    let my_tz = Timezone::new("IST").unwrap();
    assert_eq!(my_tz.name(), "Asia/Kolkata");
    let (date, second) = my_tz.utc_to_tz(2021, 1, 1, 8, 0, 0, None).unwrap();
    assert!(second.is_none());
    assert_eq!(date.format("%I:%M %p"), "01:30 PM");
    assert_eq!(date.format("%I%M%S").parse::<i64>().unwrap(), 13000);

    let time = my_tz.time_utc_to_tz(8, 0, 0).unwrap();
    assert_eq!(time.format("%I%M%S").parse::<i64>().unwrap(), 13000);
    let time = my_tz.time_tz_to_utc(13, 30, 0).unwrap();
    assert_eq!(time.format("%I%M%S").parse::<i64>().unwrap(), 80000);

    let (back, _) = my_tz.tz_to_utc(2021, 1, 1, 13, 30, 0, None).unwrap();
    assert_eq!(back.format("%I:%M %p"), "08:00 AM");

    let fields = date.local_fields();
    assert_eq!(fields.year, 2021);
    assert_eq!(fields.month, 1);
    assert_eq!(fields.day, 1);
    assert_eq!(fields.hour, 13);
    assert_eq!(fields.minute, 30);
    assert_eq!(fields.second, 0);
    assert_eq!(date.base_offset().offset_string(), "+05:30");
    assert_eq!(date.base_offset().seconds(), 19800);
    assert_eq!(date.base_offset().millis(), 19800000);
    assert_eq!(date.dst_offset().seconds(), 0);
    assert_eq!(date.dst_offset().millis(), 0);
    assert!(date.tz().same_as(&my_tz));

    let td = TimeDelta::from_seconds(10).unwrap();
    assert_eq!(td.seconds(), 10);
    assert_eq!(td.millis(), 10000);
    assert_eq!(td.minutes(), 0);
    assert_eq!(td.hours(), 0);
    assert_eq!(td.days(), 0);
    assert_eq!(td.offset_string(), "+00:00");
    let (later, _) = my_tz.utc_to_tz(2021, 1, 1, 8, 0, 10, None).unwrap();
    assert!(date.plus(&td).same_instant(&later));

    let td2 = TimeDelta::from_weeks(10).unwrap();
    assert_eq!(td2.weeks(), 10);
    let date33 = date.plus(&td2);
    assert_eq!(date33.format("%Y-%m-%dT%H:%M:%S%z"), "2021-03-12T13:30:00+0530");

    let new_date = date.with_timezone(&Timezone::new("UTC").unwrap());
    assert_eq!(new_date.format("%Y-%m-%dT%H:%M:%S%z"), "2021-01-01T08:00:00+0000");
    let new_date_in_est = date.with_timezone(&Timezone::new("EST").unwrap());
    assert_eq!(new_date_in_est.format("%Y-%m-%dT%H:%M:%S%z"), "2021-01-01T03:00:00-0500");

    let london = Timezone::new("Europe/London").unwrap();
    let (summer, _) = london.utc_to_tz(2016, 5, 10, 12, 0, 0, None).unwrap();
    assert_eq!(summer.dst_offset().seconds(), 3600);
}

#[test]
fn zone_names_and_errors() {
    assert!(Timezone::new("Europe/London").is_ok());
    assert!(Timezone::new("EST").is_ok());
    assert_eq!(Timezone::new("PDT").unwrap().name(), "America/Los_Angeles");
    assert_eq!(Timezone::new("EDT").unwrap().name(), "America/New_York");
    assert_eq!(Timezone::new("Mars/Olympus").unwrap_err(), DateTimeError::InvalidTimezone);
    let ist = Timezone::new("IST").unwrap();
    assert_eq!(ist.utc_to_tz(2021, 2, 30, 0, 0, 0, None).unwrap_err().message(), "Invalid date");
    assert_eq!(ist.time_utc_to_tz(24, 0, 0).unwrap_err(), DateTimeError::InvalidTime);
    assert_eq!(ist.time_tz_to_utc(1, 60, 0).unwrap_err().message(), "Invalid time");
}

#[test]
fn local_time_choice() {
    assert_eq!(pick_local(LocalTimes::Ambiguous(1, 2), Some(true)), Ok((1, Some(2))));
    assert_eq!(pick_local(LocalTimes::Ambiguous(1, 2), None), Ok((1, None)));
    assert_eq!(pick_local::<i64>(LocalTimes::Invalid, Some(true)), Err(DateTimeError::InvalidDate));
    assert_eq!(offset_string(19800, 5, 330), "+05:30");
    assert_eq!(offset_string(-19800, -5, -330), "--5:-30");
    let ny = Timezone::new("America/New_York").unwrap();
    let (first, second) = ny.tz_to_utc(2021, 11, 7, 1, 30, 0, Some(true)).unwrap();
    let second = second.unwrap();
    assert_eq!(second.duration_since(&first).seconds(), 3600);
    assert!(ny.tz_to_utc(2021, 3, 14, 2, 30, 0, None).is_err());
}

#[test]
fn moments_from_timestamps() {
    let utc = Timezone::utc();
    let d = utc.from_time(1_609_459_200).unwrap();
    assert_eq!(d.to_rfc3339(), "2021-01-01T00:00:00+00:00");
    assert_eq!(d.timestamp_seconds(), 1_609_459_200);
    assert_eq!(d.timestamp_millis(), 1_609_459_200_000);
    let m = utc.from_time_millis(-1).unwrap();
    assert_eq!(m.timestamp_seconds(), -1);
    assert_eq!(m.timestamp_nanos(), 999_000_000);
    assert_eq!(m.timestamp_micros(), 999_000);
    assert_eq!(m.timestamp_millis(), -1);
    let u = utc.from_time_micros(1_500_001).unwrap();
    assert_eq!(u.timestamp_seconds(), 1);
    assert_eq!(u.timestamp_micros(), 500_001);
    let n = utc.from_time_nanos(i64::MIN);
    assert_eq!(n.timestamp_nanos(), chrono::DateTime::from_timestamp_nanos(i64::MIN).timestamp_subsec_nanos());
    assert_eq!(n.timestamp_seconds(), chrono::DateTime::from_timestamp_nanos(i64::MIN).timestamp());
    let kolkata = Timezone::new("Asia/Kolkata").unwrap();
    assert_eq!(kolkata.from_time(0).unwrap().to_rfc3339(), "1970-01-01T05:30:00+05:30");
}

#[test]
fn moment_range_matches_chrono() {
    let utc = Timezone::utc();
    let first: i64 = -8_334_601_228_800;
    let last: i64 = 8_210_266_876_799;
    assert!(chrono::DateTime::from_timestamp(first, 0).is_some());
    assert!(chrono::DateTime::from_timestamp(first - 1, 0).is_none());
    assert!(chrono::DateTime::from_timestamp(last, 999_999_999).is_some());
    assert!(chrono::DateTime::from_timestamp(last + 1, 0).is_none());
    assert!(utc.from_time(first).is_ok());
    assert_eq!(utc.from_time(first - 1).unwrap_err().message(), "Invalid time (might exceed bounds?)");
    assert!(utc.from_time(last).is_ok());
    assert_eq!(utc.from_time(last + 1).unwrap_err(), DateTimeError::TimeOutOfBounds);
    assert!(utc.from_time_millis(i64::MAX).is_err());
    assert!(utc.from_time_micros(i64::MIN).is_err());
    assert!(utc.from_time_micros(-8_334_601_228_800_000_000).is_ok());
    let end = utc.from_time(last).unwrap();
    let almost = TimeDelta::from_nanos(999_999_999);
    assert_eq!(end.plus(&almost).timestamp_nanos(), 999_999_999);
    let start = utc.from_time(first).unwrap();
    assert_eq!(end.duration_since(&start).nanos(), None);
    assert_eq!(end.duration_since(&start).seconds(), last - first);
}

#[test]
fn moment_order_and_arithmetic() {
    let utc = Timezone::utc();
    let a = utc.from_time(100).unwrap();
    let b = utc.from_time_millis(100_500).unwrap();
    assert!(a.is_before(&b));
    assert!(a.is_at_or_before(&b));
    assert!(!b.is_at_or_before(&a));
    assert!(!a.same_instant(&b));
    let d = b.duration_since(&a);
    assert_eq!(d.millis(), 500);
    assert!(a.plus(&d).same_instant(&b));
    assert!(b.minus(&d).same_instant(&a));
    let back = a.duration_since(&b);
    assert_eq!(back.millis(), -500);
    assert_eq!(back.seconds(), 0);
    assert_eq!(back.to_string(), "-PT0.5S");
    let ist = Timezone::new("IST").unwrap();
    assert!(a.with_timezone(&ist).same_instant(&a));
    assert_eq!(a.try_format("%Q"), None);
    assert_eq!(a.try_format("%Y").unwrap(), "1970");
}

#[test]
fn durations_from_units() {
    assert_eq!(TimeDelta::from_weeks(1).unwrap().seconds(), 604_800);
    assert_eq!(TimeDelta::from_days(-2).unwrap().hours(), -48);
    assert_eq!(TimeDelta::from_hours(25).unwrap().days(), 1);
    assert_eq!(TimeDelta::from_minutes(-61).unwrap().hours(), -1);
    assert_eq!(TimeDelta::from_millis(-1500).unwrap().seconds(), -1);
    assert_eq!(TimeDelta::from_millis(-1500).unwrap().millis(), -1500);
    assert_eq!(TimeDelta::from_micros(-1).micros(), Some(-1));
    assert_eq!(TimeDelta::from_micros(-1).millis(), 0);
    assert_eq!(TimeDelta::from_nanos(-1_000_000_001).seconds(), -1);
    assert_eq!(TimeDelta::from_nanos(i64::MAX).nanos(), Some(i64::MAX));
    assert_eq!(TimeDelta::from_weeks(i64::MAX).unwrap_err().message(), "Invalid number of weeks");
    assert_eq!(TimeDelta::from_days(i64::MIN).unwrap_err().message(), "Invalid number of days");
    assert_eq!(TimeDelta::from_hours(i64::MAX / 3_600).unwrap_err().message(), "Invalid number of hours");
    assert_eq!(TimeDelta::from_minutes(i64::MAX / 60).unwrap_err().message(), "Invalid number of minutes");
    assert_eq!(TimeDelta::from_seconds(9_223_372_036_854_776).unwrap_err().message(), "Invalid number of seconds");
    assert!(TimeDelta::from_seconds(9_223_372_036_854_775).is_ok());
    assert!(TimeDelta::from_seconds(-9_223_372_036_854_775).is_ok());
    assert_eq!(TimeDelta::from_millis(i64::MIN).unwrap_err().message(), "Invalid number of milliseconds");
    let max = TimeDelta::from_millis(i64::MAX).unwrap();
    assert_eq!(max.millis(), i64::MAX);
    assert_eq!(max.micros(), None);
    assert_eq!(max.nanos(), None);
    for (n, unit) in [(7i64, 1i64), (-3, 60), (5, 3_600), (-9, 86_400), (2, 604_800)] {
        let ours = TimeDelta::from_seconds(n * unit).unwrap();
        let theirs = chrono::TimeDelta::try_seconds(n * unit).unwrap();
        assert_eq!(ours.minutes(), theirs.num_minutes());
        assert_eq!(ours.hours(), theirs.num_hours());
        assert_eq!(ours.days(), theirs.num_days());
        assert_eq!(ours.weeks(), theirs.num_weeks());
    }
}

#[test]
fn duration_arithmetic_and_order() {
    let a = TimeDelta::from_millis(1_500).unwrap();
    let b = TimeDelta::from_millis(-700).unwrap();
    assert_eq!(a.plus(&b).millis(), 800);
    assert_eq!(a.minus(&b).millis(), 2_200);
    assert_eq!(b.minus(&a).millis(), -2_200);
    assert!(b.is_less_than(&a));
    assert!(!a.is_less_than(&a));
    assert!(a.is_at_most(&a));
    assert!(a.equals(&TimeDelta::from_micros(1_500_000)));
    assert!(!a.equals(&b));
    assert_eq!(TimeDelta::from_minutes(-330).unwrap().offset_string(), "--5:-30");
    assert_eq!(TimeDelta::from_minutes(90).unwrap().offset_string(), "+01:30");
}

#[test]
fn duration_text_matches_chrono() {
    for n in [0i64, 1, -1, 10_000_000_000, 1_500_000_000, -1_500_000_000, 123_456_789, -604_800_000_000_000, 999_999_999, 1_000_000_010] {
        let ours = TimeDelta::from_nanos(n).to_string();
        let theirs = chrono::TimeDelta::nanoseconds(n).to_string();
        assert_eq!(ours, theirs);
    }
    assert_eq!(TimeDelta::from_nanos(0).to_string(), "P0D");
    assert_eq!(TimeDelta::from_seconds(10).unwrap().to_string(), "PT10S");
    assert_eq!(TimeDelta::from_nanos(-1).to_string(), "-PT0.000000001S");
}

#[test]
fn unit_round_trip() {
    for n in [-3i64, 0, 1, 15_250] {
        assert_eq!(TimeDelta::from_weeks(n).unwrap().weeks(), n);
        assert_eq!(TimeDelta::from_days(n).unwrap().days(), n);
        assert_eq!(TimeDelta::from_hours(n).unwrap().hours(), n);
        assert_eq!(TimeDelta::from_minutes(n).unwrap().minutes(), n);
        assert_eq!(TimeDelta::from_seconds(n).unwrap().seconds(), n);
        assert_eq!(TimeDelta::from_millis(n).unwrap().millis(), n);
        assert_eq!(TimeDelta::from_micros(n).micros(), Some(n));
        assert_eq!(TimeDelta::from_nanos(n).nanos(), Some(n));
    }
}

#[test]
fn fields_that_name_no_date_are_refused() {
    let utc = Timezone::utc();
    let ist = Timezone::new("IST").unwrap();
    assert_eq!(utc.utc_to_tz(2021, 13, 1, 0, 0, 0, None).unwrap_err(), DateTimeError::InvalidDate);
    assert_eq!(ist.tz_to_utc(2021, 0, 1, 0, 0, 0, None).unwrap_err(), DateTimeError::InvalidDate);
    assert!(utc.utc_to_tz(2021, 2, 29, 0, 0, 0, None).is_err());
    assert!(utc.utc_to_tz(2020, 2, 29, 0, 0, 0, None).is_ok());
    assert!(utc.utc_to_tz(1900, 2, 29, 0, 0, 0, None).is_err());
    assert!(utc.utc_to_tz(2000, 2, 29, 0, 0, 0, None).is_ok());
    assert!(utc.utc_to_tz(2021, 4, 31, 0, 0, 0, None).is_err());
    assert!(utc.utc_to_tz(2021, 1, 1, 0, 0, 60, None).is_err());
    assert!(utc.utc_to_tz(2021, 1, 1, 0, 60, 0, None).is_err());
    assert!(utc.utc_to_tz(2021, 1, 1, 24, 0, 0, None).is_err());
    assert!(utc.utc_to_tz(262_142, 12, 31, 23, 59, 59, None).is_ok());
    assert!(utc.utc_to_tz(262_143, 1, 1, 0, 0, 0, None).is_err());
    assert!(utc.utc_to_tz(-262_143, 1, 1, 0, 0, 0, None).is_ok());
    assert!(utc.utc_to_tz(-262_144, 12, 31, 0, 0, 0, None).is_err());
    assert!(utc.utc_to_tz(-4, 2, 29, 0, 0, 0, None).is_ok());
}

#[test]
fn time_of_day_keeps_the_requested_clock_time() {
    let utc = Timezone::utc();
    let d = utc.time_utc_to_tz(7, 45, 3).unwrap();
    let f = d.local_fields();
    assert_eq!((f.hour, f.minute, f.second), (7, 45, 3));
    let ist = Timezone::new("IST").unwrap();
    let u = ist.time_tz_to_utc(13, 30, 0).unwrap();
    let f = u.local_fields();
    assert_eq!((f.hour, f.minute, f.second), (8, 0, 0));
    let (s, n) = (1_609_459_200 + 3_600, 5);
    let fixed = utc.utc_time_of_day(s, n, 2, 3, 4).unwrap();
    assert_eq!(fixed.timestamp_seconds(), 1_609_459_200 + 2 * 3_600 + 3 * 60 + 4);
    assert_eq!(fixed.timestamp_nanos(), 5);
}
