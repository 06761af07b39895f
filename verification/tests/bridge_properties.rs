//! Concrete checks of the bridge's round-trip behaviour, its leap-second
//! collapse, its bounds, and every error variant.

use timebridge::BridgeError;
use timebridge::convert::primitive_datetime_to_py_datetime;
use timebridge::host::{
    DatetimeTypes, PyAny, PyDate, PyDateTime, PyDelta, PyKind, PyTime, PyTzInfo, WarningSink,
    check_type, timezone_from_offset, timezone_utc,
};
use timebridge::native::{
    Date, Duration, Month, OffsetDateTime, PrimitiveDateTime, Time, UtcOffset,
};

#[test]
fn test_duration_roundtrip() {
    // A duration with no sub-microsecond remainder survives export and
    // import unchanged.
    let d = Duration::seconds(5)
        .checked_add(Duration::microseconds(123456))
        .unwrap();
    let delta = d.into_pyobject().unwrap();
    let back = Duration::extract_bound(&PyAny::Delta(delta)).unwrap();
    assert_eq!(back, d);

    let d = Duration::days(-42)
        .checked_add(Duration::microseconds(-5))
        .unwrap();
    let delta = d.into_pyobject().unwrap();
    let back = Duration::extract_bound(&PyAny::Delta(delta)).unwrap();
    assert_eq!(back, d);
}

#[test]
fn test_duration_submicrosecond_truncation() {
    // The sub-microsecond part is truncated toward zero, never rounded:
    // -1500 nanoseconds export as -1 microsecond.
    let d = Duration::nanoseconds(-1500);
    let delta = d.into_pyobject().unwrap();
    assert_eq!(delta.get_days(), -1);
    assert_eq!(delta.get_seconds(), 86399);
    assert_eq!(delta.get_microseconds(), 999999);

    let d = Duration::nanoseconds(1500);
    let delta = d.into_pyobject().unwrap();
    assert_eq!(delta.get_days(), 0);
    assert_eq!(delta.get_seconds(), 0);
    assert_eq!(delta.get_microseconds(), 1);
}

#[test]
fn test_delta_normalization_fields() {
    // The host normalizes: the sign moves to the day count alone.
    let delta = PyDelta::new(-1, 1, -10).unwrap();
    assert_eq!(delta.get_days(), -1);
    assert_eq!(delta.get_seconds(), 0);
    assert_eq!(delta.get_microseconds(), 999990);

    let delta = PyDelta::new(0, 0, -10).unwrap();
    assert_eq!(delta.get_days(), -1);
    assert_eq!(delta.get_seconds(), 86399);
    assert_eq!(delta.get_microseconds(), 999990);
}

#[test]
fn test_duration_export_day_bounds() {
    // A span of exactly the host's day bound exports; one day more fails.
    assert!(Duration::days(999999999).into_pyobject().is_ok());
    assert!(Duration::days(-999999999).into_pyobject().is_ok());
    assert_eq!(
        Duration::days(1000000000).into_pyobject().unwrap_err(),
        BridgeError::DeltaRangeExceeded
    );
    assert_eq!(
        Duration::days(-1000000000).into_pyobject().unwrap_err(),
        BridgeError::DeltaRangeExceeded
    );
}

#[test]
fn test_date_roundtrip_bounds() {
    // The leap day round-trips; the host's last representable date
    // round-trips; a year past the host range is not even constructible
    // natively.
    let leap_day = Date::from_calendar_date(2012, Month::February, 29).unwrap();
    let py = leap_day.into_pyobject().unwrap();
    assert_eq!((py.get_year(), py.get_month(), py.get_day()), (2012, 2, 29));
    let back = Date::extract_bound(&PyAny::Date(py)).unwrap();
    assert_eq!(back, leap_day);

    let max = Date::from_calendar_date(9999, Month::December, 31).unwrap();
    let py = max.into_pyobject().unwrap();
    let back = Date::extract_bound(&PyAny::Date(py)).unwrap();
    assert_eq!(back, max);

    assert!(Date::from_calendar_date(10000, Month::January, 1).is_none());

    // A native date before year 1 exists but the host cannot hold it.
    let early = Date::from_calendar_date(0, Month::January, 1).unwrap();
    assert_eq!(early.into_pyobject().unwrap_err(), BridgeError::InvalidDate);
}

#[test]
fn test_time_roundtrip() {
    // A microsecond-resolution time with no leap second survives export
    // and import unchanged, and no warning is delivered.
    let t = Time::from_hms_micro(3, 5, 7, 999_999).unwrap();
    let mut sink = WarningSink::new();
    let py = t.into_pyobject(&mut sink).unwrap();
    assert_eq!(
        (py.get_hour(), py.get_minute(), py.get_second(), py.get_microsecond()),
        (3, 5, 7, 999_999)
    );
    assert_eq!(sink.delivered(), 0);
    let back = Time::extract_bound(&PyAny::Time(py)).unwrap();
    assert_eq!(back, t);
}

#[test]
fn test_time_subnanosecond_truncation() {
    // Nanoseconds below microsecond resolution are truncated on export.
    let t = Time::from_hms_nano(1, 2, 3, 1500).unwrap();
    let mut sink = WarningSink::new();
    let py = t.into_pyobject(&mut sink).unwrap();
    assert_eq!(py.get_microsecond(), 1);
    assert_eq!(sink.delivered(), 0);
}

#[test]
fn test_leap_second_collapse() {
    // A stored 61st second exports as second 59 with the extra second
    // dropped, delivers exactly one warning, and the leap second is not
    // reconstructed on import.
    let t = Time::from_hms_micro(7, 8, 59, 1_999_999).unwrap();
    let mut sink = WarningSink::new();
    let py = t.into_pyobject(&mut sink).unwrap();
    assert_eq!(py.get_second(), 59);
    assert_eq!(py.get_microsecond(), 999_999);
    assert_eq!(sink.delivered(), 1);

    let back = Time::extract_bound(&PyAny::Time(py)).unwrap();
    assert!(back.nanosecond() < 1_000_000_000);
    assert_eq!(back, Time::from_hms_micro(7, 8, 59, 999_999).unwrap());

    // Exporting the round-tripped value delivers no further warning.
    let _ = back.into_pyobject(&mut sink).unwrap();
    assert_eq!(sink.delivered(), 1);
}

#[test]
fn test_leap_second_warning_swallowed() {
    // When no warning sink is available the delivery failure is swallowed:
    // the conversion still succeeds and nothing is recorded.
    let t = Time::from_hms_micro(23, 59, 59, 1_500_000).unwrap();
    let mut sink = WarningSink::unavailable();
    let py = t.into_pyobject(&mut sink).unwrap();
    assert_eq!(py.get_second(), 59);
    assert_eq!(py.get_microsecond(), 500_000);
    assert_eq!(sink.delivered(), 0);
}

#[test]
fn test_offset_roundtrip() {
    // A fixed offset of 3600 seconds exports to a host timezone that
    // imports back as one hour east.
    let offset = UtcOffset::from_whole_seconds(3600).unwrap();
    let tz = offset.into_pyobject().unwrap();
    let back = UtcOffset::extract_bound(&PyAny::TzInfo(tz)).unwrap();
    assert_eq!(back, offset);
    assert_eq!(back.whole_seconds(), 3600);

    // The same timezone built host-side from a delta imports identically.
    let td = PyDelta::new(0, 3600, 0).unwrap();
    let tz = timezone_from_offset(&td).unwrap();
    let back = UtcOffset::extract_bound(&PyAny::TzInfo(tz)).unwrap();
    assert_eq!(back.whole_seconds(), 3600);

    // Negative offsets round-trip too.
    let offset = UtcOffset::from_whole_seconds(-86399).unwrap();
    let tz = offset.into_pyobject().unwrap();
    let back = UtcOffset::extract_bound(&PyAny::TzInfo(tz)).unwrap();
    assert_eq!(back, offset);
}

#[test]
fn test_offset_out_of_bounds() {
    // A fixed-offset timezone of two whole days cannot be reduced to the
    // native offset range.
    let td = PyDelta::new(2, 0, 0).unwrap();
    let tz = PyAny::TzInfo(PyTzInfo::Fixed(td));
    assert_eq!(
        UtcOffset::extract_bound(&tz).unwrap_err(),
        BridgeError::FixedOffsetOutOfBounds
    );
    // The native constructor refuses the same count directly.
    assert!(UtcOffset::from_whole_seconds(86400).is_none());
}

#[test]
fn test_timezone_offset_not_in_range() {
    // The host's timezone constructor only accepts offsets strictly within
    // one day.
    let td = PyDelta::new(1, 0, 0).unwrap();
    assert_eq!(
        timezone_from_offset(&td).unwrap_err(),
        BridgeError::TimezoneOffsetNotInRange
    );
    let td = PyDelta::new(0, 86399, 999999).unwrap();
    assert!(timezone_from_offset(&td).is_ok());
}

#[test]
fn test_month_conversions() {
    assert_eq!(Month::try_from(5).unwrap(), Month::May);
    assert!(Month::try_from(0).is_none());
    assert!(Month::try_from(13).is_none());
    assert_eq!(Month::May.number(), 5);
    assert_eq!(Month::May.into_pyobject(), 5);
    assert_eq!(Month::extract_bound(&PyAny::Int(5)).unwrap(), Month::May);
    assert_eq!(
        Month::extract_bound(&PyAny::Int(13)).unwrap_err(),
        BridgeError::InvalidMonth
    );
    assert_eq!(
        Month::extract_bound(&PyAny::Int(0)).unwrap_err(),
        BridgeError::InvalidMonth
    );
    assert_eq!(
        Month::extract_bound(&PyAny::NoneValue).unwrap_err(),
        BridgeError::TypeMismatch(PyKind::Int)
    );
}

#[test]
fn test_invalid_host_fields_rejected() {
    // The native constructors are the authority: host fields that do not
    // form a valid date or time are re-validated and refused.
    let bad_date = PyDate { year: 2021, month: 2, day: 29 };
    assert_eq!(
        Date::extract_bound(&PyAny::Date(bad_date)).unwrap_err(),
        BridgeError::InvalidDate
    );
    let bad_month = PyDate { year: 2021, month: 13, day: 1 };
    assert_eq!(
        Date::extract_bound(&PyAny::Date(bad_month)).unwrap_err(),
        BridgeError::InvalidMonth
    );
    let bad_time = PyTime { hour: 24, minute: 0, second: 0, microsecond: 0 };
    assert_eq!(
        Time::extract_bound(&PyAny::Time(bad_time)).unwrap_err(),
        BridgeError::InvalidTime
    );
    // The host's own constructors refuse them too.
    assert!(PyDate::new(2021, 2, 29).is_err());
    assert!(PyDate::new(0, 1, 1).is_err());
    assert!(PyTime::new(24, 0, 0, 0).is_err());
}

#[test]
fn test_naive_datetime_roundtrip() {
    let date = Date::from_calendar_date(2014, Month::May, 6).unwrap();
    let time = Time::from_hms_micro(7, 8, 9, 999_999).unwrap();
    let dt = PrimitiveDateTime::new(date, time);
    let mut sink = WarningSink::new();
    let py = dt.into_pyobject(&mut sink).unwrap();
    assert!(py.get_tzinfo().is_none());
    let back = PrimitiveDateTime::extract_bound(&PyAny::DateTime(py)).unwrap();
    assert_eq!(back, dt);
    assert_eq!(sink.delivered(), 0);
}

#[test]
fn test_aware_datetime_roundtrip() {
    let date = Date::from_calendar_date(2014, Month::May, 6).unwrap();
    let time = Time::from_hms_micro(7, 8, 9, 999_999).unwrap();
    let offset = UtcOffset::from_whole_seconds(3600).unwrap();
    let dt = PrimitiveDateTime::new(date, time).assume_offset(offset);
    let mut sink = WarningSink::new();
    let py = dt.into_pyobject(&mut sink).unwrap();
    assert!(py.get_tzinfo().is_some());
    let back = OffsetDateTime::extract_bound(&PyAny::DateTime(py)).unwrap();
    assert_eq!(back, dt);
    assert_eq!(sink.delivered(), 0);

    // The offset-aware export collapses a leap second with the same single
    // warning as the naive export.
    let leap = Time::from_hms_micro(7, 8, 59, 1_999_999).unwrap();
    let dt = PrimitiveDateTime::new(date, leap).assume_offset(offset);
    let py = dt.into_pyobject(&mut sink).unwrap();
    assert_eq!(sink.delivered(), 1);
    let back = OffsetDateTime::extract_bound(&PyAny::DateTime(py)).unwrap();
    assert_eq!(back.time().nanosecond(), 999_999_000);
    assert_eq!(back.offset(), offset);
}

#[test]
fn test_datetime_export_year_out_of_range() {
    // A native date-time before year 1 cannot be exported.
    let date = Date::from_calendar_date(-1, Month::May, 6).unwrap();
    let time = Time::from_hms_micro(7, 8, 9, 0).unwrap();
    let dt = PrimitiveDateTime::new(date, time);
    let mut sink = WarningSink::new();
    assert_eq!(
        dt.into_pyobject(&mut sink).unwrap_err(),
        BridgeError::InvalidDate
    );
    // The failed export delivers no warning even for a leap-second time.
    let leap = Time::from_hms_micro(7, 8, 59, 1_999_999).unwrap();
    let dt = PrimitiveDateTime::new(date, leap);
    assert_eq!(
        dt.into_pyobject(&mut sink).unwrap_err(),
        BridgeError::InvalidDate
    );
    assert_eq!(sink.delivered(), 0);
}

#[test]
fn test_primitive_datetime_to_py_datetime() {
    let date = Date::from_calendar_date(2022, Month::January, 1).unwrap();
    let time = Time::from_hms_micro(1, 0, 0, 0).unwrap();
    let dt = PrimitiveDateTime::new(date, time);
    let mut sink = WarningSink::new();
    let utc = timezone_utc();
    let py = primitive_datetime_to_py_datetime(&dt, Some(&utc), &mut sink);
    assert_eq!(py.get_tzinfo(), Some(timezone_utc()));
    assert_eq!((py.date.year, py.date.month, py.date.day), (2022, 1, 1));
    assert_eq!((py.time.hour, py.time.minute, py.time.second), (1, 0, 0));

    let py = primitive_datetime_to_py_datetime(&dt, None, &mut sink);
    assert!(py.get_tzinfo().is_none());
    assert_eq!(sink.delivered(), 0);
}

#[test]
fn test_check_type_and_type_table() {
    let types = DatetimeTypes::get();
    let date = PyDate::new(2022, 1, 1).unwrap();
    assert!(check_type(&PyAny::Date(date), &types.date).is_ok());

    // The host's date-time type subclasses its date type.
    let dt = PyDateTime::new(2022, 1, 1, 0, 0, 0, 0, None).unwrap();
    assert!(check_type(&PyAny::DateTime(dt), &types.date).is_ok());
    assert!(check_type(&PyAny::DateTime(dt), &types.datetime).is_ok());
    assert!(check_type(&PyAny::Date(date), &types.datetime).is_err());

    assert_eq!(
        check_type(&PyAny::NoneValue, &types.timedelta).unwrap_err(),
        BridgeError::TypeMismatch(PyKind::Delta)
    );

    // The UTC singleton is the fixed-offset timezone at offset zero.
    assert_eq!(
        types.timezone_utc,
        PyTzInfo::Fixed(PyDelta::new(0, 0, 0).unwrap())
    );
    assert_eq!(timezone_utc(), types.timezone_utc);
    assert_eq!(DatetimeTypes::try_get().unwrap().tzinfo, types.tzinfo);
}
