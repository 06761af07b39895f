//! The conversion tests, driven through the host object model: each host
//! value is built with the host-side constructors and compared field for
//! field.

use timebridge::BridgeError;
use timebridge::host::{PyAny, PyDate, PyDateTime, PyDelta, PyKind, PyTzInfo, timezone_utc};
use timebridge::native::{Date, Duration, Month, OffsetDateTime, PrimitiveDateTime, Time, UtcOffset};

#[test]
fn test_zoneinfo_is_not_fixed_offset() {
    // A calendar-dependent zone answers the null-instant offset query with
    // nothing, so it cannot be reduced to a fixed offset.
    let zone = PyAny::TzInfo(PyTzInfo::Zone);
    let result = UtcOffset::extract_bound(&zone);
    assert!(result.is_err());
    assert_eq!(result.unwrap_err(), BridgeError::NotFixedOffsetTimezone);
}

#[test]
fn test_timezone_aware_to_naive_fails() {
    // Converting a host date-time that carries a timezone into a naive
    // native date-time must fail rather than silently drop the timezone.
    let py_datetime = PyDateTime::new(2022, 1, 1, 1, 0, 0, 0, Some(timezone_utc())).unwrap();
    let res = PrimitiveDateTime::extract_bound(&PyAny::DateTime(py_datetime));
    assert_eq!(res.unwrap_err(), BridgeError::ExpectedNaiveDatetime);
}

#[test]
fn test_naive_to_timezone_aware_fails() {
    // Converting a host date-time without a timezone into an offset-aware
    // native date-time must fail.
    let py_datetime = PyDateTime::new(2022, 1, 1, 1, 0, 0, 0, None).unwrap();
    let res = OffsetDateTime::extract_bound(&PyAny::DateTime(py_datetime));
    assert_eq!(res.unwrap_err(), BridgeError::ExpectedAwareDatetime);

    let res = OffsetDateTime::extract_bound(&PyAny::DateTime(py_datetime));
    assert_eq!(res.unwrap_err(), BridgeError::ExpectedAwareDatetime);
}

#[test]
fn test_invalid_types_fail() {
    // Importing from the host's none value fails with a type mismatch that
    // names the expected host kind.
    let none = PyAny::NoneValue;
    assert_eq!(
        Duration::extract_bound(&none).unwrap_err(),
        BridgeError::TypeMismatch(PyKind::Delta)
    );
    assert_eq!(
        UtcOffset::extract_bound(&none).unwrap_err(),
        BridgeError::TypeMismatch(PyKind::TzInfo)
    );
    assert_eq!(
        Time::extract_bound(&none).unwrap_err(),
        BridgeError::TypeMismatch(PyKind::Time)
    );
    assert_eq!(
        Date::extract_bound(&none).unwrap_err(),
        BridgeError::TypeMismatch(PyKind::Date)
    );
    assert_eq!(
        PrimitiveDateTime::extract_bound(&none).unwrap_err(),
        BridgeError::TypeMismatch(PyKind::DateTime)
    );
    assert_eq!(
        OffsetDateTime::extract_bound(&none).unwrap_err(),
        BridgeError::TypeMismatch(PyKind::DateTime)
    );
    assert_eq!(
        OffsetDateTime::extract_bound(&none).unwrap_err(),
        BridgeError::TypeMismatch(PyKind::DateTime)
    );
}

#[test]
fn test_pyo3_timedelta_into_pyobject() {
    // Utility function used to check different durations.
    // The `name` parameter is used to identify the check in case of a failure.
    let check = |name: &'static str, delta: Duration, py_days: i64, py_seconds: i64, py_ms: i64| {
        let delta = delta.into_pyobject().unwrap();
        let py_delta = PyDelta::new(py_days, py_seconds, py_ms).unwrap();
        assert!(delta == py_delta, "{}: {:?} != {:?}", name, delta, py_delta);
    };

    let delta = Duration::days(-1)
        .checked_add(Duration::seconds(1))
        .unwrap()
        .checked_add(Duration::microseconds(-10))
        .unwrap();
    check("delta normalization", delta, -1, 1, -10);

    // Check the minimum value allowed by the host delta, which is different
    // from the minimum value allowed by the native duration. This should pass.
    let delta = Duration::seconds(-86399999913600); // min
    check("delta min value", delta, -999999999, 0, 0);

    // Same, for max value
    let delta = Duration::seconds(86399999999999)
        .checked_add(Duration::nanoseconds(999999000))
        .unwrap(); // max
    check("delta max value", delta, 999999999, 86399, 999999);

    // Also check that trying to convert an out of bound value errors.
    assert!(Duration::min_value().into_pyobject().is_err());
    assert!(Duration::max_value().into_pyobject().is_err());
}

#[test]
fn test_pyo3_timedelta_frompyobject() {
    // Utility function used to check different durations.
    // The `name` parameter is used to identify the check in case of a failure.
    let check = |name: &'static str, delta: Duration, py_days: i64, py_seconds: i64, py_ms: i64| {
        let py_delta = PyDelta::new(py_days, py_seconds, py_ms).unwrap();
        let py_delta = Duration::extract_bound(&PyAny::Delta(py_delta)).unwrap();
        assert_eq!(py_delta, delta, "{}: {:?} != {:?}", name, py_delta, delta);
    };

    // Check the minimum value allowed by the host delta, which is different
    // from the minimum value allowed by the native duration. This should pass.
    check(
        "min py_delta value",
        Duration::seconds(-86399999913600),
        -999999999,
        0,
        0,
    );
    // Same, for max value
    check(
        "max py_delta value",
        Duration::seconds(86399999999999)
            .checked_add(Duration::microseconds(999999))
            .unwrap(),
        999999999,
        86399,
        999999,
    );

    // This check is to assert that we can't construct every possible native
    // duration from a host delta since they have different bounds.
    let low_days: i64 = -1000000000;
    // This is possible natively
    let _ = Duration::days(low_days);
    // The host delta constructor refuses the same day count
    assert!(PyDelta::new(low_days, 0, 0).is_err());

    let high_days: i64 = 1000000000;
    // This is possible natively
    let _ = Duration::days(high_days);
    // The host delta constructor refuses the same day count
    assert!(PyDelta::new(high_days, 0, 0).is_err());
}

#[test]
fn test_pyo3_date_into_pyobject() {
    let eq_ymd = |name: &'static str, year: i32, month: u8, day: u8| {
        let month = Month::try_from(month).unwrap();
        let date = Date::from_calendar_date(year, month, day)
            .unwrap()
            .into_pyobject()
            .unwrap();
        let py_date = PyDate::new(year, month.number(), day).unwrap();
        assert!(date == py_date, "{}: {:?} != {:?}", name, date, py_date);
    };

    eq_ymd("past date", 2012, 2, 29);
    eq_ymd("min date", 1, 1, 1);
    eq_ymd("future date", 3000, 6, 5);
    eq_ymd("max date", 9999, 12, 31);
}

#[test]
fn test_pyo3_date_frompyobject() {
    let eq_ymd = |name: &'static str, year: i32, month: u8, day: u8| {
        let month = Month::try_from(month).unwrap();
        let py_date = PyDate::new(year, month.number(), day).unwrap();
        let py_date = Date::extract_bound(&PyAny::Date(py_date)).unwrap();
        let date = Date::from_calendar_date(year, month, day).unwrap();
        assert_eq!(py_date, date, "{}: {:?} != {:?}", name, date, py_date);
    };

    eq_ymd("past date", 2012, 2, 29);
    eq_ymd("min date", 1, 1, 1);
    eq_ymd("future date", 3000, 6, 5);
    eq_ymd("max date", 9999, 12, 31);
}
