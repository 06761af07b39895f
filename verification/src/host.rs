//! The host side of the bridge: plain-value models of the embedding
//! runtime's delta, date, time, date-time and timezone objects, reduced to
//! the integer fields its public accessor API exposes, together with the
//! runtime's own validation and normalization rules.

use crate::BridgeError;
use crate::native::days_in_month;
use vstd::prelude::*;

verus! {

/// The host kinds a value can be an instance of.
#[derive(Clone, Copy, Debug, PartialEq, Eq, Structural)]
pub enum PyKind {
    Delta,
    Date,
    Time,
    DateTime,
    TzInfo,
    Int,
    NoneType,
}

/// The most negative span the host delta can hold, in microseconds: exactly
/// minus 999_999_999 days.
pub const MIN_DELTA_MICROSECONDS: i128 = -999_999_999 * 86_400_000_000;

/// The most positive span the host delta can hold, in microseconds:
/// 999_999_999 days, 86_399 seconds and 999_999 microseconds.
pub const MAX_DELTA_MICROSECONDS: i128 = 999_999_999 * 86_400_000_000 + 86_399_999_999;

/// The host's duration object. The host keeps it normalized: the seconds
/// and microseconds fields are non-negative and bounded, and only the day
/// count carries the sign.
#[derive(Clone, Copy, Debug, PartialEq, Eq, Structural)]
pub struct PyDelta {
    pub days: i32,
    pub seconds: i32,
    pub microseconds: i32,
}

impl PyDelta {
    /// The normalized form the host guarantees of every delta it hands out.
    pub open spec fn wf(self) -> bool {
        &&& -999_999_999 <= self.days <= 999_999_999
        &&& 0 <= self.seconds < 86400
        &&& 0 <= self.microseconds < 1_000_000
    }

    /// The whole span as a count of microseconds.
    pub open spec fn total_microseconds(self) -> int {
        self.days * 86_400_000_000 + self.seconds * 1_000_000 + self.microseconds
    }

    /// The host delta constructor: sums the three signed components, fails
    /// when the span leaves the host's representable range, and otherwise
    /// normalizes, giving the sign to the day count alone.
    pub fn new(days: i64, seconds: i64, microseconds: i64) -> (r: Result<PyDelta, BridgeError>)
        ensures
            r is Ok <==> MIN_DELTA_MICROSECONDS <= days * 86_400_000_000 + seconds * 1_000_000
                + microseconds <= MAX_DELTA_MICROSECONDS,
            r is Ok ==> {
                &&& r->Ok_0.wf()
                &&& r->Ok_0.total_microseconds() == days * 86_400_000_000 + seconds * 1_000_000
                    + microseconds
            },
            r is Err ==> r == Err::<PyDelta, BridgeError>(BridgeError::DeltaRangeExceeded),
    {
        let t: i128 = days as i128 * 86_400_000_000 + seconds as i128 * 1_000_000
            + microseconds as i128;
        if t < MIN_DELTA_MICROSECONDS || t > MAX_DELTA_MICROSECONDS {
            return Err(BridgeError::DeltaRangeExceeded);
        }
        if t >= 0 {
            let u: u128 = t as u128;
            let d: u128 = u / 86_400_000_000;
            let rem: u128 = u % 86_400_000_000;
            let s: u128 = rem / 1_000_000;
            let us: u128 = rem % 1_000_000;
            proof {
                vstd::arithmetic::div_mod::lemma_fundamental_div_mod(u as int, 86_400_000_000);
                vstd::arithmetic::div_mod::lemma_mod_bound(u as int, 86_400_000_000);
                vstd::arithmetic::div_mod::lemma_multiply_divide_lt(
                    u as int,
                    86_400_000_000,
                    1_000_000_000,
                );
                vstd::arithmetic::div_mod::lemma_fundamental_div_mod(rem as int, 1_000_000);
                vstd::arithmetic::div_mod::lemma_mod_bound(rem as int, 1_000_000);
                vstd::arithmetic::div_mod::lemma_multiply_divide_lt(rem as int, 1_000_000, 86400);
            }
            Ok(PyDelta { days: d as i32, seconds: s as i32, microseconds: us as i32 })
        } else {
            let u: u128 = (-t) as u128;
            let qd: u128 = u / 86_400_000_000;
            let rr: u128 = u % 86_400_000_000;
            proof {
                vstd::arithmetic::div_mod::lemma_fundamental_div_mod(u as int, 86_400_000_000);
                vstd::arithmetic::div_mod::lemma_mod_bound(u as int, 86_400_000_000);
                vstd::arithmetic::div_mod::lemma_multiply_divide_le(
                    u as int,
                    86_400_000_000,
                    999_999_999,
                );
            }
            if rr == 0 {
                Ok(PyDelta { days: -(qd as i32), seconds: 0, microseconds: 0 })
            } else {
                let rem: u128 = 86_400_000_000 - rr;
                let s: u128 = rem / 1_000_000;
                let us: u128 = rem % 1_000_000;
                proof {
                    vstd::arithmetic::div_mod::lemma_fundamental_div_mod(rem as int, 1_000_000);
                    vstd::arithmetic::div_mod::lemma_mod_bound(rem as int, 1_000_000);
                    vstd::arithmetic::div_mod::lemma_multiply_divide_lt(
                        rem as int,
                        1_000_000,
                        86400,
                    );
                }
                Ok(
                    PyDelta {
                        days: -((qd + 1) as i32),
                        seconds: s as i32,
                        microseconds: us as i32,
                    },
                )
            }
        }
    }

    /// The normalized day count, the host's `days` field.
    pub fn get_days(&self) -> (r: i32)
        ensures
            r == self.days,
    {
        self.days
    }

    /// The normalized second count, the host's `seconds` field.
    pub fn get_seconds(&self) -> (r: i32)
        ensures
            r == self.seconds,
    {
        self.seconds
    }

    /// The normalized microsecond count, the host's `microseconds` field.
    pub fn get_microseconds(&self) -> (r: i32)
        ensures
            r == self.microseconds,
    {
        self.microseconds
    }
}

/// Whether (year, month, day) is a date the host calendar model accepts:
/// a valid Gregorian date with year in 1..=9999.
pub open spec fn host_date_in_range(year: int, month: int, day: int) -> bool {
    &&& 1 <= year <= 9999
    &&& 1 <= month <= 12
    &&& 1 <= day <= days_in_month(year, month)
}

/// The host's date object, as the three fields its accessors expose.
#[derive(Clone, Copy, Debug, PartialEq, Eq, Structural)]
pub struct PyDate {
    pub year: i32,
    pub month: u8,
    pub day: u8,
}

impl PyDate {
    /// The host date constructor: validates the fields against the host's
    /// calendar and year range.
    pub fn new(year: i32, month: u8, day: u8) -> (r: Result<PyDate, BridgeError>)
        ensures
            r is Ok <==> host_date_in_range(year as int, month as int, day as int),
            r is Ok ==> r->Ok_0 == (PyDate { year, month, day }),
            r is Err ==> r == Err::<PyDate, BridgeError>(BridgeError::InvalidDate),
    {
        if year < 1 || year > 9999 {
            return Err(BridgeError::InvalidDate);
        }
        match crate::native::Month::try_from(month) {
            None => Err(BridgeError::InvalidDate),
            Some(m) => {
                if 1 <= day && day <= crate::native::month_length(year, m) {
                    Ok(PyDate { year, month, day })
                } else {
                    Err(BridgeError::InvalidDate)
                }
            },
        }
    }

    /// The host's `year` field.
    pub fn get_year(&self) -> (r: i32)
        ensures
            r == self.year,
    {
        self.year
    }

    /// The host's `month` field, 1-based.
    pub fn get_month(&self) -> (r: u8)
        ensures
            r == self.month,
    {
        self.month
    }

    /// The host's `day` field, 1-based.
    pub fn get_day(&self) -> (r: u8)
        ensures
            r == self.day,
    {
        self.day
    }
}

/// Whether (hour, minute, second, microsecond) is a time of day the host
/// model accepts. The host has no leap second: the second field stops at 59
/// and the microseconds stay below one second.
pub open spec fn host_time_in_range(hour: int, minute: int, second: int, microsecond: int) -> bool {
    &&& 0 <= hour <= 23
    &&& 0 <= minute <= 59
    &&& 0 <= second <= 59
    &&& 0 <= microsecond <= 999_999
}

/// The host's time object, as the four fields its accessors expose.
#[derive(Clone, Copy, Debug, PartialEq, Eq, Structural)]
pub struct PyTime {
    pub hour: u8,
    pub minute: u8,
    pub second: u8,
    pub microsecond: u32,
}

impl PyTime {
    /// The host time constructor: validates the fields against the host's
    /// ranges.
    pub fn new(hour: u8, minute: u8, second: u8, microsecond: u32) -> (r: Result<
        PyTime,
        BridgeError,
    >)
        ensures
            r is Ok <==> host_time_in_range(
                hour as int,
                minute as int,
                second as int,
                microsecond as int,
            ),
            r is Ok ==> r->Ok_0 == (PyTime { hour, minute, second, microsecond }),
            r is Err ==> r == Err::<PyTime, BridgeError>(BridgeError::InvalidTime),
    {
        if hour <= 23 && minute <= 59 && second <= 59 && microsecond <= 999_999 {
            Ok(PyTime { hour, minute, second, microsecond })
        } else {
            Err(BridgeError::InvalidTime)
        }
    }

    /// The host's `hour` field.
    pub fn get_hour(&self) -> (r: u8)
        ensures
            r == self.hour,
    {
        self.hour
    }

    /// The host's `minute` field.
    pub fn get_minute(&self) -> (r: u8)
        ensures
            r == self.minute,
    {
        self.minute
    }

    /// The host's `second` field.
    pub fn get_second(&self) -> (r: u8)
        ensures
            r == self.second,
    {
        self.second
    }

    /// The host's `microsecond` field.
    pub fn get_microsecond(&self) -> (r: u32)
        ensures
            r == self.microsecond,
    {
        self.microsecond
    }
}

/// The host's timezone object. A fixed-offset timezone carries its offset
/// as a delta; any other timezone needs a concrete instant to compute an
/// offset, which this bridge never supplies.
#[derive(Clone, Copy, Debug, PartialEq, Eq, Structural)]
pub enum PyTzInfo {
    /// A timezone at a constant offset from UTC.
    Fixed(PyDelta),
    /// A calendar-dependent timezone, whose offset varies with the instant.
    Zone,
}

impl PyTzInfo {
    /// The host's offset query, asked with a null reference instant: a fixed
    /// offset answers with its delta, a calendar-dependent timezone answers
    /// with null.
    pub fn utcoffset(&self) -> (r: Option<PyDelta>)
        ensures
            match *self {
                PyTzInfo::Fixed(d) => r == Some(d),
                PyTzInfo::Zone => r is None,
            },
    {
        match self {
            PyTzInfo::Fixed(d) => Some(*d),
            PyTzInfo::Zone => None,
        }
    }
}

/// The host's fixed-offset timezone constructor: accepts a delta strictly
/// between minus one day and one day.
pub fn timezone_from_offset(offset: &PyDelta) -> (r: Result<PyTzInfo, BridgeError>)
    ensures
        r is Ok <==> -86_400_000_000 < offset.total_microseconds() < 86_400_000_000,
        r is Ok ==> r->Ok_0 == PyTzInfo::Fixed(*offset),
        r is Err ==> r == Err::<PyTzInfo, BridgeError>(BridgeError::TimezoneOffsetNotInRange),
{
    let t: i128 = offset.days as i128 * 86_400_000_000 + offset.seconds as i128 * 1_000_000
        + offset.microseconds as i128;
    if -86_400_000_000 < t && t < 86_400_000_000 {
        Ok(PyTzInfo::Fixed(*offset))
    } else {
        Err(BridgeError::TimezoneOffsetNotInRange)
    }
}

/// The host's date-time object: a date, a time, and an optional timezone.
#[derive(Clone, Copy, Debug, PartialEq, Eq, Structural)]
pub struct PyDateTime {
    pub date: PyDate,
    pub time: PyTime,
    pub tzinfo: Option<PyTzInfo>,
}

impl PyDateTime {
    /// The host date-time constructor: validates the date fields, then the
    /// time fields, and attaches the given timezone.
    pub fn new(
        year: i32,
        month: u8,
        day: u8,
        hour: u8,
        minute: u8,
        second: u8,
        microsecond: u32,
        tzinfo: Option<PyTzInfo>,
    ) -> (r: Result<PyDateTime, BridgeError>)
        ensures
            r is Ok <==> host_date_in_range(year as int, month as int, day as int)
                && host_time_in_range(hour as int, minute as int, second as int, microsecond as int),
            r is Ok ==> r->Ok_0 == (PyDateTime {
                date: PyDate { year, month, day },
                time: PyTime { hour, minute, second, microsecond },
                tzinfo,
            }),
            !host_date_in_range(year as int, month as int, day as int) ==> r == Err::<
                PyDateTime,
                BridgeError,
            >(BridgeError::InvalidDate),
            host_date_in_range(year as int, month as int, day as int) && !host_time_in_range(
                hour as int,
                minute as int,
                second as int,
                microsecond as int,
            ) ==> r == Err::<PyDateTime, BridgeError>(BridgeError::InvalidTime),
    {
        let date = PyDate::new(year, month, day)?;
        let time = PyTime::new(hour, minute, second, microsecond)?;
        Ok(PyDateTime { date, time, tzinfo })
    }

    /// The host's `tzinfo` attribute.
    pub fn get_tzinfo(&self) -> (r: Option<PyTzInfo>)
        ensures
            r == self.tzinfo,
    {
        self.tzinfo
    }
}

/// A host value of any kind, as the bridge's import paths receive it.
#[derive(Clone, Copy, Debug, PartialEq, Eq, Structural)]
pub enum PyAny {
    Delta(PyDelta),
    Date(PyDate),
    Time(PyTime),
    DateTime(PyDateTime),
    TzInfo(PyTzInfo),
    Int(i64),
    NoneValue,
}

impl PyAny {
    /// The kind of the value.
    pub open spec fn spec_kind(self) -> PyKind {
        match self {
            PyAny::Delta(_) => PyKind::Delta,
            PyAny::Date(_) => PyKind::Date,
            PyAny::Time(_) => PyKind::Time,
            PyAny::DateTime(_) => PyKind::DateTime,
            PyAny::TzInfo(_) => PyKind::TzInfo,
            PyAny::Int(_) => PyKind::Int,
            PyAny::NoneValue => PyKind::NoneType,
        }
    }

    /// The kind of the value.
    pub fn kind(&self) -> (k: PyKind)
        ensures
            k == self.spec_kind(),
    {
        match self {
            PyAny::Delta(_) => PyKind::Delta,
            PyAny::Date(_) => PyKind::Date,
            PyAny::Time(_) => PyKind::Time,
            PyAny::DateTime(_) => PyKind::DateTime,
            PyAny::TzInfo(_) => PyKind::TzInfo,
            PyAny::Int(_) => PyKind::Int,
            PyAny::NoneValue => PyKind::NoneType,
        }
    }
}

/// A handle to one of the host's type objects.
#[derive(Clone, Copy, Debug, PartialEq, Eq, Structural)]
pub struct PyType {
    pub kind: PyKind,
}

/// Whether a value of kind `k` is an instance of the host type of kind `t`.
/// The host's date-time type subclasses its date type.
pub open spec fn is_instance_of(k: PyKind, t: PyKind) -> bool {
    k == t || (k == PyKind::DateTime && t == PyKind::Date)
}

/// The host's instance check: succeeds exactly when the value is an
/// instance of the expected type, and otherwise reports which kind was
/// expected.
pub fn check_type(value: &PyAny, t: &PyType) -> (r: Result<(), BridgeError>)
    ensures
        r is Ok <==> is_instance_of(value.spec_kind(), t.kind),
        r is Err ==> r == Err::<(), BridgeError>(BridgeError::TypeMismatch(t.kind)),
{
    let k = value.kind();
    if k == t.kind || (matches!(k, PyKind::DateTime) && matches!(t.kind, PyKind::Date)) {
        Ok(())
    } else {
        Err(BridgeError::TypeMismatch(t.kind))
    }
}

/// A single delivered warning.
#[derive(Clone, Copy, Debug, PartialEq, Eq, Structural)]
pub enum Warning {
    /// A stored leap second was dropped because the host model has none.
    TruncatedLeapSecond,
}

/// The host's warning channel. Delivery is best effort: when the sink is
/// not accepting, a warning is dropped and the failure is swallowed.
#[derive(Clone, Debug)]
pub struct WarningSink {
    pub log: Vec<Warning>,
    pub accepting: bool,
}

impl WarningSink {
    /// An empty, accepting warning channel.
    pub fn new() -> (r: WarningSink)
        ensures
            r.accepting,
            r.log@ == Seq::<Warning>::empty(),
    {
        WarningSink { log: Vec::new(), accepting: true }
    }

    /// A warning channel with no sink behind it: every delivery fails and is
    /// swallowed.
    pub fn unavailable() -> (r: WarningSink)
        ensures
            !r.accepting,
            r.log@ == Seq::<Warning>::empty(),
    {
        WarningSink { log: Vec::new(), accepting: false }
    }

    /// How many warnings have been delivered.
    pub fn delivered(&self) -> (n: usize)
        ensures
            n == self.log@.len(),
    {
        self.log.len()
    }
}

/// The handles to the host's date/time type objects, resolved by name from
/// the host's datetime module, as the reduced-capability access path uses
/// them.
pub struct DatetimeTypes {
    pub date: PyType,
    pub datetime: PyType,
    pub time: PyType,
    pub timedelta: PyType,
    pub timezone: PyType,
    pub timezone_utc: PyTzInfo,
    pub tzinfo: PyType,
}

impl DatetimeTypes {
    /// Whether the table holds the handles the bridge expects.
    pub open spec fn wf(self) -> bool {
        &&& self.date.kind == PyKind::Date
        &&& self.datetime.kind == PyKind::DateTime
        &&& self.time.kind == PyKind::Time
        &&& self.timedelta.kind == PyKind::Delta
        &&& self.timezone.kind == PyKind::TzInfo
        &&& self.tzinfo.kind == PyKind::TzInfo
        &&& self.timezone_utc == PyTzInfo::Fixed(
            PyDelta { days: 0, seconds: 0, microseconds: 0 },
        )
    }

    /// Resolves the type-handle table. In this model the handles are the
    /// kinds themselves, so resolution always succeeds.
    pub fn try_get() -> (r: Result<DatetimeTypes, BridgeError>)
        ensures
            r is Ok,
            r is Ok ==> r->Ok_0.wf(),
    {
        Ok(
            DatetimeTypes {
                date: PyType { kind: PyKind::Date },
                datetime: PyType { kind: PyKind::DateTime },
                time: PyType { kind: PyKind::Time },
                timedelta: PyType { kind: PyKind::Delta },
                timezone: PyType { kind: PyKind::TzInfo },
                timezone_utc: PyTzInfo::Fixed(PyDelta { days: 0, seconds: 0, microseconds: 0 }),
                tzinfo: PyType { kind: PyKind::TzInfo },
            },
        )
    }

    /// Resolves the type-handle table, which never fails in this model.
    pub fn get() -> (r: DatetimeTypes)
        ensures
            r.wf(),
    {
        match DatetimeTypes::try_get() {
            Ok(types) => types,
            Err(_) => vstd::pervasive::unreached(),
        }
    }
}

/// The host's UTC singleton: the fixed-offset timezone at offset zero.
pub fn timezone_utc() -> (r: PyTzInfo)
    ensures
        r == PyTzInfo::Fixed(PyDelta { days: 0, seconds: 0, microseconds: 0 }),
{
    DatetimeTypes::get().timezone_utc
}

} // verus!
