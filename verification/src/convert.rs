//! The conversions themselves: for each value kind, an export from the
//! native model to the host model and an import back, each with its exact
//! contract.

use crate::BridgeError;
use crate::host::{
    MAX_DELTA_MICROSECONDS, MIN_DELTA_MICROSECONDS, PyAny, PyDate, PyDateTime, PyDelta, PyKind,
    PyTime, PyTzInfo, Warning, WarningSink, timezone_from_offset,
};
use crate::native::{
    Date, Duration, Month, OffsetDateTime, PrimitiveDateTime, Time, UtcOffset, is_valid_date,
    trunc_div,
};
use vstd::prelude::*;

verus! {

/// The microsecond field a native time of day exports: the nanoseconds
/// within the second, truncated to microseconds, with a stored leap second
/// first collapsed away.
pub open spec fn exported_microsecond(ns: int) -> int {
    if ns >= 1_000_000_000 {
        (ns - 1_000_000_000) / 1000
    } else {
        ns / 1000
    }
}

/// The exported microsecond field of an in-range nanosecond count fits the
/// host's microsecond range.
pub(crate) proof fn lemma_exported_microsecond_bound(ns: int)
    requires
        0 <= ns <= 1_999_999_999,
    ensures
        0 <= exported_microsecond(ns) <= 999_999,
{
    if ns >= 1_000_000_000 {
        vstd::arithmetic::div_mod::lemma_multiply_divide_lt(ns - 1_000_000_000, 1000, 1_000_000);
        vstd::arithmetic::div_mod::lemma_div_pos_is_pos(ns - 1_000_000_000, 1000);
    } else {
        vstd::arithmetic::div_mod::lemma_multiply_divide_lt(ns, 1000, 1_000_000);
        vstd::arithmetic::div_mod::lemma_div_pos_is_pos(ns, 1000);
    }
}

/// The date fields handed to the host's constructors.
pub struct DateArgs {
    pub year: i32,
    pub month: u8,
    pub day: u8,
}

impl DateArgs {
    /// Decomposes a native date into the fields the host constructors take.
    pub fn from(value: &Date) -> (r: DateArgs)
        ensures
            r.year == value.year,
            r.month == value.month.as_number(),
            r.day == value.day,
    {
        DateArgs { year: value.year(), month: value.month().number(), day: value.day() }
    }
}

/// The time fields handed to the host's constructors, together with the
/// leap-second flag.
pub struct TimeArgs {
    pub hour: u8,
    pub min: u8,
    pub sec: u8,
    pub micro: u32,
    pub truncated_leap_second: bool,
}

impl TimeArgs {
    /// Decomposes a native time of day into the fields the host constructors
    /// take. A stored leap second is collapsed: one second's worth of
    /// nanoseconds is subtracted before truncating to microseconds, and the
    /// flag records that this happened.
    pub fn from(value: &Time) -> (r: TimeArgs)
        requires
            value.wf(),
        ensures
            r.hour == value.hour,
            r.min == value.minute,
            r.sec == value.second,
            r.micro == exported_microsecond(value.nanosecond as int),
            r.truncated_leap_second == value.has_leap_second(),
    {
        let ns = value.nanosecond();
        if ns >= 1_000_000_000 {
            TimeArgs {
                hour: value.hour(),
                min: value.minute(),
                sec: value.second(),
                micro: (ns - 1_000_000_000) / 1000,
                truncated_leap_second: true,
            }
        } else {
            TimeArgs {
                hour: value.hour(),
                min: value.minute(),
                sec: value.second(),
                micro: ns / 1000,
                truncated_leap_second: false,
            }
        }
    }
}

/// Delivers the non-fatal leap-second warning through the host's warning
/// channel. When the channel is not accepting, the delivery failure is
/// swallowed rather than propagated: the conversion that triggered the
/// warning has already succeeded.
pub fn warn_truncated_leap_second(sink: &mut WarningSink)
    ensures
        final(sink).accepting == old(sink).accepting,
        old(sink).accepting ==> final(sink).log@ == old(sink).log@.push(
            Warning::TruncatedLeapSecond,
        ),
        !old(sink).accepting ==> final(sink).log@ == old(sink).log@,
{
    if sink.accepting {
        sink.log.push(Warning::TruncatedLeapSecond);
    }
}

impl Duration {
    /// Exports the span to a host delta: the span is split into whole days,
    /// remaining whole seconds and remaining whole microseconds, each
    /// truncated toward zero (the sub-microsecond part is dropped), and the
    /// host constructor normalizes the three components. The export fails
    /// exactly when the truncated span leaves the host's representable
    /// range; the failure is the host's own overflow failure.
    pub fn into_pyobject(self) -> (r: Result<PyDelta, BridgeError>)
        requires
            self.wf(),
        ensures
            r is Ok <==> MIN_DELTA_MICROSECONDS <= trunc_div(self.total_nanoseconds(), 1000)
                <= MAX_DELTA_MICROSECONDS,
            r is Ok ==> r->Ok_0.wf() && r->Ok_0.total_microseconds() == trunc_div(
                self.total_nanoseconds(),
                1000,
            ),
            r is Err ==> r == Err::<PyDelta, BridgeError>(BridgeError::DeltaRangeExceeded),
    {
        let t: i128 = self.whole_nanoseconds();
        if t >= 0 {
            let abs_us: u128 = (t as u128) / 1000;
            let d: u128 = abs_us / 86_400_000_000;
            let rem: u128 = abs_us % 86_400_000_000;
            let s: u128 = rem / 1_000_000;
            let us: u128 = rem % 1_000_000;
            proof {
                vstd::arithmetic::div_mod::lemma_multiply_divide_lt(
                    t as int,
                    1000,
                    (i64::MAX as int + 1) * 86_400_000_000_000,
                );
                vstd::arithmetic::div_mod::lemma_fundamental_div_mod(abs_us as int, 86_400_000_000);
                vstd::arithmetic::div_mod::lemma_mod_bound(abs_us as int, 86_400_000_000);
                vstd::arithmetic::div_mod::lemma_multiply_divide_lt(
                    abs_us as int,
                    86_400_000_000,
                    (i64::MAX as int + 1) * 1000,
                );
                vstd::arithmetic::div_mod::lemma_fundamental_div_mod(rem as int, 1_000_000);
                vstd::arithmetic::div_mod::lemma_mod_bound(rem as int, 1_000_000);
                vstd::arithmetic::div_mod::lemma_multiply_divide_lt(rem as int, 1_000_000, 86400);
            }
            PyDelta::new(d as i64, s as i64, us as i64)
        } else {
            let abs_us: u128 = ((-t) as u128) / 1000;
            let d: u128 = abs_us / 86_400_000_000;
            let rem: u128 = abs_us % 86_400_000_000;
            let s: u128 = rem / 1_000_000;
            let us: u128 = rem % 1_000_000;
            proof {
                vstd::arithmetic::div_mod::lemma_multiply_divide_lt(
                    -t as int,
                    1000,
                    (-(i64::MIN as int) + 1) * 86_400_000_000_000,
                );
                vstd::arithmetic::div_mod::lemma_fundamental_div_mod(abs_us as int, 86_400_000_000);
                vstd::arithmetic::div_mod::lemma_mod_bound(abs_us as int, 86_400_000_000);
                vstd::arithmetic::div_mod::lemma_multiply_divide_lt(
                    abs_us as int,
                    86_400_000_000,
                    (-(i64::MIN as int) + 1) * 1000,
                );
                vstd::arithmetic::div_mod::lemma_fundamental_div_mod(rem as int, 1_000_000);
                vstd::arithmetic::div_mod::lemma_mod_bound(rem as int, 1_000_000);
                vstd::arithmetic::div_mod::lemma_multiply_divide_lt(rem as int, 1_000_000, 86400);
            }
            PyDelta::new(-(d as i64), -(s as i64), -(us as i64))
        }
    }

    /// Imports a host delta: reads the normalized `days`, `seconds` and
    /// `microseconds` fields and reconstructs the native span as their sum,
    /// which always succeeds because the host's range is a strict subset of
    /// the native range. Any other host value is a type mismatch.
    pub fn extract_bound(ob: &PyAny) -> (r: Result<Duration, BridgeError>)
        requires
            ob is Delta ==> ob->Delta_0.wf(),
        ensures
            ob is Delta ==> r is Ok && r->Ok_0.wf() && r->Ok_0.total_nanoseconds()
                == ob->Delta_0.total_microseconds() * 1000,
            !(ob is Delta) ==> r == Err::<Duration, BridgeError>(
                BridgeError::TypeMismatch(PyKind::Delta),
            ),
    {
        match ob {
            PyAny::Delta(delta) => Ok(duration_from_py_delta(delta)),
            _ => Err(BridgeError::TypeMismatch(PyKind::Delta)),
        }
    }
}

/// Rebuilds the native span held by a normalized host delta.
fn duration_from_py_delta(delta: &PyDelta) -> (r: Duration)
    requires
        delta.wf(),
    ensures
        r.wf(),
        r.total_nanoseconds() == delta.total_microseconds() * 1000,
{
    let t_us: i128 = delta.get_days() as i128 * 86_400_000_000 + delta.get_seconds() as i128
        * 1_000_000 + delta.get_microseconds() as i128;
    Duration::from_total_nanoseconds(t_us * 1000)
}

impl Month {
    /// Imports a host month number: the host's months are 1-based, so the
    /// number must name one of the twelve months. Any other host value is a
    /// type mismatch.
    pub fn extract_bound(ob: &PyAny) -> (r: Result<Month, BridgeError>)
        ensures
            ob is Int && 1 <= ob->Int_0 <= 12 ==> r is Ok && r->Ok_0.as_number() == ob->Int_0,
            ob is Int && !(1 <= ob->Int_0 <= 12) ==> r == Err::<Month, BridgeError>(
                BridgeError::InvalidMonth,
            ),
            !(ob is Int) ==> r == Err::<Month, BridgeError>(
                BridgeError::TypeMismatch(PyKind::Int),
            ),
    {
        match ob {
            PyAny::Int(v) => {
                if 1 <= *v && *v <= 12 {
                    match Month::try_from(*v as u8) {
                        Some(m) => Ok(m),
                        None => vstd::pervasive::unreached(),
                    }
                } else {
                    Err(BridgeError::InvalidMonth)
                }
            },
            _ => Err(BridgeError::TypeMismatch(PyKind::Int)),
        }
    }

    /// Exports the month as the host's 1-based month number.
    pub fn into_pyobject(self) -> (r: i64)
        ensures
            r == self.as_number(),
    {
        self.number() as i64
    }
}

/// What importing host date fields yields: the native constructor is the
/// authority and re-validates, so the import succeeds exactly on fields
/// that form a date in the native range; a month number that names no month
/// is reported on its own.
pub open spec fn date_import_result(d: PyDate, r: Result<Date, BridgeError>) -> bool {
    &&& (r is Ok <==> is_valid_date(d.year as int, d.month as int, d.day as int))
    &&& (r is Ok ==> r->Ok_0.wf() && r->Ok_0.year == d.year && r->Ok_0.month.as_number()
        == d.month && r->Ok_0.day == d.day)
    &&& (!(1 <= d.month <= 12) ==> r == Err::<Date, BridgeError>(BridgeError::InvalidMonth))
    &&& (1 <= d.month <= 12 && !is_valid_date(d.year as int, d.month as int, d.day as int) ==> r
        == Err::<Date, BridgeError>(BridgeError::InvalidDate))
}

/// Imports a host date: reads its year, month and day fields and rebuilds
/// the native date through the validating native constructor.
pub fn py_date_to_naive_date(py_date: &PyDate) -> (r: Result<Date, BridgeError>)
    ensures
        date_import_result(*py_date, r),
{
    match Month::try_from(py_date.get_month()) {
        None => Err(BridgeError::InvalidMonth),
        Some(m) => match Date::from_calendar_date(py_date.get_year(), m, py_date.get_day()) {
            Some(date) => Ok(date),
            None => Err(BridgeError::InvalidDate),
        },
    }
}

impl Date {
    /// Exports the date to a host date object. The host's calendar matches
    /// the native one, so the export fails exactly when the year lies
    /// outside the host's range, which starts at year 1.
    pub fn into_pyobject(self) -> (r: Result<PyDate, BridgeError>)
        requires
            self.wf(),
        ensures
            r is Ok <==> 1 <= self.year,
            r is Ok ==> r->Ok_0 == (PyDate {
                year: self.year,
                month: self.month.as_number() as u8,
                day: self.day,
            }),
            r is Err ==> r == Err::<PyDate, BridgeError>(BridgeError::InvalidDate),
    {
        let args = DateArgs::from(&self);
        PyDate::new(args.year, args.month, args.day)
    }

    /// Imports a host date, or the date half of a host date-time (the
    /// host's date-time type subclasses its date type). Any other host
    /// value is a type mismatch.
    pub fn extract_bound(ob: &PyAny) -> (r: Result<Date, BridgeError>)
        ensures
            ob is Date ==> date_import_result(ob->Date_0, r),
            ob is DateTime ==> date_import_result(ob->DateTime_0.date, r),
            !(ob is Date) && !(ob is DateTime) ==> r == Err::<Date, BridgeError>(
                BridgeError::TypeMismatch(PyKind::Date),
            ),
    {
        match ob {
            PyAny::Date(d) => py_date_to_naive_date(d),
            PyAny::DateTime(dt) => py_date_to_naive_date(&dt.date),
            _ => Err(BridgeError::TypeMismatch(PyKind::Date)),
        }
    }
}

/// What importing host time fields yields: the native
/// microsecond-precision constructor re-validates them; it tolerates up to
/// one leap second's worth of extra microseconds, which well-formed host
/// values never carry.
pub open spec fn time_import_result(t: PyTime, r: Result<Time, BridgeError>) -> bool {
    &&& (r is Ok <==> t.hour <= 23 && t.minute <= 59 && t.second <= 59 && t.microsecond
        <= 1_999_999)
    &&& (r is Ok ==> r->Ok_0.wf() && r->Ok_0.hour == t.hour && r->Ok_0.minute == t.minute
        && r->Ok_0.second == t.second && r->Ok_0.nanosecond == t.microsecond * 1000)
    &&& (r is Err ==> r == Err::<Time, BridgeError>(BridgeError::InvalidTime))
}

/// Imports a host time: reads its hour, minute, second and microsecond
/// fields and rebuilds the native time of day through the validating
/// native constructor.
pub fn py_time_to_naive_time(py_time: &PyTime) -> (r: Result<Time, BridgeError>)
    ensures
        time_import_result(*py_time, r),
{
    match Time::from_hms_micro(
        py_time.get_hour(),
        py_time.get_minute(),
        py_time.get_second(),
        py_time.get_microsecond(),
    ) {
        Some(time) => Ok(time),
        None => Err(BridgeError::InvalidTime),
    }
}

impl Time {
    /// Exports the time of day to a host time object, which always
    /// succeeds. A stored leap second is collapsed to the last
    /// representable microsecond of the minute's 60th second, and exactly
    /// one warning is then offered to the warning channel.
    pub fn into_pyobject(self, sink: &mut WarningSink) -> (r: Result<PyTime, BridgeError>)
        requires
            self.wf(),
        ensures
            r is Ok,
            r is Ok ==> r->Ok_0 == (PyTime {
                hour: self.hour,
                minute: self.minute,
                second: self.second,
                microsecond: exported_microsecond(self.nanosecond as int) as u32,
            }),
            final(sink).accepting == old(sink).accepting,
            self.has_leap_second() && old(sink).accepting ==> final(sink).log@ == old(sink).log@.push(Warning::TruncatedLeapSecond),
            !(self.has_leap_second() && old(sink).accepting) ==> final(sink).log@ == old(sink).log@,
    {
        let args = TimeArgs::from(&self);
        proof {
            lemma_exported_microsecond_bound(self.nanosecond as int);
        }
        match crate::host::PyTime::new(args.hour, args.min, args.sec, args.micro) {
            Ok(time) => {
                if args.truncated_leap_second {
                    warn_truncated_leap_second(sink);
                }
                Ok(time)
            },
            Err(_) => vstd::pervasive::unreached(),
        }
    }

    /// Imports a host time. Any other host value is a type mismatch.
    pub fn extract_bound(ob: &PyAny) -> (r: Result<Time, BridgeError>)
        ensures
            ob is Time ==> time_import_result(ob->Time_0, r),
            !(ob is Time) ==> r == Err::<Time, BridgeError>(
                BridgeError::TypeMismatch(PyKind::Time),
            ),
    {
        match ob {
            PyAny::Time(t) => py_time_to_naive_time(t),
            _ => Err(BridgeError::TypeMismatch(PyKind::Time)),
        }
    }
}

/// Truncating a microsecond count to whole seconds and truncating the
/// nanosecond count of the same span to whole seconds agree.
proof fn lemma_trunc_div_scale(x: int)
    ensures
        trunc_div(x * 1000, 1_000_000_000) == trunc_div(x, 1_000_000),
{
    if x >= 0 {
        vstd::arithmetic::div_mod::lemma_div_denominator(x * 1000, 1000, 1_000_000);
        vstd::arithmetic::div_mod::lemma_div_multiples_vanish(x, 1000);
    } else {
        vstd::arithmetic::div_mod::lemma_div_denominator((-x) * 1000, 1000, 1_000_000);
        vstd::arithmetic::div_mod::lemma_div_multiples_vanish(-x, 1000);
    }
}

/// Whether a fixed-offset delta truncates to a whole-second offset the
/// native fixed-offset type can hold.
pub open spec fn offset_in_bounds(d: PyDelta) -> bool {
    -86399 <= trunc_div(d.total_microseconds(), 1_000_000) <= 86399
}

/// What importing a host timezone yields: a calendar-dependent timezone is
/// refused outright; a fixed offset is truncated to whole seconds (the
/// sub-second part is not representable and is dropped) and must fit the
/// native range.
pub open spec fn offset_import_result(tz: PyTzInfo, r: Result<UtcOffset, BridgeError>) -> bool {
    &&& (tz is Zone ==> r == Err::<UtcOffset, BridgeError>(BridgeError::NotFixedOffsetTimezone))
    &&& (tz is Fixed ==> {
        &&& (r is Ok <==> offset_in_bounds(tz->Fixed_0))
        &&& (r is Ok ==> r->Ok_0.wf() && r->Ok_0.seconds == trunc_div(
            tz->Fixed_0.total_microseconds(),
            1_000_000,
        ))
        &&& (r is Err ==> r == Err::<UtcOffset, BridgeError>(BridgeError::FixedOffsetOutOfBounds))
    })
}

/// Probes a host timezone with a null reference instant — the only way to
/// read a fixed offset without supplying a concrete date-time — and builds
/// the native offset from the answer.
fn utc_offset_from_tzinfo(tzinfo: &PyTzInfo) -> (r: Result<UtcOffset, BridgeError>)
    requires
        tzinfo is Fixed ==> tzinfo->Fixed_0.wf(),
    ensures
        offset_import_result(*tzinfo, r),
{
    match tzinfo.utcoffset() {
        None => Err(BridgeError::NotFixedOffsetTimezone),
        Some(delta) => {
            let total = duration_from_py_delta(&delta);
            let seconds = total.whole_seconds();
            proof {
                lemma_trunc_div_scale(delta.total_microseconds());
            }
            if -86399 <= seconds && seconds <= 86399 {
                match UtcOffset::from_whole_seconds(seconds as i32) {
                    Some(offset) => Ok(offset),
                    None => vstd::pervasive::unreached(),
                }
            } else {
                Err(BridgeError::FixedOffsetOutOfBounds)
            }
        },
    }
}

impl UtcOffset {
    /// Exports the offset to a host fixed-offset timezone: a host delta of
    /// that many whole seconds is built and handed to the host's timezone
    /// constructor. The native range lies strictly inside the host's, so
    /// this always succeeds.
    pub fn into_pyobject(self) -> (r: Result<PyTzInfo, BridgeError>)
        requires
            self.wf(),
        ensures
            r is Ok,
            r is Ok ==> r->Ok_0 is Fixed && r->Ok_0->Fixed_0.wf()
                && r->Ok_0->Fixed_0.total_microseconds() == self.seconds * 1_000_000,
    {
        let td = match PyDelta::new(0, self.whole_seconds() as i64, 0) {
            Ok(td) => td,
            Err(_) => vstd::pervasive::unreached(),
        };
        match timezone_from_offset(&td) {
            Ok(tz) => Ok(tz),
            Err(_) => vstd::pervasive::unreached(),
        }
    }

    /// Imports a host timezone into a native fixed offset. Any host value
    /// that is not a timezone is a type mismatch; a timezone whose offset
    /// depends on the instant is refused as not a fixed offset.
    pub fn extract_bound(ob: &PyAny) -> (r: Result<UtcOffset, BridgeError>)
        requires
            ob is TzInfo && ob->TzInfo_0 is Fixed ==> ob->TzInfo_0->Fixed_0.wf(),
        ensures
            ob is TzInfo ==> offset_import_result(ob->TzInfo_0, r),
            !(ob is TzInfo) ==> r == Err::<UtcOffset, BridgeError>(
                BridgeError::TypeMismatch(PyKind::TzInfo),
            ),
    {
        match ob {
            PyAny::TzInfo(tz) => utc_offset_from_tzinfo(tz),
            _ => Err(BridgeError::TypeMismatch(PyKind::TzInfo)),
        }
    }
}

/// Whether the date and time fields of a host date-time all pass the
/// native constructors' validation.
pub open spec fn naive_fields_ok(d: PyDateTime) -> bool {
    &&& is_valid_date(d.date.year as int, d.date.month as int, d.date.day as int)
    &&& d.time.hour <= 23 && d.time.minute <= 59 && d.time.second <= 59 && d.time.microsecond
        <= 1_999_999
}

/// What importing the date and time fields of a host date-time yields,
/// with the date validated before the time.
pub open spec fn naive_import_result(d: PyDateTime, r: Result<
    PrimitiveDateTime,
    BridgeError,
>) -> bool {
    &&& (r is Ok <==> naive_fields_ok(d))
    &&& (r is Ok ==> ({
        let p = r->Ok_0;
        &&& p.wf()
        &&& p.date.year == d.date.year
        &&& p.date.month.as_number() == d.date.month
        &&& p.date.day == d.date.day
        &&& p.time.hour == d.time.hour
        &&& p.time.minute == d.time.minute
        &&& p.time.second == d.time.second
        &&& p.time.nanosecond == d.time.microsecond * 1000
    }))
    &&& (!(1 <= d.date.month <= 12) ==> r == Err::<PrimitiveDateTime, BridgeError>(
        BridgeError::InvalidMonth,
    ))
    &&& (1 <= d.date.month <= 12 && !is_valid_date(
        d.date.year as int,
        d.date.month as int,
        d.date.day as int,
    ) ==> r == Err::<PrimitiveDateTime, BridgeError>(BridgeError::InvalidDate))
    &&& (is_valid_date(d.date.year as int, d.date.month as int, d.date.day as int) && !(
    d.time.hour <= 23 && d.time.minute <= 59 && d.time.second <= 59 && d.time.microsecond
        <= 1_999_999) ==> r == Err::<PrimitiveDateTime, BridgeError>(BridgeError::InvalidTime))
}

impl PrimitiveDateTime {
    /// Exports the naive date-time to a host date-time with no timezone
    /// attached. The export fails exactly when the year lies outside the
    /// host's range; a stored leap second is collapsed and, once the host
    /// object is built, exactly one warning is offered to the warning
    /// channel.
    pub fn into_pyobject(self, sink: &mut WarningSink) -> (r: Result<PyDateTime, BridgeError>)
        requires
            self.wf(),
        ensures
            r is Ok <==> 1 <= self.date.year,
            r is Ok ==> ({
                let d = r->Ok_0;
                &&& d.date.year == self.date.year
                &&& d.date.month == self.date.month.as_number()
                &&& d.date.day == self.date.day
                &&& d.time.hour == self.time.hour
                &&& d.time.minute == self.time.minute
                &&& d.time.second == self.time.second
                &&& d.time.microsecond == exported_microsecond(self.time.nanosecond as int)
                &&& d.tzinfo is None
            }),
            r is Err ==> r == Err::<PyDateTime, BridgeError>(BridgeError::InvalidDate),
            final(sink).accepting == old(sink).accepting,
            r is Ok && self.time.has_leap_second() && old(sink).accepting ==> final(sink).log@
                == old(sink).log@.push(Warning::TruncatedLeapSecond),
            !(r is Ok && self.time.has_leap_second() && old(sink).accepting) ==> final(sink).log@ == old(sink).log@,
    {
        let date_args = DateArgs::from(&self.date());
        let time_args = TimeArgs::from(&self.time());
        proof {
            lemma_exported_microsecond_bound(self.time.nanosecond as int);
        }
        match PyDateTime::new(
            date_args.year,
            date_args.month,
            date_args.day,
            time_args.hour,
            time_args.min,
            time_args.sec,
            time_args.micro,
            None,
        ) {
            Ok(datetime) => {
                if time_args.truncated_leap_second {
                    warn_truncated_leap_second(sink);
                }
                Ok(datetime)
            },
            Err(e) => Err(e),
        }
    }

    /// Imports a host date-time into a naive date-time. A host date-time
    /// that carries a timezone is refused rather than silently stripped of
    /// it; any host value that is not a date-time is a type mismatch.
    pub fn extract_bound(dt: &PyAny) -> (r: Result<PrimitiveDateTime, BridgeError>)
        ensures
            !(dt is DateTime) ==> r == Err::<PrimitiveDateTime, BridgeError>(
                BridgeError::TypeMismatch(PyKind::DateTime),
            ),
            dt is DateTime && dt->DateTime_0.tzinfo is Some ==> r == Err::<
                PrimitiveDateTime,
                BridgeError,
            >(BridgeError::ExpectedNaiveDatetime),
            dt is DateTime && dt->DateTime_0.tzinfo is None ==> naive_import_result(
                dt->DateTime_0,
                r,
            ),
    {
        match dt {
            PyAny::DateTime(d) => {
                match d.get_tzinfo() {
                    Some(_) => Err(BridgeError::ExpectedNaiveDatetime),
                    None => {
                        let date = py_date_to_naive_date(&d.date)?;
                        let time = py_time_to_naive_time(&d.time)?;
                        Ok(PrimitiveDateTime::new(date, time))
                    },
                }
            },
            _ => Err(BridgeError::TypeMismatch(PyKind::DateTime)),
        }
    }
}

/// What importing an offset-aware host date-time yields once its timezone
/// attribute is present: the timezone is reduced to a fixed offset first,
/// then the date and time fields are validated as for a naive import, and
/// the offset is attached to the result.
pub open spec fn aware_import_result(d: PyDateTime, r: Result<OffsetDateTime, BridgeError>) -> bool
    recommends
        d.tzinfo is Some,
{
    let tz = d.tzinfo->Some_0;
    &&& (tz is Zone ==> r == Err::<OffsetDateTime, BridgeError>(
        BridgeError::NotFixedOffsetTimezone,
    ))
    &&& (tz is Fixed && !offset_in_bounds(tz->Fixed_0) ==> r == Err::<
        OffsetDateTime,
        BridgeError,
    >(BridgeError::FixedOffsetOutOfBounds))
    &&& (tz is Fixed && offset_in_bounds(tz->Fixed_0) ==> {
        &&& (r is Ok <==> naive_fields_ok(d))
        &&& (r is Ok ==> ({
            let o = r->Ok_0;
            &&& o.wf()
            &&& o.datetime.date.year == d.date.year
            &&& o.datetime.date.month.as_number() == d.date.month
            &&& o.datetime.date.day == d.date.day
            &&& o.datetime.time.hour == d.time.hour
            &&& o.datetime.time.minute == d.time.minute
            &&& o.datetime.time.second == d.time.second
            &&& o.datetime.time.nanosecond == d.time.microsecond * 1000
            &&& o.offset.seconds == trunc_div(tz->Fixed_0.total_microseconds(), 1_000_000)
        }))
        &&& (!(1 <= d.date.month <= 12) ==> r == Err::<OffsetDateTime, BridgeError>(
            BridgeError::InvalidMonth,
        ))
        &&& (1 <= d.date.month <= 12 && !is_valid_date(
            d.date.year as int,
            d.date.month as int,
            d.date.day as int,
        ) ==> r == Err::<OffsetDateTime, BridgeError>(BridgeError::InvalidDate))
        &&& (is_valid_date(d.date.year as int, d.date.month as int, d.date.day as int) && !(
        d.time.hour <= 23 && d.time.minute <= 59 && d.time.second <= 59 && d.time.microsecond
            <= 1_999_999) ==> r == Err::<OffsetDateTime, BridgeError>(BridgeError::InvalidTime))
    })
}

impl OffsetDateTime {
    /// Exports the offset-aware date-time to a host date-time: the offset
    /// is converted to a host timezone first (which always succeeds for a
    /// native offset), then the date and time fields are exported as for a
    /// naive date-time, with the timezone attached and the same
    /// leap-second warning behaviour.
    pub fn into_pyobject(&self, sink: &mut WarningSink) -> (r: Result<PyDateTime, BridgeError>)
        requires
            self.wf(),
        ensures
            r is Ok <==> 1 <= self.datetime.date.year,
            r is Ok ==> ({
                let d = r->Ok_0;
                &&& d.date.year == self.datetime.date.year
                &&& d.date.month == self.datetime.date.month.as_number()
                &&& d.date.day == self.datetime.date.day
                &&& d.time.hour == self.datetime.time.hour
                &&& d.time.minute == self.datetime.time.minute
                &&& d.time.second == self.datetime.time.second
                &&& d.time.microsecond == exported_microsecond(
                    self.datetime.time.nanosecond as int,
                )
                &&& d.tzinfo is Some
                &&& d.tzinfo->Some_0 is Fixed
                &&& d.tzinfo->Some_0->Fixed_0.wf()
                &&& d.tzinfo->Some_0->Fixed_0.total_microseconds() == self.offset.seconds
                    * 1_000_000
            }),
            r is Err ==> r == Err::<PyDateTime, BridgeError>(BridgeError::InvalidDate),
            final(sink).accepting == old(sink).accepting,
            r is Ok && self.datetime.time.has_leap_second() && old(sink).accepting ==> final(sink).log@ == old(sink).log@.push(Warning::TruncatedLeapSecond),
            !(r is Ok && self.datetime.time.has_leap_second() && old(sink).accepting) ==> final(sink).log@ == old(sink).log@,
    {
        let tz = match self.offset().into_pyobject() {
            Ok(tz) => tz,
            Err(_) => vstd::pervasive::unreached(),
        };
        let date_args = DateArgs::from(&self.date());
        let time_args = TimeArgs::from(&self.time());
        proof {
            lemma_exported_microsecond_bound(self.datetime.time.nanosecond as int);
        }
        match PyDateTime::new(
            date_args.year,
            date_args.month,
            date_args.day,
            time_args.hour,
            time_args.min,
            time_args.sec,
            time_args.micro,
            Some(tz),
        ) {
            Ok(datetime) => {
                if time_args.truncated_leap_second {
                    warn_truncated_leap_second(sink);
                }
                Ok(datetime)
            },
            Err(e) => Err(e),
        }
    }

    /// Imports a host date-time into an offset-aware date-time. A host
    /// date-time with no timezone is refused; the timezone must reduce to
    /// a fixed offset; any host value that is not a date-time is a type
    /// mismatch.
    pub fn extract_bound(dt: &PyAny) -> (r: Result<OffsetDateTime, BridgeError>)
        requires
            dt is DateTime && dt->DateTime_0.tzinfo is Some && dt->DateTime_0.tzinfo->Some_0
                is Fixed ==> dt->DateTime_0.tzinfo->Some_0->Fixed_0.wf(),
        ensures
            !(dt is DateTime) ==> r == Err::<OffsetDateTime, BridgeError>(
                BridgeError::TypeMismatch(PyKind::DateTime),
            ),
            dt is DateTime && dt->DateTime_0.tzinfo is None ==> r == Err::<
                OffsetDateTime,
                BridgeError,
            >(BridgeError::ExpectedAwareDatetime),
            dt is DateTime && dt->DateTime_0.tzinfo is Some ==> aware_import_result(
                dt->DateTime_0,
                r,
            ),
    {
        match dt {
            PyAny::DateTime(d) => {
                match d.get_tzinfo() {
                    None => Err(BridgeError::ExpectedAwareDatetime),
                    Some(tzinfo) => {
                        let tz = utc_offset_from_tzinfo(&tzinfo)?;
                        let date = py_date_to_naive_date(&d.date)?;
                        let time = py_time_to_naive_time(&d.time)?;
                        Ok(PrimitiveDateTime::new(date, time).assume_offset(tz))
                    },
                }
            },
            _ => Err(BridgeError::TypeMismatch(PyKind::DateTime)),
        }
    }
}

/// Exports a naive date-time to a host date-time with the given timezone
/// attached. The caller must stay inside the host's year range: this is
/// the one conversion whose host construction is not allowed to fail.
pub fn primitive_datetime_to_py_datetime(
    primitive_date_time: &PrimitiveDateTime,
    tzinfo: Option<&PyTzInfo>,
    sink: &mut WarningSink,
) -> (r: PyDateTime)
    requires
        primitive_date_time.wf(),
        1 <= primitive_date_time.date.year,
    ensures
        r.date.year == primitive_date_time.date.year,
        r.date.month == primitive_date_time.date.month.as_number(),
        r.date.day == primitive_date_time.date.day,
        r.time.hour == primitive_date_time.time.hour,
        r.time.minute == primitive_date_time.time.minute,
        r.time.second == primitive_date_time.time.second,
        r.time.microsecond == exported_microsecond(primitive_date_time.time.nanosecond as int),
        tzinfo is Some ==> r.tzinfo == Some(*tzinfo->Some_0),
        tzinfo is None ==> r.tzinfo is None,
        final(sink).accepting == old(sink).accepting,
        primitive_date_time.time.has_leap_second() && old(sink).accepting ==> final(sink).log@
            == old(sink).log@.push(Warning::TruncatedLeapSecond),
        !(primitive_date_time.time.has_leap_second() && old(sink).accepting) ==> final(sink).log@ == old(sink).log@,
{
    let tz: Option<PyTzInfo> = match tzinfo {
        Some(t) => Some(*t),
        None => None,
    };
    let date_args = DateArgs::from(&primitive_date_time.date());
    let time_args = TimeArgs::from(&primitive_date_time.time());
    proof {
        lemma_exported_microsecond_bound(primitive_date_time.time.nanosecond as int);
    }
    match PyDateTime::new(
        date_args.year,
        date_args.month,
        date_args.day,
        time_args.hour,
        time_args.min,
        time_args.sec,
        time_args.micro,
        tz,
    ) {
        Ok(datetime) => {
            if time_args.truncated_leap_second {
                warn_truncated_leap_second(sink);
            }
            datetime
        },
        Err(_) => vstd::pervasive::unreached(),
    }
}

} // verus!
