//! The bridge's round-trip laws, stated over the same spec functions the
//! conversions' contracts use. Each law takes the native value together
//! with the host value its export produces and the native value the import
//! of that host value returns, related exactly as the conversions'
//! `ensures` relate them, and concludes that the original value comes back.

use crate::convert::{
    date_import_result, exported_microsecond, offset_import_result, time_import_result,
};
use crate::host::{PyDate, PyDelta, PyTime, PyTzInfo};
use crate::native::{Date, Duration, Time, UtcOffset, is_valid_date, trunc_div};
use vstd::prelude::*;

verus! {

/// Two well-formed native durations holding the same span are the same
/// value: the normalized representation is unique.
proof fn lemma_duration_repr_unique(a: Duration, b: Duration)
    requires
        a.wf(),
        b.wf(),
        a.total_nanoseconds() == b.total_nanoseconds(),
    ensures
        a == b,
{
    assert(a.seconds == b.seconds && a.nanoseconds == b.nanoseconds);
}

/// Round-trip law for durations: a native duration with no sub-microsecond
/// remainder whose microsecond count fits the host delta's range comes back
/// unchanged from an export followed by an import.
///
/// `e` is the export of `d` and `r` the import of `e`, related as the
/// conversions' contracts state.
pub proof fn lemma_duration_round_trip(d: Duration, e: PyDelta, r: Duration)
    requires
        d.wf(),
        e.wf(),
        r.wf(),
        d.total_nanoseconds() % 1000 == 0,
        e.total_microseconds() == trunc_div(d.total_nanoseconds(), 1000),
        r.total_nanoseconds() == e.total_microseconds() * 1000,
    ensures
        r == d,
{
    let t = d.total_nanoseconds();
    vstd::arithmetic::div_mod::lemma_fundamental_div_mod(t, 1000);
    if t < 0 {
        vstd::arithmetic::div_mod::lemma_fundamental_div_mod_converse(
            -t,
            1000,
            -(t / 1000),
            0,
        );
    }
    lemma_duration_repr_unique(r, d);
}

/// Round-trip law for dates: every valid native date with year at least 1
/// exports to host fields the host accepts, and importing those fields
/// yields the original date.
///
/// `e` is the export of `d` and `r` the result the import contract allows
/// for `e`.
pub proof fn lemma_date_round_trip(d: Date, e: PyDate, r: Date)
    requires
        d.wf(),
        1 <= d.year,
        e.year == d.year,
        e.month == d.month.as_number(),
        e.day == d.day,
        date_import_result(e, Ok(r)),
    ensures
        is_valid_date(e.year as int, e.month as int, e.day as int),
        r == d,
{
    assert(r.month == d.month);
}

/// Round-trip law for times of day: a native time at microsecond
/// resolution with no stored leap second comes back unchanged from an
/// export followed by an import.
///
/// `e` is the export of `t` and `r` the result the import contract allows
/// for `e`.
pub proof fn lemma_time_round_trip(t: Time, e: PyTime, r: Time)
    requires
        t.wf(),
        !t.has_leap_second(),
        t.nanosecond % 1000 == 0,
        e.hour == t.hour,
        e.minute == t.minute,
        e.second == t.second,
        e.microsecond == exported_microsecond(t.nanosecond as int),
        time_import_result(e, Ok(r)),
    ensures
        e.hour <= 23 && e.minute <= 59 && e.second <= 59 && e.microsecond <= 1_999_999,
        r == t,
{
    crate::convert::lemma_exported_microsecond_bound(t.nanosecond as int);
    vstd::arithmetic::div_mod::lemma_fundamental_div_mod(t.nanosecond as int, 1000);
}

/// Leap-second collapse law: a time value with a stored 61st second
/// exports with its stored second kept and the extra second's nanoseconds
/// folded into the microsecond field, and importing the exported value
/// does not reconstruct the leap second. (The export's own contract states
/// that exactly one warning is offered to an accepting warning channel.)
pub proof fn lemma_leap_second_collapse(t: Time, e: PyTime, r: Time)
    requires
        t.wf(),
        t.has_leap_second(),
        e.hour == t.hour,
        e.minute == t.minute,
        e.second == t.second,
        e.microsecond == exported_microsecond(t.nanosecond as int),
        time_import_result(e, Ok(r)),
    ensures
        e.second == t.second && e.second <= 59,
        e.microsecond == (t.nanosecond - 1_000_000_000) / 1000,
        e.microsecond <= 999_999,
        !r.has_leap_second(),
        r.hour == t.hour && r.minute == t.minute && r.second == t.second,
{
    crate::convert::lemma_exported_microsecond_bound(t.nanosecond as int);
}

/// Round-trip law for fixed offsets: every native fixed offset exports to
/// a host fixed-offset timezone whose import succeeds and yields the
/// original offset.
///
/// `tz` is the export of `o` and `r` the result the import contract allows
/// for `tz`.
pub proof fn lemma_offset_round_trip(o: UtcOffset, tz: PyTzInfo, r: UtcOffset)
    requires
        o.wf(),
        tz is Fixed,
        tz->Fixed_0.wf(),
        tz->Fixed_0.total_microseconds() == o.seconds * 1_000_000,
        offset_import_result(tz, Ok(r)),
    ensures
        crate::convert::offset_in_bounds(tz->Fixed_0),
        r == o,
{
    let s = o.seconds as int;
    if s >= 0 {
        vstd::arithmetic::div_mod::lemma_div_multiples_vanish(s, 1_000_000);
    } else {
        vstd::arithmetic::div_mod::lemma_div_multiples_vanish(-s, 1_000_000);
    }
}

} // verus!
