//! The native side of the bridge: plain-value models of the native time
//! library's duration, calendar date, time-of-day, naive and offset-aware
//! date-time and fixed-offset types, together with the calendar arithmetic
//! that validates them.

use vstd::prelude::*;

verus! {

/// Truncating division (rounding toward zero), the rounding the native
/// library uses when it splits a span into whole units.
pub open spec fn trunc_div(a: int, b: int) -> int
    recommends
        b > 0,
{
    if a >= 0 {
        a / b
    } else {
        -((-a) / b)
    }
}

/// A month of the proleptic Gregorian calendar.
#[derive(Clone, Copy, Debug, PartialEq, Eq, Structural)]
pub enum Month {
    January,
    February,
    March,
    April,
    May,
    June,
    July,
    August,
    September,
    October,
    November,
    December,
}

impl Month {
    /// The 1-based number of the month: January is 1, December is 12.
    pub open spec fn as_number(self) -> int {
        match self {
            Month::January => 1,
            Month::February => 2,
            Month::March => 3,
            Month::April => 4,
            Month::May => 5,
            Month::June => 6,
            Month::July => 7,
            Month::August => 8,
            Month::September => 9,
            Month::October => 10,
            Month::November => 11,
            Month::December => 12,
        }
    }

    /// The 1-based number of the month: January is 1, December is 12.
    pub fn number(self) -> (n: u8)
        ensures
            n == self.as_number(),
    {
        match self {
            Month::January => 1,
            Month::February => 2,
            Month::March => 3,
            Month::April => 4,
            Month::May => 5,
            Month::June => 6,
            Month::July => 7,
            Month::August => 8,
            Month::September => 9,
            Month::October => 10,
            Month::November => 11,
            Month::December => 12,
        }
    }

    /// The month named by a 1-based number, if the number names one.
    pub fn try_from(n: u8) -> (r: Option<Month>)
        ensures
            r is Some <==> 1 <= n <= 12,
            r is Some ==> r->Some_0.as_number() == n,
    {
        match n {
            1 => Some(Month::January),
            2 => Some(Month::February),
            3 => Some(Month::March),
            4 => Some(Month::April),
            5 => Some(Month::May),
            6 => Some(Month::June),
            7 => Some(Month::July),
            8 => Some(Month::August),
            9 => Some(Month::September),
            10 => Some(Month::October),
            11 => Some(Month::November),
            12 => Some(Month::December),
            _ => None,
        }
    }
}

/// Whether `year` is a leap year of the proleptic Gregorian calendar.
pub open spec fn is_leap_year(year: int) -> bool {
    (year % 4 == 0 && year % 100 != 0) || year % 400 == 0
}

/// How many days the given month of the given year has; `month` is 1-based.
pub open spec fn days_in_month(year: int, month: int) -> int
    recommends
        1 <= month <= 12,
{
    if month == 2 {
        if is_leap_year(year) {
            29
        } else {
            28
        }
    } else if month == 4 || month == 6 || month == 9 || month == 11 {
        30
    } else {
        31
    }
}

/// Whether (year, month, day) is a calendar date the native library can hold:
/// a valid proleptic-Gregorian date with year in -9999..=9999.
pub open spec fn is_valid_date(year: int, month: int, day: int) -> bool {
    &&& -9999 <= year <= 9999
    &&& 1 <= month <= 12
    &&& 1 <= day <= days_in_month(year, month)
}

/// Runtime leap-year test. The year is shifted by 40000, a multiple of 400
/// (and so of 100 and 4), to stay on non-negative operands.
fn leap_year(year: i32) -> (r: bool)
    requires
        -9999 <= year <= 9999,
    ensures
        r == is_leap_year(year as int),
{
    let shifted: u32 = (year + 40000) as u32;
    proof {
        vstd::arithmetic::div_mod::lemma_mod_multiples_vanish(10000, year as int, 4);
        vstd::arithmetic::div_mod::lemma_mod_multiples_vanish(400, year as int, 100);
        vstd::arithmetic::div_mod::lemma_mod_multiples_vanish(100, year as int, 400);
    }
    (shifted % 4 == 0 && shifted % 100 != 0) || shifted % 400 == 0
}

/// Runtime day count of a month, matching `days_in_month`.
pub(crate) fn month_length(year: i32, month: Month) -> (r: u8)
    requires
        -9999 <= year <= 9999,
    ensures
        r == days_in_month(year as int, month.as_number()),
{
    match month {
        Month::February => if leap_year(year) {
            29
        } else {
            28
        },
        Month::April => 30,
        Month::June => 30,
        Month::September => 30,
        Month::November => 30,
        _ => 31,
    }
}

/// A calendar date of the proleptic Gregorian calendar, with the year range
/// of the native library.
#[derive(Clone, Copy, Debug, PartialEq, Eq, Structural)]
pub struct Date {
    pub year: i32,
    pub month: Month,
    pub day: u8,
}

impl Date {
    /// The date is one the native library can hold.
    pub open spec fn wf(self) -> bool {
        is_valid_date(self.year as int, self.month.as_number(), self.day as int)
    }

    /// A date from its calendar fields, validated; `None` when the fields do
    /// not form a date in the native range.
    pub fn from_calendar_date(year: i32, month: Month, day: u8) -> (r: Option<Date>)
        ensures
            r is Some <==> is_valid_date(year as int, month.as_number(), day as int),
            r is Some ==> {
                &&& r->Some_0.wf()
                &&& r->Some_0.year == year
                &&& r->Some_0.month == month
                &&& r->Some_0.day == day
            },
    {
        if -9999 <= year && year <= 9999 && 1 <= day && day <= month_length(year, month) {
            Some(Date { year, month, day })
        } else {
            None
        }
    }

    /// The calendar year.
    pub fn year(&self) -> (r: i32)
        ensures
            r == self.year,
    {
        self.year
    }

    /// The month of the year.
    pub fn month(&self) -> (r: Month)
        ensures
            r == self.month,
    {
        self.month
    }

    /// The day of the month, 1-based.
    pub fn day(&self) -> (r: u8)
        ensures
            r == self.day,
    {
        self.day
    }
}

/// A time of day with nanosecond resolution. A `nanosecond` value of at
/// least 1_000_000_000 stores a 61st (leap) second on top of the `second`
/// field, which the host model cannot represent.
#[derive(Clone, Copy, Debug, PartialEq, Eq, Structural)]
pub struct Time {
    pub hour: u8,
    pub minute: u8,
    pub second: u8,
    pub nanosecond: u32,
}

impl Time {
    /// The fields are in the native library's ranges; the nanosecond field
    /// may carry up to one extra second for a leap second.
    pub open spec fn wf(self) -> bool {
        &&& self.hour <= 23
        &&& self.minute <= 59
        &&& self.second <= 59
        &&& self.nanosecond <= 1_999_999_999
    }

    /// Whether the value stores a leap second.
    pub open spec fn has_leap_second(self) -> bool {
        self.nanosecond >= 1_000_000_000
    }

    /// A time of day from hours, minutes, seconds and microseconds,
    /// validated; a microsecond value in 1_000_000..=1_999_999 stores a leap
    /// second.
    pub fn from_hms_micro(hour: u8, minute: u8, second: u8, microsecond: u32) -> (r: Option<
        Time,
    >)
        ensures
            r is Some <==> hour <= 23 && minute <= 59 && second <= 59 && microsecond
                <= 1_999_999,
            r is Some ==> {
                &&& r->Some_0.wf()
                &&& r->Some_0.hour == hour
                &&& r->Some_0.minute == minute
                &&& r->Some_0.second == second
                &&& r->Some_0.nanosecond == microsecond * 1000
            },
    {
        if hour <= 23 && minute <= 59 && second <= 59 && microsecond <= 1_999_999 {
            Some(Time { hour, minute, second, nanosecond: microsecond * 1000 })
        } else {
            None
        }
    }

    /// A time of day from hours, minutes, seconds and nanoseconds,
    /// validated; a nanosecond value of at least 1_000_000_000 stores a leap
    /// second.
    pub fn from_hms_nano(hour: u8, minute: u8, second: u8, nanosecond: u32) -> (r: Option<Time>)
        ensures
            r is Some <==> hour <= 23 && minute <= 59 && second <= 59 && nanosecond
                <= 1_999_999_999,
            r is Some ==> {
                &&& r->Some_0.wf()
                &&& r->Some_0.hour == hour
                &&& r->Some_0.minute == minute
                &&& r->Some_0.second == second
                &&& r->Some_0.nanosecond == nanosecond
            },
    {
        if hour <= 23 && minute <= 59 && second <= 59 && nanosecond <= 1_999_999_999 {
            Some(Time { hour, minute, second, nanosecond })
        } else {
            None
        }
    }

    /// The hour, 0..=23.
    pub fn hour(&self) -> (r: u8)
        ensures
            r == self.hour,
    {
        self.hour
    }

    /// The minute, 0..=59.
    pub fn minute(&self) -> (r: u8)
        ensures
            r == self.minute,
    {
        self.minute
    }

    /// The second, 0..=59.
    pub fn second(&self) -> (r: u8)
        ensures
            r == self.second,
    {
        self.second
    }

    /// The nanoseconds within the second, including a possible stored leap
    /// second.
    pub fn nanosecond(&self) -> (r: u32)
        ensures
            r == self.nanosecond,
    {
        self.nanosecond
    }
}

/// The largest span the native duration can hold, in nanoseconds.
pub const MAX_DURATION_NANOSECONDS: i128 = i64::MAX as i128 * 1_000_000_000 + 999_999_999;

/// The smallest span the native duration can hold, in nanoseconds.
pub const MIN_DURATION_NANOSECONDS: i128 = i64::MIN as i128 * 1_000_000_000 - 999_999_999;

/// A signed span of time, stored as whole seconds plus a nanosecond part
/// that never exceeds a second and never has the opposite sign.
#[derive(Clone, Copy, Debug, PartialEq, Eq, Structural)]
pub struct Duration {
    pub seconds: i64,
    pub nanoseconds: i32,
}

impl Duration {
    /// The representation invariant of the native duration.
    pub open spec fn wf(self) -> bool {
        &&& -999_999_999 <= self.nanoseconds <= 999_999_999
        &&& self.seconds > 0 ==> self.nanoseconds >= 0
        &&& self.seconds < 0 ==> self.nanoseconds <= 0
    }

    /// The whole span as a count of nanoseconds.
    pub open spec fn total_nanoseconds(self) -> int {
        self.seconds * 1_000_000_000 + self.nanoseconds
    }

    /// The normalized duration holding `t` nanoseconds.
    pub(crate) fn from_total_nanoseconds(t: i128) -> (r: Duration)
        requires
            MIN_DURATION_NANOSECONDS <= t <= MAX_DURATION_NANOSECONDS,
        ensures
            r.wf(),
            r.total_nanoseconds() == t,
    {
        if t >= 0 {
            let u: u128 = t as u128;
            let s: u128 = u / 1_000_000_000;
            let n: u128 = u % 1_000_000_000;
            proof {
                vstd::arithmetic::div_mod::lemma_fundamental_div_mod(u as int, 1_000_000_000);
                vstd::arithmetic::div_mod::lemma_mod_bound(u as int, 1_000_000_000);
                vstd::arithmetic::div_mod::lemma_multiply_divide_lt(
                    u as int,
                    1_000_000_000,
                    i64::MAX as int + 1,
                );
            }
            Duration { seconds: s as i64, nanoseconds: n as i32 }
        } else {
            let u: u128 = (-t) as u128;
            let s: u128 = u / 1_000_000_000;
            let n: u128 = u % 1_000_000_000;
            proof {
                vstd::arithmetic::div_mod::lemma_fundamental_div_mod(u as int, 1_000_000_000);
                vstd::arithmetic::div_mod::lemma_mod_bound(u as int, 1_000_000_000);
                vstd::arithmetic::div_mod::lemma_multiply_divide_lt(
                    u as int,
                    1_000_000_000,
                    -(i64::MIN as int) + 1,
                );
            }
            Duration { seconds: (-(s as i128)) as i64, nanoseconds: -(n as u32 as i32) }
        }
    }

    /// The whole span as a runtime count of nanoseconds.
    pub fn whole_nanoseconds(&self) -> (t: i128)
        ensures
            t == self.total_nanoseconds(),
    {
        self.seconds as i128 * 1_000_000_000 + self.nanoseconds as i128
    }

    /// A span of whole days.
    pub fn days(days: i64) -> (r: Duration)
        requires
            i64::MIN <= days * 86400 <= i64::MAX,
        ensures
            r.wf(),
            r.total_nanoseconds() == days * 86_400_000_000_000,
    {
        let r = Duration { seconds: days * 86400, nanoseconds: 0 };
        proof {
            assert(r.total_nanoseconds() == days * 86_400_000_000_000) by (nonlinear_arith)
                requires
                    r.seconds == days * 86400 && r.nanoseconds == 0 && r.total_nanoseconds()
                        == r.seconds * 1_000_000_000 + r.nanoseconds,
            ;
        }
        r
    }

    /// A span of whole seconds.
    pub fn seconds(seconds: i64) -> (r: Duration)
        ensures
            r.wf(),
            r.total_nanoseconds() == seconds * 1_000_000_000,
    {
        Duration { seconds, nanoseconds: 0 }
    }

    /// A span of whole microseconds.
    pub fn microseconds(microseconds: i64) -> (r: Duration)
        ensures
            r.wf(),
            r.total_nanoseconds() == microseconds * 1000,
    {
        Duration::from_total_nanoseconds(microseconds as i128 * 1000)
    }

    /// A span of whole nanoseconds.
    pub fn nanoseconds(nanoseconds: i64) -> (r: Duration)
        ensures
            r.wf(),
            r.total_nanoseconds() == nanoseconds,
    {
        Duration::from_total_nanoseconds(nanoseconds as i128)
    }

    /// The most negative native duration.
    pub fn min_value() -> (r: Duration)
        ensures
            r.wf(),
            r.total_nanoseconds() == MIN_DURATION_NANOSECONDS,
    {
        Duration { seconds: i64::MIN, nanoseconds: -999_999_999 }
    }

    /// The most positive native duration.
    pub fn max_value() -> (r: Duration)
        ensures
            r.wf(),
            r.total_nanoseconds() == MAX_DURATION_NANOSECONDS,
    {
        Duration { seconds: i64::MAX, nanoseconds: 999_999_999 }
    }

    /// The sum of two spans, or `None` when it leaves the native range.
    pub fn checked_add(self, rhs: Duration) -> (r: Option<Duration>)
        requires
            self.wf(),
            rhs.wf(),
        ensures
            r is Some <==> MIN_DURATION_NANOSECONDS <= self.total_nanoseconds()
                + rhs.total_nanoseconds() <= MAX_DURATION_NANOSECONDS,
            r is Some ==> {
                &&& r->Some_0.wf()
                &&& r->Some_0.total_nanoseconds() == self.total_nanoseconds()
                    + rhs.total_nanoseconds()
            },
    {
        let t: i128 = self.whole_nanoseconds() + rhs.whole_nanoseconds();
        if MIN_DURATION_NANOSECONDS <= t && t <= MAX_DURATION_NANOSECONDS {
            Some(Duration::from_total_nanoseconds(t))
        } else {
            None
        }
    }

    /// The number of whole seconds in the span, rounded toward zero.
    pub fn whole_seconds(&self) -> (r: i64)
        requires
            self.wf(),
        ensures
            r == trunc_div(self.total_nanoseconds(), 1_000_000_000),
    {
        proof {
            let t = self.total_nanoseconds();
            if self.seconds >= 0 && self.nanoseconds >= 0 {
                vstd::arithmetic::div_mod::lemma_fundamental_div_mod_converse(
                    t,
                    1_000_000_000,
                    self.seconds as int,
                    self.nanoseconds as int,
                );
            } else {
                assert(t <= 0);
                vstd::arithmetic::div_mod::lemma_fundamental_div_mod_converse(
                    -t,
                    1_000_000_000,
                    -(self.seconds as int),
                    -(self.nanoseconds as int),
                );
            }
        }
        self.seconds
    }
}

/// A fixed UTC offset in whole seconds, bounded to one day minus one second
/// on either side of UTC.
#[derive(Clone, Copy, Debug, PartialEq, Eq, Structural)]
pub struct UtcOffset {
    pub seconds: i32,
}

impl UtcOffset {
    /// The offset lies strictly within one day of UTC.
    pub open spec fn wf(self) -> bool {
        -86399 <= self.seconds <= 86399
    }

    /// An offset from a whole-second count, validated.
    pub fn from_whole_seconds(seconds: i32) -> (r: Option<UtcOffset>)
        ensures
            r is Some <==> -86399 <= seconds <= 86399,
            r is Some ==> r->Some_0.wf() && r->Some_0.seconds == seconds,
    {
        if -86399 <= seconds && seconds <= 86399 {
            Some(UtcOffset { seconds })
        } else {
            None
        }
    }

    /// The offset as a whole-second count.
    pub fn whole_seconds(&self) -> (r: i32)
        ensures
            r == self.seconds,
    {
        self.seconds
    }
}

/// A calendar date with a time of day and no attached offset.
#[derive(Clone, Copy, Debug, PartialEq, Eq, Structural)]
pub struct PrimitiveDateTime {
    pub date: Date,
    pub time: Time,
}

impl PrimitiveDateTime {
    /// Both halves are in the native ranges.
    pub open spec fn wf(self) -> bool {
        self.date.wf() && self.time.wf()
    }

    /// A naive date-time from its two halves.
    pub fn new(date: Date, time: Time) -> (r: PrimitiveDateTime)
        ensures
            r.date == date,
            r.time == time,
    {
        PrimitiveDateTime { date, time }
    }

    /// The calendar date.
    pub fn date(&self) -> (r: Date)
        ensures
            r == self.date,
    {
        self.date
    }

    /// The time of day.
    pub fn time(&self) -> (r: Time)
        ensures
            r == self.time,
    {
        self.time
    }

    /// The same wall-clock value interpreted in the given fixed offset.
    pub fn assume_offset(self, offset: UtcOffset) -> (r: OffsetDateTime)
        ensures
            r.datetime == self,
            r.offset == offset,
    {
        OffsetDateTime { datetime: self, offset }
    }
}

/// A date-time together with the fixed UTC offset it is expressed in.
#[derive(Clone, Copy, Debug, PartialEq, Eq, Structural)]
pub struct OffsetDateTime {
    pub datetime: PrimitiveDateTime,
    pub offset: UtcOffset,
}

impl OffsetDateTime {
    /// Both the wall-clock value and the offset are in the native ranges.
    pub open spec fn wf(self) -> bool {
        self.datetime.wf() && self.offset.wf()
    }

    /// The calendar date.
    pub fn date(&self) -> (r: Date)
        ensures
            r == self.datetime.date,
    {
        self.datetime.date
    }

    /// The time of day.
    pub fn time(&self) -> (r: Time)
        ensures
            r == self.datetime.time,
    {
        self.datetime.time
    }

    /// The fixed UTC offset.
    pub fn offset(&self) -> (r: UtcOffset)
        ensures
            r == self.offset,
    {
        self.offset
    }
}

} // verus!
