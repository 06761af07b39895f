//! Bidirectional conversions between a native date/time value model (signed
//! durations, proleptic-Gregorian calendar dates, nanosecond-resolution times
//! of day, naive and offset-aware date-times, fixed UTC offsets) and the
//! datetime object model of an embedding host runtime (deltas, dates, times,
//! date-times and fixed-offset timezone objects, all reduced to their plain
//! integer fields).
//!
//! Every conversion is a pure, bounded computation: it either returns a fresh
//! value or reports a typed error. The one piece of lossy behaviour — the
//! collapse of a stored leap second, which the host model cannot represent —
//! is downgraded to a warning delivered through a best-effort warning sink.

use vstd::prelude::*;

pub mod convert;
pub mod host;
pub mod laws;
pub mod native;

verus! {

/// The ways a conversion between the native model and the host model fails.
///
/// Every failure is reported synchronously; no conversion panics.
#[derive(Clone, Copy, Debug, PartialEq, Eq, Structural)]
pub enum BridgeError {
    /// The host value is not an instance of the expected host kind.
    /// Carries the kind that was expected.
    TypeMismatch(crate::host::PyKind),
    /// A host delta could not be built: the normalized day count would leave
    /// the host's representable range.
    DeltaRangeExceeded,
    /// A host month number does not name a month (it is outside 1..=12).
    InvalidMonth,
    /// Host date fields do not form a valid calendar date in the native range.
    InvalidDate,
    /// Host time fields are rejected by the native time-of-day constructor.
    InvalidTime,
    /// The host timezone constructor rejects the offset delta: a fixed-offset
    /// timezone must lie strictly between minus and plus one day.
    TimezoneOffsetNotInRange,
    /// A naive date-time was requested but the host date-time carries an
    /// offset ("expected a datetime without tzinfo").
    ExpectedNaiveDatetime,
    /// An offset-aware date-time was requested but the host date-time carries
    /// none ("expected a datetime with non-None tzinfo").
    ExpectedAwareDatetime,
    /// The host timezone needs a concrete instant to compute its offset, so
    /// it cannot be reduced to a fixed whole-second offset.
    NotFixedOffsetTimezone,
    /// The queried offset does not fit the native fixed-offset range.
    FixedOffsetOutOfBounds,
}

} // verus!
