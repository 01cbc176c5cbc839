//! Resolution of epoch seconds into calendar instants.

use vstd::prelude::*;

use chrono::DateTime;
use chrono::Datelike;
use chrono::Timelike;

verus! {

/// A point in time on the proleptic Gregorian calendar, in UTC.
///
/// The calendar fields and `epoch_seconds` describe the same instant;
/// `nanosecond` is the part of it below one second.
#[derive(Clone, Copy, Debug, PartialEq, Eq)]
pub struct CalendarInstant {
    /// Whole seconds since 1970-01-01T00:00:00Z; negative before it.
    pub epoch_seconds: i64,
    pub year: i32,
    /// Month of the year, counted from 1.
    pub month: u32,
    /// Day of the month, counted from 1.
    pub day: u32,
    pub hour: u32,
    pub minute: u32,
    pub second: u32,
    pub nanosecond: u32,
}

/// Earliest epoch second that has a calendar instant: midnight of 1 January
/// of the year -262143.
pub const MIN_EPOCH_SECONDS: i64 = -8_334_601_228_800;

/// Latest epoch second that has a calendar instant: the last second of
/// 31 December of the year 262142.
pub const MAX_EPOCH_SECONDS: i64 = 8_210_266_876_799;

/// Whether `seconds` lies inside the span of representable calendar instants.
pub open spec fn representable(seconds: i64) -> bool {
    MIN_EPOCH_SECONDS <= seconds <= MAX_EPOCH_SECONDS
}

/// The calendar instant that lies `seconds` whole seconds after the Unix
/// epoch, where the calendar reaches that far.
pub uninterp spec fn calendar_at(seconds: i64) -> Option<CalendarInstant>;

/// Whether `origin` is what resolving the epoch second `received` gives: the
/// calendar instant of that second, with no sub-second part, where the second
/// is representable, and nothing where it is not.
pub open spec fn resolves(received: i64, origin: Option<CalendarInstant>) -> bool {
    &&& origin == calendar_at(received)
    &&& origin.is_some() <==> representable(received)
    &&& origin matches Some(instant) ==> instant.epoch_seconds == received && instant.nanosecond
        == 0
}

/// Calls `chrono::DateTime::from_timestamp(seconds, 0)` and reads the calendar
/// fields off the instant it returns.
///
/// Trusted, on the strength of chrono's source:
/// - the outcome is a function of `seconds` alone;
/// - there is an instant exactly when the day that `seconds` falls on lies
///   between the first day of year -262143 and the last day of year 262142,
///   the bounds of chrono's date type;
/// - the instant's own epoch seconds are `seconds` again, and it has no
///   sub-second part.
#[verifier::external_body]
fn instant_from_epoch(seconds: i64) -> (r: Option<CalendarInstant>)
    ensures
        r == calendar_at(seconds),
        r.is_some() <==> representable(seconds),
        r matches Some(t) ==> t.epoch_seconds == seconds && t.nanosecond == 0,
{
    DateTime::from_timestamp(seconds, 0).map(|t| CalendarInstant {
        epoch_seconds: t.timestamp(),
        year: t.year(),
        month: t.month(),
        day: t.day(),
        hour: t.hour(),
        minute: t.minute(),
        second: t.second(),
        nanosecond: t.nanosecond(),
    })
}

/// Resolves the received time of an event into a calendar instant with no
/// sub-second part.
///
/// An epoch second outside the representable span resolves to `None`: an
/// extreme timestamp leaves the instant absent instead of failing.
pub fn resolve_timestamp(received: i64) -> (r: Option<CalendarInstant>)
    ensures
        resolves(received, r),
{
    instant_from_epoch(received)
}

} // verus!
