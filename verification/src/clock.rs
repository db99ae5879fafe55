//! Instants and spans of time, in microseconds.

use chrono::{Duration, Utc};
use vstd::prelude::*;

verus! {

pub const MICROS_PER_SECOND: i64 = 1_000_000;

pub const MICROS_PER_MINUTE: i64 = 60_000_000;

pub const MICROS_PER_HOUR: i64 = 3_600_000_000;

pub const MICROS_PER_DAY: i64 = 86_400_000_000;

pub const MICROS_PER_WEEK: i64 = 604_800_000_000;

/// The first instant that chrono represents, in microseconds since the Unix epoch.
pub const EARLIEST_INSTANT: i64 = -8_334_601_228_800_000_000;

/// The last instant that chrono represents, in microseconds since the Unix epoch.
pub const LATEST_INSTANT: i64 = 8_210_266_876_799_999_999;

/// Whether a number fits a signed 64-bit integer.
pub open spec fn fits_i64(number: int) -> bool {
    i64::MIN <= number <= i64::MAX
}

/// `count` units of `unit` microseconds each, where that fits a signed 64-bit integer.
pub open spec fn span(count: int, unit: int) -> Option<int> {
    if fits_i64(count * unit) {
        Some(count * unit)
    } else {
        None
    }
}

/// The instant `delta` after `start`, where that fits a signed 64-bit integer.
pub open spec fn later(start: int, delta: Option<int>) -> Option<int> {
    match delta {
        Some(delta) => if fits_i64(start + delta) {
            Some(start + delta)
        } else {
            None
        },
        None => None,
    }
}

/// An optional machine integer as a mathematical one.
pub open spec fn as_int(number: Option<i64>) -> Option<int> {
    match number {
        Some(number) => Some(number as int),
        None => None,
    }
}

/// Reads the system clock: `chrono::Utc::now`, then `DateTime::timestamp_micros`.
///
/// Claimed: the reading is not before the Unix epoch and is an instant that
/// chrono represents; on a clock set to before the epoch the call panics.  Two
/// calls may differ in any way.
#[verifier::external_body]
pub(crate) fn utc_now() -> (now: i64)
    ensures
        0 <= now <= LATEST_INSTANT,
{
    Utc::now().timestamp_micros()
}

/// `chrono::Duration::try_seconds`, then `Duration::num_microseconds`.
///
/// Claimed: the number of microseconds in that many seconds, and `None` exactly
/// where it does not fit.
#[verifier::external_body]
pub(crate) fn seconds_in_micros(count: i64) -> (micros: Option<i64>)
    ensures
        as_int(micros) == span(count as int, MICROS_PER_SECOND as int),
{
    Duration::try_seconds(count)?.num_microseconds()
}

/// `chrono::Duration::try_minutes`, then `Duration::num_microseconds`.
///
/// Claimed: the number of microseconds in that many minutes, and `None` exactly
/// where it does not fit.
#[verifier::external_body]
pub(crate) fn minutes_in_micros(count: i64) -> (micros: Option<i64>)
    ensures
        as_int(micros) == span(count as int, MICROS_PER_MINUTE as int),
{
    Duration::try_minutes(count)?.num_microseconds()
}

/// `chrono::Duration::try_hours`, then `Duration::num_microseconds`.
///
/// Claimed: the number of microseconds in that many hours, and `None` exactly
/// where it does not fit.
#[verifier::external_body]
pub(crate) fn hours_in_micros(count: i64) -> (micros: Option<i64>)
    ensures
        as_int(micros) == span(count as int, MICROS_PER_HOUR as int),
{
    Duration::try_hours(count)?.num_microseconds()
}

/// `chrono::Duration::try_days`, then `Duration::num_microseconds`.
///
/// Claimed: the number of microseconds in that many days, and `None` exactly
/// where it does not fit.
#[verifier::external_body]
pub(crate) fn days_in_micros(count: i64) -> (micros: Option<i64>)
    ensures
        as_int(micros) == span(count as int, MICROS_PER_DAY as int),
{
    Duration::try_days(count)?.num_microseconds()
}

/// `chrono::Duration::try_weeks`, then `Duration::num_microseconds`.
///
/// Claimed: the number of microseconds in that many weeks, and `None` exactly
/// where it does not fit.
#[verifier::external_body]
pub(crate) fn weeks_in_micros(count: i64) -> (micros: Option<i64>)
    ensures
        as_int(micros) == span(count as int, MICROS_PER_WEEK as int),
{
    Duration::try_weeks(count)?.num_microseconds()
}

/// The instant `delta` after `start`, or `None` where either does not fit.
pub fn instant_after(start: i64, delta: Option<i64>) -> (instant: Option<i64>)
    ensures
        as_int(instant) == later(start as int, as_int(delta)),
{
    match delta {
        Some(delta) => start.checked_add(delta),
        None => None,
    }
}

/// A span is its count times its unit, and an instant after another is their
/// sum, each of them wherever it fits a signed 64-bit integer and nowhere else.
pub proof fn law_time_adds_up(start: int, count: int, unit: int)
    ensures
        span(count, unit) == if i64::MIN <= count * unit <= i64::MAX {
            Some(count * unit)
        } else {
            None
        },
        later(start, Some(count)) == if i64::MIN <= start + count <= i64::MAX {
            Some(start + count)
        } else {
            None
        },
        later(start, None) is None,
{
}

/// An optional machine integer keeps its value.
pub proof fn law_integer_keeps_its_value(number: i64)
    ensures
        as_int(Some(number)) == Some(number as int),
        as_int(None) is None,
{
}

} // verus!
