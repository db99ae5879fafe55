//! Runs of a cron expression.

use std::str::FromStr;

use chrono::{DateTime, FixedOffset};
use cron::Schedule;
use vstd::prelude::*;

use crate::clock::{EARLIEST_INSTANT, LATEST_INSTANT, MICROS_PER_SECOND};

verus! {

/// Whether `cron::Schedule::from_str` accepts an expression.
pub uninterp spec fn cron_accepts(expression: Seq<char>) -> bool;

/// The first item of `cron::Schedule::after` for an accepted expression, in
/// microseconds since the Unix epoch.  The expression is read in the zone that
/// lies `east` seconds east of UTC, and `start` is in microseconds too.
pub uninterp spec fn cron_run_after(expression: Seq<char>, east: int, start: int) -> Option<int>;

/// What `cron` says of an expression that it does not accept.
pub open spec fn cron_complaint() -> Seq<char> {
    "Invalid expression: Invalid cron expression."@
}

/// Whether the search for a run may begin at an instant: chrono represents it
/// and the second after it.
pub open spec fn searchable(start: int) -> bool {
    EARLIEST_INSTANT <= start <= LATEST_INSTANT - MICROS_PER_SECOND
}

/// Whether an offset in minutes is one of a time zone: less than a day either way.
pub open spec fn is_zone_offset(tz_offset: int) -> bool {
    -1440 < tz_offset < 1440
}

/// `cron::Schedule::from_str`, with the schedule left out and the error as the
/// text that it displays.
///
/// Claimed: whether an expression is accepted depends on the expression alone,
/// and every expression that is not accepted gets the same complaint.
#[verifier::external_body]
pub(crate) fn check_cron(expression: &str) -> (checked: Result<(), String>)
    ensures
        checked is Ok <==> cron_accepts(expression@),
        checked matches Err(complaint) ==> complaint@ == cron_complaint(),
{
    match Schedule::from_str(expression) {
        Ok(_) => Ok(()),
        Err(error) => Err(error.to_string()),
    }
}

/// `cron::Schedule::after` and the first `next` of its iterator, on the schedule
/// of an accepted expression, from an instant in a `chrono::FixedOffset` zone.
///
/// Claimed: the run depends on the three arguments alone, it is later than
/// `start`, and chrono represents it.
#[verifier::external_body]
pub(crate) fn next_cron_run(expression: &str, east: i32, start: i64) -> (run: Option<i64>)
    requires
        cron_accepts(expression@),
        -86_400 < east < 86_400,
        searchable(start as int),
    ensures
        crate::clock::as_int(run) == cron_run_after(expression@, east as int, start as int),
        run matches Some(run) ==> start < run <= LATEST_INSTANT,
{
    let zone = FixedOffset::east_opt(east).unwrap();
    let start = DateTime::from_timestamp_micros(start).unwrap().with_timezone(&zone);
    let schedule = Schedule::from_str(expression).unwrap();
    schedule.after(&start).next().map(|run| run.timestamp_micros())
}

} // verus!
