//! When a trigger runs next.

use vstd::prelude::*;

use crate::clock::{
    as_int, days_in_micros, hours_in_micros, instant_after, later, minutes_in_micros,
    seconds_in_micros, span, weeks_in_micros, EARLIEST_INSTANT, LATEST_INSTANT, MICROS_PER_DAY,
    MICROS_PER_HOUR, MICROS_PER_MINUTE, MICROS_PER_SECOND, MICROS_PER_WEEK,
};
use crate::cron_schedule::{
    check_cron, cron_accepts, cron_complaint, cron_run_after, is_zone_offset, next_cron_run,
    searchable,
};
use crate::outcome::Fault;
use crate::types::{
    FrequencyType, Report, ReportFrequencyType, ReportView, TriggerCondition, TriggerConditionView,
};

verus! {

/// The next run of a trigger.
#[derive(Debug, PartialEq, Eq)]
pub enum NextRun {
    /// It is at this instant.
    At(i64),
    /// The cron expression is not one, with the complaint of the parser.
    Refused(String),
    /// There is none.
    Broken(Fault),
}

#[verifier::ext_equal]
pub enum NextRunView {
    At(int),
    Refused(Seq<char>),
    Broken(Fault),
}

impl View for NextRun {
    type V = NextRunView;

    open spec fn view(&self) -> NextRunView {
        match self {
            NextRun::At(instant) => NextRunView::At(*instant as int),
            NextRun::Refused(complaint) => NextRunView::Refused(complaint@),
            NextRun::Broken(fault) => NextRunView::Broken(*fault),
        }
    }
}

/// The unit in which a frequency is given.
#[derive(Debug, Clone, Copy, PartialEq, Eq, Structural)]
pub enum FrequencyUnit {
    Seconds,
    Minutes,
}

impl FrequencyUnit {
    /// How many microseconds the unit has.
    pub open spec fn micros(self) -> int {
        match self {
            FrequencyUnit::Seconds => MICROS_PER_SECOND as int,
            FrequencyUnit::Minutes => MICROS_PER_MINUTE as int,
        }
    }
}

/// A run an interval after `start`.
pub open spec fn run_in(start: int, interval: Option<int>) -> NextRunView {
    match later(start, interval) {
        Some(instant) => NextRunView::At(instant),
        None => NextRunView::Broken(Fault::TimeOutOfRange),
    }
}

/// The first run of a cron expression after `start`, in the zone `tz_offset`
/// minutes east of UTC.
pub open spec fn cron_run(
    expression: Seq<char>,
    tz_offset: int,
    start: Option<int>,
) -> NextRunView {
    if !cron_accepts(expression) {
        NextRunView::Refused(cron_complaint())
    } else if start is None || !searchable(start->0) {
        NextRunView::Broken(Fault::TimeOutOfRange)
    } else if !is_zone_offset(tz_offset) {
        NextRunView::Broken(Fault::OffsetOutOfRange)
    } else {
        match cron_run_after(expression, tz_offset * 60, start->0) {
            Some(instant) => NextRunView::At(instant),
            None => NextRunView::Broken(Fault::NoFurtherRun),
        }
    }
}

/// Whether a trigger falls silent after a run: its conditions hold, and it has a silence.
pub open spec fn falls_silent(condition: TriggerConditionView, satisfied: bool) -> bool {
    satisfied && condition.silence > 0
}

/// The next run of an alert or of a derived stream that was evaluated.
///
/// `base` is the instant at which the handling began to reschedule it, and
/// `now` the instant after the evaluation.  A trigger that falls silent runs
/// next when its silence is over: by its cron expression, the first time after
/// that.  Any other runs by its cron expression or after its frequency.
pub open spec fn run_by_condition(
    condition: TriggerConditionView,
    tz_offset: int,
    unit: FrequencyUnit,
    satisfied: bool,
    base: int,
    now: int,
) -> NextRunView {
    let silence = span(condition.silence, MICROS_PER_MINUTE as int);
    let frequency = span(condition.frequency, unit.micros());
    match condition.frequency_type {
        FrequencyType::Cron => if falls_silent(condition, satisfied) {
            cron_run(condition.cron, tz_offset, later(now, silence))
        } else {
            cron_run(condition.cron, tz_offset, Some(now))
        },
        FrequencyType::Interval => if falls_silent(condition, satisfied) {
            run_in(base, silence)
        } else {
            run_in(base, frequency)
        },
    }
}

/// A week after `now`, where that is in range.
pub open spec fn week_after(now: int) -> Option<int> {
    later(now, span(7, MICROS_PER_DAY as int))
}

/// The next run of a report.  A month has thirty days; a report that is sent
/// once is looked at again in a week.
pub open spec fn run_of_report(report: ReportView, now: int) -> NextRunView {
    let interval = report.frequency.interval;
    match report.frequency.frequency_type {
        ReportFrequencyType::Hours => run_in(now, span(interval, MICROS_PER_HOUR as int)),
        ReportFrequencyType::Days => run_in(now, span(interval, MICROS_PER_DAY as int)),
        ReportFrequencyType::Weeks => run_in(now, span(interval, MICROS_PER_WEEK as int)),
        ReportFrequencyType::Months => run_in(now, span(interval * 30, MICROS_PER_DAY as int)),
        ReportFrequencyType::Once => run_in(now, span(7, MICROS_PER_DAY as int)),
        ReportFrequencyType::Cron => cron_run(report.frequency.cron, report.tz_offset, Some(now)),
    }
}

/// A run an interval after `start`.
fn next_in(start: i64, interval: Option<i64>) -> (next: NextRun)
    ensures
        next@ == run_in(start as int, as_int(interval)),
{
    match instant_after(start, interval) {
        Some(instant) => NextRun::At(instant),
        None => NextRun::Broken(Fault::TimeOutOfRange),
    }
}

/// The first run of a cron expression after `start`, in the zone `tz_offset`
/// minutes east of UTC.  A run is always later than `start`.
pub fn next_by_cron(expression: &str, tz_offset: i32, start: Option<i64>) -> (next: NextRun)
    ensures
        next@ == cron_run(expression@, tz_offset as int, as_int(start)),
        next matches NextRun::At(instant) ==> start matches Some(start) && start < instant,
{
    if let Err(complaint) = check_cron(expression) {
        return NextRun::Refused(complaint);
    }
    match start {
        None => NextRun::Broken(Fault::TimeOutOfRange),
        Some(start) => if start < EARLIEST_INSTANT || start > LATEST_INSTANT - MICROS_PER_SECOND {
            NextRun::Broken(Fault::TimeOutOfRange)
        } else if tz_offset <= -1440 || tz_offset >= 1440 {
            NextRun::Broken(Fault::OffsetOutOfRange)
        } else {
            match next_cron_run(expression, tz_offset * 60, start) {
                Some(instant) => NextRun::At(instant),
                None => NextRun::Broken(Fault::NoFurtherRun),
            }
        },
    }
}

/// The next run of an alert or of a derived stream that was evaluated.
///
/// By a cron expression it is later than `now`, and later than the end of the
/// silence where the trigger falls silent.
pub fn next_by_condition(
    condition: &TriggerCondition,
    tz_offset: i32,
    unit: FrequencyUnit,
    satisfied: bool,
    base: i64,
    now: i64,
) -> (next: NextRun)
    ensures
        next@ == run_by_condition(
            condition@,
            tz_offset as int,
            unit,
            satisfied,
            base as int,
            now as int,
        ),
        condition.frequency_type == FrequencyType::Cron ==> (next matches NextRun::At(instant)
            ==> now < instant),
        condition.frequency_type == FrequencyType::Cron && falls_silent(condition@, satisfied) ==> (
        next matches NextRun::At(instant) ==> now + condition.silence * MICROS_PER_MINUTE
            < instant),
{
    if satisfied && condition.silence > 0 {
        let silence = minutes_in_micros(condition.silence);
        match condition.frequency_type {
            FrequencyType::Cron => {
                assert(condition.silence * MICROS_PER_MINUTE > 0) by (nonlinear_arith)
                    requires
                        condition.silence > 0,
                        MICROS_PER_MINUTE == 60_000_000,
                ;
                next_by_cron(condition.cron.as_str(), tz_offset, instant_after(now, silence))
            },
            FrequencyType::Interval => next_in(base, silence),
        }
    } else {
        match condition.frequency_type {
            FrequencyType::Cron => next_by_cron(condition.cron.as_str(), tz_offset, Some(now)),
            FrequencyType::Interval => match unit {
                FrequencyUnit::Seconds => next_in(base, seconds_in_micros(condition.frequency)),
                FrequencyUnit::Minutes => next_in(base, minutes_in_micros(condition.frequency)),
            },
        }
    }
}

/// A week after `now`, where that is in range.
pub fn next_week(now: i64) -> (instant: Option<i64>)
    ensures
        as_int(instant) == week_after(now as int),
{
    instant_after(now, days_in_micros(7))
}

/// The next run of a report.  By a cron expression it is later than `now`.
pub fn next_of_report(report: &Report, now: i64) -> (next: NextRun)
    ensures
        next@ == run_of_report(report@, now as int),
        report.frequency.frequency_type == ReportFrequencyType::Cron ==> (
        next matches NextRun::At(instant) ==> now < instant),
{
    let interval = report.frequency.interval;
    match report.frequency.frequency_type {
        ReportFrequencyType::Hours => next_in(now, hours_in_micros(interval)),
        ReportFrequencyType::Days => next_in(now, days_in_micros(interval)),
        ReportFrequencyType::Weeks => next_in(now, weeks_in_micros(interval)),
        ReportFrequencyType::Months => match interval.checked_mul(30) {
            Some(days) => next_in(now, days_in_micros(days)),
            None => NextRun::Broken(Fault::TimeOutOfRange),
        },
        ReportFrequencyType::Once => next_in(now, days_in_micros(7)),
        ReportFrequencyType::Cron => next_by_cron(
            report.frequency.cron.as_str(),
            report.tz_offset,
            Some(now),
        ),
    }
}

/// A trigger that runs at intervals runs next after `base`, where the interval
/// that counts is positive: its silence if it falls silent, its frequency if not.
pub proof fn law_interval_lies_ahead(
    condition: TriggerConditionView,
    tz_offset: int,
    unit: FrequencyUnit,
    satisfied: bool,
    base: int,
    now: int,
)
    requires
        condition.frequency_type == FrequencyType::Interval,
        falls_silent(condition, satisfied) || condition.frequency > 0,
    ensures
        run_by_condition(condition, tz_offset, unit, satisfied, base, now) matches NextRunView::At(
            instant,
        ) ==> base < instant,
{
    if falls_silent(condition, satisfied) {
        lemma_span_is_positive(condition.silence, MICROS_PER_MINUTE as int);
    } else {
        lemma_span_is_positive(condition.frequency, unit.micros());
    }
}

/// A report with a positive interval, and one that is sent once, runs next
/// after `now`.
pub proof fn law_report_lies_ahead(report: ReportView, now: int)
    requires
        report.frequency.frequency_type != ReportFrequencyType::Cron,
        report.frequency.frequency_type == ReportFrequencyType::Once || report.frequency.interval
            > 0,
    ensures
        run_of_report(report, now) matches NextRunView::At(instant) ==> now < instant,
{
    let interval = report.frequency.interval;
    match report.frequency.frequency_type {
        ReportFrequencyType::Hours => lemma_span_is_positive(interval, MICROS_PER_HOUR as int),
        ReportFrequencyType::Days => lemma_span_is_positive(interval, MICROS_PER_DAY as int),
        ReportFrequencyType::Weeks => lemma_span_is_positive(interval, MICROS_PER_WEEK as int),
        ReportFrequencyType::Months => lemma_span_is_positive(
            interval * 30,
            MICROS_PER_DAY as int,
        ),
        _ => lemma_span_is_positive(7, MICROS_PER_DAY as int),
    }
}

proof fn lemma_span_is_positive(count: int, unit: int)
    requires
        count > 0,
        unit > 0,
    ensures
        span(count, unit) matches Some(micros) ==> micros > 0,
{
    assert(count * unit > 0) by (nonlinear_arith)
        requires
            count > 0,
            unit > 0,
    ;
}

/// A trigger that runs at intervals runs next at exactly `base` and its silence
/// in minutes, whatever its frequency, where its conditions hold and its silence
/// is positive.  Otherwise it runs next at exactly `base` and its frequency, in
/// seconds or in minutes, whatever its silence.  It has no next run if and only
/// if one of these does not fit a signed 64-bit integer.
pub proof fn law_interval_is_the_silence_or_the_frequency(
    condition: TriggerConditionView,
    tz_offset: int,
    unit: FrequencyUnit,
    satisfied: bool,
    base: int,
    now: int,
)
    requires
        condition.frequency_type == FrequencyType::Interval,
    ensures
        ({
            let interval = if satisfied && condition.silence > 0 {
                condition.silence * 60_000_000
            } else if unit == FrequencyUnit::Seconds {
                condition.frequency * 1_000_000
            } else {
                condition.frequency * 60_000_000
            };
            run_by_condition(condition, tz_offset, unit, satisfied, base, now) == if i64::MIN
                <= interval <= i64::MAX && i64::MIN <= base + interval <= i64::MAX {
                NextRunView::At(base + interval)
            } else {
                NextRunView::Broken(Fault::TimeOutOfRange)
            }
        }),
{
}

/// The first run of a cron expression is the one after `start` in the zone
/// `tz_offset` minutes east of UTC.  It is refused if and only if it is not an
/// expression; the start must be an instant that chrono represents with the
/// second after it, and the zone must lie less than a day from UTC.
pub proof fn law_cron_run_is_the_first_in_its_zone(
    expression: Seq<char>,
    tz_offset: int,
    start: int,
)
    ensures
        ({
            let run = cron_run(expression, tz_offset, Some(start));
            &&& !cron_accepts(expression) <==> run == NextRunView::Refused(
                "Invalid expression: Invalid cron expression."@,
            )
            &&& cron_accepts(expression) ==> if !(-8_334_601_228_800_000_000 <= start
                <= 8_210_266_876_798_999_999) {
                run == NextRunView::Broken(Fault::TimeOutOfRange)
            } else if !(-1440 < tz_offset < 1440) {
                run == NextRunView::Broken(Fault::OffsetOutOfRange)
            } else {
                match cron_run_after(expression, tz_offset * 60, start) {
                    Some(instant) => run == NextRunView::At(instant),
                    None => run == NextRunView::Broken(Fault::NoFurtherRun),
                }
            }
            &&& cron_accepts(expression) ==> cron_run(expression, tz_offset, None)
                == NextRunView::Broken(Fault::TimeOutOfRange)
            &&& !cron_accepts(expression) ==> cron_run(expression, tz_offset, None)
                == NextRunView::Refused("Invalid expression: Invalid cron expression."@)
        }),
{
}

/// A trigger that runs by a cron expression runs next at the first run of its
/// expression, in its own zone: after `now` and its silence in minutes where its
/// conditions hold and its silence is positive, and after `now` otherwise.
pub proof fn law_cron_starts_after_the_silence(
    condition: TriggerConditionView,
    tz_offset: int,
    unit: FrequencyUnit,
    satisfied: bool,
    base: int,
    now: int,
    instant: int,
)
    requires
        condition.frequency_type == FrequencyType::Cron,
        i64::MIN <= condition.silence * 60_000_000 <= i64::MAX,
    ensures
        ({
            let start = if satisfied && condition.silence > 0 {
                now + condition.silence * 60_000_000
            } else {
                now
            };
            let run = run_by_condition(condition, tz_offset, unit, satisfied, base, now);
            &&& run == NextRunView::At(instant) <==> {
                &&& cron_accepts(condition.cron)
                &&& -8_334_601_228_800_000_000 <= start <= 8_210_266_876_798_999_999
                &&& -1440 < tz_offset < 1440
                &&& cron_run_after(condition.cron, tz_offset * 60, start) == Some(instant)
            }
            &&& run is Refused <==> !cron_accepts(condition.cron)
            &&& run matches NextRunView::Refused(complaint) ==> complaint
                == "Invalid expression: Invalid cron expression."@
            &&& run matches NextRunView::Broken(fault) ==> fault == if !(
            -8_334_601_228_800_000_000 <= start <= 8_210_266_876_798_999_999) {
                Fault::TimeOutOfRange
            } else if !(-1440 < tz_offset < 1440) {
                Fault::OffsetOutOfRange
            } else {
                Fault::NoFurtherRun
            }
        }),
{
}

/// A silence that does not fit a signed 64-bit integer in microseconds leaves a
/// trigger by a cron expression without a next run.
pub proof fn law_silence_without_end_has_no_cron_run(
    condition: TriggerConditionView,
    tz_offset: int,
    unit: FrequencyUnit,
    base: int,
    now: int,
)
    requires
        condition.frequency_type == FrequencyType::Cron,
        cron_accepts(condition.cron),
        condition.silence * 60_000_000 > i64::MAX,
    ensures
        run_by_condition(condition, tz_offset, unit, true, base, now) == NextRunView::Broken(
            Fault::TimeOutOfRange,
        ),
{
}

/// A week is seven days of 86,400 seconds.
pub proof fn law_week_has_seven_days(now: int)
    ensures
        week_after(now) == if i64::MIN <= now + 604_800_000_000 <= i64::MAX {
            Some(now + 604_800_000_000)
        } else {
            None
        },
{
}

/// A report runs next at exactly `now` and its interval in hours, days, weeks or
/// months of thirty days; one that is sent once, a week after `now`, whatever its
/// interval.  It has no next run if and only if one of these does not fit a
/// signed 64-bit integer.
pub proof fn law_report_interval_is_exact(report: ReportView, now: int)
    requires
        report.frequency.frequency_type != ReportFrequencyType::Cron,
    ensures
        ({
            let interval = match report.frequency.frequency_type {
                ReportFrequencyType::Hours => report.frequency.interval * 3_600_000_000,
                ReportFrequencyType::Days => report.frequency.interval * 86_400_000_000,
                ReportFrequencyType::Weeks => report.frequency.interval * 604_800_000_000,
                ReportFrequencyType::Months => report.frequency.interval * 2_592_000_000_000,
                _ => 604_800_000_000,
            };
            run_of_report(report, now) == if i64::MIN <= interval <= i64::MAX && i64::MIN <= now
                + interval <= i64::MAX {
                NextRunView::At(now + interval)
            } else {
                NextRunView::Broken(Fault::TimeOutOfRange)
            }
        }),
{
}

/// A report that runs by a cron expression runs next at the first run of its
/// expression after `now`, in its own zone, whatever its interval.
pub proof fn law_report_cron_is_read_in_its_zone(report: ReportView, now: int, instant: int)
    requires
        report.frequency.frequency_type == ReportFrequencyType::Cron,
    ensures
        ({
            let run = run_of_report(report, now);
            &&& run == NextRunView::At(instant) <==> {
                &&& cron_accepts(report.frequency.cron)
                &&& -8_334_601_228_800_000_000 <= now <= 8_210_266_876_798_999_999
                &&& -1440 < report.tz_offset < 1440
                &&& cron_run_after(report.frequency.cron, report.tz_offset * 60, now) == Some(
                    instant,
                )
            }
            &&& run is Refused <==> !cron_accepts(report.frequency.cron)
            &&& run matches NextRunView::Refused(complaint) ==> complaint
                == "Invalid expression: Invalid cron expression."@
            &&& run matches NextRunView::Broken(fault) ==> fault == if !(
            -8_334_601_228_800_000_000 <= now <= 8_210_266_876_798_999_999) {
                Fault::TimeOutOfRange
            } else if !(-1440 < report.tz_offset < 1440) {
                Fault::OffsetOutOfRange
            } else {
                Fault::NoFurtherRun
            }
        }),
{
}

/// The view of a next run holds its instant, its complaint or its fault.
pub proof fn law_next_run_view_is_faithful(instant: i64, complaint: String, fault: Fault)
    ensures
        NextRun::At(instant)@ == NextRunView::At(instant as int),
        NextRun::Refused(complaint)@ == NextRunView::Refused(complaint@),
        NextRun::Broken(fault)@ == NextRunView::Broken(fault),
{
}

} // verus!
