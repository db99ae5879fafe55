use chrono::{DateTime, Utc};
use trigger_scheduler::clock::{
    instant_after, EARLIEST_INSTANT, LATEST_INSTANT, MICROS_PER_DAY, MICROS_PER_HOUR,
    MICROS_PER_MINUTE, MICROS_PER_SECOND, MICROS_PER_WEEK,
};
use trigger_scheduler::outcome::Fault;
use trigger_scheduler::plan::{
    next_by_condition, next_by_cron, next_of_report, next_week, FrequencyUnit, NextRun,
};
use trigger_scheduler::types::{
    FrequencyType, Report, ReportFrequency, ReportFrequencyType, TriggerCondition,
};

/// 2023-11-14 22:13:20 UTC.
const NOW: i64 = 1_700_000_000_000_000;

fn condition(frequency_type: FrequencyType, frequency: i64, cron: &str, silence: i64) -> TriggerCondition {
    TriggerCondition { period: 10, frequency, frequency_type, cron: cron.to_string(), silence }
}

fn report(frequency_type: ReportFrequencyType, interval: i64, cron: &str, tz_offset: i32) -> Report {
    Report {
        enabled: true,
        frequency: ReportFrequency { frequency_type, interval, cron: cron.to_string() },
        tz_offset,
    }
}

#[test]
fn instants_have_the_bounds_of_chrono() {
    assert_eq!(EARLIEST_INSTANT, DateTime::<Utc>::MIN_UTC.timestamp_micros());
    assert_eq!(LATEST_INSTANT, DateTime::<Utc>::MAX_UTC.timestamp_micros());
}

#[test]
fn units_are_multiples_of_each_other() {
    assert_eq!(MICROS_PER_MINUTE, 60 * MICROS_PER_SECOND);
    assert_eq!(MICROS_PER_HOUR, 60 * MICROS_PER_MINUTE);
    assert_eq!(MICROS_PER_DAY, 24 * MICROS_PER_HOUR);
    assert_eq!(MICROS_PER_WEEK, 7 * MICROS_PER_DAY);
}

#[test]
fn instant_after_checks_its_range() {
    assert_eq!(instant_after(5, Some(7)), Some(12));
    assert_eq!(instant_after(5, None), None);
    assert_eq!(instant_after(i64::MAX, Some(1)), None);
    assert_eq!(instant_after(i64::MIN, Some(-1)), None);
}

#[test]
fn cron_runs_at_the_full_hour() {
    let next = next_by_cron("0 0 * * * *", 0, Some(NOW));
    assert_eq!(next, NextRun::At(1_700_002_800_000_000));
}

#[test]
fn cron_runs_in_its_zone() {
    let next = next_by_cron("0 0 * * * *", 330, Some(NOW));
    assert_eq!(next, NextRun::At(1_700_001_000_000_000));
    let next = next_by_cron("0 0 0 * * *", 0, Some(NOW));
    assert_eq!(next, NextRun::At(1_700_006_400_000_000));
    let next = next_by_cron("0 0 0 * * *", -480, Some(NOW));
    assert_eq!(next, NextRun::At(1_700_035_200_000_000));
}

#[test]
fn cron_run_is_later_than_its_start() {
    let on_the_hour = 1_700_002_800_000_000;
    let next = next_by_cron("0 0 * * * *", 0, Some(on_the_hour));
    assert_eq!(next, NextRun::At(on_the_hour + MICROS_PER_HOUR));
    let next = next_by_cron("0 0 * * * *", 0, Some(on_the_hour - 1));
    assert_eq!(next, NextRun::At(on_the_hour));
}

#[test]
fn cron_expression_may_be_refused() {
    let complaint = "Invalid expression: Invalid cron expression.".to_string();
    for expression in ["", "not a cron", "* *", "0 0 0 32 1 *", "61 * * * * *", "*/0 * * * * *"] {
        let next = next_by_cron(expression, 0, Some(NOW));
        assert_eq!(next, NextRun::Refused(complaint.clone()), "{}", expression);
    }
    // The expression is read before the start and the offset are looked at.
    assert_eq!(next_by_cron("x", 99_999, None), NextRun::Refused(complaint));
}

#[test]
fn cron_may_have_no_further_run() {
    let next = next_by_cron("0 0 0 1 1 * 2020", 0, Some(NOW));
    assert_eq!(next, NextRun::Broken(Fault::NoFurtherRun));
}

#[test]
fn cron_checks_the_offset() {
    for tz_offset in [-1440, 1440, i32::MIN, i32::MAX] {
        let next = next_by_cron("0 0 * * * *", tz_offset, Some(NOW));
        assert_eq!(next, NextRun::Broken(Fault::OffsetOutOfRange));
    }
    for tz_offset in [-1439, 1439] {
        assert!(matches!(next_by_cron("0 0 * * * *", tz_offset, Some(NOW)), NextRun::At(_)));
    }
}

#[test]
fn cron_checks_the_start() {
    let broken = NextRun::Broken(Fault::TimeOutOfRange);
    assert_eq!(next_by_cron("0 0 * * * *", 0, None), broken);
    assert_eq!(next_by_cron("0 0 * * * *", 0, Some(EARLIEST_INSTANT - 1)), broken);
    let last = LATEST_INSTANT - MICROS_PER_SECOND;
    assert_eq!(next_by_cron("0 0 * * * *", 0, Some(last + 1)), broken);
    // Searches from the very ends of the range come back, in every zone.
    for tz_offset in [-1439, 0, 1439] {
        let next = next_by_cron("0 0 * * * *", tz_offset, Some(last));
        assert_eq!(next, NextRun::Broken(Fault::NoFurtherRun));
        let next = next_by_cron("0 0 * * * *", tz_offset, Some(EARLIEST_INSTANT));
        assert_eq!(next, NextRun::Broken(Fault::NoFurtherRun));
    }
}

#[test]
fn frequency_is_in_seconds_or_minutes() {
    let every = condition(FrequencyType::Interval, 90, "", 0);
    let next = next_by_condition(&every, 0, FrequencyUnit::Seconds, true, NOW, NOW + 5);
    assert_eq!(next, NextRun::At(NOW + 90_000_000));
    let next = next_by_condition(&every, 0, FrequencyUnit::Minutes, true, NOW, NOW + 5);
    assert_eq!(next, NextRun::At(NOW + 5_400_000_000));
}

#[test]
fn silence_counts_only_where_conditions_hold() {
    let every = condition(FrequencyType::Interval, 60, "", 15);
    let next = next_by_condition(&every, 0, FrequencyUnit::Seconds, true, NOW, NOW + 5);
    assert_eq!(next, NextRun::At(NOW + 900_000_000));
    let next = next_by_condition(&every, 0, FrequencyUnit::Seconds, false, NOW, NOW + 5);
    assert_eq!(next, NextRun::At(NOW + 60_000_000));
    let never = condition(FrequencyType::Interval, 60, "", -15);
    let next = next_by_condition(&never, 0, FrequencyUnit::Seconds, true, NOW, NOW + 5);
    assert_eq!(next, NextRun::At(NOW + 60_000_000));
}

#[test]
fn cron_waits_for_the_end_of_the_silence() {
    let hourly = condition(FrequencyType::Cron, 1, "0 0 * * * *", 60);
    let next = next_by_condition(&hourly, 0, FrequencyUnit::Seconds, true, 0, NOW);
    assert_eq!(next, NextRun::At(1_700_006_400_000_000));
    let next = next_by_condition(&hourly, 0, FrequencyUnit::Seconds, false, 0, NOW);
    assert_eq!(next, NextRun::At(1_700_002_800_000_000));
}

#[test]
fn conditions_may_be_out_of_range() {
    let broken = NextRun::Broken(Fault::TimeOutOfRange);
    for frequency_type in [FrequencyType::Interval, FrequencyType::Cron] {
        let long = condition(frequency_type, 1, "0 0 * * * *", i64::MAX);
        let next = next_by_condition(&long, 0, FrequencyUnit::Seconds, true, NOW, NOW);
        assert_eq!(next, broken);
    }
    let long = condition(FrequencyType::Interval, i64::MAX / 1_000_000, "", 0);
    let next = next_by_condition(&long, 0, FrequencyUnit::Seconds, true, 0, NOW);
    assert_eq!(next, NextRun::At(9_223_372_036_854_000_000));
    let next = next_by_condition(&long, 0, FrequencyUnit::Seconds, true, NOW, NOW);
    assert_eq!(next, broken);
    let next = next_by_condition(&long, 0, FrequencyUnit::Minutes, true, 0, NOW);
    assert_eq!(next, broken);
}

#[test]
fn positive_intervals_lie_ahead() {
    let every = condition(FrequencyType::Interval, 1, "", 0);
    for satisfied in [false, true] {
        match next_by_condition(&every, 0, FrequencyUnit::Minutes, satisfied, NOW, NOW) {
            NextRun::At(instant) => assert!(instant > NOW),
            other => panic!("{:?}", other),
        }
    }
}

#[test]
fn next_week_is_seven_days_away() {
    assert_eq!(next_week(NOW), Some(NOW + 604_800_000_000));
    assert_eq!(next_week(i64::MAX), None);
}

#[test]
fn reports_run_at_their_intervals() {
    let cases = [
        (ReportFrequencyType::Hours, 3, 10_800_000_000),
        (ReportFrequencyType::Days, 2, 172_800_000_000),
        (ReportFrequencyType::Weeks, 2, 1_209_600_000_000),
        (ReportFrequencyType::Months, 2, 5_184_000_000_000),
        (ReportFrequencyType::Once, 9, 604_800_000_000),
    ];
    for (frequency_type, interval, micros) in cases {
        let next = next_of_report(&report(frequency_type, interval, "", 0), NOW);
        assert_eq!(next, NextRun::At(NOW + micros), "{:?}", frequency_type);
    }
}

#[test]
fn reports_run_by_cron() {
    let hourly = report(ReportFrequencyType::Cron, 9, "0 0 * * * *", 330);
    assert_eq!(next_of_report(&hourly, NOW), NextRun::At(1_700_001_000_000_000));
    let broken = report(ReportFrequencyType::Cron, 9, "hourly", 330);
    assert!(matches!(next_of_report(&broken, NOW), NextRun::Refused(_)));
}

#[test]
fn reports_may_be_out_of_range() {
    let frequency_types = [
        ReportFrequencyType::Hours,
        ReportFrequencyType::Days,
        ReportFrequencyType::Weeks,
        ReportFrequencyType::Months,
    ];
    for frequency_type in frequency_types {
        for interval in [i64::MIN, i64::MAX, i64::MAX / 30] {
            let next = next_of_report(&report(frequency_type, interval, "", 0), NOW);
            assert_eq!(next, NextRun::Broken(Fault::TimeOutOfRange));
        }
    }
}
