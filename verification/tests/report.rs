use trigger_scheduler::event::{Action, Event};
use trigger_scheduler::outcome::{Fault, HandlerError};
use trigger_scheduler::plan::NextRun;
use trigger_scheduler::report::{
    handle_report_triggers, on_report_loaded, on_report_planned, on_report_sent, resume_report,
    ReportState,
};
use trigger_scheduler::types::{
    Report, ReportFrequency, ReportFrequencyType, ReportUpdate, StatusUpdate, Trigger, TriggerData,
    TriggerDataStatus, TriggerDataType, TriggerModule, TriggerStatus,
};

/// 2023-11-14 22:13:20 UTC.
const NOW: i64 = 1_700_000_000_000_000;
const WEEK: i64 = 604_800_000_000;
const DAY: i64 = 86_400_000_000;

fn trigger(retries: i32) -> Trigger {
    Trigger {
        org: "acme".to_string(),
        module: TriggerModule::Report,
        module_key: "weekly/summary".to_string(),
        next_run_at: NOW - 7,
        is_realtime: true,
        is_silenced: true,
        status: TriggerStatus::Waiting,
        start_time: None,
        end_time: Some(NOW + 500),
        retries,
    }
}

fn report(frequency_type: ReportFrequencyType) -> Report {
    Report {
        enabled: true,
        frequency: ReportFrequency { frequency_type, interval: 1, cron: String::new() },
        tz_offset: 0,
    }
}

fn renewed(next_run_at: i64) -> Trigger {
    Trigger { next_run_at, is_realtime: false, is_silenced: false, retries: 0, ..trigger(0) }
}

fn record(retries: i32, next_run_at: i64) -> TriggerData {
    TriggerData {
        _timestamp: 0,
        org: "acme".to_string(),
        module: TriggerDataType::Report,
        key: "weekly/summary".to_string(),
        next_run_at,
        is_realtime: true,
        is_silenced: true,
        status: TriggerDataStatus::Completed,
        start_time: 0,
        end_time: NOW + 500,
        retries,
        error: None,
    }
}

fn tried_again(retries: i32) -> Action {
    Action::SaveStatus(StatusUpdate {
        org: "acme".to_string(),
        module: TriggerModule::Report,
        module_key: "weekly/summary".to_string(),
        status: TriggerStatus::Waiting,
        retries,
    })
}

/// A report that is being sent.
fn sending(retries: i32, frequency_type: ReportFrequencyType) -> ReportState {
    let (state, action) = handle_report_triggers(trigger(retries));
    let lookup = Action::LoadReport { org: "acme".to_string(), name: "weekly/summary".to_string() };
    assert_eq!(action, lookup);
    let event = Event::ReportLoaded(Ok(report(frequency_type)));
    let (state, action) = resume_report(state, event, NOW, 3);
    let enabled = frequency_type != ReportFrequencyType::Once;
    assert_eq!(action, Action::SendReport { enabled });
    state
}

/// Follows the write of the trigger: the report is looked up again and written
/// back, and the record published.
fn close(state: ReportState, still_enabled: bool, enabled: bool, expected: TriggerData) {
    let (state, action) = resume_report(state, Event::TriggerSaved(Ok(())), NOW + 90, 3);
    let lookup = Action::ReloadReport { org: "acme".to_string(), name: "weekly/summary".to_string() };
    assert_eq!(action, lookup);
    let (state, action) = resume_report(state, Event::ReportReloaded(Ok(still_enabled)), NOW + 91, 3);
    let update = ReportUpdate {
        org: "acme".to_string(),
        name: "weekly/summary".to_string(),
        enabled,
        last_triggered_at: NOW,
    };
    assert_eq!(action, Action::StoreReport(update));
    // What becomes of the write does not matter.
    let (state, action) = resume_report(state, Event::ReportStored(Err("down".to_string())), NOW + 92, 3);
    assert_eq!(action, Action::PublishUsage(TriggerData { end_time: NOW + 90, ..expected }));
    let (state, action) = resume_report(state, Event::UsagePublished, NOW + 93, 3);
    assert_eq!(action, Action::Finish(Ok(())));
    assert_eq!(state, ReportState::Finished);
}

#[test]
fn sent_report_waits_for_its_next_run() {
    let state = sending(1, ReportFrequencyType::Days);
    let (state, action) = resume_report(state, Event::ReportSent(Ok(())), NOW + 80, 3);
    assert_eq!(action, Action::SaveTrigger(renewed(NOW + DAY)));
    close(state, true, true, record(1, NOW + DAY));
}

#[test]
fn report_disabled_in_the_meantime_stays_disabled() {
    let state = sending(1, ReportFrequencyType::Days);
    let (state, _) = resume_report(state, Event::ReportSent(Ok(())), NOW + 80, 3);
    close(state, false, false, record(1, NOW + DAY));
}

#[test]
fn report_sent_once_is_done() {
    let state = sending(0, ReportFrequencyType::Once);
    let (state, action) = resume_report(state, Event::ReportSent(Ok(())), NOW + 80, 3);
    let done = Trigger { status: TriggerStatus::Completed, ..renewed(NOW + WEEK) };
    assert_eq!(action, Action::SaveTrigger(done));
    close(state, true, false, record(0, NOW + WEEK));
}

#[test]
fn report_sent_once_is_tried_until_it_is_sent() {
    let state = sending(41, ReportFrequencyType::Once);
    let event = Event::ReportSent(Err("no chrome".to_string()));
    let (state, action) = resume_report(state, event, NOW + 80, 3);
    assert_eq!(action, tried_again(42));
    let expected = TriggerData {
        status: TriggerDataStatus::Failed,
        error: Some("error processing report: no chrome".to_string()),
        ..record(41, NOW + WEEK)
    };
    close(state, true, true, expected);
}

#[test]
fn report_sent_once_and_disabled_in_the_meantime_stays_disabled() {
    let state = sending(0, ReportFrequencyType::Once);
    let event = Event::ReportSent(Err("no chrome".to_string()));
    let (state, _) = resume_report(state, event, NOW + 80, 3);
    let expected = TriggerData {
        status: TriggerDataStatus::Failed,
        error: Some("error processing report: no chrome".to_string()),
        ..record(0, NOW + WEEK)
    };
    close(state, false, false, expected);
}

#[test]
fn failed_report_is_tried_again() {
    let state = sending(1, ReportFrequencyType::Weeks);
    let event = Event::ReportSent(Err("no chrome".to_string()));
    let (state, action) = resume_report(state, event, NOW + 80, 3);
    assert_eq!(action, tried_again(2));
    let expected = TriggerData {
        status: TriggerDataStatus::Failed,
        error: Some("error processing report: no chrome".to_string()),
        ..record(1, NOW + WEEK)
    };
    close(state, true, true, expected);
}

#[test]
fn last_failed_report_moves_on() {
    let state = sending(2, ReportFrequencyType::Weeks);
    let event = Event::ReportSent(Err("no chrome".to_string()));
    let (_, action) = resume_report(state, event, NOW + 80, 3);
    assert_eq!(action, Action::SaveTrigger(renewed(NOW + WEEK)));
}

#[test]
fn disabled_report_is_looked_at_in_a_week() {
    let disabled = Report { enabled: false, ..report(ReportFrequencyType::Hours) };
    let (state, action) = on_report_loaded(trigger(1), Ok(disabled), NOW);
    assert_eq!(action, Action::SaveTrigger(renewed(NOW + WEEK)));
    let (_, action) = resume_report(state, Event::TriggerSaved(Ok(())), NOW, 3);
    assert_eq!(action, Action::Finish(Ok(())));
}

#[test]
fn failed_lookup_of_a_report_is_passed_on() {
    let (_, action) = on_report_loaded(trigger(1), Err("down".to_string()), NOW);
    assert_eq!(action, Action::Finish(Err(HandlerError::Service("down".to_string()))));
}

#[test]
fn planned_report_follows_its_next_run() {
    let weekly = report(ReportFrequencyType::Weeks);
    let refused = NextRun::Refused("bad".to_string());
    let (_, action) = on_report_planned(trigger(1), &weekly, refused, NOW);
    assert_eq!(action, Action::Finish(Err(HandlerError::InvalidCron("bad".to_string()))));
    let broken = NextRun::Broken(Fault::OffsetOutOfRange);
    let (_, action) = on_report_planned(trigger(1), &weekly, broken, NOW);
    assert_eq!(action, Action::Abort(Fault::OffsetOutOfRange));
    let (state, action) = on_report_planned(trigger(1), &weekly, NextRun::At(12), NOW);
    assert_eq!(action, Action::SendReport { enabled: true });
    let (_, action) = resume_report(state, Event::ReportSent(Ok(())), NOW, 3);
    assert_eq!(action, Action::SaveTrigger(renewed(12)));
}

#[test]
fn report_with_too_many_retries_aborts() {
    for run_once in [false, true] {
        let (state, action) = on_report_sent(
            renewed(NOW),
            record(i32::MAX, NOW),
            run_once,
            NOW,
            Err("no chrome".to_string()),
            3,
        );
        assert_eq!(action, Action::Abort(Fault::TooManyRetries));
        assert_eq!(state, ReportState::Finished);
    }
}

#[test]
fn failed_write_of_a_report_trigger_ends_it() {
    let state = sending(1, ReportFrequencyType::Days);
    let (state, _) = resume_report(state, Event::ReportSent(Ok(())), NOW + 80, 3);
    let (_, action) = resume_report(state, Event::TriggerSaved(Err("down".to_string())), NOW, 3);
    assert_eq!(action, Action::Finish(Err(HandlerError::Service("down".to_string()))));
}

#[test]
fn failed_second_lookup_of_a_report_ends_it() {
    let state = sending(1, ReportFrequencyType::Days);
    let (state, _) = resume_report(state, Event::ReportSent(Ok(())), NOW + 80, 3);
    let (state, _) = resume_report(state, Event::TriggerSaved(Ok(())), NOW, 3);
    let (_, action) = resume_report(state, Event::ReportReloaded(Err("gone".to_string())), NOW, 3);
    assert_eq!(action, Action::Finish(Err(HandlerError::Service("gone".to_string()))));
}

#[test]
fn report_aborts_on_an_unexpected_event() {
    let state = sending(1, ReportFrequencyType::Days);
    let (_, action) = resume_report(state, Event::ReportStored(Ok(())), NOW, 3);
    assert_eq!(action, Action::Abort(Fault::UnexpectedEvent));
}
