use trigger_scheduler::alert::{
    handle_alert_triggers, on_alert_loaded, on_alert_notified, on_alert_planned, resume_alert,
    AlertState,
};
use trigger_scheduler::event::{Action, Delivery, Evaluation, Event};
use trigger_scheduler::module_key::AlertKey;
use trigger_scheduler::outcome::{Fault, HandlerError};
use trigger_scheduler::plan::NextRun;
use trigger_scheduler::types::{
    Alert, FrequencyType, StatusUpdate, Trigger, TriggerCondition, TriggerData, TriggerDataStatus,
    TriggerDataType, TriggerModule, TriggerStatus,
};

/// 2023-11-14 22:13:20 UTC.
const NOW: i64 = 1_700_000_000_000_000;

fn trigger() -> Trigger {
    Trigger {
        org: "acme".to_string(),
        module: TriggerModule::Alert,
        module_key: "logs/app/errors".to_string(),
        next_run_at: NOW - 7,
        is_realtime: false,
        is_silenced: true,
        status: TriggerStatus::Waiting,
        start_time: Some(NOW - 5),
        end_time: Some(NOW + 500),
        retries: 1,
    }
}

fn key() -> AlertKey {
    AlertKey {
        stream_type: "logs".to_string(),
        stream_name: "app".to_string(),
        alert_name: "errors".to_string(),
    }
}

fn alert(silence: i64) -> Alert {
    Alert {
        enabled: true,
        trigger_condition: TriggerCondition {
            period: 10,
            frequency: 60,
            frequency_type: FrequencyType::Interval,
            cron: String::new(),
            silence,
        },
        tz_offset: 0,
    }
}

fn loaded(alert: Result<Option<Alert>, String>) -> Event {
    Event::AlertLoaded { stream_type: "logs".to_string(), alert }
}

fn evaluated(satisfied: bool) -> Event {
    Event::AlertEvaluated(Ok(Evaluation { satisfied, end_time: NOW + 40 }))
}

/// The trigger as it is written: due at `next_run_at`, with nothing on its count.
fn renewed(next_run_at: i64, is_silenced: bool) -> Trigger {
    Trigger { next_run_at, is_realtime: false, is_silenced, retries: 0, ..trigger() }
}

fn record(status: TriggerDataStatus, next_run_at: i64, error: Option<&str>) -> TriggerData {
    TriggerData {
        _timestamp: NOW - 5,
        org: "acme".to_string(),
        module: TriggerDataType::Alert,
        key: "logs/app/errors".to_string(),
        next_run_at,
        is_realtime: false,
        is_silenced: true,
        status,
        start_time: NOW + 40 - 600_000_000,
        end_time: NOW + 40,
        retries: 1,
        error: error.map(|error| error.to_string()),
    }
}

/// An alert that is being evaluated.
fn evaluating(alert: Alert) -> AlertState {
    let (state, action) = handle_alert_triggers(trigger(), NOW);
    assert_eq!(action, Action::LoadAlert { org: "acme".to_string(), alert: key() });
    let (state, action) = resume_alert(state, loaded(Ok(Some(alert))), NOW, 3);
    assert_eq!(action, Action::EvaluateAlert);
    state
}

/// An alert whose notification is being sent.
fn notifying(silence: i64) -> AlertState {
    let (state, action) = resume_alert(evaluating(alert(silence)), evaluated(true), NOW + 50, 3);
    assert_eq!(action, Action::NotifyAlert);
    state
}

fn notified(delivery: Delivery) -> Event {
    Event::AlertNotified { start_time: 11, end_time: 22, delivery }
}

/// Follows the write of the trigger: the record, and the end.
fn close(state: AlertState, expected: TriggerData) {
    let (state, action) = resume_alert(state, Event::TriggerSaved(Ok(())), NOW + 90, 3);
    assert_eq!(action, Action::PublishUsage(expected));
    let (state, action) = resume_alert(state, Event::UsagePublished, NOW + 91, 3);
    assert_eq!(action, Action::Finish(Ok(())));
    assert_eq!(state, AlertState::Finished);
}

#[test]
fn malformed_key_aborts() {
    let malformed = Trigger { module_key: "logs/app".to_string(), ..trigger() };
    let (state, action) = handle_alert_triggers(malformed, NOW);
    assert_eq!(action, Action::Abort(Fault::MalformedKey));
    assert_eq!(state, AlertState::Finished);
}

#[test]
fn silenced_realtime_alert_is_woken() {
    let realtime = Trigger { is_realtime: true, ..trigger() };
    let woken = Trigger { next_run_at: NOW, is_silenced: false, ..realtime.clone() };
    let (state, action) = handle_alert_triggers(realtime, NOW);
    assert_eq!(action, Action::SaveTrigger(woken));
    let (_, action) = resume_alert(state, Event::TriggerSaved(Ok(())), NOW, 3);
    assert_eq!(action, Action::Finish(Ok(())));
}

#[test]
fn waking_passes_an_error_on() {
    let realtime = Trigger { is_realtime: true, ..trigger() };
    let (state, _) = handle_alert_triggers(realtime, NOW);
    let (_, action) = resume_alert(state, Event::TriggerSaved(Err("down".to_string())), NOW, 3);
    assert_eq!(action, Action::Finish(Err(HandlerError::Service("down".to_string()))));
}

#[test]
fn missing_alert_is_an_error() {
    let (state, _) = handle_alert_triggers(trigger(), NOW);
    let event = Event::AlertLoaded { stream_type: "Logs".to_string(), alert: Ok(None) };
    let (_, action) = resume_alert(state, event, NOW, 3);
    match action {
        Action::Finish(Err(error)) => {
            assert_eq!(error.message(), "alert not found: acme/app/Logs/errors")
        }
        other => panic!("{:?}", other),
    }
}

#[test]
fn failed_lookup_of_an_alert_is_passed_on() {
    let (state, _) = handle_alert_triggers(trigger(), NOW);
    let (_, action) = resume_alert(state, loaded(Err("down".to_string())), NOW, 3);
    assert_eq!(action, Action::Finish(Err(HandlerError::Service("down".to_string()))));
}

#[test]
fn disabled_alert_is_silenced_for_a_week() {
    let disabled = Alert { enabled: false, ..alert(0) };
    let (state, action) = on_alert_loaded(trigger(), key(), "logs".to_string(), Ok(Some(disabled)), NOW);
    assert_eq!(action, Action::SaveTrigger(renewed(NOW + 604_800_000_000, true)));
    let (_, action) = resume_alert(state, Event::TriggerSaved(Ok(())), NOW, 3);
    assert_eq!(action, Action::Finish(Ok(())));
}

#[test]
fn failed_evaluation_of_an_alert_is_passed_on() {
    let event = Event::AlertEvaluated(Err("bad query".to_string()));
    let (_, action) = resume_alert(evaluating(alert(0)), event, NOW, 3);
    assert_eq!(action, Action::Finish(Err(HandlerError::Service("bad query".to_string()))));
}

#[test]
fn unsatisfied_alert_is_not_notified() {
    let (state, action) = resume_alert(evaluating(alert(15)), evaluated(false), NOW + 50, 3);
    let due = NOW + 60_000_000;
    assert_eq!(action, Action::SaveTrigger(renewed(due, false)));
    close(state, record(TriggerDataStatus::ConditionNotSatisfied, due, None));
}

#[test]
fn satisfied_alert_is_notified_and_silenced() {
    let (state, action) = resume_alert(notifying(15), notified(Delivery::Complete), NOW + 80, 3);
    let due = NOW + 900_000_000;
    assert_eq!(action, Action::SaveTrigger(renewed(due, true)));
    let expected = record(TriggerDataStatus::Completed, due, None);
    close(state, TriggerData { start_time: 11, end_time: 22, ..expected });
}

#[test]
fn satisfied_alert_without_a_silence_stays_awake() {
    let (_, action) = resume_alert(notifying(0), notified(Delivery::Complete), NOW + 80, 3);
    assert_eq!(action, Action::SaveTrigger(renewed(NOW + 60_000_000, false)));
}

#[test]
fn partial_notification_is_not_sent_again() {
    let delivery = Delivery::Partial("slack is down".to_string());
    let (state, action) = resume_alert(notifying(0), notified(delivery), NOW + 80, 3);
    let due = NOW + 60_000_000;
    assert_eq!(action, Action::SaveTrigger(renewed(due, false)));
    let expected = record(TriggerDataStatus::Completed, due, Some("slack is down"));
    close(state, TriggerData { start_time: 11, end_time: 22, ..expected });
}

#[test]
fn failed_notification_is_sent_again() {
    let delivery = Delivery::Failed("timeout".to_string());
    let (state, action) = resume_alert(notifying(0), notified(delivery), NOW + 80, 3);
    let update = StatusUpdate {
        org: "acme".to_string(),
        module: TriggerModule::Alert,
        module_key: "logs/app/errors".to_string(),
        status: TriggerStatus::Waiting,
        retries: 2,
    };
    assert_eq!(action, Action::SaveStatus(update));
    let error = "error sending notification for alert: timeout";
    let expected = record(TriggerDataStatus::Failed, NOW + 60_000_000, Some(error));
    close(state, TriggerData { start_time: 11, end_time: 22, ..expected });
}

#[test]
fn last_failed_notification_moves_on() {
    let delivery = Delivery::Failed("timeout".to_string());
    let (state, action) = resume_alert(notifying(0), notified(delivery), NOW + 80, 2);
    let due = NOW + 60_000_000;
    assert_eq!(action, Action::SaveTrigger(renewed(due, false)));
    let error = "error sending notification for alert: timeout";
    let expected = record(TriggerDataStatus::Failed, due, Some(error));
    close(state, TriggerData { start_time: 11, end_time: 22, ..expected });
}

#[test]
fn alert_with_too_many_retries_aborts() {
    let full = TriggerData { retries: i32::MAX, ..record(TriggerDataStatus::Completed, NOW, None) };
    let (_, action) = on_alert_notified(
        renewed(NOW, false),
        full,
        11,
        22,
        Delivery::Failed("timeout".to_string()),
        3,
    );
    assert_eq!(action, Action::Abort(Fault::TooManyRetries));
}

#[test]
fn failed_write_of_an_alert_publishes_nothing() {
    let (state, _) = resume_alert(notifying(0), notified(Delivery::Complete), NOW + 80, 3);
    let (state, action) = resume_alert(state, Event::TriggerSaved(Err("down".to_string())), NOW, 3);
    assert_eq!(action, Action::Finish(Err(HandlerError::Service("down".to_string()))));
    assert_eq!(state, AlertState::Finished);
}

#[test]
fn refused_cron_of_an_alert_is_an_error() {
    let mut broken = alert(0);
    broken.trigger_condition.frequency_type = FrequencyType::Cron;
    broken.trigger_condition.cron = "hourly".to_string();
    let (_, action) = resume_alert(evaluating(broken), evaluated(true), NOW, 3);
    match action {
        Action::Finish(Err(error)) => {
            assert_eq!(error.message(), "Invalid expression: Invalid cron expression.")
        }
        other => panic!("{:?}", other),
    }
}

#[test]
fn cron_of_an_alert_is_searched_from_the_evaluation() {
    let mut hourly = alert(0);
    hourly.trigger_condition.frequency_type = FrequencyType::Cron;
    hourly.trigger_condition.cron = "0 0 * * * *".to_string();
    let (_, action) = resume_alert(evaluating(hourly), evaluated(false), NOW + 3_600_000_000, 3);
    assert_eq!(action, Action::SaveTrigger(renewed(1_700_006_400_000_000, false)));
}

#[test]
fn planned_alert_follows_its_next_run() {
    let evaluation = Evaluation { satisfied: false, end_time: NOW + 40 };
    let (_, action) = on_alert_planned(
        trigger(),
        renewed(NOW, false),
        &alert(0),
        evaluation,
        NextRun::At(12),
    );
    assert_eq!(action, Action::SaveTrigger(renewed(12, false)));
    let (_, action) = on_alert_planned(
        trigger(),
        renewed(NOW, false),
        &alert(0),
        evaluation,
        NextRun::Broken(Fault::NoFurtherRun),
    );
    assert_eq!(action, Action::Abort(Fault::NoFurtherRun));
    let (_, action) = on_alert_planned(
        trigger(),
        renewed(NOW, false),
        &alert(0),
        evaluation,
        NextRun::Refused("bad".to_string()),
    );
    assert_eq!(action, Action::Finish(Err(HandlerError::InvalidCron("bad".to_string()))));
}

#[test]
fn period_may_be_out_of_range() {
    let mut long = alert(0);
    long.trigger_condition.period = i64::MAX;
    let (_, action) = resume_alert(evaluating(long), evaluated(false), NOW, 3);
    assert_eq!(action, Action::Abort(Fault::TimeOutOfRange));
    let evaluation = Evaluation { satisfied: true, end_time: i64::MIN };
    let event = Event::AlertEvaluated(Ok(evaluation));
    let (_, action) = resume_alert(evaluating(alert(0)), event, NOW, 3);
    assert_eq!(action, Action::Abort(Fault::TimeOutOfRange));
}

#[test]
fn alert_aborts_on_an_unexpected_event() {
    let (state, _) = handle_alert_triggers(trigger(), NOW);
    let (state, action) = resume_alert(state, Event::UsagePublished, NOW, 3);
    assert_eq!(action, Action::Abort(Fault::UnexpectedEvent));
    assert_eq!(state, AlertState::Finished);
}
