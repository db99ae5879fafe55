use chrono::Utc;
use trigger_scheduler::event::{Action, Delivery, Evaluation, Event};
use trigger_scheduler::outcome::Fault;
use trigger_scheduler::scheduler::{
    handle_triggers, handle_triggers_at, resume, resume_at, resume_run, run, Handler, PullLimits,
    RunAction, RunEvent, RunState,
};
use trigger_scheduler::types::{
    Alert, DerivedStream, Destination, FrequencyType, Report, ReportFrequency, ReportFrequencyType,
    Trigger, TriggerCondition, TriggerData, TriggerDataStatus, TriggerModule, TriggerStatus,
};

/// 2023-11-14 22:13:20 UTC.
const NOW: i64 = 1_700_000_000_000_000;

fn trigger(module: TriggerModule, module_key: &str) -> Trigger {
    Trigger {
        org: "acme".to_string(),
        module,
        module_key: module_key.to_string(),
        next_run_at: NOW - 7,
        is_realtime: false,
        is_silenced: false,
        status: TriggerStatus::Waiting,
        start_time: Some(NOW - 5),
        end_time: None,
        retries: 0,
    }
}

fn condition() -> TriggerCondition {
    TriggerCondition {
        period: 10,
        frequency: 1,
        frequency_type: FrequencyType::Interval,
        cron: String::new(),
        silence: 0,
    }
}

fn alert() -> Alert {
    Alert { enabled: true, trigger_condition: condition(), tz_offset: 0 }
}

/// Whether the scheduler's store hands a trigger out at an instant.
fn pulled(trigger: &Trigger, now: i64) -> bool {
    trigger.next_run_at <= now
        && !(trigger.is_realtime && !trigger.is_silenced)
        && trigger.status == TriggerStatus::Waiting
}

/// Handles a trigger with services of which `failing` decides whether they
/// fail, and returns every action.
fn drive(trigger: Trigger, satisfied: bool, failing: bool) -> Vec<Action> {
    let outcome = || if failing { Err("down".to_string()) } else { Ok(()) };
    let mut actions = Vec::new();
    let (mut handler, mut action) = handle_triggers_at(trigger, NOW);
    loop {
        let event = match &action {
            Action::SaveTrigger(_) | Action::SaveStatus(_) => Event::TriggerSaved(Ok(())),
            Action::LoadAlert { alert: key, .. } => Event::AlertLoaded {
                stream_type: key.stream_type.clone(),
                alert: Ok(Some(alert())),
            },
            Action::EvaluateAlert => {
                Event::AlertEvaluated(Ok(Evaluation { satisfied, end_time: NOW }))
            }
            Action::NotifyAlert => Event::AlertNotified {
                start_time: NOW - 1,
                end_time: NOW,
                delivery: match outcome() {
                    Ok(()) => Delivery::Complete,
                    Err(message) => Delivery::Failed(message),
                },
            },
            Action::LoadReport { .. } => Event::ReportLoaded(Ok(Report {
                enabled: true,
                frequency: ReportFrequency {
                    frequency_type: ReportFrequencyType::Hours,
                    interval: 1,
                    cron: String::new(),
                },
                tz_offset: 0,
            })),
            Action::SendReport { .. } => Event::ReportSent(outcome()),
            Action::ReloadReport { .. } => Event::ReportReloaded(Ok(true)),
            Action::StoreReport(_) => Event::ReportStored(outcome()),
            Action::LoadPipeline { derived_stream, .. } => Event::PipelineLoaded {
                stream_type: derived_stream.stream_type.clone(),
                derived_streams: Ok(Some(vec![DerivedStream {
                    name: derived_stream.name.clone(),
                    trigger_condition: condition(),
                    tz_offset: 0,
                    destination: Destination {
                        org_id: "acme".to_string(),
                        stream_name: "loads".to_string(),
                        stream_type: 0,
                    },
                }])),
            },
            Action::EvaluateDerivedStream(position) => {
                assert_eq!(*position, 0);
                Event::DerivedStreamEvaluated(Ok(satisfied))
            }
            Action::Ingest(_) => Event::Ingested(outcome()),
            Action::PublishUsage(_) => Event::UsagePublished,
            Action::Finish(_) | Action::Abort(_) => {
                actions.push(action);
                return actions;
            }
        };
        actions.push(action);
        let (next, following) = resume_at(handler, event, NOW + 1_000, 3);
        handler = next;
        action = following;
    }
}

fn all_triggers() -> Vec<Trigger> {
    vec![
        trigger(TriggerModule::Report, "weekly"),
        trigger(TriggerModule::Alert, "logs/app/errors"),
        trigger(TriggerModule::DerivedStream, "logs/app/nightly/load"),
    ]
}

fn records(actions: &[Action]) -> Vec<&TriggerData> {
    actions
        .iter()
        .filter_map(|action| match action {
            Action::PublishUsage(record) => Some(record),
            _ => None,
        })
        .collect()
}

#[test]
fn modules_have_their_handlers() {
    let begin = |module, key: &str| handle_triggers_at(trigger(module, key), NOW).0;
    assert!(matches!(begin(TriggerModule::Report, "weekly"), Handler::Report(_)));
    assert!(matches!(begin(TriggerModule::Alert, "logs/app/errors"), Handler::Alert(_)));
    assert!(matches!(begin(TriggerModule::DerivedStream, "a/b/c/d"), Handler::DerivedStream(_)));
}

#[test]
fn trigger_is_written_once_and_recorded_once() {
    for satisfied in [false, true] {
        for failing in [false, true] {
            for trigger in all_triggers() {
                let actions = drive(trigger.clone(), satisfied, failing);
                let writes = actions
                    .iter()
                    .filter(|action| matches!(action, Action::SaveTrigger(_) | Action::SaveStatus(_)))
                    .count();
                assert_eq!(writes, 1);
                assert_eq!(records(&actions).len(), 1);
                assert_eq!(actions.last(), Some(&Action::Finish(Ok(()))));
                assert!(actions.len() <= 7);
            }
        }
    }
}

#[test]
fn record_follows_the_write_and_agrees_with_it() {
    for trigger in all_triggers() {
        let actions = drive(trigger.clone(), true, false);
        let write = actions.iter().position(|action| matches!(action, Action::SaveTrigger(_))).unwrap();
        let publish = actions.iter().position(|action| matches!(action, Action::PublishUsage(_))).unwrap();
        assert!(write < publish);
        let record = records(&actions)[0];
        match &actions[write] {
            Action::SaveTrigger(written) => {
                assert_eq!(written.next_run_at, record.next_run_at);
                assert_eq!(written.org, trigger.org);
                assert_eq!(written.module_key, trigger.module_key);
                assert_eq!(record.key, trigger.module_key);
            }
            other => panic!("{:?}", other),
        }
    }
}

#[test]
fn record_tells_how_the_run_ended() {
    for trigger in all_triggers() {
        let is_report = trigger.module == TriggerModule::Report;
        let actions = drive(trigger.clone(), true, true);
        assert_eq!(records(&actions)[0].status, TriggerDataStatus::Failed);
        let actions = drive(trigger.clone(), true, false);
        assert_eq!(records(&actions)[0].status, TriggerDataStatus::Completed);
        let actions = drive(trigger, false, false);
        let unsatisfied = if is_report {
            TriggerDataStatus::Completed
        } else {
            TriggerDataStatus::ConditionNotSatisfied
        };
        assert_eq!(records(&actions)[0].status, unsatisfied);
    }
}

#[test]
fn written_trigger_waits_for_its_next_run() {
    for trigger in all_triggers() {
        for action in drive(trigger, true, false) {
            if let Action::SaveTrigger(written) = action {
                assert!(written.next_run_at > NOW);
                assert!(!pulled(&written, written.next_run_at - 1));
                assert!(pulled(&written, written.next_run_at));
            }
        }
    }
}

#[test]
fn retried_trigger_stays_due() {
    for trigger in all_triggers() {
        assert!(pulled(&trigger, NOW));
        for action in drive(trigger.clone(), true, true) {
            if let Action::SaveStatus(update) = action {
                assert_eq!(update.retries, 1);
                let stored = Trigger { status: update.status, retries: update.retries, ..trigger.clone() };
                assert!(pulled(&stored, NOW));
            }
        }
    }
}

#[test]
fn woken_trigger_is_not_pulled() {
    let silenced = Trigger {
        is_realtime: true,
        is_silenced: true,
        ..trigger(TriggerModule::Alert, "logs/app/errors")
    };
    match handle_triggers_at(silenced, NOW).1 {
        Action::SaveTrigger(woken) => assert!(!pulled(&woken, NOW + 1)),
        other => panic!("{:?}", other),
    }
}

#[test]
fn handling_reads_the_clock() {
    for module_key in ["logs/app/errors", "logs/app/nightly/load"] {
        let module = if module_key == "logs/app/errors" {
            TriggerModule::Alert
        } else {
            TriggerModule::DerivedStream
        };
        let silenced = Trigger { is_realtime: true, is_silenced: true, ..trigger(module, module_key) };
        let before = Utc::now().timestamp_micros();
        let (_, action) = handle_triggers(silenced);
        let after = Utc::now().timestamp_micros();
        match action {
            Action::SaveTrigger(woken) => {
                assert!(before <= woken.next_run_at && woken.next_run_at <= after)
            }
            other => panic!("{:?}", other),
        }
    }
}

#[test]
fn going_on_reads_the_clock() {
    let (handler, _) = handle_triggers(trigger(TriggerModule::Alert, "logs/app/errors"));
    let disabled = Alert { enabled: false, ..alert() };
    let event = Event::AlertLoaded { stream_type: "logs".to_string(), alert: Ok(Some(disabled)) };
    let before = Utc::now().timestamp_micros();
    let (_, action) = resume(handler, event, 3);
    let after = Utc::now().timestamp_micros();
    match action {
        Action::SaveTrigger(written) => {
            let began = written.next_run_at - 604_800_000_000;
            assert!(before <= began && began <= after);
            assert!(written.is_silenced);
        }
        other => panic!("{:?}", other),
    }
}

#[test]
fn ended_handling_takes_no_event() {
    let (handler, _) = handle_triggers_at(trigger(TriggerModule::Alert, "malformed"), NOW);
    let (_, action) = resume_at(handler, Event::UsagePublished, NOW, 3);
    assert_eq!(action, Action::Abort(Fault::UnexpectedEvent));
}

fn limits() -> PullLimits {
    PullLimits {
        alert_schedule_concurrency: 5,
        alert_schedule_timeout: 90,
        report_schedule_timeout: 600,
    }
}

#[test]
fn pass_handles_what_it_pulled() {
    let (state, action) = run(limits());
    assert_eq!(action, RunAction::Pull(limits()));
    let (state, action) = resume_run(state, RunEvent::Pulled(Ok(all_triggers())));
    assert_eq!(action, RunAction::HandleEach(all_triggers()));
    let (state, action) = resume_run(state, RunEvent::Joined(Ok(())));
    assert_eq!(action, RunAction::Finish(Ok(())));
    assert_eq!(state, RunState::Finished);
}

#[test]
fn pass_outlives_a_task_that_broke() {
    let (state, _) = run(limits());
    let (state, _) = resume_run(state, RunEvent::Pulled(Ok(all_triggers())));
    let (_, action) = resume_run(state, RunEvent::Joined(Err("panicked".to_string())));
    assert_eq!(action, RunAction::Finish(Ok(())));
}

#[test]
fn pass_fails_where_nothing_can_be_pulled() {
    let (state, _) = run(limits());
    let (state, action) = resume_run(state, RunEvent::Pulled(Err("store is down".to_string())));
    assert_eq!(action, RunAction::Finish(Err("store is down".to_string())));
    let (_, action) = resume_run(state, RunEvent::Joined(Ok(())));
    assert_eq!(action, RunAction::Abort(Fault::UnexpectedEvent));
}

/// A condition by the hour, with a silence in minutes.
fn hourly(silence: i64) -> TriggerCondition {
    TriggerCondition {
        frequency_type: FrequencyType::Cron,
        cron: "0 0 * * * *".to_string(),
        silence,
        ..condition()
    }
}

fn hourly_report() -> Report {
    Report {
        enabled: true,
        frequency: ReportFrequency {
            frequency_type: ReportFrequencyType::Cron,
            interval: 0,
            cron: "0 0 * * * *".to_string(),
        },
        tz_offset: 0,
    }
}

#[test]
fn cron_run_of_an_alert_lies_ahead() {
    for (silence, due) in [(0, 1_700_002_800_000_000), (60, 1_700_006_400_000_000)] {
        let (handler, _) = handle_triggers_at(trigger(TriggerModule::Alert, "logs/app/errors"), NOW);
        let alert = Alert { trigger_condition: hourly(silence), ..alert() };
        let event = Event::AlertLoaded { stream_type: "logs".to_string(), alert: Ok(Some(alert)) };
        let (handler, _) = resume_at(handler, event, NOW, 3);
        let event = Event::AlertEvaluated(Ok(Evaluation { satisfied: true, end_time: NOW }));
        let (handler, _) = resume_at(handler, event, NOW, 3);
        let event = Event::AlertNotified { start_time: 1, end_time: 2, delivery: Delivery::Complete };
        match resume_at(handler, event, NOW, 3).1 {
            Action::SaveTrigger(written) => assert_eq!(written.next_run_at, due),
            other => panic!("{:?}", other),
        }
    }
}

#[test]
fn cron_run_of_a_derived_stream_lies_ahead() {
    for (silence, due) in [(0, 1_700_002_800_000_000), (60, 1_700_006_400_000_000)] {
        let (handler, _) = handle_triggers_at(trigger(TriggerModule::DerivedStream, "a/b/c/d"), NOW);
        let stream = DerivedStream {
            name: "d".to_string(),
            trigger_condition: hourly(silence),
            tz_offset: 0,
            destination: Destination {
                org_id: "acme".to_string(),
                stream_name: "loads".to_string(),
                stream_type: 0,
            },
        };
        let event = Event::PipelineLoaded {
            stream_type: "a".to_string(),
            derived_streams: Ok(Some(vec![stream])),
        };
        let (handler, _) = resume_at(handler, event, NOW, 3);
        let (handler, _) = resume_at(handler, Event::DerivedStreamEvaluated(Ok(true)), NOW, 3);
        match resume_at(handler, Event::Ingested(Ok(())), NOW, 3).1 {
            Action::SaveTrigger(written) => assert_eq!(written.next_run_at, due),
            other => panic!("{:?}", other),
        }
    }
}

#[test]
fn cron_run_of_a_report_lies_ahead() {
    let (handler, _) = handle_triggers_at(trigger(TriggerModule::Report, "weekly"), NOW);
    let (handler, _) = resume_at(handler, Event::ReportLoaded(Ok(hourly_report())), NOW, 3);
    match resume_at(handler, Event::ReportSent(Ok(())), NOW, 3).1 {
        Action::SaveTrigger(written) => assert_eq!(written.next_run_at, 1_700_002_800_000_000),
        other => panic!("{:?}", other),
    }
}

#[test]
fn cron_run_lies_ahead_of_the_clock() {
    let (handler, _) = handle_triggers(trigger(TriggerModule::Report, "weekly"));
    let before = Utc::now().timestamp_micros();
    let (handler, _) = resume(handler, Event::ReportLoaded(Ok(hourly_report())), 3);
    let after = Utc::now().timestamp_micros();
    match resume(handler, Event::ReportSent(Ok(())), 3).1 {
        Action::SaveTrigger(written) => {
            assert!(before < written.next_run_at);
            assert!(written.next_run_at <= after + 3_600_000_000);
            assert_eq!(written.next_run_at % 3_600_000_000, 0);
        }
        other => panic!("{:?}", other),
    }
}
