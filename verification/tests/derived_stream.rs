use trigger_scheduler::derived_stream::{
    find_derived_stream, handle_derived_stream_triggers, on_derived_stream_planned,
    on_pipeline_loaded, on_rows_ingested, resume_derived_stream, DerivedStreamState,
};
use trigger_scheduler::event::{Action, Event};
use trigger_scheduler::module_key::DerivedStreamKey;
use trigger_scheduler::outcome::{Fault, HandlerError};
use trigger_scheduler::plan::NextRun;
use trigger_scheduler::types::{
    DerivedStream, Destination, FrequencyType, StatusUpdate, Trigger, TriggerCondition, TriggerData,
    TriggerDataStatus, TriggerDataType, TriggerModule, TriggerStatus,
};

/// 2023-11-14 22:13:20 UTC.
const NOW: i64 = 1_700_000_000_000_000;

fn trigger() -> Trigger {
    Trigger {
        org: "acme".to_string(),
        module: TriggerModule::DerivedStream,
        module_key: "logs/app/nightly/load".to_string(),
        next_run_at: NOW - 7,
        is_realtime: false,
        is_silenced: true,
        status: TriggerStatus::Waiting,
        start_time: Some(NOW - 5),
        end_time: None,
        retries: 1,
    }
}

fn key() -> DerivedStreamKey {
    DerivedStreamKey {
        stream_type: "logs".to_string(),
        stream_name: "app".to_string(),
        pipeline_name: "nightly".to_string(),
        name: "load".to_string(),
    }
}

fn destination() -> Destination {
    Destination { org_id: "acme".to_string(), stream_name: "loads".to_string(), stream_type: 1 }
}

fn stream(name: &str, frequency: i64, silence: i64) -> DerivedStream {
    DerivedStream {
        name: name.to_string(),
        trigger_condition: TriggerCondition {
            period: 10,
            frequency,
            frequency_type: FrequencyType::Interval,
            cron: String::new(),
            silence,
        },
        tz_offset: 0,
        destination: destination(),
    }
}

fn loaded(derived_streams: Result<Option<Vec<DerivedStream>>, String>) -> Event {
    Event::PipelineLoaded { stream_type: "logs".to_string(), derived_streams }
}

/// The trigger as it is written: with the retries that it had.
fn readied(next_run_at: i64, is_silenced: bool) -> Trigger {
    Trigger { next_run_at, is_silenced, ..trigger() }
}

fn record(status: TriggerDataStatus, next_run_at: i64, error: Option<&str>) -> TriggerData {
    TriggerData {
        _timestamp: NOW - 5,
        org: "acme".to_string(),
        module: TriggerDataType::DerivedStream,
        key: "logs/app/nightly/load".to_string(),
        next_run_at,
        is_realtime: false,
        is_silenced: true,
        status,
        start_time: NOW - 5,
        end_time: NOW + 90,
        retries: 1,
        error: error.map(|error| error.to_string()),
    }
}

/// A derived stream that is being evaluated, the second of its pipeline.
fn evaluating(silence: i64) -> DerivedStreamState {
    let (state, action) = handle_derived_stream_triggers(trigger(), NOW);
    let lookup = Action::LoadPipeline { org: "acme".to_string(), derived_stream: key() };
    assert_eq!(action, lookup);
    let streams = vec![stream("other", 9, 9), stream("load", 2, silence), stream("load", 5, 5)];
    let (state, action) = resume_derived_stream(state, loaded(Ok(Some(streams))), NOW, 3);
    assert_eq!(action, Action::EvaluateDerivedStream(1));
    state
}

/// A derived stream whose rows are being ingested.
fn ingesting(silence: i64) -> DerivedStreamState {
    let event = Event::DerivedStreamEvaluated(Ok(true));
    let (state, action) = resume_derived_stream(evaluating(silence), event, NOW + 50, 3);
    assert_eq!(action, Action::Ingest(destination()));
    state
}

/// Follows the write of the trigger: the record, and the end.
fn close(state: DerivedStreamState, expected: TriggerData) {
    let (state, action) = resume_derived_stream(state, Event::TriggerSaved(Ok(())), NOW + 90, 3);
    assert_eq!(action, Action::PublishUsage(expected));
    let (state, action) = resume_derived_stream(state, Event::UsagePublished, NOW + 91, 3);
    assert_eq!(action, Action::Finish(Ok(())));
    assert_eq!(state, DerivedStreamState::Finished);
}

#[test]
fn malformed_key_of_a_derived_stream_aborts() {
    let malformed = Trigger { module_key: "logs/app/load".to_string(), ..trigger() };
    let (_, action) = handle_derived_stream_triggers(malformed, NOW);
    assert_eq!(action, Action::Abort(Fault::MalformedKey));
}

#[test]
fn silenced_realtime_derived_stream_is_woken() {
    let realtime = Trigger { is_realtime: true, ..trigger() };
    let woken = Trigger { next_run_at: NOW, is_silenced: false, ..realtime.clone() };
    let (state, action) = handle_derived_stream_triggers(realtime, NOW);
    assert_eq!(action, Action::SaveTrigger(woken));
    let (_, action) = resume_derived_stream(state, Event::TriggerSaved(Ok(())), NOW, 3);
    assert_eq!(action, Action::Finish(Ok(())));
}

#[test]
fn first_of_a_name_is_found() {
    let streams = vec![stream("a", 1, 0), stream("b", 2, 0), stream("b", 3, 0)];
    assert_eq!(find_derived_stream(&streams, &"b".to_string()), Some(1));
    assert_eq!(find_derived_stream(&streams, &"a".to_string()), Some(0));
    assert_eq!(find_derived_stream(&streams, &"c".to_string()), None);
    assert_eq!(find_derived_stream(&vec![], &"a".to_string()), None);
}

#[test]
fn missing_pipeline_is_an_error() {
    let (_, action) = on_pipeline_loaded(
        trigger(),
        key(),
        "Logs".to_string(),
        Err("no rows".to_string()),
        NOW,
    );
    match action {
        Action::Finish(Err(error)) => assert_eq!(
            error.message(),
            "Pipeline associated with trigger not found: acme/app/Logs/nightly"
        ),
        other => panic!("{:?}", other),
    }
}

#[test]
fn missing_derived_stream_is_an_error() {
    for derived_streams in [None, Some(vec![]), Some(vec![stream("other", 1, 0)])] {
        let (state, _) = handle_derived_stream_triggers(trigger(), NOW);
        let (_, action) = resume_derived_stream(state, loaded(Ok(derived_streams)), NOW, 3);
        match action {
            Action::Finish(Err(error)) => assert_eq!(
                error.message(),
                "DerivedStream associated with the trigger not found in pipeline: acme/app/logs/load"
            ),
            other => panic!("{:?}", other),
        }
    }
}

#[test]
fn failed_evaluation_of_a_derived_stream_is_passed_on() {
    let event = Event::DerivedStreamEvaluated(Err("bad query".to_string()));
    let (_, action) = resume_derived_stream(evaluating(0), event, NOW, 3);
    assert_eq!(action, Action::Finish(Err(HandlerError::Service("bad query".to_string()))));
}

#[test]
fn unsatisfied_derived_stream_ingests_nothing() {
    let event = Event::DerivedStreamEvaluated(Ok(false));
    let (state, action) = resume_derived_stream(evaluating(15), event, NOW + 50, 3);
    let due = NOW + 120_000_000;
    assert_eq!(action, Action::SaveTrigger(readied(due, false)));
    close(state, record(TriggerDataStatus::ConditionNotSatisfied, due, None));
}

#[test]
fn ingested_derived_stream_is_silenced() {
    let (state, action) = resume_derived_stream(ingesting(15), Event::Ingested(Ok(())), NOW + 80, 3);
    let due = NOW + 900_000_000;
    assert_eq!(action, Action::SaveTrigger(readied(due, true)));
    close(state, record(TriggerDataStatus::Completed, due, None));
}

#[test]
fn derived_stream_without_a_silence_stays_awake() {
    let (_, action) = resume_derived_stream(ingesting(0), Event::Ingested(Ok(())), NOW + 80, 3);
    assert_eq!(action, Action::SaveTrigger(readied(NOW + 120_000_000, false)));
}

#[test]
fn failed_ingestion_is_tried_again() {
    let event = Event::Ingested(Err("disk full".to_string()));
    let (state, action) = resume_derived_stream(ingesting(0), event, NOW + 80, 3);
    let update = StatusUpdate {
        org: "acme".to_string(),
        module: TriggerModule::DerivedStream,
        module_key: "logs/app/nightly/load".to_string(),
        status: TriggerStatus::Waiting,
        retries: 2,
    };
    assert_eq!(action, Action::SaveStatus(update));
    let error = "error sending notification for alert: disk full";
    close(state, record(TriggerDataStatus::Failed, NOW + 120_000_000, Some(error)));
}

#[test]
fn last_failed_ingestion_moves_on() {
    let event = Event::Ingested(Err("disk full".to_string()));
    let (_, action) = resume_derived_stream(ingesting(0), event, NOW + 80, 2);
    assert_eq!(action, Action::SaveTrigger(readied(NOW + 120_000_000, false)));
}

#[test]
fn derived_stream_with_too_many_retries_aborts() {
    let full = TriggerData { retries: i32::MAX, ..record(TriggerDataStatus::Completed, NOW, None) };
    let (_, action) = on_rows_ingested(readied(NOW, false), full, Err("disk full".to_string()), 3);
    assert_eq!(action, Action::Abort(Fault::TooManyRetries));
}

#[test]
fn planned_derived_stream_follows_its_next_run() {
    let refused = NextRun::Refused("bad".to_string());
    let (_, action) = on_derived_stream_planned(trigger(), readied(NOW, false), stream("load", 2, 0), true, refused);
    assert_eq!(action, Action::Finish(Err(HandlerError::InvalidCron("bad".to_string()))));
    let broken = NextRun::Broken(Fault::NoFurtherRun);
    let (_, action) = on_derived_stream_planned(trigger(), readied(NOW, false), stream("load", 2, 0), true, broken);
    assert_eq!(action, Action::Abort(Fault::NoFurtherRun));
    let (_, action) =
        on_derived_stream_planned(trigger(), readied(NOW, false), stream("load", 2, 0), false, NextRun::At(12));
    assert_eq!(action, Action::SaveTrigger(readied(12, false)));
}

#[test]
fn failed_write_of_a_derived_stream_publishes_nothing() {
    let (state, _) = resume_derived_stream(ingesting(0), Event::Ingested(Ok(())), NOW + 80, 3);
    let event = Event::TriggerSaved(Err("down".to_string()));
    let (_, action) = resume_derived_stream(state, event, NOW, 3);
    assert_eq!(action, Action::Finish(Err(HandlerError::Service("down".to_string()))));
}

#[test]
fn derived_stream_aborts_on_an_unexpected_event() {
    let (_, action) = resume_derived_stream(evaluating(0), Event::Ingested(Ok(())), NOW, 3);
    assert_eq!(action, Action::Abort(Fault::UnexpectedEvent));
}
