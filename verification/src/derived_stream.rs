//! Handling the trigger of a derived stream.

use vstd::prelude::*;

use crate::clock::MICROS_PER_MINUTE;
use crate::event::{answer, streams, Action, ActionView, Event, EventView};
use crate::module_key::{
    derived_stream_key, derived_stream_key_of, DerivedStreamKey, DerivedStreamKeyView,
};
use crate::outcome::{Fault, HandlerError, HandlerErrorView};
use crate::plan::{
    falls_silent, next_by_condition, run_by_condition, FrequencyUnit, NextRun, NextRunView,
};
use crate::retry::{after_failure, failure_text, write_after_failure};
use crate::types::{
    or_epoch, DerivedStream, DerivedStreamView, FrequencyType, StatusUpdateView, Trigger,
    TriggerData, TriggerDataStatus, TriggerDataType, TriggerDataView, TriggerStatus, TriggerView,
};

verus! {

/// How far the handling of a derived stream's trigger has come.
#[derive(Debug, PartialEq, Eq)]
pub enum DerivedStreamState {
    /// The pipeline is being looked up.
    Loading { trigger: Trigger, key: DerivedStreamKey },
    /// The derived stream is being evaluated.
    Evaluating { trigger: Trigger, renewed: Trigger, stream: DerivedStream },
    /// The rows are being ingested.
    Ingesting { renewed: Trigger, record: TriggerData },
    /// The trigger is being written, and a record is published of the run.
    Recording { record: TriggerData },
    /// The record is being published.
    Publishing,
    /// The trigger is being written, and nothing is published.
    Closing,
    /// There is nothing left to do.
    Finished,
}

#[verifier::ext_equal]
pub enum DerivedStreamStateView {
    Loading { trigger: TriggerView, key: DerivedStreamKeyView },
    Evaluating { trigger: TriggerView, renewed: TriggerView, stream: DerivedStreamView },
    Ingesting { renewed: TriggerView, record: TriggerDataView },
    Recording { record: TriggerDataView },
    Publishing,
    Closing,
    Finished,
}

impl View for DerivedStreamState {
    type V = DerivedStreamStateView;

    open spec fn view(&self) -> DerivedStreamStateView {
        match *self {
            DerivedStreamState::Loading { trigger, key } => DerivedStreamStateView::Loading {
                trigger: trigger@,
                key: key@,
            },
            DerivedStreamState::Evaluating { trigger, renewed, stream } => {
                DerivedStreamStateView::Evaluating {
                    trigger: trigger@,
                    renewed: renewed@,
                    stream: stream@,
                }
            },
            DerivedStreamState::Ingesting { renewed, record } => {
                DerivedStreamStateView::Ingesting { renewed: renewed@, record: record@ }
            },
            DerivedStreamState::Recording { record } => DerivedStreamStateView::Recording {
                record: record@,
            },
            DerivedStreamState::Publishing => DerivedStreamStateView::Publishing,
            DerivedStreamState::Closing => DerivedStreamStateView::Closing,
            DerivedStreamState::Finished => DerivedStreamStateView::Finished,
        }
    }
}

/// A step of the handling: where it stands then, and what it asks for.
pub open spec fn step_view(step: (DerivedStreamState, Action)) -> (
    DerivedStreamStateView,
    ActionView,
) {
    (step.0@, step.1@)
}

/// The last step: an error ended the handling.
pub open spec fn failed(error: HandlerErrorView) -> (DerivedStreamStateView, ActionView) {
    (DerivedStreamStateView::Finished, ActionView::Finish(Err(error)))
}

/// The last step: the trigger cannot be handled.
pub open spec fn aborted(fault: Fault) -> (DerivedStreamStateView, ActionView) {
    (DerivedStreamStateView::Finished, ActionView::Abort(fault))
}

/// The first step.  A silenced realtime trigger is only woken; for any other
/// the pipeline is looked up.
pub open spec fn derived_stream_start(trigger: TriggerView, now: int) -> (
    DerivedStreamStateView,
    ActionView,
) {
    match derived_stream_key_of(trigger.module_key) {
        None => aborted(Fault::MalformedKey),
        Some(key) => if trigger.is_realtime && trigger.is_silenced {
            (DerivedStreamStateView::Closing, ActionView::SaveTrigger(trigger.woken_at(now)))
        } else {
            (
                DerivedStreamStateView::Loading { trigger, key },
                ActionView::LoadPipeline { org: trigger.org, derived_stream: key },
            )
        },
    }
}

/// Whether a position is that of the first derived stream of a name.
pub open spec fn is_first_named(
    derived_streams: Seq<DerivedStreamView>,
    name: Seq<char>,
    position: int,
) -> bool {
    &&& 0 <= position < derived_streams.len()
    &&& derived_streams[position].name == name
    &&& forall|i: int| 0 <= i < position ==> (#[trigger] derived_streams[i]).name != name
}

/// The position of the first derived stream of a name, where there is one.
pub open spec fn position_of(
    derived_streams: Option<Seq<DerivedStreamView>>,
    name: Seq<char>,
) -> Option<int> {
    match derived_streams {
        Some(derived_streams) => if exists|position: int|
            is_first_named(derived_streams, name, position) {
            Some(choose|position: int| is_first_named(derived_streams, name, position))
        } else {
            None
        },
        None => None,
    }
}

/// A derived stream's trigger made ready for its next run: waiting and awake,
/// with the count of its retries as it is.
pub open spec fn readied_at(trigger: TriggerView, now: int) -> TriggerView {
    TriggerView {
        next_run_at: now,
        is_silenced: false,
        status: TriggerStatus::Waiting,
        ..trigger
    }
}

/// The step once the pipeline is looked up: the first derived stream of the
/// name is evaluated.
pub open spec fn pipeline_loaded(
    trigger: TriggerView,
    key: DerivedStreamKeyView,
    stream_type: Seq<char>,
    derived_streams: Result<Option<Seq<DerivedStreamView>>, Seq<char>>,
    now: int,
) -> (DerivedStreamStateView, ActionView) {
    match derived_streams {
        Err(_) => failed(
            HandlerErrorView::PipelineNotFound {
                org: trigger.org,
                stream_name: key.stream_name,
                stream_type,
                pipeline_name: key.pipeline_name,
            },
        ),
        Ok(derived_streams) => match position_of(derived_streams, key.name) {
            None => failed(
                HandlerErrorView::DerivedStreamNotFound {
                    org: trigger.org,
                    stream_name: key.stream_name,
                    stream_type,
                    name: key.name,
                },
            ),
            Some(position) => (
                DerivedStreamStateView::Evaluating {
                    trigger,
                    renewed: readied_at(trigger, now),
                    stream: derived_streams->0[position],
                },
                ActionView::EvaluateDerivedStream(position),
            ),
        },
    }
}

/// The record of a run that began with `trigger` and leaves it due at `next_run_at`.
pub open spec fn derived_stream_record(trigger: TriggerView, next_run_at: int) -> TriggerDataView {
    TriggerDataView {
        _timestamp: or_epoch(trigger.start_time),
        org: trigger.org,
        module: TriggerDataType::DerivedStream,
        key: trigger.module_key,
        next_run_at,
        is_realtime: trigger.is_realtime,
        is_silenced: trigger.is_silenced,
        status: TriggerDataStatus::Completed,
        start_time: or_epoch(trigger.start_time),
        end_time: or_epoch(trigger.end_time),
        retries: trigger.retries,
        error: None,
    }
}

/// The step once the derived stream is evaluated and its next run is known.
/// Where its conditions hold the rows are ingested; where they do not, the
/// trigger is written.
pub open spec fn derived_stream_planned(
    trigger: TriggerView,
    renewed: TriggerView,
    stream: DerivedStreamView,
    satisfied: bool,
    next: NextRunView,
) -> (DerivedStreamStateView, ActionView) {
    match next {
        NextRunView::Refused(complaint) => failed(HandlerErrorView::InvalidCron(complaint)),
        NextRunView::Broken(fault) => aborted(fault),
        NextRunView::At(instant) => {
            let renewed = TriggerView {
                next_run_at: instant,
                is_silenced: falls_silent(stream.trigger_condition, satisfied),
                ..renewed
            };
            let record = derived_stream_record(trigger, instant);
            if satisfied {
                (
                    DerivedStreamStateView::Ingesting { renewed, record },
                    ActionView::Ingest(stream.destination),
                )
            } else {
                (
                    DerivedStreamStateView::Recording {
                        record: TriggerDataView {
                            status: TriggerDataStatus::ConditionNotSatisfied,
                            ..record
                        },
                    },
                    ActionView::SaveTrigger(renewed),
                )
            }
        },
    }
}

/// The step once the rows are ingested, or could not be.
pub open spec fn rows_ingested(
    renewed: TriggerView,
    record: TriggerDataView,
    result: Result<(), Seq<char>>,
    max_retries: int,
) -> (DerivedStreamStateView, ActionView) {
    match result {
        Ok(_) => (
            DerivedStreamStateView::Recording { record },
            ActionView::SaveTrigger(renewed),
        ),
        Err(message) => {
            let action = write_after_failure(renewed, record.retries, max_retries, true);
            if action is Abort {
                (DerivedStreamStateView::Finished, action)
            } else {
                (
                    DerivedStreamStateView::Recording {
                        record: TriggerDataView {
                            status: TriggerDataStatus::Failed,
                            error: Some("error sending notification for alert: "@ + message),
                            ..record
                        },
                    },
                    action,
                )
            }
        },
    }
}

/// The step that follows an event.
pub open spec fn derived_stream_next(
    state: DerivedStreamStateView,
    event: EventView,
    now: int,
    max_retries: int,
) -> (DerivedStreamStateView, ActionView) {
    match (state, event) {
        (
            DerivedStreamStateView::Loading { trigger, key },
            EventView::PipelineLoaded { stream_type, derived_streams },
        ) => pipeline_loaded(trigger, key, stream_type, derived_streams, now),
        (
            DerivedStreamStateView::Evaluating { trigger, renewed, stream },
            EventView::DerivedStreamEvaluated(result),
        ) => match result {
            Err(message) => failed(HandlerErrorView::Service(message)),
            Ok(satisfied) => derived_stream_planned(
                trigger,
                renewed,
                stream,
                satisfied,
                run_by_condition(
                    stream.trigger_condition,
                    stream.tz_offset,
                    FrequencyUnit::Minutes,
                    satisfied,
                    renewed.next_run_at,
                    now,
                ),
            ),
        },
        (
            DerivedStreamStateView::Ingesting { renewed, record },
            EventView::Ingested(result),
        ) => rows_ingested(renewed, record, result, max_retries),
        (
            DerivedStreamStateView::Recording { record },
            EventView::TriggerSaved(result),
        ) => match result {
            Err(message) => failed(HandlerErrorView::Service(message)),
            Ok(_) => (
                DerivedStreamStateView::Publishing,
                ActionView::PublishUsage(TriggerDataView { end_time: now, ..record }),
            ),
        },
        (DerivedStreamStateView::Closing, EventView::TriggerSaved(result)) => match result {
            Err(message) => failed(HandlerErrorView::Service(message)),
            Ok(_) => (DerivedStreamStateView::Finished, ActionView::Finish(Ok(()))),
        },
        (DerivedStreamStateView::Publishing, EventView::UsagePublished) => (
            DerivedStreamStateView::Finished,
            ActionView::Finish(Ok(())),
        ),
        _ => aborted(Fault::UnexpectedEvent),
    }
}

fn fail(error: HandlerError) -> (step: (DerivedStreamState, Action))
    ensures
        step_view(step) == failed(error@),
{
    (DerivedStreamState::Finished, Action::Finish(Err(error)))
}

fn abort(fault: Fault) -> (step: (DerivedStreamState, Action))
    ensures
        step_view(step) == aborted(fault),
{
    (DerivedStreamState::Finished, Action::Abort(fault))
}

/// Begins to handle the trigger of a derived stream.
pub fn handle_derived_stream_triggers(trigger: Trigger, now: i64) -> (step: (
    DerivedStreamState,
    Action,
))
    ensures
        step_view(step) == derived_stream_start(trigger@, now as int),
{
    match derived_stream_key(trigger.module_key.as_str()) {
        None => abort(Fault::MalformedKey),
        Some(key) => if trigger.is_realtime && trigger.is_silenced {
            (DerivedStreamState::Closing, Action::SaveTrigger(trigger.woken_at(now)))
        } else {
            let org = trigger.org.clone();
            let asked = key.clone();
            (
                DerivedStreamState::Loading { trigger, key },
                Action::LoadPipeline { org, derived_stream: asked },
            )
        },
    }
}

/// Finds the first derived stream of a name.
pub fn find_derived_stream(derived_streams: &Vec<DerivedStream>, name: &String) -> (found: Option<
    usize,
>)
    ensures
        found matches Some(position) ==> is_first_named(
            streams(derived_streams@),
            name@,
            position as int,
        ),
        found is None ==> forall|i: int|
            0 <= i < derived_streams.len() ==> (#[trigger] streams(derived_streams@)[i]).name
                != name@,
{
    let mut position: usize = 0;
    while position < derived_streams.len()
        invariant
            position <= derived_streams.len(),
            forall|i: int|
                0 <= i < position ==> (#[trigger] streams(derived_streams@)[i]).name != name@,
        decreases derived_streams.len() - position,
    {
        assert(streams(derived_streams@)[position as int] == derived_streams[position as int]@);
        if derived_streams[position].name.eq(name) {
            return Some(position);
        }
        position = position + 1;
    }
    None
}

/// The first derived stream of a name is the one that is taken.
pub proof fn law_first_of_a_name_is_taken(
    derived_streams: Seq<DerivedStreamView>,
    name: Seq<char>,
    position: int,
)
    requires
        is_first_named(derived_streams, name, position),
    ensures
        position_of(Some(derived_streams), name) == Some(position),
{
    let chosen = choose|position: int| is_first_named(derived_streams, name, position);
    assert(is_first_named(derived_streams, name, chosen));
    if chosen < position {
        assert(derived_streams[chosen].name != name);
    }
    if position < chosen {
        assert(derived_streams[position].name != name);
    }
}

/// Goes on once the pipeline is looked up.
pub fn on_pipeline_loaded(
    trigger: Trigger,
    key: DerivedStreamKey,
    stream_type: String,
    derived_streams: Result<Option<Vec<DerivedStream>>, String>,
    now: i64,
) -> (step: (DerivedStreamState, Action))
    ensures
        step_view(step) == pipeline_loaded(
            trigger@,
            key@,
            stream_type@,
            match derived_streams {
                Ok(Some(found)) => Ok(Some(streams(found@))),
                Ok(None) => Ok(None),
                Err(message) => Err(message@),
            },
            now as int,
        ),
{
    let found = match derived_streams {
        Err(_) => return fail(
            HandlerError::PipelineNotFound {
                org: trigger.org,
                stream_name: key.stream_name,
                stream_type,
                pipeline_name: key.pipeline_name,
            },
        ),
        Ok(found) => found,
    };
    if let Some(mut derived_streams) = found {
        let ghost all = streams(derived_streams@);
        if let Some(position) = find_derived_stream(&derived_streams, &key.name) {
            let stream = derived_streams.remove(position);
            proof {
                law_first_of_a_name_is_taken(all, key.name@, position as int);
            }
            let renewed = Trigger {
                next_run_at: now,
                is_silenced: false,
                status: TriggerStatus::Waiting,
                ..trigger.clone()
            };
            return (
                DerivedStreamState::Evaluating { trigger, renewed, stream },
                Action::EvaluateDerivedStream(position),
            );
        }
        assert(position_of(Some(all), key.name@) is None) by {
            if exists|position: int| is_first_named(all, key.name@, position) {
                let position = choose|position: int| is_first_named(all, key.name@, position);
                assert(all[position].name != key.name@);
            }
        }
    }
    fail(
        HandlerError::DerivedStreamNotFound {
            org: trigger.org,
            stream_name: key.stream_name,
            stream_type,
            name: key.name,
        },
    )
}

/// Goes on once the derived stream is evaluated and its next run is known.
pub fn on_derived_stream_planned(
    trigger: Trigger,
    renewed: Trigger,
    stream: DerivedStream,
    satisfied: bool,
    next: NextRun,
) -> (step: (DerivedStreamState, Action))
    ensures
        step_view(step) == derived_stream_planned(
            trigger@,
            renewed@,
            stream@,
            satisfied,
            next@,
        ),
{
    let instant = match next {
        NextRun::Refused(complaint) => return fail(HandlerError::InvalidCron(complaint)),
        NextRun::Broken(fault) => return abort(fault),
        NextRun::At(instant) => instant,
    };
    let renewed = Trigger {
        next_run_at: instant,
        is_silenced: satisfied && stream.trigger_condition.silence > 0,
        ..renewed
    };
    let record = TriggerData {
        _timestamp: trigger.start_time.unwrap_or(0),
        org: trigger.org,
        module: TriggerDataType::DerivedStream,
        key: trigger.module_key,
        next_run_at: instant,
        is_realtime: trigger.is_realtime,
        is_silenced: trigger.is_silenced,
        status: TriggerDataStatus::Completed,
        start_time: trigger.start_time.unwrap_or(0),
        end_time: trigger.end_time.unwrap_or(0),
        retries: trigger.retries,
        error: None,
    };
    if satisfied {
        (DerivedStreamState::Ingesting { renewed, record }, Action::Ingest(stream.destination))
    } else {
        let record = TriggerData { status: TriggerDataStatus::ConditionNotSatisfied, ..record };
        (DerivedStreamState::Recording { record }, Action::SaveTrigger(renewed))
    }
}

/// Goes on once the rows are ingested, or could not be.
pub fn on_rows_ingested(
    renewed: Trigger,
    record: TriggerData,
    result: Result<(), String>,
    max_retries: i32,
) -> (step: (DerivedStreamState, Action))
    ensures
        step_view(step) == rows_ingested(
            renewed@,
            record@,
            answer(result),
            max_retries as int,
        ),
{
    match result {
        Ok(_) => (DerivedStreamState::Recording { record }, Action::SaveTrigger(renewed)),
        Err(message) => {
            let action = after_failure(renewed, record.retries, max_retries, true);
            if let Action::Abort(fault) = action {
                return abort(fault);
            }
            let text = failure_text("error sending notification for alert: ", message.as_str());
            let record = TriggerData {
                status: TriggerDataStatus::Failed,
                error: Some(text),
                ..record
            };
            (DerivedStreamState::Recording { record }, action)
        },
    }
}

/// Whether the trigger that a step writes, or keeps to write, is due after an instant.
pub open spec fn due_after(step: (DerivedStreamStateView, ActionView), instant: int) -> bool {
    &&& step.0 matches DerivedStreamStateView::Ingesting { renewed, .. } ==> instant
        < renewed.next_run_at
    &&& step.1 matches ActionView::SaveTrigger(renewed) ==> instant < renewed.next_run_at
}

/// Whether the run that a step found by a cron expression lies ahead: a derived
/// stream that was evaluated at `now` is due after that, and after its silence
/// where it falls silent.
pub open spec fn cron_run_lies_ahead(
    state: DerivedStreamStateView,
    event: EventView,
    now: int,
    step: (DerivedStreamStateView, ActionView),
) -> bool {
    state matches DerivedStreamStateView::Evaluating { stream, .. } ==> (
    event matches EventView::DerivedStreamEvaluated(Ok(satisfied)) ==> {
        let condition = stream.trigger_condition;
        condition.frequency_type == FrequencyType::Cron ==> {
            &&& due_after(step, now)
            &&& falls_silent(condition, satisfied) ==> due_after(
                step,
                now + condition.silence * MICROS_PER_MINUTE,
            )
        }
    })
}

/// Goes on after an event, at the instant `now`.
pub fn resume_derived_stream(
    state: DerivedStreamState,
    event: Event,
    now: i64,
    max_retries: i32,
) -> (step: (DerivedStreamState, Action))
    ensures
        step_view(step) == derived_stream_next(
            state@,
            event@,
            now as int,
            max_retries as int,
        ),
        cron_run_lies_ahead(state@, event@, now as int, step_view(step)),
{
    match (state, event) {
        (
            DerivedStreamState::Loading { trigger, key },
            Event::PipelineLoaded { stream_type, derived_streams },
        ) => on_pipeline_loaded(trigger, key, stream_type, derived_streams, now),
        (
            DerivedStreamState::Evaluating { trigger, renewed, stream },
            Event::DerivedStreamEvaluated(result),
        ) => match result {
            Err(message) => fail(HandlerError::Service(message)),
            Ok(satisfied) => {
                let next = next_by_condition(
                    &stream.trigger_condition,
                    stream.tz_offset,
                    FrequencyUnit::Minutes,
                    satisfied,
                    renewed.next_run_at,
                    now,
                );
                on_derived_stream_planned(trigger, renewed, stream, satisfied, next)
            },
        },
        (
            DerivedStreamState::Ingesting { renewed, record },
            Event::Ingested(result),
        ) => on_rows_ingested(renewed, record, result, max_retries),
        (DerivedStreamState::Recording { record }, Event::TriggerSaved(result)) => match result {
            Err(message) => fail(HandlerError::Service(message)),
            Ok(_) => {
                let record = TriggerData { end_time: now, ..record };
                (DerivedStreamState::Publishing, Action::PublishUsage(record))
            },
        },
        (DerivedStreamState::Closing, Event::TriggerSaved(result)) => match result {
            Err(message) => fail(HandlerError::Service(message)),
            Ok(_) => (DerivedStreamState::Finished, Action::Finish(Ok(()))),
        },
        (DerivedStreamState::Publishing, Event::UsagePublished) => (
            DerivedStreamState::Finished,
            Action::Finish(Ok(())),
        ),
        _ => abort(Fault::UnexpectedEvent),
    }
}

/// A derived stream falls silent if and only if its conditions hold and it has a
/// silence: that is how its trigger is written, whatever became of the rows.
pub proof fn law_silence_follows_the_conditions(
    trigger: TriggerView,
    renewed: TriggerView,
    stream: DerivedStreamView,
    satisfied: bool,
    ingested: EventView,
    nows: (int, int),
    max_retries: int,
)
    ensures
        ({
            let (evaluated, first) = derived_stream_next(
                DerivedStreamStateView::Evaluating { trigger, renewed, stream },
                EventView::DerivedStreamEvaluated(Ok(satisfied)),
                nows.0,
                max_retries,
            );
            let (_, second) = derived_stream_next(evaluated, ingested, nows.1, max_retries);
            let silent = falls_silent(stream.trigger_condition, satisfied);
            &&& first matches ActionView::SaveTrigger(written) ==> written.is_silenced == silent
            &&& second matches ActionView::SaveTrigger(written) ==> written.is_silenced == silent
        }),
{
}

/// What is known of the next run decides: an instant is taken over into the
/// trigger and the record, a complaint ends the handling with an error, and a
/// fault breaks it off.  Rows are ingested if and only if the conditions hold, and
/// then into the derived stream's destination as it stands.
pub proof fn law_next_run_of_a_derived_stream_is_taken_over(
    trigger: TriggerView,
    renewed: TriggerView,
    stream: DerivedStreamView,
    satisfied: bool,
    instant: int,
    complaint: Seq<char>,
    fault: Fault,
)
    ensures
        derived_stream_planned(
            trigger,
            renewed,
            stream,
            satisfied,
            NextRunView::Refused(complaint),
        ).1 == ActionView::Finish(Err(HandlerErrorView::InvalidCron(complaint))),
        derived_stream_planned(
            trigger,
            renewed,
            stream,
            satisfied,
            NextRunView::Broken(fault),
        ).1 == ActionView::Abort(fault),
        ({
            let (state, action) = derived_stream_planned(
                trigger,
                renewed,
                stream,
                satisfied,
                NextRunView::At(instant),
            );
            let written = TriggerView {
                org: renewed.org,
                module: renewed.module,
                module_key: renewed.module_key,
                next_run_at: instant,
                is_realtime: renewed.is_realtime,
                is_silenced: satisfied && stream.trigger_condition.silence > 0,
                status: renewed.status,
                start_time: renewed.start_time,
                end_time: renewed.end_time,
                retries: renewed.retries,
            };
            let began = match trigger.start_time {
                Some(instant) => instant as int,
                None => 0,
            };
            let record = TriggerDataView {
                _timestamp: began,
                org: trigger.org,
                module: TriggerDataType::DerivedStream,
                key: trigger.module_key,
                next_run_at: instant,
                is_realtime: trigger.is_realtime,
                is_silenced: trigger.is_silenced,
                status: if satisfied {
                    TriggerDataStatus::Completed
                } else {
                    TriggerDataStatus::ConditionNotSatisfied
                },
                start_time: began,
                end_time: match trigger.end_time {
                    Some(instant) => instant as int,
                    None => 0,
                },
                retries: trigger.retries,
                error: None,
            };
            if satisfied {
                &&& action matches ActionView::Ingest(destination)
                &&& destination.org_id == stream.destination.org_id
                &&& destination.stream_name == stream.destination.stream_name
                &&& destination.stream_type == stream.destination.stream_type
                &&& state == (DerivedStreamStateView::Ingesting { renewed: written, record })
            } else {
                &&& action == ActionView::SaveTrigger(written)
                &&& state == (DerivedStreamStateView::Recording { record })
            }
        }),
{
}

/// What came of the ingestion decides what is written and recorded, whatever else
/// the trigger and the record hold.  After a failure the trigger moves on if and
/// only if its count reaches the maximum.
pub proof fn law_ingestion_decides_the_write(
    renewed: TriggerView,
    record: TriggerDataView,
    result: Result<(), Seq<char>>,
    max_retries: int,
)
    ensures
        ({
            let (state, action) = rows_ingested(renewed, record, result, max_retries);
            let failed = result is Err;
            &&& failed && record.retries + 1 > i32::MAX ==> action == ActionView::Abort(
                Fault::TooManyRetries,
            )
            &&& failed && record.retries < i32::MAX && record.retries + 1 < max_retries ==> action
                == ActionView::SaveStatus(
                StatusUpdateView {
                    org: renewed.org,
                    module: renewed.module,
                    module_key: renewed.module_key,
                    status: TriggerStatus::Waiting,
                    retries: record.retries + 1,
                },
            )
            &&& failed && record.retries < i32::MAX && record.retries + 1 >= max_retries ==> action
                == ActionView::SaveTrigger(renewed)
            &&& !failed ==> action == ActionView::SaveTrigger(renewed)
            &&& !(failed && record.retries + 1 > i32::MAX) ==> state == (
            DerivedStreamStateView::Recording {
                record: TriggerDataView {
                    _timestamp: record._timestamp,
                    org: record.org,
                    module: record.module,
                    key: record.key,
                    next_run_at: record.next_run_at,
                    is_realtime: record.is_realtime,
                    is_silenced: record.is_silenced,
                    status: if failed {
                        TriggerDataStatus::Failed
                    } else {
                        record.status
                    },
                    start_time: record.start_time,
                    end_time: record.end_time,
                    retries: record.retries,
                    error: match result {
                        Ok(_) => record.error,
                        Err(message) => Some("error sending notification for alert: "@ + message),
                    },
                },
            })
        }),
{
}

/// The first derived stream of the key's name is evaluated, with its trigger
/// made ready for its next run and the retries that it had.
pub proof fn law_lookup_of_a_pipeline_decides(
    trigger: TriggerView,
    key: DerivedStreamKeyView,
    stream_type: Seq<char>,
    derived_streams: Seq<DerivedStreamView>,
    position: int,
    message: Seq<char>,
    now: int,
)
    requires
        0 <= position < derived_streams.len(),
        derived_streams[position].name == key.name,
        forall|i: int| 0 <= i < position ==> (#[trigger] derived_streams[i]).name != key.name,
    ensures
        pipeline_loaded(trigger, key, stream_type, Ok(Some(derived_streams)), now) == (
            DerivedStreamStateView::Evaluating {
                trigger,
                renewed: TriggerView {
                    org: trigger.org,
                    module: trigger.module,
                    module_key: trigger.module_key,
                    next_run_at: now,
                    is_realtime: trigger.is_realtime,
                    is_silenced: false,
                    status: TriggerStatus::Waiting,
                    start_time: trigger.start_time,
                    end_time: trigger.end_time,
                    retries: trigger.retries,
                },
                stream: derived_streams[position],
            },
            ActionView::EvaluateDerivedStream(position),
        ),
        pipeline_loaded(trigger, key, stream_type, Ok(None), now).1 == ActionView::Finish(
            Err(
                HandlerErrorView::DerivedStreamNotFound {
                    org: trigger.org,
                    stream_name: key.stream_name,
                    stream_type,
                    name: key.name,
                },
            ),
        ),
        pipeline_loaded(trigger, key, stream_type, Err(message), now).1 == ActionView::Finish(
            Err(
                HandlerErrorView::PipelineNotFound {
                    org: trigger.org,
                    stream_name: key.stream_name,
                    stream_type,
                    pipeline_name: key.pipeline_name,
                },
            ),
        ),
{
    assert(is_first_named(derived_streams, key.name, position));
    law_first_of_a_name_is_taken(derived_streams, key.name, position);
}

/// A position is that of the first derived stream of a name if and only if the
/// one there has the name and none before it has.
pub proof fn law_first_of_a_name_has_none_before(
    derived_streams: Seq<DerivedStreamView>,
    name: Seq<char>,
    position: int,
    before: int,
)
    requires
        is_first_named(derived_streams, name, position),
    ensures
        0 <= position < derived_streams.len(),
        derived_streams[position].name == name,
        0 <= before < position ==> derived_streams[before].name != name,
{
}

/// The view of a state holds what the state holds.
pub proof fn law_state_view_is_faithful(
    trigger: Trigger,
    renewed: Trigger,
    key: DerivedStreamKey,
    stream: DerivedStream,
    record: TriggerData,
)
    ensures
        (DerivedStreamState::Loading { trigger, key })@ == (DerivedStreamStateView::Loading {
            trigger: trigger@,
            key: key@,
        }),
        (DerivedStreamState::Evaluating { trigger, renewed, stream })@ == (
        DerivedStreamStateView::Evaluating {
            trigger: trigger@,
            renewed: renewed@,
            stream: stream@,
        }),
        (DerivedStreamState::Ingesting { renewed, record })@ == (
        DerivedStreamStateView::Ingesting { renewed: renewed@, record: record@ }),
        (DerivedStreamState::Recording { record })@ == (DerivedStreamStateView::Recording {
            record: record@,
        }),
        DerivedStreamState::Publishing@ == DerivedStreamStateView::Publishing,
        DerivedStreamState::Closing@ == DerivedStreamStateView::Closing,
        DerivedStreamState::Finished@ == DerivedStreamStateView::Finished,
{
}

} // verus!
