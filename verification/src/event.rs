//! What a handler asks for, and what it is told.

use vstd::prelude::*;

use crate::module_key::{AlertKey, AlertKeyView, DerivedStreamKey, DerivedStreamKeyView};
use crate::outcome::{Fault, HandlerError, HandlerErrorView};
use crate::types::{
    Alert, AlertView, DerivedStream, DerivedStreamView, Destination, DestinationView, Report,
    ReportUpdate, ReportUpdateView, ReportView, StatusUpdate, StatusUpdateView, Trigger,
    TriggerData, TriggerDataView, TriggerView,
};

verus! {

/// What came of an alert's evaluation: whether its conditions hold, and the end
/// of the time that was looked at.
#[derive(Debug, Clone, Copy, PartialEq, Eq)]
pub struct Evaluation {
    pub satisfied: bool,
    pub end_time: i64,
}

/// What came of a notification.
#[derive(Debug, PartialEq, Eq)]
pub enum Delivery {
    /// Every destination got it.
    Complete,
    /// Some destinations did not get it, for this reason.
    Partial(String),
    /// It could not be sent, with this message.
    Failed(String),
}

#[verifier::ext_equal]
pub enum DeliveryView {
    Complete,
    Partial(Seq<char>),
    Failed(Seq<char>),
}

impl View for Delivery {
    type V = DeliveryView;

    open spec fn view(&self) -> DeliveryView {
        match self {
            Delivery::Complete => DeliveryView::Complete,
            Delivery::Partial(reason) => DeliveryView::Partial(reason@),
            Delivery::Failed(message) => DeliveryView::Failed(message@),
        }
    }
}

/// The answer to an action.  Errors are the messages of the services that failed.
#[derive(Debug, PartialEq, Eq)]
pub enum Event {
    /// Answers `SaveTrigger` and `SaveStatus`.
    TriggerSaved(Result<(), String>),
    /// Answers `LoadAlert`, with the stream type by its name.
    AlertLoaded { stream_type: String, alert: Result<Option<Alert>, String> },
    /// Answers `EvaluateAlert`.
    AlertEvaluated(Result<Evaluation, String>),
    /// Answers `NotifyAlert`, with the span of time of the rows that were found.
    AlertNotified { start_time: i64, end_time: i64, delivery: Delivery },
    /// Answers `LoadReport`.
    ReportLoaded(Result<Report, String>),
    /// Answers `SendReport`.
    ReportSent(Result<(), String>),
    /// Answers `ReloadReport`: whether the report is enabled by now.
    ReportReloaded(Result<bool, String>),
    /// Answers `StoreReport`.
    ReportStored(Result<(), String>),
    /// Answers `LoadPipeline`, with the stream type by its name.
    PipelineLoaded {
        stream_type: String,
        derived_streams: Result<Option<Vec<DerivedStream>>, String>,
    },
    /// Answers `EvaluateDerivedStream`: whether its conditions hold.
    DerivedStreamEvaluated(Result<bool, String>),
    /// Answers `Ingest`.
    Ingested(Result<(), String>),
    /// Answers `PublishUsage`.
    UsagePublished,
}

#[verifier::ext_equal]
pub enum EventView {
    TriggerSaved(Result<(), Seq<char>>),
    AlertLoaded { stream_type: Seq<char>, alert: Result<Option<AlertView>, Seq<char>> },
    AlertEvaluated(Result<Evaluation, Seq<char>>),
    AlertNotified { start_time: int, end_time: int, delivery: DeliveryView },
    ReportLoaded(Result<ReportView, Seq<char>>),
    ReportSent(Result<(), Seq<char>>),
    ReportReloaded(Result<bool, Seq<char>>),
    ReportStored(Result<(), Seq<char>>),
    PipelineLoaded {
        stream_type: Seq<char>,
        derived_streams: Result<Option<Seq<DerivedStreamView>>, Seq<char>>,
    },
    DerivedStreamEvaluated(Result<bool, Seq<char>>),
    Ingested(Result<(), Seq<char>>),
    UsagePublished,
}

/// An answer with its message as text.
pub open spec fn answer<T>(result: Result<T, String>) -> Result<T, Seq<char>> {
    match result {
        Ok(value) => Ok(value),
        Err(message) => Err(message@),
    }
}

/// The derived streams of a pipeline.
pub open spec fn streams(derived_streams: Seq<DerivedStream>) -> Seq<DerivedStreamView> {
    derived_streams.map_values(|stream: DerivedStream| stream@)
}

impl View for Event {
    type V = EventView;

    open spec fn view(&self) -> EventView {
        match *self {
            Event::TriggerSaved(result) => EventView::TriggerSaved(answer(result)),
            Event::AlertLoaded { stream_type, alert } => EventView::AlertLoaded {
                stream_type: stream_type@,
                alert: match alert {
                    Ok(Some(alert)) => Ok(Some(alert@)),
                    Ok(None) => Ok(None),
                    Err(message) => Err(message@),
                },
            },
            Event::AlertEvaluated(result) => EventView::AlertEvaluated(answer(result)),
            Event::AlertNotified { start_time, end_time, delivery } => EventView::AlertNotified {
                start_time: start_time as int,
                end_time: end_time as int,
                delivery: delivery@,
            },
            Event::ReportLoaded(result) => EventView::ReportLoaded(
                match result {
                    Ok(report) => Ok(report@),
                    Err(message) => Err(message@),
                },
            ),
            Event::ReportSent(result) => EventView::ReportSent(answer(result)),
            Event::ReportReloaded(result) => EventView::ReportReloaded(answer(result)),
            Event::ReportStored(result) => EventView::ReportStored(answer(result)),
            Event::PipelineLoaded { stream_type, derived_streams } => EventView::PipelineLoaded {
                stream_type: stream_type@,
                derived_streams: match derived_streams {
                    Ok(Some(found)) => Ok(Some(streams(found@))),
                    Ok(None) => Ok(None),
                    Err(message) => Err(message@),
                },
            },
            Event::DerivedStreamEvaluated(result) => EventView::DerivedStreamEvaluated(
                answer(result),
            ),
            Event::Ingested(result) => EventView::Ingested(answer(result)),
            Event::UsagePublished => EventView::UsagePublished,
        }
    }
}

/// What a handler asks for next.
#[derive(Debug, PartialEq, Eq)]
pub enum Action {
    /// Write a trigger to the scheduler's store.
    SaveTrigger(Trigger),
    /// Write the status and the retries of a trigger to the scheduler's store.
    SaveStatus(StatusUpdate),
    /// Look an alert up.
    LoadAlert { org: String, alert: AlertKey },
    /// Evaluate the alert that was looked up.
    EvaluateAlert,
    /// Notify the alert's destinations of the rows that were found.
    NotifyAlert,
    /// Look a report up.
    LoadReport { org: String, name: String },
    /// Send the report to its subscribers, with this for whether it is enabled.
    SendReport { enabled: bool },
    /// Look the report up again.
    ReloadReport { org: String, name: String },
    /// Write what a run changed of the report, and leave its trigger alone.
    StoreReport(ReportUpdate),
    /// Look a pipeline up.
    LoadPipeline { org: String, derived_stream: DerivedStreamKey },
    /// Evaluate the derived stream at this position of the pipeline.
    EvaluateDerivedStream(usize),
    /// Ingest the rows that were found, as JSON, into a destination.
    Ingest(Destination),
    /// Publish a usage record.
    PublishUsage(TriggerData),
    /// Stop: the trigger is handled, or an error ended it.
    Finish(Result<(), HandlerError>),
    /// Stop: the trigger cannot be handled.
    Abort(Fault),
}

#[verifier::ext_equal]
pub enum ActionView {
    SaveTrigger(TriggerView),
    SaveStatus(StatusUpdateView),
    LoadAlert { org: Seq<char>, alert: AlertKeyView },
    EvaluateAlert,
    NotifyAlert,
    LoadReport { org: Seq<char>, name: Seq<char> },
    SendReport { enabled: bool },
    ReloadReport { org: Seq<char>, name: Seq<char> },
    StoreReport(ReportUpdateView),
    LoadPipeline { org: Seq<char>, derived_stream: DerivedStreamKeyView },
    EvaluateDerivedStream(int),
    Ingest(DestinationView),
    PublishUsage(TriggerDataView),
    Finish(Result<(), HandlerErrorView>),
    Abort(Fault),
}

impl View for Action {
    type V = ActionView;

    open spec fn view(&self) -> ActionView {
        match *self {
            Action::SaveTrigger(trigger) => ActionView::SaveTrigger(trigger@),
            Action::SaveStatus(update) => ActionView::SaveStatus(update@),
            Action::LoadAlert { org, alert } => ActionView::LoadAlert { org: org@, alert: alert@ },
            Action::EvaluateAlert => ActionView::EvaluateAlert,
            Action::NotifyAlert => ActionView::NotifyAlert,
            Action::LoadReport { org, name } => ActionView::LoadReport { org: org@, name: name@ },
            Action::SendReport { enabled } => ActionView::SendReport { enabled },
            Action::ReloadReport { org, name } => ActionView::ReloadReport {
                org: org@,
                name: name@,
            },
            Action::StoreReport(update) => ActionView::StoreReport(update@),
            Action::LoadPipeline { org, derived_stream } => ActionView::LoadPipeline {
                org: org@,
                derived_stream: derived_stream@,
            },
            Action::EvaluateDerivedStream(position) => ActionView::EvaluateDerivedStream(
                position as int,
            ),
            Action::Ingest(destination) => ActionView::Ingest(destination@),
            Action::PublishUsage(record) => ActionView::PublishUsage(record@),
            Action::Finish(Ok(())) => ActionView::Finish(Ok(())),
            Action::Finish(Err(error)) => ActionView::Finish(Err(error@)),
            Action::Abort(fault) => ActionView::Abort(fault),
        }
    }
}

impl ActionView {
    /// Whether the action writes to the scheduler's store.
    pub open spec fn is_write(self) -> bool {
        self is SaveTrigger || self is SaveStatus
    }

    /// Whether the action ends the handling.
    pub open spec fn is_last(self) -> bool {
        self is Finish || self is Abort
    }
}

/// The view of an event holds what the event holds.
pub proof fn law_event_view_is_faithful(
    saved: Result<(), String>,
    evaluated: Result<Evaluation, String>,
    satisfied: Result<bool, String>,
    start_time: i64,
    end_time: i64,
    delivery: Delivery,
    message: String,
    report: Report,
)
    ensures
        saved is Ok ==> {
            &&& Event::TriggerSaved(saved)@ == EventView::TriggerSaved(Ok(()))
            &&& Event::ReportSent(saved)@ == EventView::ReportSent(Ok(()))
            &&& Event::ReportStored(saved)@ == EventView::ReportStored(Ok(()))
            &&& Event::Ingested(saved)@ == EventView::Ingested(Ok(()))
        },
        saved matches Err(message) ==> {
            &&& Event::TriggerSaved(saved)@ == EventView::TriggerSaved(Err(message@))
            &&& Event::ReportSent(saved)@ == EventView::ReportSent(Err(message@))
            &&& Event::ReportStored(saved)@ == EventView::ReportStored(Err(message@))
            &&& Event::Ingested(saved)@ == EventView::Ingested(Err(message@))
        },
        Event::AlertEvaluated(evaluated)@ == EventView::AlertEvaluated(
            match evaluated {
                Ok(evaluation) => Ok(evaluation),
                Err(message) => Err(message@),
            },
        ),
        satisfied matches Ok(holds) ==> {
            &&& Event::DerivedStreamEvaluated(satisfied)@ == EventView::DerivedStreamEvaluated(
                Ok(holds),
            )
            &&& Event::ReportReloaded(satisfied)@ == EventView::ReportReloaded(Ok(holds))
        },
        satisfied matches Err(message) ==> {
            &&& Event::DerivedStreamEvaluated(satisfied)@ == EventView::DerivedStreamEvaluated(
                Err(message@),
            )
            &&& Event::ReportReloaded(satisfied)@ == EventView::ReportReloaded(Err(message@))
        },
        (Event::AlertNotified { start_time, end_time, delivery })@ == (EventView::AlertNotified {
            start_time: start_time as int,
            end_time: end_time as int,
            delivery: match delivery {
                Delivery::Complete => DeliveryView::Complete,
                Delivery::Partial(reason) => DeliveryView::Partial(reason@),
                Delivery::Failed(message) => DeliveryView::Failed(message@),
            },
        }),
        Event::ReportLoaded(Ok(report))@ == EventView::ReportLoaded(Ok(report@)),
        Event::ReportLoaded(Err(message))@ == EventView::ReportLoaded(Err(message@)),
        Event::UsagePublished@ == EventView::UsagePublished,
{
}

/// The view of a lookup's answer holds what was found, in its order.
pub proof fn law_lookup_view_is_faithful(
    stream_type: String,
    alert: Alert,
    message: String,
    derived_streams: Vec<DerivedStream>,
    i: int,
)
    requires
        0 <= i < derived_streams.len(),
    ensures
        (Event::AlertLoaded { stream_type, alert: Ok(Some(alert)) })@ == (EventView::AlertLoaded {
            stream_type: stream_type@,
            alert: Ok(Some(alert@)),
        }),
        (Event::AlertLoaded { stream_type, alert: Ok(None) })@ == (EventView::AlertLoaded {
            stream_type: stream_type@,
            alert: Ok(None),
        }),
        (Event::AlertLoaded { stream_type, alert: Err(message) })@ == (EventView::AlertLoaded {
            stream_type: stream_type@,
            alert: Err(message@),
        }),
        ({
            let event = (Event::PipelineLoaded {
                stream_type,
                derived_streams: Ok(Some(derived_streams)),
            })@;
            &&& event is PipelineLoaded
            &&& event->PipelineLoaded_stream_type == stream_type@
            &&& event->derived_streams matches Ok(Some(found)) && found.len()
                == derived_streams.len() && found[i] == derived_streams[i]@
        }),
        (Event::PipelineLoaded { stream_type, derived_streams: Ok(None) })@ == (
        EventView::PipelineLoaded { stream_type: stream_type@, derived_streams: Ok(None) }),
        (Event::PipelineLoaded { stream_type, derived_streams: Err(message) })@ == (
        EventView::PipelineLoaded { stream_type: stream_type@, derived_streams: Err(message@) }),
{
}

/// The view of an action holds what the action holds.
pub proof fn law_action_view_is_faithful(
    trigger: Trigger,
    update: StatusUpdate,
    org: String,
    name: String,
    alert: AlertKey,
    derived_stream: DerivedStreamKey,
    enabled: bool,
    stored: ReportUpdate,
    position: usize,
    destination: Destination,
    record: TriggerData,
    error: HandlerError,
    fault: Fault,
)
    ensures
        Action::SaveTrigger(trigger)@ == ActionView::SaveTrigger(trigger@),
        Action::SaveStatus(update)@ == ActionView::SaveStatus(update@),
        (Action::LoadAlert { org, alert })@ == (ActionView::LoadAlert { org: org@, alert: alert@ }),
        Action::EvaluateAlert@ == ActionView::EvaluateAlert,
        Action::NotifyAlert@ == ActionView::NotifyAlert,
        (Action::LoadReport { org, name })@ == (ActionView::LoadReport { org: org@, name: name@ }),
        (Action::SendReport { enabled })@ == (ActionView::SendReport { enabled }),
        (Action::ReloadReport { org, name })@ == (ActionView::ReloadReport {
            org: org@,
            name: name@,
        }),
        Action::StoreReport(stored)@ == ActionView::StoreReport(stored@),
        (Action::LoadPipeline { org, derived_stream })@ == (ActionView::LoadPipeline {
            org: org@,
            derived_stream: derived_stream@,
        }),
        Action::EvaluateDerivedStream(position)@ == ActionView::EvaluateDerivedStream(
            position as int,
        ),
        Action::Ingest(destination)@ == ActionView::Ingest(destination@),
        Action::PublishUsage(record)@ == ActionView::PublishUsage(record@),
        Action::Finish(Ok(()))@ == ActionView::Finish(Ok(())),
        Action::Finish(Err(error))@ == ActionView::Finish(Err(error@)),
        Action::Abort(fault)@ == ActionView::Abort(fault),
{
}

} // verus!
