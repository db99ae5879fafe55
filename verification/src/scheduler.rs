//! The scheduler: one pass over the triggers that are due, and the handling of
//! each of them.

use vstd::prelude::*;

use crate::alert::{
    alert_next, alert_start, handle_alert_triggers, resume_alert, AlertState, AlertStateView,
};
use crate::clock::{utc_now, LATEST_INSTANT};
use crate::derived_stream::{
    derived_stream_next, derived_stream_start, handle_derived_stream_triggers,
    resume_derived_stream, DerivedStreamState, DerivedStreamStateView,
};
use crate::event::{Action, ActionView, DeliveryView, Event, EventView};
use crate::outcome::Fault;
use crate::report::{
    handle_report_triggers, report_next, report_start, resume_report, ReportState, ReportStateView,
};
use crate::types::{Trigger, TriggerModule, TriggerView};

verus! {

/// How far the handling of a trigger has come.
#[derive(Debug, PartialEq, Eq)]
pub enum Handler {
    Alert(AlertState),
    Report(ReportState),
    DerivedStream(DerivedStreamState),
}

#[verifier::ext_equal]
pub enum HandlerView {
    Alert(AlertStateView),
    Report(ReportStateView),
    DerivedStream(DerivedStreamStateView),
}

impl View for Handler {
    type V = HandlerView;

    open spec fn view(&self) -> HandlerView {
        match *self {
            Handler::Alert(state) => HandlerView::Alert(state@),
            Handler::Report(state) => HandlerView::Report(state@),
            Handler::DerivedStream(state) => HandlerView::DerivedStream(state@),
        }
    }
}

/// A step of the handling: where it stands then, and what it asks for.
pub open spec fn step_view(step: (Handler, Action)) -> (HandlerView, ActionView) {
    (step.0@, step.1@)
}

/// The first step: each module has its own handling.
pub open spec fn started(trigger: TriggerView, now: int) -> (HandlerView, ActionView) {
    match trigger.module {
        TriggerModule::Report => {
            let (state, action) = report_start(trigger);
            (HandlerView::Report(state), action)
        },
        TriggerModule::Alert => {
            let (state, action) = alert_start(trigger, now);
            (HandlerView::Alert(state), action)
        },
        TriggerModule::DerivedStream => {
            let (state, action) = derived_stream_start(trigger, now);
            (HandlerView::DerivedStream(state), action)
        },
    }
}

/// The step that follows an event.
pub open spec fn resumed(
    handler: HandlerView,
    event: EventView,
    now: int,
    max_retries: int,
) -> (HandlerView, ActionView) {
    match handler {
        HandlerView::Alert(state) => {
            let (state, action) = alert_next(state, event, now, max_retries);
            (HandlerView::Alert(state), action)
        },
        HandlerView::Report(state) => {
            let (state, action) = report_next(state, event, now, max_retries);
            (HandlerView::Report(state), action)
        },
        HandlerView::DerivedStream(state) => {
            let (state, action) = derived_stream_next(state, event, now, max_retries);
            (HandlerView::DerivedStream(state), action)
        },
    }
}

/// Whether the run that a step found by a cron expression lies ahead of `now`,
/// and of the end of the silence where the trigger falls silent.
pub open spec fn cron_run_lies_ahead(
    handler: HandlerView,
    event: EventView,
    now: int,
    step: (HandlerView, ActionView),
) -> bool {
    match (handler, step.0) {
        (HandlerView::Alert(state), HandlerView::Alert(after)) => {
            crate::alert::cron_run_lies_ahead(state, event, now, (after, step.1))
        },
        (HandlerView::Report(_), HandlerView::Report(after)) => {
            crate::report::cron_run_lies_ahead(event, now, (after, step.1))
        },
        (HandlerView::DerivedStream(state), HandlerView::DerivedStream(after)) => {
            crate::derived_stream::cron_run_lies_ahead(state, event, now, (after, step.1))
        },
        // A handler stays one of its module.
        _ => false,
    }
}

/// Whether a step goes by the maximum of retries and by the instant that it was
/// given.  After a failure the trigger moves on if and only if its count reaches
/// the maximum and it is not the trigger of a report that is sent once.  What is
/// disabled is put off by a week from `now`.
pub open spec fn goes_by_its_inputs(
    handler: HandlerView,
    event: EventView,
    now: int,
    max_retries: int,
    action: ActionView,
) -> bool {
    &&& handler matches HandlerView::Alert(AlertStateView::Notifying { renewed, record }) ==> (
    event matches EventView::AlertNotified { delivery: DeliveryView::Failed(_), .. } ==> (
    record.retries < i32::MAX ==> (action == ActionView::SaveTrigger(renewed) <==> record.retries
        + 1 >= max_retries)))
    &&& handler matches HandlerView::DerivedStream(
        DerivedStreamStateView::Ingesting { renewed, record },
    ) ==> (event matches EventView::Ingested(Err(_)) ==> (record.retries < i32::MAX ==> (action
        == ActionView::SaveTrigger(renewed) <==> record.retries + 1 >= max_retries)))
    &&& handler matches HandlerView::Report(
        ReportStateView::Sending { renewed, record, run_once, .. },
    ) ==> (event matches EventView::ReportSent(Err(_)) ==> (record.retries < i32::MAX ==> (action
        == ActionView::SaveTrigger(renewed) <==> record.retries + 1 >= max_retries && !run_once)))
    &&& event matches EventView::AlertLoaded { alert: Ok(Some(alert)), .. } ==> (!alert.enabled
        ==> (action matches ActionView::SaveTrigger(written) ==> written.next_run_at == now
        + 604_800_000_000))
    &&& event matches EventView::ReportLoaded(Ok(report)) ==> (!report.enabled ==> (
    action matches ActionView::SaveTrigger(written) ==> written.next_run_at == now
        + 604_800_000_000))
}

/// Begins to handle a trigger, at the instant `now`.
pub fn handle_triggers_at(trigger: Trigger, now: i64) -> (step: (Handler, Action))
    ensures
        step_view(step) == started(trigger@, now as int),
        step.1@ matches ActionView::SaveTrigger(written) ==> written.next_run_at == now,
        trigger.module == TriggerModule::Report ==> step.1@ == (ActionView::LoadReport {
            org: trigger.org@,
            name: trigger.module_key@,
        }),
{
    match trigger.module {
        TriggerModule::Report => {
            let (state, action) = handle_report_triggers(trigger);
            (Handler::Report(state), action)
        },
        TriggerModule::Alert => {
            let (state, action) = handle_alert_triggers(trigger, now);
            (Handler::Alert(state), action)
        },
        TriggerModule::DerivedStream => {
            let (state, action) = handle_derived_stream_triggers(trigger, now);
            (Handler::DerivedStream(state), action)
        },
    }
}

/// Goes on after an event, at the instant `now`.
pub fn resume_at(handler: Handler, event: Event, now: i64, max_retries: i32) -> (step: (
    Handler,
    Action,
))
    ensures
        step_view(step) == resumed(handler@, event@, now as int, max_retries as int),
        cron_run_lies_ahead(handler@, event@, now as int, step_view(step)),
        goes_by_its_inputs(handler@, event@, now as int, max_retries as int, step.1@),
{
    match handler {
        Handler::Alert(state) => {
            let (state, action) = resume_alert(state, event, now, max_retries);
            (Handler::Alert(state), action)
        },
        Handler::Report(state) => {
            let (state, action) = resume_report(state, event, now, max_retries);
            (Handler::Report(state), action)
        },
        Handler::DerivedStream(state) => {
            let (state, action) = resume_derived_stream(state, event, now, max_retries);
            (Handler::DerivedStream(state), action)
        },
    }
}

/// Whether the system clock may show an instant.
pub open spec fn on_the_clock(now: int) -> bool {
    0 <= now <= LATEST_INSTANT
}

/// Begins to handle a trigger, at the instant that the clock shows.
pub fn handle_triggers(trigger: Trigger) -> (step: (Handler, Action))
    ensures
        exists|now: int|
            on_the_clock(now) && step_view(step) == #[trigger] started(trigger@, now),
        step.1@ matches ActionView::SaveTrigger(written) ==> 0 <= written.next_run_at
            <= LATEST_INSTANT,
        trigger.module == TriggerModule::Report ==> step.1@ == (ActionView::LoadReport {
            org: trigger.org@,
            name: trigger.module_key@,
        }),
{
    let now = utc_now();
    handle_triggers_at(trigger, now)
}

/// Goes on after an event, at the instant that the clock shows.
pub fn resume(handler: Handler, event: Event, max_retries: i32) -> (step: (Handler, Action))
    ensures
        exists|now: int|
            on_the_clock(now) && step_view(step) == #[trigger] resumed(
                handler@,
                event@,
                now,
                max_retries as int,
            ) && cron_run_lies_ahead(handler@, event@, now, step_view(step)) && goes_by_its_inputs(
                handler@,
                event@,
                now,
                max_retries as int,
                step.1@,
            ),
{
    let now = utc_now();
    resume_at(handler, event, now, max_retries)
}

/// How much one pass may pull, and how long what it pulls may take.
#[derive(Debug, Clone, Copy, PartialEq, Eq, Structural)]
pub struct PullLimits {
    pub alert_schedule_concurrency: i64,
    pub alert_schedule_timeout: i64,
    pub report_schedule_timeout: i64,
}

/// How far a pass has come.
#[derive(Debug, Clone, Copy, PartialEq, Eq, Structural)]
pub enum RunState {
    /// The due triggers are being pulled.
    Pulling,
    /// The triggers are being handled.
    Handling,
    /// There is nothing left to do.
    Finished,
}

/// The answer to an action of a pass.
#[derive(Debug, PartialEq, Eq)]
pub enum RunEvent {
    /// Answers `Pull`.
    Pulled(Result<Vec<Trigger>, String>),
    /// Answers `HandleEach`: every task has ended, or one of them could not be joined.
    Joined(Result<(), String>),
}

/// What a pass asks for next.
#[derive(Debug, PartialEq, Eq)]
pub enum RunAction {
    /// Pull the triggers that are due.
    Pull(PullLimits),
    /// Handle each of these in a task of its own.
    HandleEach(Vec<Trigger>),
    /// Stop: the pass is over, or an error ended it.
    Finish(Result<(), String>),
    /// Stop: the event does not answer the last action.
    Abort(Fault),
}

/// The step of a pass that follows an event.
///
/// A pass fails only where the triggers cannot be pulled.  What becomes of one
/// trigger is no concern of the others, nor of the pass.
pub open spec fn run_next(state: RunState, event: RunEvent) -> (RunState, RunAction) {
    match (state, event) {
        (RunState::Pulling, RunEvent::Pulled(Ok(triggers))) => (
            RunState::Handling,
            RunAction::HandleEach(triggers),
        ),
        (RunState::Pulling, RunEvent::Pulled(Err(message))) => (
            RunState::Finished,
            RunAction::Finish(Err(message)),
        ),
        (RunState::Handling, RunEvent::Joined(_)) => (
            RunState::Finished,
            RunAction::Finish(Ok(())),
        ),
        _ => (RunState::Finished, RunAction::Abort(Fault::UnexpectedEvent)),
    }
}

/// Begins a pass.
pub fn run(limits: PullLimits) -> (step: (RunState, RunAction))
    ensures
        step == (RunState::Pulling, RunAction::Pull(limits)),
        step.1 matches RunAction::Pull(asked) && asked.alert_schedule_concurrency
            == limits.alert_schedule_concurrency && asked.alert_schedule_timeout
            == limits.alert_schedule_timeout && asked.report_schedule_timeout
            == limits.report_schedule_timeout,
{
    (RunState::Pulling, RunAction::Pull(limits))
}

/// Goes on with a pass after an event.
pub fn resume_run(state: RunState, event: RunEvent) -> (step: (RunState, RunAction))
    ensures
        step == run_next(state, event),
{
    match (state, event) {
        (RunState::Pulling, RunEvent::Pulled(Ok(triggers))) => (
            RunState::Handling,
            RunAction::HandleEach(triggers),
        ),
        (RunState::Pulling, RunEvent::Pulled(Err(message))) => (
            RunState::Finished,
            RunAction::Finish(Err(message)),
        ),
        (RunState::Handling, RunEvent::Joined(_)) => (
            RunState::Finished,
            RunAction::Finish(Ok(())),
        ),
        _ => (RunState::Finished, RunAction::Abort(Fault::UnexpectedEvent)),
    }
}

/// A pass hands every trigger that was pulled on to be handled, and fails only
/// where the triggers could not be pulled: what becomes of them does not matter.
pub proof fn law_pass_fails_only_on_the_pull(
    pulled: Result<Vec<Trigger>, String>,
    joined: Result<(), String>,
)
    ensures
        ({
            let (state, action) = run_next(RunState::Pulling, RunEvent::Pulled(pulled));
            match pulled {
                Ok(triggers) => action == RunAction::HandleEach(triggers) && run_next(
                    state,
                    RunEvent::Joined(joined),
                ) == (RunState::Finished, RunAction::Finish(Ok(()))),
                Err(message) => action == RunAction::Finish(Err(message)),
            }
        }),
{
}

/// The view of a handler holds the view of its state.
pub proof fn law_handler_view_is_faithful(
    alert: AlertState,
    report: ReportState,
    derived_stream: DerivedStreamState,
)
    ensures
        Handler::Alert(alert)@ == HandlerView::Alert(alert@),
        Handler::Report(report)@ == HandlerView::Report(report@),
        Handler::DerivedStream(derived_stream)@ == HandlerView::DerivedStream(derived_stream@),
{
}

/// A pass takes the answer to its last action and nothing else, and takes
/// nothing more once it is over.
pub proof fn law_pass_takes_only_answers(state: RunState, event: RunEvent)
    ensures
        run_next(state, event).1 == RunAction::Abort(Fault::UnexpectedEvent) <==> !(state
            == RunState::Pulling && event is Pulled || state == RunState::Handling && event
            is Joined),
        run_next(state, event).0 == RunState::Finished <==> !(run_next(state, event).1
            is HandleEach),
{
}

} // verus!
