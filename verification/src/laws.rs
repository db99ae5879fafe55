//! What holds of every handling of a trigger, whatever the services answer.

use vstd::prelude::*;

use crate::alert::AlertStateView;
use crate::derived_stream::DerivedStreamStateView;
use crate::event::{ActionView, DeliveryView, EventView};
use crate::outcome::{Fault, HandlerErrorView};
use crate::report::ReportStateView;
use crate::scheduler::{resumed, started, HandlerView};
use crate::types::{
    or_epoch, TriggerDataStatus, TriggerDataType, TriggerDataView, TriggerModule, TriggerStatus,
    TriggerView,
};

verus! {

/// An event, the instant at which it is taken up, and the retries allowed then.
pub struct Input {
    pub event: EventView,
    pub now: int,
    pub max_retries: int,
}

/// Where the handling stands after some inputs.
pub open spec fn handler_after(
    trigger: TriggerView,
    began_at: int,
    inputs: Seq<Input>,
) -> HandlerView
    decreases inputs.len(),
{
    if inputs.len() == 0 {
        started(trigger, began_at).0
    } else {
        let before = handler_after(trigger, began_at, inputs.drop_last());
        let input = inputs.last();
        resumed(before, input.event, input.now, input.max_retries).0
    }
}

/// What the handling asked for: first of all, and after each of some inputs.
/// The input at a position answers the action at that position.
pub open spec fn actions_of(
    trigger: TriggerView,
    began_at: int,
    inputs: Seq<Input>,
) -> Seq<ActionView>
    decreases inputs.len(),
{
    if inputs.len() == 0 {
        seq![started(trigger, began_at).1]
    } else {
        let before = handler_after(trigger, began_at, inputs.drop_last());
        let input = inputs.last();
        actions_of(trigger, began_at, inputs.drop_last()).push(
            resumed(before, input.event, input.now, input.max_retries).1,
        )
    }
}

impl HandlerView {
    /// How many events the handling can still take.
    pub open spec fn events_left(self) -> nat {
        match self {
            HandlerView::Alert(state) => match state {
                AlertStateView::Loading { .. } => 5,
                AlertStateView::Evaluating { .. } => 4,
                AlertStateView::Notifying { .. } => 3,
                AlertStateView::Recording { .. } => 2,
                AlertStateView::Publishing => 1,
                AlertStateView::Closing => 1,
                AlertStateView::Finished => 0,
            },
            HandlerView::Report(state) => match state {
                ReportStateView::Loading { .. } => 6,
                ReportStateView::Sending { .. } => 5,
                ReportStateView::Recording { .. } => 4,
                ReportStateView::Reloading { .. } => 3,
                ReportStateView::Storing { .. } => 2,
                ReportStateView::Publishing => 1,
                ReportStateView::Closing => 1,
                ReportStateView::Finished => 0,
            },
            HandlerView::DerivedStream(state) => match state {
                DerivedStreamStateView::Loading { .. } => 5,
                DerivedStreamStateView::Evaluating { .. } => 4,
                DerivedStreamStateView::Ingesting { .. } => 3,
                DerivedStreamStateView::Recording { .. } => 2,
                DerivedStreamStateView::Publishing => 1,
                DerivedStreamStateView::Closing => 1,
                DerivedStreamStateView::Finished => 0,
            },
        }
    }

    /// Whether the handling is over.
    pub open spec fn is_over(self) -> bool {
        self.events_left() == 0
    }

    /// Whether the handling may still ask for a write of the trigger.
    pub open spec fn may_write(self) -> bool {
        match self {
            HandlerView::Alert(state) => state is Loading || state is Evaluating || state
                is Notifying,
            HandlerView::Report(state) => state is Loading || state is Sending,
            HandlerView::DerivedStream(state) => state is Loading || state is Evaluating || state
                is Ingesting,
        }
    }

    /// Whether a write of the trigger is under way and a record depends on it.
    pub open spec fn is_recording(self) -> bool {
        match self {
            HandlerView::Alert(state) => state is Recording,
            HandlerView::Report(state) => state is Recording,
            HandlerView::DerivedStream(state) => state is Recording,
        }
    }

    /// Whether the trigger is written and the record is yet to be published.
    pub open spec fn is_written(self) -> bool {
        self matches HandlerView::Report(state) && (state is Reloading || state is Storing)
    }

    /// Whether a write of the trigger is under way and nothing depends on it.
    pub open spec fn is_closing(self) -> bool {
        match self {
            HandlerView::Alert(state) => state is Closing,
            HandlerView::Report(state) => state is Closing,
            HandlerView::DerivedStream(state) => state is Closing,
        }
    }

    /// Whether the record is being published.
    pub open spec fn is_publishing(self) -> bool {
        match self {
            HandlerView::Alert(state) => state is Publishing,
            HandlerView::Report(state) => state is Publishing,
            HandlerView::DerivedStream(state) => state is Publishing,
        }
    }

    /// The trigger as it will be written, where the next run is known already.
    pub open spec fn renewed(self) -> Option<TriggerView> {
        match self {
            HandlerView::Alert(AlertStateView::Notifying { renewed, .. }) => Some(renewed),
            HandlerView::Report(ReportStateView::Sending { renewed, .. }) => Some(renewed),
            HandlerView::DerivedStream(DerivedStreamStateView::Ingesting { renewed, .. }) => Some(
                renewed,
            ),
            _ => None,
        }
    }

    /// The trigger that is handled, and the trigger made ready for its next run.
    pub open spec fn evaluated(self) -> Option<(TriggerView, TriggerView)> {
        match self {
            HandlerView::Alert(AlertStateView::Evaluating { trigger, renewed, .. }) => Some(
                (trigger, renewed),
            ),
            HandlerView::DerivedStream(
                DerivedStreamStateView::Evaluating { trigger, renewed, .. },
            ) => Some((trigger, renewed)),
            _ => None,
        }
    }

    /// The trigger that is handled, where nothing is known of it yet.
    pub open spec fn loading(self) -> Option<TriggerView> {
        match self {
            HandlerView::Alert(AlertStateView::Loading { trigger, .. }) => Some(trigger),
            HandlerView::Report(ReportStateView::Loading { trigger }) => Some(trigger),
            HandlerView::DerivedStream(DerivedStreamStateView::Loading { trigger, .. }) => Some(
                trigger,
            ),
            _ => None,
        }
    }

    /// The record that the handling keeps.
    pub open spec fn record(self) -> Option<TriggerDataView> {
        match self {
            HandlerView::Alert(AlertStateView::Notifying { record, .. }) => Some(record),
            HandlerView::Alert(AlertStateView::Recording { record }) => Some(record),
            HandlerView::Report(ReportStateView::Sending { record, .. }) => Some(record),
            HandlerView::Report(ReportStateView::Recording { record, .. }) => Some(record),
            HandlerView::Report(ReportStateView::Reloading { record, .. }) => Some(record),
            HandlerView::Report(ReportStateView::Storing { record }) => Some(record),
            HandlerView::DerivedStream(DerivedStreamStateView::Ingesting { record, .. }) => Some(
                record,
            ),
            HandlerView::DerivedStream(DerivedStreamStateView::Recording { record }) => Some(
                record,
            ),
            _ => None,
        }
    }
}

/// Whether two triggers are one and the same, in different states.
pub open spec fn same_trigger(one: TriggerView, other: TriggerView) -> bool {
    &&& one.org == other.org
    &&& one.module == other.module
    &&& one.module_key == other.module_key
    &&& one.start_time == other.start_time
    &&& one.end_time == other.end_time
}

/// Whether a trigger is realtime after it was handled: an alert and a report
/// never are, a derived stream stays as it is.
pub open spec fn realtime_after(trigger: TriggerView) -> bool {
    trigger.module == TriggerModule::DerivedStream && trigger.is_realtime
}

/// The retries on the count of a trigger that waits for its next run: none for
/// an alert and a report, those that a derived stream had.
pub open spec fn retries_after(trigger: TriggerView) -> int {
    if trigger.module == TriggerModule::DerivedStream {
        trigger.retries
    } else {
        0
    }
}

/// Whether a trigger is another made ready for its next run.
pub open spec fn is_renewal_of(renewed: TriggerView, trigger: TriggerView) -> bool {
    &&& same_trigger(renewed, trigger)
    &&& renewed.is_realtime == realtime_after(trigger)
    &&& renewed.retries == retries_after(trigger)
    &&& renewed.status == TriggerStatus::Completed ==> trigger.module == TriggerModule::Report
}

/// The kind of record that a module's runs get.
pub open spec fn data_type_of(module: TriggerModule) -> TriggerDataType {
    match module {
        TriggerModule::Report => TriggerDataType::Report,
        TriggerModule::Alert => TriggerDataType::Alert,
        TriggerModule::DerivedStream => TriggerDataType::DerivedStream,
    }
}

/// Whether a record is one of a run that began with `trigger`.
pub open spec fn is_record_of(record: TriggerDataView, trigger: TriggerView) -> bool {
    &&& record._timestamp == or_epoch(trigger.start_time)
    &&& record.org == trigger.org
    &&& record.module == data_type_of(trigger.module)
    &&& record.key == trigger.module_key
    &&& record.is_realtime == trigger.is_realtime
    &&& record.is_silenced == trigger.is_silenced
    &&& record.retries == trigger.retries
}

/// Whether an event says that a run failed: what it found could not be delivered.
pub open spec fn is_failure(event: EventView) -> bool {
    match event {
        EventView::AlertNotified { delivery: DeliveryView::Failed(_), .. } => true,
        EventView::ReportSent(Err(_)) => true,
        EventView::Ingested(Err(_)) => true,
        _ => false,
    }
}

/// Whether an event says that conditions do not hold.
pub open spec fn is_unsatisfied(event: EventView) -> bool {
    match event {
        EventView::AlertEvaluated(Ok(evaluation)) => !evaluation.satisfied,
        EventView::DerivedStreamEvaluated(Ok(satisfied)) => !satisfied,
        _ => false,
    }
}

/// Whether an event says that the trigger was written.
pub open spec fn is_saved(event: EventView) -> bool {
    event matches EventView::TriggerSaved(Ok(_))
}

/// Whether everything that the handling keeps belongs to the trigger that it began with.
spec fn belongs(handler: HandlerView, trigger: TriggerView) -> bool {
    &&& match trigger.module {
        TriggerModule::Report => handler is Report,
        TriggerModule::Alert => handler is Alert,
        TriggerModule::DerivedStream => handler is DerivedStream,
    }
    &&& handler.loading() matches Some(loading) ==> loading == trigger
    &&& handler.evaluated() matches Some(pair) ==> pair.0 == trigger && is_renewal_of(
        pair.1,
        trigger,
    )
    &&& handler.renewed() matches Some(renewed) ==> is_renewal_of(renewed, trigger)
    &&& handler.record() matches Some(record) ==> is_record_of(record, trigger)
    &&& handler.renewed() matches Some(renewed) ==> handler.record() matches Some(record)
        && record.next_run_at == renewed.next_run_at && record.status
        == TriggerDataStatus::Completed
}

/// Whether what the handling asks for belongs to the trigger that it began with.
pub open spec fn concerns(action: ActionView, trigger: TriggerView) -> bool {
    match action {
        ActionView::SaveTrigger(written) => same_trigger(written, trigger),
        ActionView::SaveStatus(update) => {
            &&& update.org == trigger.org
            &&& update.module == trigger.module
            &&& update.module_key == trigger.module_key
            &&& update.status == TriggerStatus::Waiting
            &&& update.retries == trigger.retries + 1
        },
        ActionView::PublishUsage(record) => is_record_of(record, trigger),
        _ => true,
    }
}

/// What every step keeps.
spec fn keeps_order(
    handler: HandlerView,
    event: EventView,
    step: (HandlerView, ActionView),
) -> bool {
    let (after, action) = step;
    let saved = handler.is_recording() && is_saved(event);
    &&& !handler.is_over() ==> after.events_left() < handler.events_left()
    &&& handler.is_over() ==> after.is_over()
    &&& after.is_over() <==> action.is_last()
    &&& action.is_write() ==> handler.may_write()
    &&& after.may_write() ==> handler.may_write() && !action.is_write()
    &&& after.is_recording() ==> handler.may_write() && action.is_write()
    &&& after.is_written() ==> saved || handler.is_written()
    &&& after.is_publishing() ==> saved || handler.is_written()
    &&& after.is_closing() ==> action.is_write()
    &&& action matches ActionView::Finish(Ok(_)) ==> handler.is_publishing() || (
    handler.is_closing() && is_saved(event))
    &&& action is PublishUsage ==> (saved || handler.is_written()) && !after.is_written()
        && !after.is_recording() && !after.may_write()
}

/// What every step keeps of the trigger and of the record.
spec fn keeps_content(
    handler: HandlerView,
    event: EventView,
    step: (HandlerView, ActionView),
    trigger: TriggerView,
) -> bool {
    let (after, action) = step;
    &&& belongs(after, trigger)
    &&& concerns(action, trigger)
    &&& after.is_recording() ==> after.record() is Some && (
    action matches ActionView::SaveTrigger(written) ==> after.record()->0.next_run_at
        == written.next_run_at)
    &&& after.is_written() ==> after.record() is Some && handler.record() is Some
        && after.record()->0.next_run_at == handler.record()->0.next_run_at
        && after.record()->0.status == handler.record()->0.status
    &&& action matches ActionView::PublishUsage(record) ==> handler.record() is Some
        && record.next_run_at == handler.record()->0.next_run_at && record.status
        == handler.record()->0.status
    &&& after.is_recording() ==> (after.record()->0.status == TriggerDataStatus::Failed
        <==> is_failure(event))
    &&& after.is_recording() ==> (after.record()->0.status
        == TriggerDataStatus::ConditionNotSatisfied <==> is_unsatisfied(event))
    &&& is_failure(event) || is_unsatisfied(event) ==> !after.may_write() && !after.is_written()
        && !(action is PublishUsage)
    &&& action matches ActionView::SaveTrigger(written) ==> is_renewal_of(written, trigger)
    &&& action is SaveStatus ==> is_failure(event)
}

proof fn lemma_alert_step(
    state: AlertStateView,
    event: EventView,
    now: int,
    max_retries: int,
    trigger: TriggerView,
)
    requires
        belongs(HandlerView::Alert(state), trigger),
    ensures
        ({
            let handler = HandlerView::Alert(state);
            let step = resumed(handler, event, now, max_retries);
            keeps_order(handler, event, step) && keeps_content(handler, event, step, trigger)
        }),
{
    match state {
        AlertStateView::Loading { .. } => {},
        AlertStateView::Evaluating { .. } => {},
        AlertStateView::Notifying { .. } => {},
        AlertStateView::Recording { .. } => {},
        AlertStateView::Publishing => {},
        AlertStateView::Closing => {},
        AlertStateView::Finished => {},
    }
}

proof fn lemma_report_step(
    state: ReportStateView,
    event: EventView,
    now: int,
    max_retries: int,
    trigger: TriggerView,
)
    requires
        belongs(HandlerView::Report(state), trigger),
    ensures
        ({
            let handler = HandlerView::Report(state);
            let step = resumed(handler, event, now, max_retries);
            keeps_order(handler, event, step) && keeps_content(handler, event, step, trigger)
        }),
{
    match state {
        ReportStateView::Loading { .. } => {},
        ReportStateView::Sending { .. } => {},
        ReportStateView::Recording { .. } => {},
        ReportStateView::Reloading { .. } => {},
        ReportStateView::Storing { .. } => {},
        ReportStateView::Publishing => {},
        ReportStateView::Closing => {},
        ReportStateView::Finished => {},
    }
}

proof fn lemma_derived_stream_step(
    state: DerivedStreamStateView,
    event: EventView,
    now: int,
    max_retries: int,
    trigger: TriggerView,
)
    requires
        belongs(HandlerView::DerivedStream(state), trigger),
    ensures
        ({
            let handler = HandlerView::DerivedStream(state);
            let step = resumed(handler, event, now, max_retries);
            keeps_order(handler, event, step) && keeps_content(handler, event, step, trigger)
        }),
{
    match state {
        DerivedStreamStateView::Loading { .. } => {},
        DerivedStreamStateView::Evaluating { .. } => {},
        DerivedStreamStateView::Ingesting { .. } => {},
        DerivedStreamStateView::Recording { .. } => {},
        DerivedStreamStateView::Publishing => {},
        DerivedStreamStateView::Closing => {},
        DerivedStreamStateView::Finished => {},
    }
}

/// What every step keeps, whichever the module.
proof fn lemma_step(
    handler: HandlerView,
    event: EventView,
    now: int,
    max_retries: int,
    trigger: TriggerView,
)
    requires
        belongs(handler, trigger),
    ensures
        keeps_order(handler, event, resumed(handler, event, now, max_retries)),
        keeps_content(handler, event, resumed(handler, event, now, max_retries), trigger),
{
    match handler {
        HandlerView::Alert(state) => lemma_alert_step(state, event, now, max_retries, trigger),
        HandlerView::Report(state) => lemma_report_step(state, event, now, max_retries, trigger),
        HandlerView::DerivedStream(state) => lemma_derived_stream_step(
            state,
            event,
            now,
            max_retries,
            trigger,
        ),
    }
}

/// What holds at the first step.
proof fn lemma_start(trigger: TriggerView, began_at: int)
    ensures
        ({
            let (handler, action) = started(trigger, began_at);
            &&& belongs(handler, trigger)
            &&& concerns(action, trigger)
            &&& handler.events_left() <= 6
            &&& handler.is_over() <==> action.is_last()
            &&& action.is_write() ==> action is SaveTrigger && !handler.may_write()
            &&& !handler.is_recording()
            &&& !handler.is_written()
            &&& !handler.is_publishing()
            &&& handler.is_closing() ==> action.is_write()
            &&& !(action is PublishUsage)
            &&& !(action is Finish)
        }),
{
}

/// Whether a run failed at one of some inputs.
pub open spec fn has_failure(inputs: Seq<Input>) -> bool {
    exists|k: int| 0 <= k < inputs.len() && is_failure((#[trigger] inputs[k]).event)
}

/// Whether conditions turned out not to hold at one of some inputs.
pub open spec fn has_unsatisfied(inputs: Seq<Input>) -> bool {
    exists|k: int| 0 <= k < inputs.len() && is_unsatisfied((#[trigger] inputs[k]).event)
}

/// Whether one of some actions was a write that was answered with success.
pub open spec fn has_saved(actions: Seq<ActionView>, inputs: Seq<Input>) -> bool {
    exists|i: int|
        0 <= i < inputs.len() && (#[trigger] actions[i]).is_write() && is_saved(inputs[i].event)
}

/// What holds of the handling after some inputs.
spec fn run_holds(
    handler: HandlerView,
    actions: Seq<ActionView>,
    inputs: Seq<Input>,
    trigger: TriggerView,
) -> bool {
    &&& actions.len() == inputs.len() + 1
    &&& belongs(handler, trigger)
    &&& handler.is_over() || handler.events_left() + inputs.len() <= 6
    &&& handler.is_over() <==> actions.last().is_last()
    &&& handler.may_write() ==> !has_failure(inputs) && !has_unsatisfied(inputs) && forall|i: int|
        0 <= i < actions.len() ==> !(#[trigger] actions[i]).is_write()
    &&& handler.is_recording() || handler.is_closing() ==> actions.last().is_write()
    &&& handler.is_written() || handler.is_publishing() ==> has_saved(actions, inputs)
    &&& handler.may_write() || handler.is_recording() || handler.is_written() ==> forall|i: int|
        0 <= i < actions.len() ==> !(#[trigger] actions[i] is PublishUsage)
    &&& handler.is_recording() || handler.is_written() ==> {
        &&& handler.record() is Some
        &&& handler.record()->0.status == TriggerDataStatus::Failed <==> has_failure(inputs)
        &&& handler.record()->0.status == TriggerDataStatus::ConditionNotSatisfied
            <==> has_unsatisfied(inputs)
        &&& forall|i: int|
            0 <= i < actions.len() ==> (#[trigger] actions[i] matches ActionView::SaveTrigger(
                written,
            ) ==> written.next_run_at == handler.record()->0.next_run_at)
    }
}

/// What one more input adds.
proof fn lemma_one_more(inputs: Seq<Input>)
    requires
        inputs.len() > 0,
    ensures
        has_failure(inputs) <==> has_failure(inputs.drop_last()) || is_failure(
            inputs.last().event,
        ),
        has_unsatisfied(inputs) <==> has_unsatisfied(inputs.drop_last()) || is_unsatisfied(
            inputs.last().event,
        ),
{
    let before = inputs.drop_last();
    assert(forall|k: int| 0 <= k < before.len() ==> inputs[k] == before[k]);
    assert(inputs.last() == inputs[inputs.len() - 1]);
    if has_failure(before) {
        let k = choose|k: int| 0 <= k < before.len() && is_failure((#[trigger] before[k]).event);
        assert(is_failure(inputs[k].event));
    }
    if has_failure(inputs) && !is_failure(inputs.last().event) {
        let k = choose|k: int| 0 <= k < inputs.len() && is_failure((#[trigger] inputs[k]).event);
        assert(is_failure(before[k].event));
    }
    if has_unsatisfied(before) {
        let k = choose|k: int|
            0 <= k < before.len() && is_unsatisfied((#[trigger] before[k]).event);
        assert(is_unsatisfied(inputs[k].event));
    }
    if has_unsatisfied(inputs) && !is_unsatisfied(inputs.last().event) {
        let k = choose|k: int|
            0 <= k < inputs.len() && is_unsatisfied((#[trigger] inputs[k]).event);
        assert(is_unsatisfied(before[k].event));
    }
}

/// One more input keeps what holds of the handling.
proof fn lemma_run_step(trigger: TriggerView, began_at: int, inputs: Seq<Input>)
    requires
        inputs.len() > 0,
        run_holds(
            handler_after(trigger, began_at, inputs.drop_last()),
            actions_of(trigger, began_at, inputs.drop_last()),
            inputs.drop_last(),
            trigger,
        ),
    ensures
        run_holds(
            handler_after(trigger, began_at, inputs),
            actions_of(trigger, began_at, inputs),
            inputs,
            trigger,
        ),
{
    let before = inputs.drop_last();
    let input = inputs.last();
    let handler = handler_after(trigger, began_at, before);
    let actions = actions_of(trigger, began_at, before);
    let after = handler_after(trigger, began_at, inputs);
    let all = actions_of(trigger, began_at, inputs);
    lemma_step(handler, input.event, input.now, input.max_retries, trigger);
    assert(all == actions.push(all.last()));
    assert(forall|i: int| 0 <= i < actions.len() ==> all[i] == actions[i]);
    assert(forall|k: int| 0 <= k < before.len() ==> inputs[k] == before[k]);
    lemma_one_more(inputs);
    if has_saved(actions, before) {
        let i = choose|i: int|
            0 <= i < before.len() && (#[trigger] actions[i]).is_write() && is_saved(
                before[i].event,
            );
        assert(all[i].is_write() && is_saved(inputs[i].event));
    }
    if handler.is_recording() && is_saved(input.event) {
        assert(all[before.len() as int].is_write() && is_saved(
            inputs[before.len() as int].event,
        ));
    }
}

/// What holds of the handling after any inputs.
proof fn lemma_run(trigger: TriggerView, began_at: int, inputs: Seq<Input>)
    ensures
        run_holds(
            handler_after(trigger, began_at, inputs),
            actions_of(trigger, began_at, inputs),
            inputs,
            trigger,
        ),
    decreases inputs.len(),
{
    if inputs.len() == 0 {
        lemma_start(trigger, began_at);
    } else {
        lemma_run(trigger, began_at, inputs.drop_last());
        lemma_run_step(trigger, began_at, inputs);
    }
}

/// A handling does not go on for ever: whatever the events, it has stopped
/// after six of them, and asks for nothing more once it has.
pub proof fn law_handling_ends(trigger: TriggerView, began_at: int, inputs: Seq<Input>)
    ensures
        inputs.len() >= 6 ==> actions_of(trigger, began_at, inputs).last().is_last(),
        inputs.len() >= 1 && actions_of(trigger, began_at, inputs.drop_last()).last().is_last()
            ==> actions_of(trigger, began_at, inputs).last() == ActionView::Abort(
            Fault::UnexpectedEvent,
        ),
{
    lemma_run(trigger, began_at, inputs);
    if inputs.len() >= 1 {
        lemma_run(trigger, began_at, inputs.drop_last());
    }
}

/// A trigger is written at most once while it is handled.
pub proof fn law_trigger_is_written_once(
    trigger: TriggerView,
    began_at: int,
    inputs: Seq<Input>,
    i: int,
    j: int,
)
    requires
        0 <= i < j <= inputs.len(),
    ensures
        !(actions_of(trigger, began_at, inputs)[i].is_write() && actions_of(
            trigger,
            began_at,
            inputs,
        )[j].is_write()),
    decreases inputs.len(),
{
    let before = inputs.drop_last();
    lemma_run(trigger, began_at, before);
    lemma_run(trigger, began_at, inputs);
    if j < inputs.len() {
        law_trigger_is_written_once(trigger, began_at, before, i, j);
    } else {
        let input = inputs.last();
        let handler = handler_after(trigger, began_at, before);
        lemma_step(handler, input.event, input.now, input.max_retries, trigger);
        assert(actions_of(trigger, began_at, inputs)[i] == actions_of(trigger, began_at, before)[i]);
    }
}

/// At most one usage record is published of a handling.
pub proof fn law_record_is_published_once(
    trigger: TriggerView,
    began_at: int,
    inputs: Seq<Input>,
    i: int,
    j: int,
)
    requires
        0 <= i < j <= inputs.len(),
    ensures
        !(actions_of(trigger, began_at, inputs)[i] is PublishUsage && actions_of(
            trigger,
            began_at,
            inputs,
        )[j] is PublishUsage),
    decreases inputs.len(),
{
    let before = inputs.drop_last();
    lemma_run(trigger, began_at, before);
    lemma_run(trigger, began_at, inputs);
    if j < inputs.len() {
        law_record_is_published_once(trigger, began_at, before, i, j);
    } else {
        let input = inputs.last();
        let handler = handler_after(trigger, began_at, before);
        lemma_step(handler, input.event, input.now, input.max_retries, trigger);
        assert(actions_of(trigger, began_at, inputs)[i] == actions_of(trigger, began_at, before)[i]);
    }
}

/// A record is published only after the trigger was written with success.
pub proof fn law_record_follows_the_write(
    trigger: TriggerView,
    began_at: int,
    inputs: Seq<Input>,
)
    requires
        actions_of(trigger, began_at, inputs).last() is PublishUsage,
    ensures
        has_saved(actions_of(trigger, began_at, inputs), inputs),
{
    lemma_run(trigger, began_at, inputs);
    lemma_start(trigger, began_at);
    let before = inputs.drop_last();
    let input = inputs.last();
    lemma_run(trigger, began_at, before);
    let handler = handler_after(trigger, began_at, before);
    let actions = actions_of(trigger, began_at, before);
    let all = actions_of(trigger, began_at, inputs);
    lemma_step(handler, input.event, input.now, input.max_retries, trigger);
    if handler.is_written() {
        let i = choose|i: int|
            0 <= i < before.len() && (#[trigger] actions[i]).is_write() && is_saved(
                before[i].event,
            );
        assert(all[i].is_write() && is_saved(inputs[i].event));
    } else {
        let i = before.len() as int;
        assert(all[i].is_write() && is_saved(inputs[i].event));
    }
}

/// A trigger that is handled to its end without an error was written with
/// success: none is lost.
pub proof fn law_handled_trigger_is_written(
    trigger: TriggerView,
    began_at: int,
    inputs: Seq<Input>,
)
    requires
        actions_of(trigger, began_at, inputs).last() matches ActionView::Finish(Ok(_)),
    ensures
        has_saved(actions_of(trigger, began_at, inputs), inputs),
{
    lemma_start(trigger, began_at);
    let before = inputs.drop_last();
    let input = inputs.last();
    lemma_run(trigger, began_at, before);
    let handler = handler_after(trigger, began_at, before);
    let actions = actions_of(trigger, began_at, before);
    let all = actions_of(trigger, began_at, inputs);
    lemma_step(handler, input.event, input.now, input.max_retries, trigger);
    if handler.is_publishing() {
        let i = choose|i: int|
            0 <= i < before.len() && (#[trigger] actions[i]).is_write() && is_saved(
                before[i].event,
            );
        assert(all[i].is_write() && is_saved(inputs[i].event));
    } else {
        let i = before.len() as int;
        assert(all[i].is_write() && is_saved(inputs[i].event));
    }
}

/// Whatever is written or published names the trigger that was handled, and
/// leaves its module, its start and its end as they were.  A write of the
/// status alone adds one retry.
pub proof fn law_actions_concern_the_trigger(
    trigger: TriggerView,
    began_at: int,
    inputs: Seq<Input>,
)
    ensures
        concerns(actions_of(trigger, began_at, inputs).last(), trigger),
{
    lemma_start(trigger, began_at);
    if inputs.len() > 0 {
        let before = inputs.drop_last();
        let input = inputs.last();
        lemma_run(trigger, began_at, before);
        lemma_step(
            handler_after(trigger, began_at, before),
            input.event,
            input.now,
            input.max_retries,
            trigger,
        );
    }
}

/// The published record tells the next run that was written.
pub proof fn law_record_agrees_with_the_write(
    trigger: TriggerView,
    began_at: int,
    inputs: Seq<Input>,
    i: int,
)
    requires
        0 <= i < inputs.len(),
    ensures
        ({
            let actions = actions_of(trigger, began_at, inputs);
            actions[i] matches ActionView::SaveTrigger(written) ==> (
            actions.last() matches ActionView::PublishUsage(record) ==> record.next_run_at
                == written.next_run_at)
        }),
{
    let before = inputs.drop_last();
    let input = inputs.last();
    lemma_run(trigger, began_at, before);
    lemma_step(
        handler_after(trigger, began_at, before),
        input.event,
        input.now,
        input.max_retries,
        trigger,
    );
    assert(actions_of(trigger, began_at, inputs)[i] == actions_of(trigger, began_at, before)[i]);
}

/// A published record says how the run ended: it failed if and only if what was
/// found could not be delivered, and its conditions did not hold if and only if
/// the evaluation said so.  Otherwise it is completed.
pub proof fn law_record_tells_how_the_run_ended(
    trigger: TriggerView,
    began_at: int,
    inputs: Seq<Input>,
)
    ensures
        actions_of(trigger, began_at, inputs).last() matches ActionView::PublishUsage(record) ==> {
            &&& record.status == TriggerDataStatus::Failed <==> has_failure(inputs)
            &&& record.status == TriggerDataStatus::ConditionNotSatisfied <==> has_unsatisfied(
                inputs,
            )
        },
{
    lemma_start(trigger, began_at);
    if inputs.len() > 0 {
        let before = inputs.drop_last();
        let input = inputs.last();
        lemma_run(trigger, began_at, before);
        lemma_one_more(inputs);
        lemma_step(
            handler_after(trigger, began_at, before),
            input.event,
            input.now,
            input.max_retries,
            trigger,
        );
    }
}

/// A trigger is left to be tried again only where its run has just failed.
pub proof fn law_retry_follows_failure(
    trigger: TriggerView,
    began_at: int,
    inputs: Seq<Input>,
)
    ensures
        actions_of(trigger, began_at, inputs).last() is SaveStatus ==> inputs.len() > 0
            && is_failure(inputs.last().event),
{
    lemma_start(trigger, began_at);
    if inputs.len() > 0 {
        let before = inputs.drop_last();
        let input = inputs.last();
        lemma_run(trigger, began_at, before);
        lemma_step(
            handler_after(trigger, began_at, before),
            input.event,
            input.now,
            input.max_retries,
            trigger,
        );
    }
}

/// A trigger that is written whole after the first step is made ready for its
/// next run: an alert and a report start over with no retries and are not
/// realtime, a derived stream keeps both.
pub proof fn law_written_trigger_is_renewed(
    trigger: TriggerView,
    began_at: int,
    inputs: Seq<Input>,
)
    requires
        inputs.len() > 0,
    ensures
        actions_of(trigger, began_at, inputs).last() matches ActionView::SaveTrigger(written)
            ==> is_renewal_of(written, trigger),
{
    let before = inputs.drop_last();
    let input = inputs.last();
    lemma_run(trigger, began_at, before);
    lemma_step(
        handler_after(trigger, began_at, before),
        input.event,
        input.now,
        input.max_retries,
        trigger,
    );
}

/// A trigger that could be pulled, whatever its status by now, and is written
/// whole is pulled again from its next run on and no earlier.  The exceptions are
/// not pulled again at all: a realtime trigger that was woken, and a report that
/// was sent for good.
pub proof fn law_written_trigger_waits(
    trigger: TriggerView,
    began_at: int,
    inputs: Seq<Input>,
    at: int,
)
    requires
        trigger.is_realtime ==> trigger.is_silenced,
    ensures
        actions_of(trigger, began_at, inputs).last() matches ActionView::SaveTrigger(written)
            ==> if inputs.len() == 0 || written.status == TriggerStatus::Completed {
            !written.pulled_at(at)
        } else {
            written.pulled_at(at) <==> written.next_run_at <= at
        },
{
    if inputs.len() > 0 {
        law_written_trigger_is_renewed(trigger, began_at, inputs);
        if actions_of(trigger, began_at, inputs).last() is SaveTrigger {
            lemma_not_woken(trigger, began_at, inputs);
        }
    }
}

/// A trigger that is handled past its first step was not woken.
proof fn lemma_not_woken(trigger: TriggerView, began_at: int, inputs: Seq<Input>)
    requires
        inputs.len() > 0,
        actions_of(trigger, began_at, inputs).last() is SaveTrigger,
    ensures
        trigger.module == TriggerModule::DerivedStream ==> !(trigger.is_realtime
            && trigger.is_silenced),
{
    let before = inputs.drop_last();
    let input = inputs.last();
    lemma_run(trigger, began_at, before);
    lemma_step(
        handler_after(trigger, began_at, before),
        input.event,
        input.now,
        input.max_retries,
        trigger,
    );
    lemma_may_write(trigger, began_at, before);
}

/// Only a handling that did not begin with a write may still ask for one.
proof fn lemma_may_write(trigger: TriggerView, began_at: int, inputs: Seq<Input>)
    requires
        handler_after(trigger, began_at, inputs).may_write(),
    ensures
        started(trigger, began_at).0.may_write(),
    decreases inputs.len(),
{
    if inputs.len() > 0 {
        let before = inputs.drop_last();
        let input = inputs.last();
        lemma_run(trigger, began_at, before);
        lemma_step(
            handler_after(trigger, began_at, before),
            input.event,
            input.now,
            input.max_retries,
            trigger,
        );
        lemma_may_write(trigger, began_at, before);
    }
}

/// A trigger that was due, and of which the status alone is written, stays due:
/// it is pulled again at any instant from the one at which its handling began.
pub proof fn law_retried_trigger_stays_due(
    trigger: TriggerView,
    began_at: int,
    inputs: Seq<Input>,
    at: int,
)
    requires
        trigger.is_realtime ==> trigger.is_silenced,
        trigger.next_run_at <= began_at <= at,
    ensures
        actions_of(trigger, began_at, inputs).last() matches ActionView::SaveStatus(update) ==> (
        TriggerView { status: update.status, retries: update.retries, ..trigger }).pulled_at(at),
{
    law_actions_concern_the_trigger(trigger, began_at, inputs);
}

/// The message of a service that failed, where an event carries one that ends
/// the handling.
pub open spec fn service_failure(event: EventView) -> Option<Seq<char>> {
    match event {
        EventView::TriggerSaved(Err(message)) => Some(message),
        EventView::AlertLoaded { alert: Err(message), .. } => Some(message),
        EventView::AlertEvaluated(Err(message)) => Some(message),
        EventView::ReportLoaded(Err(message)) => Some(message),
        EventView::ReportReloaded(Err(message)) => Some(message),
        EventView::DerivedStreamEvaluated(Err(message)) => Some(message),
        _ => None,
    }
}

/// A service that fails ends the handling with the service's own message.  An
/// event that does not answer the last action ends it too.
pub proof fn law_service_failure_is_passed_on(
    handler: HandlerView,
    event: EventView,
    now: int,
    max_retries: int,
)
    ensures
        service_failure(event) matches Some(message) ==> {
            let (after, action) = resumed(handler, event, now, max_retries);
            &&& after.is_over()
            &&& action == ActionView::Finish(Err(HandlerErrorView::Service(message))) || action
                == ActionView::Abort(Fault::UnexpectedEvent)
        },
{
}

/// Whether an event is an answer to an action.
pub open spec fn answers(event: EventView, action: ActionView) -> bool {
    match action {
        ActionView::SaveTrigger(_) => event is TriggerSaved,
        ActionView::SaveStatus(_) => event is TriggerSaved,
        ActionView::LoadAlert { .. } => event is AlertLoaded,
        ActionView::EvaluateAlert => event is AlertEvaluated,
        ActionView::NotifyAlert => event is AlertNotified,
        ActionView::LoadReport { .. } => event is ReportLoaded,
        ActionView::SendReport { .. } => event is ReportSent,
        ActionView::ReloadReport { .. } => event is ReportReloaded,
        ActionView::StoreReport(_) => event is ReportStored,
        ActionView::LoadPipeline { .. } => event is PipelineLoaded,
        ActionView::EvaluateDerivedStream(_) => event is DerivedStreamEvaluated,
        ActionView::Ingest(_) => event is Ingested,
        ActionView::PublishUsage(_) => event is UsagePublished,
        ActionView::Finish(_) => false,
        ActionView::Abort(_) => false,
    }
}

/// Whether the handling waits for the answer to an action.
spec fn waits_for(handler: HandlerView, action: ActionView) -> bool {
    match handler {
        HandlerView::Alert(state) => match state {
            AlertStateView::Loading { .. } => action is LoadAlert,
            AlertStateView::Evaluating { .. } => action is EvaluateAlert,
            AlertStateView::Notifying { .. } => action is NotifyAlert,
            AlertStateView::Recording { .. } => action.is_write(),
            AlertStateView::Publishing => action is PublishUsage,
            AlertStateView::Closing => action.is_write(),
            AlertStateView::Finished => action.is_last(),
        },
        HandlerView::Report(state) => match state {
            ReportStateView::Loading { .. } => action is LoadReport,
            ReportStateView::Sending { .. } => action is SendReport,
            ReportStateView::Recording { .. } => action.is_write(),
            ReportStateView::Reloading { .. } => action is ReloadReport,
            ReportStateView::Storing { .. } => action is StoreReport,
            ReportStateView::Publishing => action is PublishUsage,
            ReportStateView::Closing => action.is_write(),
            ReportStateView::Finished => action.is_last(),
        },
        HandlerView::DerivedStream(state) => match state {
            DerivedStreamStateView::Loading { .. } => action is LoadPipeline,
            DerivedStreamStateView::Evaluating { .. } => action is EvaluateDerivedStream,
            DerivedStreamStateView::Ingesting { .. } => action is Ingest,
            DerivedStreamStateView::Recording { .. } => action.is_write(),
            DerivedStreamStateView::Publishing => action is PublishUsage,
            DerivedStreamStateView::Closing => action.is_write(),
            DerivedStreamStateView::Finished => action.is_last(),
        },
    }
}

/// What a handling waits for after a step is what the step asked for, and an
/// event breaks it off as unexpected if and only if it is not what it waits for.
proof fn lemma_waits(
    handler: HandlerView,
    asked: ActionView,
    event: EventView,
    now: int,
    max_retries: int,
)
    requires
        waits_for(handler, asked),
    ensures
        ({
            let (after, action) = resumed(handler, event, now, max_retries);
            &&& waits_for(after, action)
            &&& action == ActionView::Abort(Fault::UnexpectedEvent) <==> !answers(event, asked)
        }),
{
    match handler {
        HandlerView::Alert(state) => lemma_alert_waits(state, asked, event, now, max_retries),
        HandlerView::Report(state) => lemma_report_waits(state, asked, event, now, max_retries),
        HandlerView::DerivedStream(state) => lemma_derived_stream_waits(
            state,
            asked,
            event,
            now,
            max_retries,
        ),
    }
}

proof fn lemma_alert_waits(
    state: AlertStateView,
    asked: ActionView,
    event: EventView,
    now: int,
    max_retries: int,
)
    requires
        waits_for(HandlerView::Alert(state), asked),
    ensures
        ({
            let (after, action) = resumed(HandlerView::Alert(state), event, now, max_retries);
            &&& waits_for(after, action)
            &&& action == ActionView::Abort(Fault::UnexpectedEvent) <==> !answers(event, asked)
        }),
{
}

proof fn lemma_report_waits(
    state: ReportStateView,
    asked: ActionView,
    event: EventView,
    now: int,
    max_retries: int,
)
    requires
        waits_for(HandlerView::Report(state), asked),
    ensures
        ({
            let (after, action) = resumed(HandlerView::Report(state), event, now, max_retries);
            &&& waits_for(after, action)
            &&& action == ActionView::Abort(Fault::UnexpectedEvent) <==> !answers(event, asked)
        }),
{
}

proof fn lemma_derived_stream_waits(
    state: DerivedStreamStateView,
    asked: ActionView,
    event: EventView,
    now: int,
    max_retries: int,
)
    requires
        waits_for(HandlerView::DerivedStream(state), asked),
    ensures
        ({
            let (after, action) = resumed(
                HandlerView::DerivedStream(state),
                event,
                now,
                max_retries,
            );
            &&& waits_for(after, action)
            &&& action == ActionView::Abort(Fault::UnexpectedEvent) <==> !answers(event, asked)
        }),
{
}

/// A handling waits for the answer to the last action.
proof fn lemma_waits_for_the_last(trigger: TriggerView, began_at: int, inputs: Seq<Input>)
    ensures
        waits_for(
            handler_after(trigger, began_at, inputs),
            actions_of(trigger, began_at, inputs).last(),
        ),
    decreases inputs.len(),
{
    if inputs.len() > 0 {
        let before = inputs.drop_last();
        let input = inputs.last();
        lemma_waits_for_the_last(trigger, began_at, before);
        lemma_waits(
            handler_after(trigger, began_at, before),
            actions_of(trigger, began_at, before).last(),
            input.event,
            input.now,
            input.max_retries,
        );
    }
}

/// A handling takes the answer to its last action and nothing else: any other
/// event breaks it off, and no answer does so for being unexpected.
pub proof fn law_only_answers_are_taken(trigger: TriggerView, began_at: int, inputs: Seq<Input>)
    requires
        inputs.len() > 0,
    ensures
        actions_of(trigger, began_at, inputs).last() == ActionView::Abort(Fault::UnexpectedEvent)
            <==> !answers(
            inputs.last().event,
            actions_of(trigger, began_at, inputs.drop_last()).last(),
        ),
{
    let before = inputs.drop_last();
    let input = inputs.last();
    lemma_waits_for_the_last(trigger, began_at, before);
    lemma_waits(
        handler_after(trigger, began_at, before),
        actions_of(trigger, began_at, before).last(),
        input.event,
        input.now,
        input.max_retries,
    );
}

/// A notification that failed, and rows that could not be ingested, move the
/// trigger on if and only if this failure brings its count to the maximum,
/// whatever the alert or the derived stream is like and whatever came before.
/// Otherwise one retry is added to its count.
pub proof fn law_failure_moves_on_at_the_maximum(
    trigger: TriggerView,
    began_at: int,
    inputs: Seq<Input>,
)
    requires
        inputs.len() > 0,
        actions_of(trigger, began_at, inputs.drop_last()).last() is NotifyAlert && (
        inputs.last().event matches EventView::AlertNotified { delivery, .. } && delivery is Failed)
            || actions_of(trigger, began_at, inputs.drop_last()).last() is Ingest && (
        inputs.last().event matches EventView::Ingested(Err(_))),
    ensures
        ({
            let action = actions_of(trigger, began_at, inputs).last();
            let retries = trigger.retries;
            if retries >= i32::MAX {
                action == ActionView::Abort(Fault::TooManyRetries)
            } else if retries + 1 >= inputs.last().max_retries {
                action is SaveTrigger
            } else {
                &&& action matches ActionView::SaveStatus(update)
                &&& update.org == trigger.org
                &&& update.module == trigger.module
                &&& update.module_key == trigger.module_key
                &&& update.status == TriggerStatus::Waiting
                &&& update.retries == retries + 1
            }
        }),
{
    let before = inputs.drop_last();
    lemma_waits_for_the_last(trigger, began_at, before);
    lemma_run(trigger, began_at, before);
}

/// How many answers a handling has taken, where its state tells.
proof fn lemma_answers_so_far(trigger: TriggerView, began_at: int, inputs: Seq<Input>)
    ensures
        ({
            let handler = handler_after(trigger, began_at, inputs);
            &&& handler.loading() is Some ==> inputs.len() == 0
            &&& handler.evaluated() is Some ==> inputs.len() == 1
        }),
    decreases inputs.len(),
{
    if inputs.len() > 0 {
        lemma_answers_so_far(trigger, began_at, inputs.drop_last());
    }
}

/// A report is sent only where it was looked up and is enabled.
pub proof fn law_only_an_enabled_report_is_sent(
    trigger: TriggerView,
    began_at: int,
    inputs: Seq<Input>,
)
    requires
        actions_of(trigger, began_at, inputs).last() is SendReport,
    ensures
        trigger.module == TriggerModule::Report,
        inputs.len() == 1,
        inputs[0].event matches EventView::ReportLoaded(Ok(report)) && report.enabled,
{
    lemma_start(trigger, began_at);
    if inputs.len() > 0 {
        lemma_answers_so_far(trigger, began_at, inputs.drop_last());
        lemma_run(trigger, began_at, inputs.drop_last());
    }
}

/// An alert is evaluated only where it was looked up and is enabled.
pub proof fn law_only_an_enabled_alert_is_evaluated(
    trigger: TriggerView,
    began_at: int,
    inputs: Seq<Input>,
)
    requires
        actions_of(trigger, began_at, inputs).last() is EvaluateAlert,
    ensures
        trigger.module == TriggerModule::Alert,
        inputs.len() == 1,
        inputs[0].event matches EventView::AlertLoaded { alert: Ok(Some(alert)), .. }
            && alert.enabled,
{
    lemma_start(trigger, began_at);
    if inputs.len() > 0 {
        lemma_answers_so_far(trigger, began_at, inputs.drop_last());
        lemma_run(trigger, began_at, inputs.drop_last());
    }
}

/// An alert's destinations are notified only where it is enabled and its
/// conditions hold.
pub proof fn law_only_an_alert_that_holds_is_notified(
    trigger: TriggerView,
    began_at: int,
    inputs: Seq<Input>,
)
    requires
        actions_of(trigger, began_at, inputs).last() is NotifyAlert,
    ensures
        trigger.module == TriggerModule::Alert,
        inputs.len() == 2,
        inputs[0].event matches EventView::AlertLoaded { alert: Ok(Some(alert)), .. }
            && alert.enabled,
        inputs[1].event matches EventView::AlertEvaluated(Ok(evaluation)) && evaluation.satisfied,
{
    lemma_start(trigger, began_at);
    if inputs.len() > 0 {
        let before = inputs.drop_last();
        lemma_answers_so_far(trigger, began_at, before);
        lemma_waits_for_the_last(trigger, began_at, before);
        lemma_run(trigger, began_at, before);
        law_only_an_enabled_alert_is_evaluated(trigger, began_at, before);
    }
}

/// Rows are ingested only where the derived stream's conditions hold, and into
/// the destination, in every field, of the first derived stream of the key's name
/// in the pipeline that was looked up.
pub proof fn law_only_rows_that_were_found_are_ingested(
    trigger: TriggerView,
    began_at: int,
    inputs: Seq<Input>,
)
    requires
        actions_of(trigger, began_at, inputs).last() is Ingest,
    ensures
        trigger.module == TriggerModule::DerivedStream,
        inputs.len() == 2,
        inputs[1].event matches EventView::DerivedStreamEvaluated(Ok(satisfied)) && satisfied,
        ({
            let actions = actions_of(trigger, began_at, inputs);
            &&& actions[0] matches ActionView::LoadPipeline { derived_stream: key, .. }
            &&& actions[1] matches ActionView::EvaluateDerivedStream(position)
            &&& inputs[0].event matches EventView::PipelineLoaded {
                derived_streams: Ok(Some(found)),
                ..
            }
            &&& 0 <= position < found.len()
            &&& found[position].name == key.name
            &&& forall|i: int| 0 <= i < position ==> (#[trigger] found[i]).name != key.name
            &&& actions[2] matches ActionView::Ingest(destination)
            &&& destination.org_id == found[position].destination.org_id
            &&& destination.stream_name == found[position].destination.stream_name
            &&& destination.stream_type == found[position].destination.stream_type
        }),
{
    lemma_start(trigger, began_at);
    if inputs.len() > 0 {
        let before = inputs.drop_last();
        lemma_answers_so_far(trigger, began_at, before);
        lemma_waits_for_the_last(trigger, began_at, before);
        lemma_run(trigger, began_at, before);
        let first = before.drop_last();
        lemma_answers_so_far(trigger, began_at, first);
        lemma_waits_for_the_last(trigger, began_at, first);
        lemma_run(trigger, began_at, first);
        assert(handler_after(trigger, began_at, before) == resumed(
            handler_after(trigger, began_at, first),
            before.last().event,
            before.last().now,
            before.last().max_retries,
        ).0);
    }
}

} // verus!
