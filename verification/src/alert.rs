//! Handling the trigger of an alert.

use vstd::prelude::*;

use crate::clock::{fits_i64, minutes_in_micros, span, MICROS_PER_MINUTE};
use crate::event::{Action, ActionView, Delivery, DeliveryView, Evaluation, Event, EventView};
use crate::module_key::{alert_key, alert_key_of, AlertKey, AlertKeyView};
use crate::outcome::{Fault, HandlerError, HandlerErrorView};
use crate::plan::{
    falls_silent, next_by_condition, next_week, run_by_condition, week_after, FrequencyUnit,
    NextRun, NextRunView,
};
use crate::retry::{after_failure, failure_text, write_after_failure};
use crate::types::{
    or_epoch, Alert, AlertView, FrequencyType, StatusUpdateView, Trigger, TriggerData,
    TriggerDataStatus, TriggerDataType, TriggerDataView, TriggerStatus, TriggerView,
};

verus! {

/// How far the handling of an alert's trigger has come.
#[derive(Debug, PartialEq, Eq)]
pub enum AlertState {
    /// The alert is being looked up.
    Loading { trigger: Trigger, key: AlertKey },
    /// The alert is being evaluated.
    Evaluating { trigger: Trigger, renewed: Trigger, alert: Alert },
    /// The notification is being sent.
    Notifying { renewed: Trigger, record: TriggerData },
    /// The trigger is being written, and a record is published of the run.
    Recording { record: TriggerData },
    /// The record is being published.
    Publishing,
    /// The trigger is being written, and nothing is published.
    Closing,
    /// There is nothing left to do.
    Finished,
}

#[verifier::ext_equal]
pub enum AlertStateView {
    Loading { trigger: TriggerView, key: AlertKeyView },
    Evaluating { trigger: TriggerView, renewed: TriggerView, alert: AlertView },
    Notifying { renewed: TriggerView, record: TriggerDataView },
    Recording { record: TriggerDataView },
    Publishing,
    Closing,
    Finished,
}

impl View for AlertState {
    type V = AlertStateView;

    open spec fn view(&self) -> AlertStateView {
        match *self {
            AlertState::Loading { trigger, key } => AlertStateView::Loading {
                trigger: trigger@,
                key: key@,
            },
            AlertState::Evaluating { trigger, renewed, alert } => AlertStateView::Evaluating {
                trigger: trigger@,
                renewed: renewed@,
                alert: alert@,
            },
            AlertState::Notifying { renewed, record } => AlertStateView::Notifying {
                renewed: renewed@,
                record: record@,
            },
            AlertState::Recording { record } => AlertStateView::Recording { record: record@ },
            AlertState::Publishing => AlertStateView::Publishing,
            AlertState::Closing => AlertStateView::Closing,
            AlertState::Finished => AlertStateView::Finished,
        }
    }
}

/// A step of the handling: where it stands then, and what it asks for.
pub open spec fn step_view(step: (AlertState, Action)) -> (AlertStateView, ActionView) {
    (step.0@, step.1@)
}

/// The last step: an error ended the handling.
pub open spec fn failed(error: HandlerErrorView) -> (AlertStateView, ActionView) {
    (AlertStateView::Finished, ActionView::Finish(Err(error)))
}

/// The last step: the trigger cannot be handled.
pub open spec fn aborted(fault: Fault) -> (AlertStateView, ActionView) {
    (AlertStateView::Finished, ActionView::Abort(fault))
}

/// The first step.  A silenced realtime trigger is only woken; for any other
/// the alert is looked up.
pub open spec fn alert_start(trigger: TriggerView, now: int) -> (AlertStateView, ActionView) {
    match alert_key_of(trigger.module_key) {
        None => aborted(Fault::MalformedKey),
        Some(key) => if trigger.is_realtime && trigger.is_silenced {
            (AlertStateView::Closing, ActionView::SaveTrigger(trigger.woken_at(now)))
        } else {
            (
                AlertStateView::Loading { trigger, key },
                ActionView::LoadAlert { org: trigger.org, alert: key },
            )
        },
    }
}

/// The step once the alert is looked up.  A disabled alert is silenced and
/// looked at again in a week; an enabled one is evaluated.
pub open spec fn alert_loaded(
    trigger: TriggerView,
    key: AlertKeyView,
    stream_type: Seq<char>,
    alert: Result<Option<AlertView>, Seq<char>>,
    now: int,
) -> (AlertStateView, ActionView) {
    match alert {
        Err(message) => failed(HandlerErrorView::Service(message)),
        Ok(None) => failed(
            HandlerErrorView::AlertNotFound {
                org: trigger.org,
                stream_name: key.stream_name,
                stream_type,
                alert_name: key.alert_name,
            },
        ),
        Ok(Some(alert)) => {
            let renewed = trigger.renewed_at(now);
            if alert.enabled {
                (
                    AlertStateView::Evaluating { trigger, renewed, alert },
                    ActionView::EvaluateAlert,
                )
            } else {
                match week_after(now) {
                    Some(instant) => (
                        AlertStateView::Closing,
                        ActionView::SaveTrigger(
                            TriggerView { next_run_at: instant, is_silenced: true, ..renewed },
                        ),
                    ),
                    None => aborted(Fault::TimeOutOfRange),
                }
            }
        },
    }
}

/// The record of a run that began with `trigger` and leaves it due at `next_run_at`.
pub open spec fn alert_record(
    trigger: TriggerView,
    next_run_at: int,
    start_time: int,
    end_time: int,
) -> TriggerDataView {
    TriggerDataView {
        _timestamp: or_epoch(trigger.start_time),
        org: trigger.org,
        module: TriggerDataType::Alert,
        key: trigger.module_key,
        next_run_at,
        is_realtime: trigger.is_realtime,
        is_silenced: trigger.is_silenced,
        status: TriggerDataStatus::Completed,
        start_time,
        end_time,
        retries: trigger.retries,
        error: None,
    }
}

/// The step once the alert is evaluated and its next run is known.  Where its
/// conditions hold the notification is sent; where they do not, the trigger is
/// written.
pub open spec fn alert_planned(
    trigger: TriggerView,
    renewed: TriggerView,
    alert: AlertView,
    evaluation: Evaluation,
    next: NextRunView,
) -> (AlertStateView, ActionView) {
    match next {
        NextRunView::Refused(complaint) => failed(HandlerErrorView::InvalidCron(complaint)),
        NextRunView::Broken(fault) => aborted(fault),
        NextRunView::At(instant) => match span(
            alert.trigger_condition.period,
            MICROS_PER_MINUTE as int,
        ) {
            None => aborted(Fault::TimeOutOfRange),
            Some(period) => if !fits_i64(evaluation.end_time - period) {
                aborted(Fault::TimeOutOfRange)
            } else {
                let renewed = TriggerView {
                    next_run_at: instant,
                    is_silenced: falls_silent(alert.trigger_condition, evaluation.satisfied),
                    ..renewed
                };
                let record = alert_record(
                    trigger,
                    instant,
                    evaluation.end_time - period,
                    evaluation.end_time as int,
                );
                if evaluation.satisfied {
                    (AlertStateView::Notifying { renewed, record }, ActionView::NotifyAlert)
                } else {
                    (
                        AlertStateView::Recording {
                            record: TriggerDataView {
                                status: TriggerDataStatus::ConditionNotSatisfied,
                                ..record
                            },
                        },
                        ActionView::SaveTrigger(renewed),
                    )
                }
            },
        },
    }
}

/// The step once the notification is sent, or could not be.
///
/// A notification that reached some of its destinations is not sent again.
pub open spec fn alert_notified(
    renewed: TriggerView,
    record: TriggerDataView,
    start_time: int,
    end_time: int,
    delivery: DeliveryView,
    max_retries: int,
) -> (AlertStateView, ActionView) {
    let record = TriggerDataView { start_time, end_time, ..record };
    match delivery {
        DeliveryView::Complete => (
            AlertStateView::Recording { record },
            ActionView::SaveTrigger(renewed),
        ),
        DeliveryView::Partial(reason) => (
            AlertStateView::Recording { record: TriggerDataView { error: Some(reason), ..record } },
            ActionView::SaveTrigger(renewed),
        ),
        DeliveryView::Failed(message) => {
            let action = write_after_failure(renewed, record.retries, max_retries, true);
            if action is Abort {
                (AlertStateView::Finished, action)
            } else {
                (
                    AlertStateView::Recording {
                        record: TriggerDataView {
                            status: TriggerDataStatus::Failed,
                            error: Some("error sending notification for alert: "@ + message),
                            ..record
                        },
                    },
                    action,
                )
            }
        },
    }
}

/// The step that follows an event.
pub open spec fn alert_next(
    state: AlertStateView,
    event: EventView,
    now: int,
    max_retries: int,
) -> (AlertStateView, ActionView) {
    match (state, event) {
        (
            AlertStateView::Loading { trigger, key },
            EventView::AlertLoaded { stream_type, alert },
        ) => alert_loaded(trigger, key, stream_type, alert, now),
        (
            AlertStateView::Evaluating { trigger, renewed, alert },
            EventView::AlertEvaluated(result),
        ) => match result {
            Err(message) => failed(HandlerErrorView::Service(message)),
            Ok(evaluation) => alert_planned(
                trigger,
                renewed,
                alert,
                evaluation,
                run_by_condition(
                    alert.trigger_condition,
                    alert.tz_offset,
                    FrequencyUnit::Seconds,
                    evaluation.satisfied,
                    renewed.next_run_at,
                    now,
                ),
            ),
        },
        (
            AlertStateView::Notifying { renewed, record },
            EventView::AlertNotified { start_time, end_time, delivery },
        ) => alert_notified(renewed, record, start_time, end_time, delivery, max_retries),
        (AlertStateView::Recording { record }, EventView::TriggerSaved(result)) => match result {
            Err(message) => failed(HandlerErrorView::Service(message)),
            Ok(_) => (AlertStateView::Publishing, ActionView::PublishUsage(record)),
        },
        (AlertStateView::Closing, EventView::TriggerSaved(result)) => match result {
            Err(message) => failed(HandlerErrorView::Service(message)),
            Ok(_) => (AlertStateView::Finished, ActionView::Finish(Ok(()))),
        },
        (AlertStateView::Publishing, EventView::UsagePublished) => (
            AlertStateView::Finished,
            ActionView::Finish(Ok(())),
        ),
        _ => aborted(Fault::UnexpectedEvent),
    }
}

fn fail(error: HandlerError) -> (step: (AlertState, Action))
    ensures
        step_view(step) == failed(error@),
{
    (AlertState::Finished, Action::Finish(Err(error)))
}

fn abort(fault: Fault) -> (step: (AlertState, Action))
    ensures
        step_view(step) == aborted(fault),
{
    (AlertState::Finished, Action::Abort(fault))
}

/// Begins to handle the trigger of an alert.
pub fn handle_alert_triggers(trigger: Trigger, now: i64) -> (step: (AlertState, Action))
    ensures
        step_view(step) == alert_start(trigger@, now as int),
{
    match alert_key(trigger.module_key.as_str()) {
        None => abort(Fault::MalformedKey),
        Some(key) => if trigger.is_realtime && trigger.is_silenced {
            (AlertState::Closing, Action::SaveTrigger(trigger.woken_at(now)))
        } else {
            let org = trigger.org.clone();
            let asked = key.clone();
            (AlertState::Loading { trigger, key }, Action::LoadAlert { org, alert: asked })
        },
    }
}

/// Goes on once the alert is looked up.
pub fn on_alert_loaded(
    trigger: Trigger,
    key: AlertKey,
    stream_type: String,
    alert: Result<Option<Alert>, String>,
    now: i64,
) -> (step: (AlertState, Action))
    ensures
        step_view(step) == alert_loaded(
            trigger@,
            key@,
            stream_type@,
            match alert {
                Ok(Some(alert)) => Ok(Some(alert@)),
                Ok(None) => Ok(None),
                Err(message) => Err(message@),
            },
            now as int,
        ),
{
    match alert {
        Err(message) => fail(HandlerError::Service(message)),
        Ok(None) => fail(
            HandlerError::AlertNotFound {
                org: trigger.org,
                stream_name: key.stream_name,
                stream_type,
                alert_name: key.alert_name,
            },
        ),
        Ok(Some(alert)) => {
            let renewed = trigger.renewed_at(now);
            if alert.enabled {
                (AlertState::Evaluating { trigger, renewed, alert }, Action::EvaluateAlert)
            } else {
                // Look at it again next week.
                match next_week(now) {
                    Some(instant) => (
                        AlertState::Closing,
                        Action::SaveTrigger(
                            Trigger { next_run_at: instant, is_silenced: true, ..renewed },
                        ),
                    ),
                    None => abort(Fault::TimeOutOfRange),
                }
            }
        },
    }
}

/// Goes on once the alert is evaluated and its next run is known.
pub fn on_alert_planned(
    trigger: Trigger,
    renewed: Trigger,
    alert: &Alert,
    evaluation: Evaluation,
    next: NextRun,
) -> (step: (AlertState, Action))
    ensures
        step_view(step) == alert_planned(trigger@, renewed@, alert@, evaluation, next@),
{
    let instant = match next {
        NextRun::Refused(complaint) => return fail(HandlerError::InvalidCron(complaint)),
        NextRun::Broken(fault) => return abort(fault),
        NextRun::At(instant) => instant,
    };
    let start_time = match minutes_in_micros(alert.trigger_condition.period) {
        None => return abort(Fault::TimeOutOfRange),
        Some(period) => match evaluation.end_time.checked_sub(period) {
            None => return abort(Fault::TimeOutOfRange),
            Some(start_time) => start_time,
        },
    };
    let renewed = Trigger {
        next_run_at: instant,
        is_silenced: evaluation.satisfied && alert.trigger_condition.silence > 0,
        ..renewed
    };
    let record = TriggerData {
        _timestamp: trigger.start_time.unwrap_or(0),
        org: trigger.org,
        module: TriggerDataType::Alert,
        key: trigger.module_key,
        next_run_at: instant,
        is_realtime: trigger.is_realtime,
        is_silenced: trigger.is_silenced,
        status: TriggerDataStatus::Completed,
        start_time,
        end_time: evaluation.end_time,
        retries: trigger.retries,
        error: None,
    };
    if evaluation.satisfied {
        (AlertState::Notifying { renewed, record }, Action::NotifyAlert)
    } else {
        let record = TriggerData { status: TriggerDataStatus::ConditionNotSatisfied, ..record };
        (AlertState::Recording { record }, Action::SaveTrigger(renewed))
    }
}

/// Goes on once the notification is sent, or could not be.
pub fn on_alert_notified(
    renewed: Trigger,
    record: TriggerData,
    start_time: i64,
    end_time: i64,
    delivery: Delivery,
    max_retries: i32,
) -> (step: (AlertState, Action))
    ensures
        step_view(step) == alert_notified(
            renewed@,
            record@,
            start_time as int,
            end_time as int,
            delivery@,
            max_retries as int,
        ),
{
    let record = TriggerData { start_time, end_time, ..record };
    match delivery {
        Delivery::Complete => (AlertState::Recording { record }, Action::SaveTrigger(renewed)),
        Delivery::Partial(reason) => {
            // Some destinations have it already, so it is not sent again.
            let record = TriggerData { error: Some(reason), ..record };
            (AlertState::Recording { record }, Action::SaveTrigger(renewed))
        },
        Delivery::Failed(message) => {
            let action = after_failure(renewed, record.retries, max_retries, true);
            if let Action::Abort(fault) = action {
                return abort(fault);
            }
            let text = failure_text("error sending notification for alert: ", message.as_str());
            let record = TriggerData {
                status: TriggerDataStatus::Failed,
                error: Some(text),
                ..record
            };
            (AlertState::Recording { record }, action)
        },
    }
}

/// Whether the trigger that a step writes, or keeps to write, is due after an instant.
pub open spec fn due_after(step: (AlertStateView, ActionView), instant: int) -> bool {
    &&& step.0 matches AlertStateView::Notifying { renewed, .. } ==> instant < renewed.next_run_at
    &&& step.1 matches ActionView::SaveTrigger(renewed) ==> instant < renewed.next_run_at
}

/// Whether the run that a step found by a cron expression lies ahead: an alert
/// that was evaluated at `now` is due after that, and after its silence where it
/// falls silent.
pub open spec fn cron_run_lies_ahead(
    state: AlertStateView,
    event: EventView,
    now: int,
    step: (AlertStateView, ActionView),
) -> bool {
    state matches AlertStateView::Evaluating { alert, .. } ==> (
    event matches EventView::AlertEvaluated(Ok(evaluation)) ==> {
        let condition = alert.trigger_condition;
        condition.frequency_type == FrequencyType::Cron ==> {
            &&& due_after(step, now)
            &&& falls_silent(condition, evaluation.satisfied) ==> due_after(
                step,
                now + condition.silence * MICROS_PER_MINUTE,
            )
        }
    })
}

/// Goes on after an event, at the instant `now`.
pub fn resume_alert(
    state: AlertState,
    event: Event,
    now: i64,
    max_retries: i32,
) -> (step: (AlertState, Action))
    ensures
        step_view(step) == alert_next(state@, event@, now as int, max_retries as int),
        cron_run_lies_ahead(state@, event@, now as int, step_view(step)),
{
    match (state, event) {
        (AlertState::Loading { trigger, key }, Event::AlertLoaded { stream_type, alert }) => {
            on_alert_loaded(trigger, key, stream_type, alert, now)
        },
        (AlertState::Evaluating { trigger, renewed, alert }, Event::AlertEvaluated(result)) => {
            match result {
                Err(message) => fail(HandlerError::Service(message)),
                Ok(evaluation) => {
                    let next = next_by_condition(
                        &alert.trigger_condition,
                        alert.tz_offset,
                        FrequencyUnit::Seconds,
                        evaluation.satisfied,
                        renewed.next_run_at,
                        now,
                    );
                    on_alert_planned(trigger, renewed, &alert, evaluation, next)
                },
            }
        },
        (
            AlertState::Notifying { renewed, record },
            Event::AlertNotified { start_time, end_time, delivery },
        ) => on_alert_notified(renewed, record, start_time, end_time, delivery, max_retries),
        (AlertState::Recording { record }, Event::TriggerSaved(result)) => match result {
            Err(message) => fail(HandlerError::Service(message)),
            Ok(_) => (AlertState::Publishing, Action::PublishUsage(record)),
        },
        (AlertState::Closing, Event::TriggerSaved(result)) => match result {
            Err(message) => fail(HandlerError::Service(message)),
            Ok(_) => (AlertState::Finished, Action::Finish(Ok(()))),
        },
        (AlertState::Publishing, Event::UsagePublished) => (
            AlertState::Finished,
            Action::Finish(Ok(())),
        ),
        _ => abort(Fault::UnexpectedEvent),
    }
}

/// An alert falls silent if and only if its conditions hold and it has a silence:
/// that is how its trigger is written, whatever became of the notification.
pub proof fn law_silence_follows_the_conditions(
    trigger: TriggerView,
    renewed: TriggerView,
    alert: AlertView,
    evaluation: Evaluation,
    notified: EventView,
    nows: (int, int),
    max_retries: int,
)
    ensures
        ({
            let (evaluated, first) = alert_next(
                AlertStateView::Evaluating { trigger, renewed, alert },
                EventView::AlertEvaluated(Ok(evaluation)),
                nows.0,
                max_retries,
            );
            let (_, second) = alert_next(evaluated, notified, nows.1, max_retries);
            let silent = falls_silent(alert.trigger_condition, evaluation.satisfied);
            &&& first matches ActionView::SaveTrigger(written) ==> written.is_silenced == silent
            &&& second matches ActionView::SaveTrigger(written) ==> written.is_silenced == silent
        }),
{
}

/// A notification that reached some of its destinations is not sent again: the
/// trigger moves on, however few retries it had.
pub proof fn law_partial_delivery_is_not_retried(
    renewed: TriggerView,
    record: TriggerDataView,
    start_time: int,
    end_time: int,
    reason: Seq<char>,
    max_retries: int,
)
    ensures
        alert_notified(
            renewed,
            record,
            start_time,
            end_time,
            DeliveryView::Partial(reason),
            max_retries,
        ).1 == ActionView::SaveTrigger(renewed),
{
}

/// What is known of the next run decides: an instant is taken over into the
/// trigger and the record, a complaint ends the handling with an error, and a
/// fault breaks it off.  The notification is sent if and only if the conditions
/// hold.
pub proof fn law_next_run_of_an_alert_is_taken_over(
    trigger: TriggerView,
    renewed: TriggerView,
    alert: AlertView,
    evaluation: Evaluation,
    instant: int,
    complaint: Seq<char>,
    fault: Fault,
)
    ensures
        alert_planned(
            trigger,
            renewed,
            alert,
            evaluation,
            NextRunView::Refused(complaint),
        ).1 == ActionView::Finish(Err(HandlerErrorView::InvalidCron(complaint))),
        alert_planned(
            trigger,
            renewed,
            alert,
            evaluation,
            NextRunView::Broken(fault),
        ).1 == ActionView::Abort(fault),
        ({
            let (state, action) = alert_planned(
                trigger,
                renewed,
                alert,
                evaluation,
                NextRunView::At(instant),
            );
            let period = alert.trigger_condition.period * 60_000_000;
            let written = TriggerView {
                org: renewed.org,
                module: renewed.module,
                module_key: renewed.module_key,
                next_run_at: instant,
                is_realtime: renewed.is_realtime,
                is_silenced: evaluation.satisfied && alert.trigger_condition.silence > 0,
                status: renewed.status,
                start_time: renewed.start_time,
                end_time: renewed.end_time,
                retries: renewed.retries,
            };
            let record = TriggerDataView {
                _timestamp: match trigger.start_time {
                    Some(instant) => instant as int,
                    None => 0,
                },
                org: trigger.org,
                module: TriggerDataType::Alert,
                key: trigger.module_key,
                next_run_at: instant,
                is_realtime: trigger.is_realtime,
                is_silenced: trigger.is_silenced,
                status: if evaluation.satisfied {
                    TriggerDataStatus::Completed
                } else {
                    TriggerDataStatus::ConditionNotSatisfied
                },
                start_time: evaluation.end_time - period,
                end_time: evaluation.end_time as int,
                retries: trigger.retries,
                error: None,
            };
            if !(i64::MIN <= period <= i64::MAX && i64::MIN <= evaluation.end_time - period
                <= i64::MAX) {
                action == ActionView::Abort(Fault::TimeOutOfRange)
            } else if evaluation.satisfied {
                action == ActionView::NotifyAlert && state == (AlertStateView::Notifying {
                    renewed: written,
                    record,
                })
            } else {
                action == ActionView::SaveTrigger(written) && state == (AlertStateView::Recording {
                    record,
                })
            }
        }),
{
}

/// What came of the notification decides what is written and recorded, whatever
/// else the trigger and the record hold.  After a failure the trigger moves on if
/// and only if its count reaches the maximum.
pub proof fn law_delivery_decides_the_write(
    renewed: TriggerView,
    record: TriggerDataView,
    start_time: int,
    end_time: int,
    delivery: DeliveryView,
    max_retries: int,
)
    ensures
        ({
            let (state, action) = alert_notified(
                renewed,
                record,
                start_time,
                end_time,
                delivery,
                max_retries,
            );
            let failed = delivery is Failed;
            &&& failed && record.retries + 1 > i32::MAX ==> action == ActionView::Abort(
                Fault::TooManyRetries,
            )
            &&& failed && record.retries < i32::MAX && record.retries + 1 < max_retries ==> action
                == ActionView::SaveStatus(
                StatusUpdateView {
                    org: renewed.org,
                    module: renewed.module,
                    module_key: renewed.module_key,
                    status: TriggerStatus::Waiting,
                    retries: record.retries + 1,
                },
            )
            &&& failed && record.retries < i32::MAX && record.retries + 1 >= max_retries ==> action
                == ActionView::SaveTrigger(renewed)
            &&& !failed ==> action == ActionView::SaveTrigger(renewed)
            &&& !(failed && record.retries + 1 > i32::MAX) ==> state == (AlertStateView::Recording {
                record: TriggerDataView {
                    _timestamp: record._timestamp,
                    org: record.org,
                    module: record.module,
                    key: record.key,
                    next_run_at: record.next_run_at,
                    is_realtime: record.is_realtime,
                    is_silenced: record.is_silenced,
                    status: if failed {
                        TriggerDataStatus::Failed
                    } else {
                        record.status
                    },
                    start_time,
                    end_time,
                    retries: record.retries,
                    error: match delivery {
                        DeliveryView::Complete => record.error,
                        DeliveryView::Partial(reason) => Some(reason),
                        DeliveryView::Failed(message) => Some(
                            "error sending notification for alert: "@ + message,
                        ),
                    },
                },
            })
        }),
{
}

/// What came of the lookup decides: an enabled alert is evaluated with its
/// trigger made ready for its next run, a disabled one is silenced for a week, and
/// one that is missing is named by the columns of the key.
pub proof fn law_lookup_of_an_alert_decides(
    trigger: TriggerView,
    key: AlertKeyView,
    stream_type: Seq<char>,
    alert: AlertView,
    now: int,
)
    ensures
        ({
            let (state, action) = alert_loaded(trigger, key, stream_type, Ok(Some(alert)), now);
            let ready = TriggerView {
                org: trigger.org,
                module: trigger.module,
                module_key: trigger.module_key,
                next_run_at: now,
                is_realtime: false,
                is_silenced: false,
                status: TriggerStatus::Waiting,
                start_time: trigger.start_time,
                end_time: trigger.end_time,
                retries: 0,
            };
            if alert.enabled {
                action == ActionView::EvaluateAlert && state == (AlertStateView::Evaluating {
                    trigger,
                    renewed: ready,
                    alert,
                })
            } else if i64::MIN <= now + 604_800_000_000 <= i64::MAX {
                action == ActionView::SaveTrigger(
                    TriggerView {
                        next_run_at: now + 604_800_000_000,
                        is_silenced: true,
                        ..ready
                    },
                )
            } else {
                action == ActionView::Abort(Fault::TimeOutOfRange)
            }
        }),
        alert_loaded(trigger, key, stream_type, Ok(None), now).1 == ActionView::Finish(
            Err(
                HandlerErrorView::AlertNotFound {
                    org: trigger.org,
                    stream_name: key.stream_name,
                    stream_type,
                    alert_name: key.alert_name,
                },
            ),
        ),
{
}

/// The view of a state holds what the state holds.
pub proof fn law_state_view_is_faithful(
    trigger: Trigger,
    renewed: Trigger,
    key: AlertKey,
    alert: Alert,
    record: TriggerData,
)
    ensures
        (AlertState::Loading { trigger, key })@ == (AlertStateView::Loading {
            trigger: trigger@,
            key: key@,
        }),
        (AlertState::Evaluating { trigger, renewed, alert })@ == (AlertStateView::Evaluating {
            trigger: trigger@,
            renewed: renewed@,
            alert: alert@,
        }),
        (AlertState::Notifying { renewed, record })@ == (AlertStateView::Notifying {
            renewed: renewed@,
            record: record@,
        }),
        (AlertState::Recording { record })@ == (AlertStateView::Recording { record: record@ }),
        AlertState::Publishing@ == AlertStateView::Publishing,
        AlertState::Closing@ == AlertStateView::Closing,
        AlertState::Finished@ == AlertStateView::Finished,
{
}

} // verus!
