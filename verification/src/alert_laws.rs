//! What the handling of an alert's trigger does, from the trigger and the
//! answers of the services to what is asked for.

use vstd::prelude::*;

use crate::cron_schedule::{cron_accepts, cron_run_after};
use crate::event::{ActionView, DeliveryView, Evaluation, EventView};
use crate::module_key::{
    law_alert_key_is_made_of_its_columns, law_three_columns_name_an_alert, slashes, AlertKeyView,
};
use crate::outcome::{Fault, HandlerErrorView};
use crate::scheduler::{resumed, started, HandlerView};
use crate::types::{
    AlertView, FrequencyType, StatusUpdateView, TriggerDataStatus, TriggerDataType, TriggerDataView,
    TriggerModule, TriggerStatus, TriggerView,
};

verus! {

/// A handling of an alert's trigger in which every service answers: the trigger,
/// what the services answer, and the instant at which each answer is taken up.
pub struct AlertRun {
    pub trigger: TriggerView,
    pub began_at: int,
    pub stream_type: Seq<char>,
    pub alert: AlertView,
    pub loaded_at: int,
    pub evaluation: Evaluation,
    pub evaluated_at: int,
    pub start_time: int,
    pub end_time: int,
    pub delivery: DeliveryView,
    pub notified_at: int,
    pub saved_at: int,
    pub published_at: int,
    pub max_retries: int,
}

impl AlertRun {
    /// Whether the alert gets as far as its evaluation: its key has three
    /// columns, it is enabled, and its trigger is not one that is only woken.
    pub open spec fn is_evaluated(self) -> bool {
        &&& self.trigger.module == TriggerModule::Alert
        &&& slashes(self.trigger.module_key) == 2
        &&& !(self.trigger.is_realtime && self.trigger.is_silenced)
        &&& self.alert.enabled
    }

    /// The step once the alert is looked up.
    pub open spec fn loaded(self) -> (HandlerView, ActionView) {
        resumed(
            started(self.trigger, self.began_at).0,
            EventView::AlertLoaded {
                stream_type: self.stream_type,
                alert: Ok(Some(self.alert)),
            },
            self.loaded_at,
            self.max_retries,
        )
    }

    /// The step once the alert is evaluated.
    pub open spec fn evaluated(self) -> (HandlerView, ActionView) {
        resumed(
            self.loaded().0,
            EventView::AlertEvaluated(Ok(self.evaluation)),
            self.evaluated_at,
            self.max_retries,
        )
    }

    /// The step once the notification is sent, or could not be.
    pub open spec fn notified(self) -> (HandlerView, ActionView) {
        resumed(
            self.evaluated().0,
            EventView::AlertNotified {
                start_time: self.start_time,
                end_time: self.end_time,
                delivery: self.delivery,
            },
            self.notified_at,
            self.max_retries,
        )
    }

    /// The step that asks for the write of the trigger: after the notification
    /// where the conditions hold, after the evaluation where they do not.
    pub open spec fn written(self) -> (HandlerView, ActionView) {
        if self.evaluation.satisfied {
            self.notified()
        } else {
            self.evaluated()
        }
    }

    /// The step once the trigger is written.
    pub open spec fn saved(self) -> (HandlerView, ActionView) {
        resumed(
            self.written().0,
            EventView::TriggerSaved(Ok(())),
            self.saved_at,
            self.max_retries,
        )
    }

    /// The step once the record is published.
    pub open spec fn published(self) -> (HandlerView, ActionView) {
        resumed(self.saved().0, EventView::UsagePublished, self.published_at, self.max_retries)
    }
}

/// A trigger whose key is three columns without a slash leads to the lookup of
/// the alert of those columns, in the trigger's own organisation, unless it is a
/// silenced realtime trigger.
pub proof fn law_alert_is_looked_up(trigger: TriggerView, key: AlertKeyView, now: int)
    requires
        trigger.module == TriggerModule::Alert,
        !key.stream_type.contains('/'),
        !key.stream_name.contains('/'),
        !key.alert_name.contains('/'),
        trigger.module_key == key.stream_type + seq!['/'] + key.stream_name + seq!['/']
            + key.alert_name,
        !(trigger.is_realtime && trigger.is_silenced),
    ensures
        started(trigger, now).1 == (ActionView::LoadAlert { org: trigger.org, alert: key }),
{
    law_three_columns_name_an_alert(key);
}

/// The handling of an alert's trigger breaks off at once if and only if the key
/// does not hold two slashes.
pub proof fn law_malformed_alert_key_aborts(trigger: TriggerView, now: int)
    requires
        trigger.module == TriggerModule::Alert,
    ensures
        started(trigger, now).1 == ActionView::Abort(Fault::MalformedKey) <==> slashes(
            trigger.module_key,
        ) != 2,
        started(trigger, now).1 is Abort ==> slashes(trigger.module_key) != 2,
{
    law_alert_key_is_made_of_its_columns(trigger.module_key);
}

/// A silenced realtime trigger is written awake and due at once, and as it was in
/// everything else.  That is all: the alert is not looked up and no record is
/// published.
pub proof fn law_silenced_realtime_alert_is_woken(
    trigger: TriggerView,
    began_at: int,
    saved: Result<(), Seq<char>>,
    saved_at: int,
    max_retries: int,
)
    requires
        trigger.module == TriggerModule::Alert,
        slashes(trigger.module_key) == 2,
        trigger.is_realtime,
        trigger.is_silenced,
    ensures
        ({
            let (handler, write) = started(trigger, began_at);
            let (_, last) = resumed(
                handler,
                EventView::TriggerSaved(saved),
                saved_at,
                max_retries,
            );
            &&& write == ActionView::SaveTrigger(
                TriggerView {
                    org: trigger.org,
                    module: TriggerModule::Alert,
                    module_key: trigger.module_key,
                    next_run_at: began_at,
                    is_realtime: true,
                    is_silenced: false,
                    status: TriggerStatus::Waiting,
                    start_time: trigger.start_time,
                    end_time: trigger.end_time,
                    retries: trigger.retries,
                },
            )
            &&& match saved {
                Ok(_) => last is Finish && last->Finish_0 is Ok,
                Err(message) => last == ActionView::Finish(
                    Err(HandlerErrorView::Service(message)),
                ),
            }
        }),
{
    law_alert_key_is_made_of_its_columns(trigger.module_key);
}

/// An alert that is not there, or that cannot be looked up, ends the handling
/// with an error: the first names the alert and the stream of its key, by the
/// stream type that the lookup used; the second keeps the service's message.
pub proof fn law_missing_alert_is_an_error(
    trigger: TriggerView,
    key: AlertKeyView,
    began_at: int,
    stream_type: Seq<char>,
    message: Seq<char>,
    loaded_at: int,
    max_retries: int,
)
    requires
        trigger.module == TriggerModule::Alert,
        !key.stream_type.contains('/'),
        !key.stream_name.contains('/'),
        !key.alert_name.contains('/'),
        trigger.module_key == key.stream_type + seq!['/'] + key.stream_name + seq!['/']
            + key.alert_name,
        !(trigger.is_realtime && trigger.is_silenced),
    ensures
        resumed(
            started(trigger, began_at).0,
            EventView::AlertLoaded { stream_type, alert: Ok(None) },
            loaded_at,
            max_retries,
        ).1 == ActionView::Finish(
            Err(
                HandlerErrorView::AlertNotFound {
                    org: trigger.org,
                    stream_name: key.stream_name,
                    stream_type,
                    alert_name: key.alert_name,
                },
            ),
        ),
        resumed(
            started(trigger, began_at).0,
            EventView::AlertLoaded { stream_type, alert: Err(message) },
            loaded_at,
            max_retries,
        ).1 == ActionView::Finish(Err(HandlerErrorView::Service(message))),
{
    law_three_columns_name_an_alert(key);
}

/// An alert that is not enabled is never evaluated, whatever its conditions: its
/// trigger is written silenced and due in a week, and that is all.
pub proof fn law_disabled_alert_waits_a_week(run: AlertRun)
    requires
        run.trigger.module == TriggerModule::Alert,
        slashes(run.trigger.module_key) == 2,
        !(run.trigger.is_realtime && run.trigger.is_silenced),
        !run.alert.enabled,
    ensures
        run.loaded().1 == if i64::MIN <= run.loaded_at + 604_800_000_000 <= i64::MAX {
            ActionView::SaveTrigger(
                TriggerView {
                    org: run.trigger.org,
                    module: TriggerModule::Alert,
                    module_key: run.trigger.module_key,
                    next_run_at: run.loaded_at + 604_800_000_000,
                    is_realtime: false,
                    is_silenced: true,
                    status: TriggerStatus::Waiting,
                    start_time: run.trigger.start_time,
                    end_time: run.trigger.end_time,
                    retries: 0,
                },
            )
        } else {
            ActionView::Abort(Fault::TimeOutOfRange)
        },
        run.loaded().1 is SaveTrigger ==> ({
            let last = resumed(
                run.loaded().0,
                EventView::TriggerSaved(Ok(())),
                run.saved_at,
                run.max_retries,
            ).1;
            last is Finish && last->Finish_0 is Ok
        }),
{
    law_alert_key_is_made_of_its_columns(run.trigger.module_key);
}

/// An alert that is enabled is evaluated.
pub proof fn law_enabled_alert_is_evaluated(run: AlertRun)
    requires
        run.is_evaluated(),
    ensures
        run.loaded().1 == ActionView::EvaluateAlert,
{
    law_alert_key_is_made_of_its_columns(run.trigger.module_key);
}

/// An alert that runs at intervals is notified of if and only if its conditions
/// hold, and its trigger is written at once if and only if they do not.  It is
/// due next at exactly the instant at which it was looked up and its silence in
/// minutes, where its conditions hold and it has a silence, or its frequency in
/// seconds otherwise.  The trigger that is written and the record that is
/// published both say so.
pub proof fn law_alert_is_due_after_its_interval(run: AlertRun)
    requires
        run.is_evaluated(),
        run.alert.trigger_condition.frequency_type == FrequencyType::Interval,
    ensures
        ({
            let condition = run.alert.trigger_condition;
            let interval = if run.evaluation.satisfied && condition.silence > 0 {
                condition.silence * 60_000_000
            } else {
                condition.frequency * 1_000_000
            };
            let period = condition.period * 60_000_000;
            let fits = i64::MIN <= interval <= i64::MAX && i64::MIN <= run.loaded_at + interval
                <= i64::MAX && i64::MIN <= period <= i64::MAX && i64::MIN <= run.evaluation.end_time
                - period <= i64::MAX;
            &&& !fits ==> run.evaluated().1 == ActionView::Abort(Fault::TimeOutOfRange)
            &&& fits && run.evaluation.satisfied ==> run.evaluated().1 == ActionView::NotifyAlert
            &&& fits && !run.evaluation.satisfied ==> run.evaluated().1 is SaveTrigger
            &&& run.written().1 matches ActionView::SaveTrigger(written) ==> written.next_run_at
                == run.loaded_at + interval
            &&& run.saved().1 matches ActionView::PublishUsage(record) ==> record.next_run_at
                == run.loaded_at + interval
        }),
{
    law_alert_key_is_made_of_its_columns(run.trigger.module_key);
}

/// An alert that runs by a cron expression is due next at the first run of its
/// expression in its own zone, `tz_offset` minutes east of UTC: after the instant
/// of its evaluation, and after its silence in minutes from there where its
/// conditions hold and it has one.  The trigger that is written and the record
/// that is published both say so.
pub proof fn law_alert_is_due_by_its_cron(run: AlertRun)
    requires
        run.is_evaluated(),
        run.alert.trigger_condition.frequency_type == FrequencyType::Cron,
    ensures
        ({
            let condition = run.alert.trigger_condition;
            let start = if run.evaluation.satisfied && condition.silence > 0 {
                run.evaluated_at + condition.silence * 60_000_000
            } else {
                run.evaluated_at
            };
            let east = run.alert.tz_offset * 60;
            &&& run.written().1 matches ActionView::SaveTrigger(written) ==> cron_run_after(
                condition.cron,
                east,
                start,
            ) == Some(written.next_run_at)
            &&& run.saved().1 matches ActionView::PublishUsage(record) ==> cron_run_after(
                condition.cron,
                east,
                start,
            ) == Some(record.next_run_at)
        }),
{
    law_alert_key_is_made_of_its_columns(run.trigger.module_key);
}

/// An alert that runs by a cron expression gets past its evaluation if and only
/// if there is such a run and the times are in range: then it is notified of if
/// and only if its conditions hold.  An expression that is none is an error; in
/// any other case the handling breaks off.
pub proof fn law_alert_with_a_cron_run_goes_on(run: AlertRun)
    requires
        run.is_evaluated(),
        run.alert.trigger_condition.frequency_type == FrequencyType::Cron,
    ensures
        ({
            let condition = run.alert.trigger_condition;
            let silent = run.evaluation.satisfied && condition.silence > 0;
            let start = if silent {
                run.evaluated_at + condition.silence * 60_000_000
            } else {
                run.evaluated_at
            };
            let zoned = -1440 < run.alert.tz_offset < 1440;
            let in_range = (silent ==> condition.silence * 60_000_000 <= i64::MAX)
                && -8_334_601_228_800_000_000 <= start <= 8_210_266_876_798_999_999;
            let found = cron_run_after(condition.cron, run.alert.tz_offset * 60, start) is Some;
            let period = condition.period * 60_000_000;
            let fits = i64::MIN <= period <= i64::MAX && i64::MIN <= run.evaluation.end_time
                - period <= i64::MAX;
            let action = run.evaluated().1;
            if !cron_accepts(condition.cron) {
                action == ActionView::Finish(
                    Err(
                        HandlerErrorView::InvalidCron(
                            "Invalid expression: Invalid cron expression."@,
                        ),
                    ),
                )
            } else if !in_range {
                action == ActionView::Abort(Fault::TimeOutOfRange)
            } else if !zoned {
                action == ActionView::Abort(Fault::OffsetOutOfRange)
            } else if !found {
                action == ActionView::Abort(Fault::NoFurtherRun)
            } else if !fits {
                action == ActionView::Abort(Fault::TimeOutOfRange)
            } else if run.evaluation.satisfied {
                action == ActionView::NotifyAlert
            } else {
                action is SaveTrigger
            }
        }),
{
    law_alert_key_is_made_of_its_columns(run.trigger.module_key);
}

/// An alert's trigger that is written whole after an evaluation waits, is not
/// realtime, has no retries on its count and is silenced if and only if the
/// conditions hold and the alert has a silence.  Its next run apart it is as it
/// was in everything else.
pub proof fn law_alert_is_written_ready(run: AlertRun)
    requires
        run.is_evaluated(),
    ensures
        run.written().1 matches ActionView::SaveTrigger(written) ==> written == (TriggerView {
            org: run.trigger.org,
            module: TriggerModule::Alert,
            module_key: run.trigger.module_key,
            next_run_at: written.next_run_at,
            is_realtime: false,
            is_silenced: run.evaluation.satisfied && run.alert.trigger_condition.silence > 0,
            status: TriggerStatus::Waiting,
            start_time: run.trigger.start_time,
            end_time: run.trigger.end_time,
            retries: 0,
        }),
{
    law_alert_key_is_made_of_its_columns(run.trigger.module_key);
}

/// A notification that reached its destinations, or some of them, moves the
/// trigger on.  After one that failed the trigger moves on if and only if this
/// failure brings its count to the maximum, whatever the alert is like; otherwise
/// its status alone is written, with one retry more.
pub proof fn law_alert_moves_on_at_the_maximum(run: AlertRun)
    requires
        run.is_evaluated(),
        run.evaluated().1 is NotifyAlert,
    ensures
        ({
            let retries = run.trigger.retries;
            match run.delivery {
                DeliveryView::Failed(_) => if retries + 1 > i32::MAX {
                    run.notified().1 == ActionView::Abort(Fault::TooManyRetries)
                } else if retries + 1 >= run.max_retries {
                    run.notified().1 is SaveTrigger
                } else {
                    run.notified().1 == ActionView::SaveStatus(
                        StatusUpdateView {
                            org: run.trigger.org,
                            module: TriggerModule::Alert,
                            module_key: run.trigger.module_key,
                            status: TriggerStatus::Waiting,
                            retries: retries + 1,
                        },
                    )
                },
                _ => run.notified().1 is SaveTrigger,
            }
        }),
{
    law_alert_key_is_made_of_its_columns(run.trigger.module_key);
}

/// The record of an alert's run is published once the trigger is written, and is
/// the last thing that is asked for.  It tells of the trigger as it was pulled,
/// of the span of time that was looked at or, where the conditions hold, of the
/// rows that were found, and of how the run ended.
pub proof fn law_alert_record_tells_of_the_run(run: AlertRun)
    requires
        run.is_evaluated(),
        run.evaluated().1 is NotifyAlert || run.evaluated().1 is SaveTrigger,
        !(run.written().1 is Abort),
    ensures
        run.saved().1 matches ActionView::PublishUsage(record) && record == (TriggerDataView {
            _timestamp: match run.trigger.start_time {
                Some(instant) => instant as int,
                None => 0,
            },
            org: run.trigger.org,
            module: TriggerDataType::Alert,
            key: run.trigger.module_key,
            next_run_at: record.next_run_at,
            is_realtime: run.trigger.is_realtime,
            is_silenced: run.trigger.is_silenced,
            status: if !run.evaluation.satisfied {
                TriggerDataStatus::ConditionNotSatisfied
            } else if run.delivery is Failed {
                TriggerDataStatus::Failed
            } else {
                TriggerDataStatus::Completed
            },
            start_time: if run.evaluation.satisfied {
                run.start_time
            } else {
                run.evaluation.end_time - run.alert.trigger_condition.period * 60_000_000
            },
            end_time: if run.evaluation.satisfied {
                run.end_time
            } else {
                run.evaluation.end_time as int
            },
            retries: run.trigger.retries,
            error: if !run.evaluation.satisfied {
                None
            } else {
                match run.delivery {
                    DeliveryView::Complete => None,
                    DeliveryView::Partial(reason) => Some(reason),
                    DeliveryView::Failed(message) => Some(
                        "error sending notification for alert: "@ + message,
                    ),
                }
            },
        }),
        run.published().1 is Finish && run.published().1->Finish_0 is Ok,
{
    law_alert_key_is_made_of_its_columns(run.trigger.module_key);
}

} // verus!
