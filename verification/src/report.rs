//! Handling the trigger of a report.

use vstd::prelude::*;

use crate::event::{answer, Action, ActionView, Event, EventView};
use crate::outcome::{Fault, HandlerError, HandlerErrorView};
use crate::plan::{next_of_report, next_week, run_of_report, week_after, NextRun, NextRunView};
use crate::retry::{after_failure, failure_text, write_after_failure};
use crate::types::{
    or_epoch, Report, ReportFrequencyType, ReportUpdate, ReportUpdateView, ReportView,
    StatusUpdateView, Trigger, TriggerData, TriggerDataStatus, TriggerDataType, TriggerDataView,
    TriggerStatus, TriggerView,
};

verus! {

/// How far the handling of a report's trigger has come.
#[derive(Debug, PartialEq, Eq)]
pub enum ReportState {
    /// The report is being looked up.
    Loading { trigger: Trigger },
    /// The report is being sent, since `sent_at`.
    Sending { renewed: Trigger, record: TriggerData, run_once: bool, sent_at: i64 },
    /// The trigger is being written.
    Recording { record: TriggerData, enabled: bool, sent_at: i64 },
    /// The report is being looked up again.
    Reloading { record: TriggerData, enabled: bool, sent_at: i64 },
    /// The report is being written.
    Storing { record: TriggerData },
    /// The record is being published.
    Publishing,
    /// The trigger is being written, and nothing is published.
    Closing,
    /// There is nothing left to do.
    Finished,
}

#[verifier::ext_equal]
pub enum ReportStateView {
    Loading { trigger: TriggerView },
    Sending { renewed: TriggerView, record: TriggerDataView, run_once: bool, sent_at: int },
    Recording { record: TriggerDataView, enabled: bool, sent_at: int },
    Reloading { record: TriggerDataView, enabled: bool, sent_at: int },
    Storing { record: TriggerDataView },
    Publishing,
    Closing,
    Finished,
}

impl View for ReportState {
    type V = ReportStateView;

    open spec fn view(&self) -> ReportStateView {
        match *self {
            ReportState::Loading { trigger } => ReportStateView::Loading { trigger: trigger@ },
            ReportState::Sending { renewed, record, run_once, sent_at } => {
                ReportStateView::Sending {
                    renewed: renewed@,
                    record: record@,
                    run_once,
                    sent_at: sent_at as int,
                }
            },
            ReportState::Recording { record, enabled, sent_at } => ReportStateView::Recording {
                record: record@,
                enabled,
                sent_at: sent_at as int,
            },
            ReportState::Reloading { record, enabled, sent_at } => ReportStateView::Reloading {
                record: record@,
                enabled,
                sent_at: sent_at as int,
            },
            ReportState::Storing { record } => ReportStateView::Storing { record: record@ },
            ReportState::Publishing => ReportStateView::Publishing,
            ReportState::Closing => ReportStateView::Closing,
            ReportState::Finished => ReportStateView::Finished,
        }
    }
}

/// A step of the handling: where it stands then, and what it asks for.
pub open spec fn step_view(step: (ReportState, Action)) -> (ReportStateView, ActionView) {
    (step.0@, step.1@)
}

/// The last step: an error ended the handling.
pub open spec fn failed(error: HandlerErrorView) -> (ReportStateView, ActionView) {
    (ReportStateView::Finished, ActionView::Finish(Err(error)))
}

/// The last step: the trigger cannot be handled.
pub open spec fn aborted(fault: Fault) -> (ReportStateView, ActionView) {
    (ReportStateView::Finished, ActionView::Abort(fault))
}

/// The first step: the report is looked up.  Its name is the module key.
pub open spec fn report_start(trigger: TriggerView) -> (ReportStateView, ActionView) {
    (
        ReportStateView::Loading { trigger },
        ActionView::LoadReport { org: trigger.org, name: trigger.module_key },
    )
}

/// The record of a run that began with `trigger` and leaves it due at `next_run_at`.
pub open spec fn report_record(trigger: TriggerView, next_run_at: int) -> TriggerDataView {
    TriggerDataView {
        _timestamp: or_epoch(trigger.start_time),
        org: trigger.org,
        module: TriggerDataType::Report,
        key: trigger.module_key,
        next_run_at,
        is_realtime: trigger.is_realtime,
        is_silenced: trigger.is_silenced,
        status: TriggerDataStatus::Completed,
        start_time: or_epoch(trigger.start_time),
        end_time: or_epoch(trigger.end_time),
        retries: trigger.retries,
        error: None,
    }
}

/// The step once an enabled report is looked up and its next run is known: it
/// is sent.  One that is sent once counts as disabled from here on.
pub open spec fn report_planned(
    trigger: TriggerView,
    report: ReportView,
    next: NextRunView,
    now: int,
) -> (ReportStateView, ActionView) {
    match next {
        NextRunView::Refused(complaint) => failed(HandlerErrorView::InvalidCron(complaint)),
        NextRunView::Broken(fault) => aborted(fault),
        NextRunView::At(instant) => {
            let run_once = report.frequency.frequency_type == ReportFrequencyType::Once;
            (
                ReportStateView::Sending {
                    renewed: TriggerView { next_run_at: instant, ..trigger.renewed_at(now) },
                    record: report_record(trigger, instant),
                    run_once,
                    sent_at: now,
                },
                ActionView::SendReport { enabled: !run_once },
            )
        },
    }
}

/// The step once the report is looked up.  A disabled report is looked at again
/// in a week; an enabled one is sent.
pub open spec fn report_loaded(
    trigger: TriggerView,
    report: Result<ReportView, Seq<char>>,
    now: int,
) -> (ReportStateView, ActionView) {
    match report {
        Err(message) => failed(HandlerErrorView::Service(message)),
        Ok(report) => if report.enabled {
            report_planned(trigger, report, run_of_report(report, now), now)
        } else {
            match week_after(now) {
                Some(instant) => (
                    ReportStateView::Closing,
                    ActionView::SaveTrigger(
                        TriggerView { next_run_at: instant, ..trigger.renewed_at(now) },
                    ),
                ),
                None => aborted(Fault::TimeOutOfRange),
            }
        },
    }
}

/// The step once the report is sent, or could not be.
///
/// A report that is sent once is done after a success: its trigger is completed
/// and the report disabled.  After a failure it is tried again, however often
/// it has failed, and the report stays enabled.
pub open spec fn report_sent(
    renewed: TriggerView,
    record: TriggerDataView,
    run_once: bool,
    sent_at: int,
    result: Result<(), Seq<char>>,
    max_retries: int,
) -> (ReportStateView, ActionView) {
    match result {
        Ok(_) => {
            let status = if run_once {
                TriggerStatus::Completed
            } else {
                renewed.status
            };
            (
                ReportStateView::Recording { record, enabled: !run_once, sent_at },
                ActionView::SaveTrigger(TriggerView { status, ..renewed }),
            )
        },
        Err(message) => {
            let action = write_after_failure(renewed, record.retries, max_retries, !run_once);
            if action is Abort {
                (ReportStateView::Finished, action)
            } else {
                (
                    ReportStateView::Recording {
                        record: TriggerDataView {
                            status: TriggerDataStatus::Failed,
                            error: Some("error processing report: "@ + message),
                            ..record
                        },
                        enabled: true,
                        sent_at,
                    },
                    action,
                )
            }
        },
    }
}

/// The step that follows an event.
///
/// The report is written back only when its trigger is, and enabled only where
/// nobody disabled it in the meantime.  A report that cannot be written back is
/// no reason to keep the record from being published.
pub open spec fn report_next(
    state: ReportStateView,
    event: EventView,
    now: int,
    max_retries: int,
) -> (ReportStateView, ActionView) {
    match (state, event) {
        (ReportStateView::Loading { trigger }, EventView::ReportLoaded(report)) => {
            report_loaded(trigger, report, now)
        },
        (
            ReportStateView::Sending { renewed, record, run_once, sent_at },
            EventView::ReportSent(result),
        ) => report_sent(renewed, record, run_once, sent_at, result, max_retries),
        (
            ReportStateView::Recording { record, enabled, sent_at },
            EventView::TriggerSaved(result),
        ) => match result {
            Err(message) => failed(HandlerErrorView::Service(message)),
            Ok(_) => (
                ReportStateView::Reloading {
                    record: TriggerDataView { end_time: now, ..record },
                    enabled,
                    sent_at,
                },
                ActionView::ReloadReport { org: record.org, name: record.key },
            ),
        },
        (
            ReportStateView::Reloading { record, enabled, sent_at },
            EventView::ReportReloaded(result),
        ) => match result {
            Err(message) => failed(HandlerErrorView::Service(message)),
            Ok(still_enabled) => (
                ReportStateView::Storing { record },
                ActionView::StoreReport(
                    ReportUpdateView {
                        org: record.org,
                        name: record.key,
                        enabled: enabled && still_enabled,
                        last_triggered_at: sent_at,
                    },
                ),
            ),
        },
        (ReportStateView::Storing { record }, EventView::ReportStored(_)) => (
            ReportStateView::Publishing,
            ActionView::PublishUsage(record),
        ),
        (ReportStateView::Closing, EventView::TriggerSaved(result)) => match result {
            Err(message) => failed(HandlerErrorView::Service(message)),
            Ok(_) => (ReportStateView::Finished, ActionView::Finish(Ok(()))),
        },
        (ReportStateView::Publishing, EventView::UsagePublished) => (
            ReportStateView::Finished,
            ActionView::Finish(Ok(())),
        ),
        _ => aborted(Fault::UnexpectedEvent),
    }
}

fn fail(error: HandlerError) -> (step: (ReportState, Action))
    ensures
        step_view(step) == failed(error@),
{
    (ReportState::Finished, Action::Finish(Err(error)))
}

fn abort(fault: Fault) -> (step: (ReportState, Action))
    ensures
        step_view(step) == aborted(fault),
{
    (ReportState::Finished, Action::Abort(fault))
}

/// Begins to handle the trigger of a report.
pub fn handle_report_triggers(trigger: Trigger) -> (step: (ReportState, Action))
    ensures
        step_view(step) == report_start(trigger@),
{
    let org = trigger.org.clone();
    let name = trigger.module_key.clone();
    (ReportState::Loading { trigger }, Action::LoadReport { org, name })
}

/// Goes on once an enabled report is looked up and its next run is known.
pub fn on_report_planned(
    trigger: Trigger,
    report: &Report,
    next: NextRun,
    now: i64,
) -> (step: (ReportState, Action))
    ensures
        step_view(step) == report_planned(trigger@, report@, next@, now as int),
{
    let instant = match next {
        NextRun::Refused(complaint) => return fail(HandlerError::InvalidCron(complaint)),
        NextRun::Broken(fault) => return abort(fault),
        NextRun::At(instant) => instant,
    };
    let renewed = Trigger { next_run_at: instant, ..trigger.renewed_at(now) };
    let record = TriggerData {
        _timestamp: trigger.start_time.unwrap_or(0),
        org: trigger.org,
        module: TriggerDataType::Report,
        key: trigger.module_key,
        next_run_at: instant,
        is_realtime: trigger.is_realtime,
        is_silenced: trigger.is_silenced,
        status: TriggerDataStatus::Completed,
        start_time: trigger.start_time.unwrap_or(0),
        end_time: trigger.end_time.unwrap_or(0),
        retries: trigger.retries,
        error: None,
    };
    let run_once = report.frequency.frequency_type == ReportFrequencyType::Once;
    (
        ReportState::Sending { renewed, record, run_once, sent_at: now },
        Action::SendReport { enabled: !run_once },
    )
}

/// Goes on once the report is looked up.
///
/// An enabled report that runs by a cron expression is due after `now`.
pub fn on_report_loaded(
    trigger: Trigger,
    report: Result<Report, String>,
    now: i64,
) -> (step: (ReportState, Action))
    ensures
        step_view(step) == report_loaded(
            trigger@,
            match report {
                Ok(report) => Ok(report@),
                Err(message) => Err(message@),
            },
            now as int,
        ),
        report matches Ok(report) && report.frequency.frequency_type == ReportFrequencyType::Cron
            ==> (step.0@ matches ReportStateView::Sending { renewed, .. } ==> now
            < renewed.next_run_at),
{
    match report {
        Err(message) => fail(HandlerError::Service(message)),
        Ok(report) => if report.enabled {
            let next = next_of_report(&report, now);
            on_report_planned(trigger, &report, next, now)
        } else {
            // Look at it again next week.
            match next_week(now) {
                Some(instant) => (
                    ReportState::Closing,
                    Action::SaveTrigger(
                        Trigger { next_run_at: instant, ..trigger.renewed_at(now) },
                    ),
                ),
                None => abort(Fault::TimeOutOfRange),
            }
        },
    }
}

/// Goes on once the report is sent, or could not be.
pub fn on_report_sent(
    renewed: Trigger,
    record: TriggerData,
    run_once: bool,
    sent_at: i64,
    result: Result<(), String>,
    max_retries: i32,
) -> (step: (ReportState, Action))
    ensures
        step_view(step) == report_sent(
            renewed@,
            record@,
            run_once,
            sent_at as int,
            answer(result),
            max_retries as int,
        ),
{
    match result {
        Ok(_) => {
            let status = if run_once {
                TriggerStatus::Completed
            } else {
                renewed.status
            };
            (
                ReportState::Recording { record, enabled: !run_once, sent_at },
                Action::SaveTrigger(Trigger { status, ..renewed }),
            )
        },
        Err(message) => {
            let action = after_failure(renewed, record.retries, max_retries, !run_once);
            if let Action::Abort(fault) = action {
                return abort(fault);
            }
            let text = failure_text("error processing report: ", message.as_str());
            let record = TriggerData {
                status: TriggerDataStatus::Failed,
                error: Some(text),
                ..record
            };
            (ReportState::Recording { record, enabled: true, sent_at }, action)
        },
    }
}

/// Whether the run that a step found by a cron expression lies ahead: a report
/// that was looked up at `now` and is sent is due after that.
pub open spec fn cron_run_lies_ahead(
    event: EventView,
    now: int,
    step: (ReportStateView, ActionView),
) -> bool {
    event matches EventView::ReportLoaded(Ok(report)) ==> (report.frequency.frequency_type
        == ReportFrequencyType::Cron ==> (
    step.0 matches ReportStateView::Sending { renewed, .. } ==> now < renewed.next_run_at))
}

/// Goes on after an event, at the instant `now`.
pub fn resume_report(
    state: ReportState,
    event: Event,
    now: i64,
    max_retries: i32,
) -> (step: (ReportState, Action))
    ensures
        step_view(step) == report_next(state@, event@, now as int, max_retries as int),
        cron_run_lies_ahead(event@, now as int, step_view(step)),
{
    match (state, event) {
        (ReportState::Loading { trigger }, Event::ReportLoaded(report)) => {
            on_report_loaded(trigger, report, now)
        },
        (
            ReportState::Sending { renewed, record, run_once, sent_at },
            Event::ReportSent(result),
        ) => on_report_sent(renewed, record, run_once, sent_at, result, max_retries),
        (
            ReportState::Recording { record, enabled, sent_at },
            Event::TriggerSaved(result),
        ) => match result {
            Err(message) => fail(HandlerError::Service(message)),
            Ok(_) => {
                let org = record.org.clone();
                let name = record.key.clone();
                let record = TriggerData { end_time: now, ..record };
                (
                    ReportState::Reloading { record, enabled, sent_at },
                    Action::ReloadReport { org, name },
                )
            },
        },
        (
            ReportState::Reloading { record, enabled, sent_at },
            Event::ReportReloaded(result),
        ) => match result {
            Err(message) => fail(HandlerError::Service(message)),
            Ok(still_enabled) => {
                let update = ReportUpdate {
                    org: record.org.clone(),
                    name: record.key.clone(),
                    enabled: enabled && still_enabled,
                    last_triggered_at: sent_at,
                };
                (ReportState::Storing { record }, Action::StoreReport(update))
            },
        },
        (ReportState::Storing { record }, Event::ReportStored(_)) => (
            ReportState::Publishing,
            Action::PublishUsage(record),
        ),
        (ReportState::Closing, Event::TriggerSaved(result)) => match result {
            Err(message) => fail(HandlerError::Service(message)),
            Ok(_) => (ReportState::Finished, Action::Finish(Ok(()))),
        },
        (ReportState::Publishing, Event::UsagePublished) => (
            ReportState::Finished,
            Action::Finish(Ok(())),
        ),
        _ => abort(Fault::UnexpectedEvent),
    }
}

/// A report that is sent once is sent successfully once: a success completes its
/// trigger and disables it.  A failure leaves its trigger to be tried again,
/// however often it failed before, and does not disable it.
pub proof fn law_report_is_sent_once(
    trigger: TriggerView,
    report: ReportView,
    result: Result<(), Seq<char>>,
    still_enabled: bool,
    nows: (int, int, int, int),
    max_retries: int,
)
    requires
        report.enabled,
        report.frequency.frequency_type == ReportFrequencyType::Once,
        trigger.retries < i32::MAX,
        week_after(nows.0) is Some,
    ensures
        ({
            let (loaded, sending) = report_next(
                ReportStateView::Loading { trigger },
                EventView::ReportLoaded(Ok(report)),
                nows.0,
                max_retries,
            );
            let (sent, write) = report_next(
                loaded,
                EventView::ReportSent(result),
                nows.1,
                max_retries,
            );
            let (saved, _) = report_next(
                sent,
                EventView::TriggerSaved(Ok(())),
                nows.2,
                max_retries,
            );
            let (_, store) = report_next(
                saved,
                EventView::ReportReloaded(Ok(still_enabled)),
                nows.3,
                max_retries,
            );
            &&& sending == ActionView::SendReport { enabled: false }
            &&& store is StoreReport
            &&& result is Ok ==> {
                &&& write is SaveTrigger
                &&& write->SaveTrigger_0.status == TriggerStatus::Completed
                &&& !store->StoreReport_0.enabled
            }
            &&& result is Err ==> {
                &&& write is SaveStatus
                &&& write->SaveStatus_0.status == TriggerStatus::Waiting
                &&& write->SaveStatus_0.retries == trigger.retries + 1
                &&& store->StoreReport_0.enabled == still_enabled
            }
        }),
{
}

/// A report that was disabled while it was sent is written back disabled.
pub proof fn law_disabled_report_stays_disabled(
    state: ReportStateView,
    now: int,
    max_retries: int,
)
    ensures
        report_next(
            state,
            EventView::ReportReloaded(Ok(false)),
            now,
            max_retries,
        ).1 matches ActionView::StoreReport(update) ==> !update.enabled,
{
}

/// What is known of the next run decides: an instant is taken over into the
/// trigger and the record, and the report is sent; a complaint ends the handling
/// with an error, and a fault breaks it off.
pub proof fn law_next_run_of_a_report_is_taken_over(
    trigger: TriggerView,
    report: ReportView,
    instant: int,
    complaint: Seq<char>,
    fault: Fault,
    now: int,
)
    ensures
        report_planned(trigger, report, NextRunView::Refused(complaint), now).1
            == ActionView::Finish(Err(HandlerErrorView::InvalidCron(complaint))),
        report_planned(trigger, report, NextRunView::Broken(fault), now).1 == ActionView::Abort(
            fault,
        ),
        ({
            let once = report.frequency.frequency_type == ReportFrequencyType::Once;
            let began = match trigger.start_time {
                Some(instant) => instant as int,
                None => 0,
            };
            let (state, action) = report_planned(trigger, report, NextRunView::At(instant), now);
            &&& action == (ActionView::SendReport { enabled: !once })
            &&& state == (ReportStateView::Sending {
                renewed: TriggerView {
                    org: trigger.org,
                    module: trigger.module,
                    module_key: trigger.module_key,
                    next_run_at: instant,
                    is_realtime: false,
                    is_silenced: false,
                    status: TriggerStatus::Waiting,
                    start_time: trigger.start_time,
                    end_time: trigger.end_time,
                    retries: 0,
                },
                record: TriggerDataView {
                    _timestamp: began,
                    org: trigger.org,
                    module: TriggerDataType::Report,
                    key: trigger.module_key,
                    next_run_at: instant,
                    is_realtime: trigger.is_realtime,
                    is_silenced: trigger.is_silenced,
                    status: TriggerDataStatus::Completed,
                    start_time: began,
                    end_time: match trigger.end_time {
                        Some(instant) => instant as int,
                        None => 0,
                    },
                    retries: trigger.retries,
                    error: None,
                },
                run_once: once,
                sent_at: now,
            })
        }),
{
}

/// A report that is not enabled is put off by a week and not sent, whatever its
/// frequency.
pub proof fn law_lookup_of_a_disabled_report_sends_nothing(
    trigger: TriggerView,
    report: ReportView,
    now: int,
)
    requires
        !report.enabled,
    ensures
        report_loaded(trigger, Ok(report), now) == if i64::MIN <= now + 604_800_000_000
            <= i64::MAX {
            (
                ReportStateView::Closing,
                ActionView::SaveTrigger(
                    TriggerView {
                        org: trigger.org,
                        module: trigger.module,
                        module_key: trigger.module_key,
                        next_run_at: now + 604_800_000_000,
                        is_realtime: false,
                        is_silenced: false,
                        status: TriggerStatus::Waiting,
                        start_time: trigger.start_time,
                        end_time: trigger.end_time,
                        retries: 0,
                    },
                ),
            )
        } else {
            (ReportStateView::Finished, ActionView::Abort(Fault::TimeOutOfRange))
        },
{
}

/// What came of sending the report decides what is written and recorded, whatever
/// else the trigger and the record hold.  After a failure the trigger moves on if
/// and only if its count reaches the maximum and the report is not one that is
/// sent once.
pub proof fn law_sending_decides_the_write(
    renewed: TriggerView,
    record: TriggerDataView,
    run_once: bool,
    sent_at: int,
    result: Result<(), Seq<char>>,
    max_retries: int,
)
    ensures
        ({
            let (state, action) = report_sent(
                renewed,
                record,
                run_once,
                sent_at,
                result,
                max_retries,
            );
            let failed = result is Err;
            &&& failed && record.retries + 1 > i32::MAX ==> action == ActionView::Abort(
                Fault::TooManyRetries,
            )
            &&& failed && record.retries < i32::MAX && (record.retries + 1 < max_retries
                || run_once) ==> action == ActionView::SaveStatus(
                StatusUpdateView {
                    org: renewed.org,
                    module: renewed.module,
                    module_key: renewed.module_key,
                    status: TriggerStatus::Waiting,
                    retries: record.retries + 1,
                },
            )
            &&& failed && record.retries < i32::MAX && record.retries + 1 >= max_retries
                && !run_once ==> action == ActionView::SaveTrigger(renewed)
            &&& !failed && run_once ==> action == ActionView::SaveTrigger(
                TriggerView { status: TriggerStatus::Completed, ..renewed },
            )
            &&& !failed && !run_once ==> action == ActionView::SaveTrigger(renewed)
            &&& !(failed && record.retries + 1 > i32::MAX) ==> state
                == (ReportStateView::Recording {
                record: TriggerDataView {
                    _timestamp: record._timestamp,
                    org: record.org,
                    module: record.module,
                    key: record.key,
                    next_run_at: record.next_run_at,
                    is_realtime: record.is_realtime,
                    is_silenced: record.is_silenced,
                    status: if failed {
                        TriggerDataStatus::Failed
                    } else {
                        record.status
                    },
                    start_time: record.start_time,
                    end_time: record.end_time,
                    retries: record.retries,
                    error: match result {
                        Ok(_) => record.error,
                        Err(message) => Some("error processing report: "@ + message),
                    },
                },
                enabled: failed || !run_once,
                sent_at,
            })
        }),
{
}

/// The view of a state holds what the state holds.
pub proof fn law_state_view_is_faithful(
    trigger: Trigger,
    renewed: Trigger,
    record: TriggerData,
    flag: bool,
    sent_at: i64,
)
    ensures
        (ReportState::Loading { trigger })@ == (ReportStateView::Loading { trigger: trigger@ }),
        (ReportState::Sending { renewed, record, run_once: flag, sent_at })@ == (
        ReportStateView::Sending {
            renewed: renewed@,
            record: record@,
            run_once: flag,
            sent_at: sent_at as int,
        }),
        (ReportState::Recording { record, enabled: flag, sent_at })@ == (
        ReportStateView::Recording {
            record: record@,
            enabled: flag,
            sent_at: sent_at as int,
        }),
        (ReportState::Reloading { record, enabled: flag, sent_at })@ == (
        ReportStateView::Reloading {
            record: record@,
            enabled: flag,
            sent_at: sent_at as int,
        }),
        (ReportState::Storing { record })@ == (ReportStateView::Storing { record: record@ }),
        ReportState::Publishing@ == ReportStateView::Publishing,
        ReportState::Closing@ == ReportStateView::Closing,
        ReportState::Finished@ == ReportStateView::Finished,
{
}

} // verus!
