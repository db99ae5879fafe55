//! What the handling of a report's trigger does, from the trigger and the
//! answers of the services to what is asked for.

use vstd::prelude::*;

use crate::cron_schedule::{cron_accepts, cron_run_after};
use crate::event::{ActionView, EventView};
use crate::outcome::{Fault, HandlerErrorView};
use crate::scheduler::{resumed, started, HandlerView};
use crate::types::{
    ReportFrequencyType, ReportUpdateView, ReportView, StatusUpdateView, TriggerDataStatus,
    TriggerDataType, TriggerDataView, TriggerModule, TriggerStatus, TriggerView,
};

verus! {

/// A handling of a report's trigger in which every service answers: the trigger,
/// what the services answer, and the instant at which each answer is taken up.
pub struct ReportRun {
    pub trigger: TriggerView,
    pub began_at: int,
    pub report: ReportView,
    pub loaded_at: int,
    pub sent: Result<(), Seq<char>>,
    pub sent_at: int,
    pub saved_at: int,
    pub still_enabled: bool,
    pub reloaded_at: int,
    pub stored: Result<(), Seq<char>>,
    pub stored_at: int,
    pub published_at: int,
    pub max_retries: int,
}

impl ReportRun {
    /// Whether the report is sent once and never again.
    pub open spec fn once(self) -> bool {
        self.report.frequency.frequency_type == ReportFrequencyType::Once
    }

    /// The step once the report is looked up.
    pub open spec fn loaded(self) -> (HandlerView, ActionView) {
        resumed(
            started(self.trigger, self.began_at).0,
            EventView::ReportLoaded(Ok(self.report)),
            self.loaded_at,
            self.max_retries,
        )
    }

    /// The step once the report is sent, or could not be.
    pub open spec fn written(self) -> (HandlerView, ActionView) {
        resumed(
            self.loaded().0,
            EventView::ReportSent(self.sent),
            self.sent_at,
            self.max_retries,
        )
    }

    /// The step once the trigger is written.
    pub open spec fn saved(self) -> (HandlerView, ActionView) {
        resumed(
            self.written().0,
            EventView::TriggerSaved(Ok(())),
            self.saved_at,
            self.max_retries,
        )
    }

    /// The step once the report is looked up again.
    pub open spec fn reloaded(self) -> (HandlerView, ActionView) {
        resumed(
            self.saved().0,
            EventView::ReportReloaded(Ok(self.still_enabled)),
            self.reloaded_at,
            self.max_retries,
        )
    }

    /// The step once the report is written back, or could not be.
    pub open spec fn stored(self) -> (HandlerView, ActionView) {
        resumed(
            self.reloaded().0,
            EventView::ReportStored(self.stored),
            self.stored_at,
            self.max_retries,
        )
    }

    /// The step once the record is published.
    pub open spec fn published(self) -> (HandlerView, ActionView) {
        resumed(self.stored().0, EventView::UsagePublished, self.published_at, self.max_retries)
    }
}

/// The trigger of a report leads to the lookup of the report that its key names,
/// in the trigger's own organisation, whatever else the trigger holds.  A report
/// that cannot be looked up ends the handling with the service's message.
pub proof fn law_report_is_looked_up(
    trigger: TriggerView,
    began_at: int,
    message: Seq<char>,
    loaded_at: int,
    max_retries: int,
)
    requires
        trigger.module == TriggerModule::Report,
    ensures
        started(trigger, began_at).1 == (ActionView::LoadReport {
            org: trigger.org,
            name: trigger.module_key,
        }),
        resumed(
            started(trigger, began_at).0,
            EventView::ReportLoaded(Err(message)),
            loaded_at,
            max_retries,
        ).1 == ActionView::Finish(Err(HandlerErrorView::Service(message))),
{
}

/// A report that is not enabled is never sent, whatever its frequency: its
/// trigger is written awake and due in a week, and that is all.
pub proof fn law_disabled_report_is_not_sent(run: ReportRun, answer: EventView)
    requires
        run.trigger.module == TriggerModule::Report,
        !run.report.enabled,
    ensures
        run.loaded().1 == if i64::MIN <= run.loaded_at + 604_800_000_000 <= i64::MAX {
            ActionView::SaveTrigger(
                TriggerView {
                    org: run.trigger.org,
                    module: TriggerModule::Report,
                    module_key: run.trigger.module_key,
                    next_run_at: run.loaded_at + 604_800_000_000,
                    is_realtime: false,
                    is_silenced: false,
                    status: TriggerStatus::Waiting,
                    start_time: run.trigger.start_time,
                    end_time: run.trigger.end_time,
                    retries: 0,
                },
            )
        } else {
            ActionView::Abort(Fault::TimeOutOfRange)
        },
        ({
            let last = resumed(run.loaded().0, answer, run.saved_at, run.max_retries).1;
            &&& last is Finish || last is Abort
            &&& run.loaded().1 is SaveTrigger && (answer matches EventView::TriggerSaved(Ok(_)))
                ==> last is Finish && last->Finish_0 is Ok
        }),
{
}

/// A report that is enabled and runs at intervals is sent, as long as its next
/// run is in range.  It counts as disabled from then on if and only if it is one
/// that is sent once.  It is due next at exactly the instant at which it was
/// looked up and its interval in hours, days, weeks or months of thirty days, or
/// a week where it is sent once.  The trigger that is written and the record that
/// is published both say so.
pub proof fn law_report_is_due_after_its_interval(run: ReportRun)
    requires
        run.trigger.module == TriggerModule::Report,
        run.report.enabled,
        run.report.frequency.frequency_type != ReportFrequencyType::Cron,
    ensures
        ({
            let interval = match run.report.frequency.frequency_type {
                ReportFrequencyType::Hours => run.report.frequency.interval * 3_600_000_000,
                ReportFrequencyType::Days => run.report.frequency.interval * 86_400_000_000,
                ReportFrequencyType::Weeks => run.report.frequency.interval * 604_800_000_000,
                ReportFrequencyType::Months => run.report.frequency.interval * 2_592_000_000_000,
                _ => 604_800_000_000,
            };
            let fits = i64::MIN <= interval <= i64::MAX && i64::MIN <= run.loaded_at + interval
                <= i64::MAX;
            &&& run.loaded().1 == if fits {
                ActionView::SendReport { enabled: !run.once() }
            } else {
                ActionView::Abort(Fault::TimeOutOfRange)
            }
            &&& run.written().1 matches ActionView::SaveTrigger(written) ==> written.next_run_at
                == run.loaded_at + interval
            &&& run.stored().1 matches ActionView::PublishUsage(record) ==> record.next_run_at
                == run.loaded_at + interval
        }),
{
}

/// A report that is enabled and runs by a cron expression is sent, as long as
/// there is a next run.  It is due next at the first run of its expression after
/// the instant at which it was looked up, in its own zone, `tz_offset` minutes
/// east of UTC.  The trigger that is written and the record that is published
/// both say so.
pub proof fn law_report_is_due_by_its_cron(run: ReportRun)
    requires
        run.trigger.module == TriggerModule::Report,
        run.report.enabled,
        run.report.frequency.frequency_type == ReportFrequencyType::Cron,
    ensures
        ({
            let cron = run.report.frequency.cron;
            let next = cron_run_after(cron, run.report.tz_offset * 60, run.loaded_at);
            &&& run.loaded().1 == if !cron_accepts(cron) {
                ActionView::Finish(
                    Err(
                        HandlerErrorView::InvalidCron(
                            "Invalid expression: Invalid cron expression."@,
                        ),
                    ),
                )
            } else if !(-8_334_601_228_800_000_000 <= run.loaded_at <= 8_210_266_876_798_999_999) {
                ActionView::Abort(Fault::TimeOutOfRange)
            } else if !(-1440 < run.report.tz_offset < 1440) {
                ActionView::Abort(Fault::OffsetOutOfRange)
            } else if next is None {
                ActionView::Abort(Fault::NoFurtherRun)
            } else {
                ActionView::SendReport { enabled: true }
            }
            &&& run.written().1 matches ActionView::SaveTrigger(written) ==> next == Some(
                written.next_run_at,
            )
            &&& run.stored().1 matches ActionView::PublishUsage(record) ==> next == Some(
                record.next_run_at,
            )
        }),
{
}

/// A report's trigger that is written whole after the report was sent, or could
/// not be, is awake, not realtime and has no retries on its count.  It is
/// completed if and only if the report is one that is sent once, and waits
/// otherwise.  Its next run apart it is as it was in everything else.
pub proof fn law_report_is_written_ready(run: ReportRun)
    requires
        run.trigger.module == TriggerModule::Report,
        run.loaded().1 is SendReport,
    ensures
        run.written().1 matches ActionView::SaveTrigger(written) ==> written == (TriggerView {
            org: run.trigger.org,
            module: TriggerModule::Report,
            module_key: run.trigger.module_key,
            next_run_at: written.next_run_at,
            is_realtime: false,
            is_silenced: false,
            status: if run.once() {
                TriggerStatus::Completed
            } else {
                TriggerStatus::Waiting
            },
            start_time: run.trigger.start_time,
            end_time: run.trigger.end_time,
            retries: 0,
        }),
{
}

/// A report that was sent moves its trigger on.  After one that could not be sent
/// the trigger moves on if and only if this failure brings its count to the
/// maximum and the report is not one that is sent once; otherwise its status
/// alone is written, with one retry more.
pub proof fn law_report_moves_on_at_the_maximum(run: ReportRun)
    requires
        run.trigger.module == TriggerModule::Report,
        run.loaded().1 is SendReport,
    ensures
        ({
            let retries = run.trigger.retries;
            if run.sent is Ok {
                run.written().1 is SaveTrigger
            } else if retries + 1 > i32::MAX {
                run.written().1 == ActionView::Abort(Fault::TooManyRetries)
            } else if retries + 1 >= run.max_retries && !run.once() {
                run.written().1 is SaveTrigger
            } else {
                run.written().1 == ActionView::SaveStatus(
                    StatusUpdateView {
                        org: run.trigger.org,
                        module: TriggerModule::Report,
                        module_key: run.trigger.module_key,
                        status: TriggerStatus::Waiting,
                        retries: retries + 1,
                    },
                )
            }
        }),
{
}

/// Once the trigger is written the report is looked up again and written back,
/// with the instant at which it was sent.  It is written back enabled if and only
/// if nobody disabled it in the meantime and it is not one that was sent once.
pub proof fn law_report_is_written_back(run: ReportRun)
    requires
        run.trigger.module == TriggerModule::Report,
        run.loaded().1 is SendReport,
        !(run.written().1 is Abort),
    ensures
        run.saved().1 == (ActionView::ReloadReport {
            org: run.trigger.org,
            name: run.trigger.module_key,
        }),
        run.reloaded().1 == ActionView::StoreReport(
            ReportUpdateView {
                org: run.trigger.org,
                name: run.trigger.module_key,
                enabled: run.still_enabled && !(run.once() && run.sent is Ok),
                last_triggered_at: run.loaded_at,
            },
        ),
{
}

/// The record of a report's run is published once the report is written back, or
/// could not be, and is the last thing that is asked for.  It tells of the
/// trigger as it was pulled, ends when the trigger was written, and tells how the
/// run ended.
pub proof fn law_report_record_tells_of_the_run(run: ReportRun)
    requires
        run.trigger.module == TriggerModule::Report,
        run.loaded().1 is SendReport,
        !(run.written().1 is Abort),
    ensures
        run.stored().1 matches ActionView::PublishUsage(record) && record == (TriggerDataView {
            _timestamp: match run.trigger.start_time {
                Some(instant) => instant as int,
                None => 0,
            },
            org: run.trigger.org,
            module: TriggerDataType::Report,
            key: run.trigger.module_key,
            next_run_at: record.next_run_at,
            is_realtime: run.trigger.is_realtime,
            is_silenced: run.trigger.is_silenced,
            status: if run.sent is Ok {
                TriggerDataStatus::Completed
            } else {
                TriggerDataStatus::Failed
            },
            start_time: match run.trigger.start_time {
                Some(instant) => instant as int,
                None => 0,
            },
            end_time: run.saved_at,
            retries: run.trigger.retries,
            error: match run.sent {
                Ok(_) => None,
                Err(message) => Some("error processing report: "@ + message),
            },
        }),
        run.published().1 is Finish && run.published().1->Finish_0 is Ok,
{
}

} // verus!
