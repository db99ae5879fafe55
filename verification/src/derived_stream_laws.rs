//! What the handling of a derived stream's trigger does, from the trigger and the
//! answers of the services to what is asked for.

use vstd::prelude::*;

use crate::cron_schedule::{cron_accepts, cron_run_after};
use crate::derived_stream::{is_first_named, law_first_of_a_name_is_taken, position_of};
use crate::event::{ActionView, EventView};
use crate::module_key::{
    derived_stream_key_of, law_derived_stream_key_is_made_of_its_columns,
    law_four_columns_name_a_derived_stream, slashes, DerivedStreamKeyView,
};
use crate::outcome::{Fault, HandlerErrorView};
use crate::scheduler::{resumed, started, HandlerView};
use crate::types::{
    DerivedStreamView, FrequencyType, StatusUpdateView, TriggerDataStatus, TriggerDataType,
    TriggerDataView, TriggerModule, TriggerStatus, TriggerView,
};

verus! {

/// A handling of a derived stream's trigger in which every service answers: the
/// trigger, the columns of its key, what the services answer, the position of the
/// derived stream in its pipeline, and the instant at which each answer is taken
/// up.
pub struct DerivedStreamRun {
    pub trigger: TriggerView,
    pub key: DerivedStreamKeyView,
    pub began_at: int,
    pub stream_type: Seq<char>,
    pub derived_streams: Seq<DerivedStreamView>,
    pub position: int,
    pub loaded_at: int,
    pub satisfied: bool,
    pub evaluated_at: int,
    pub ingested: Result<(), Seq<char>>,
    pub ingested_at: int,
    pub saved_at: int,
    pub published_at: int,
    pub max_retries: int,
}

impl DerivedStreamRun {
    /// Whether the pipeline is looked up: the columns are those of the trigger's
    /// key, and the trigger is not one that is only woken.
    pub open spec fn is_looked_up(self) -> bool {
        &&& self.trigger.module == TriggerModule::DerivedStream
        &&& !self.key.stream_type.contains('/')
        &&& !self.key.stream_name.contains('/')
        &&& !self.key.pipeline_name.contains('/')
        &&& !self.key.name.contains('/')
        &&& self.trigger.module_key == self.key.stream_type + seq!['/'] + self.key.stream_name
            + seq!['/'] + self.key.pipeline_name + seq!['/'] + self.key.name
        &&& !(self.trigger.is_realtime && self.trigger.is_silenced)
    }

    /// Whether the derived stream is found: the position is that of the first one
    /// of the key's name.
    pub open spec fn is_found(self) -> bool {
        &&& self.is_looked_up()
        &&& 0 <= self.position < self.derived_streams.len()
        &&& self.derived_streams[self.position].name == self.key.name
        &&& forall|i: int|
            0 <= i < self.position ==> (#[trigger] self.derived_streams[i]).name != self.key.name
    }

    /// The derived stream at the position.
    pub open spec fn stream(self) -> DerivedStreamView {
        self.derived_streams[self.position]
    }

    /// The step once the pipeline is looked up.
    pub open spec fn loaded(self) -> (HandlerView, ActionView) {
        resumed(
            started(self.trigger, self.began_at).0,
            EventView::PipelineLoaded {
                stream_type: self.stream_type,
                derived_streams: Ok(Some(self.derived_streams)),
            },
            self.loaded_at,
            self.max_retries,
        )
    }

    /// The step once the derived stream is evaluated.
    pub open spec fn evaluated(self) -> (HandlerView, ActionView) {
        resumed(
            self.loaded().0,
            EventView::DerivedStreamEvaluated(Ok(self.satisfied)),
            self.evaluated_at,
            self.max_retries,
        )
    }

    /// The step once the rows are ingested, or could not be.
    pub open spec fn ingested(self) -> (HandlerView, ActionView) {
        resumed(
            self.evaluated().0,
            EventView::Ingested(self.ingested),
            self.ingested_at,
            self.max_retries,
        )
    }

    /// The step that asks for the write of the trigger: after the ingestion where
    /// the conditions hold, after the evaluation where they do not.
    pub open spec fn written(self) -> (HandlerView, ActionView) {
        if self.satisfied {
            self.ingested()
        } else {
            self.evaluated()
        }
    }

    /// The step once the trigger is written.
    pub open spec fn saved(self) -> (HandlerView, ActionView) {
        resumed(
            self.written().0,
            EventView::TriggerSaved(Ok(())),
            self.saved_at,
            self.max_retries,
        )
    }

    /// The step once the record is published.
    pub open spec fn published(self) -> (HandlerView, ActionView) {
        resumed(self.saved().0, EventView::UsagePublished, self.published_at, self.max_retries)
    }
}

/// A trigger whose key is four columns without a slash leads to the lookup of the
/// pipeline of those columns, in the trigger's own organisation, unless it is a
/// silenced realtime trigger.
pub proof fn law_pipeline_is_looked_up(run: DerivedStreamRun)
    requires
        run.is_looked_up(),
    ensures
        started(run.trigger, run.began_at).1 == (ActionView::LoadPipeline {
            org: run.trigger.org,
            derived_stream: run.key,
        }),
{
    law_four_columns_name_a_derived_stream(run.key);
}

/// The handling of a derived stream's trigger breaks off at once if and only if
/// the key does not hold three slashes.
pub proof fn law_malformed_derived_stream_key_aborts(trigger: TriggerView, now: int)
    requires
        trigger.module == TriggerModule::DerivedStream,
    ensures
        started(trigger, now).1 == ActionView::Abort(Fault::MalformedKey) <==> slashes(
            trigger.module_key,
        ) != 3,
        started(trigger, now).1 is Abort ==> slashes(trigger.module_key) != 3,
{
    law_derived_stream_key_is_made_of_its_columns(trigger.module_key);
}

/// A silenced realtime trigger is written awake and due at once, and as it was in
/// everything else.  That is all: the pipeline is not looked up and no record is
/// published.
pub proof fn law_silenced_realtime_derived_stream_is_woken(
    trigger: TriggerView,
    began_at: int,
    saved: Result<(), Seq<char>>,
    saved_at: int,
    max_retries: int,
)
    requires
        trigger.module == TriggerModule::DerivedStream,
        slashes(trigger.module_key) == 3,
        trigger.is_realtime,
        trigger.is_silenced,
    ensures
        ({
            let (handler, write) = started(trigger, began_at);
            let (_, last) = resumed(
                handler,
                EventView::TriggerSaved(saved),
                saved_at,
                max_retries,
            );
            &&& write == ActionView::SaveTrigger(
                TriggerView {
                    org: trigger.org,
                    module: TriggerModule::DerivedStream,
                    module_key: trigger.module_key,
                    next_run_at: began_at,
                    is_realtime: true,
                    is_silenced: false,
                    status: TriggerStatus::Waiting,
                    start_time: trigger.start_time,
                    end_time: trigger.end_time,
                    retries: trigger.retries,
                },
            )
            &&& match saved {
                Ok(_) => last is Finish && last->Finish_0 is Ok,
                Err(message) => last == ActionView::Finish(
                    Err(HandlerErrorView::Service(message)),
                ),
            }
        }),
{
    law_derived_stream_key_is_made_of_its_columns(trigger.module_key);
}

/// A pipeline that cannot be looked up ends the handling with an error that names
/// the pipeline and the stream of the key, by the stream type that the lookup
/// used.
pub proof fn law_missing_pipeline_is_an_error(run: DerivedStreamRun, message: Seq<char>)
    requires
        run.is_looked_up(),
    ensures
        resumed(
            started(run.trigger, run.began_at).0,
            EventView::PipelineLoaded {
                stream_type: run.stream_type,
                derived_streams: Err(message),
            },
            run.loaded_at,
            run.max_retries,
        ).1 == ActionView::Finish(
            Err(
                HandlerErrorView::PipelineNotFound {
                    org: run.trigger.org,
                    stream_name: run.key.stream_name,
                    stream_type: run.stream_type,
                    pipeline_name: run.key.pipeline_name,
                },
            ),
        ),
{
    law_four_columns_name_a_derived_stream(run.key);
}

/// A pipeline without derived streams, or with none of the key's name, ends the
/// handling with an error that names the derived stream and the stream of the
/// key, by the stream type that the lookup used.
pub proof fn law_missing_derived_stream_is_an_error(run: DerivedStreamRun)
    requires
        run.is_looked_up(),
        forall|i: int|
            0 <= i < run.derived_streams.len() ==> (#[trigger] run.derived_streams[i]).name
                != run.key.name,
    ensures
        ({
            let missing = ActionView::Finish(
                Err(
                    HandlerErrorView::DerivedStreamNotFound {
                        org: run.trigger.org,
                        stream_name: run.key.stream_name,
                        stream_type: run.stream_type,
                        name: run.key.name,
                    },
                ),
            );
            &&& run.loaded().1 == missing
            &&& resumed(
                started(run.trigger, run.began_at).0,
                EventView::PipelineLoaded {
                    stream_type: run.stream_type,
                    derived_streams: Ok(None),
                },
                run.loaded_at,
                run.max_retries,
            ).1 == missing
        }),
{
    law_four_columns_name_a_derived_stream(run.key);
    assert forall|position: int| !is_first_named(run.derived_streams, run.key.name, position) by {
        if is_first_named(run.derived_streams, run.key.name, position) {
            assert(run.derived_streams[position].name == run.key.name);
        }
    }
}

/// The trigger's key names the derived stream at the position.
proof fn lemma_found(run: DerivedStreamRun)
    requires
        run.is_found(),
    ensures
        derived_stream_key_of(run.trigger.module_key) == Some(run.key),
        position_of(Some(run.derived_streams), run.key.name) == Some(run.position),
{
    law_four_columns_name_a_derived_stream(run.key);
    assert(is_first_named(run.derived_streams, run.key.name, run.position));
    law_first_of_a_name_is_taken(run.derived_streams, run.key.name, run.position);
}

/// The first derived stream of the key's name is the one that is evaluated.
pub proof fn law_found_derived_stream_is_evaluated(run: DerivedStreamRun)
    requires
        run.is_found(),
    ensures
        run.loaded().1 == ActionView::EvaluateDerivedStream(run.position),
{
    lemma_found(run);
}

/// Rows are ingested if and only if the conditions hold, and then into the
/// destination of the first derived stream of the key's name, each field of it as
/// the pipeline has it, whatever organisation the trigger belongs to.
pub proof fn law_rows_go_to_the_destination(run: DerivedStreamRun)
    requires
        run.is_found(),
    ensures
        run.evaluated().1 is Ingest ==> run.satisfied,
        run.evaluated().1 is SaveTrigger ==> !run.satisfied,
        run.evaluated().1 matches ActionView::Ingest(destination) ==> {
            &&& destination.org_id == run.derived_streams[run.position].destination.org_id
            &&& destination.stream_name == run.derived_streams[run.position].destination.stream_name
            &&& destination.stream_type == run.derived_streams[run.position].destination.stream_type
        },
{
    lemma_found(run);
}

/// A derived stream that runs at intervals has its rows ingested if and only if
/// its conditions hold, and its trigger is written at once if and only if they do
/// not.  It is due next at exactly the instant at which it was looked up and its
/// silence in minutes, where its conditions hold and it has a silence, or its
/// frequency in minutes otherwise.  The trigger that is written and the record
/// that is published both say so.
pub proof fn law_derived_stream_is_due_after_its_interval(run: DerivedStreamRun)
    requires
        run.is_found(),
        run.stream().trigger_condition.frequency_type == FrequencyType::Interval,
    ensures
        ({
            let condition = run.stream().trigger_condition;
            let interval = if run.satisfied && condition.silence > 0 {
                condition.silence * 60_000_000
            } else {
                condition.frequency * 60_000_000
            };
            let fits = i64::MIN <= interval <= i64::MAX && i64::MIN <= run.loaded_at + interval
                <= i64::MAX;
            &&& !fits ==> run.evaluated().1 == ActionView::Abort(Fault::TimeOutOfRange)
            &&& fits && run.satisfied ==> run.evaluated().1 is Ingest
            &&& fits && !run.satisfied ==> run.evaluated().1 is SaveTrigger
            &&& run.written().1 matches ActionView::SaveTrigger(written) ==> written.next_run_at
                == run.loaded_at + interval
            &&& run.saved().1 matches ActionView::PublishUsage(record) ==> record.next_run_at
                == run.loaded_at + interval
        }),
{
    lemma_found(run);
}

/// A derived stream that runs by a cron expression is due next at the first run
/// of its expression in its own zone, `tz_offset` minutes east of UTC: after the
/// instant of its evaluation, and after its silence in minutes from there where
/// its conditions hold and it has one.  The trigger that is written and the
/// record that is published both say so.
pub proof fn law_derived_stream_is_due_by_its_cron(run: DerivedStreamRun)
    requires
        run.is_found(),
        run.stream().trigger_condition.frequency_type == FrequencyType::Cron,
    ensures
        ({
            let condition = run.stream().trigger_condition;
            let start = if run.satisfied && condition.silence > 0 {
                run.evaluated_at + condition.silence * 60_000_000
            } else {
                run.evaluated_at
            };
            let next = cron_run_after(condition.cron, run.stream().tz_offset * 60, start);
            &&& run.written().1 matches ActionView::SaveTrigger(written) ==> next == Some(
                written.next_run_at,
            )
            &&& run.saved().1 matches ActionView::PublishUsage(record) ==> next == Some(
                record.next_run_at,
            )
        }),
{
    lemma_found(run);
}

/// A derived stream that runs by a cron expression gets past its evaluation if
/// and only if there is such a run: then its rows are ingested if and only if its
/// conditions hold.  An expression that is none is an error; in any other case
/// the handling breaks off.
pub proof fn law_derived_stream_with_a_cron_run_goes_on(run: DerivedStreamRun)
    requires
        run.is_found(),
        run.stream().trigger_condition.frequency_type == FrequencyType::Cron,
    ensures
        ({
            let condition = run.stream().trigger_condition;
            let silent = run.satisfied && condition.silence > 0;
            let start = if silent {
                run.evaluated_at + condition.silence * 60_000_000
            } else {
                run.evaluated_at
            };
            let zoned = -1440 < run.stream().tz_offset < 1440;
            let in_range = (silent ==> condition.silence * 60_000_000 <= i64::MAX)
                && -8_334_601_228_800_000_000 <= start <= 8_210_266_876_798_999_999;
            let found = cron_run_after(condition.cron, run.stream().tz_offset * 60, start) is Some;
            let action = run.evaluated().1;
            if !cron_accepts(condition.cron) {
                action == ActionView::Finish(
                    Err(
                        HandlerErrorView::InvalidCron(
                            "Invalid expression: Invalid cron expression."@,
                        ),
                    ),
                )
            } else if !in_range {
                action == ActionView::Abort(Fault::TimeOutOfRange)
            } else if !zoned {
                action == ActionView::Abort(Fault::OffsetOutOfRange)
            } else if !found {
                action == ActionView::Abort(Fault::NoFurtherRun)
            } else if run.satisfied {
                action is Ingest
            } else {
                action is SaveTrigger
            }
        }),
{
    lemma_found(run);
}

/// A derived stream's trigger that is written whole after an evaluation waits,
/// and is silenced if and only if the conditions hold and the derived stream has
/// a silence.  Its next run apart it is as it was in everything else: it keeps
/// its retries.
pub proof fn law_derived_stream_is_written_ready(run: DerivedStreamRun)
    requires
        run.is_found(),
    ensures
        run.written().1 matches ActionView::SaveTrigger(written) ==> written == (TriggerView {
            org: run.trigger.org,
            module: TriggerModule::DerivedStream,
            module_key: run.trigger.module_key,
            next_run_at: written.next_run_at,
            is_realtime: run.trigger.is_realtime,
            is_silenced: run.satisfied && run.stream().trigger_condition.silence > 0,
            status: TriggerStatus::Waiting,
            start_time: run.trigger.start_time,
            end_time: run.trigger.end_time,
            retries: run.trigger.retries,
        }),
{
    lemma_found(run);
}

/// Rows that were ingested move the trigger on.  After rows that could not be
/// ingested the trigger moves on if and only if this failure brings its count to
/// the maximum, whatever the derived stream is like; otherwise its status alone
/// is written, with one retry more.
pub proof fn law_derived_stream_moves_on_at_the_maximum(run: DerivedStreamRun)
    requires
        run.is_found(),
        run.evaluated().1 is Ingest,
    ensures
        ({
            let retries = run.trigger.retries;
            if run.ingested is Ok {
                run.ingested().1 is SaveTrigger
            } else if retries + 1 > i32::MAX {
                run.ingested().1 == ActionView::Abort(Fault::TooManyRetries)
            } else if retries + 1 >= run.max_retries {
                run.ingested().1 is SaveTrigger
            } else {
                run.ingested().1 == ActionView::SaveStatus(
                    StatusUpdateView {
                        org: run.trigger.org,
                        module: TriggerModule::DerivedStream,
                        module_key: run.trigger.module_key,
                        status: TriggerStatus::Waiting,
                        retries: retries + 1,
                    },
                )
            }
        }),
{
    lemma_found(run);
}

/// The record of a derived stream's run is published once the trigger is written,
/// and is the last thing that is asked for.  It tells of the trigger as it was
/// pulled, ends when the trigger was written, and tells how the run ended.
pub proof fn law_derived_stream_record_tells_of_the_run(run: DerivedStreamRun)
    requires
        run.is_found(),
        run.evaluated().1 is Ingest || run.evaluated().1 is SaveTrigger,
        !(run.written().1 is Abort),
    ensures
        run.saved().1 matches ActionView::PublishUsage(record) && record == (TriggerDataView {
            _timestamp: match run.trigger.start_time {
                Some(instant) => instant as int,
                None => 0,
            },
            org: run.trigger.org,
            module: TriggerDataType::DerivedStream,
            key: run.trigger.module_key,
            next_run_at: record.next_run_at,
            is_realtime: run.trigger.is_realtime,
            is_silenced: run.trigger.is_silenced,
            status: if !run.satisfied {
                TriggerDataStatus::ConditionNotSatisfied
            } else if run.ingested is Err {
                TriggerDataStatus::Failed
            } else {
                TriggerDataStatus::Completed
            },
            start_time: match run.trigger.start_time {
                Some(instant) => instant as int,
                None => 0,
            },
            end_time: run.saved_at,
            retries: run.trigger.retries,
            error: if !run.satisfied {
                None
            } else {
                match run.ingested {
                    Ok(_) => None,
                    Err(message) => Some("error sending notification for alert: "@ + message),
                }
            },
        }),
        run.published().1 is Finish && run.published().1->Finish_0 is Ok,
{
    lemma_found(run);
}

} // verus!
