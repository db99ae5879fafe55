//! Triggers, what they set off, and the usage records of their runs.

use vstd::prelude::*;

verus! {

/// What a trigger sets off.
#[derive(Debug, Clone, Copy, PartialEq, Eq, Structural)]
pub enum TriggerModule {
    Report,
    Alert,
    DerivedStream,
}

/// Where a trigger stands in the scheduler's store.
#[derive(Debug, Clone, Copy, PartialEq, Eq, Structural)]
pub enum TriggerStatus {
    Waiting,
    Completed,
}

/// A trigger as the scheduler's store holds it.  Instants are in microseconds
/// since the Unix epoch.
#[derive(Debug, PartialEq, Eq)]
pub struct Trigger {
    pub org: String,
    pub module: TriggerModule,
    pub module_key: String,
    pub next_run_at: i64,
    pub is_realtime: bool,
    pub is_silenced: bool,
    pub status: TriggerStatus,
    pub start_time: Option<i64>,
    pub end_time: Option<i64>,
    pub retries: i32,
}

#[verifier::ext_equal]
pub struct TriggerView {
    pub org: Seq<char>,
    pub module: TriggerModule,
    pub module_key: Seq<char>,
    pub next_run_at: int,
    pub is_realtime: bool,
    pub is_silenced: bool,
    pub status: TriggerStatus,
    pub start_time: Option<i64>,
    pub end_time: Option<i64>,
    pub retries: int,
}

impl View for Trigger {
    type V = TriggerView;

    open spec fn view(&self) -> TriggerView {
        TriggerView {
            org: self.org@,
            module: self.module,
            module_key: self.module_key@,
            next_run_at: self.next_run_at as int,
            is_realtime: self.is_realtime,
            is_silenced: self.is_silenced,
            status: self.status,
            start_time: self.start_time,
            end_time: self.end_time,
            retries: self.retries as int,
        }
    }
}

impl TriggerView {
    /// Whether the scheduler pulls the trigger at an instant: it is due, it is
    /// waiting, and it is not a realtime trigger that is awake.
    pub open spec fn pulled_at(self, now: int) -> bool {
        &&& self.next_run_at <= now
        &&& !(self.is_realtime && !self.is_silenced)
        &&& self.status == TriggerStatus::Waiting
    }

    /// The trigger as it is woken: realtime, and no longer silenced.
    pub open spec fn woken_at(self, now: int) -> TriggerView {
        TriggerView {
            next_run_at: now,
            is_realtime: true,
            is_silenced: false,
            status: TriggerStatus::Waiting,
            ..self
        }
    }

    /// The trigger made ready for its next run: waiting, awake, not realtime,
    /// with no retries on its count.
    pub open spec fn renewed_at(self, now: int) -> TriggerView {
        TriggerView {
            next_run_at: now,
            is_realtime: false,
            is_silenced: false,
            status: TriggerStatus::Waiting,
            retries: 0,
            ..self
        }
    }
}

impl Trigger {
    /// The trigger as it is woken: realtime, and no longer silenced.
    pub fn woken_at(self, now: i64) -> (woken: Trigger)
        ensures
            woken@ == self@.woken_at(now as int),
    {
        Trigger {
            next_run_at: now,
            is_realtime: true,
            is_silenced: false,
            status: TriggerStatus::Waiting,
            ..self
        }
    }

    /// The trigger made ready for its next run: waiting, awake, not realtime,
    /// with no retries on its count.
    pub fn renewed_at(&self, now: i64) -> (renewed: Trigger)
        ensures
            renewed@ == self@.renewed_at(now as int),
    {
        Trigger {
            next_run_at: now,
            is_realtime: false,
            is_silenced: false,
            status: TriggerStatus::Waiting,
            retries: 0,
            ..self.clone()
        }
    }
}

impl Clone for Trigger {
    fn clone(&self) -> (copy: Self)
        ensures
            copy@ == self@,
    {
        Trigger {
            org: self.org.clone(),
            module: self.module,
            module_key: self.module_key.clone(),
            next_run_at: self.next_run_at,
            is_realtime: self.is_realtime,
            is_silenced: self.is_silenced,
            status: self.status,
            start_time: self.start_time,
            end_time: self.end_time,
            retries: self.retries,
        }
    }
}

/// A write that changes the status and the retries of a trigger and nothing else.
#[derive(Debug, PartialEq, Eq)]
pub struct StatusUpdate {
    pub org: String,
    pub module: TriggerModule,
    pub module_key: String,
    pub status: TriggerStatus,
    pub retries: i32,
}

#[verifier::ext_equal]
pub struct StatusUpdateView {
    pub org: Seq<char>,
    pub module: TriggerModule,
    pub module_key: Seq<char>,
    pub status: TriggerStatus,
    pub retries: int,
}

impl View for StatusUpdate {
    type V = StatusUpdateView;

    open spec fn view(&self) -> StatusUpdateView {
        StatusUpdateView {
            org: self.org@,
            module: self.module,
            module_key: self.module_key@,
            status: self.status,
            retries: self.retries as int,
        }
    }
}

/// What a usage record is about.
#[derive(Debug, Clone, Copy, PartialEq, Eq, Structural)]
pub enum TriggerDataType {
    Report,
    Alert,
    DerivedStream,
}

/// How a run ended.
#[derive(Debug, Clone, Copy, PartialEq, Eq, Structural)]
pub enum TriggerDataStatus {
    Completed,
    Failed,
    ConditionNotSatisfied,
}

/// The usage record of one run of a trigger.
#[derive(Debug, PartialEq, Eq)]
pub struct TriggerData {
    pub _timestamp: i64,
    pub org: String,
    pub module: TriggerDataType,
    pub key: String,
    pub next_run_at: i64,
    pub is_realtime: bool,
    pub is_silenced: bool,
    pub status: TriggerDataStatus,
    pub start_time: i64,
    pub end_time: i64,
    pub retries: i32,
    pub error: Option<String>,
}

#[verifier::ext_equal]
pub struct TriggerDataView {
    pub _timestamp: int,
    pub org: Seq<char>,
    pub module: TriggerDataType,
    pub key: Seq<char>,
    pub next_run_at: int,
    pub is_realtime: bool,
    pub is_silenced: bool,
    pub status: TriggerDataStatus,
    pub start_time: int,
    pub end_time: int,
    pub retries: int,
    pub error: Option<Seq<char>>,
}

impl View for TriggerData {
    type V = TriggerDataView;

    open spec fn view(&self) -> TriggerDataView {
        TriggerDataView {
            _timestamp: self._timestamp as int,
            org: self.org@,
            module: self.module,
            key: self.key@,
            next_run_at: self.next_run_at as int,
            is_realtime: self.is_realtime,
            is_silenced: self.is_silenced,
            status: self.status,
            start_time: self.start_time as int,
            end_time: self.end_time as int,
            retries: self.retries as int,
            error: match self.error {
                Some(error) => Some(error@),
                None => None,
            },
        }
    }
}

/// How often an alert or a derived stream runs: by a cron expression, or every
/// so much time.
#[derive(Debug, Clone, Copy, PartialEq, Eq, Structural)]
pub enum FrequencyType {
    Cron,
    Interval,
}

/// When an alert or a derived stream runs.  The period and the silence are in
/// minutes; the frequency is in the unit of what it belongs to.
#[derive(Debug, PartialEq, Eq)]
pub struct TriggerCondition {
    pub period: i64,
    pub frequency: i64,
    pub frequency_type: FrequencyType,
    pub cron: String,
    pub silence: i64,
}

#[verifier::ext_equal]
pub struct TriggerConditionView {
    pub period: int,
    pub frequency: int,
    pub frequency_type: FrequencyType,
    pub cron: Seq<char>,
    pub silence: int,
}

impl View for TriggerCondition {
    type V = TriggerConditionView;

    open spec fn view(&self) -> TriggerConditionView {
        TriggerConditionView {
            period: self.period as int,
            frequency: self.frequency as int,
            frequency_type: self.frequency_type,
            cron: self.cron@,
            silence: self.silence as int,
        }
    }
}

/// An alert.  Its time zone lies `tz_offset` minutes east of UTC.
#[derive(Debug, PartialEq, Eq)]
pub struct Alert {
    pub enabled: bool,
    pub trigger_condition: TriggerCondition,
    pub tz_offset: i32,
}

#[verifier::ext_equal]
pub struct AlertView {
    pub enabled: bool,
    pub trigger_condition: TriggerConditionView,
    pub tz_offset: int,
}

impl View for Alert {
    type V = AlertView;

    open spec fn view(&self) -> AlertView {
        AlertView {
            enabled: self.enabled,
            trigger_condition: self.trigger_condition@,
            tz_offset: self.tz_offset as int,
        }
    }
}

/// The unit of a report's interval.
#[derive(Debug, Clone, Copy, PartialEq, Eq, Structural)]
pub enum ReportFrequencyType {
    Hours,
    Days,
    Weeks,
    Months,
    Once,
    Cron,
}

/// How often a report is sent.
#[derive(Debug, PartialEq, Eq)]
pub struct ReportFrequency {
    pub frequency_type: ReportFrequencyType,
    pub interval: i64,
    pub cron: String,
}

#[verifier::ext_equal]
pub struct ReportFrequencyView {
    pub frequency_type: ReportFrequencyType,
    pub interval: int,
    pub cron: Seq<char>,
}

impl View for ReportFrequency {
    type V = ReportFrequencyView;

    open spec fn view(&self) -> ReportFrequencyView {
        ReportFrequencyView {
            frequency_type: self.frequency_type,
            interval: self.interval as int,
            cron: self.cron@,
        }
    }
}

/// A report.  Its time zone lies `tz_offset` minutes east of UTC.
#[derive(Debug, PartialEq, Eq)]
pub struct Report {
    pub enabled: bool,
    pub frequency: ReportFrequency,
    pub tz_offset: i32,
}

#[verifier::ext_equal]
pub struct ReportView {
    pub enabled: bool,
    pub frequency: ReportFrequencyView,
    pub tz_offset: int,
}

impl View for Report {
    type V = ReportView;

    open spec fn view(&self) -> ReportView {
        ReportView {
            enabled: self.enabled,
            frequency: self.frequency@,
            tz_offset: self.tz_offset as int,
        }
    }
}

/// What a run changes of a report.
#[derive(Debug, PartialEq, Eq)]
pub struct ReportUpdate {
    pub org: String,
    pub name: String,
    pub enabled: bool,
    pub last_triggered_at: i64,
}

#[verifier::ext_equal]
pub struct ReportUpdateView {
    pub org: Seq<char>,
    pub name: Seq<char>,
    pub enabled: bool,
    pub last_triggered_at: int,
}

impl View for ReportUpdate {
    type V = ReportUpdateView;

    open spec fn view(&self) -> ReportUpdateView {
        ReportUpdateView {
            org: self.org@,
            name: self.name@,
            enabled: self.enabled,
            last_triggered_at: self.last_triggered_at as int,
        }
    }
}

/// Where the rows of a derived stream go.  The stream type is the number that
/// stands for it in ingestion requests.
#[derive(Debug, PartialEq, Eq)]
pub struct Destination {
    pub org_id: String,
    pub stream_name: String,
    pub stream_type: i32,
}

#[verifier::ext_equal]
pub struct DestinationView {
    pub org_id: Seq<char>,
    pub stream_name: Seq<char>,
    pub stream_type: i32,
}

impl View for Destination {
    type V = DestinationView;

    open spec fn view(&self) -> DestinationView {
        DestinationView {
            org_id: self.org_id@,
            stream_name: self.stream_name@,
            stream_type: self.stream_type,
        }
    }
}

/// A derived stream of a pipeline.  Its time zone lies `tz_offset` minutes east of UTC.
#[derive(Debug, PartialEq, Eq)]
pub struct DerivedStream {
    pub name: String,
    pub trigger_condition: TriggerCondition,
    pub tz_offset: i32,
    pub destination: Destination,
}

#[verifier::ext_equal]
pub struct DerivedStreamView {
    pub name: Seq<char>,
    pub trigger_condition: TriggerConditionView,
    pub tz_offset: int,
    pub destination: DestinationView,
}

impl View for DerivedStream {
    type V = DerivedStreamView;

    open spec fn view(&self) -> DerivedStreamView {
        DerivedStreamView {
            name: self.name@,
            trigger_condition: self.trigger_condition@,
            tz_offset: self.tz_offset as int,
            destination: self.destination@,
        }
    }
}

/// An instant, or the epoch where there is none.
pub open spec fn or_epoch(instant: Option<i64>) -> int {
    match instant {
        Some(instant) => instant as int,
        None => 0,
    }
}

/// The view of a trigger holds each of its fields.
pub proof fn law_trigger_view_is_faithful(trigger: Trigger)
    ensures
        trigger@.org == trigger.org@,
        trigger@.module == trigger.module,
        trigger@.module_key == trigger.module_key@,
        trigger@.next_run_at == trigger.next_run_at,
        trigger@.is_realtime == trigger.is_realtime,
        trigger@.is_silenced == trigger.is_silenced,
        trigger@.status == trigger.status,
        trigger@.start_time == trigger.start_time,
        trigger@.end_time == trigger.end_time,
        trigger@.retries == trigger.retries,
{
}

/// The view of a status update holds each of its fields.
pub proof fn law_status_update_view_is_faithful(update: StatusUpdate)
    ensures
        update@.org == update.org@,
        update@.module == update.module,
        update@.module_key == update.module_key@,
        update@.status == update.status,
        update@.retries == update.retries,
{
}

/// The view of a usage record holds each of its fields.
pub proof fn law_trigger_data_view_is_faithful(record: TriggerData)
    ensures
        record@._timestamp == record._timestamp,
        record@.org == record.org@,
        record@.module == record.module,
        record@.key == record.key@,
        record@.next_run_at == record.next_run_at,
        record@.is_realtime == record.is_realtime,
        record@.is_silenced == record.is_silenced,
        record@.status == record.status,
        record@.start_time == record.start_time,
        record@.end_time == record.end_time,
        record@.retries == record.retries,
        record@.error is Some <==> record.error is Some,
        record.error matches Some(text) ==> record@.error == Some(text@),
{
}

/// The view of a trigger condition holds each of its fields.
pub proof fn law_trigger_condition_view_is_faithful(condition: TriggerCondition)
    ensures
        condition@.period == condition.period,
        condition@.frequency == condition.frequency,
        condition@.frequency_type == condition.frequency_type,
        condition@.cron == condition.cron@,
        condition@.silence == condition.silence,
{
}

/// The view of an alert holds each of its fields.
pub proof fn law_alert_view_is_faithful(alert: Alert)
    ensures
        alert@.enabled == alert.enabled,
        alert@.trigger_condition == alert.trigger_condition@,
        alert@.tz_offset == alert.tz_offset,
{
}

/// The view of a report frequency holds each of its fields.
pub proof fn law_report_frequency_view_is_faithful(frequency: ReportFrequency)
    ensures
        frequency@.frequency_type == frequency.frequency_type,
        frequency@.interval == frequency.interval,
        frequency@.cron == frequency.cron@,
{
}

/// The view of a report holds each of its fields.
pub proof fn law_report_view_is_faithful(report: Report)
    ensures
        report@.enabled == report.enabled,
        report@.frequency == report.frequency@,
        report@.tz_offset == report.tz_offset,
{
}

/// The view of a report update holds each of its fields.
pub proof fn law_report_update_view_is_faithful(update: ReportUpdate)
    ensures
        update@.org == update.org@,
        update@.name == update.name@,
        update@.enabled == update.enabled,
        update@.last_triggered_at == update.last_triggered_at,
{
}

/// The view of a destination holds each of its fields.
pub proof fn law_destination_view_is_faithful(destination: Destination)
    ensures
        destination@.org_id == destination.org_id@,
        destination@.stream_name == destination.stream_name@,
        destination@.stream_type == destination.stream_type,
{
}

/// The view of a derived stream holds each of its fields.
pub proof fn law_derived_stream_view_is_faithful(stream: DerivedStream)
    ensures
        stream@.name == stream.name@,
        stream@.trigger_condition == stream.trigger_condition@,
        stream@.tz_offset == stream.tz_offset,
        stream@.destination == stream.destination@,
{
}

/// A trigger is pulled if and only if it is due, waits, and is not a realtime
/// trigger that is awake.
pub proof fn law_pull_needs_a_due_waiting_trigger(trigger: TriggerView, now: int)
    ensures
        trigger.pulled_at(now) <==> trigger.next_run_at <= now && trigger.status
            == TriggerStatus::Waiting && (trigger.is_realtime ==> trigger.is_silenced),
{
}

/// A trigger that is woken is realtime, awake, waiting and due at once.  One that
/// is made ready for its next run is not realtime, awake, waiting and has no
/// retries on its count.  Either is as it was in everything else.
pub proof fn law_trigger_is_made_ready(trigger: TriggerView, now: int)
    ensures
        trigger.woken_at(now) == (TriggerView {
            org: trigger.org,
            module: trigger.module,
            module_key: trigger.module_key,
            next_run_at: now,
            is_realtime: true,
            is_silenced: false,
            status: TriggerStatus::Waiting,
            start_time: trigger.start_time,
            end_time: trigger.end_time,
            retries: trigger.retries,
        }),
        trigger.renewed_at(now) == (TriggerView {
            org: trigger.org,
            module: trigger.module,
            module_key: trigger.module_key,
            next_run_at: now,
            is_realtime: false,
            is_silenced: false,
            status: TriggerStatus::Waiting,
            start_time: trigger.start_time,
            end_time: trigger.end_time,
            retries: 0,
        }),
{
}

} // verus!
