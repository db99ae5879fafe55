use trigger_scheduler::event::Action;
use trigger_scheduler::outcome::{Fault, HandlerError};
use trigger_scheduler::retry::{after_failure, failure_text};
use trigger_scheduler::types::{StatusUpdate, Trigger, TriggerModule, TriggerStatus};

fn renewed() -> Trigger {
    Trigger {
        org: "acme".to_string(),
        module: TriggerModule::Alert,
        module_key: "logs/app/errors".to_string(),
        next_run_at: 77,
        is_realtime: false,
        is_silenced: true,
        status: TriggerStatus::Waiting,
        start_time: Some(3),
        end_time: None,
        retries: 0,
    }
}

fn tried_again(retries: i32) -> Action {
    Action::SaveStatus(StatusUpdate {
        org: "acme".to_string(),
        module: TriggerModule::Alert,
        module_key: "logs/app/errors".to_string(),
        status: TriggerStatus::Waiting,
        retries,
    })
}

#[test]
fn failure_is_tried_again_below_the_maximum() {
    assert_eq!(after_failure(renewed(), 0, 3, true), tried_again(1));
    assert_eq!(after_failure(renewed(), 1, 3, true), tried_again(2));
}

#[test]
fn failure_at_the_maximum_moves_on() {
    assert_eq!(after_failure(renewed(), 2, 3, true), Action::SaveTrigger(renewed()));
    assert_eq!(after_failure(renewed(), 9, 3, true), Action::SaveTrigger(renewed()));
    assert_eq!(after_failure(renewed(), 0, 0, true), Action::SaveTrigger(renewed()));
}

#[test]
fn failure_that_may_not_move_on_is_always_tried_again() {
    assert_eq!(after_failure(renewed(), 2, 3, false), tried_again(3));
    assert_eq!(after_failure(renewed(), 41, 3, false), tried_again(42));
}

#[test]
fn failures_in_a_row_reach_the_maximum() {
    let mut retries = 0;
    let mut failures = 0;
    loop {
        failures += 1;
        match after_failure(renewed(), retries, 5, true) {
            Action::SaveStatus(update) => retries = update.retries,
            Action::SaveTrigger(trigger) => {
                assert_eq!(trigger, renewed());
                break;
            }
            other => panic!("{:?}", other),
        }
    }
    assert_eq!(failures, 5);
}

#[test]
fn retries_may_run_out_of_range() {
    let action = after_failure(renewed(), i32::MAX, 3, true);
    assert_eq!(action, Action::Abort(Fault::TooManyRetries));
}

#[test]
fn failure_text_leads_with_what_failed() {
    assert_eq!(failure_text("error processing report: ", "no chrome"), "error processing report: no chrome");
}

#[test]
fn errors_say_what_is_missing() {
    let text = |text: &str| text.to_string();
    let error = HandlerError::AlertNotFound {
        org: text("acme"),
        stream_name: text("app"),
        stream_type: text("logs"),
        alert_name: text("errors"),
    };
    assert_eq!(error.message(), "alert not found: acme/app/logs/errors");
    let error = HandlerError::PipelineNotFound {
        org: text("acme"),
        stream_name: text("app"),
        stream_type: text("logs"),
        pipeline_name: text("nightly"),
    };
    assert_eq!(error.message(), "Pipeline associated with trigger not found: acme/app/logs/nightly");
    let error = HandlerError::DerivedStreamNotFound {
        org: text("acme"),
        stream_name: text("app"),
        stream_type: text("logs"),
        name: text("load"),
    };
    assert_eq!(
        error.message(),
        "DerivedStream associated with the trigger not found in pipeline: acme/app/logs/load"
    );
    assert_eq!(HandlerError::Service(text("store is down")).message(), "store is down");
    assert_eq!(HandlerError::InvalidCron(text("bad")).message(), "bad");
}
