//! What is written of a trigger whose run failed.

use vstd::prelude::*;
use vstd::string::StringExecFns;

use crate::event::{Action, ActionView};
use crate::outcome::Fault;
use crate::types::{StatusUpdate, StatusUpdateView, Trigger, TriggerStatus, TriggerView};

verus! {

/// What is written after a run that failed.
///
/// `retries` counts the runs that failed before.  Where this one was the last
/// that `max_retries` allows, and the trigger may move on, it is written as
/// `renewed` and waits for its next run.  Otherwise it is left as it is, to be
/// pulled again, with one more retry on its count.
pub open spec fn write_after_failure(
    renewed: TriggerView,
    retries: int,
    max_retries: int,
    may_move_on: bool,
) -> ActionView {
    if retries + 1 > i32::MAX {
        ActionView::Abort(Fault::TooManyRetries)
    } else if retries + 1 >= max_retries && may_move_on {
        ActionView::SaveTrigger(renewed)
    } else {
        ActionView::SaveStatus(
            StatusUpdateView {
                org: renewed.org,
                module: renewed.module,
                module_key: renewed.module_key,
                status: TriggerStatus::Waiting,
                retries: retries + 1,
            },
        )
    }
}

/// What is written after a run that failed.
pub fn after_failure(
    renewed: Trigger,
    retries: i32,
    max_retries: i32,
    may_move_on: bool,
) -> (action: Action)
    ensures
        action@ == write_after_failure(
            renewed@,
            retries as int,
            max_retries as int,
            may_move_on,
        ),
{
    match retries.checked_add(1) {
        None => Action::Abort(Fault::TooManyRetries),
        Some(retries) => if retries >= max_retries && may_move_on {
            Action::SaveTrigger(renewed)
        } else {
            Action::SaveStatus(
                StatusUpdate {
                    org: renewed.org,
                    module: renewed.module,
                    module_key: renewed.module_key,
                    status: TriggerStatus::Waiting,
                    retries,
                },
            )
        },
    }
}

/// The text of an error, with what failed before what went wrong.
pub fn failure_text(lead: &str, message: &str) -> (text: String)
    ensures
        text@ == lead@ + message@,
{
    lead.to_owned().concat(message)
}

/// What is written after the last of `failures` failed runs in a row, each of
/// which but the last left the trigger to be tried again.
pub open spec fn write_after_failures(
    renewed: TriggerView,
    retries: int,
    max_retries: int,
    may_move_on: bool,
    failures: nat,
) -> ActionView
    decreases failures,
{
    if failures <= 1 {
        write_after_failure(renewed, retries, max_retries, may_move_on)
    } else {
        let before = write_after_failures(
            renewed,
            retries,
            max_retries,
            may_move_on,
            (failures - 1) as nat,
        );
        match before {
            ActionView::SaveStatus(update) => write_after_failure(
                renewed,
                update.retries,
                max_retries,
                may_move_on,
            ),
            _ => before,
        }
    }
}

/// A trigger that fails run after run moves on with the first failure that
/// brings its count to the maximum, and is tried again after every one before.
pub proof fn law_failures_move_on(
    renewed: TriggerView,
    retries: int,
    max_retries: int,
    failures: nat,
)
    requires
        retries < i32::MAX,
        max_retries <= i32::MAX,
        failures >= 1,
    ensures
        write_after_failures(renewed, retries, max_retries, true, failures) == if retries + failures
            >= max_retries {
            ActionView::SaveTrigger(renewed)
        } else {
            ActionView::SaveStatus(
                StatusUpdateView {
                    org: renewed.org,
                    module: renewed.module,
                    module_key: renewed.module_key,
                    status: TriggerStatus::Waiting,
                    retries: retries + failures,
                },
            )
        },
    decreases failures,
{
    if failures > 1 {
        law_failures_move_on(renewed, retries, max_retries, (failures - 1) as nat);
    }
}

/// A trigger that may not move on is tried again after every failure, whatever
/// the maximum is.
pub proof fn law_failures_are_tried_again(
    renewed: TriggerView,
    retries: int,
    max_retries: int,
    failures: nat,
)
    requires
        retries + failures <= i32::MAX,
        failures >= 1,
    ensures
        write_after_failures(renewed, retries, max_retries, false, failures)
            == ActionView::SaveStatus(
            StatusUpdateView {
                org: renewed.org,
                module: renewed.module,
                module_key: renewed.module_key,
                status: TriggerStatus::Waiting,
                retries: retries + failures,
            },
        ),
    decreases failures,
{
    if failures > 1 {
        law_failures_are_tried_again(renewed, retries, max_retries, (failures - 1) as nat);
    }
}

/// A single failure moves the trigger on if and only if its count reaches the
/// maximum and it may move on; otherwise one retry is added to its count.
pub proof fn law_failure_counts_once(
    renewed: TriggerView,
    retries: int,
    max_retries: int,
    may_move_on: bool,
)
    ensures
        ({
            let action = write_after_failure(renewed, retries, max_retries, may_move_on);
            &&& action == ActionView::Abort(Fault::TooManyRetries) <==> retries >= i32::MAX
            &&& retries < i32::MAX ==> (action == ActionView::SaveTrigger(renewed) <==> retries + 1
                >= max_retries && may_move_on)
            &&& retries < i32::MAX && !(action is SaveTrigger) ==> action == ActionView::SaveStatus(
                StatusUpdateView {
                    org: renewed.org,
                    module: renewed.module,
                    module_key: renewed.module_key,
                    status: TriggerStatus::Waiting,
                    retries: retries + 1,
                },
            )
        }),
{
}

} // verus!
