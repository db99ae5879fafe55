# trigger_scheduler

The decisions of a trigger scheduler for alerts, reports and derived streams,
verified with Verus.

A trigger is handled by a state machine. Each step takes the answer to the last
action and returns the next one, down to the single write that reschedules the
trigger and the usage record that is published of the run.

- `src/clock.rs`, `src/cron_schedule.rs`: what is trusted of `chrono` and `cron`
- `src/module_key.rs`: the columns of a module key
- `src/types.rs`, `src/outcome.rs`, `src/event.rs`: the data, the errors, the
  actions and the events
- `src/plan.rs`, `src/retry.rs`: when a trigger runs next, and what a failure does
- `src/alert.rs`, `src/report.rs`, `src/derived_stream.rs`: the state machines
- `src/scheduler.rs`: the choice between them, and a pass over the due triggers
- `src/laws.rs`: what holds of every handling, whatever the services answer
- `app/`: the loop that performs the actions on the services of a system
