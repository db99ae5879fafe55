//! The decisions of a trigger scheduler, verified.
//!
//! A scheduler pulls due triggers from a store and handles each of them: an
//! alert is evaluated and its notification sent, a report is sent to its
//! subscribers, a derived stream is evaluated and its rows ingested.  Handling
//! a trigger alternates between outside work and decisions.  This crate holds
//! the decisions as state machines: each step takes the answer to the last
//! [`event::Action`] and returns the next one, down to the single write that
//! reschedules the trigger and the usage record that is published of the run.

pub mod clock;
pub mod cron_schedule;
pub mod module_key;
pub mod types;
pub mod outcome;
pub mod event;
pub mod plan;
pub mod retry;
pub mod alert;
pub mod report;
pub mod derived_stream;
pub mod scheduler;
pub mod laws;
pub mod alert_laws;
pub mod report_laws;
pub mod derived_stream_laws;
