//! Messages exchanged between the manager, its controllers and its workers.

use vstd::prelude::*;
use crate::text::{str_debug, str_debug_text};
use crate::timestamp::{Timestamp, append_utc_text, utc_text};

verus! {

/// A message that controls the manager's life cycle.
#[derive(Debug, Clone)]
pub enum LifeCycleEvent {
    Shutdown,
}

/// A request from a controlling front end.
#[derive(Debug, Clone)]
pub enum ControlEvent {
    SyncNow { mirror_id: String },
    Pause { mirror_id: String },
    Resume { mirror_id: String },
}

/// An order sent to a worker.
#[derive(Debug, Clone)]
pub enum WorkerCommand {
    Run { mirror_id: String },
}

/// A report sent by a worker.
#[derive(Debug, Clone)]
pub enum WorkerEvent {
    SyncStarted { mirror_id: String, started_at: Timestamp },
    SyncSucceeded { mirror_id: String, finished_at: Timestamp },
    SyncFailed { mirror_id: String, finished_at: Timestamp, error: String },
    VerifyStarted { mirror_id: String, started_at: Timestamp },
    VerifySucceeded { mirror_id: String, finished_at: Timestamp },
    VerifyFailed { mirror_id: String, finished_at: Timestamp },
    PublishStarted { mirror_id: String, started_at: Timestamp },
    PublishSucceeded { mirror_id: String, finished_at: Timestamp },
    PublishFailed { mirror_id: String, finished_at: Timestamp, error: String },
}

/// The `Debug` text of a report of two fields: a mirror and a time.
pub open spec fn report_text(variant: Seq<char>, id: Seq<char>, time_field: Seq<char>, t: Timestamp) -> Seq<char> {
    variant + " { mirror_id: "@ + str_debug_text(id) + ", "@ + time_field + ": "@ + utc_text(t) + " }"@
}

/// The `Debug` text of a failure report: a mirror, a time and an error.
pub open spec fn failure_text(variant: Seq<char>, id: Seq<char>, t: Timestamp, error: Seq<char>) -> Seq<char> {
    variant + " { mirror_id: "@ + str_debug_text(id) + ", finished_at: "@ + utc_text(t)
        + ", error: "@ + str_debug_text(error) + " }"@
}

/// The `Debug` text of a report, as a derived `Debug` writes it for a report
/// whose times are chrono UTC times.
pub open spec fn worker_event_text(e: WorkerEvent) -> Seq<char> {
    match e {
        WorkerEvent::SyncStarted { mirror_id, started_at } => report_text("SyncStarted"@, mirror_id@, "started_at"@, started_at),
        WorkerEvent::SyncSucceeded { mirror_id, finished_at } => report_text("SyncSucceeded"@, mirror_id@, "finished_at"@, finished_at),
        WorkerEvent::SyncFailed { mirror_id, finished_at, error } => failure_text("SyncFailed"@, mirror_id@, finished_at, error@),
        WorkerEvent::VerifyStarted { mirror_id, started_at } => report_text("VerifyStarted"@, mirror_id@, "started_at"@, started_at),
        WorkerEvent::VerifySucceeded { mirror_id, finished_at } => report_text("VerifySucceeded"@, mirror_id@, "finished_at"@, finished_at),
        WorkerEvent::VerifyFailed { mirror_id, finished_at } => report_text("VerifyFailed"@, mirror_id@, "finished_at"@, finished_at),
        WorkerEvent::PublishStarted { mirror_id, started_at } => report_text("PublishStarted"@, mirror_id@, "started_at"@, started_at),
        WorkerEvent::PublishSucceeded { mirror_id, finished_at } => report_text("PublishSucceeded"@, mirror_id@, "finished_at"@, finished_at),
        WorkerEvent::PublishFailed { mirror_id, finished_at, error } => failure_text("PublishFailed"@, mirror_id@, finished_at, error@),
    }
}

fn write_report(variant: &str, id: &String, time_field: &str, t: Timestamp) -> (s: String)
    ensures
        s@ == report_text(variant@, id@, time_field@, t),
{
    let mut s = variant.to_string();
    s.append(" { mirror_id: ");
    let d = str_debug(id.as_str());
    s.append(d.as_str());
    s.append(", ");
    s.append(time_field);
    s.append(": ");
    append_utc_text(&mut s, t);
    s.append(" }");
    s
}

fn write_failure(variant: &str, id: &String, t: Timestamp, error: &String) -> (s: String)
    ensures
        s@ == failure_text(variant@, id@, t, error@),
{
    let mut s = variant.to_string();
    s.append(" { mirror_id: ");
    let d = str_debug(id.as_str());
    s.append(d.as_str());
    s.append(", finished_at: ");
    append_utc_text(&mut s, t);
    s.append(", error: ");
    let e = str_debug(error.as_str());
    s.append(e.as_str());
    s.append(" }");
    s
}

impl WorkerEvent {
    /// The mirror the report is about.
    pub open spec fn id(&self) -> String {
        match self {
            WorkerEvent::SyncStarted { mirror_id, .. } => *mirror_id,
            WorkerEvent::SyncSucceeded { mirror_id, .. } => *mirror_id,
            WorkerEvent::SyncFailed { mirror_id, .. } => *mirror_id,
            WorkerEvent::VerifyStarted { mirror_id, .. } => *mirror_id,
            WorkerEvent::VerifySucceeded { mirror_id, .. } => *mirror_id,
            WorkerEvent::VerifyFailed { mirror_id, .. } => *mirror_id,
            WorkerEvent::PublishStarted { mirror_id, .. } => *mirror_id,
            WorkerEvent::PublishSucceeded { mirror_id, .. } => *mirror_id,
            WorkerEvent::PublishFailed { mirror_id, .. } => *mirror_id,
        }
    }

    /// Returns the report's `Debug` text, with its times written as chrono
    /// writes UTC times.
    pub fn describe(&self) -> (s: String)
        ensures
            s@ == worker_event_text(*self),
    {
        match self {
            WorkerEvent::SyncStarted { mirror_id, started_at } => write_report("SyncStarted", mirror_id, "started_at", *started_at),
            WorkerEvent::SyncSucceeded { mirror_id, finished_at } => write_report("SyncSucceeded", mirror_id, "finished_at", *finished_at),
            WorkerEvent::SyncFailed { mirror_id, finished_at, error } => write_failure("SyncFailed", mirror_id, *finished_at, error),
            WorkerEvent::VerifyStarted { mirror_id, started_at } => write_report("VerifyStarted", mirror_id, "started_at", *started_at),
            WorkerEvent::VerifySucceeded { mirror_id, finished_at } => write_report("VerifySucceeded", mirror_id, "finished_at", *finished_at),
            WorkerEvent::VerifyFailed { mirror_id, finished_at } => write_report("VerifyFailed", mirror_id, "finished_at", *finished_at),
            WorkerEvent::PublishStarted { mirror_id, started_at } => write_report("PublishStarted", mirror_id, "started_at", *started_at),
            WorkerEvent::PublishSucceeded { mirror_id, finished_at } => write_report("PublishSucceeded", mirror_id, "finished_at", *finished_at),
            WorkerEvent::PublishFailed { mirror_id, finished_at, error } => write_failure("PublishFailed", mirror_id, *finished_at, error),
        }
    }

    /// Returns the mirror the report is about.
    pub fn mirror_id(&self) -> (id: &String)
        ensures
            *id == self.id(),
    {
        match self {
            WorkerEvent::SyncStarted { mirror_id, .. } => mirror_id,
            WorkerEvent::SyncSucceeded { mirror_id, .. } => mirror_id,
            WorkerEvent::SyncFailed { mirror_id, .. } => mirror_id,
            WorkerEvent::VerifyStarted { mirror_id, .. } => mirror_id,
            WorkerEvent::VerifySucceeded { mirror_id, .. } => mirror_id,
            WorkerEvent::VerifyFailed { mirror_id, .. } => mirror_id,
            WorkerEvent::PublishStarted { mirror_id, .. } => mirror_id,
            WorkerEvent::PublishSucceeded { mirror_id, .. } => mirror_id,
            WorkerEvent::PublishFailed { mirror_id, .. } => mirror_id,
        }
    }
}

} // verus!
