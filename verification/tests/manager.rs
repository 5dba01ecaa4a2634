use mirror_manager::backend::manager::error::ManagerError;
use mirror_manager::backend::manager::event::{ControlEvent, WorkerEvent};
use mirror_manager::manager::manager::Manager;
use mirror_manager::manager::status::{
    AnyJob, Effect, Idle, Job, Paused, Pending, Publishing, Running, Success, Syncing, Verifying,
};
use mirror_manager::timestamp::Timestamp;

/// Reports as they are written with chrono times.
#[derive(Debug)]
enum ChronoReport {
    PublishFailed { mirror_id: String, finished_at: chrono::DateTime<chrono::Utc>, error: String },
}

fn t(secs: i64) -> Timestamp {
    Timestamp { secs, nanos: 0 }
}

fn job<S>(id: &str, s: S) -> Job<S> {
    Job { mirror_id: id.to_string(), running_status: s }
}


fn effect_names(effects: &[Effect]) -> Vec<String> {
    effects
        .iter()
        .map(|e| match e {
            Effect::QueueEnqueue { mirror_id } => format!("enqueue:{mirror_id}"),
            Effect::QueueRemove { mirror_id } => format!("remove:{mirror_id}"),
            Effect::Persist { mirror_id } => format!("persist:{mirror_id}"),
            Effect::Sync { mirror_id } => format!("sync:{mirror_id}"),
            Effect::Verify { mirror_id } => format!("verify:{mirror_id}"),
            Effect::Publish { mirror_id } => format!("publish:{mirror_id}"),
        })
        .collect()
}

#[test]
fn worker_reports_move_a_job_through_a_successful_run() {
    let mut m = Manager::init(vec![AnyJob::from(job("m", Running { business_status: Syncing }))]);
    let r = m.handle_worker_event(WorkerEvent::SyncSucceeded { mirror_id: "m".to_string(), finished_at: t(1) });
    assert_eq!(effect_names(&r.unwrap()), vec!["verify:m", "persist:m"]);
    let r = m.handle_worker_event(WorkerEvent::VerifySucceeded { mirror_id: "m".to_string(), finished_at: t(2) });
    assert_eq!(effect_names(&r.unwrap()), vec!["publish:m", "persist:m"]);
    let r = m.handle_worker_event(WorkerEvent::PublishSucceeded { mirror_id: "m".to_string(), finished_at: t(3) });
    assert_eq!(effect_names(&r.unwrap()), vec!["persist:m"]);
    // Now in Success: another success report does not fit.
    let r = m.handle_worker_event(WorkerEvent::PublishFailed { mirror_id: "m\n".to_string(), finished_at: Timestamp { secs: 86_400, nanos: 5_000_000 }, error: "disk \"full\"".to_string() });
    assert!(matches!(r, Err(ManagerError::JobNotFound { .. })));
    let r = m.handle_worker_event(WorkerEvent::PublishFailed { mirror_id: "m".to_string(), finished_at: Timestamp { secs: 86_400, nanos: 5_000_000 }, error: "disk \"full\"".to_string() });
    match r {
        Err(ManagerError::InvalidTransition { from, to }) => {
            assert_eq!(from, "Success");
            let expected = ChronoReport::PublishFailed {
                mirror_id: "m".to_string(),
                finished_at: chrono::DateTime::from_timestamp(86_400, 5_000_000).unwrap(),
                error: "disk \"full\"".to_string(),
            };
            assert_eq!(to, format!("worker_event::{expected:?}"));
        }
        other => panic!("unexpected {other:?}"),
    }
}

#[test]
fn failure_reports_fail_each_stage() {
    let mut m = Manager::init(vec![
        AnyJob::from(job("s", Running { business_status: Syncing })),
        AnyJob::from(job("v", Running { business_status: Verifying })),
        AnyJob::from(job("p", Running { business_status: Publishing })),
    ]);
    let r = m.handle_worker_event(WorkerEvent::SyncFailed { mirror_id: "s".to_string(), finished_at: t(1), error: "x".to_string() });
    assert_eq!(effect_names(&r.unwrap()), vec!["persist:s"]);
    let r = m.handle_worker_event(WorkerEvent::VerifyFailed { mirror_id: "v".to_string(), finished_at: t(1) });
    assert_eq!(effect_names(&r.unwrap()), vec!["persist:v"]);
    let r = m.handle_worker_event(WorkerEvent::PublishFailed { mirror_id: "p".to_string(), finished_at: t(1), error: "y".to_string() });
    assert_eq!(effect_names(&r.unwrap()), vec!["persist:p"]);
    // All three are now failed: a failure report no longer fits.
    match m.handle_worker_event(WorkerEvent::SyncFailed { mirror_id: "s".to_string(), finished_at: t(2), error: "z".to_string() }) {
        Err(ManagerError::InvalidTransition { from, .. }) => assert_eq!(from, "Failed"),
        other => panic!("unexpected {other:?}"),
    }
}

#[test]
fn unknown_mirror_is_not_found() {
    let mut m = Manager::init(Vec::new());
    match m.handle_worker_event(WorkerEvent::SyncStarted { mirror_id: "ghost".to_string(), started_at: t(0) }) {
        Err(ManagerError::JobNotFound { job_mirror_id }) => assert_eq!(job_mirror_id, "ghost"),
        other => panic!("unexpected {other:?}"),
    }
    match m.handle_control_event(ControlEvent::Pause { mirror_id: "ghost".to_string() }) {
        Err(ManagerError::JobNotFound { job_mirror_id }) => assert_eq!(job_mirror_id, "ghost"),
        other => panic!("unexpected {other:?}"),
    }
}

#[test]
fn mismatched_report_keeps_the_job() {
    let mut m = Manager::init(vec![AnyJob::from(job("m", Running { business_status: Syncing }))]);
    match m.handle_worker_event(WorkerEvent::VerifySucceeded { mirror_id: "m".to_string(), finished_at: t(1) }) {
        Err(ManagerError::InvalidTransition { from, to }) => {
            assert_eq!(from, "Syncing");
            assert_eq!(to, "worker_event::VerifySucceeded { mirror_id: \"m\", finished_at: 1970-01-01T00:00:01Z }");
        }
        other => panic!("unexpected {other:?}"),
    }
    // The job is still there, still synchronising.
    let r = m.handle_worker_event(WorkerEvent::SyncSucceeded { mirror_id: "m".to_string(), finished_at: t(2) });
    assert!(r.is_ok());
}

#[test]
fn started_reports_do_not_move_jobs() {
    let mut m = Manager::init(vec![AnyJob::from(job("m", Running { business_status: Syncing }))]);
    let r = m.handle_worker_event(WorkerEvent::SyncStarted { mirror_id: "m".to_string(), started_at: t(1) });
    assert!(matches!(r, Err(ManagerError::InvalidTransition { .. })));
    assert!(m.handle_worker_event(WorkerEvent::SyncSucceeded { mirror_id: "m".to_string(), finished_at: t(2) }).is_ok());
}

#[test]
fn pausing_jobs() {
    let mut m = Manager::init(vec![
        AnyJob::from(job("pending", Pending)),
        AnyJob::from(job("paused", Paused)),
        AnyJob::from(job("idle", Idle)),
    ]);
    m.schedule("pending".to_string(), t(10));
    m.schedule("other".to_string(), t(20));
    let r = m.handle_control_event(ControlEvent::Pause { mirror_id: "pending".to_string() });
    assert_eq!(effect_names(&r.unwrap()), vec!["persist:pending"]);
    // The paused job has left the queue; the other stays.
    assert!(!m.queue().contains("pending"));
    assert!(m.queue().contains("other"));
    assert_eq!(m.queue().len(), 1);
    // Pausing it again changes nothing.
    let r = m.handle_control_event(ControlEvent::Pause { mirror_id: "pending".to_string() });
    assert!(r.unwrap().is_empty());
    let r = m.handle_control_event(ControlEvent::Pause { mirror_id: "paused".to_string() });
    assert!(r.unwrap().is_empty());
    for _ in 0..2 {
        // The idle job is refused, and kept as it was.
        match m.handle_control_event(ControlEvent::Pause { mirror_id: "idle".to_string() }) {
            Err(ManagerError::InvalidTransition { from, to }) => {
                assert_eq!(from, "Idle");
                assert_eq!(to, "Paused");
            }
            other => panic!("unexpected {other:?}"),
        }
    }
    assert_eq!(m.queue().len(), 1);
}

#[test]
fn apply_plan_carries_out_queue_effects() {
    let mut m = Manager::init(vec![AnyJob::from(job("m", Running { business_status: Success }))]);
    // Back to idle: the job is queued again, at the given time.
    let plan = job("m", Running { business_status: Success }).idle();
    let io = m.apply_plan(plan, t(42));
    assert!(io.is_empty());
    assert!(m.queue().contains("m"));
    assert_eq!(m.queue().peek_time(), Some(t(42)));
    // Resuming a paused job queues it and leaves persisting to the caller.
    let io = m.apply_plan(job("n", Paused).resume(), t(7));
    assert_eq!(effect_names(&io), vec!["persist:n"]);
    assert_eq!(m.queue().peek_time(), Some(t(7)));
    // Pausing a pending job takes it out of the queue.
    let io = m.apply_plan(mirror_manager::manager::status::Suspendable::pause(job("n", Pending)), t(0));
    assert_eq!(effect_names(&io), vec!["persist:n"]);
    assert!(!m.queue().contains("n"));
    assert_eq!(m.queue().len(), 1);
    // Stage plans pass their effects through untouched.
    let io = m.apply_plan(job("m", Pending).sync(), t(0));
    assert_eq!(effect_names(&io), vec!["sync:m", "persist:m"]);
    assert_eq!(m.queue().len(), 1);
}

#[test]
fn later_job_of_a_mirror_replaces_earlier_one() {
    let mut m = Manager::init(vec![
        AnyJob::from(job("m", Idle)),
        AnyJob::from(job("m", Pending)),
    ]);
    let r = m.handle_control_event(ControlEvent::Pause { mirror_id: "m".to_string() });
    assert_eq!(effect_names(&r.unwrap()), vec!["persist:m"]);
}

#[test]
fn tick_takes_due_jobs_in_order() {
    let mut m = Manager::init(Vec::new());
    m.schedule("late".to_string(), t(100));
    m.schedule("b".to_string(), t(10));
    m.schedule("a".to_string(), t(10));
    m.schedule("first".to_string(), t(5));
    m.schedule("edge".to_string(), t(50));
    let due = m.tick_at(t(50));
    assert_eq!(due, vec!["first", "a", "b", "edge"]);
    assert_eq!(m.queue().len(), 1);
    assert_eq!(m.queue().peek_time(), Some(t(100)));
    assert!(m.tick_at(t(99)).is_empty());
    m.unschedule("late");
    assert!(m.queue().is_empty());
}

#[test]
fn tick_by_the_clock_takes_past_jobs() {
    let mut m = Manager::init(Vec::new());
    m.schedule("old".to_string(), t(0));
    m.schedule("far".to_string(), t(i64::MAX));
    let due = m.tick();
    assert_eq!(due, vec!["old"]);
    assert!(m.queue().contains("far"));
}
