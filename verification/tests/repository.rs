use mirror_manager::manager::status::{AnyJob, Idle, Job, Paused, Pending, Running, Syncing};
use mirror_manager::repository::{JobStateRecord, PersistedJobState, RepositoryError};
use mirror_manager::timestamp::Timestamp;

const ALL: [PersistedJobState; 7] = [
    PersistedJobState::Init,
    PersistedJobState::Syncing,
    PersistedJobState::Verifying,
    PersistedJobState::Publishing,
    PersistedJobState::Success,
    PersistedJobState::Failed,
    PersistedJobState::Paused,
];

#[test]
fn state_names_round_trip() {
    for s in ALL {
        assert_eq!(PersistedJobState::from_str(s.as_str()).unwrap(), s);
    }
    assert_eq!(PersistedJobState::Publishing.as_str(), "Publishing");
}

#[test]
fn state_names_are_distinct() {
    for a in ALL {
        for b in ALL {
            assert_eq!(a == b, a.as_str() == b.as_str());
        }
    }
}

#[test]
fn unknown_state_name_is_reported() {
    for text in ["", "init", "Running", "Paused "] {
        match PersistedJobState::from_str(text) {
            Err(RepositoryError::UnknownJobState { state }) => assert_eq!(state, text),
            other => panic!("unexpected {other:?}"),
        }
    }
}

#[test]
fn snapshot_of_jobs() {
    let now = Timestamp { secs: 1_700_000_000, nanos: 5 };
    let idle = AnyJob::from(Job { mirror_id: "a".to_string(), running_status: Idle });
    let r = JobStateRecord::from_job_at(&idle, now);
    assert_eq!(r.mirror_id, "a");
    assert_eq!(r.state, PersistedJobState::Init);
    assert_eq!(r.updated_at, now);
    assert!(r.last_error.is_none() && r.last_finished_at.is_none());
    let pending = AnyJob::from(Job { mirror_id: "b".to_string(), running_status: Pending });
    assert_eq!(JobStateRecord::from_job_at(&pending, now).state, PersistedJobState::Init);
    let syncing = AnyJob::from(Job { mirror_id: "c".to_string(), running_status: Running { business_status: Syncing } });
    assert_eq!(JobStateRecord::from_job_at(&syncing, now).state, PersistedJobState::Syncing);
    let paused = AnyJob::from(Job { mirror_id: "d".to_string(), running_status: Paused });
    let r = JobStateRecord::from_job(&paused);
    assert_eq!(r.state, PersistedJobState::Paused);
    assert!(r.updated_at.secs > 1_600_000_000);
}
