//! Job states as they are stored, and snapshots of a job's state.

use vstd::prelude::*;
use super::error::RepositoryError;
use crate::manager::status::AnyJob;
use crate::text::str_equal;
use crate::timestamp::{Timestamp, utc_now};

verus! {

/// The state of a job as it is stored, apart from the typed state machine.
#[derive(Debug, Clone, Copy, PartialEq, Eq, Structural)]
pub enum PersistedJobState {
    Init,
    Syncing,
    Verifying,
    Publishing,
    Success,
    Failed,
    Paused,
}

/// The state stored under `name`, if `name` is one of the stored names.
pub open spec fn parse_state(name: Seq<char>) -> Option<PersistedJobState> {
    if name == "Init"@ {
        Some(PersistedJobState::Init)
    } else if name == "Syncing"@ {
        Some(PersistedJobState::Syncing)
    } else if name == "Verifying"@ {
        Some(PersistedJobState::Verifying)
    } else if name == "Publishing"@ {
        Some(PersistedJobState::Publishing)
    } else if name == "Success"@ {
        Some(PersistedJobState::Success)
    } else if name == "Failed"@ {
        Some(PersistedJobState::Failed)
    } else if name == "Paused"@ {
        Some(PersistedJobState::Paused)
    } else {
        None
    }
}

impl PersistedJobState {
    /// The name under which the state is stored.
    pub open spec fn name(self) -> Seq<char> {
        match self {
            Self::Init => "Init"@,
            Self::Syncing => "Syncing"@,
            Self::Verifying => "Verifying"@,
            Self::Publishing => "Publishing"@,
            Self::Success => "Success"@,
            Self::Failed => "Failed"@,
            Self::Paused => "Paused"@,
        }
    }

    /// Returns the stable name under which the state is stored.
    pub fn as_str(self) -> (s: &'static str)
        ensures
            s@ == self.name(),
    {
        match self {
            Self::Init => "Init",
            Self::Syncing => "Syncing",
            Self::Verifying => "Verifying",
            Self::Publishing => "Publishing",
            Self::Success => "Success",
            Self::Failed => "Failed",
            Self::Paused => "Paused",
        }
    }

    /// Reads a state back from its stored name; any other text gives
    /// `UnknownJobState` with that text.
    pub fn from_str(state: &str) -> (r: Result<Self, RepositoryError>)
        ensures
            match parse_state(state@) {
                Some(s) => r == Ok::<Self, RepositoryError>(s),
                None => r matches Err(RepositoryError::UnknownJobState { state: text })
                    && text@ == state@,
            },
    {
        if str_equal(state, "Init") {
            Ok(Self::Init)
        } else if str_equal(state, "Syncing") {
            Ok(Self::Syncing)
        } else if str_equal(state, "Verifying") {
            Ok(Self::Verifying)
        } else if str_equal(state, "Publishing") {
            Ok(Self::Publishing)
        } else if str_equal(state, "Success") {
            Ok(Self::Success)
        } else if str_equal(state, "Failed") {
            Ok(Self::Failed)
        } else if str_equal(state, "Paused") {
            Ok(Self::Paused)
        } else {
            Err(RepositoryError::UnknownJobState { state: state.to_string() })
        }
    }
}

/// Reading back the stored name of a state gives that state.
pub proof fn lemma_state_name_round_trip(s: PersistedJobState)
    ensures
        parse_state(s.name()) == Some(s),
{
    reveal_strlit("Init");
    reveal_strlit("Syncing");
    reveal_strlit("Verifying");
    reveal_strlit("Publishing");
    reveal_strlit("Success");
    reveal_strlit("Failed");
    reveal_strlit("Paused");
    assert("Init"@.len() == 4 && "Syncing"@.len() == 7 && "Verifying"@.len() == 9);
    assert("Publishing"@.len() == 10 && "Success"@.len() == 7 && "Failed"@.len() == 6);
    assert("Paused"@.len() == 6);
    assert("Syncing"@[1] != "Success"@[1]);
    assert("Failed"@[0] != "Paused"@[0]);
}

/// Each state is stored under its own name, and each of these names reads
/// back as its state.
pub proof fn lemma_state_name_table()
    ensures
        PersistedJobState::Init.name() == "Init"@,
        PersistedJobState::Syncing.name() == "Syncing"@,
        PersistedJobState::Verifying.name() == "Verifying"@,
        PersistedJobState::Publishing.name() == "Publishing"@,
        PersistedJobState::Success.name() == "Success"@,
        PersistedJobState::Failed.name() == "Failed"@,
        PersistedJobState::Paused.name() == "Paused"@,
        parse_state("Init"@) == Some(PersistedJobState::Init),
        parse_state("Syncing"@) == Some(PersistedJobState::Syncing),
        parse_state("Verifying"@) == Some(PersistedJobState::Verifying),
        parse_state("Publishing"@) == Some(PersistedJobState::Publishing),
        parse_state("Success"@) == Some(PersistedJobState::Success),
        parse_state("Failed"@) == Some(PersistedJobState::Failed),
        parse_state("Paused"@) == Some(PersistedJobState::Paused),
{
    lemma_state_name_round_trip(PersistedJobState::Init);
    lemma_state_name_round_trip(PersistedJobState::Syncing);
    lemma_state_name_round_trip(PersistedJobState::Verifying);
    lemma_state_name_round_trip(PersistedJobState::Publishing);
    lemma_state_name_round_trip(PersistedJobState::Success);
    lemma_state_name_round_trip(PersistedJobState::Failed);
    lemma_state_name_round_trip(PersistedJobState::Paused);
}

/// Only the seven stored names read back as a state.
pub proof fn lemma_unknown_names(name: Seq<char>)
    requires
        name != "Init"@,
        name != "Syncing"@,
        name != "Verifying"@,
        name != "Publishing"@,
        name != "Success"@,
        name != "Failed"@,
        name != "Paused"@,
    ensures
        parse_state(name) is None,
{
}

/// The state a job in memory is stored as: idle and pending jobs as `Init`,
/// and every other job under the state of the same name.
pub proof fn lemma_persisted_state_names(job: AnyJob)
    ensures
        (job is Idle || job is Pending) ==> persisted_state_of(job).name() == "Init"@,
        !(job is Idle || job is Pending) ==> persisted_state_of(job).name() == job.state_name_view(),
{
}

/// Different states are stored under different names.
pub proof fn lemma_state_names_distinct(a: PersistedJobState, b: PersistedJobState)
    requires
        a != b,
    ensures
        a.name() != b.name(),
{
    lemma_state_name_round_trip(a);
    lemma_state_name_round_trip(b);
}

/// The stored state of a job in memory: jobs not yet running (idle or
/// pending) are stored as `Init`.
pub open spec fn persisted_state_of(job: AnyJob) -> PersistedJobState {
    match job {
        AnyJob::Idle(_) | AnyJob::Pending(_) => PersistedJobState::Init,
        AnyJob::Syncing(_) => PersistedJobState::Syncing,
        AnyJob::Verifying(_) => PersistedJobState::Verifying,
        AnyJob::Publishing(_) => PersistedJobState::Publishing,
        AnyJob::Success(_) => PersistedJobState::Success,
        AnyJob::Failed(_) => PersistedJobState::Failed,
        AnyJob::Paused(_) => PersistedJobState::Paused,
    }
}

/// A snapshot of a job's state, as exchanged with the store.
#[derive(Debug, Clone)]
pub struct JobStateRecord {
    pub mirror_id: String,
    pub state: PersistedJobState,
    pub updated_at: Timestamp,
    pub last_error: Option<String>,
    pub last_finished_at: Option<Timestamp>,
}

impl JobStateRecord {
    /// A snapshot of `job` taken at `now`, with no error and no finish time.
    pub fn from_job_at(job: &AnyJob, now: Timestamp) -> (r: Self)
        ensures
            r.mirror_id == job.id(),
            r.state == persisted_state_of(*job),
            r.updated_at == now,
            r.last_error is None,
            r.last_finished_at is None,
    {
        let state = match job {
            AnyJob::Idle(_) | AnyJob::Pending(_) => PersistedJobState::Init,
            AnyJob::Syncing(_) => PersistedJobState::Syncing,
            AnyJob::Verifying(_) => PersistedJobState::Verifying,
            AnyJob::Publishing(_) => PersistedJobState::Publishing,
            AnyJob::Success(_) => PersistedJobState::Success,
            AnyJob::Failed(_) => PersistedJobState::Failed,
            AnyJob::Paused(_) => PersistedJobState::Paused,
        };
        JobStateRecord {
            mirror_id: job.mirror_id().clone(),
            state,
            updated_at: now,
            last_error: None,
            last_finished_at: None,
        }
    }

    /// A snapshot of `job` taken now, by the system clock; whatever the
    /// clock reads, it is the snapshot [`JobStateRecord::from_job_at`] takes
    /// at that time.
    pub fn from_job(job: &AnyJob) -> (r: Self)
        ensures
            r.mirror_id == job.id(),
            r.state == persisted_state_of(*job),
            r.last_error is None,
            r.last_finished_at is None,
    {
        Self::from_job_at(job, utc_now())
    }
}

} // verus!
