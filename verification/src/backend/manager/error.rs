//! Errors of the manager.

use vstd::prelude::*;

verus! {

/// An error that scheduling, a state transition or a channel can give the
/// manager.
#[derive(Debug)]
pub enum ManagerError {
    /// The channel of this name was closed.
    ChannelClosed { channel_name: String },
    /// No job is known for this mirror.
    JobNotFound { job_mirror_id: String },
    /// The job's state does not allow this transition.
    InvalidTransition { from: String, to: String },
}

} // verus!
