//! The persisted form of job states.

pub mod error;
pub mod job_repository;

pub use error::RepositoryError;
pub use job_repository::{JobStateRecord, PersistedJobState};
