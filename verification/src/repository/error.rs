//! Errors of the persistence layer.

use vstd::prelude::*;

verus! {

/// `sqlx::Error`, carried as an opaque value; nothing is claimed of it.
#[verifier::external_type_specification]
#[verifier::external_body]
pub struct ExSqlxError(sqlx::Error);

/// An error of the persistence layer.
#[derive(Debug)]
pub enum RepositoryError {
    /// The database reported an error.
    Database(sqlx::Error),
    /// A stored job state has a name that is not known.
    UnknownJobState { state: String },
}

} // verus!
