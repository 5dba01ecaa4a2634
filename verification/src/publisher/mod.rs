//! The publishing stage: what a publisher is given and what it returns.

use vstd::prelude::*;
use std::path::PathBuf;
use crate::provider::SyncArtifact;
use crate::verifiers::VerifyReport;

verus! {

/// The stable name of a kind of publisher.
#[derive(Debug, Clone, PartialEq, Eq, Hash)]
pub struct PublisherKind(pub String);

/// What a publishing run reads.
#[derive(Debug, Clone)]
pub struct PublishContext {
    pub mirror_id: String,
    pub publisher_kind: PublisherKind,
    pub target_dir: PathBuf,
    pub artifact: SyncArtifact,
    pub verify_report: VerifyReport,
    pub attempt: u32,
}

/// The receipt of a successful publication.
#[derive(Debug, Clone)]
pub struct PublishReceipt {
    pub mirror_id: String,
    pub publisher_kind: PublisherKind,
    pub published_revision: Option<String>,
    pub destination: PathBuf,
}

/// Why a publication failed.
#[derive(Debug, Clone)]
pub struct PublishError {
    pub message: String,
}

/// The outcome of one publication.
pub type PublishResult = Result<PublishReceipt, PublishError>;

/// Something that can publish a verified snapshot.
pub trait Publisher: Send + Sync {
    type PublishFuture<'a>: std::future::Future<Output = PublishResult> + Send + 'a where Self: 'a;

    /// The publisher's stable name.
    fn kind(&self) -> &PublisherKind;

    /// Publishes a snapshot that passed verification.
    fn publish<'a>(&'a self, ctx: &'a PublishContext) -> Self::PublishFuture<'a>;
}

} // verus!
