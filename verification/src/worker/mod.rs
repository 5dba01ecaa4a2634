//! Workers: the stages they run, what they are given and what they report.

use vstd::prelude::*;
use std::path::PathBuf;
use crate::provider::{ProviderKind, SyncArtifact, SyncError};
use crate::publisher::{PublishError, PublishReceipt, PublisherKind};
use crate::verifiers::{VerifyError, VerifyReport, VerifierKind};

verus! {

/// The stage a worker serves.
#[derive(Debug, Clone, Copy, PartialEq, Eq, Hash, Structural)]
pub enum StageKind {
    Sync,
    Verify,
    Publish,
}

/// What a worker reads to run a stage.
#[derive(Debug, Clone)]
pub struct StageContext {
    pub mirror_id: String,
    pub stage: StageKind,
    pub workspace_dir: PathBuf,
    pub scratch_dir: PathBuf,
    pub attempt: u32,
}

/// The result of a synchronisation stage.
#[derive(Debug, Clone)]
pub struct SyncStagePayload {
    pub provider_kind: ProviderKind,
    pub artifact: SyncArtifact,
}

/// The result of a verification stage.
#[derive(Debug, Clone)]
pub struct VerifyStagePayload {
    pub verifier_kind: VerifierKind,
    pub report: VerifyReport,
}

/// The result of a publishing stage.
#[derive(Debug, Clone)]
pub struct PublishStagePayload {
    pub publisher_kind: PublisherKind,
    pub receipt: PublishReceipt,
}

/// What a stage produced when it succeeded.
#[derive(Debug, Clone)]
pub enum StageSuccessPayload {
    Sync(SyncStagePayload),
    Verify(VerifyStagePayload),
    Publish(PublishStagePayload),
}

/// Why a stage failed.
#[derive(Debug, Clone)]
pub enum StageFailurePayload {
    Sync(SyncError),
    Verify(VerifyError),
    Publish(PublishError),
}

/// What a worker reports to the manager about a stage.
#[derive(Debug, Clone)]
pub enum StageOutcome {
    Started { mirror_id: String, stage: StageKind },
    Succeeded { mirror_id: String, stage: StageKind, payload: StageSuccessPayload },
    Failed { mirror_id: String, stage: StageKind, payload: StageFailurePayload },
}

/// A failure of the worker machinery itself.
#[derive(Debug, Clone)]
pub struct StageWorkerError {
    pub message: String,
}

/// A worker that runs one stage for the manager.
pub trait StageWorker: Send + Sync {
    type RunFuture<'a>: std::future::Future<Output = Result<StageOutcome, StageWorkerError>> + Send + 'a where Self: 'a;

    /// The stage the worker runs.
    fn stage_kind(&self) -> StageKind;

    /// Runs the stage of `ctx` and reports its outcome.
    fn execute<'a>(&'a self, ctx: &'a StageContext) -> Self::RunFuture<'a>;
}

/// A registry that finds the worker of a stage.
pub trait WorkerRegistry: Send + Sync {
    type Worker<'a>: StageWorker + 'a where Self: 'a;

    /// The worker of `stage`, if there is one.
    fn worker_for(&self, stage: StageKind) -> Option<&Self::Worker<'_>>;
}

/// Something that hands the manager's stage requests to workers.
pub trait StageDispatcher: Send + Sync {
    type DispatchFuture<'a>: std::future::Future<Output = Result<(), StageWorkerError>> + Send + 'a where Self: 'a;

    /// Hands on one stage request.
    fn dispatch<'a>(&'a self, ctx: &'a StageContext) -> Self::DispatchFuture<'a>;
}

} // verus!
