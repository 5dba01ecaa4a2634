//! The synchronisation stage: what a provider is given and what it yields.

use vstd::prelude::*;
use std::path::PathBuf;

verus! {

/// The stable name of a kind of provider.
#[derive(Debug, Clone, PartialEq, Eq, Hash)]
pub struct ProviderKind(pub String);

/// What a synchronisation run reads.
#[derive(Debug, Clone)]
pub struct SyncContext {
    pub mirror_id: String,
    pub provider_kind: ProviderKind,
    pub workspace_dir: PathBuf,
    pub scratch_dir: PathBuf,
    pub attempt: u32,
}

/// What a synchronisation run produced, for verification to check.
#[derive(Debug, Clone)]
pub struct SyncArtifact {
    pub mirror_id: String,
    pub provider_kind: ProviderKind,
    pub snapshot_dir: PathBuf,
    pub revision: Option<String>,
}

/// Why a synchronisation run failed.
#[derive(Debug, Clone)]
pub struct SyncError {
    pub message: String,
    pub retryable: bool,
}

/// The outcome of one synchronisation run.
pub type SyncResult = Result<SyncArtifact, SyncError>;

/// Something that can synchronise a mirror.
pub trait SyncProvider: Send + Sync {
    type SyncFuture<'a>: std::future::Future<Output = SyncResult> + Send + 'a where Self: 'a;

    /// The provider's stable name.
    fn kind(&self) -> &ProviderKind;

    /// Runs one synchronisation, producing what verification is to check.
    fn sync<'a>(&'a self, ctx: &'a SyncContext) -> Self::SyncFuture<'a>;
}

} // verus!
