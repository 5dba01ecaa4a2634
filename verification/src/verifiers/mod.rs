//! The verification stage: what a verifier is given and what it reports.

use vstd::prelude::*;
use crate::provider::SyncArtifact;

verus! {

/// The stable name of a kind of verifier.
#[derive(Debug, Clone, PartialEq, Eq, Hash)]
pub struct VerifierKind(pub String);

/// The conclusion of a verification.
#[derive(Debug, Clone, Copy, PartialEq, Eq, Structural)]
pub enum VerifyVerdict {
    Passed,
    Failed,
}

/// What a verification reads.
#[derive(Debug, Clone)]
pub struct VerifyContext {
    pub mirror_id: String,
    pub verifier_kind: VerifierKind,
    pub artifact: SyncArtifact,
    pub attempt: u32,
}

/// What a verification found.
#[derive(Debug, Clone)]
pub struct VerifyReport {
    pub mirror_id: String,
    pub verifier_kind: VerifierKind,
    pub verdict: VerifyVerdict,
    pub warnings: Vec<String>,
}

/// Why a verification could not be carried out.
#[derive(Debug, Clone)]
pub struct VerifyError {
    pub message: String,
    pub retryable: bool,
}

/// The outcome of one verification.
pub type VerifyResult = Result<VerifyReport, VerifyError>;

/// Something that can verify what a synchronisation produced.
pub trait Verifier: Send + Sync {
    type VerifyFuture<'a>: std::future::Future<Output = VerifyResult> + Send + 'a where Self: 'a;

    /// The verifier's stable name.
    fn kind(&self) -> &VerifierKind;

    /// Checks what a synchronisation produced.
    fn verify<'a>(&'a self, ctx: &'a VerifyContext) -> Self::VerifyFuture<'a>;
}

} // verus!
