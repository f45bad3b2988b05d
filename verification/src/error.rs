//! Errors of the guarded execution boundary, and what its ports may answer.

use vstd::prelude::*;

use crate::budget::{BudgetDimension, BudgetExceeded};
use crate::context::RunContextError;
use crate::events::CapabilityKind;
use crate::ids::ToolName;
use crate::metadata::KnowledgeBackendId;
use crate::persistence::PersistencePortError;
use crate::replay::RecoveryError;
use crate::status::RunStatus;

verus! {

#[derive(Clone, Copy, Debug, PartialEq, Eq, Structural)]
pub enum HarnessOperation {
    StartRun,
    Checkpoint,
    BeginIteration,
    RecordLoopProgress,
    StartGraph,
    EnterGraphNode,
    CompleteGraphNode,
    FinishGraph,
    InvokeModel,
    RetrieveKnowledge,
    BindModelGrounding,
    PrepareAction,
    InvokeValidatedAction,
    InvokeTool,
    RequestApproval,
    CompleteRun,
    FailRun,
    CancelRun,
}

#[derive(Clone, Copy, Debug, PartialEq, Eq, Structural)]
pub enum ExecutionStage {
    Preflight,
    PreInvocationAudit,
    Invocation,
    PostInvocationAudit,
    LifecycleAudit,
}

#[derive(Clone, Copy, Debug, PartialEq, Eq, Structural)]
pub enum AuditPhase {
    BeforeInvocation,
    AfterInvocation,
    Lifecycle,
}

impl AuditPhase {
    pub open spec fn stage(self) -> ExecutionStage {
        match self {
            AuditPhase::BeforeInvocation => ExecutionStage::PreInvocationAudit,
            AuditPhase::AfterInvocation => ExecutionStage::PostInvocationAudit,
            AuditPhase::Lifecycle => ExecutionStage::LifecycleAudit,
        }
    }
}

/// The stage in which an audit of this phase takes place.
pub fn audit_stage(phase: AuditPhase) -> (r: ExecutionStage)
    ensures
        r == phase.stage(),
{
    match phase {
        AuditPhase::BeforeInvocation => ExecutionStage::PreInvocationAudit,
        AuditPhase::AfterInvocation => ExecutionStage::PostInvocationAudit,
        AuditPhase::Lifecycle => ExecutionStage::LifecycleAudit,
    }
}

/// How far an operation had come when its audit failed.
#[derive(Clone, Copy, Debug, PartialEq, Eq, Structural)]
pub enum OperationEffect {
    NotInvoked,
    InvocationStarted,
    StateCommitted,
}

#[derive(Clone, Copy, Debug, PartialEq, Eq, Structural)]
pub enum ModelPortError {
    Unavailable,
    Rejected,
    Failed,
}

#[derive(Clone, Copy, Debug, PartialEq, Eq, Structural)]
pub enum ToolPortError {
    Unavailable,
    AdapterFailure,
}

#[derive(Clone, Copy, Debug, PartialEq, Eq, Structural)]
pub enum AuditPortError {
    Unavailable,
    RecordFailed,
    TimedOut,
}

#[derive(Clone, Copy, Debug, PartialEq, Eq, Structural)]
pub enum ContainmentPortError {
    Unavailable,
    PreviewRejected,
    Infrastructure,
}

#[derive(Clone, Copy, Debug, PartialEq, Eq, Structural)]
pub enum ApprovalPortError {
    Unavailable,
    Failed,
}

#[derive(Clone, Copy, Debug, PartialEq, Eq, Structural)]
pub enum KnowledgeError {
    Unavailable(KnowledgeBackendId),
    Rejected(KnowledgeBackendId),
    MalformedResponse,
    SnapshotMismatch,
    Failed(KnowledgeBackendId),
    AllBackendsFailed,
}

#[derive(Clone, Copy, Debug, PartialEq, Eq, Structural)]
pub enum ActionSealError {
    InvalidCapsule,
    KeyUnavailable,
    AuthenticationFailed,
    EncodingFailed,
}

#[derive(Clone, Copy, Debug, PartialEq, Eq, Structural)]
pub enum PolicyDenialReason {
    CapabilityNotAllowedInM0,
    CapabilityNotExecutableInM6,
    ApprovalRequiredButUnsupported,
}

#[derive(Clone, Copy, Debug, PartialEq, Eq, Structural)]
pub struct PolicyDenial {
    pub capability: CapabilityKind,
    pub reason: PolicyDenialReason,
}

impl PolicyDenial {
    pub fn new(capability: CapabilityKind, reason: PolicyDenialReason) -> (r: Self)
        ensures
            r == (PolicyDenial { capability, reason }),
    {
        PolicyDenial { capability, reason }
    }

    pub fn capability(self) -> (r: CapabilityKind)
        ensures
            r == self.capability,
    {
        self.capability
    }

    pub fn reason(self) -> (r: PolicyDenialReason)
        ensures
            r == self.reason,
    {
        self.reason
    }
}

/// Why the execution boundary refused or broke off an operation.
#[derive(Clone, Debug, PartialEq, Eq)]
pub enum HarnessError {
    InvalidLifecycle { operation: HarnessOperation, status: RunStatus },
    BudgetExceeded(BudgetExceeded),
    Cancelled { stage: ExecutionStage },
    DeadlineExceeded { stage: ExecutionStage },
    ToolNotFound { name: ToolName },
    PolicyDenied(PolicyDenial),
    AuditDegraded,
    ApprovalRequired,
    CapabilityNotExecutable { capability: CapabilityKind },
    ContainmentUnavailable { name: ToolName },
    ApprovalPortMissing,
    ApprovalPort(ApprovalPortError),
    ApprovalDecisionMismatch,
    ApprovalDenied,
    ContainmentPort(ContainmentPortError),
    Audit {
        phase: AuditPhase,
        operation: HarnessOperation,
        effect: OperationEffect,
        kind: AuditPortError,
    },
    ModelPort(ModelPortError),
    KnowledgePort(KnowledgeError),
    GroundingMismatch,
    ToolPort(ToolPortError),
    Persistence(PersistencePortError),
    Recovery(RecoveryError),
    ActionSeal(ActionSealError),
    DurableApprovalMismatch,
    Context(RunContextError),
}

impl HarnessError {
    pub fn budget_dimension(&self) -> (r: Option<BudgetDimension>)
        ensures
            r == (match *self {
                HarnessError::BudgetExceeded(error) => Some(error.dimension),
                _ => None,
            }),
    {
        match self {
            HarnessError::BudgetExceeded(error) => Some(error.dimension),
            _ => None,
        }
    }
}

} // verus!
