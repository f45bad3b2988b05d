//! The events of a run: metadata only, numbered without gaps.

use vstd::prelude::*;

use crate::digest::Digest32;
use crate::ids::{
    ActionProposalId, ApprovalRequestId, DurableApprovalWaitId, GraphNodeAttemptId, GraphNodeId,
    KnowledgeRetrievalId, ModelCallId, RunId, ToolCallId, ToolName, WorkspaceBindingId,
};
use crate::metadata::{
    KnowledgeEvidenceReference, KnowledgeRouteMetadata, KnowledgeSnapshotMetadata,
};
use crate::status::{
    GraphFailureKind, LoopDecisionKind, LoopPhase, RunFailureKind, RunOutcome,
};

verus! {

pub const CURRENT_EVENT_SCHEMA_VERSION: u16 = 5;

/// What a tool may do to the world.
#[derive(Clone, Copy, Debug, PartialEq, Eq, Structural)]
pub enum CapabilityKind {
    ReadOnly,
    LocalWrite,
    ExternalWrite,
    Privileged,
}

#[derive(Clone, Copy, Debug, PartialEq, Eq, Structural)]
pub enum GraphNodeKind {
    Retrieve,
    Decision,
    Model,
    Action,
    Verify,
    Complete,
    Fail,
}

#[derive(Clone, Copy, Debug, PartialEq, Eq, Structural)]
pub enum GraphRecoveryMode {
    Never,
    FreshRetrieval,
    DeterministicBoundary,
}

/// The edge that a graph run took out of a node.
#[derive(Clone, Copy, Debug, PartialEq, Eq, Structural)]
pub enum GraphTransitionKey {
    Succeeded,
}

#[derive(Clone, Copy, Debug, PartialEq, Eq, Structural)]
pub enum ApprovalFailureKind {
    PortUnavailable,
    PortFailed,
    DecisionMismatch,
}

#[derive(Clone, Copy, Debug, PartialEq, Eq, Structural)]
pub enum ContainmentFailureKind {
    Unavailable,
    PreviewRejected,
    Infrastructure,
}

#[derive(Clone, Copy, Debug, PartialEq, Eq, Structural)]
pub enum KnowledgeFailureKind {
    Unavailable,
    Rejected,
    MalformedResponse,
    SnapshotMismatch,
    Failed,
    Cancelled,
    DeadlineExceeded,
}

#[derive(Clone, Copy, Debug, PartialEq, Eq, Structural)]
pub enum ToolDomainFailureKind {
    NotFound,
    Rejected,
}

#[derive(Clone, Copy, Debug, PartialEq, Eq, Structural)]
pub enum ActionRejectionReason {
    EmptyOutput,
    UnsupportedOutputShape,
    ResponseTooLarge,
    MalformedEnvelope,
    InvalidToolName,
    SecurityLimitExceeded,
    UnknownTool,
    ArgumentsSchemaMismatch,
}

#[derive(Clone, Copy, Debug, PartialEq, Eq, Structural)]
pub enum DurableApprovalOutcome {
    Approve,
    Deny,
}

#[derive(Clone, Copy, Debug, PartialEq, Eq, Structural)]
pub struct TokenUsage {
    pub input_tokens: u64,
    pub output_tokens: u64,
}

/// Position of an event in the log of its run.
#[derive(Clone, Copy, Debug, PartialEq, Eq, Structural)]
pub struct EventSequence(pub u64);

impl EventSequence {
    pub fn new(value: u64) -> (r: Self)
        ensures
            r.0 == value,
    {
        EventSequence(value)
    }

    pub fn get(self) -> (r: u64)
        ensures
            r == self.0,
    {
        self.0
    }

    pub fn checked_next(self) -> (r: Option<EventSequence>)
        ensures
            r == (if self.0 < u64::MAX {
                Some(EventSequence((self.0 + 1) as u64))
            } else {
                None
            }),
    {
        if self.0 < u64::MAX {
            Some(EventSequence(self.0 + 1))
        } else {
            None
        }
    }
}

#[derive(Clone, Copy, Debug, PartialEq, Eq, Structural)]
pub enum LoopEventKind {
    IterationStarted { iteration: u32, usage: u32, limit: u32 },
    PhaseEntered { iteration: u32, phase: LoopPhase },
    PhaseCompleted { iteration: u32, phase: LoopPhase },
    ReflectDecision { iteration: u32, decision: LoopDecisionKind },
    IterationCompleted { iteration: u32 },
    LoopCompleted { completed_iterations: u32 },
    LoopFailed { iteration: u32, kind: RunFailureKind },
}

/// What a loop may report of its own progress. Starting an iteration is not among it: that
/// reserves budget.
#[derive(Clone, Copy, Debug, PartialEq, Eq, Structural)]
pub enum LoopProgressEvent {
    PhaseEntered { iteration: u32, phase: LoopPhase },
    PhaseCompleted { iteration: u32, phase: LoopPhase },
    ReflectDecision { iteration: u32, decision: LoopDecisionKind },
    IterationCompleted { iteration: u32 },
    LoopCompleted { completed_iterations: u32 },
    LoopFailed { iteration: u32, kind: RunFailureKind },
}

impl LoopProgressEvent {
    pub open spec fn as_loop_event(self) -> LoopEventKind {
        match self {
            LoopProgressEvent::PhaseEntered { iteration, phase } => LoopEventKind::PhaseEntered {
                iteration,
                phase,
            },
            LoopProgressEvent::PhaseCompleted { iteration, phase } => {
                LoopEventKind::PhaseCompleted { iteration, phase }
            },
            LoopProgressEvent::ReflectDecision { iteration, decision } => {
                LoopEventKind::ReflectDecision { iteration, decision }
            },
            LoopProgressEvent::IterationCompleted { iteration } => {
                LoopEventKind::IterationCompleted { iteration }
            },
            LoopProgressEvent::LoopCompleted { completed_iterations } => {
                LoopEventKind::LoopCompleted { completed_iterations }
            },
            LoopProgressEvent::LoopFailed { iteration, kind } => LoopEventKind::LoopFailed {
                iteration,
                kind,
            },
        }
    }

    pub fn to_loop_event(self) -> (r: LoopEventKind)
        ensures
            r == self.as_loop_event(),
    {
        match self {
            LoopProgressEvent::PhaseEntered { iteration, phase } => LoopEventKind::PhaseEntered {
                iteration,
                phase,
            },
            LoopProgressEvent::PhaseCompleted { iteration, phase } => {
                LoopEventKind::PhaseCompleted { iteration, phase }
            },
            LoopProgressEvent::ReflectDecision { iteration, decision } => {
                LoopEventKind::ReflectDecision { iteration, decision }
            },
            LoopProgressEvent::IterationCompleted { iteration } => {
                LoopEventKind::IterationCompleted { iteration }
            },
            LoopProgressEvent::LoopCompleted { completed_iterations } => {
                LoopEventKind::LoopCompleted { completed_iterations }
            },
            LoopProgressEvent::LoopFailed { iteration, kind } => LoopEventKind::LoopFailed {
                iteration,
                kind,
            },
        }
    }
}

#[derive(Clone, Debug, PartialEq, Eq)]
pub enum GraphProgressEvent {
    GraphStarted {
        definition_digest: Digest32,
        start_node: GraphNodeId,
        start_kind: GraphNodeKind,
        start_recovery: GraphRecoveryMode,
    },
    GraphNodeEntered {
        attempt_id: GraphNodeAttemptId,
        node_id: GraphNodeId,
        node_kind: GraphNodeKind,
        recovery: GraphRecoveryMode,
        step: u32,
        limit: u32,
    },
    GraphNodeRestarted {
        previous_attempt_id: Option<GraphNodeAttemptId>,
        attempt_id: GraphNodeAttemptId,
        node_id: GraphNodeId,
        node_kind: GraphNodeKind,
        recovery: GraphRecoveryMode,
        step: u32,
        limit: u32,
    },
    GraphNodeCompleted {
        attempt_id: GraphNodeAttemptId,
        node_id: GraphNodeId,
        transition: GraphTransitionKey,
        next_node: GraphNodeId,
        next_kind: GraphNodeKind,
        next_recovery: GraphRecoveryMode,
    },
    GraphSuspended {
        attempt_id: GraphNodeAttemptId,
        node_id: GraphNodeId,
        wait_id: DurableApprovalWaitId,
        approval_request_id: ApprovalRequestId,
        action_proposal_id: ActionProposalId,
        tool_call_id: ToolCallId,
        action_digest: Digest32,
    },
    GraphResumed {
        attempt_id: GraphNodeAttemptId,
        node_id: GraphNodeId,
        wait_id: DurableApprovalWaitId,
    },
    GraphCompleted { attempt_id: GraphNodeAttemptId, node_id: GraphNodeId, steps: u32 },
    GraphFailed {
        attempt_id: GraphNodeAttemptId,
        node_id: GraphNodeId,
        steps: u32,
        failure: GraphFailureKind,
        run_failure: RunFailureKind,
    },
}

#[derive(Clone, Debug, PartialEq, Eq)]
pub enum AgentEventKind {
    RunStarted { started_at_unix_millis: u64 },
    RunFinished { outcome: RunOutcome },
    AuditDegraded,
    ModelInvocationStarted { model_call_id: ModelCallId, usage: u32, limit: u32 },
    ModelInvocationCompleted { model_call_id: ModelCallId, token_usage: Option<TokenUsage> },
    ModelInvocationFailed { model_call_id: ModelCallId },
    ModelGroundingBound {
        retrieval_id: KnowledgeRetrievalId,
        model_call_id: ModelCallId,
        evidence_count: u8,
        manifest_digest: Digest32,
    },
    ActionProposed {
        model_call_id: ModelCallId,
        action_proposal_id: ActionProposalId,
        tool_name: ToolName,
    },
    ActionValidated { action_proposal_id: ActionProposalId },
    ActionRejected {
        model_call_id: ModelCallId,
        action_proposal_id: ActionProposalId,
        reason: ActionRejectionReason,
    },
    ActionExecutionBound { action_proposal_id: ActionProposalId, tool_call_id: ToolCallId },
    ApprovalRequested {
        approval_request_id: ApprovalRequestId,
        action_proposal_id: ActionProposalId,
        tool_call_id: ToolCallId,
        tool_name: ToolName,
        capability: CapabilityKind,
        usage: u32,
        limit: u32,
    },
    ApprovalGranted { approval_request_id: ApprovalRequestId },
    ApprovalDenied { approval_request_id: ApprovalRequestId },
    ApprovalFailed { approval_request_id: ApprovalRequestId, kind: ApprovalFailureKind },
    DurableApprovalPrepared {
        wait_id: DurableApprovalWaitId,
        approval_request_id: ApprovalRequestId,
        action_proposal_id: ActionProposalId,
        tool_call_id: ToolCallId,
        action_digest: Digest32,
        workspace_binding_id: WorkspaceBindingId,
        tool_contract_digest: Digest32,
        usage: u32,
        limit: u32,
    },
    DurableApprovalDecisionRecorded {
        wait_id: DurableApprovalWaitId,
        approval_request_id: ApprovalRequestId,
        outcome: DurableApprovalOutcome,
        row_version: u64,
    },
    DurableApprovalGranted {
        wait_id: DurableApprovalWaitId,
        approval_request_id: ApprovalRequestId,
    },
    DurableApprovalDenied {
        wait_id: DurableApprovalWaitId,
        approval_request_id: ApprovalRequestId,
    },
    ToolPolicyDenied { tool_call_id: ToolCallId, tool_name: ToolName, capability: CapabilityKind },
    ContainmentFailed {
        tool_call_id: ToolCallId,
        tool_name: ToolName,
        capability: CapabilityKind,
        kind: ContainmentFailureKind,
    },
    ToolInvocationStarted {
        tool_call_id: ToolCallId,
        tool_name: ToolName,
        capability: CapabilityKind,
        usage: u32,
        limit: u32,
    },
    ToolInvocationCompleted { tool_call_id: ToolCallId },
    ToolInvocationDomainFailed { tool_call_id: ToolCallId, kind: ToolDomainFailureKind },
    ToolInvocationAdapterFailed { tool_call_id: ToolCallId },
    KnowledgeRetrievalStarted {
        retrieval_id: KnowledgeRetrievalId,
        route: KnowledgeRouteMetadata,
        query_digest: Digest32,
        query_bytes: u16,
    },
    KnowledgeRetrievalRestarted {
        previous_retrieval_id: KnowledgeRetrievalId,
        retrieval_id: KnowledgeRetrievalId,
        route: KnowledgeRouteMetadata,
        query_digest: Digest32,
        query_bytes: u16,
    },
    KnowledgeRetrievalCompleted {
        retrieval_id: KnowledgeRetrievalId,
        snapshots: Vec<KnowledgeSnapshotMetadata>,
        evidence_references: Vec<KnowledgeEvidenceReference>,
        evidence_count: u8,
        truncated: bool,
        degraded: bool,
        manifest_digest: Digest32,
    },
    KnowledgeRetrievalFailed { retrieval_id: KnowledgeRetrievalId, kind: KnowledgeFailureKind },
    Loop { event: LoopEventKind },
    Graph { event: GraphProgressEvent },
}

/// One entry of a run's log.
#[derive(Clone, Debug, PartialEq, Eq)]
pub struct AgentEvent {
    pub schema_version: u16,
    pub run_id: RunId,
    pub sequence: EventSequence,
    pub kind: AgentEventKind,
}

impl AgentEvent {
    pub fn new(run_id: RunId, sequence: EventSequence, kind: AgentEventKind) -> (r: Self)
        ensures
            r == (AgentEvent { schema_version: CURRENT_EVENT_SCHEMA_VERSION, run_id, sequence, kind }),
    {
        AgentEvent { schema_version: CURRENT_EVENT_SCHEMA_VERSION, run_id, sequence, kind }
    }

    pub fn sequence(&self) -> (r: EventSequence)
        ensures
            r == self.sequence,
    {
        self.sequence
    }

    pub fn kind(&self) -> (r: &AgentEventKind)
        ensures
            *r == self.kind,
    {
        &self.kind
    }
}

} // verus!
