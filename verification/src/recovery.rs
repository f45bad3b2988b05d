//! The durable state of a run: what its log of events says about it.
//!
//! The state is reduced from events alone. An event that does not fit the state is refused, so a
//! log is accepted only as a whole.

use vstd::prelude::*;

use crate::budget::{BudgetUsage, RunBudget, MAX_GRAPH_STEPS};
use crate::digest::{append_length, length_frame, sha256, Digest32};
use crate::events::{
    AgentEvent, AgentEventKind, EventSequence, GraphNodeKind, GraphProgressEvent,
    GraphRecoveryMode, LoopEventKind, CURRENT_EVENT_SCHEMA_VERSION,
};
use crate::ids::{GraphNodeAttemptId, GraphNodeId, KnowledgeRetrievalId};
use crate::metadata::{
    KnowledgeEvidenceReference, KnowledgeRouteMetadata, KnowledgeSnapshotMetadata, RouteView,
    MAX_DURABLE_EVIDENCE_REFERENCES, MAX_DURABLE_KNOWLEDGE_BACKENDS,
};
use crate::persistence::{RecoveryContract, RunKey};
use crate::positions::{
    clone_graph, clone_retrieval, first_named, graph_equal, is_pending, manifest_equal,
    option_graph, option_retrieval, retrieval_equal, without, AnchorView, ContinuationState,
    DurableGraphPosition, DurableGraphState, DurableKnowledgeManifest, DurableLoopPosition,
    GraphPositionView, GraphRestartAnchor, GraphView, PendingEffect, PendingEffectKey,
    PendingKnowledgeRetrieval, RetrievalView,
};
use crate::status::{LoopDecisionKind, LoopPhase, RunFailureKind, RunOutcome, RunStatus};

verus! {

pub const MAX_QUERY_BYTES: usize = 1024;

/// Why an event does not fit the state.
#[derive(Clone, Copy, Debug, PartialEq, Eq, Structural)]
pub enum TransitionError {
    IdentityOrVersion,
    Sequence,
    Lifecycle,
    Budget,
    Loop,
    Graph,
    Effect,
    Encoding,
}

/// The durable state of one run.
#[derive(Debug, PartialEq, Eq)]
pub struct DurableRunState {
    key: RunKey,
    budget: RunBudget,
    usage: BudgetUsage,
    status: RunStatus,
    audit_degraded: bool,
    started_at_unix_millis: Option<u64>,
    recovery_contract: RecoveryContract,
    last_sequence: Option<EventSequence>,
    event_chain_digest: Digest32,
    current_iteration: Option<u32>,
    completed_iterations: u32,
    loop_position: DurableLoopPosition,
    continuation: ContinuationState,
    pending_effects: Vec<PendingEffect>,
    pending_knowledge_retrieval: Option<PendingKnowledgeRetrieval>,
    restartable_knowledge_retrieval: Option<PendingKnowledgeRetrieval>,
    latest_knowledge_manifest: Option<DurableKnowledgeManifest>,
    graph: Option<DurableGraphState>,
}

#[verifier::ext_equal]
pub struct RunStateView {
    pub key: RunKey,
    pub budget: RunBudget,
    pub usage: BudgetUsage,
    pub status: RunStatus,
    pub audit_degraded: bool,
    pub started_at_unix_millis: Option<u64>,
    pub recovery_contract: RecoveryContract,
    pub last_sequence: Option<EventSequence>,
    pub event_chain_digest: Seq<u8>,
    pub current_iteration: Option<u32>,
    pub completed_iterations: u32,
    pub loop_position: DurableLoopPosition,
    pub continuation: ContinuationState,
    pub pending_effects: Seq<PendingEffect>,
    pub pending_knowledge_retrieval: Option<RetrievalView>,
    pub restartable_knowledge_retrieval: Option<RetrievalView>,
    pub latest_knowledge_manifest: Option<DurableKnowledgeManifest>,
    pub graph: Option<GraphView>,
}

impl View for DurableRunState {
    type V = RunStateView;

    closed spec fn view(&self) -> RunStateView {
        RunStateView {
            key: self.key,
            budget: self.budget,
            usage: self.usage,
            status: self.status,
            audit_degraded: self.audit_degraded,
            started_at_unix_millis: self.started_at_unix_millis,
            recovery_contract: self.recovery_contract,
            last_sequence: self.last_sequence,
            event_chain_digest: self.event_chain_digest@,
            current_iteration: self.current_iteration,
            completed_iterations: self.completed_iterations,
            loop_position: self.loop_position,
            continuation: self.continuation,
            pending_effects: self.pending_effects@,
            pending_knowledge_retrieval: option_retrieval(self.pending_knowledge_retrieval),
            restartable_knowledge_retrieval: option_retrieval(self.restartable_knowledge_retrieval),
            latest_knowledge_manifest: self.latest_knowledge_manifest,
            graph: option_graph(self.graph),
        }
    }
}

/// A state and what became of an event in it. A refusal may leave a part of the event behind, so
/// the state stands beside the error.
pub type Reduction = (RunStateView, Result<(), TransitionError>);

pub open spec fn accept(state: RunStateView) -> Reduction {
    (state, Ok(()))
}

pub open spec fn refuse(state: RunStateView, error: TransitionError) -> Reduction {
    (state, Err(error))
}

/// The state of a run of which nothing has been recorded.
pub open spec fn initial_state(key: RunKey, budget: RunBudget, contract: RecoveryContract)
    -> RunStateView {
    RunStateView {
        key,
        budget,
        usage: BudgetUsage::none(),
        status: RunStatus::Pending,
        audit_degraded: false,
        started_at_unix_millis: None,
        recovery_contract: contract,
        last_sequence: None,
        event_chain_digest: Seq::new(32, |i: int| 0u8),
        current_iteration: None,
        completed_iterations: 0,
        loop_position: DurableLoopPosition::NotStarted,
        continuation: ContinuationState::InitialBoundary,
        pending_effects: Seq::empty(),
        pending_knowledge_retrieval: None,
        restartable_knowledge_retrieval: None,
        latest_knowledge_manifest: None,
        graph: None,
    }
}

/// `value` plus one, held at the largest `u32`.
pub open spec fn bumped(value: u32) -> u32 {
    if value == u32::MAX {
        u32::MAX
    } else {
        (value + 1) as u32
    }
}

pub open spec fn valid_recovery(kind: GraphNodeKind, recovery: GraphRecoveryMode) -> bool {
    recovery == match kind {
        GraphNodeKind::Retrieve => GraphRecoveryMode::FreshRetrieval,
        GraphNodeKind::Decision => GraphRecoveryMode::DeterministicBoundary,
        _ => GraphRecoveryMode::Never,
    }
}

pub open spec fn continuation_at(recovery: GraphRecoveryMode) -> ContinuationState {
    if recovery == GraphRecoveryMode::Never {
        ContinuationState::TransientStateRequired
    } else {
        ContinuationState::RestartableBoundary
    }
}

impl RunStateView {
    pub open spec fn transient(self) -> RunStateView {
        RunStateView { continuation: ContinuationState::TransientStateRequired, ..self }
    }

    pub open spec fn quiescent(self) -> bool {
        self.pending_effects.len() == 0 && self.pending_knowledge_retrieval is None
    }

    pub open spec fn position(self) -> GraphPositionView {
        self.graph->0.position
    }

    pub open spec fn at(self, position: GraphPositionView) -> RunStateView {
        RunStateView { graph: Some(GraphView { position, ..self.graph->0 }), ..self }
    }

    pub open spec fn without_anchor(self) -> RunStateView {
        match self.graph {
            Some(graph) => RunStateView {
                graph: Some(GraphView { restart_anchor: None, ..graph }),
                ..self
            },
            None => self,
        }
    }

    /// One effect is over.
    pub open spec fn effect_over(self, key: PendingEffectKey) -> Reduction {
        if is_pending(self.pending_effects, key) {
            accept(
                RunStateView { pending_effects: without(self.pending_effects, key), ..self },
            )
        } else {
            refuse(self, TransitionError::Effect)
        }
    }

    /// A retrieval may be under way here: in the loop's retrieve phase or at a graph's retrieve
    /// node.
    pub open spec fn retrieving(self) -> bool {
        ||| self.loop_position == DurableLoopPosition::PhaseRunning(LoopPhase::Retrieve)
        ||| (self.graph is Some && (self.position() matches GraphPositionView::Running {
            node_kind,
            recovery,
            ..
        } && node_kind == GraphNodeKind::Retrieve && recovery
            == GraphRecoveryMode::FreshRetrieval))
    }

    pub open spec fn retrieval_started(self, retrieval: RetrievalView) -> Reduction {
        if self.pending_knowledge_retrieval is Some || !retrieval.route.valid()
            || !(0 < retrieval.query_bytes <= MAX_QUERY_BYTES) || !self.retrieving() {
            refuse(self, TransitionError::Effect)
        } else {
            accept(
                RunStateView {
                    pending_knowledge_retrieval: Some(retrieval),
                    restartable_knowledge_retrieval: Some(retrieval),
                    latest_knowledge_manifest: None,
                    ..self.transient()
                },
            )
        }
    }

    pub open spec fn retrieval_pending(self, retrieval_id: KnowledgeRetrievalId) -> bool {
        self.pending_knowledge_retrieval matches Some(pending) && pending.retrieval_id
            == retrieval_id
    }
}

/// What a completed retrieval brought is consistent and stays on its route.
pub open spec fn consistent_result(
    route: RouteView,
    snapshots: Seq<KnowledgeSnapshotMetadata>,
    references: Seq<KnowledgeEvidenceReference>,
    evidence_count: u8,
) -> bool {
    &&& evidence_count == references.len() <= MAX_DURABLE_EVIDENCE_REFERENCES
    &&& snapshots.len() <= MAX_DURABLE_KNOWLEDGE_BACKENDS
    &&& forall|i: int|
        0 <= i < references.len() ==> (#[trigger] references[i]).valid()
            && route.backends().contains(references[i].backend)
    &&& forall|i: int|
        0 <= i < snapshots.len() ==> (#[trigger] snapshots[i]).valid()
            && route.backends().contains(snapshots[i].backend)
    &&& forall|i: int, j: int|
        0 <= i < j < snapshots.len() ==> (#[trigger] snapshots[i]).backend != (
        #[trigger] snapshots[j]).backend
}

pub open spec fn model_started(state: RunStateView, effect: PendingEffect, usage: u32, limit: u32)
    -> Reduction {
    if limit != state.budget.max_model_calls || usage != bumped(state.usage.model_calls) {
        refuse(state, TransitionError::Budget)
    } else {
        accept(
            RunStateView {
                usage: BudgetUsage { model_calls: usage, ..state.usage },
                restartable_knowledge_retrieval: if state.graph is Some {
                    None
                } else {
                    state.restartable_knowledge_retrieval
                },
                pending_effects: state.pending_effects.push(effect),
                ..state.without_anchor().transient()
            },
        )
    }
}

pub open spec fn approval_reserved(state: RunStateView, usage: u32, limit: u32) -> Reduction {
    if limit != state.budget.max_approval_requests || usage != bumped(
        state.usage.approval_requests,
    ) {
        refuse(state, TransitionError::Budget)
    } else {
        accept(
            RunStateView {
                usage: BudgetUsage { approval_requests: usage, ..state.usage },
                ..state.transient()
            },
        )
    }
}

pub open spec fn tool_started(state: RunStateView, effect: PendingEffect, usage: u32, limit: u32)
    -> Reduction {
    if limit != state.budget.max_tool_calls || usage != bumped(state.usage.tool_calls) {
        refuse(state, TransitionError::Budget)
    } else {
        accept(
            RunStateView {
                usage: BudgetUsage { tool_calls: usage, ..state.usage },
                pending_effects: state.pending_effects.push(effect),
                ..state.transient()
            },
        )
    }
}

/// What an event does to the state.
pub open spec fn reduce_kind(state: RunStateView, kind: AgentEventKind) -> Reduction {
    match kind {
        AgentEventKind::RunStarted { started_at_unix_millis } => {
            if state.status != RunStatus::Pending || (
            state.started_at_unix_millis matches Some(current) && current
                != started_at_unix_millis) {
                refuse(state, TransitionError::Lifecycle)
            } else {
                accept(
                    RunStateView {
                        started_at_unix_millis: Some(started_at_unix_millis),
                        status: RunStatus::Running,
                        ..state
                    },
                )
            }
        },
        AgentEventKind::RunFinished { outcome } => {
            if state.status != RunStatus::Running {
                refuse(state, TransitionError::Lifecycle)
            } else {
                accept(RunStateView { status: RunStatus::Finished(outcome), ..state })
            }
        },
        AgentEventKind::AuditDegraded => accept(RunStateView { audit_degraded: true, ..state }),
        AgentEventKind::ModelInvocationStarted { model_call_id, usage, limit } => model_started(
            state,
            PendingEffect::Model { model_call_id },
            usage,
            limit,
        ),
        AgentEventKind::ModelInvocationCompleted { model_call_id, .. } => state.effect_over(
            PendingEffectKey::Model(model_call_id),
        ),
        AgentEventKind::ModelInvocationFailed { model_call_id } => state.effect_over(
            PendingEffectKey::Model(model_call_id),
        ),
        AgentEventKind::ApprovalRequested { approval_request_id, usage, limit, .. } => {
            let (reserved, result) = approval_reserved(state, usage, limit);
            if result is Ok {
                accept(
                    RunStateView {
                        pending_effects: state.pending_effects.push(
                            PendingEffect::Approval { approval_request_id },
                        ),
                        ..reserved
                    },
                )
            } else {
                (reserved, result)
            }
        },
        AgentEventKind::ApprovalGranted { approval_request_id } => state.effect_over(
            PendingEffectKey::Approval(approval_request_id),
        ),
        AgentEventKind::ApprovalDenied { approval_request_id } => state.effect_over(
            PendingEffectKey::Approval(approval_request_id),
        ),
        AgentEventKind::ApprovalFailed { approval_request_id, .. } => state.effect_over(
            PendingEffectKey::Approval(approval_request_id),
        ),
        AgentEventKind::DurableApprovalPrepared { usage, limit, .. } => approval_reserved(
            state,
            usage,
            limit,
        ),
        AgentEventKind::DurableApprovalDecisionRecorded { .. } => accept(state),
        AgentEventKind::DurableApprovalGranted { .. } => accept(state),
        AgentEventKind::DurableApprovalDenied { .. } => accept(state),
        AgentEventKind::ToolInvocationStarted { tool_call_id, capability, usage, limit, .. } => {
            tool_started(state, PendingEffect::Tool { tool_call_id, capability }, usage, limit)
        },
        AgentEventKind::ToolInvocationCompleted { tool_call_id } => state.effect_over(
            PendingEffectKey::Tool(tool_call_id),
        ),
        AgentEventKind::ToolInvocationDomainFailed { tool_call_id, .. } => state.effect_over(
            PendingEffectKey::Tool(tool_call_id),
        ),
        AgentEventKind::ToolInvocationAdapterFailed { tool_call_id } => state.effect_over(
            PendingEffectKey::Tool(tool_call_id),
        ),
        AgentEventKind::KnowledgeRetrievalStarted {
            retrieval_id,
            route,
            query_digest,
            query_bytes,
        } => state.retrieval_started(
            RetrievalView { retrieval_id, route: route@, query_digest, query_bytes },
        ),
        AgentEventKind::KnowledgeRetrievalRestarted {
            previous_retrieval_id,
            retrieval_id,
            route,
            query_digest,
            query_bytes,
        } => {
            if state.retrieval_pending(previous_retrieval_id)
                && state.pending_knowledge_retrieval->0.same_request(
                route@,
                query_digest,
                query_bytes,
            ) {
                (RunStateView { pending_knowledge_retrieval: None, ..state }).retrieval_started(
                    RetrievalView { retrieval_id, route: route@, query_digest, query_bytes },
                )
            } else {
                refuse(state, TransitionError::Effect)
            }
        },
        AgentEventKind::KnowledgeRetrievalCompleted {
            retrieval_id,
            snapshots,
            evidence_references,
            evidence_count,
            manifest_digest,
            ..
        } => {
            if state.restartable_knowledge_retrieval is Some && consistent_result(
                state.restartable_knowledge_retrieval->0.route,
                snapshots@,
                evidence_references@,
                evidence_count,
            ) && state.retrieval_pending(retrieval_id) {
                accept(
                    RunStateView {
                        pending_knowledge_retrieval: None,
                        latest_knowledge_manifest: Some(
                            DurableKnowledgeManifest {
                                retrieval_id,
                                evidence_count,
                                manifest_digest,
                            },
                        ),
                        ..state
                    },
                )
            } else {
                refuse(state, TransitionError::Effect)
            }
        },
        AgentEventKind::KnowledgeRetrievalFailed { retrieval_id, .. } => {
            if state.retrieval_pending(retrieval_id) {
                accept(
                    RunStateView {
                        pending_knowledge_retrieval: None,
                        latest_knowledge_manifest: None,
                        ..state.without_anchor()
                    },
                )
            } else {
                refuse(state, TransitionError::Effect)
            }
        },
        AgentEventKind::ModelGroundingBound {
            retrieval_id,
            model_call_id,
            evidence_count,
            manifest_digest,
        } => {
            if state.latest_knowledge_manifest == Some(
                DurableKnowledgeManifest { retrieval_id, evidence_count, manifest_digest },
            ) && is_pending(state.pending_effects, PendingEffectKey::Model(model_call_id)) {
                accept(state.transient())
            } else {
                refuse(state, TransitionError::Effect)
            }
        },
        AgentEventKind::Loop { event } => reduce_loop(state, event),
        AgentEventKind::Graph { event } => reduce_graph(state, event),
        AgentEventKind::ActionProposed { .. } => accept(state.transient()),
        AgentEventKind::ActionValidated { .. } => accept(state.transient()),
        AgentEventKind::ActionRejected { .. } => accept(state.transient()),
        AgentEventKind::ActionExecutionBound { .. } => accept(state.transient()),
        AgentEventKind::ToolPolicyDenied { .. } => accept(state.transient()),
        AgentEventKind::ContainmentFailed { .. } => accept(state.transient()),
    }
}

/// What an event of the loop does to the state.
pub open spec fn reduce_loop(state: RunStateView, event: LoopEventKind) -> Reduction {
    match event {
        LoopEventKind::IterationStarted { iteration, usage, limit } => {
            if (state.loop_position == DurableLoopPosition::Ready || state.loop_position
                == DurableLoopPosition::NotStarted) && usage == bumped(state.usage.iterations)
                && limit == state.budget.max_iterations && iteration == usage {
                accept(
                    RunStateView {
                        usage: BudgetUsage { iterations: usage, ..state.usage },
                        current_iteration: Some(iteration),
                        loop_position: DurableLoopPosition::PhaseReady(LoopPhase::Observe),
                        ..state.transient()
                    },
                )
            } else {
                refuse(state, TransitionError::Loop)
            }
        },
        LoopEventKind::PhaseEntered { iteration, phase } => {
            if state.current_iteration == Some(iteration) && state.loop_position
                == DurableLoopPosition::PhaseReady(phase) {
                accept(
                    RunStateView {
                        loop_position: DurableLoopPosition::PhaseRunning(phase),
                        ..state
                    },
                )
            } else {
                refuse(state, TransitionError::Loop)
            }
        },
        LoopEventKind::PhaseCompleted { iteration, phase } => {
            if state.current_iteration != Some(iteration) || state.loop_position
                != DurableLoopPosition::PhaseRunning(phase) {
                refuse(state, TransitionError::Loop)
            } else if phase == LoopPhase::Retrieve && state.pending_knowledge_retrieval is Some {
                refuse(state, TransitionError::Effect)
            } else {
                accept(
                    RunStateView {
                        loop_position: match phase.successor() {
                            Some(next) => DurableLoopPosition::PhaseReady(next),
                            None => DurableLoopPosition::ReflectCompleted,
                        },
                        restartable_knowledge_retrieval: if phase == LoopPhase::Retrieve {
                            None
                        } else {
                            state.restartable_knowledge_retrieval
                        },
                        ..state
                    },
                )
            }
        },
        LoopEventKind::ReflectDecision { iteration, decision } => {
            if state.current_iteration == Some(iteration) && state.loop_position
                == DurableLoopPosition::ReflectCompleted {
                accept(
                    RunStateView {
                        completed_iterations: bumped(state.completed_iterations),
                        loop_position: DurableLoopPosition::ReflectDecided(decision),
                        ..state
                    },
                )
            } else {
                refuse(state, TransitionError::Loop)
            }
        },
        LoopEventKind::IterationCompleted { iteration } => {
            if state.current_iteration != Some(iteration) {
                refuse(state, TransitionError::Loop)
            } else if state.loop_position == DurableLoopPosition::ReflectDecided(
                LoopDecisionKind::Continue,
            ) {
                accept(
                    RunStateView {
                        current_iteration: None,
                        loop_position: DurableLoopPosition::Ready,
                        continuation: ContinuationState::RestartableBoundary,
                        ..state
                    },
                )
            } else if state.loop_position is ReflectDecided {
                accept(RunStateView { loop_position: DurableLoopPosition::Finished, ..state })
            } else {
                refuse(state, TransitionError::Loop)
            }
        },
        LoopEventKind::LoopCompleted { completed_iterations } => {
            if completed_iterations == state.completed_iterations {
                accept(RunStateView { loop_position: DurableLoopPosition::Finished, ..state })
            } else {
                refuse(state, TransitionError::Loop)
            }
        },
        LoopEventKind::LoopFailed { iteration, .. } => {
            if state.current_iteration == Some(iteration) {
                accept(RunStateView { loop_position: DurableLoopPosition::Finished, ..state })
            } else {
                refuse(state, TransitionError::Loop)
            }
        },
    }
}

/// A node may be entered as step `step` under `limit`.
pub open spec fn step_fits(state: RunStateView, step: u32, limit: u32) -> bool {
    &&& limit == state.budget.max_graph_steps
    &&& 0 < limit <= MAX_GRAPH_STEPS
    &&& step == bumped(state.graph->0.steps)
    &&& step == bumped(state.usage.graph_steps)
}

pub open spec fn node_running(
    state: RunStateView,
    attempt_id: GraphNodeAttemptId,
    node_id: Seq<char>,
    node_kind: GraphNodeKind,
    recovery: GraphRecoveryMode,
    step: u32,
) -> RunStateView {
    let graph = state.graph->0;
    RunStateView {
        graph: Some(
            GraphView {
                steps: step,
                position: GraphPositionView::Running { attempt_id, node_id, node_kind, recovery },
                restart_anchor: if recovery == GraphRecoveryMode::FreshRetrieval {
                    Some(AnchorView { node_id, attempt_id })
                } else {
                    graph.restart_anchor
                },
                ..graph
            },
        ),
        usage: BudgetUsage { graph_steps: step, ..state.usage },
        ..state.transient()
    }
}

/// The node that is named may be run again: the graph stands at it and it is one that can be run
/// again, or the anchor names it.
pub open spec fn may_restart(
    graph: GraphView,
    previous_attempt_id: Option<GraphNodeAttemptId>,
    node_id: Seq<char>,
    node_kind: GraphNodeKind,
    recovery: GraphRecoveryMode,
) -> bool {
    ||| (recovery != GraphRecoveryMode::Never && match previous_attempt_id {
        None => graph.position == GraphPositionView::Ready { node_id, node_kind, recovery },
        Some(attempt_id) => graph.position == GraphPositionView::Running {
            attempt_id,
            node_id,
            node_kind,
            recovery,
        },
    })
    ||| (recovery == GraphRecoveryMode::FreshRetrieval && (graph.restart_anchor matches Some(anchor)
        && anchor.node_id == node_id && previous_attempt_id == Some(anchor.attempt_id)))
}

/// The graph runs exactly this attempt.
pub open spec fn runs_attempt(
    state: RunStateView,
    attempt_id: GraphNodeAttemptId,
    node_id: Seq<char>,
) -> bool {
    state.position() matches GraphPositionView::Running {
        attempt_id: current_attempt,
        node_id: current_node,
        ..
    } && current_attempt == attempt_id && current_node == node_id
}

pub open spec fn graph_terminal(
    state: RunStateView,
    attempt_id: GraphNodeAttemptId,
    node_id: Seq<char>,
    steps: u32,
    expected_kind: Option<GraphNodeKind>,
    outcome: RunOutcome,
) -> Reduction {
    if state.graph is Some && state.graph->0.steps == steps && runs_attempt(
        state,
        attempt_id,
        node_id,
    ) && (expected_kind matches Some(kind) ==> state.position()->Running_node_kind == kind
        && state.position()->Running_recovery == GraphRecoveryMode::Never) && state.quiescent()
        && state.status == RunStatus::Running {
        accept(
            RunStateView {
                status: RunStatus::Finished(outcome),
                ..state.at(GraphPositionView::Finished).without_anchor().transient()
            },
        )
    } else {
        refuse(state, TransitionError::Graph)
    }
}

/// What an event of a graph does to the state.
pub open spec fn reduce_graph(state: RunStateView, event: GraphProgressEvent) -> Reduction {
    match event {
        GraphProgressEvent::GraphStarted {
            definition_digest,
            start_node,
            start_kind,
            start_recovery,
        } => {
            if state.graph is None && state.loop_position == DurableLoopPosition::NotStarted
                && state.status == RunStatus::Running && (
            state.recovery_contract matches RecoveryContract::Graph {
                definition_digest: expected,
                ..
            } && expected == definition_digest) && valid_recovery(start_kind, start_recovery) {
                accept(
                    RunStateView {
                        graph: Some(
                            GraphView {
                                definition_digest,
                                position: GraphPositionView::Ready {
                                    node_id: start_node@,
                                    node_kind: start_kind,
                                    recovery: start_recovery,
                                },
                                steps: 0,
                                restart_anchor: None,
                            },
                        ),
                        continuation: continuation_at(start_recovery),
                        ..state
                    },
                )
            } else {
                refuse(state, TransitionError::Graph)
            }
        },
        GraphProgressEvent::GraphNodeEntered {
            attempt_id,
            node_id,
            node_kind,
            recovery,
            step,
            limit,
        } => {
            if state.graph is Some && state.position() == (GraphPositionView::Ready {
                node_id: node_id@,
                node_kind,
                recovery,
            }) && step_fits(state, step, limit) && valid_recovery(node_kind, recovery) {
                accept(
                    node_running(state, attempt_id, node_id@, node_kind, recovery, step),
                )
            } else {
                refuse(state, TransitionError::Graph)
            }
        },
        GraphProgressEvent::GraphNodeRestarted {
            previous_attempt_id,
            attempt_id,
            node_id,
            node_kind,
            recovery,
            step,
            limit,
        } => {
            if state.graph is Some && may_restart(
                state.graph->0,
                previous_attempt_id,
                node_id@,
                node_kind,
                recovery,
            ) && step_fits(state, step, limit) && valid_recovery(node_kind, recovery) {
                accept(
                    node_running(state, attempt_id, node_id@, node_kind, recovery, step),
                )
            } else {
                refuse(state, TransitionError::Graph)
            }
        },
        GraphProgressEvent::GraphNodeCompleted {
            attempt_id,
            node_id,
            next_node,
            next_kind,
            next_recovery,
            ..
        } => {
            if state.graph is Some && runs_attempt(state, attempt_id, node_id@)
                && state.quiescent() && valid_recovery(next_kind, next_recovery) {
                accept(
                    RunStateView {
                        continuation: continuation_at(next_recovery),
                        ..state.at(
                            GraphPositionView::Ready {
                                node_id: next_node@,
                                node_kind: next_kind,
                                recovery: next_recovery,
                            },
                        )
                    },
                )
            } else {
                refuse(state, TransitionError::Graph)
            }
        },
        GraphProgressEvent::GraphSuspended {
            attempt_id,
            node_id,
            wait_id,
            approval_request_id,
            action_proposal_id,
            tool_call_id,
            action_digest,
        } => {
            if state.graph is Some && state.position() == (GraphPositionView::Running {
                attempt_id,
                node_id: node_id@,
                node_kind: GraphNodeKind::Action,
                recovery: GraphRecoveryMode::Never,
            }) && state.quiescent() {
                accept(
                    RunStateView {
                        continuation: ContinuationState::RestartableBoundary,
                        ..state.at(
                            GraphPositionView::Waiting {
                                attempt_id,
                                node_id: node_id@,
                                wait_id,
                                approval_request_id,
                                action_proposal_id,
                                tool_call_id,
                                action_digest,
                            },
                        ).without_anchor()
                    },
                )
            } else {
                refuse(state, TransitionError::Graph)
            }
        },
        GraphProgressEvent::GraphResumed { attempt_id, node_id, wait_id } => {
            if state.graph is Some && (state.position() matches GraphPositionView::Waiting {
                attempt_id: current_attempt,
                node_id: current_node,
                wait_id: current_wait,
                ..
            } && current_attempt == attempt_id && current_node == node_id@ && current_wait
                == wait_id) && state.pending_effects.len() == 0 {
                accept(
                    state.at(
                        GraphPositionView::Running {
                            attempt_id,
                            node_id: node_id@,
                            node_kind: GraphNodeKind::Action,
                            recovery: GraphRecoveryMode::Never,
                        },
                    ).transient(),
                )
            } else {
                refuse(state, TransitionError::Graph)
            }
        },
        GraphProgressEvent::GraphCompleted { attempt_id, node_id, steps } => graph_terminal(
            state,
            attempt_id,
            node_id@,
            steps,
            Some(GraphNodeKind::Complete),
            RunOutcome::Completed,
        ),
        GraphProgressEvent::GraphFailed {
            attempt_id,
            node_id,
            steps,
            failure,
            run_failure,
        } => {
            if run_failure == (RunFailureKind::Graph { kind: failure }) {
                graph_terminal(
                    state,
                    attempt_id,
                    node_id@,
                    steps,
                    None,
                    RunOutcome::Failed { kind: run_failure },
                )
            } else {
                refuse(state, TransitionError::Graph)
            }
        },
    }
}

/// The sequence number that the next event of a log has.
pub open spec fn next_sequence(last: Option<EventSequence>) -> EventSequence {
    match last {
        None => EventSequence(0),
        Some(sequence) => if sequence.0 == u64::MAX {
            sequence
        } else {
            EventSequence((sequence.0 + 1) as u64)
        },
    }
}

/// The digest of a log after one more event with this encoding.
pub open spec fn chained(previous: Seq<u8>, encoding: Seq<u8>) -> Seq<u8> {
    sha256(previous + length_frame(encoding.len()) + encoding)
}

/// What an event does to the state, given the bytes that encode it, where it could be encoded.
pub open spec fn reduce(state: RunStateView, event: AgentEvent, encoding: Option<Seq<u8>>)
    -> Reduction {
    if event.schema_version != CURRENT_EVENT_SCHEMA_VERSION || event.run_id != state.key.run_id {
        refuse(state, TransitionError::IdentityOrVersion)
    } else if event.sequence != next_sequence(state.last_sequence) {
        refuse(state, TransitionError::Sequence)
    } else {
        let (reduced, result) = reduce_kind(state, event.kind);
        if result is Err {
            (reduced, result)
        } else {
            match encoding {
                None => refuse(reduced, TransitionError::Encoding),
                Some(bytes) => accept(
                    RunStateView {
                        event_chain_digest: chained(state.event_chain_digest, bytes),
                        last_sequence: Some(event.sequence),
                        ..reduced
                    },
                ),
            }
        }
    }
}

pub open spec fn option_bytes(value: Option<Vec<u8>>) -> Option<Seq<u8>> {
    match value {
        Some(bytes) => Some(bytes@),
        None => None,
    }
}

/// Whether a node of this kind may be declared with this recovery mode.
pub fn valid_recovery_mode(kind: GraphNodeKind, recovery: GraphRecoveryMode) -> (r: bool)
    ensures
        r == valid_recovery(kind, recovery),
{
    match kind {
        GraphNodeKind::Retrieve => recovery == GraphRecoveryMode::FreshRetrieval,
        GraphNodeKind::Decision => recovery == GraphRecoveryMode::DeterministicBoundary,
        _ => recovery == GraphRecoveryMode::Never,
    }
}

pub fn continuation_for(recovery: GraphRecoveryMode) -> (r: ContinuationState)
    ensures
        r == continuation_at(recovery),
{
    match recovery {
        GraphRecoveryMode::Never => ContinuationState::TransientStateRequired,
        _ => ContinuationState::RestartableBoundary,
    }
}

fn bump(value: u32) -> (r: u32)
    ensures
        r == bumped(value),
{
    if value == u32::MAX {
        u32::MAX
    } else {
        value + 1
    }
}

fn result_is_consistent(
    route: &KnowledgeRouteMetadata,
    snapshots: &Vec<KnowledgeSnapshotMetadata>,
    references: &Vec<KnowledgeEvidenceReference>,
    evidence_count: u8,
) -> (r: bool)
    ensures
        r == consistent_result(route@, snapshots@, references@, evidence_count),
{
    if evidence_count as usize != references.len() || references.len()
        > MAX_DURABLE_EVIDENCE_REFERENCES || snapshots.len() > MAX_DURABLE_KNOWLEDGE_BACKENDS {
        return false;
    }
    let mut i: usize = 0;
    while i < references.len()
        invariant
            i <= references.len(),
            forall|k: int|
                0 <= k < i ==> (#[trigger] references@[k]).valid() && route@.backends().contains(
                    references@[k].backend,
                ),
        decreases references.len() - i,
    {
        if !references[i].is_valid() || !route.has_backend(references[i].backend()) {
            assert(!(references@[i as int].valid() && route@.backends().contains(
                references@[i as int].backend,
            )));
            return false;
        }
        i = i + 1;
    }
    let mut n: usize = 0;
    while n < snapshots.len()
        invariant
            n <= snapshots.len(),
            forall|k: int|
                0 <= k < n ==> (#[trigger] snapshots@[k]).valid() && route@.backends().contains(
                    snapshots@[k].backend,
                ),
            forall|a: int, b: int|
                0 <= a < b < n ==> (#[trigger] snapshots@[a]).backend != (
                #[trigger] snapshots@[b]).backend,
        decreases snapshots.len() - n,
    {
        if !snapshots[n].is_valid() || !route.has_backend(snapshots[n].backend()) {
            assert(!(snapshots@[n as int].valid() && route@.backends().contains(
                snapshots@[n as int].backend,
            )));
            return false;
        }
        let mut m: usize = 0;
        while m < n
            invariant
                m <= n < snapshots.len(),
                forall|a: int|
                    0 <= a < m ==> (#[trigger] snapshots@[a]).backend
                        != snapshots@[n as int].backend,
            decreases n - m,
        {
            if snapshots[m].backend() == snapshots[n].backend() {
                assert(snapshots@[m as int].backend == snapshots@[n as int].backend);
                return false;
            }
            m = m + 1;
        }
        n = n + 1;
    }
    true
}

impl DurableRunState {
    /// The state before the first event.
    pub fn initial(key: RunKey, budget: RunBudget, recovery_contract: RecoveryContract) -> (r: Self)
        ensures
            r@ == initial_state(key, budget, recovery_contract),
    {
        DurableRunState {
            key,
            budget,
            usage: BudgetUsage::unused(),
            status: RunStatus::Pending,
            audit_degraded: false,
            started_at_unix_millis: None,
            recovery_contract,
            last_sequence: None,
            event_chain_digest: Digest32::zero(),
            current_iteration: None,
            completed_iterations: 0,
            loop_position: DurableLoopPosition::NotStarted,
            continuation: ContinuationState::InitialBoundary,
            pending_effects: Vec::new(),
            pending_knowledge_retrieval: None,
            restartable_knowledge_retrieval: None,
            latest_knowledge_manifest: None,
            graph: None,
        }
    }

    pub fn set_started_at(&mut self, value: u64)
        ensures
            final(self)@ == (RunStateView {
                started_at_unix_millis: Some(value),
                ..old(self)@
            }),
    {
        self.started_at_unix_millis = Some(value);
    }

    pub fn set_audit_degraded(&mut self)
        ensures
            final(self)@ == (RunStateView { audit_degraded: true, ..old(self)@ }),
    {
        self.audit_degraded = true;
    }

    /// Takes one event into the state.
    pub fn apply(&mut self, event: &AgentEvent, encoding: &Option<Vec<u8>>) -> (r: Result<
        (),
        TransitionError,
    >)
        ensures
            (final(self)@, r) == reduce(old(self)@, *event, option_bytes(*encoding)),
    {
        if event.schema_version != CURRENT_EVENT_SCHEMA_VERSION || event.run_id
            != self.key.run_id() {
            return Err(TransitionError::IdentityOrVersion);
        }
        let expected = match self.last_sequence {
            None => EventSequence::new(0),
            Some(sequence) => match sequence.checked_next() {
                Some(next) => next,
                None => EventSequence::new(u64::MAX),
            },
        };
        if event.sequence() != expected {
            return Err(TransitionError::Sequence);
        }
        match self.apply_kind(&event.kind) {
            Ok(()) => {},
            Err(error) => {
                return Err(error);
            },
        }
        match encoding {
            None => Err(TransitionError::Encoding),
            Some(bytes) => {
                let mut chain: Vec<u8> = Vec::new();
                self.event_chain_digest.append_to(&mut chain);
                append_length(bytes.len(), &mut chain);
                chain.extend_from_slice(bytes.as_slice());
                proof {
                    assert(chain@ =~= old(self)@.event_chain_digest + length_frame(bytes@.len())
                        + bytes@);
                }
                self.event_chain_digest = Digest32::of(chain.as_slice());
                self.last_sequence = Some(event.sequence());
                Ok(())
            },
        }
    }

    /// Takes what an event says, whatever its place in the log.
    pub fn apply_kind(&mut self, kind: &AgentEventKind) -> (r: Result<(), TransitionError>)
        ensures
            (final(self)@, r) == reduce_kind(old(self)@, *kind),
            final(self)@.event_chain_digest == old(self)@.event_chain_digest,
    {
        match kind {
            AgentEventKind::RunStarted { started_at_unix_millis } => {
                if self.status != RunStatus::Pending {
                    return Err(TransitionError::Lifecycle);
                }
                if let Some(current) = self.started_at_unix_millis {
                    if current != *started_at_unix_millis {
                        return Err(TransitionError::Lifecycle);
                    }
                }
                self.started_at_unix_millis = Some(*started_at_unix_millis);
                self.status = RunStatus::Running;
                Ok(())
            },
            AgentEventKind::RunFinished { outcome } => {
                if self.status != RunStatus::Running {
                    return Err(TransitionError::Lifecycle);
                }
                self.status = RunStatus::Finished(*outcome);
                Ok(())
            },
            AgentEventKind::AuditDegraded => {
                self.audit_degraded = true;
                Ok(())
            },
            AgentEventKind::ModelInvocationStarted { model_call_id, usage, limit } => {
                if *limit != self.budget.max_model_calls || *usage != bump(self.usage.model_calls) {
                    return Err(TransitionError::Budget);
                }
                self.usage.model_calls = *usage;
                if self.graph.is_some() {
                    self.clear_anchor();
                    self.restartable_knowledge_retrieval = None;
                }
                self.pending_effects.push(PendingEffect::Model { model_call_id: *model_call_id });
                self.continuation = ContinuationState::TransientStateRequired;
                Ok(())
            },
            AgentEventKind::ModelInvocationCompleted { model_call_id, .. } => self.remove_pending(
                PendingEffectKey::Model(*model_call_id),
            ),
            AgentEventKind::ModelInvocationFailed { model_call_id } => self.remove_pending(
                PendingEffectKey::Model(*model_call_id),
            ),
            AgentEventKind::ApprovalRequested { approval_request_id, usage, limit, .. } => {
                match self.reserve_approval(*usage, *limit) {
                    Ok(()) => {
                        self.pending_effects.push(
                            PendingEffect::Approval { approval_request_id: *approval_request_id },
                        );
                        Ok(())
                    },
                    Err(error) => Err(error),
                }
            },
            AgentEventKind::ApprovalGranted { approval_request_id } => self.remove_pending(
                PendingEffectKey::Approval(*approval_request_id),
            ),
            AgentEventKind::ApprovalDenied { approval_request_id } => self.remove_pending(
                PendingEffectKey::Approval(*approval_request_id),
            ),
            AgentEventKind::ApprovalFailed { approval_request_id, .. } => self.remove_pending(
                PendingEffectKey::Approval(*approval_request_id),
            ),
            AgentEventKind::DurableApprovalPrepared { usage, limit, .. } => self.reserve_approval(
                *usage,
                *limit,
            ),
            AgentEventKind::DurableApprovalDecisionRecorded { .. }
            | AgentEventKind::DurableApprovalGranted { .. }
            | AgentEventKind::DurableApprovalDenied { .. } => Ok(()),
            AgentEventKind::ToolInvocationStarted {
                tool_call_id,
                capability,
                usage,
                limit,
                ..
            } => {
                if *limit != self.budget.max_tool_calls || *usage != bump(self.usage.tool_calls) {
                    return Err(TransitionError::Budget);
                }
                self.usage.tool_calls = *usage;
                self.pending_effects.push(
                    PendingEffect::Tool { tool_call_id: *tool_call_id, capability: *capability },
                );
                self.continuation = ContinuationState::TransientStateRequired;
                Ok(())
            },
            AgentEventKind::ToolInvocationCompleted { tool_call_id } => self.remove_pending(
                PendingEffectKey::Tool(*tool_call_id),
            ),
            AgentEventKind::ToolInvocationDomainFailed { tool_call_id, .. } => {
                self.remove_pending(PendingEffectKey::Tool(*tool_call_id))
            },
            AgentEventKind::ToolInvocationAdapterFailed { tool_call_id } => self.remove_pending(
                PendingEffectKey::Tool(*tool_call_id),
            ),
            AgentEventKind::KnowledgeRetrievalStarted {
                retrieval_id,
                route,
                query_digest,
                query_bytes,
            } => self.start_knowledge_retrieval(
                *retrieval_id,
                route.clone(),
                *query_digest,
                *query_bytes,
            ),
            AgentEventKind::KnowledgeRetrievalRestarted {
                previous_retrieval_id,
                retrieval_id,
                route,
                query_digest,
                query_bytes,
            } => {
                let same = match &self.pending_knowledge_retrieval {
                    None => false,
                    Some(pending) => pending.retrieval_id == *previous_retrieval_id
                        && pending.matches_request(route, *query_digest, *query_bytes),
                };
                if !same {
                    return Err(TransitionError::Effect);
                }
                self.pending_knowledge_retrieval = None;
                self.start_knowledge_retrieval(
                    *retrieval_id,
                    route.clone(),
                    *query_digest,
                    *query_bytes,
                )
            },
            AgentEventKind::KnowledgeRetrievalCompleted {
                retrieval_id,
                snapshots,
                evidence_references,
                evidence_count,
                manifest_digest,
                ..
            } => {
                let consistent = match &self.restartable_knowledge_retrieval {
                    None => false,
                    Some(attempt) => result_is_consistent(
                        &attempt.route,
                        snapshots,
                        evidence_references,
                        *evidence_count,
                    ),
                };
                if !consistent {
                    return Err(TransitionError::Effect);
                }
                match self.finish_knowledge_retrieval(*retrieval_id) {
                    Ok(()) => {},
                    Err(error) => {
                        return Err(error);
                    },
                }
                self.latest_knowledge_manifest = Some(
                    DurableKnowledgeManifest {
                        retrieval_id: *retrieval_id,
                        evidence_count: *evidence_count,
                        manifest_digest: *manifest_digest,
                    },
                );
                Ok(())
            },
            AgentEventKind::KnowledgeRetrievalFailed { retrieval_id, .. } => {
                match self.finish_knowledge_retrieval(*retrieval_id) {
                    Ok(()) => {},
                    Err(error) => {
                        return Err(error);
                    },
                }
                self.latest_knowledge_manifest = None;
                self.clear_anchor();
                Ok(())
            },
            AgentEventKind::ModelGroundingBound {
                retrieval_id,
                model_call_id,
                evidence_count,
                manifest_digest,
            } => {
                let bound = manifest_equal(
                    self.latest_knowledge_manifest,
                    Some(
                        DurableKnowledgeManifest {
                            retrieval_id: *retrieval_id,
                            evidence_count: *evidence_count,
                            manifest_digest: *manifest_digest,
                        },
                    ),
                );
                if !bound || self.pending_position(
                    PendingEffectKey::Model(*model_call_id),
                ).is_none() {
                    return Err(TransitionError::Effect);
                }
                self.continuation = ContinuationState::TransientStateRequired;
                Ok(())
            },
            AgentEventKind::Loop { event } => self.apply_loop(*event),
            AgentEventKind::Graph { event } => self.apply_graph(event),
            AgentEventKind::ActionProposed { .. }
            | AgentEventKind::ActionValidated { .. }
            | AgentEventKind::ActionRejected { .. }
            | AgentEventKind::ActionExecutionBound { .. }
            | AgentEventKind::ToolPolicyDenied { .. }
            | AgentEventKind::ContainmentFailed { .. } => {
                self.continuation = ContinuationState::TransientStateRequired;
                Ok(())
            },
        }
    }

    /// Takes what an event of the loop says.
    pub fn apply_loop(&mut self, event: LoopEventKind) -> (r: Result<(), TransitionError>)
        ensures
            (final(self)@, r) == reduce_loop(old(self)@, event),
            final(self)@.event_chain_digest == old(self)@.event_chain_digest,
    {
        match event {
            LoopEventKind::IterationStarted { iteration, usage, limit } => {
                if !(self.loop_position == DurableLoopPosition::Ready || self.loop_position
                    == DurableLoopPosition::NotStarted) || usage != bump(self.usage.iterations)
                    || limit != self.budget.max_iterations || iteration != usage {
                    return Err(TransitionError::Loop);
                }
                self.usage.iterations = usage;
                self.current_iteration = Some(iteration);
                self.loop_position = DurableLoopPosition::PhaseReady(LoopPhase::Observe);
                self.continuation = ContinuationState::TransientStateRequired;
                Ok(())
            },
            LoopEventKind::PhaseEntered { iteration, phase } => {
                if self.current_iteration != Some(iteration) || self.loop_position
                    != DurableLoopPosition::PhaseReady(phase) {
                    return Err(TransitionError::Loop);
                }
                self.loop_position = DurableLoopPosition::PhaseRunning(phase);
                Ok(())
            },
            LoopEventKind::PhaseCompleted { iteration, phase } => {
                if self.current_iteration != Some(iteration) || self.loop_position
                    != DurableLoopPosition::PhaseRunning(phase) {
                    return Err(TransitionError::Loop);
                }
                if phase == LoopPhase::Retrieve && self.pending_knowledge_retrieval.is_some() {
                    return Err(TransitionError::Effect);
                }
                self.loop_position = match phase.next_phase() {
                    Some(next) => DurableLoopPosition::PhaseReady(next),
                    None => DurableLoopPosition::ReflectCompleted,
                };
                if phase == LoopPhase::Retrieve {
                    self.restartable_knowledge_retrieval = None;
                }
                Ok(())
            },
            LoopEventKind::ReflectDecision { iteration, decision } => {
                if self.current_iteration != Some(iteration) || self.loop_position
                    != DurableLoopPosition::ReflectCompleted {
                    return Err(TransitionError::Loop);
                }
                self.completed_iterations = bump(self.completed_iterations);
                self.loop_position = DurableLoopPosition::ReflectDecided(decision);
                Ok(())
            },
            LoopEventKind::IterationCompleted { iteration } => {
                if self.current_iteration != Some(iteration) {
                    return Err(TransitionError::Loop);
                }
                match self.loop_position {
                    DurableLoopPosition::ReflectDecided(LoopDecisionKind::Continue) => {
                        self.current_iteration = None;
                        self.loop_position = DurableLoopPosition::Ready;
                        self.continuation = ContinuationState::RestartableBoundary;
                        Ok(())
                    },
                    DurableLoopPosition::ReflectDecided(_) => {
                        self.loop_position = DurableLoopPosition::Finished;
                        Ok(())
                    },
                    _ => Err(TransitionError::Loop),
                }
            },
            LoopEventKind::LoopCompleted { completed_iterations } => {
                if completed_iterations != self.completed_iterations {
                    return Err(TransitionError::Loop);
                }
                self.loop_position = DurableLoopPosition::Finished;
                Ok(())
            },
            LoopEventKind::LoopFailed { iteration, .. } => {
                if self.current_iteration != Some(iteration) {
                    return Err(TransitionError::Loop);
                }
                self.loop_position = DurableLoopPosition::Finished;
                Ok(())
            },
        }
    }

    /// Takes what an event of a graph says.
    pub fn apply_graph(&mut self, event: &GraphProgressEvent) -> (r: Result<(), TransitionError>)
        ensures
            (final(self)@, r) == reduce_graph(old(self)@, *event),
            final(self)@.event_chain_digest == old(self)@.event_chain_digest,
    {
        match event {
            GraphProgressEvent::GraphStarted {
                definition_digest,
                start_node,
                start_kind,
                start_recovery,
            } => {
                let contracted = match self.recovery_contract {
                    RecoveryContract::Graph { definition_digest: expected, .. } => expected
                        == *definition_digest,
                    _ => false,
                };
                if self.graph.is_some() || self.loop_position != DurableLoopPosition::NotStarted
                    || self.status != RunStatus::Running || !contracted || !valid_recovery_mode(
                    *start_kind,
                    *start_recovery,
                ) {
                    return Err(TransitionError::Graph);
                }
                self.graph = Some(
                    DurableGraphState {
                        definition_digest: *definition_digest,
                        position: DurableGraphPosition::Ready {
                            node_id: start_node.clone(),
                            node_kind: *start_kind,
                            recovery: *start_recovery,
                        },
                        steps: 0,
                        restart_anchor: None,
                    },
                );
                self.continuation = continuation_for(*start_recovery);
                Ok(())
            },
            GraphProgressEvent::GraphNodeEntered {
                attempt_id,
                node_id,
                node_kind,
                recovery,
                step,
                limit,
            } => {
                let at_node = match &self.graph {
                    None => false,
                    Some(graph) => match &graph.position {
                        DurableGraphPosition::Ready {
                            node_id: current_id,
                            node_kind: current_kind,
                            recovery: current_recovery,
                        } => *current_id == *node_id && *current_kind == *node_kind
                            && *current_recovery == *recovery,
                        _ => false,
                    },
                };
                if !at_node || !self.step_is_next(*step, *limit) || !valid_recovery_mode(
                    *node_kind,
                    *recovery,
                ) {
                    return Err(TransitionError::Graph);
                }
                self.run_node(*attempt_id, node_id, *node_kind, *recovery, *step);
                Ok(())
            },
            GraphProgressEvent::GraphNodeRestarted {
                previous_attempt_id,
                attempt_id,
                node_id,
                node_kind,
                recovery,
                step,
                limit,
            } => {
                let restartable = match &self.graph {
                    None => false,
                    Some(graph) => restart_allowed(
                        graph,
                        *previous_attempt_id,
                        node_id,
                        *node_kind,
                        *recovery,
                    ),
                };
                if !restartable || !self.step_is_next(*step, *limit) || !valid_recovery_mode(
                    *node_kind,
                    *recovery,
                ) {
                    return Err(TransitionError::Graph);
                }
                self.run_node(*attempt_id, node_id, *node_kind, *recovery, *step);
                Ok(())
            },
            GraphProgressEvent::GraphNodeCompleted {
                attempt_id,
                node_id,
                next_node,
                next_kind,
                next_recovery,
                ..
            } => {
                if !self.is_running_attempt(*attempt_id, node_id) || !self.is_quiescent()
                    || !valid_recovery_mode(*next_kind, *next_recovery) {
                    return Err(TransitionError::Graph);
                }
                self.move_to(
                    DurableGraphPosition::Ready {
                        node_id: next_node.clone(),
                        node_kind: *next_kind,
                        recovery: *next_recovery,
                    },
                );
                self.continuation = continuation_for(*next_recovery);
                Ok(())
            },
            GraphProgressEvent::GraphSuspended {
                attempt_id,
                node_id,
                wait_id,
                approval_request_id,
                action_proposal_id,
                tool_call_id,
                action_digest,
            } => {
                let running = match &self.graph {
                    None => false,
                    Some(graph) => match &graph.position {
                        DurableGraphPosition::Running {
                            attempt_id: current_attempt,
                            node_id: current_id,
                            node_kind,
                            recovery,
                        } => *current_attempt == *attempt_id && *current_id == *node_id
                            && *node_kind == GraphNodeKind::Action && *recovery
                            == GraphRecoveryMode::Never,
                        _ => false,
                    },
                };
                if !running || !self.is_quiescent() {
                    return Err(TransitionError::Graph);
                }
                self.move_to(
                    DurableGraphPosition::Waiting {
                        attempt_id: *attempt_id,
                        node_id: node_id.clone(),
                        wait_id: *wait_id,
                        approval_request_id: *approval_request_id,
                        action_proposal_id: *action_proposal_id,
                        tool_call_id: *tool_call_id,
                        action_digest: *action_digest,
                    },
                );
                self.clear_anchor();
                self.continuation = ContinuationState::RestartableBoundary;
                Ok(())
            },
            GraphProgressEvent::GraphResumed { attempt_id, node_id, wait_id } => {
                let waiting = match &self.graph {
                    None => false,
                    Some(graph) => match &graph.position {
                        DurableGraphPosition::Waiting {
                            attempt_id: current_attempt,
                            node_id: current_id,
                            wait_id: current_wait,
                            ..
                        } => *current_attempt == *attempt_id && *current_id == *node_id
                            && *current_wait == *wait_id,
                        _ => false,
                    },
                };
                if !waiting || self.pending_effects.len() != 0 {
                    return Err(TransitionError::Graph);
                }
                self.move_to(
                    DurableGraphPosition::Running {
                        attempt_id: *attempt_id,
                        node_id: node_id.clone(),
                        node_kind: GraphNodeKind::Action,
                        recovery: GraphRecoveryMode::Never,
                    },
                );
                self.continuation = ContinuationState::TransientStateRequired;
                Ok(())
            },
            GraphProgressEvent::GraphCompleted { attempt_id, node_id, steps } => {
                self.finish_graph_terminal(
                    *attempt_id,
                    node_id,
                    *steps,
                    Some(GraphNodeKind::Complete),
                    RunOutcome::Completed,
                )
            },
            GraphProgressEvent::GraphFailed {
                attempt_id,
                node_id,
                steps,
                failure,
                run_failure,
            } => {
                if *run_failure != (RunFailureKind::Graph { kind: *failure }) {
                    return Err(TransitionError::Graph);
                }
                self.finish_graph_terminal(
                    *attempt_id,
                    node_id,
                    *steps,
                    None,
                    RunOutcome::Failed { kind: *run_failure },
                )
            },
        }
    }

    fn finish_graph_terminal(
        &mut self,
        attempt_id: GraphNodeAttemptId,
        node_id: &GraphNodeId,
        steps: u32,
        expected_kind: Option<GraphNodeKind>,
        outcome: RunOutcome,
    ) -> (r: Result<(), TransitionError>)
        ensures
            (final(self)@, r) == graph_terminal(
                old(self)@,
                attempt_id,
                node_id@,
                steps,
                expected_kind,
                outcome,
            ),
            final(self)@.event_chain_digest == old(self)@.event_chain_digest,
    {
        let position_matches = match &self.graph {
            None => false,
            Some(graph) => graph.steps == steps && match &graph.position {
                DurableGraphPosition::Running {
                    attempt_id: current_attempt,
                    node_id: current_node,
                    node_kind,
                    recovery,
                } => *current_attempt == attempt_id && *current_node == *node_id
                    && match expected_kind {
                    None => true,
                    Some(expected) => *node_kind == expected && *recovery
                        == GraphRecoveryMode::Never,
                },
                _ => false,
            },
        };
        if !position_matches || !self.is_quiescent() || self.status != RunStatus::Running {
            return Err(TransitionError::Graph);
        }
        self.move_to(DurableGraphPosition::Finished);
        self.clear_anchor();
        self.status = RunStatus::Finished(outcome);
        self.continuation = ContinuationState::TransientStateRequired;
        Ok(())
    }

    fn step_is_next(&self, step: u32, limit: u32) -> (r: bool)
        requires
            self@.graph is Some,
        ensures
            r == step_fits(self@, step, limit),
    {
        match &self.graph {
            None => false,
            Some(graph) => limit == self.budget.max_graph_steps && limit != 0 && limit
                <= MAX_GRAPH_STEPS && step == bump(graph.steps) && step == bump(
                self.usage.graph_steps,
            ),
        }
    }

    fn is_running_attempt(&self, attempt_id: GraphNodeAttemptId, node_id: &GraphNodeId) -> (r: bool)
        ensures
            r == (self@.graph is Some && runs_attempt(self@, attempt_id, node_id@)),
    {
        match &self.graph {
            None => false,
            Some(graph) => match &graph.position {
                DurableGraphPosition::Running {
                    attempt_id: current_attempt,
                    node_id: current_id,
                    ..
                } => *current_attempt == attempt_id && *current_id == *node_id,
                _ => false,
            },
        }
    }

    fn move_to(&mut self, position: DurableGraphPosition)
        requires
            old(self)@.graph is Some,
        ensures
            final(self)@ == old(self)@.at(position@),
    {
        if let Some(graph) = &mut self.graph {
            graph.position = position;
        }
    }

    fn clear_anchor(&mut self)
        ensures
            final(self)@ == old(self)@.without_anchor(),
    {
        if let Some(graph) = &mut self.graph {
            graph.restart_anchor = None;
        }
    }

    fn run_node(
        &mut self,
        attempt_id: GraphNodeAttemptId,
        node_id: &GraphNodeId,
        node_kind: GraphNodeKind,
        recovery: GraphRecoveryMode,
        step: u32,
    )
        requires
            old(self)@.graph is Some,
        ensures
            final(self)@ == node_running(
                old(self)@,
                attempt_id,
                node_id@,
                node_kind,
                recovery,
                step,
            ),
    {
        if let Some(graph) = &mut self.graph {
            graph.steps = step;
            graph.position = DurableGraphPosition::Running {
                attempt_id,
                node_id: node_id.clone(),
                node_kind,
                recovery,
            };
            if recovery == GraphRecoveryMode::FreshRetrieval {
                graph.restart_anchor = Some(
                    GraphRestartAnchor { node_id: node_id.clone(), attempt_id },
                );
            }
        }
        self.usage.graph_steps = step;
        self.continuation = ContinuationState::TransientStateRequired;
    }

    fn reserve_approval(&mut self, usage: u32, limit: u32) -> (r: Result<(), TransitionError>)
        ensures
            (final(self)@, r) == approval_reserved(old(self)@, usage, limit),
    {
        if limit != self.budget.max_approval_requests || usage != bump(
            self.usage.approval_requests,
        ) {
            return Err(TransitionError::Budget);
        }
        self.usage.approval_requests = usage;
        self.continuation = ContinuationState::TransientStateRequired;
        Ok(())
    }

    fn pending_position(&self, key: PendingEffectKey) -> (r: Option<usize>)
        ensures
            r is Some <==> is_pending(self@.pending_effects, key),
            r matches Some(i) ==> first_named(self@.pending_effects, key, i as int),
    {
        let mut i: usize = 0;
        while i < self.pending_effects.len()
            invariant
                i <= self.pending_effects.len(),
                forall|j: int| 0 <= j < i ==> !key.names(#[trigger] self.pending_effects@[j]),
            decreases self.pending_effects.len() - i,
        {
            if key.matches(self.pending_effects[i]) {
                assert(first_named(self.pending_effects@, key, i as int));
                return Some(i);
            }
            i = i + 1;
        }
        None
    }

    fn remove_pending(&mut self, key: PendingEffectKey) -> (r: Result<(), TransitionError>)
        ensures
            (final(self)@, r) == old(self)@.effect_over(key),
    {
        match self.pending_position(key) {
            None => Err(TransitionError::Effect),
            Some(position) => {
                proof {
                    let chosen = choose|i: int| first_named(self.pending_effects@, key, i);
                    assert(first_named(self.pending_effects@, key, chosen));
                    assert(chosen == position);
                }
                self.pending_effects.remove(position);
                Ok(())
            },
        }
    }

    fn start_knowledge_retrieval(
        &mut self,
        retrieval_id: KnowledgeRetrievalId,
        route: KnowledgeRouteMetadata,
        query_digest: Digest32,
        query_bytes: u16,
    ) -> (r: Result<(), TransitionError>)
        ensures
            (final(self)@, r) == old(self)@.retrieval_started(
                RetrievalView { retrieval_id, route: route@, query_digest, query_bytes },
            ),
    {
        let graph_retrieving = match &self.graph {
            None => false,
            Some(graph) => match &graph.position {
                DurableGraphPosition::Running { node_kind, recovery, .. } => *node_kind
                    == GraphNodeKind::Retrieve && *recovery == GraphRecoveryMode::FreshRetrieval,
                _ => false,
            },
        };
        if self.pending_knowledge_retrieval.is_some() || !route.is_valid() || query_bytes == 0
            || query_bytes as usize > MAX_QUERY_BYTES || (self.loop_position
            != DurableLoopPosition::PhaseRunning(LoopPhase::Retrieve) && !graph_retrieving) {
            return Err(TransitionError::Effect);
        }
        let pending = PendingKnowledgeRetrieval { retrieval_id, route, query_digest, query_bytes };
        self.pending_knowledge_retrieval = Some(pending.clone());
        self.restartable_knowledge_retrieval = Some(pending);
        self.latest_knowledge_manifest = None;
        self.continuation = ContinuationState::TransientStateRequired;
        Ok(())
    }

    fn finish_knowledge_retrieval(&mut self, retrieval_id: KnowledgeRetrievalId) -> (r: Result<
        (),
        TransitionError,
    >)
        ensures
            (final(self)@, r) == (if old(self)@.retrieval_pending(retrieval_id) {
                accept((RunStateView { pending_knowledge_retrieval: None, ..old(self)@ }))
            } else {
                refuse(old(self)@, TransitionError::Effect)
            }),
    {
        let is_pending = match &self.pending_knowledge_retrieval {
            None => false,
            Some(pending) => pending.retrieval_id == retrieval_id,
        };
        if !is_pending {
            return Err(TransitionError::Effect);
        }
        self.pending_knowledge_retrieval = None;
        Ok(())
    }

    pub fn key(&self) -> (r: RunKey)
        ensures
            r == self@.key,
    {
        self.key
    }

    pub fn budget(&self) -> (r: &RunBudget)
        ensures
            *r == self@.budget,
    {
        &self.budget
    }

    pub fn usage(&self) -> (r: BudgetUsage)
        ensures
            r == self@.usage,
    {
        self.usage
    }

    pub fn status(&self) -> (r: RunStatus)
        ensures
            r == self@.status,
    {
        self.status
    }

    pub fn audit_degraded(&self) -> (r: bool)
        ensures
            r == self@.audit_degraded,
    {
        self.audit_degraded
    }

    pub fn started_at_unix_millis(&self) -> (r: Option<u64>)
        ensures
            r == self@.started_at_unix_millis,
    {
        self.started_at_unix_millis
    }

    pub fn last_sequence(&self) -> (r: Option<EventSequence>)
        ensures
            r == self@.last_sequence,
    {
        self.last_sequence
    }

    pub fn event_chain_digest(&self) -> (r: Digest32)
        ensures
            r@ == self@.event_chain_digest,
    {
        self.event_chain_digest
    }

    pub fn loop_position(&self) -> (r: DurableLoopPosition)
        ensures
            r == self@.loop_position,
    {
        self.loop_position
    }

    pub fn current_iteration(&self) -> (r: Option<u32>)
        ensures
            r == self@.current_iteration,
    {
        self.current_iteration
    }

    pub fn completed_iterations(&self) -> (r: u32)
        ensures
            r == self@.completed_iterations,
    {
        self.completed_iterations
    }

    pub fn continuation(&self) -> (r: ContinuationState)
        ensures
            r == self@.continuation,
    {
        self.continuation
    }

    pub fn pending_effects(&self) -> (r: &[PendingEffect])
        ensures
            r@ == self@.pending_effects,
    {
        self.pending_effects.as_slice()
    }

    pub fn pending_knowledge_retrieval(&self) -> (r: Option<&PendingKnowledgeRetrieval>)
        ensures
            r is Some <==> self@.pending_knowledge_retrieval is Some,
            r matches Some(pending) ==> Some(pending@) == self@.pending_knowledge_retrieval,
    {
        self.pending_knowledge_retrieval.as_ref()
    }

    pub fn restartable_knowledge_retrieval(&self) -> (r: Option<&PendingKnowledgeRetrieval>)
        ensures
            r is Some <==> self@.restartable_knowledge_retrieval is Some,
            r matches Some(attempt) ==> Some(attempt@) == self@.restartable_knowledge_retrieval,
    {
        self.restartable_knowledge_retrieval.as_ref()
    }

    pub fn graph(&self) -> (r: Option<&DurableGraphState>)
        ensures
            r is Some <==> self@.graph is Some,
            r matches Some(graph) ==> Some(graph@) == self@.graph,
    {
        self.graph.as_ref()
    }

    pub fn recovery_contract(&self) -> (r: RecoveryContract)
        ensures
            r == self@.recovery_contract,
    {
        self.recovery_contract
    }

    pub fn is_quiescent(&self) -> (r: bool)
        ensures
            r == self@.quiescent(),
    {
        self.pending_effects.len() == 0 && self.pending_knowledge_retrieval.is_none()
    }

    /// Whether two states say the same.
    pub fn same_as(&self, other: &DurableRunState) -> (r: bool)
        ensures
            r == (self@ == other@),
    {
        proof {
            crate::digest::digest_ext(self.event_chain_digest, other.event_chain_digest);
        }
        let same = self.key == other.key && self.budget == other.budget && self.usage == other.usage
            && self.status == other.status && self.audit_degraded == other.audit_degraded
            && self.started_at_unix_millis == other.started_at_unix_millis
            && self.recovery_contract == other.recovery_contract && self.last_sequence
            == other.last_sequence && self.event_chain_digest == other.event_chain_digest
            && self.current_iteration == other.current_iteration && self.completed_iterations
            == other.completed_iterations && self.loop_position == other.loop_position
            && self.continuation == other.continuation && effects_equal(
            &self.pending_effects,
            &other.pending_effects,
        ) && retrieval_equal(
            &self.pending_knowledge_retrieval,
            &other.pending_knowledge_retrieval,
        ) && retrieval_equal(
            &self.restartable_knowledge_retrieval,
            &other.restartable_knowledge_retrieval,
        ) && manifest_equal(
            self.latest_knowledge_manifest,
            other.latest_knowledge_manifest,
        ) && graph_equal(&self.graph, &other.graph);
        same
    }
}

impl Clone for DurableRunState {
    fn clone(&self) -> (r: Self)
        ensures
            r@ == self@,
    {
        let r = DurableRunState {
            key: self.key,
            budget: self.budget,
            usage: self.usage,
            status: self.status,
            audit_degraded: self.audit_degraded,
            started_at_unix_millis: self.started_at_unix_millis,
            recovery_contract: self.recovery_contract,
            last_sequence: self.last_sequence,
            event_chain_digest: self.event_chain_digest,
            current_iteration: self.current_iteration,
            completed_iterations: self.completed_iterations,
            loop_position: self.loop_position,
            continuation: self.continuation,
            pending_effects: effects_copy(&self.pending_effects),
            pending_knowledge_retrieval: clone_retrieval(&self.pending_knowledge_retrieval),
            restartable_knowledge_retrieval: clone_retrieval(
                &self.restartable_knowledge_retrieval,
            ),
            latest_knowledge_manifest: self.latest_knowledge_manifest,
            graph: clone_graph(&self.graph),
        };
        assert(r@ =~= self@);
        r
    }
}

fn restart_allowed(
    graph: &DurableGraphState,
    previous_attempt_id: Option<GraphNodeAttemptId>,
    node_id: &GraphNodeId,
    node_kind: GraphNodeKind,
    recovery: GraphRecoveryMode,
) -> (r: bool)
    ensures
        r == may_restart(graph@, previous_attempt_id, node_id@, node_kind, recovery),
{
    let direct = match &graph.position {
        DurableGraphPosition::Ready {
            node_id: current_id,
            node_kind: current_kind,
            recovery: current_recovery,
        } => *current_id == *node_id && *current_kind == node_kind && *current_recovery == recovery
            && previous_attempt_id.is_none() && recovery != GraphRecoveryMode::Never,
        DurableGraphPosition::Running {
            attempt_id: current_attempt,
            node_id: current_id,
            node_kind: current_kind,
            recovery: current_recovery,
        } => *current_id == *node_id && *current_kind == node_kind && *current_recovery == recovery
            && previous_attempt_id == Some(*current_attempt) && recovery
            != GraphRecoveryMode::Never,
        _ => false,
    };
    let anchored = match &graph.restart_anchor {
        None => false,
        Some(anchor) => anchor.node_id == *node_id && recovery == GraphRecoveryMode::FreshRetrieval
            && previous_attempt_id == Some(anchor.attempt_id),
    };
    direct || anchored
}

fn effects_equal(a: &Vec<PendingEffect>, b: &Vec<PendingEffect>) -> (r: bool)
    ensures
        r == (a@ == b@),
{
    if a.len() != b.len() {
        return false;
    }
    let mut i: usize = 0;
    while i < a.len()
        invariant
            i <= a.len() == b.len(),
            forall|j: int| 0 <= j < i ==> a@[j] == b@[j],
        decreases a.len() - i,
    {
        if a[i] != b[i] {
            return false;
        }
        i = i + 1;
    }
    assert(a@ =~= b@);
    true
}

fn effects_copy(effects: &Vec<PendingEffect>) -> (r: Vec<PendingEffect>)
    ensures
        r@ == effects@,
{
    let mut out: Vec<PendingEffect> = Vec::new();
    let mut i: usize = 0;
    while i < effects.len()
        invariant
            i <= effects.len(),
            out@ =~= effects@.subrange(0, i as int),
        decreases effects.len() - i,
    {
        out.push(effects[i]);
        i = i + 1;
    }
    assert(out@ =~= effects@);
    out
}

} // verus!
