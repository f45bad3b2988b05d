//! Which events a run takes, and what each of them changes.

use vstd::prelude::*;

use crate::budget::{BudgetUsage, RunBudget};
use crate::digest::{length_frame, sha256, Digest32};
use crate::events::{
    AgentEvent, AgentEventKind, EventSequence, GraphNodeKind, GraphProgressEvent,
    GraphRecoveryMode, LoopEventKind,
};
use crate::ids::{
    ApprovalRequestId, GraphNodeAttemptId, GraphNodeId, KnowledgeRetrievalId, ModelCallId,
    ToolCallId,
};
use crate::metadata::KnowledgeRouteMetadata;
use crate::persistence::{predecessor, RecoveryContract, RunKey};
use crate::positions::{
    first_named, is_pending, without, AnchorView, ContinuationState, DurableKnowledgeManifest,
    DurableLoopPosition, GraphPositionView, GraphView, PendingEffect, PendingEffectKey, RetrievalView,
};
use crate::recovery::{
    initial_state, next_sequence, reduce, reduce_graph, reduce_kind, reduce_loop, RunStateView,
    TransitionError,
};
use crate::status::{LoopDecisionKind, LoopPhase, RunFailureKind, RunOutcome, RunStatus};

verus! {

/// An event is taken only under the current schema, of the run itself, in the next place of the
/// log, and with its encoding; and whatever its kind is refused is refused. Taking it changes what
/// its kind changes, and beside that only the place in the log and the digest of the log.
pub proof fn law_event_is_taken_in_its_place(
    state: RunStateView,
    event: AgentEvent,
    encoding: Option<Seq<u8>>,
)
    ensures
        ({
            let (after, result) = reduce(state, event, encoding);
            let next = match state.last_sequence {
                None => 0,
                Some(last) => if last.0 == u64::MAX {
                    u64::MAX as int
                } else {
                    last.0 + 1
                },
            };
            &&& result is Ok <==> {
                &&& event.schema_version == 5
                &&& event.run_id == state.key.run_id
                &&& event.sequence.0 == next
                &&& encoding is Some
                &&& reduce_kind(state, event.kind).1 is Ok
            }
            &&& result is Ok ==> {
                &&& after.last_sequence == Some(event.sequence)
                &&& after.event_chain_digest == sha256(
                    state.event_chain_digest + length_frame(encoding->0.len()) + encoding->0,
                )
                &&& after == (RunStateView {
                    last_sequence: after.last_sequence,
                    event_chain_digest: after.event_chain_digest,
                    ..reduce_kind(state, event.kind).0
                })
            }
            &&& result is Err ==> after.last_sequence == state.last_sequence
                && after.event_chain_digest == state.event_chain_digest
        }),
{
    kind_keeps_place(state, event.kind);
}

#[verifier::rlimit(40)]
proof fn kind_keeps_place(state: RunStateView, kind: AgentEventKind)
    ensures
        reduce_kind(state, kind).0.last_sequence == state.last_sequence,
        reduce_kind(state, kind).0.event_chain_digest == state.event_chain_digest,
{
    match kind {
        AgentEventKind::Loop { event } => {},
        AgentEventKind::Graph { event } => {},
        _ => {},
    }
}

/// A run starts once, while it is pending, at the time that its start says.
pub proof fn law_run_starts_once(state: RunStateView, millis: u64)
    ensures
        ({
            let (after, result) = reduce_kind(
                state,
                AgentEventKind::RunStarted { started_at_unix_millis: millis },
            );
            &&& result is Ok <==> state.status == RunStatus::Pending && (
            state.started_at_unix_millis is None || state.started_at_unix_millis == Some(millis))
            &&& result is Ok ==> after == (RunStateView {
                status: RunStatus::Running,
                started_at_unix_millis: Some(millis),
                ..state
            })
            &&& result is Err ==> after == state
        }),
{
}

/// A run finishes once, while it runs, with the outcome that its end says, and nothing else of it
/// changes.
pub proof fn law_run_finishes_once(state: RunStateView, outcome: RunOutcome)
    ensures
        ({
            let (after, result) = reduce_kind(state, AgentEventKind::RunFinished { outcome });
            &&& result is Ok <==> state.status == RunStatus::Running
            &&& result is Ok ==> after == (RunStateView {
                status: RunStatus::Finished(outcome),
                ..state
            })
            &&& result is Err ==> after == state
        }),
{
}

/// The mark of a degraded audit is always taken, and changes nothing else.
pub proof fn law_degraded_audit_is_marked(state: RunStateView)
    ensures
        reduce_kind(state, AgentEventKind::AuditDegraded) == (
            RunStateView { audit_degraded: true, ..state },
            Ok::<(), TransitionError>(()),
        ),
{
}

/// One more than a count, which stays at its highest.
pub open spec fn one_more(count: u32) -> int {
    if count == u32::MAX {
        u32::MAX as int
    } else {
        count + 1
    }
}

/// A model call is recorded as the next one under the run's own limit. It is counted once, and it
/// is pending until it ends; a graph no longer starts afresh from its anchor.
pub proof fn law_model_call_is_counted(
    state: RunStateView,
    model_call_id: ModelCallId,
    usage: u32,
    limit: u32,
)
    ensures
        ({
            let (after, result) = reduce_kind(
                state,
                AgentEventKind::ModelInvocationStarted { model_call_id, usage, limit },
            );
            &&& result is Ok <==> limit == state.budget.max_model_calls && usage == one_more(
                state.usage.model_calls,
            )
            &&& result is Ok ==> {
                &&& after.usage == (BudgetUsage { model_calls: usage, ..state.usage })
                &&& after.pending_effects == state.pending_effects.push(
                    PendingEffect::Model { model_call_id },
                )
                &&& after.continuation == ContinuationState::TransientStateRequired
                &&& state.graph is None ==> after.graph is None
                    && after.restartable_knowledge_retrieval
                    == state.restartable_knowledge_retrieval
                &&& state.graph matches Some(graph) ==> after.graph == Some(
                    GraphView { restart_anchor: None, ..graph },
                ) && after.restartable_knowledge_retrieval is None
            }
            &&& result is Err ==> after == state
            &&& after == (RunStateView {
                usage: after.usage,
                pending_effects: after.pending_effects,
                continuation: after.continuation,
                graph: after.graph,
                restartable_knowledge_retrieval: after.restartable_knowledge_retrieval,
                ..state
            })
        }),
{
    let (after, result) = reduce_kind(
        state,
        AgentEventKind::ModelInvocationStarted { model_call_id, usage, limit },
    );
    assert(after =~= (RunStateView {
        usage: after.usage,
        pending_effects: after.pending_effects,
        continuation: after.continuation,
        graph: after.graph,
        restartable_knowledge_retrieval: after.restartable_knowledge_retrieval,
        ..state
    }));
}

/// A tool call is recorded as the next one under the run's own limit. It is counted once, and it is
/// pending, with its capability, until it ends.
pub proof fn law_tool_call_is_counted(
    state: RunStateView,
    kind: AgentEventKind,
)
    requires
        kind is ToolInvocationStarted,
    ensures
        ({
            let (after, result) = reduce_kind(state, kind);
            let usage = kind->ToolInvocationStarted_usage;
            &&& result is Ok <==> kind->ToolInvocationStarted_limit == state.budget.max_tool_calls
                && usage == one_more(state.usage.tool_calls)
            &&& result is Ok ==> after == (RunStateView {
                usage: BudgetUsage { tool_calls: usage, ..state.usage },
                pending_effects: state.pending_effects.push(
                    PendingEffect::Tool {
                        tool_call_id: kind->ToolInvocationStarted_tool_call_id,
                        capability: kind->ToolInvocationStarted_capability,
                    },
                ),
                continuation: ContinuationState::TransientStateRequired,
                ..state
            })
            &&& result is Err ==> after == state
        }),
{
}

/// A request for approval is recorded as the next one under the run's own limit, whether it is
/// asked for at once or kept for later. It is counted once; only the first is pending.
pub proof fn law_approval_request_is_counted(state: RunStateView, kind: AgentEventKind)
    requires
        kind is ApprovalRequested || kind is DurableApprovalPrepared,
    ensures
        ({
            let (after, result) = reduce_kind(state, kind);
            let (usage, limit) = match kind {
                AgentEventKind::ApprovalRequested { usage, limit, .. } => (usage, limit),
                AgentEventKind::DurableApprovalPrepared { usage, limit, .. } => (usage, limit),
                _ => (0, 0),
            };
            let pending = match kind {
                AgentEventKind::ApprovalRequested { approval_request_id, .. } => {
                    state.pending_effects.push(PendingEffect::Approval { approval_request_id })
                },
                _ => state.pending_effects,
            };
            &&& result is Ok <==> limit == state.budget.max_approval_requests && usage == one_more(
                state.usage.approval_requests,
            )
            &&& result is Ok ==> after == (RunStateView {
                usage: BudgetUsage { approval_requests: usage, ..state.usage },
                pending_effects: pending,
                continuation: ContinuationState::TransientStateRequired,
                ..state
            })
            &&& result is Err ==> after == state
        }),
{
}

/// The end of a call is taken exactly where that very call is pending: a model call by its id, an
/// approval by its request, a tool call by its id.
pub proof fn law_only_a_pending_call_ends(
    state: RunStateView,
    model_call_id: ModelCallId,
    approval_request_id: ApprovalRequestId,
    tool_call_id: ToolCallId,
    end: AgentEventKind,
)
    ensures
        end == (AgentEventKind::ModelInvocationFailed { model_call_id }) || (
        end matches AgentEventKind::ModelInvocationCompleted { model_call_id: ended, .. } && ended
            == model_call_id) ==> (reduce_kind(state, end).1 is Ok <==> exists|i: int|
            0 <= i < state.pending_effects.len() && #[trigger] state.pending_effects[i] == (
            PendingEffect::Model { model_call_id })),
        end == (AgentEventKind::ApprovalGranted { approval_request_id }) || end == (
        AgentEventKind::ApprovalDenied { approval_request_id }) || (
        end matches AgentEventKind::ApprovalFailed { approval_request_id: ended, .. } && ended
            == approval_request_id) ==> (reduce_kind(state, end).1 is Ok <==> exists|i: int|
            0 <= i < state.pending_effects.len() && #[trigger] state.pending_effects[i] == (
            PendingEffect::Approval { approval_request_id })),
        end == (AgentEventKind::ToolInvocationCompleted { tool_call_id }) || end == (
        AgentEventKind::ToolInvocationAdapterFailed { tool_call_id }) || (
        end matches AgentEventKind::ToolInvocationDomainFailed { tool_call_id: ended, .. } && ended
            == tool_call_id) ==> (reduce_kind(state, end).1 is Ok <==> exists|i: int|
            0 <= i < state.pending_effects.len() && (#[trigger] state.pending_effects[i] matches
            PendingEffect::Tool { tool_call_id: pending, .. } && pending == tool_call_id)),
        reduce_kind(state, end).1 is Err && (end is ModelInvocationCompleted
            || end is ModelInvocationFailed || end is ApprovalGranted || end is ApprovalDenied
            || end is ApprovalFailed || end is ToolInvocationCompleted
            || end is ToolInvocationAdapterFailed || end is ToolInvocationDomainFailed)
            ==> reduce_kind(state, end).0 == state,
{
    let effects = state.pending_effects;
    pending_is_named(effects, PendingEffectKey::Model(model_call_id));
    pending_is_named(effects, PendingEffectKey::Approval(approval_request_id));
    pending_is_named(effects, PendingEffectKey::Tool(tool_call_id));
    if exists|i: int| 0 <= i < effects.len() && #[trigger] effects[i] == (PendingEffect::Model {
        model_call_id,
    }) {
        let i = choose|i: int| 0 <= i < effects.len() && #[trigger] effects[i] == (
        PendingEffect::Model { model_call_id });
        assert(PendingEffectKey::Model(model_call_id).names(effects[i]));
    }
    if exists|i: int| 0 <= i < effects.len() && #[trigger] effects[i] == (PendingEffect::Approval {
        approval_request_id,
    }) {
        let i = choose|i: int| 0 <= i < effects.len() && #[trigger] effects[i] == (
        PendingEffect::Approval { approval_request_id });
        assert(PendingEffectKey::Approval(approval_request_id).names(effects[i]));
    }
    if exists|i: int| 0 <= i < effects.len() && (#[trigger] effects[i] matches PendingEffect::Tool {
        tool_call_id: pending,
        ..
    } && pending == tool_call_id) {
        let i = choose|i: int| 0 <= i < effects.len() && (#[trigger] effects[i] matches
            PendingEffect::Tool { tool_call_id: pending, .. } && pending == tool_call_id);
        assert(PendingEffectKey::Tool(tool_call_id).names(effects[i]));
    }
}

proof fn pending_is_named(effects: Seq<PendingEffect>, key: PendingEffectKey)
    ensures
        is_pending(effects, key) <==> exists|i: int|
            0 <= i < effects.len() && key.names(#[trigger] effects[i]),
{
    if exists|i: int| 0 <= i < effects.len() && key.names(#[trigger] effects[i]) {
        let i = choose|i: int| 0 <= i < effects.len() && key.names(#[trigger] effects[i]);
        first_is_found(effects, key, i);
    }
    if is_pending(effects, key) {
        let i = choose|i: int| first_named(effects, key, i);
        assert(key.names(effects[i]));
    }
}

proof fn first_is_found(effects: Seq<PendingEffect>, key: PendingEffectKey, i: int)
    requires
        0 <= i < effects.len(),
        key.names(effects[i]),
    ensures
        is_pending(effects, key),
    decreases i,
{
    if first_named(effects, key, i) {
    } else {
        let j = choose|j: int| 0 <= j < i && key.names(#[trigger] effects[j]);
        first_is_found(effects, key, j);
    }
}

/// What is proposed, validated, rejected, bound, denied or not contained is always taken, and only
/// tells that the run now depends on what its process knows. What becomes of a kept approval is
/// taken, and changes nothing.
pub proof fn law_telling_events_change_nothing_else(state: RunStateView, kind: AgentEventKind)
    ensures
        kind is ActionProposed || kind is ActionValidated || kind is ActionRejected
            || kind is ActionExecutionBound || kind is ToolPolicyDenied || kind is ContainmentFailed
            ==> reduce_kind(state, kind).1 is Ok && reduce_kind(state, kind).0 == (RunStateView {
            continuation: ContinuationState::TransientStateRequired,
            ..state
        }),
        kind is DurableApprovalDecisionRecorded || kind is DurableApprovalGranted
            || kind is DurableApprovalDenied ==> reduce_kind(state, kind).1 is Ok && reduce_kind(
            state,
            kind,
        ).0 == state,
{
}

/// The run is retrieving: its loop is in the retrieve phase, or its graph runs a node that
/// retrieves.
pub open spec fn at_retrieval(state: RunStateView) -> bool {
    ||| state.loop_position == DurableLoopPosition::PhaseRunning(LoopPhase::Retrieve)
    ||| (state.graph matches Some(graph) && (graph.position matches GraphPositionView::Running {
        node_kind,
        recovery,
        ..
    } && node_kind == GraphNodeKind::Retrieve && recovery == GraphRecoveryMode::FreshRetrieval))
}

/// A retrieval starts where the run retrieves, one at a time, on a route that names each backend
/// once, with a question of one to 1024 bytes. It is then the one that is pending and the one that
/// may be issued afresh, and nothing of an earlier one is left to ground a model on.
pub proof fn law_retrieval_starts_where_it_may(
    state: RunStateView,
    retrieval_id: KnowledgeRetrievalId,
    route: KnowledgeRouteMetadata,
    query_digest: Digest32,
    query_bytes: u16,
)
    ensures
        ({
            let (after, result) = reduce_kind(
                state,
                AgentEventKind::KnowledgeRetrievalStarted {
                    retrieval_id,
                    route,
                    query_digest,
                    query_bytes,
                },
            );
            let started = RetrievalView { retrieval_id, route: route@, query_digest, query_bytes };
            &&& result is Ok <==> state.pending_knowledge_retrieval is None && route@.valid() && 1
                <= query_bytes <= 1024 && at_retrieval(state)
            &&& result is Ok ==> after == (RunStateView {
                pending_knowledge_retrieval: Some(started),
                restartable_knowledge_retrieval: Some(started),
                latest_knowledge_manifest: None,
                continuation: ContinuationState::TransientStateRequired,
                ..state
            })
            &&& result is Err ==> after == state
        }),
{
}

/// A retrieval that is pending may be issued afresh, with the same question on the same route and
/// no other, and is then pending under its new id.
pub proof fn law_retrieval_restarts_with_its_question(
    state: RunStateView,
    previous_retrieval_id: KnowledgeRetrievalId,
    retrieval_id: KnowledgeRetrievalId,
    route: KnowledgeRouteMetadata,
    query_digest: Digest32,
    query_bytes: u16,
)
    ensures
        ({
            let (after, result) = reduce_kind(
                state,
                AgentEventKind::KnowledgeRetrievalRestarted {
                    previous_retrieval_id,
                    retrieval_id,
                    route,
                    query_digest,
                    query_bytes,
                },
            );
            let before = RetrievalView {
                retrieval_id: previous_retrieval_id,
                route: route@,
                query_digest,
                query_bytes,
            };
            let started = RetrievalView { retrieval_id, route: route@, query_digest, query_bytes };
            &&& result is Ok <==> state.pending_knowledge_retrieval == Some(before)
                && route@.valid() && 1 <= query_bytes <= 1024 && at_retrieval(state)
            &&& result is Ok ==> after == (RunStateView {
                pending_knowledge_retrieval: Some(started),
                restartable_knowledge_retrieval: Some(started),
                latest_knowledge_manifest: None,
                continuation: ContinuationState::TransientStateRequired,
                ..state
            })
        }),
{
}

/// A retrieval that is pending completes with what belongs to it: as many references as it says,
/// eight at most, two snapshots at most and one for each backend, all of them of backends on its
/// route. It is then no longer pending, and its manifest is what a model may be grounded on.
pub proof fn law_retrieval_completes_with_what_belongs_to_it(
    state: RunStateView,
    kind: AgentEventKind,
)
    requires
        kind is KnowledgeRetrievalCompleted,
    ensures
        ({
            let (after, result) = reduce_kind(state, kind);
            let retrieval_id = kind->KnowledgeRetrievalCompleted_retrieval_id;
            let count = kind->KnowledgeRetrievalCompleted_evidence_count;
            let references = kind->KnowledgeRetrievalCompleted_evidence_references@;
            let snapshots = kind->KnowledgeRetrievalCompleted_snapshots@;
            &&& result is Ok ==> {
                let route = state.restartable_knowledge_retrieval->0.route;
                &&& state.restartable_knowledge_retrieval is Some
                &&& state.pending_knowledge_retrieval matches Some(pending) && pending.retrieval_id
                    == retrieval_id
                &&& references.len() == count <= 8
                &&& snapshots.len() <= 2
                &&& forall|i: int|
                    0 <= i < references.len() ==> (#[trigger] references[i]).valid()
                        && route.backends().contains(references[i].backend)
                &&& forall|i: int|
                    0 <= i < snapshots.len() ==> (#[trigger] snapshots[i]).valid()
                        && route.backends().contains(snapshots[i].backend)
                &&& forall|i: int, j: int|
                    0 <= i < j < snapshots.len() ==> (#[trigger] snapshots[i]).backend != (
                    #[trigger] snapshots[j]).backend
                &&& after == (RunStateView {
                    pending_knowledge_retrieval: None,
                    latest_knowledge_manifest: Some(
                        DurableKnowledgeManifest {
                            retrieval_id,
                            evidence_count: count,
                            manifest_digest: kind->KnowledgeRetrievalCompleted_manifest_digest,
                        },
                    ),
                    ..state
                })
            }
            &&& result is Err ==> after == state
        }),
{
}

/// A completion that belongs to the pending retrieval is taken.
pub proof fn law_retrieval_completion_is_taken(
    state: RunStateView,
    kind: AgentEventKind,
    retrieval: RetrievalView,
)
    requires
        kind is KnowledgeRetrievalCompleted,
        state.pending_knowledge_retrieval == Some(retrieval),
        state.restartable_knowledge_retrieval == Some(retrieval),
        kind->KnowledgeRetrievalCompleted_retrieval_id == retrieval.retrieval_id,
        ({
            let references = kind->KnowledgeRetrievalCompleted_evidence_references@;
            let snapshots = kind->KnowledgeRetrievalCompleted_snapshots@;
            &&& references.len() == kind->KnowledgeRetrievalCompleted_evidence_count <= 8
            &&& snapshots.len() <= 2
            &&& forall|i: int|
                0 <= i < references.len() ==> (#[trigger] references[i]).valid()
                    && retrieval.route.backends().contains(references[i].backend)
            &&& forall|i: int|
                0 <= i < snapshots.len() ==> (#[trigger] snapshots[i]).valid()
                    && retrieval.route.backends().contains(snapshots[i].backend)
            &&& forall|i: int, j: int|
                0 <= i < j < snapshots.len() ==> (#[trigger] snapshots[i]).backend != (
                #[trigger] snapshots[j]).backend
        }),
    ensures
        reduce_kind(state, kind).1 is Ok,
{
}

/// A retrieval fails while it is pending, and leaves nothing to ground a model on and no node to
/// start afresh from.
pub proof fn law_retrieval_fails_while_pending(state: RunStateView, kind: AgentEventKind)
    requires
        kind is KnowledgeRetrievalFailed,
    ensures
        ({
            let (after, result) = reduce_kind(state, kind);
            &&& result is Ok <==> (state.pending_knowledge_retrieval matches Some(pending)
                && pending.retrieval_id == kind->KnowledgeRetrievalFailed_retrieval_id)
            &&& result is Ok ==> {
                &&& after == (RunStateView {
                    pending_knowledge_retrieval: None,
                    latest_knowledge_manifest: None,
                    graph: after.graph,
                    ..state
                })
                &&& match state.graph {
                    None => after.graph is None,
                    Some(graph) => after.graph == Some(
                        GraphView { restart_anchor: None, ..graph },
                    ),
                }
            }
            &&& result is Err ==> after == state
        }),
{
}

/// A model is grounded only on what the latest retrieval brought, count and digest included, and
/// only while its call is pending.
pub proof fn law_grounding_is_on_the_latest_retrieval(
    state: RunStateView,
    retrieval_id: KnowledgeRetrievalId,
    model_call_id: ModelCallId,
    evidence_count: u8,
    manifest_digest: Digest32,
)
    ensures
        ({
            let (after, result) = reduce_kind(
                state,
                AgentEventKind::ModelGroundingBound {
                    retrieval_id,
                    model_call_id,
                    evidence_count,
                    manifest_digest,
                },
            );
            &&& result is Ok <==> state.latest_knowledge_manifest == Some(
                DurableKnowledgeManifest { retrieval_id, evidence_count, manifest_digest },
            ) && exists|i: int|
                0 <= i < state.pending_effects.len() && #[trigger] state.pending_effects[i] == (
                PendingEffect::Model { model_call_id })
            &&& result is Ok ==> after == (RunStateView {
                continuation: ContinuationState::TransientStateRequired,
                ..state
            })
            &&& result is Err ==> after == state
        }),
{
    let effects = state.pending_effects;
    let key = PendingEffectKey::Model(model_call_id);
    pending_is_named(effects, key);
    if exists|i: int| 0 <= i < effects.len() && #[trigger] effects[i] == (PendingEffect::Model {
        model_call_id,
    }) {
        let i = choose|i: int| 0 <= i < effects.len() && #[trigger] effects[i] == (
        PendingEffect::Model { model_call_id });
        assert(key.names(effects[i]));
    }
}

/// An iteration starts between iterations, as the next one under the run's own limit.
pub proof fn law_iteration_starts_in_its_place(
    state: RunStateView,
    iteration: u32,
    usage: u32,
    limit: u32,
)
    ensures
        ({
            let (after, result) = reduce_loop(
                state,
                LoopEventKind::IterationStarted { iteration, usage, limit },
            );
            &&& result is Ok <==> {
                &&& state.loop_position == DurableLoopPosition::NotStarted || state.loop_position
                    == DurableLoopPosition::Ready
                &&& iteration == usage == one_more(state.usage.iterations)
                &&& limit == state.budget.max_iterations
            }
            &&& result is Ok ==> after == (RunStateView {
                usage: BudgetUsage { iterations: iteration, ..state.usage },
                current_iteration: Some(iteration),
                loop_position: DurableLoopPosition::PhaseReady(LoopPhase::Observe),
                continuation: ContinuationState::TransientStateRequired,
                ..state
            })
            &&& result is Err ==> after == state
        }),
{
}

/// A phase is entered in its turn and completed while it runs, in the iteration that is under way.
/// A retrieve phase is not over while a retrieval is pending, and with it goes what might have
/// been issued afresh. The phases follow one another in their one order.
pub proof fn law_phase_is_taken_in_its_turn(
    state: RunStateView,
    iteration: u32,
    phase: LoopPhase,
)
    ensures
        ({
            let (after, result) = reduce_loop(
                state,
                LoopEventKind::PhaseEntered { iteration, phase },
            );
            &&& result is Ok <==> state.current_iteration == Some(iteration) && state.loop_position
                == DurableLoopPosition::PhaseReady(phase)
            &&& result is Ok ==> after == (RunStateView {
                loop_position: DurableLoopPosition::PhaseRunning(phase),
                ..state
            })
            &&& result is Err ==> after == state
        }),
        ({
            let (after, result) = reduce_loop(
                state,
                LoopEventKind::PhaseCompleted { iteration, phase },
            );
            &&& result is Ok <==> state.current_iteration == Some(iteration) && state.loop_position
                == DurableLoopPosition::PhaseRunning(phase) && (phase == LoopPhase::Retrieve
                ==> state.pending_knowledge_retrieval is None)
            &&& result is Ok ==> after == (RunStateView {
                loop_position: match phase {
                    LoopPhase::Observe => DurableLoopPosition::PhaseReady(LoopPhase::Retrieve),
                    LoopPhase::Retrieve => DurableLoopPosition::PhaseReady(LoopPhase::Plan),
                    LoopPhase::Plan => DurableLoopPosition::PhaseReady(LoopPhase::Act),
                    LoopPhase::Act => DurableLoopPosition::PhaseReady(LoopPhase::Verify),
                    LoopPhase::Verify => DurableLoopPosition::PhaseReady(LoopPhase::Reflect),
                    LoopPhase::Reflect => DurableLoopPosition::ReflectCompleted,
                },
                restartable_knowledge_retrieval: after.restartable_knowledge_retrieval,
                ..state
            })
            &&& result is Ok ==> after.restartable_knowledge_retrieval == (if phase
                == LoopPhase::Retrieve {
                None
            } else {
                state.restartable_knowledge_retrieval
            })
            &&& result is Err ==> after == state
        }),
{
}

/// A decision is taken once the loop has reflected, and counts the iteration. An iteration is
/// closed once it is decided: to continue makes a boundary at which the loop can go on later;
/// anything else finishes the loop.
pub proof fn law_iteration_is_decided_and_closed(
    state: RunStateView,
    iteration: u32,
    decision: LoopDecisionKind,
)
    ensures
        ({
            let (after, result) = reduce_loop(
                state,
                LoopEventKind::ReflectDecision { iteration, decision },
            );
            &&& result is Ok <==> state.current_iteration == Some(iteration) && state.loop_position
                == DurableLoopPosition::ReflectCompleted
            &&& result is Ok ==> after.completed_iterations == one_more(state.completed_iterations)
                && after == (RunStateView {
                completed_iterations: after.completed_iterations,
                loop_position: DurableLoopPosition::ReflectDecided(decision),
                ..state
            })
            &&& result is Err ==> after == state
        }),
        ({
            let (after, result) = reduce_loop(
                state,
                LoopEventKind::IterationCompleted { iteration },
            );
            &&& result is Ok <==> state.current_iteration == Some(iteration)
                && state.loop_position is ReflectDecided
            &&& result is Ok ==> after == (if state.loop_position
                == DurableLoopPosition::ReflectDecided(LoopDecisionKind::Continue) {
                RunStateView {
                    current_iteration: None,
                    loop_position: DurableLoopPosition::Ready,
                    continuation: ContinuationState::RestartableBoundary,
                    ..state
                }
            } else {
                RunStateView { loop_position: DurableLoopPosition::Finished, ..state }
            })
            &&& result is Err ==> after == state
        }),
{
}

/// A loop is recorded as completed only with the number of iterations that the log has counted,
/// and as failed only in the iteration that is under way.
pub proof fn law_loop_end_fits_the_log(
    state: RunStateView,
    count: u32,
    iteration: u32,
    kind: RunFailureKind,
)
    ensures
        ({
            let (after, result) = reduce_loop(
                state,
                LoopEventKind::LoopCompleted { completed_iterations: count },
            );
            &&& result is Ok <==> count == state.completed_iterations
            &&& result is Ok ==> after == (RunStateView {
                loop_position: DurableLoopPosition::Finished,
                ..state
            })
        }),
        ({
            let (after, result) = reduce_loop(state, LoopEventKind::LoopFailed { iteration, kind });
            &&& result is Ok <==> state.current_iteration == Some(iteration)
            &&& result is Ok ==> after == (RunStateView {
                loop_position: DurableLoopPosition::Finished,
                ..state
            })
        }),
{
}

/// A node is declared with the recovery that its kind has: a retrieval is fetched afresh, a
/// decision is made again, anything else is never run twice.
pub open spec fn declared(kind: GraphNodeKind, recovery: GraphRecoveryMode) -> bool {
    &&& kind == GraphNodeKind::Retrieve <==> recovery == GraphRecoveryMode::FreshRetrieval
    &&& kind == GraphNodeKind::Decision <==> recovery == GraphRecoveryMode::DeterministicBoundary
}

/// Where a node may be run again the run stands at a boundary.
pub open spec fn boundary(recovery: GraphRecoveryMode) -> ContinuationState {
    if recovery == GraphRecoveryMode::Never {
        ContinuationState::TransientStateRequired
    } else {
        ContinuationState::RestartableBoundary
    }
}

/// A graph starts once, in a run that is under way, has no loop and promised this very definition,
/// at a node that is declared as its kind requires.
pub proof fn law_graph_starts_once(
    state: RunStateView,
    digest: Digest32,
    node: GraphNodeId,
    kind: GraphNodeKind,
    recovery: GraphRecoveryMode,
)
    ensures
        ({
            let (after, result) = reduce_graph(
                state,
                GraphProgressEvent::GraphStarted {
                    definition_digest: digest,
                    start_node: node,
                    start_kind: kind,
                    start_recovery: recovery,
                },
            );
            &&& result is Ok <==> {
                &&& state.graph is None
                &&& state.loop_position == DurableLoopPosition::NotStarted
                &&& state.status == RunStatus::Running
                &&& state.recovery_contract matches RecoveryContract::Graph {
                    definition_digest,
                    ..
                } && definition_digest == digest
                &&& declared(kind, recovery)
            }
            &&& result is Ok ==> after == (RunStateView {
                graph: Some(
                    GraphView {
                        definition_digest: digest,
                        position: GraphPositionView::Ready {
                            node_id: node@,
                            node_kind: kind,
                            recovery,
                        },
                        steps: 0,
                        restart_anchor: None,
                    },
                ),
                continuation: boundary(recovery),
                ..state
            })
            &&& result is Err ==> after == state
        }),
{
}

/// The step is the next one, of the graph as of the run, under the run's own limit.
pub open spec fn next_step(state: RunStateView, step: u32, limit: u32) -> bool {
    &&& limit == state.budget.max_graph_steps
    &&& 1 <= limit <= 256
    &&& step == one_more(state.graph->0.steps)
    &&& step == one_more(state.usage.graph_steps)
}

/// A node is entered where the graph stands ready for exactly it, as the next step. It then runs; a
/// retrieval is where the graph may start afresh from.
pub proof fn law_node_is_entered_where_it_is_ready(
    state: RunStateView,
    attempt_id: GraphNodeAttemptId,
    node: GraphNodeId,
    node_kind: GraphNodeKind,
    recovery: GraphRecoveryMode,
    step: u32,
    limit: u32,
)
    ensures
        ({
            let (after, result) = reduce_graph(
                state,
                GraphProgressEvent::GraphNodeEntered {
                    attempt_id,
                    node_id: node,
                    node_kind,
                    recovery,
                    step,
                    limit,
                },
            );
            &&& result is Ok <==> {
                &&& state.graph matches Some(graph) && graph.position == (GraphPositionView::Ready {
                    node_id: node@,
                    node_kind,
                    recovery,
                })
                &&& next_step(state, step, limit)
                &&& declared(node_kind, recovery)
            }
            &&& result is Ok ==> {
                let graph = state.graph->0;
                after == (RunStateView {
                    graph: Some(
                        GraphView {
                            definition_digest: graph.definition_digest,
                            position: GraphPositionView::Running {
                                attempt_id,
                                node_id: node@,
                                node_kind,
                                recovery,
                            },
                            steps: step,
                            restart_anchor: if node_kind == GraphNodeKind::Retrieve {
                                Some(AnchorView { node_id: node@, attempt_id })
                            } else {
                                graph.restart_anchor
                            },
                        },
                    ),
                    usage: BudgetUsage { graph_steps: step, ..state.usage },
                    continuation: ContinuationState::TransientStateRequired,
                    ..state
                })
            }
            &&& result is Err ==> after == state
        }),
{
}

/// A node is run again only where that loses nothing: where the graph stands ready for it or runs
/// the attempt that is named, and it may be run again; or where it is the retrieval that the anchor
/// names. It is a step of its own, and then runs as one that was entered.
pub proof fn law_node_is_run_again_where_it_may(
    state: RunStateView,
    previous: Option<GraphNodeAttemptId>,
    attempt_id: GraphNodeAttemptId,
    node: GraphNodeId,
    node_kind: GraphNodeKind,
    recovery: GraphRecoveryMode,
    step: u32,
    limit: u32,
)
    ensures
        ({
            let (after, result) = reduce_graph(
                state,
                GraphProgressEvent::GraphNodeRestarted {
                    previous_attempt_id: previous,
                    attempt_id,
                    node_id: node,
                    node_kind,
                    recovery,
                    step,
                    limit,
                },
            );
            let graph = state.graph->0;
            let ready = previous is None && graph.position == (GraphPositionView::Ready {
                node_id: node@,
                node_kind,
                recovery,
            });
            let running = previous matches Some(attempt) && graph.position == (
            GraphPositionView::Running { attempt_id: attempt, node_id: node@, node_kind, recovery });
            let anchored = recovery == GraphRecoveryMode::FreshRetrieval && (
            previous matches Some(attempt) && graph.restart_anchor == Some(
                AnchorView { node_id: node@, attempt_id: attempt },
            ));
            &&& result is Ok <==> {
                &&& state.graph is Some
                &&& recovery != GraphRecoveryMode::Never
                &&& ready || running || anchored
                &&& next_step(state, step, limit)
                &&& declared(node_kind, recovery)
            }
            &&& result is Ok ==> after.graph is Some && {
                let now = after.graph->0;
                &&& now.position == (GraphPositionView::Running {
                    attempt_id,
                    node_id: node@,
                    node_kind,
                    recovery,
                })
                &&& now.steps == step
                &&& now.definition_digest == graph.definition_digest
                &&& now.restart_anchor == (if node_kind == GraphNodeKind::Retrieve {
                    Some(AnchorView { node_id: node@, attempt_id })
                } else {
                    graph.restart_anchor
                })
                &&& after == (RunStateView {
                    graph: after.graph,
                    usage: BudgetUsage { graph_steps: step, ..state.usage },
                    continuation: ContinuationState::TransientStateRequired,
                    ..state
                })
            }
            &&& result is Err ==> after == state
        }),
{
}

/// The node that runs, under this attempt, with nothing pending.
pub open spec fn runs_quietly(
    state: RunStateView,
    attempt_id: GraphNodeAttemptId,
    node: Seq<char>,
) -> bool {
    &&& state.graph matches Some(graph) && (graph.position matches GraphPositionView::Running {
        attempt_id: current,
        node_id,
        ..
    } && current == attempt_id && node_id == node)
    &&& state.pending_effects.len() == 0
    &&& state.pending_knowledge_retrieval is None
}

/// A node is completed while it runs and nothing of it is pending, and the graph then stands ready
/// for the node that is named next.
pub proof fn law_completed_node_leads_on(state: RunStateView, event: GraphProgressEvent)
    requires
        event is GraphNodeCompleted,
    ensures
        ({
            let (after, result) = reduce_graph(state, event);
            let kind = event->GraphNodeCompleted_next_kind;
            let recovery = event->GraphNodeCompleted_next_recovery;
            &&& result is Ok <==> runs_quietly(
                state,
                event->GraphNodeCompleted_attempt_id,
                event->GraphNodeCompleted_node_id@,
            ) && declared(kind, recovery)
            &&& result is Ok ==> after == (RunStateView {
                graph: Some(
                    GraphView {
                        position: GraphPositionView::Ready {
                            node_id: event->GraphNodeCompleted_next_node@,
                            node_kind: kind,
                            recovery,
                        },
                        ..state.graph->0
                    },
                ),
                continuation: boundary(recovery),
                ..state
            })
            &&& result is Err ==> after == state
        }),
{
}

/// An action, and nothing else, is suspended while it runs and nothing of it is pending. It then
/// waits under exactly the ids and the digest that the event names, at a boundary.
pub proof fn law_action_is_suspended(state: RunStateView, event: GraphProgressEvent)
    requires
        event is GraphSuspended,
    ensures
        ({
            let (after, result) = reduce_graph(state, event);
            &&& result is Ok <==> runs_quietly(
                state,
                event->GraphSuspended_attempt_id,
                event->GraphSuspended_node_id@,
            ) && state.graph->0.position->Running_node_kind == GraphNodeKind::Action
                && state.graph->0.position->Running_recovery == GraphRecoveryMode::Never
            &&& result is Ok ==> after == (RunStateView {
                graph: Some(
                    GraphView {
                        position: GraphPositionView::Waiting {
                            attempt_id: event->GraphSuspended_attempt_id,
                            node_id: event->GraphSuspended_node_id@,
                            wait_id: event->GraphSuspended_wait_id,
                            approval_request_id: event->GraphSuspended_approval_request_id,
                            action_proposal_id: event->GraphSuspended_action_proposal_id,
                            tool_call_id: event->GraphSuspended_tool_call_id,
                            action_digest: event->GraphSuspended_action_digest,
                        },
                        restart_anchor: None,
                        ..state.graph->0
                    },
                ),
                continuation: ContinuationState::RestartableBoundary,
                ..state
            })
            &&& result is Err ==> after == state
        }),
{
}

/// A graph ends at the node that runs, with nothing pending and with the steps that it has taken,
/// and ends its run: completed at a node that completes, failed, by the failure that the event
/// names, at any node.
pub proof fn law_graph_end_ends_the_run(state: RunStateView, event: GraphProgressEvent)
    requires
        event is GraphCompleted || event is GraphFailed,
    ensures
        ({
            let (after, result) = reduce_graph(state, event);
            let (attempt_id, node, steps) = match event {
                GraphProgressEvent::GraphCompleted { attempt_id, node_id, steps } => (
                    attempt_id,
                    node_id@,
                    steps,
                ),
                GraphProgressEvent::GraphFailed { attempt_id, node_id, steps, .. } => (
                    attempt_id,
                    node_id@,
                    steps,
                ),
                _ => arbitrary(),
            };
            &&& result is Ok <==> {
                &&& runs_quietly(state, attempt_id, node)
                &&& state.graph->0.steps == steps
                &&& state.status == RunStatus::Running
                &&& event is GraphCompleted ==> state.graph->0.position->Running_node_kind
                    == GraphNodeKind::Complete && state.graph->0.position->Running_recovery
                    == GraphRecoveryMode::Never
                &&& event matches GraphProgressEvent::GraphFailed { failure, run_failure, .. }
                    ==> run_failure == (RunFailureKind::Graph { kind: failure })
            }
            &&& result is Ok ==> {
                &&& event is GraphCompleted ==> after.status == RunStatus::Finished(
                    RunOutcome::Completed,
                )
                &&& event matches GraphProgressEvent::GraphFailed { run_failure, .. }
                    ==> after.status == RunStatus::Finished(
                    RunOutcome::Failed { kind: run_failure },
                )
                &&& after == (RunStateView {
                    status: after.status,
                    graph: Some(
                        GraphView {
                            position: GraphPositionView::Finished,
                            restart_anchor: None,
                            ..state.graph->0
                        },
                    ),
                    continuation: ContinuationState::TransientStateRequired,
                    ..state
                })
            }
            &&& result is Err ==> after == state
        }),
{
}

/// What no event of a loop or a graph touches: the loop's events leave the graph alone, the graph's
/// the loop, and neither touches an effect or a manifest.
pub proof fn law_loop_and_graph_stay_apart(
    state: RunStateView,
    loop_event: LoopEventKind,
    graph_event: GraphProgressEvent,
)
    ensures
        ({
            let after = reduce_loop(state, loop_event).0;
            &&& after.graph == state.graph
            &&& after.status == state.status
            &&& after.pending_effects == state.pending_effects
            &&& after.pending_knowledge_retrieval == state.pending_knowledge_retrieval
            &&& after.latest_knowledge_manifest == state.latest_knowledge_manifest
        }),
        ({
            let after = reduce_graph(state, graph_event).0;
            &&& after.loop_position == state.loop_position
            &&& after.current_iteration == state.current_iteration
            &&& after.completed_iterations == state.completed_iterations
            &&& after.pending_effects == state.pending_effects
            &&& after.pending_knowledge_retrieval == state.pending_knowledge_retrieval
            &&& after.latest_knowledge_manifest == state.latest_knowledge_manifest
        }),
{
}

/// A refusal says what did not fit: the lifecycle, a limit, the loop, the graph, or an effect that
/// is not pending.
pub proof fn law_refusal_names_what_did_not_fit(state: RunStateView, kind: AgentEventKind)
    ensures
        reduce_kind(state, kind).1 matches Err(error) ==> {
            &&& kind is RunStarted || kind is RunFinished ==> error == TransitionError::Lifecycle
            &&& kind is ModelInvocationStarted || kind is ToolInvocationStarted
                || kind is ApprovalRequested || kind is DurableApprovalPrepared ==> error
                == TransitionError::Budget
            &&& kind is Graph ==> error == TransitionError::Graph
            &&& kind matches AgentEventKind::Loop { event } ==> error == (if (
            event matches LoopEventKind::PhaseCompleted { iteration, phase } && phase
                == LoopPhase::Retrieve && state.current_iteration == Some(iteration)
                && state.loop_position == DurableLoopPosition::PhaseRunning(phase)) {
                TransitionError::Effect
            } else {
                TransitionError::Loop
            })
            &&& !(kind is RunStarted || kind is RunFinished || kind is ModelInvocationStarted
                || kind is ToolInvocationStarted || kind is ApprovalRequested
                || kind is DurableApprovalPrepared || kind is Graph || kind is Loop) ==> error
                == TransitionError::Effect
        },
{
    match kind {
        AgentEventKind::Loop { event } => {},
        AgentEventKind::Graph { event } => {},
        _ => {},
    }
}

/// An event of another run or schema is refused before its place is looked at, one out of place
/// before its kind, and one without an encoding last of all.
pub proof fn law_refusals_come_in_order(
    state: RunStateView,
    event: AgentEvent,
    encoding: Option<Seq<u8>>,
)
    ensures
        ({
            let result = reduce(state, event, encoding).1;
            let placed = event.sequence.0 == (match state.last_sequence {
                None => 0,
                Some(last) => if last.0 == u64::MAX {
                    u64::MAX as int
                } else {
                    last.0 + 1
                },
            });
            let own = event.schema_version == 5 && event.run_id == state.key.run_id;
            &&& !own ==> result == Err::<(), TransitionError>(TransitionError::IdentityOrVersion)
            &&& own && !placed ==> result == Err::<(), TransitionError>(TransitionError::Sequence)
            &&& own && placed && reduce_kind(state, event.kind).1 is Err ==> result == reduce_kind(
                state,
                event.kind,
            ).1
            &&& own && placed && reduce_kind(state, event.kind).1 is Ok && encoding is None
                ==> result == Err::<(), TransitionError>(TransitionError::Encoding)
        }),
{
}

/// Where several pending effects answer to one key, the first of them ends, and the others stay as
/// they stood.
pub proof fn law_first_of_its_key_ends(
    effects: Seq<PendingEffect>,
    key: PendingEffectKey,
    at: int,
)
    requires
        0 <= at < effects.len(),
        key.names(effects[at]),
        forall|i: int| 0 <= i < at ==> !key.names(#[trigger] effects[i]),
    ensures
        is_pending(effects, key),
        without(effects, key) == effects.remove(at),
{
    assert(first_named(effects, key, at));
    let found = choose|i: int| first_named(effects, key, i);
    assert(first_named(effects, key, found));
    if found < at {
        assert(!key.names(effects[found]));
    }
    if at < found {
        assert(!key.names(effects[at]));
    }
}

/// A key answers to the effect of its own kind and its own id, and to no other.
pub proof fn law_key_names_its_own_effect(
    key: PendingEffectKey,
    effect: PendingEffect,
)
    ensures
        key.names(effect) <==> match key {
            PendingEffectKey::Model(id) => effect == (PendingEffect::Model { model_call_id: id }),
            PendingEffectKey::Approval(id) => effect == (PendingEffect::Approval {
                approval_request_id: id,
            }),
            PendingEffectKey::Tool(id) => effect matches PendingEffect::Tool { tool_call_id, .. }
                && tool_call_id == id,
        },
{
}

/// A run of which nothing is recorded is pending: it has used nothing, done nothing, and waits for
/// nothing.
pub proof fn law_run_begins_with_nothing(
    key: RunKey,
    budget: RunBudget,
    contract: RecoveryContract,
)
    ensures
        ({
            let state = initial_state(key, budget, contract);
            &&& state.key == key
            &&& state.budget == budget
            &&& state.recovery_contract == contract
            &&& state.usage == (BudgetUsage {
                model_calls: 0,
                tool_calls: 0,
                iterations: 0,
                approval_requests: 0,
                graph_steps: 0,
            })
            &&& state.status == RunStatus::Pending
            &&& !state.audit_degraded
            &&& state.started_at_unix_millis is None
            &&& state.last_sequence is None
            &&& state.event_chain_digest.len() == 32
            &&& forall|i: int| 0 <= i < 32 ==> #[trigger] state.event_chain_digest[i] == 0
            &&& state.current_iteration is None
            &&& state.completed_iterations == 0
            &&& state.loop_position == DurableLoopPosition::NotStarted
            &&& state.continuation == ContinuationState::InitialBoundary
            &&& state.pending_effects.len() == 0
            &&& state.pending_knowledge_retrieval is None
            &&& state.restartable_knowledge_retrieval is None
            &&& state.latest_knowledge_manifest is None
            &&& state.graph is None
        }),
{
}

/// Places in a log follow one another from zero: the place behind the last one is expected to be
/// preceded by the last one.
pub proof fn law_places_follow_one_another(last: EventSequence)
    ensures
        next_sequence(None) == EventSequence(0),
        predecessor(EventSequence(0)) is None,
        last.0 < u64::MAX ==> next_sequence(Some(last)).0 == last.0 + 1,
        last.0 < u64::MAX ==> predecessor(next_sequence(Some(last))) == Some(last),
{
}

} // verus!
