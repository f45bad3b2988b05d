//! What holds of every log and of every recovery.

use vstd::prelude::*;

use crate::budget::{BudgetUsage, RunBudget};
use crate::context::{ContextView, MonotonicTime};
use crate::events::{
    AgentEvent, AgentEventKind, GraphNodeKind, GraphProgressEvent, GraphRecoveryMode,
    LoopEventKind,
};
use crate::ids::{DurableApprovalWaitId, GraphNodeAttemptId, GraphNodeId};
use crate::persistence::{replayed, LoadedRun, LoggedEvent, RecoveryContract, RunKey};
use crate::positions::{
    first_named, is_pending, without, ContinuationState, GraphPositionView, PendingEffect,
    PendingEffectKey,
};
use crate::recovery::{
    initial_state, next_sequence, option_bytes, reduce, reduce_graph, reduce_kind, reduce_loop,
    RunStateView, TransitionError,
};
use crate::replay::{
    covered, disposition, header_fits, recovered_state, DispositionView,
    ManualReconciliationReason, RecoveryError,
};
use crate::status::RunStatus;

verus! {

/// Replaying two logs one after the other is replaying them as one.
pub proof fn law_replay_composes(
    state: RunStateView,
    first: Seq<LoggedEvent>,
    second: Seq<LoggedEvent>,
)
    ensures
        replayed(state, first + second) == (match replayed(state, first) {
            Some(middle) => replayed(middle, second),
            None => None,
        }),
    decreases second.len(),
{
    if second.len() == 0 {
        assert(first + second =~= first);
    } else {
        law_replay_composes(state, first, second.drop_last());
        assert((first + second).drop_last() =~= first + second.drop_last());
        assert((first + second).last() == second.last());
    }
}

/// A checkpoint changes nothing: the recovered state is the one that the whole log establishes
/// from the run's beginning.
pub proof fn law_checkpoint_is_transparent(loaded: LoadedRun)
    requires
        recovered_state(loaded) is Ok,
    ensures
        replayed(loaded.record.start(), loaded.events@) == Some(recovered_state(loaded)->Ok_0),
{
    let stored = loaded.checkpoint.state@;
    let log = loaded.events@;
    let count = covered(stored);
    let start = loaded.record.start();
    assert(log.take(count) + log.skip(count) =~= log);
    law_replay_composes(start, log.take(count), log.skip(count));
    if count == 0 {
        assert(log.take(0) =~= Seq::empty());
    } else {
        assert forall|i: int| 0 <= i < log.take(count).len() implies header_fits(
            loaded.record,
            (#[trigger] log.take(count)[i]).event,
            i,
        ) by {
            assert(log.take(count)[i] == log[i]);
        }
    }
}

/// Two checkpoints of the same log recover the same state.
pub proof fn law_checkpoints_agree(first: LoadedRun, second: LoadedRun)
    requires
        first.record == second.record,
        first.events@ == second.events@,
        recovered_state(first) is Ok,
        recovered_state(second) is Ok,
    ensures
        recovered_state(first) == recovered_state(second),
{
    law_checkpoint_is_transparent(first);
    law_checkpoint_is_transparent(second);
}

/// The later of two usages has every counter at least as high.
pub open spec fn grown(before: BudgetUsage, after: BudgetUsage) -> bool {
    &&& before.model_calls <= after.model_calls
    &&& before.tool_calls <= after.tool_calls
    &&& before.iterations <= after.iterations
    &&& before.approval_requests <= after.approval_requests
    &&& before.graph_steps <= after.graph_steps
}

/// What no event takes back: identity, limits, contract, reservations, a lifecycle that has moved
/// on, a mark on the audit trail.
pub open spec fn carried_over(before: RunStateView, after: RunStateView) -> bool {
    &&& after.key == before.key
    &&& after.budget == before.budget
    &&& after.recovery_contract == before.recovery_contract
    &&& grown(before.usage, after.usage)
    &&& before.status is Finished ==> after.status == before.status
    &&& before.status is Running ==> !(after.status is Pending)
    &&& before.audit_degraded ==> after.audit_degraded
}

proof fn loop_carries_over(state: RunStateView, event: LoopEventKind)
    ensures
        carried_over(state, reduce_loop(state, event).0),
{
}

proof fn graph_carries_over(state: RunStateView, event: GraphProgressEvent)
    ensures
        carried_over(state, reduce_graph(state, event).0),
{
    match event {
        GraphProgressEvent::GraphStarted { .. } => {},
        GraphProgressEvent::GraphNodeEntered { .. } => {},
        GraphProgressEvent::GraphNodeRestarted { .. } => {},
        GraphProgressEvent::GraphNodeCompleted { .. } => {},
        GraphProgressEvent::GraphSuspended { .. } => {},
        GraphProgressEvent::GraphResumed { .. } => {},
        GraphProgressEvent::GraphCompleted { .. } => {},
        GraphProgressEvent::GraphFailed { .. } => {},
    }
}

#[verifier::rlimit(60)]
proof fn kind_carries_over(state: RunStateView, kind: AgentEventKind)
    ensures
        carried_over(state, reduce_kind(state, kind).0),
{
    match kind {
        AgentEventKind::Loop { event } => {
            loop_carries_over(state, event);
        },
        AgentEventKind::Graph { event } => {
            graph_carries_over(state, event);
        },
        AgentEventKind::KnowledgeRetrievalRestarted { .. } => {},
        AgentEventKind::KnowledgeRetrievalStarted { .. } => {},
        AgentEventKind::KnowledgeRetrievalCompleted { .. } => {},
        AgentEventKind::KnowledgeRetrievalFailed { .. } => {},
        AgentEventKind::ModelGroundingBound { .. } => {},
        AgentEventKind::ModelInvocationStarted { .. } => {},
        AgentEventKind::ToolInvocationStarted { .. } => {},
        AgentEventKind::ApprovalRequested { .. } => {},
        AgentEventKind::DurableApprovalPrepared { .. } => {},
        AgentEventKind::RunStarted { .. } => {},
        AgentEventKind::RunFinished { .. } => {},
        _ => {},
    }
}

/// One event changes neither the run's identity nor its limits nor its contract. It never gives a
/// reservation back. It never revives a finished run nor changes its outcome, and it never clears
/// the mark of a degraded audit.
pub proof fn law_event_carries_over(
    state: RunStateView,
    event: AgentEvent,
    encoding: Option<Seq<u8>>,
)
    ensures
        carried_over(state, reduce(state, event, encoding).0),
{
    kind_carries_over(state, event.kind);
}

/// The same over a whole log.
pub proof fn law_log_carries_over(state: RunStateView, log: Seq<LoggedEvent>)
    requires
        replayed(state, log) is Some,
    ensures
        carried_over(state, replayed(state, log)->0),
    decreases log.len(),
{
    if log.len() > 0 {
        law_log_carries_over(state, log.drop_last());
        law_event_carries_over(
            replayed(state, log.drop_last())->0,
            log.last().event,
            option_bytes(log.last().encoding),
        );
    }
}

/// A log that replays has no gap, no duplicate and no event of another run: event `i` has
/// sequence number `i`.
pub proof fn law_log_is_gapless(state: RunStateView, log: Seq<LoggedEvent>)
    requires
        state.last_sequence is None,
        replayed(state, log) is Some,
        log.len() <= u64::MAX,
    ensures
        forall|i: int|
            0 <= i < log.len() ==> (#[trigger] log[i]).event.sequence.0 == i
                && log[i].event.run_id == state.key.run_id,
        covered(replayed(state, log)->0) == log.len(),
    decreases log.len(),
{
    if log.len() > 0 {
        let prefix = log.drop_last();
        law_log_is_gapless(state, prefix);
        law_log_carries_over(state, prefix);
        assert forall|i: int| 0 <= i < log.len() implies (#[trigger] log[i]).event.sequence.0 == i
            && log[i].event.run_id == state.key.run_id by {
            if i < prefix.len() {
                assert(prefix[i] == log[i]);
            }
        }
    }
}

/// While an effect is unresolved a run is neither completed, failed nor continued: it is handed
/// over for reconciliation, whatever the clock says and whatever its program promises.
pub proof fn law_unresolved_effect_is_reconciled(
    state: RunStateView,
    contract: RecoveryContract,
    now_unix_millis: u64,
    now: MonotonicTime,
)
    requires
        state.pending_effects.len() > 0,
    ensures
        disposition(state, contract, now_unix_millis, now) == Ok::<DispositionView, RecoveryError>(
            DispositionView::ManualReconciliationRequired {
                state,
                reason: ManualReconciliationReason::UnresolvedEffect(state.pending_effects[0]),
            },
        ),
{
}

/// A finished run is never continued.
pub proof fn law_finished_run_is_not_continued(
    state: RunStateView,
    contract: RecoveryContract,
    now_unix_millis: u64,
    now: MonotonicTime,
)
    requires
        state.status is Finished,
    ensures
        disposition(state, contract, now_unix_millis, now) matches Ok(outcome) && !(
        outcome is Resumable) && !(outcome is Waiting),
{
}

/// A program that promises nothing is never continued.
pub proof fn law_non_restartable_is_not_continued(
    state: RunStateView,
    now_unix_millis: u64,
    now: MonotonicTime,
)
    ensures
        disposition(
            state,
            RecoveryContract::NonRestartable,
            now_unix_millis,
            now,
        ) matches Ok(outcome) ==> !(outcome is Resumable),
{
}

/// A graph that stands at a node which may not be run again, with no anchor behind it and with
/// state that only the lost process had, is not continued.
pub proof fn law_transient_node_is_not_continued(
    state: RunStateView,
    contract: RecoveryContract,
    now_unix_millis: u64,
    now: MonotonicTime,
)
    requires
        contract is Graph,
        state.graph is Some,
        state.position() is Running,
        state.position()->Running_recovery == GraphRecoveryMode::Never,
        state.graph->0.restart_anchor is None,
        state.continuation == ContinuationState::TransientStateRequired,
    ensures
        disposition(state, contract, now_unix_millis, now) matches Ok(outcome) ==> !(
        outcome is Resumable),
{
}

/// A running context with the budget, the reservations and the place of a durable state, and with
/// some of its time left.
pub open spec fn continues(context: ContextView, state: RunStateView, now: MonotonicTime) -> bool {
    &&& context.durable == state
    &&& context.key == state.key
    &&& context.budget == state.budget
    &&& context.usage == state.usage
    &&& context.status == RunStatus::Running
    &&& context.next_event_sequence == next_sequence(state.last_sequence)
    &&& context.deadline_at matches Some(deadline) && now.nanos < deadline.nanos <= now.nanos
        + state.budget.max_elapsed.nanos
}

/// A run is continued only with its budget, its reservations and its place in the log, and only
/// while time is left to it.
pub proof fn law_continued_run_keeps_its_place(
    state: RunStateView,
    contract: RecoveryContract,
    now_unix_millis: u64,
    now: MonotonicTime,
)
    requires
        disposition(state, contract, now_unix_millis, now) matches Ok(outcome) && (
        outcome is Resumable || outcome is Waiting),
    ensures
        match disposition(state, contract, now_unix_millis, now) {
            Ok(DispositionView::Resumable { context, .. }) => continues(context, state, now),
            Ok(DispositionView::Waiting { context, .. }) => continues(context, state, now),
            _ => false,
        },
{
}

/// A node that is suspended is carried on by exactly the event that names its attempt, the node
/// and the wait, and then stands where it stood: nothing is used up by the wait, and what the node
/// does next cannot be done again. Any other such event is refused, and the node waits on.
pub proof fn law_resumption_undoes_suspension(
    state: RunStateView,
    suspension: GraphProgressEvent,
    attempt_id: GraphNodeAttemptId,
    node_id: GraphNodeId,
    wait_id: DurableApprovalWaitId,
)
    requires
        suspension is GraphSuspended,
        reduce_graph(state, suspension).1 is Ok,
    ensures
        ({
            let suspended = reduce_graph(state, suspension).0;
            let (resumed, result) = reduce_graph(
                suspended,
                GraphProgressEvent::GraphResumed { attempt_id, node_id, wait_id },
            );
            let fits = attempt_id == suspension->GraphSuspended_attempt_id && node_id@
                == suspension->GraphSuspended_node_id@ && wait_id
                == suspension->GraphSuspended_wait_id;
            &&& state.position() == (GraphPositionView::Running {
                attempt_id: suspension->GraphSuspended_attempt_id,
                node_id: suspension->GraphSuspended_node_id@,
                node_kind: GraphNodeKind::Action,
                recovery: GraphRecoveryMode::Never,
            })
            &&& state.quiescent()
            &&& suspended.position() is Waiting
            &&& result == (if fits {
                Ok::<(), TransitionError>(())
            } else {
                Err(TransitionError::Graph)
            })
            &&& resumed == (if fits {
                state.without_anchor().transient()
            } else {
                suspended
            })
        }),
{
}

proof fn pushed_is_found(effects: Seq<PendingEffect>, effect: PendingEffect, key: PendingEffectKey)
    requires
        key.names(effect),
        !is_pending(effects, key),
    ensures
        is_pending(effects.push(effect), key),
        without(effects.push(effect), key) == effects,
{
    let pushed = effects.push(effect);
    let last = effects.len() as int;
    assert forall|i: int| 0 <= i < last implies !key.names(#[trigger] effects[i]) by {
        if key.names(effects[i]) {
            named_is_pending(effects, key, i);
        }
    }
    assert forall|j: int| 0 <= j < last implies !key.names(#[trigger] pushed[j]) by {
        assert(pushed[j] == effects[j]);
    }
    assert(pushed[last] == effect);
    assert(first_named(pushed, key, last));
    let found = choose|i: int| first_named(pushed, key, i);
    assert(first_named(pushed, key, found));
    assert(found == last);
    assert(pushed.remove(last) =~= effects);
}

proof fn named_is_pending(effects: Seq<PendingEffect>, key: PendingEffectKey, i: int)
    requires
        0 <= i < effects.len(),
        key.names(effects[i]),
    ensures
        is_pending(effects, key),
    decreases i,
{
    if first_named(effects, key, i) {
    } else {
        let j = choose|j: int| 0 <= j < i && key.names(#[trigger] effects[j]);
        named_is_pending(effects, key, j);
    }
}

/// The effect that the start of a call leaves pending, and its key.
pub open spec fn started_effect(kind: AgentEventKind) -> Option<(PendingEffectKey, PendingEffect)> {
    match kind {
        AgentEventKind::ModelInvocationStarted { model_call_id, .. } => Some(
            (PendingEffectKey::Model(model_call_id), PendingEffect::Model { model_call_id }),
        ),
        AgentEventKind::ApprovalRequested { approval_request_id, .. } => Some(
            (
                PendingEffectKey::Approval(approval_request_id),
                PendingEffect::Approval { approval_request_id },
            ),
        ),
        AgentEventKind::ToolInvocationStarted { tool_call_id, capability, .. } => Some(
            (
                PendingEffectKey::Tool(tool_call_id),
                PendingEffect::Tool { tool_call_id, capability },
            ),
        ),
        _ => None,
    }
}

/// The key of the effect that an event ends.
pub open spec fn ended_effect(kind: AgentEventKind) -> Option<PendingEffectKey> {
    match kind {
        AgentEventKind::ModelInvocationCompleted { model_call_id, .. } => Some(
            PendingEffectKey::Model(model_call_id),
        ),
        AgentEventKind::ModelInvocationFailed { model_call_id } => Some(
            PendingEffectKey::Model(model_call_id),
        ),
        AgentEventKind::ApprovalGranted { approval_request_id } => Some(
            PendingEffectKey::Approval(approval_request_id),
        ),
        AgentEventKind::ApprovalDenied { approval_request_id } => Some(
            PendingEffectKey::Approval(approval_request_id),
        ),
        AgentEventKind::ApprovalFailed { approval_request_id, .. } => Some(
            PendingEffectKey::Approval(approval_request_id),
        ),
        AgentEventKind::ToolInvocationCompleted { tool_call_id } => Some(
            PendingEffectKey::Tool(tool_call_id),
        ),
        AgentEventKind::ToolInvocationDomainFailed { tool_call_id, .. } => Some(
            PendingEffectKey::Tool(tool_call_id),
        ),
        AgentEventKind::ToolInvocationAdapterFailed { tool_call_id } => Some(
            PendingEffectKey::Tool(tool_call_id),
        ),
        _ => None,
    }
}

/// The end of a call takes back what its start left pending, and nothing else. It ends once: one
/// more end of the same call is refused, and changes nothing.
pub proof fn law_end_takes_back_the_start(
    state: RunStateView,
    start: AgentEventKind,
    end: AgentEventKind,
    again: AgentEventKind,
)
    requires
        started_effect(start) matches Some((key, _)) && {
            &&& ended_effect(end) == Some(key)
            &&& ended_effect(again) == Some(key)
            &&& !is_pending(state.pending_effects, key)
        },
        reduce_kind(state, start).1 is Ok,
    ensures
        ({
            let started = reduce_kind(state, start).0;
            let (ended, result) = reduce_kind(started, end);
            &&& started_effect(start) matches Some((_, effect)) && started.pending_effects
                == state.pending_effects.push(effect)
            &&& result is Ok
            &&& ended == (RunStateView { pending_effects: state.pending_effects, ..started })
            &&& reduce_kind(ended, again) == (
                ended,
                Err::<(), TransitionError>(TransitionError::Effect),
            )
        }),
{
    let (key, effect) = started_effect(start)->0;
    pushed_is_found(state.pending_effects, effect, key);
}

/// A graph that waits or has finished has no node from which it might start afresh.
pub open spec fn anchored_only_on_the_way(state: RunStateView) -> bool {
    state.graph matches Some(graph) ==> {
        graph.position is Waiting || graph.position is Finished ==> graph.restart_anchor is None
    }
}

#[verifier::rlimit(60)]
proof fn event_keeps_anchors(state: RunStateView, kind: AgentEventKind)
    requires
        anchored_only_on_the_way(state),
    ensures
        anchored_only_on_the_way(reduce_kind(state, kind).0),
{
    match kind {
        AgentEventKind::Loop { event } => {
            loop_keeps_graph(state, event);
        },
        AgentEventKind::Graph { event } => {
            graph_keeps_anchors(state, event);
        },
        _ => {},
    }
}

proof fn loop_keeps_graph(state: RunStateView, event: LoopEventKind)
    ensures
        reduce_loop(state, event).0.graph == state.graph,
{
}

proof fn graph_keeps_anchors(state: RunStateView, event: GraphProgressEvent)
    requires
        anchored_only_on_the_way(state),
    ensures
        anchored_only_on_the_way(reduce_graph(state, event).0),
{
    match event {
        GraphProgressEvent::GraphStarted { .. } => {},
        GraphProgressEvent::GraphNodeEntered { .. } => {},
        GraphProgressEvent::GraphNodeRestarted { .. } => {},
        GraphProgressEvent::GraphNodeCompleted { .. } => {},
        GraphProgressEvent::GraphSuspended { .. } => {},
        GraphProgressEvent::GraphResumed { .. } => {},
        GraphProgressEvent::GraphCompleted { .. } => {},
        GraphProgressEvent::GraphFailed { .. } => {},
    }
}

/// No event, taken or refused, leaves a node to start afresh from behind in a graph that waits or
/// has finished.
pub proof fn law_event_drops_the_anchor(
    state: RunStateView,
    event: AgentEvent,
    encoding: Option<Seq<u8>>,
)
    requires
        anchored_only_on_the_way(state),
    ensures
        anchored_only_on_the_way(reduce(state, event, encoding).0),
{
    event_keeps_anchors(state, event.kind);
}

/// In every state that a log establishes, a graph that waits or has finished has no node from
/// which it might start afresh.
pub proof fn law_waiting_graph_has_no_anchor(
    key: RunKey,
    budget: RunBudget,
    contract: RecoveryContract,
    log: Seq<LoggedEvent>,
)
    requires
        replayed(initial_state(key, budget, contract), log) is Some,
    ensures
        anchored_only_on_the_way(replayed(initial_state(key, budget, contract), log)->0),
    decreases log.len(),
{
    if log.len() > 0 {
        let start = initial_state(key, budget, contract);
        law_waiting_graph_has_no_anchor(key, budget, contract, log.drop_last());
        law_event_drops_the_anchor(
            replayed(start, log.drop_last())->0,
            log.last().event,
            option_bytes(log.last().encoding),
        );
    }
}

/// The same of every run that is recovered.
pub proof fn law_recovered_graph_has_no_anchor(loaded: LoadedRun)
    requires
        recovered_state(loaded) is Ok,
    ensures
        anchored_only_on_the_way(recovered_state(loaded)->Ok_0),
{
    law_checkpoint_is_transparent(loaded);
    law_waiting_graph_has_no_anchor(
        loaded.record.key,
        loaded.record.budget,
        loaded.record.recovery_contract,
        loaded.events@,
    );
}

/// A log that replays from the run's beginning is recovered, with the state that it establishes,
/// from a checkpoint of any of its beginnings: from the state before the first event, and from the
/// state after any event.
pub proof fn law_sound_log_is_recovered(loaded: LoadedRun, count: int)
    requires
        loaded.record.store_schema_version == 2,
        loaded.record.checkpoint_schema_version == 4,
        loaded.checkpoint.checkpoint_schema_version == 4,
        0 <= count <= loaded.events@.len() <= u64::MAX,
        replayed(loaded.record.start(), loaded.events@.take(count)) == Some(
            loaded.checkpoint.state@,
        ),
        replayed(loaded.record.start(), loaded.events@) is Some,
    ensures
        recovered_state(loaded) == Ok::<RunStateView, RecoveryError>(
            replayed(loaded.record.start(), loaded.events@)->0,
        ),
{
    let start = loaded.record.start();
    let log = loaded.events@;
    let stored = loaded.checkpoint.state@;
    law_log_carries_over(start, log.take(count));
    law_log_is_gapless(start, log);
    law_log_is_gapless(start, log.take(count));
    log_is_current(start, log);
    assert(covered(stored) == count);
    assert(log.take(count) + log.skip(count) =~= log);
    law_replay_composes(start, log.take(count), log.skip(count));
    assert forall|i: int| 0 <= i < log.len() implies header_fits(
        loaded.record,
        (#[trigger] log[i]).event,
        i,
    ) by {}
    if count == 0 {
        assert(log.take(0) =~= Seq::empty());
    }
}

/// Every event of a log that replays has the current schema.
proof fn log_is_current(state: RunStateView, log: Seq<LoggedEvent>)
    requires
        replayed(state, log) is Some,
    ensures
        forall|i: int| 0 <= i < log.len() ==> (#[trigger] log[i]).event.schema_version == 5,
    decreases log.len(),
{
    if log.len() > 0 {
        let prefix = log.drop_last();
        log_is_current(state, prefix);
        assert forall|i: int| 0 <= i < log.len() implies (#[trigger] log[i]).event.schema_version
            == 5 by {
            if i < prefix.len() {
                assert(prefix[i] == log[i]);
            }
        }
    }
}

/// Nothing is recovered of a run that another schema wrote, nor from the checkpoint of another run
/// or of another budget.
pub proof fn law_foreign_schema_is_refused(loaded: LoadedRun)
    ensures
        recovered_state(loaded) == Err::<RunStateView, RecoveryError>(
            RecoveryError::UnsupportedOrInconsistentSchema,
        ) <==> (loaded.record.store_schema_version != 2 || loaded.record.checkpoint_schema_version
            != 4 || loaded.checkpoint.checkpoint_schema_version != 4
            || loaded.checkpoint.state@.key != loaded.record.key || loaded.checkpoint.state@.budget
            != loaded.record.budget),
{
}

/// A log with an event of another run, of another schema, or out of its place is not recovered.
pub proof fn law_misplaced_event_is_refused(loaded: LoadedRun, place: int)
    requires
        0 <= place < loaded.events@.len(),
        ({
            let event = loaded.events@[place].event;
            event.run_id != loaded.record.key.run_id || event.schema_version != 5
                || event.sequence.0 != place
        }),
    ensures
        recovered_state(loaded) is Err,
{
    let log = loaded.events@;
    let count = covered(loaded.checkpoint.state@);
    assert(!header_fits(loaded.record, log[place].event, place));
}

/// A checkpoint that says anything else than the part of the log that it covers is not recovered.
pub proof fn law_false_checkpoint_is_refused(loaded: LoadedRun)
    requires
        forall|count: int|
            0 <= count <= loaded.events@.len() ==> #[trigger] replayed(
                loaded.record.start(),
                loaded.events@.take(count),
            ) != Some(loaded.checkpoint.state@),
    ensures
        recovered_state(loaded) is Err,
{
    let log = loaded.events@;
    let count = covered(loaded.checkpoint.state@);
    if recovered_state(loaded) is Ok {
        if count == 0 {
            assert(log.take(0) =~= Seq::empty());
            assert(replayed(loaded.record.start(), log.take(0)) == Some(loaded.record.start()));
        } else {
            assert forall|i: int| 0 <= i < log.take(count).len() implies header_fits(
                loaded.record,
                (#[trigger] log.take(count)[i]).event,
                i,
            ) by {
                assert(log.take(count)[i] == log[i]);
            }
            assert(replayed(loaded.record.start(), log.take(count)) is Some);
        }
    }
}

/// Of a run whose checkpoint covers nothing, a misplaced event is reported before the checkpoint is
/// looked at. A checkpoint that covers more than there is of a sound log is reported as false.
pub proof fn law_faults_are_found_in_order(loaded: LoadedRun, place: int)
    requires
        loaded.record.store_schema_version == 2,
        loaded.record.checkpoint_schema_version == 4,
        loaded.checkpoint.checkpoint_schema_version == 4,
        loaded.checkpoint.state@.key == loaded.record.key,
        loaded.checkpoint.state@.budget == loaded.record.budget,
    ensures
        loaded.checkpoint.state@.last_sequence is None && 0 <= place < loaded.events@.len() && (
        loaded.events@[place].event.run_id != loaded.record.key.run_id
            || loaded.events@[place].event.schema_version != 5
            || loaded.events@[place].event.sequence.0 != place) ==> recovered_state(loaded)
            == Err::<RunStateView, RecoveryError>(RecoveryError::CorruptLog),
        (loaded.checkpoint.state@.last_sequence matches Some(last) && last.0
            >= loaded.events@.len()) && loaded.events@.len() <= u64::MAX && replayed(
            loaded.record.start(),
            loaded.events@,
        ) is Some ==> recovered_state(loaded) == Err::<RunStateView, RecoveryError>(
            RecoveryError::CorruptCheckpoint,
        ),
        loaded.checkpoint.state@.last_sequence is None && loaded.checkpoint.state@
            != loaded.record.start() && loaded.events@.len() <= u64::MAX && replayed(
            loaded.record.start(),
            loaded.events@,
        ) is Some ==> recovered_state(loaded) == Err::<RunStateView, RecoveryError>(
            RecoveryError::CorruptCheckpoint,
        ),
{
    let start = loaded.record.start();
    let log = loaded.events@;
    if 0 <= place < log.len() && (log[place].event.run_id != loaded.record.key.run_id
        || log[place].event.schema_version != 5 || log[place].event.sequence.0 != place) {
        assert(!header_fits(loaded.record, log[place].event, place));
    }
    if log.len() <= u64::MAX && replayed(start, log) is Some {
        law_log_is_gapless(start, log);
        log_is_current(start, log);
        assert(log.take(log.len() as int) =~= log);
        assert(log.take(0) =~= Seq::empty());
        assert forall|i: int| 0 <= i < log.len() implies header_fits(
            loaded.record,
            (#[trigger] log[i]).event,
            i,
        ) by {}
    }
}

} // verus!
