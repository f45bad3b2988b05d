//! What recovery says of a run: how it ended, whether it goes on, and what stands in its way.

use vstd::prelude::*;

use crate::budget::BudgetDimension;
use crate::context::MonotonicTime;
use crate::digest::Digest32;
use crate::events::{AgentEventKind, EventSequence, GraphRecoveryMode};
use crate::persistence::{replayed, LoadedRun, LoggedEvent, RecoveryContract};
use crate::positions::{ContinuationState, DurableLoopPosition, GraphPositionView};
use crate::recovery::RunStateView;
use crate::replay::{
    disposition, recovered_state, DispositionView, ManualReconciliationReason, RecoveryError,
};
use crate::replay_laws::law_checkpoint_is_transparent;
use crate::status::{LoopPhase, RunOutcome, RunStatus};

verus! {

/// Recovery reports a run as completed if and only if it finished so and no effect of it is
/// unresolved. The report carries the state that was recovered.
pub proof fn law_completed_is_reported(
    state: RunStateView,
    contract: RecoveryContract,
    now_unix_millis: u64,
    now: MonotonicTime,
)
    ensures
        ({
            let reported = disposition(state, contract, now_unix_millis, now);
            &&& (reported matches Ok(DispositionView::Completed { .. })) <==> (state.status
                == RunStatus::Finished(RunOutcome::Completed) && state.pending_effects.len() == 0)
            &&& reported matches Ok(DispositionView::Completed { state: told }) ==> told == state
        }),
{
}

/// Recovery reports a run that finished in any other way as failed, with exactly the outcome that
/// it finished with: a run that was cancelled as cancelled, a failure by its kind, a budget by its
/// dimension.
pub proof fn law_other_end_is_reported(
    state: RunStateView,
    contract: RecoveryContract,
    now_unix_millis: u64,
    now: MonotonicTime,
    outcome: RunOutcome,
)
    requires
        state.pending_effects.len() == 0,
        state.status == RunStatus::Finished(outcome),
        outcome != RunOutcome::Completed,
    ensures
        disposition(state, contract, now_unix_millis, now) == Ok::<DispositionView, RecoveryError>(
            DispositionView::TerminalFailure { state, outcome },
        ),
{
}

/// A run that recovery reports as failed either finished with that outcome, which is not success,
/// or was running and its time is up.
pub proof fn law_reported_failure_happened(
    state: RunStateView,
    contract: RecoveryContract,
    now_unix_millis: u64,
    now: MonotonicTime,
)
    ensures
        disposition(state, contract, now_unix_millis, now) matches Ok(
            DispositionView::TerminalFailure { state: told, outcome },
        ) ==> {
            &&& told == state
            &&& state.pending_effects.len() == 0
            &&& outcome != RunOutcome::Completed
            &&& state.status == RunStatus::Finished(outcome) || (state.status == RunStatus::Running
                && outcome == (RunOutcome::BudgetExceeded { dimension: BudgetDimension::Elapsed })
                && (state.started_at_unix_millis matches Some(started) && now_unix_millis - started
                >= 0 && (now_unix_millis - started) * 1_000_000
                >= state.budget.max_elapsed.nanos))
        },
{
}

/// How a log says that its run ended is what recovery reports: with the end as its last event,
/// and no effect unresolved, the report is completion for completion and failure, with that very
/// outcome, for anything else.
pub proof fn law_logged_end_is_reported(
    loaded: LoadedRun,
    now_unix_millis: u64,
    now: MonotonicTime,
    outcome: RunOutcome,
)
    requires
        recovered_state(loaded) is Ok,
        loaded.events@.len() > 0,
        loaded.events@.last().event.kind == (AgentEventKind::RunFinished { outcome }),
        recovered_state(loaded)->Ok_0.pending_effects.len() == 0,
    ensures
        ({
            let state = recovered_state(loaded)->Ok_0;
            disposition(state, loaded.record.recovery_contract, now_unix_millis, now) == Ok::<
                DispositionView,
                RecoveryError,
            >(
                if outcome == RunOutcome::Completed {
                    DispositionView::Completed { state }
                } else {
                    DispositionView::TerminalFailure { state, outcome }
                },
            )
        }),
{
    law_checkpoint_is_transparent(loaded);
    let before: Option<RunStateView> = replayed(
        loaded.record.start(),
        loaded.events@.drop_last(),
    );
    assert(before is Some);
}

/// A log that begins with the run's start and goes on says, at every later point, that the run
/// started when that event says.
pub proof fn law_start_is_remembered(state: RunStateView, log: Seq<LoggedEvent>, millis: u64)
    requires
        state.started_at_unix_millis == Some(millis),
        replayed(state, log) is Some,
    ensures
        replayed(state, log)->0.started_at_unix_millis == Some(millis),
    decreases log.len(),
{
    if log.len() > 0 {
        law_start_is_remembered(state, log.drop_last(), millis);
        let before = replayed(state, log.drop_last())->0;
        match log.last().event.kind {
            AgentEventKind::Loop { event } => {},
            AgentEventKind::Graph { event } => {},
            _ => {},
        }
    }
}

/// A run that had not started, and has nothing unresolved, has lost what it was about to do.
pub proof fn law_unstarted_run_is_reconciled(
    state: RunStateView,
    contract: RecoveryContract,
    now_unix_millis: u64,
    now: MonotonicTime,
)
    requires
        state.status == RunStatus::Pending,
        state.pending_effects.len() == 0,
    ensures
        disposition(state, contract, now_unix_millis, now) == Ok::<DispositionView, RecoveryError>(
            DispositionView::ManualReconciliationRequired {
                state,
                reason: ManualReconciliationReason::TransientStateUnavailable,
            },
        ),
{
}

/// The run is under way, has nothing unresolved, and time is left to it: the clock stands
/// `elapsed_millis` after its start.
pub open spec fn under_way(state: RunStateView, now_unix_millis: u64, elapsed_millis: int) -> bool {
    &&& state.status == RunStatus::Running
    &&& state.pending_effects.len() == 0
    &&& state.started_at_unix_millis matches Some(started) && now_unix_millis - started
        == elapsed_millis
    &&& 0 <= elapsed_millis
    &&& elapsed_millis * 1_000_000 < state.budget.max_elapsed.nanos
}

/// The clocks and the log have room for the run to go on.
pub open spec fn room_to_go_on(state: RunStateView, now: MonotonicTime) -> bool {
    &&& now.nanos + state.budget.max_elapsed.nanos <= u128::MAX
    &&& state.last_sequence != Some(EventSequence(u64::MAX))
}

/// The time of a run that is under way runs out at its start plus its budget, and from then on
/// recovery ends the run. A wall clock that stands before the start is not trusted.
pub proof fn law_time_runs_out(
    state: RunStateView,
    contract: RecoveryContract,
    now_unix_millis: u64,
    now: MonotonicTime,
    started: u64,
)
    requires
        state.status == RunStatus::Running,
        state.pending_effects.len() == 0,
        state.started_at_unix_millis == Some(started),
    ensures
        now_unix_millis < started ==> disposition(state, contract, now_unix_millis, now) == Err::<
            DispositionView,
            RecoveryError,
        >(RecoveryError::ClockAmbiguous),
        now_unix_millis >= started && (now_unix_millis - started) * 1_000_000
            >= state.budget.max_elapsed.nanos ==> disposition(
            state,
            contract,
            now_unix_millis,
            now,
        ) == Ok::<DispositionView, RecoveryError>(
            DispositionView::TerminalFailure {
                state,
                outcome: RunOutcome::BudgetExceeded { dimension: BudgetDimension::Elapsed },
            },
        ),
{
}

/// A run that waits for an approval is handed back as waiting, whatever its contract, and a run
/// is handed back as waiting only then.
pub proof fn law_waiting_run_is_handed_back(
    state: RunStateView,
    contract: RecoveryContract,
    now_unix_millis: u64,
    now: MonotonicTime,
    elapsed_millis: int,
)
    ensures
        under_way(state, now_unix_millis, elapsed_millis) && room_to_go_on(state, now) && (
        state.graph matches Some(graph) && graph.position is Waiting) ==> (disposition(
            state,
            contract,
            now_unix_millis,
            now,
        ) matches Ok(DispositionView::Waiting { state: told, contract: kept, .. }) && told == state
            && kept == contract),
        disposition(state, contract, now_unix_millis, now) matches Ok(
            DispositionView::Waiting { .. },
        ) ==> state.graph matches Some(graph) && graph.position is Waiting,
{
}

/// A run that stands at a boundary, with a program that may be restarted, goes on.
pub proof fn law_boundary_is_resumed(
    state: RunStateView,
    contract: RecoveryContract,
    now_unix_millis: u64,
    now: MonotonicTime,
    elapsed_millis: int,
)
    requires
        under_way(state, now_unix_millis, elapsed_millis),
        room_to_go_on(state, now),
        state.graph matches Some(graph) ==> !(graph.position is Waiting),
        !(contract is NonRestartable),
        state.continuation != ContinuationState::TransientStateRequired,
    ensures
        disposition(state, contract, now_unix_millis, now) matches Ok(
            DispositionView::Resumable { state: told, contract: kept, .. },
        ) && told == state && kept == contract,
{
}

/// A retrieval that was interrupted is taken up again by a program that can issue it afresh.
pub proof fn law_interrupted_retrieval_is_resumed(
    state: RunStateView,
    version: u32,
    now_unix_millis: u64,
    now: MonotonicTime,
    elapsed_millis: int,
)
    requires
        under_way(state, now_unix_millis, elapsed_millis),
        room_to_go_on(state, now),
        state.graph is None,
        state.loop_position == DurableLoopPosition::PhaseRunning(LoopPhase::Retrieve),
        state.restartable_knowledge_retrieval is Some,
    ensures
        disposition(
            state,
            RecoveryContract::RestartableRetrieval { version },
            now_unix_millis,
            now,
        ) matches Ok(DispositionView::Resumable { state: told, .. }) && told == state,
{
}

/// A graph of the same definition goes on from a node that may be run again, and from any node
/// behind an anchor.
pub proof fn law_graph_is_resumed(
    state: RunStateView,
    program_version: u32,
    definition_digest: Digest32,
    now_unix_millis: u64,
    now: MonotonicTime,
    elapsed_millis: int,
)
    requires
        under_way(state, now_unix_millis, elapsed_millis),
        room_to_go_on(state, now),
        state.graph matches Some(graph) && graph.definition_digest == definition_digest && !(
        graph.position is Waiting) && (graph.restart_anchor is Some || (
        graph.position matches GraphPositionView::Ready { recovery, .. } && recovery
            != GraphRecoveryMode::Never) || (graph.position matches GraphPositionView::Running {
            recovery,
            ..
        } && recovery != GraphRecoveryMode::Never)),
    ensures
        disposition(
            state,
            RecoveryContract::Graph { program_version, definition_digest },
            now_unix_millis,
            now,
        ) matches Ok(DispositionView::Resumable { state: told, .. }) && told == state,
{
}

/// A run that is under way and may not go on is handed over for reconciliation: because its
/// program promises nothing, or because it stands where only the lost process could go on. A run
/// goes on only at a boundary, at a retrieval that its program can issue afresh, or at a place of
/// its own graph that can be taken up again.
pub proof fn law_resumed_run_could_go_on(
    state: RunStateView,
    contract: RecoveryContract,
    now_unix_millis: u64,
    now: MonotonicTime,
    elapsed_millis: int,
)
    requires
        under_way(state, now_unix_millis, elapsed_millis),
        state.graph matches Some(graph) ==> !(graph.position is Waiting),
    ensures
        contract is NonRestartable ==> disposition(state, contract, now_unix_millis, now) == Ok::<
            DispositionView,
            RecoveryError,
        >(
            DispositionView::ManualReconciliationRequired {
                state,
                reason: ManualReconciliationReason::NonRestartableProgram,
            },
        ),
        state.continuation == ContinuationState::TransientStateRequired && (
        contract is Restartable || (contract is RestartableRetrieval && (
        state.restartable_knowledge_retrieval is None || state.loop_position
            != DurableLoopPosition::PhaseRunning(LoopPhase::Retrieve))) || (
        contract matches RecoveryContract::Graph { definition_digest, .. } && (state.graph is None
            || state.graph->0.definition_digest != definition_digest))) ==> disposition(
            state,
            contract,
            now_unix_millis,
            now,
        ) == Ok::<DispositionView, RecoveryError>(
            DispositionView::ManualReconciliationRequired {
                state,
                reason: ManualReconciliationReason::TransientStateUnavailable,
            },
        ),
        contract matches RecoveryContract::Graph { .. } && state.continuation
            == ContinuationState::TransientStateRequired && (disposition(
            state,
            contract,
            now_unix_millis,
            now,
        ) matches Ok(DispositionView::Resumable { .. })) ==> {
            &&& state.graph is Some
            &&& state.graph->0.restart_anchor is Some || (
            state.position() matches GraphPositionView::Ready { recovery, .. } && recovery
                != GraphRecoveryMode::Never) || (
            state.position() matches GraphPositionView::Running { recovery, .. } && recovery
                != GraphRecoveryMode::Never)
        },
{
}

/// The time that is left to a run that goes on is its budget less what the wall clock says has
/// passed since its start.
pub proof fn law_deadline_counts_from_the_start(
    state: RunStateView,
    contract: RecoveryContract,
    now_unix_millis: u64,
    now: MonotonicTime,
    elapsed_millis: int,
)
    requires
        under_way(state, now_unix_millis, elapsed_millis),
    ensures
        match disposition(state, contract, now_unix_millis, now) {
            Ok(DispositionView::Resumable { context, .. }) => (context.deadline_at matches Some(
                deadline,
            ) && deadline.nanos - now.nanos == state.budget.max_elapsed.nanos - elapsed_millis
                * 1_000_000) && context.audit_degraded == state.audit_degraded
                && !context.persistence_failed && context.recovery_contract == contract,
            Ok(DispositionView::Waiting { context, .. }) => (context.deadline_at matches Some(
                deadline,
            ) && deadline.nanos - now.nanos == state.budget.max_elapsed.nanos - elapsed_millis
                * 1_000_000) && context.audit_degraded == state.audit_degraded
                && !context.persistence_failed && context.recovery_contract == contract,
            _ => true,
        },
{
}

} // verus!
