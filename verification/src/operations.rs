//! Operations that record a single event: the iterations of a loop, the nodes of a graph, and the
//! end of a run.

use vstd::prelude::*;

use crate::budget::BudgetDimension;
use crate::context::{ContextView, Observation, RunContext, RunContextError};
use crate::digest::Digest32;
use crate::error::{AuditPhase, HarnessError, HarnessOperation, OperationEffect};
use crate::events::{
    AgentEventKind, GraphNodeKind, GraphProgressEvent, GraphRecoveryMode, GraphTransitionKey,
    LoopEventKind, LoopProgressEvent,
};
use crate::ids::{GraphNodeAttemptId, GraphNodeId};
use crate::record::{
    begin_recording, closed_gate, exhaust, exhausted, fail, failed, preflight, recording,
    require_status, status_error, AuditMode, Purpose, RecordPlan, RecordTurn, Turned,
};
use crate::status::{GraphFailureKind, RunFailureKind, RunOutcome, RunStatus};

verus! {

/// What stops the operation, if anything does, and `open` if nothing does.
pub open spec fn gated(
    context: ContextView,
    operation: HarnessOperation,
    seen: Observation,
    open: Turned,
) -> Turned {
    match closed_gate(context, operation, seen) {
        Some(turned) => turned,
        None => open,
    }
}

/// A step that commits state without invoking anything.
pub open spec fn progress(operation: HarnessOperation) -> Purpose {
    Purpose::Step(
        RecordPlan {
            operation,
            phase: AuditPhase::Lifecycle,
            effect: OperationEffect::StateCommitted,
            mode: AuditMode::Configured,
        },
    )
}

pub fn progress_step(operation: HarnessOperation) -> (r: Purpose)
    ensures
        r == progress(operation),
{
    Purpose::Step(
        RecordPlan {
            operation,
            phase: AuditPhase::Lifecycle,
            effect: OperationEffect::StateCommitted,
            mode: AuditMode::Configured,
        },
    )
}

/// Checks that the run may go on.
pub fn checkpoint(context: &mut RunContext, seen: Observation) -> (r: RecordTurn)
    ensures
        (final(context)@, r) == gated(
            old(context)@,
            HarnessOperation::Checkpoint,
            seen,
            (old(context)@, RecordTurn::Finished(Ok(()))),
        ),
{
    match preflight(context, HarnessOperation::Checkpoint, seen) {
        Some(turn) => turn,
        None => RecordTurn::Finished(Ok(())),
    }
}

pub open spec fn iteration_begun(context: ContextView) -> Turned {
    if context.has_room(BudgetDimension::Iterations) {
        let reserved = context.with_usage(context.reserved(BudgetDimension::Iterations));
        recording(
            reserved,
            AgentEventKind::Loop {
                event: LoopEventKind::IterationStarted {
                    iteration: reserved.usage.iterations,
                    usage: reserved.usage.iterations,
                    limit: context.budget.max_iterations,
                },
            },
            progress(HarnessOperation::BeginIteration),
            None,
        )
    } else {
        exhausted(context, BudgetDimension::Iterations)
    }
}

/// Reserves an iteration and records its start. The iteration's number is the usage of the
/// context afterwards.
pub fn begin_iteration(context: &mut RunContext, seen: Observation) -> (r: RecordTurn)
    ensures
        (final(context)@, r) == gated(
            old(context)@,
            HarnessOperation::BeginIteration,
            seen,
            iteration_begun(old(context)@),
        ),
{
    match preflight(context, HarnessOperation::BeginIteration, seen) {
        Some(turn) => {
            return turn;
        },
        None => {},
    }
    let iteration = match context.reserve_iteration() {
        Ok(iteration) => iteration,
        Err(error) => {
            return exhaust(context, error);
        },
    };
    let limit = context.budget().max_iterations;
    begin_recording(
        context,
        AgentEventKind::Loop {
            event: LoopEventKind::IterationStarted { iteration, usage: iteration, limit },
        },
        progress_step(HarnessOperation::BeginIteration),
        None,
    )
}

pub fn record_loop_progress(
    context: &mut RunContext,
    seen: Observation,
    event: LoopProgressEvent,
) -> (r: RecordTurn)
    ensures
        (final(context)@, r) == gated(
            old(context)@,
            HarnessOperation::RecordLoopProgress,
            seen,
            recording(
                old(context)@,
                AgentEventKind::Loop { event: event.as_loop_event() },
                progress(HarnessOperation::RecordLoopProgress),
                None,
            ),
        ),
{
    match preflight(context, HarnessOperation::RecordLoopProgress, seen) {
        Some(turn) => turn,
        None => begin_recording(
            context,
            AgentEventKind::Loop { event: event.to_loop_event() },
            progress_step(HarnessOperation::RecordLoopProgress),
            None,
        ),
    }
}

pub fn start_graph(
    context: &mut RunContext,
    seen: Observation,
    definition_digest: Digest32,
    start_node: GraphNodeId,
    start_kind: GraphNodeKind,
    start_recovery: GraphRecoveryMode,
) -> (r: RecordTurn)
    ensures
        (final(context)@, r) == gated(
            old(context)@,
            HarnessOperation::StartGraph,
            seen,
            recording(
                old(context)@,
                AgentEventKind::Graph {
                    event: GraphProgressEvent::GraphStarted {
                        definition_digest,
                        start_node,
                        start_kind,
                        start_recovery,
                    },
                },
                progress(HarnessOperation::StartGraph),
                None,
            ),
        ),
{
    match preflight(context, HarnessOperation::StartGraph, seen) {
        Some(turn) => turn,
        None => begin_recording(
            context,
            AgentEventKind::Graph {
                event: GraphProgressEvent::GraphStarted {
                    definition_digest,
                    start_node,
                    start_kind,
                    start_recovery,
                },
            },
            progress_step(HarnessOperation::StartGraph),
            None,
        ),
    }
}

/// A graph step is reserved and its event recorded; without room the run ends.
pub open spec fn node_begun(context: ContextView, event: GraphProgressEvent) -> Turned {
    if context.has_room(BudgetDimension::GraphSteps) {
        recording(
            context.with_usage(context.reserved(BudgetDimension::GraphSteps)),
            AgentEventKind::Graph { event },
            progress(HarnessOperation::EnterGraphNode),
            None,
        )
    } else {
        exhausted(context, BudgetDimension::GraphSteps)
    }
}

/// Reserves a graph step and records that a node is entered, under the attempt's identifier.
pub fn enter_graph_node(
    context: &mut RunContext,
    seen: Observation,
    attempt_id: GraphNodeAttemptId,
    node_id: GraphNodeId,
    node_kind: GraphNodeKind,
    recovery: GraphRecoveryMode,
) -> (r: RecordTurn)
    ensures
        (final(context)@, r) == gated(
            old(context)@,
            HarnessOperation::EnterGraphNode,
            seen,
            node_begun(
                old(context)@,
                GraphProgressEvent::GraphNodeEntered {
                    attempt_id,
                    node_id,
                    node_kind,
                    recovery,
                    step: (old(context)@.usage.graph_steps + 1) as u32,
                    limit: old(context)@.budget.max_graph_steps,
                },
            ),
        ),
{
    match preflight(context, HarnessOperation::EnterGraphNode, seen) {
        Some(turn) => {
            return turn;
        },
        None => {},
    }
    let step = match context.reserve_graph_step() {
        Ok(step) => step,
        Err(error) => {
            return exhaust(context, error);
        },
    };
    let limit = context.budget().max_graph_steps;
    begin_recording(
        context,
        AgentEventKind::Graph {
            event: GraphProgressEvent::GraphNodeEntered {
                attempt_id,
                node_id,
                node_kind,
                recovery,
                step,
                limit,
            },
        },
        progress_step(HarnessOperation::EnterGraphNode),
        None,
    )
}

/// Reserves a graph step and records that a node is run again.
pub fn restart_graph_node(
    context: &mut RunContext,
    seen: Observation,
    previous_attempt_id: Option<GraphNodeAttemptId>,
    attempt_id: GraphNodeAttemptId,
    node_id: GraphNodeId,
    node_kind: GraphNodeKind,
    recovery: GraphRecoveryMode,
) -> (r: RecordTurn)
    ensures
        (final(context)@, r) == gated(
            old(context)@,
            HarnessOperation::EnterGraphNode,
            seen,
            node_begun(
                old(context)@,
                GraphProgressEvent::GraphNodeRestarted {
                    previous_attempt_id,
                    attempt_id,
                    node_id,
                    node_kind,
                    recovery,
                    step: (old(context)@.usage.graph_steps + 1) as u32,
                    limit: old(context)@.budget.max_graph_steps,
                },
            ),
        ),
{
    match preflight(context, HarnessOperation::EnterGraphNode, seen) {
        Some(turn) => {
            return turn;
        },
        None => {},
    }
    let step = match context.reserve_graph_step() {
        Ok(step) => step,
        Err(error) => {
            return exhaust(context, error);
        },
    };
    let limit = context.budget().max_graph_steps;
    begin_recording(
        context,
        AgentEventKind::Graph {
            event: GraphProgressEvent::GraphNodeRestarted {
                previous_attempt_id,
                attempt_id,
                node_id,
                node_kind,
                recovery,
                step,
                limit,
            },
        },
        progress_step(HarnessOperation::EnterGraphNode),
        None,
    )
}

pub fn complete_graph_node(
    context: &mut RunContext,
    seen: Observation,
    attempt_id: GraphNodeAttemptId,
    node_id: GraphNodeId,
    transition: GraphTransitionKey,
    next_node: GraphNodeId,
    next_kind: GraphNodeKind,
    next_recovery: GraphRecoveryMode,
) -> (r: RecordTurn)
    ensures
        (final(context)@, r) == gated(
            old(context)@,
            HarnessOperation::CompleteGraphNode,
            seen,
            recording(
                old(context)@,
                AgentEventKind::Graph {
                    event: GraphProgressEvent::GraphNodeCompleted {
                        attempt_id,
                        node_id,
                        transition,
                        next_node,
                        next_kind,
                        next_recovery,
                    },
                },
                progress(HarnessOperation::CompleteGraphNode),
                None,
            ),
        ),
{
    match preflight(context, HarnessOperation::CompleteGraphNode, seen) {
        Some(turn) => turn,
        None => begin_recording(
            context,
            AgentEventKind::Graph {
                event: GraphProgressEvent::GraphNodeCompleted {
                    attempt_id,
                    node_id,
                    transition,
                    next_node,
                    next_kind,
                    next_recovery,
                },
            },
            progress_step(HarnessOperation::CompleteGraphNode),
            None,
        ),
    }
}

/// A running run is given its outcome, and the event that says so is recorded.
pub open spec fn ended(
    context: ContextView,
    outcome: RunOutcome,
    kind: AgentEventKind,
    operation: HarnessOperation,
) -> Turned {
    recording(context.finished(outcome), kind, Purpose::Lifecycle(operation), None)
}

fn end_run(
    context: &mut RunContext,
    outcome: RunOutcome,
    kind: AgentEventKind,
    operation: HarnessOperation,
) -> (r: RecordTurn)
    requires
        old(context)@.status == RunStatus::Running,
    ensures
        (final(context)@, r) == ended(old(context)@, outcome, kind, operation),
{
    match context.commit_finished(outcome) {
        Ok(()) => begin_recording(context, kind, Purpose::Lifecycle(operation), None),
        Err(error) => fail(HarnessError::Context(error)),
    }
}

pub fn complete_graph(
    context: &mut RunContext,
    seen: Observation,
    attempt_id: GraphNodeAttemptId,
    node_id: GraphNodeId,
) -> (r: RecordTurn)
    ensures
        (final(context)@, r) == gated(
            old(context)@,
            HarnessOperation::FinishGraph,
            seen,
            ended(
                old(context)@,
                RunOutcome::Completed,
                AgentEventKind::Graph {
                    event: GraphProgressEvent::GraphCompleted {
                        attempt_id,
                        node_id,
                        steps: old(context)@.usage.graph_steps,
                    },
                },
                HarnessOperation::FinishGraph,
            ),
        ),
{
    match preflight(context, HarnessOperation::FinishGraph, seen) {
        Some(turn) => {
            return turn;
        },
        None => {},
    }
    let steps = context.usage().graph_steps;
    end_run(
        context,
        RunOutcome::Completed,
        AgentEventKind::Graph {
            event: GraphProgressEvent::GraphCompleted { attempt_id, node_id, steps },
        },
        HarnessOperation::FinishGraph,
    )
}

pub fn fail_graph(
    context: &mut RunContext,
    seen: Observation,
    attempt_id: GraphNodeAttemptId,
    node_id: GraphNodeId,
    failure: GraphFailureKind,
) -> (r: RecordTurn)
    ensures
        (final(context)@, r) == gated(
            old(context)@,
            HarnessOperation::FinishGraph,
            seen,
            ended(
                old(context)@,
                RunOutcome::Failed { kind: RunFailureKind::Graph { kind: failure } },
                AgentEventKind::Graph {
                    event: GraphProgressEvent::GraphFailed {
                        attempt_id,
                        node_id,
                        steps: old(context)@.usage.graph_steps,
                        failure,
                        run_failure: RunFailureKind::Graph { kind: failure },
                    },
                },
                HarnessOperation::FinishGraph,
            ),
        ),
{
    match preflight(context, HarnessOperation::FinishGraph, seen) {
        Some(turn) => {
            return turn;
        },
        None => {},
    }
    let steps = context.usage().graph_steps;
    let run_failure = RunFailureKind::Graph { kind: failure };
    end_run(
        context,
        RunOutcome::Failed { kind: run_failure },
        AgentEventKind::Graph {
            event: GraphProgressEvent::GraphFailed {
                attempt_id,
                node_id,
                steps,
                failure,
                run_failure,
            },
        },
        HarnessOperation::FinishGraph,
    )
}

pub fn complete_run(context: &mut RunContext, seen: Observation) -> (r: RecordTurn)
    ensures
        (final(context)@, r) == gated(
            old(context)@,
            HarnessOperation::CompleteRun,
            seen,
            ended(
                old(context)@,
                RunOutcome::Completed,
                AgentEventKind::RunFinished { outcome: RunOutcome::Completed },
                HarnessOperation::CompleteRun,
            ),
        ),
{
    match preflight(context, HarnessOperation::CompleteRun, seen) {
        Some(turn) => turn,
        None => end_run(
            context,
            RunOutcome::Completed,
            AgentEventKind::RunFinished { outcome: RunOutcome::Completed },
            HarnessOperation::CompleteRun,
        ),
    }
}

pub fn fail_run(context: &mut RunContext, seen: Observation, kind: RunFailureKind) -> (r:
    RecordTurn)
    ensures
        (final(context)@, r) == gated(
            old(context)@,
            HarnessOperation::FailRun,
            seen,
            ended(
                old(context)@,
                RunOutcome::Failed { kind },
                AgentEventKind::RunFinished { outcome: RunOutcome::Failed { kind } },
                HarnessOperation::FailRun,
            ),
        ),
{
    match preflight(context, HarnessOperation::FailRun, seen) {
        Some(turn) => turn,
        None => {
            let outcome = RunOutcome::Failed { kind };
            end_run(
                context,
                outcome,
                AgentEventKind::RunFinished { outcome },
                HarnessOperation::FailRun,
            )
        },
    }
}

/// A cancelled run ends whatever its clock says, and reports success.
pub open spec fn cancelled(context: ContextView) -> Turned {
    match status_error(context, HarnessOperation::CancelRun, RunStatus::Running) {
        Err(error) => failed(context, error),
        Ok(_) => if context.deadline_at is None {
            failed(context, HarnessError::Context(RunContextError::RuntimeUnavailable))
        } else {
            recording(
                context.finished(RunOutcome::Cancelled),
                AgentEventKind::RunFinished { outcome: RunOutcome::Cancelled },
                Purpose::Terminal,
                None,
            )
        },
    }
}

pub fn cancel_run(context: &mut RunContext) -> (r: RecordTurn)
    ensures
        (final(context)@, r) == cancelled(old(context)@),
{
    match require_status(context, HarnessOperation::CancelRun, RunStatus::Running) {
        Err(error) => {
            return fail(error);
        },
        Ok(()) => {},
    }
    match context.deadline_at() {
        Err(error) => {
            return fail(HarnessError::Context(error));
        },
        Ok(_) => {},
    }
    match context.commit_finished(RunOutcome::Cancelled) {
        Ok(()) => begin_recording(
            context,
            AgentEventKind::RunFinished { outcome: RunOutcome::Cancelled },
            Purpose::Terminal,
            None,
        ),
        Err(error) => fail(HarnessError::Context(error)),
    }
}

} // verus!
