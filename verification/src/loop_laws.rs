//! What a loop does is what its log takes.

use vstd::prelude::*;

use crate::budget::RunBudget;
use crate::context::ContextView;
use crate::error::HarnessError;
use crate::events::{AgentEventKind, LoopEventKind, LoopProgressEvent};
use crate::loop_engine::{
    checked, finalized, harness_failure, iteration_begun, phase_ran, progressed, resumed_state,
    CheckStep, FinalStep, LoopError, LoopStepError, LoopTurn, PhaseOutcome, Place, ProgressStep,
    TerminalLoopDecision,
};
use crate::loop_state::{
    LoopPosition, LoopState, LoopTransitionError, ReflectDecision, VerificationResult,
};
use crate::persistence::{replayed, LoggedEvent, RecoveryContract, RunKey};
use crate::positions::DurableLoopPosition;
use crate::recovery::{bumped, initial_state, reduce_kind, reduce_loop, RunStateView};
use crate::status::{LoopDecisionKind, LoopFailureKind, LoopPhase, RunFailureKind, RunStatus};

verus! {

/// The log tells where the loop stands.
pub open spec fn corresponds(state: LoopState, durable: RunStateView) -> bool {
    &&& durable.completed_iterations == state.completed_iterations
    &&& match state.position {
        LoopPosition::Ready => durable.loop_position == DurableLoopPosition::Ready
            || durable.loop_position == DurableLoopPosition::NotStarted,
        LoopPosition::PhaseReady(phase) => state.current_iteration is Some
            && durable.current_iteration == state.current_iteration && durable.loop_position
            == DurableLoopPosition::PhaseReady(phase),
        LoopPosition::PhaseRunning(phase) => state.current_iteration is Some
            && durable.current_iteration == state.current_iteration && durable.loop_position
            == DurableLoopPosition::PhaseRunning(phase),
        LoopPosition::Finished(_) => durable.loop_position == DurableLoopPosition::Finished,
    }
}

/// The start of an iteration that has been reserved is taken, and the log tells so.
pub proof fn law_iteration_is_logged(state: LoopState, durable: RunStateView, iteration: u32)
    requires
        corresponds(state, durable),
        state.begun(iteration).1 is Ok,
        iteration == bumped(durable.usage.iterations),
    ensures
        ({
            let (after, result) = reduce_loop(
                durable,
                LoopEventKind::IterationStarted {
                    iteration,
                    usage: iteration,
                    limit: durable.budget.max_iterations,
                },
            );
            result is Ok && corresponds(state.begun(iteration).0, after)
        }),
{
}

/// Entering a phase, and completing it, are taken, and the log tells so. A retrieval must have
/// been answered before its phase is over.
pub proof fn law_phase_is_logged(state: LoopState, durable: RunStateView, phase: LoopPhase)
    requires
        corresponds(state, durable),
    ensures
        state.entered(phase).1 is Ok ==> {
            let (after, result) = reduce_loop(
                durable,
                LoopEventKind::PhaseEntered { iteration: state.current_iteration->0, phase },
            );
            result is Ok && corresponds(state.entered(phase).0, after)
        },
        state.completed(phase).1 is Ok && durable.pending_knowledge_retrieval is None ==> {
            let (after, result) = reduce_loop(
                durable,
                LoopEventKind::PhaseCompleted { iteration: state.current_iteration->0, phase },
            );
            result is Ok && corresponds(state.completed(phase).0, after)
        },
{
}

/// The three events that close an iteration: the last phase, the decision, the iteration itself.
pub open spec fn closed(durable: RunStateView, iteration: u32, decision: LoopDecisionKind)
    -> Option<RunStateView> {
    let (first, completed) = reduce_loop(
        durable,
        LoopEventKind::PhaseCompleted { iteration, phase: LoopPhase::Reflect },
    );
    let (second, decided) = reduce_loop(
        first,
        LoopEventKind::ReflectDecision { iteration, decision },
    );
    let (third, closed) = reduce_loop(second, LoopEventKind::IterationCompleted { iteration });
    if completed is Ok && decided is Ok && closed is Ok {
        Some(third)
    } else {
        None
    }
}

/// The decision that closes an iteration is taken, and the log tells so. What ends the loop is
/// taken after it.
pub proof fn law_decision_is_logged(
    state: LoopState,
    durable: RunStateView,
    decision: ReflectDecision,
    kind: RunFailureKind,
)
    requires
        corresponds(state, durable),
        state.completed_iterations < u32::MAX,
        state.reflected(decision).1 is Ok,
    ensures
        closed(durable, state.current_iteration->0, decision.decision_kind()) matches Some(after)
            && {
            &&& corresponds(state.reflected(decision).0, after)
            &&& decision is Complete ==> reduce_loop(
                after,
                LoopEventKind::LoopCompleted {
                    completed_iterations: state.reflected(decision).0.completed_iterations,
                },
            ).1 is Ok
            &&& decision is Fail ==> reduce_loop(
                after,
                LoopEventKind::LoopFailed { iteration: state.current_iteration->0, kind },
            ).1 is Ok
        },
{
}

/// A loop that is continued stands where its log says.
pub proof fn law_continued_loop_stands_where_it_stood(
    durable: RunStateView,
    contract: RecoveryContract,
    version: u32,
    restart_retrieval: bool,
)
    requires
        durable.loop_position == DurableLoopPosition::NotStarted ==> durable.completed_iterations
            == 0,
    ensures
        resumed_state(durable, contract, version, restart_retrieval) matches Ok(state)
            ==> corresponds(state, durable),
{
}

/// Without the contract that the run was started under, in the same version, no loop is
/// continued.
pub proof fn law_contract_must_match(
    durable: RunStateView,
    contract: RecoveryContract,
    version: u32,
    restart_retrieval: bool,
)
    requires
        resumed_state(durable, contract, version, restart_retrieval) is Ok,
    ensures
        contract == (RecoveryContract::Restartable { version }) || (contract == (
        RecoveryContract::RestartableRetrieval { version }) && restart_retrieval),
        durable.loop_position == DurableLoopPosition::PhaseRunning(LoopPhase::Retrieve)
            ==> restart_retrieval,
{
}

/// Under the contract of its program a loop that stands between two iterations always goes on: it
/// is ready for its next iteration, and has counted those that its log has. A loop that had not
/// started goes on as a fresh one.
pub proof fn law_loop_between_iterations_is_continued(
    durable: RunStateView,
    contract: RecoveryContract,
    version: u32,
    restart_retrieval: bool,
)
    requires
        contract == (RecoveryContract::Restartable { version }) || (contract == (
        RecoveryContract::RestartableRetrieval { version }) && restart_retrieval),
    ensures
        durable.loop_position == DurableLoopPosition::Ready ==> (resumed_state(
            durable,
            contract,
            version,
            restart_retrieval,
        ) matches Ok(state) && state.position == LoopPosition::Ready && state.current_iteration
            is None && state.completed_iterations == durable.completed_iterations),
        durable.loop_position == DurableLoopPosition::NotStarted ==> (resumed_state(
            durable,
            contract,
            version,
            restart_retrieval,
        ) matches Ok(state) && state.position == LoopPosition::Ready && state.current_iteration
            is None && state.completed_iterations == 0),
{
}

/// Under the contract of its program a retrieval that was interrupted is taken up in its own
/// iteration, where it can be issued afresh.
pub proof fn law_loop_in_retrieval_is_continued(
    durable: RunStateView,
    contract: RecoveryContract,
    version: u32,
    iteration: u32,
)
    requires
        contract == (RecoveryContract::Restartable { version }) || contract == (
        RecoveryContract::RestartableRetrieval { version }),
        durable.loop_position == DurableLoopPosition::PhaseRunning(LoopPhase::Retrieve),
        durable.restartable_knowledge_retrieval is Some,
        durable.current_iteration == Some(iteration),
    ensures
        resumed_state(durable, contract, version, true) matches Ok(state) && state.position
            == LoopPosition::PhaseRunning(LoopPhase::Retrieve) && state.current_iteration == Some(
            iteration,
        ) && state.completed_iterations == durable.completed_iterations,
{
}

/// A loop is refused for its contract exactly where its program is not the one that was promised,
/// and for its state exactly where it stands at none of these places.
pub proof fn law_refused_loop_is_told_why(
    durable: RunStateView,
    contract: RecoveryContract,
    version: u32,
    restart_retrieval: bool,
)
    ensures
        ({
            let resumed = resumed_state(durable, contract, version, restart_retrieval);
            let agreed = match contract {
                RecoveryContract::Restartable { version: promised } => promised == version,
                RecoveryContract::RestartableRetrieval { version: promised } => restart_retrieval
                    && promised == version,
                RecoveryContract::NonRestartable => false,
                RecoveryContract::Graph { .. } => false,
            };
            &&& !agreed <==> resumed == Err::<LoopState, LoopError>(
                LoopError::RecoveryContractMismatch,
            )
            &&& resumed matches Err(error) ==> error is RecoveryContractMismatch
                || error is RecoveryStateInvalid
            &&& agreed && (durable.loop_position is PhaseReady
                || durable.loop_position is ReflectCompleted
                || durable.loop_position is ReflectDecided || durable.loop_position is Finished)
                ==> resumed == Err::<LoopState, LoopError>(LoopError::RecoveryStateInvalid)
            &&& agreed && durable.loop_position == DurableLoopPosition::PhaseRunning(
                LoopPhase::Retrieve,
            ) && (durable.restartable_knowledge_retrieval is None || durable.current_iteration
                is None || !restart_retrieval) ==> resumed == Err::<LoopState, LoopError>(
                LoopError::RecoveryStateInvalid,
            )
            &&& agreed && (durable.loop_position matches DurableLoopPosition::PhaseRunning(phase)
                && phase != LoopPhase::Retrieve) ==> resumed == Err::<LoopState, LoopError>(
                LoopError::RecoveryStateInvalid,
            )
        }),
{
}

/// Nothing has been counted in a loop that has not started.
pub open spec fn counted_since_start(state: RunStateView) -> bool {
    state.loop_position == DurableLoopPosition::NotStarted ==> state.completed_iterations == 0
        && state.current_iteration is None
}

#[verifier::rlimit(40)]
proof fn event_counts_since_start(state: RunStateView, kind: AgentEventKind)
    requires
        counted_since_start(state),
    ensures
        counted_since_start(reduce_kind(state, kind).0),
{
    match kind {
        AgentEventKind::Loop { event } => {},
        AgentEventKind::Graph { event } => {},
        _ => {},
    }
}

/// In every state that a log establishes, a loop that has not started has counted nothing: so a
/// loop that is found between iterations always goes on with the count of its log.
pub proof fn law_unstarted_loop_has_counted_nothing(
    key: RunKey,
    budget: RunBudget,
    contract: RecoveryContract,
    log: Seq<LoggedEvent>,
    version: u32,
    restart_retrieval: bool,
)
    requires
        replayed(initial_state(key, budget, contract), log) is Some,
    ensures
        ({
            let durable = replayed(initial_state(key, budget, contract), log)->0;
            &&& counted_since_start(durable)
            &&& (contract == (RecoveryContract::Restartable { version }) || (contract == (
            RecoveryContract::RestartableRetrieval { version }) && restart_retrieval)) && (
            durable.loop_position == DurableLoopPosition::NotStarted || durable.loop_position
                == DurableLoopPosition::Ready) ==> (resumed_state(
                durable,
                contract,
                version,
                restart_retrieval,
            ) matches Ok(state) && state.position == LoopPosition::Ready
                && state.completed_iterations == durable.completed_iterations)
        }),
    decreases log.len(),
{
    if log.len() > 0 {
        law_unstarted_loop_has_counted_nothing(
            key,
            budget,
            contract,
            log.drop_last(),
            version,
            restart_retrieval,
        );
        event_counts_since_start(
            replayed(initial_state(key, budget, contract), log.drop_last())->0,
            log.last().event.kind,
        );
    }
}

/// A loop that is opened with its run under way begins an iteration, or runs the retrieval that
/// was interrupted.
pub proof fn law_opened_loop_goes_on(state: LoopState, context: ContextView)
    requires
        context.status == RunStatus::Running,
    ensures
        state.position == LoopPosition::Ready ==> checked(
            state,
            context,
            CheckStep::Opening,
            Ok(()),
        ) == (state, LoopTurn::BeginIteration),
        state.position == LoopPosition::PhaseRunning(LoopPhase::Retrieve) && (
        state.current_iteration is Some) ==> checked(state, context, CheckStep::Opening, Ok(())) == (
            state,
            LoopTurn::Run(
                Place {
                    iteration: state.current_iteration->0,
                    phase: LoopPhase::Retrieve,
                    verification: None,
                },
            ),
        ),
{
}

/// An iteration that was reserved begins, and its first phase is next.
pub proof fn law_reserved_iteration_begins(state: LoopState, context: ContextView, iteration: u32)
    requires
        state.position == LoopPosition::Ready,
    ensures
        ({
            let (after, turn) = iteration_begun(state, context, Ok(iteration));
            &&& after.current_iteration == Some(iteration)
            &&& after.position == LoopPosition::PhaseReady(LoopPhase::Observe)
            &&& turn == LoopTurn::Checkpoint(
                CheckStep::Entering(
                    Place { iteration, phase: LoopPhase::Observe, verification: None },
                ),
            )
        }),
{
}

/// A phase whose turn it is is recorded as entered and then run, while the run is under way.
pub proof fn law_phase_in_turn_is_run(state: LoopState, context: ContextView, place: Place)
    requires
        context.status == RunStatus::Running,
        state.position == LoopPosition::PhaseReady(place.phase),
    ensures
        ({
            let (after, turn) = checked(state, context, CheckStep::Entering(place), Ok(()));
            &&& after == (LoopState { position: LoopPosition::PhaseRunning(place.phase), ..state })
            &&& turn == LoopTurn::Progress(
                LoopProgressEvent::PhaseEntered { iteration: place.iteration, phase: place.phase },
                ProgressStep::Entered(place),
            )
            &&& progressed(after, context, ProgressStep::Entered(place), Ok(())) == LoopTurn::Run(
                place,
            )
        }),
{
}

/// A phase that came to what it is for is left, recorded as completed, and the one after it is
/// next, in the same iteration. What verifying found is handed to reflecting.
pub proof fn law_phase_leads_to_the_next(
    state: LoopState,
    context: ContextView,
    place: Place,
    found: VerificationResult,
    next: LoopPhase,
)
    requires
        context.status == RunStatus::Running,
        state.position == LoopPosition::PhaseRunning(place.phase),
        match place.phase {
            LoopPhase::Observe => next == LoopPhase::Retrieve,
            LoopPhase::Retrieve => next == LoopPhase::Plan,
            LoopPhase::Plan => next == LoopPhase::Act,
            LoopPhase::Act => next == LoopPhase::Verify,
            LoopPhase::Verify => next == LoopPhase::Reflect,
            LoopPhase::Reflect => false,
        },
    ensures
        ({
            let outcome = if place.phase == LoopPhase::Verify {
                PhaseOutcome::Verified(found)
            } else {
                PhaseOutcome::Done
            };
            let (after, turn) = checked(
                state,
                context,
                CheckStep::Leaving(place, outcome),
                Ok(()),
            );
            &&& phase_ran(context, place, Ok(outcome)) == LoopTurn::Checkpoint(
                CheckStep::Leaving(place, outcome),
            )
            &&& after == (LoopState { position: LoopPosition::PhaseReady(next), ..state })
            &&& turn == LoopTurn::Progress(
                LoopProgressEvent::PhaseCompleted {
                    iteration: place.iteration,
                    phase: place.phase,
                },
                ProgressStep::Left(place, outcome),
            )
            &&& progressed(after, context, ProgressStep::Left(place, outcome), Ok(()))
                == LoopTurn::Checkpoint(
                CheckStep::Entering(
                    Place {
                        iteration: place.iteration,
                        phase: next,
                        verification: if place.phase == LoopPhase::Verify {
                            Some(found)
                        } else {
                            None
                        },
                    },
                ),
            )
        }),
{
}

/// What a program decides when it reflects is carried out: the decision and the end of the
/// iteration are recorded, and then the next iteration begins, or the loop's end is recorded and
/// the run is completed, or failed with the failure that the program named.
pub proof fn law_decision_is_carried_out(
    state: LoopState,
    context: ContextView,
    place: Place,
    decision: ReflectDecision,
)
    requires
        context.status == RunStatus::Running,
        state.position == LoopPosition::PhaseRunning(LoopPhase::Reflect),
        state.completed_iterations < u32::MAX,
        place.phase == LoopPhase::Reflect,
    ensures
        ({
            let iteration = place.iteration;
            let outcome = PhaseOutcome::Reflected(decision);
            let (after, turn) = checked(
                state,
                context,
                CheckStep::Leaving(place, outcome),
                Ok(()),
            );
            let closed = progressed(
                after,
                context,
                ProgressStep::Closed { iteration, decision },
                Ok(()),
            );
            &&& after.completed_iterations == state.completed_iterations + 1
            &&& turn == LoopTurn::Progress(
                LoopProgressEvent::PhaseCompleted { iteration, phase: LoopPhase::Reflect },
                ProgressStep::Left(place, outcome),
            )
            &&& progressed(after, context, ProgressStep::Left(place, outcome), Ok(()))
                == LoopTurn::Progress(
                LoopProgressEvent::ReflectDecision {
                    iteration,
                    decision: match decision {
                        ReflectDecision::Continue => LoopDecisionKind::Continue,
                        ReflectDecision::Complete => LoopDecisionKind::Complete,
                        ReflectDecision::Fail { .. } => LoopDecisionKind::Fail,
                    },
                },
                ProgressStep::Decided { iteration, decision },
            )
            &&& progressed(
                after,
                context,
                ProgressStep::Decided { iteration, decision },
                Ok(()),
            ) == LoopTurn::Progress(
                LoopProgressEvent::IterationCompleted { iteration },
                ProgressStep::Closed { iteration, decision },
            )
            &&& decision is Continue ==> after.position == LoopPosition::Ready && closed
                == LoopTurn::BeginIteration
            &&& decision is Complete ==> closed == LoopTurn::Progress(
                LoopProgressEvent::LoopCompleted {
                    completed_iterations: after.completed_iterations,
                },
                ProgressStep::Ended(TerminalLoopDecision::Complete),
            ) && progressed(
                after,
                context,
                ProgressStep::Ended(TerminalLoopDecision::Complete),
                Ok(()),
            ) == LoopTurn::CompleteRun
            &&& decision matches ReflectDecision::Fail { kind } ==> closed == LoopTurn::Progress(
                LoopProgressEvent::LoopFailed { iteration, kind: RunFailureKind::Loop { kind } },
                ProgressStep::Ended(TerminalLoopDecision::Fail { kind }),
            ) && progressed(
                after,
                context,
                ProgressStep::Ended(TerminalLoopDecision::Fail { kind }),
                Ok(()),
            ) == LoopTurn::FailRun(
                RunFailureKind::Loop { kind },
                FinalStep::Ended(TerminalLoopDecision::Fail { kind }),
            )
        }),
{
}

/// A loop whose run has ended as the program decided says so: how many iterations were reserved
/// and how many completed, what was decided and how the run ended.
pub proof fn law_ended_loop_is_summed_up(
    state: LoopState,
    context: ContextView,
    decision: TerminalLoopDecision,
)
    ensures
        finalized(state, context, FinalStep::Ended(decision), Ok(())) matches LoopTurn::Finished(
            Ok(summary),
        ) && {
            &&& summary.reserved_iterations == context.usage.iterations
            &&& summary.completed_iterations == state.completed_iterations
            &&& summary.terminal_decision == decision
            &&& summary.final_status == context.status
        },
{
}

/// A program that fails in a phase fails the run by that phase, and the loop reports the phase.
pub proof fn law_program_failure_is_reported(
    state: LoopState,
    context: ContextView,
    place: Place,
)
    requires
        context.status == RunStatus::Running,
    ensures
        ({
            let phase = place.phase;
            let failure = RunFailureKind::Loop { kind: LoopFailureKind::Program { phase } };
            let step = ProgressStep::ProgramFailed { phase, failure };
            &&& phase_ran(context, place, Err(LoopStepError::Program)) == LoopTurn::Progress(
                LoopProgressEvent::LoopFailed {
                    iteration: context.usage.iterations,
                    kind: failure,
                },
                step,
            )
            &&& progressed(state, context, step, Ok(())) == LoopTurn::FailRun(
                failure,
                FinalStep::ProgramFailed { phase },
            )
            &&& finalized(state, context, FinalStep::ProgramFailed { phase }, Ok(()))
                == LoopTurn::Finished(Err(LoopError::Program { phase }))
        }),
{
}

/// An error of the execution boundary, wherever it comes up while the run is under way, is
/// recorded, fails the run with one and the same failure, and is what the loop reports.
pub proof fn law_harness_failure_is_reported(
    state: LoopState,
    context: ContextView,
    place: Place,
    check: CheckStep,
    progress: ProgressStep,
    error: HarnessError,
)
    requires
        context.status == RunStatus::Running,
        !(progress is HarnessFailed) && !(progress is Broken),
    ensures
        ({
            let failing = phase_ran(context, place, Err(LoopStepError::Harness(error)));
            &&& failing matches LoopTurn::Progress(
                LoopProgressEvent::LoopFailed { iteration, kind },
                ProgressStep::HarnessFailed { error: kept, failure },
            ) && {
                &&& iteration == context.usage.iterations
                &&& kept == error
                &&& failure == kind
                &&& !(kind is Loop) && !(kind is Graph)
                &&& progressed(
                    state,
                    context,
                    ProgressStep::HarnessFailed { error, failure },
                    Ok(()),
                ) == LoopTurn::FailRun(kind, FinalStep::HarnessFailed { error })
            }
            &&& checked(state, context, check, Err(error)) == (state, failing)
            &&& iteration_begun(state, context, Err(error)) == (state, failing)
            &&& progressed(state, context, progress, Err(error)) == failing
            &&& finalized(state, context, FinalStep::HarnessFailed { error }, Ok(()))
                == LoopTurn::Finished(Err(LoopError::Harness(error)))
        }),
{
}

/// The failure of a run that the execution boundary failed names the part that failed: the audit,
/// the model, the tools and the policy over them, the approvals, the containment.
pub proof fn law_failure_names_the_part(error: HarnessError)
    ensures
        harness_failure(error) == RunFailureKind::AuditUnavailable <==> error is Audit,
        harness_failure(error) == RunFailureKind::Model <==> error is ModelPort,
        harness_failure(error) == RunFailureKind::Tool <==> error is ToolPort
            || error is ToolNotFound || error is PolicyDenied,
        harness_failure(error) == RunFailureKind::Approval <==> error is ApprovalRequired
            || error is ApprovalPortMissing || error is ApprovalPort
            || error is ApprovalDecisionMismatch || error is ApprovalDenied,
        harness_failure(error) == RunFailureKind::Containment <==> error is AuditDegraded
            || error is CapabilityNotExecutable || error is ContainmentUnavailable
            || error is ContainmentPort,
        harness_failure(error) == RunFailureKind::Internal || harness_failure(error)
            == RunFailureKind::AuditUnavailable || harness_failure(error) == RunFailureKind::Model
            || harness_failure(error) == RunFailureKind::Tool || harness_failure(error)
            == RunFailureKind::Approval || harness_failure(error) == RunFailureKind::Containment,
{
}

/// A phase that came to something else than it is for breaks the loop: the run fails with a broken
/// invariant, and the loop reports the phase that was out of order.
pub proof fn law_misplaced_outcome_breaks_the_loop(
    state: LoopState,
    context: ContextView,
    place: Place,
    outcome: PhaseOutcome,
)
    requires
        context.status == RunStatus::Running,
        state.position == LoopPosition::PhaseRunning(place.phase),
        match outcome {
            PhaseOutcome::Done => place.phase == LoopPhase::Verify || place.phase
                == LoopPhase::Reflect,
            PhaseOutcome::Verified(_) => place.phase != LoopPhase::Verify,
            PhaseOutcome::Reflected(_) => place.phase != LoopPhase::Reflect,
        },
    ensures
        ({
            let error = LoopTransitionError::IllegalPhaseCompletion { phase: place.phase };
            let failure = RunFailureKind::Loop { kind: LoopFailureKind::InvariantViolation };
            let step = ProgressStep::Broken { error, failure };
            &&& checked(state, context, CheckStep::Leaving(place, outcome), Ok(())) == (
                state,
                LoopTurn::Progress(
                    LoopProgressEvent::LoopFailed { iteration: place.iteration, kind: failure },
                    step,
                ),
            )
            &&& progressed(state, context, step, Ok(())) == LoopTurn::FailRun(
                failure,
                FinalStep::Broken { error },
            )
            &&& forall|result: Result<(), HarnessError>|
                #[trigger] finalized(state, context, FinalStep::Broken { error }, result)
                    == LoopTurn::Finished(Err(LoopError::Transition(error)))
        }),
{
}

/// Once the run has ended, whoever ended it, the loop stops and reports how.
pub proof fn law_loop_stops_with_its_run(
    state: LoopState,
    context: ContextView,
    check: CheckStep,
    progress: ProgressStep,
    place: Place,
    ran: Result<PhaseOutcome, LoopStepError>,
)
    requires
        context.status != RunStatus::Running,
        !(progress is HarnessFailed) && !(progress is Broken),
    ensures
        ({
            let stopped = LoopTurn::Finished(
                Err(LoopError::RunTerminal { status: context.status }),
            );
            &&& checked(state, context, check, Ok(())) == (state, stopped)
            &&& phase_ran(context, place, ran) == stopped
            &&& progressed(state, context, progress, Ok(())) == stopped
        }),
{
}

/// An error that comes up while the run is ended is what the loop reports: as a failed ending where
/// the run has ended, and as the error itself where it has not. An ending as the program decided is
/// then failed like anything else.
pub proof fn law_failed_ending_is_reported(
    state: LoopState,
    context: ContextView,
    place: Place,
    decision: TerminalLoopDecision,
    phase: LoopPhase,
    error: HarnessError,
    source: HarnessError,
)
    ensures
        context.status is Finished ==> {
            let reported = LoopTurn::Finished(Err(LoopError::Finalization { source }));
            &&& finalized(state, context, FinalStep::Ended(decision), Err(source)) == reported
            &&& finalized(state, context, FinalStep::HarnessFailed { error }, Err(source))
                == reported
            &&& finalized(state, context, FinalStep::ProgramFailed { phase }, Err(source))
                == reported
        },
        !(context.status is Finished) ==> {
            let reported = LoopTurn::Finished(Err(LoopError::Harness(source)));
            &&& finalized(state, context, FinalStep::HarnessFailed { error }, Err(source))
                == reported
            &&& finalized(state, context, FinalStep::ProgramFailed { phase }, Err(source))
                == reported
        },
        context.status == RunStatus::Running ==> finalized(
            state,
            context,
            FinalStep::Ended(decision),
            Err(source),
        ) == phase_ran(context, place, Err(LoopStepError::Harness(source))),
{
}

/// An error of the execution boundary in a run that has ended is reported at once. Where a failure
/// cannot be recorded, the run is failed for that instead, and that is what is reported.
pub proof fn law_unrecorded_failure_is_reported(
    state: LoopState,
    context: ContextView,
    check: CheckStep,
    error: HarnessError,
    failure: RunFailureKind,
    later: HarnessError,
)
    ensures
        context.status != RunStatus::Running ==> {
            &&& checked(state, context, check, Err(error)) == (
                state,
                LoopTurn::Finished(Err(LoopError::Harness(error))),
            )
            &&& iteration_begun(state, context, Err(error)) == (
                state,
                LoopTurn::Finished(Err(LoopError::Harness(error))),
            )
            &&& progressed(
                state,
                context,
                ProgressStep::HarnessFailed { error, failure },
                Err(later),
            ) == LoopTurn::Finished(Err(LoopError::Harness(later)))
        },
        context.status == RunStatus::Running ==> progressed(
            state,
            context,
            ProgressStep::HarnessFailed { error, failure },
            Err(later),
        ) == LoopTurn::FailRun(harness_failure(later), FinalStep::HarnessFailed { error: later }),
{
}

/// A count of iterations never overflows: an iteration that cannot be counted any more breaks the
/// loop.
pub proof fn law_count_does_not_overflow(
    state: LoopState,
    context: ContextView,
    place: Place,
    decision: ReflectDecision,
)
    requires
        context.status == RunStatus::Running,
        state.completed_iterations == u32::MAX,
        place.phase == LoopPhase::Reflect,
    ensures
        checked(
            state,
            context,
            CheckStep::Leaving(place, PhaseOutcome::Reflected(decision)),
            Ok(()),
        ).0 == state,
        checked(
            state,
            context,
            CheckStep::Leaving(place, PhaseOutcome::Reflected(decision)),
            Ok(()),
        ).1 matches LoopTurn::Progress(LoopProgressEvent::LoopFailed { kind, .. }, _) && kind == (
        RunFailureKind::Loop { kind: LoopFailureKind::InvariantViolation }),
{
}

} // verus!
