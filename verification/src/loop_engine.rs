//! Driving a loop: iterations of six phases, each guarded, each recorded, until the program
//! decides to stop or the run ends.
//!
//! Nothing is done here. Each function takes what happened and says what is to be done next.

use vstd::prelude::*;

use crate::context::{ContextView, RunContext};
use crate::error::HarnessError;
use crate::events::LoopProgressEvent;
use crate::loop_state::{
    LoopChange, LoopPosition, LoopState, LoopTransitionError, ReflectDecision, VerificationResult,
};
use crate::persistence::RecoveryContract;
use crate::positions::DurableLoopPosition;
use crate::recovery::{DurableRunState, RunStateView};
use crate::status::{LoopFailureKind, LoopPhase, RunFailureKind, RunStatus};

verus! {

/// Why a phase of the program failed.
#[derive(Clone, Debug, PartialEq, Eq)]
pub enum LoopStepError {
    Program,
    Harness(HarnessError),
}

#[derive(Debug)]
pub enum LoopError {
    Harness(HarnessError),
    Transition(LoopTransitionError),
    Program { phase: LoopPhase },
    RunTerminal { status: RunStatus },
    Finalization { source: HarnessError },
    RecoveryContractMismatch,
    RecoveryStateInvalid,
}

#[derive(Clone, Copy, Debug, PartialEq, Eq, Structural)]
pub enum TerminalLoopDecision {
    Complete,
    Fail { kind: LoopFailureKind },
}

/// How a loop came to its end.
#[derive(Clone, Copy, Debug, PartialEq, Eq, Structural)]
pub struct LoopRunSummary {
    pub reserved_iterations: u32,
    pub completed_iterations: u32,
    pub terminal_decision: TerminalLoopDecision,
    pub final_status: RunStatus,
}

impl LoopRunSummary {
    pub fn reserved_iterations(&self) -> (r: u32)
        ensures
            r == self.reserved_iterations,
    {
        self.reserved_iterations
    }

    pub fn completed_iterations(&self) -> (r: u32)
        ensures
            r == self.completed_iterations,
    {
        self.completed_iterations
    }

    pub fn terminal_decision(&self) -> (r: TerminalLoopDecision)
        ensures
            r == self.terminal_decision,
    {
        self.terminal_decision
    }

    pub fn final_status(&self) -> (r: &RunStatus)
        ensures
            *r == self.final_status,
    {
        &self.final_status
    }
}

/// A phase of an iteration. Reflecting is given what verifying found.
#[derive(Clone, Copy, Debug, PartialEq, Eq, Structural)]
pub struct Place {
    pub iteration: u32,
    pub phase: LoopPhase,
    pub verification: Option<VerificationResult>,
}

/// What a phase of the program came to.
#[derive(Clone, Copy, Debug, PartialEq, Eq, Structural)]
pub enum PhaseOutcome {
    Done,
    Verified(VerificationResult),
    Reflected(ReflectDecision),
}

/// Why the run is checked.
#[derive(Clone, Copy, Debug, PartialEq, Eq, Structural)]
pub enum CheckStep {
    /// Before anything else.
    Opening,
    /// Before a phase.
    Entering(Place),
    /// After a phase.
    Leaving(Place, PhaseOutcome),
}

/// Why progress is recorded.
#[derive(Debug)]
pub enum ProgressStep {
    Entered(Place),
    Left(Place, PhaseOutcome),
    Decided { iteration: u32, decision: ReflectDecision },
    Closed { iteration: u32, decision: ReflectDecision },
    Ended(TerminalLoopDecision),
    HarnessFailed { error: HarnessError, failure: RunFailureKind },
    ProgramFailed { phase: LoopPhase, failure: RunFailureKind },
    Broken { error: LoopTransitionError, failure: RunFailureKind },
}

/// Why the run is failed.
#[derive(Debug)]
pub enum FinalStep {
    Ended(TerminalLoopDecision),
    HarnessFailed { error: HarnessError },
    ProgramFailed { phase: LoopPhase },
    Broken { error: LoopTransitionError },
}

/// What is to be done next.
#[derive(Debug)]
pub enum LoopTurn {
    Checkpoint(CheckStep),
    BeginIteration,
    Progress(LoopProgressEvent, ProgressStep),
    /// Run a phase of the program.
    Run(Place),
    CompleteRun,
    FailRun(RunFailureKind, FinalStep),
    Finished(Result<LoopRunSummary, LoopError>),
}

/// How the run ends when the execution boundary reports an error.
pub open spec fn harness_failure(error: HarnessError) -> RunFailureKind {
    match error {
        HarnessError::Audit { .. } => RunFailureKind::AuditUnavailable,
        HarnessError::ModelPort(_) => RunFailureKind::Model,
        HarnessError::ToolPort(_) => RunFailureKind::Tool,
        HarnessError::ToolNotFound { .. } => RunFailureKind::Tool,
        HarnessError::PolicyDenied(_) => RunFailureKind::Tool,
        HarnessError::ApprovalRequired => RunFailureKind::Approval,
        HarnessError::ApprovalPortMissing => RunFailureKind::Approval,
        HarnessError::ApprovalPort(_) => RunFailureKind::Approval,
        HarnessError::ApprovalDecisionMismatch => RunFailureKind::Approval,
        HarnessError::ApprovalDenied => RunFailureKind::Approval,
        HarnessError::AuditDegraded => RunFailureKind::Containment,
        HarnessError::CapabilityNotExecutable { .. } => RunFailureKind::Containment,
        HarnessError::ContainmentUnavailable { .. } => RunFailureKind::Containment,
        HarnessError::ContainmentPort(_) => RunFailureKind::Containment,
        _ => RunFailureKind::Internal,
    }
}

pub fn failure_kind_for_harness_error(error: &HarnessError) -> (r: RunFailureKind)
    ensures
        r == harness_failure(*error),
{
    match error {
        HarnessError::Audit { .. } => RunFailureKind::AuditUnavailable,
        HarnessError::ModelPort(_) => RunFailureKind::Model,
        HarnessError::ToolPort(_)
        | HarnessError::ToolNotFound { .. }
        | HarnessError::PolicyDenied(_) => RunFailureKind::Tool,
        HarnessError::ApprovalRequired
        | HarnessError::ApprovalPortMissing
        | HarnessError::ApprovalPort(_)
        | HarnessError::ApprovalDecisionMismatch
        | HarnessError::ApprovalDenied => RunFailureKind::Approval,
        HarnessError::AuditDegraded
        | HarnessError::CapabilityNotExecutable { .. }
        | HarnessError::ContainmentUnavailable { .. }
        | HarnessError::ContainmentPort(_) => RunFailureKind::Containment,
        _ => RunFailureKind::Internal,
    }
}

pub open spec fn terminal(context: ContextView) -> LoopTurn {
    LoopTurn::Finished(Err(LoopError::RunTerminal { status: context.status }))
}

/// What an error of the execution boundary leads to: it is recorded, and the run failed, unless
/// the run has ended already.
pub open spec fn harness_failing(context: ContextView, error: HarnessError) -> LoopTurn {
    if context.status == RunStatus::Running {
        LoopTurn::Progress(
            LoopProgressEvent::LoopFailed {
                iteration: context.usage.iterations,
                kind: harness_failure(error),
            },
            ProgressStep::HarnessFailed { error, failure: harness_failure(error) },
        )
    } else {
        LoopTurn::Finished(Err(LoopError::Harness(error)))
    }
}

pub open spec fn broken_failure() -> RunFailureKind {
    RunFailureKind::Loop { kind: LoopFailureKind::InvariantViolation }
}

/// What a transition out of order leads to.
pub open spec fn broken(context: ContextView, iteration: u32, error: LoopTransitionError)
    -> LoopTurn {
    if context.status == RunStatus::Running {
        LoopTurn::Progress(
            LoopProgressEvent::LoopFailed { iteration, kind: broken_failure() },
            ProgressStep::Broken { error, failure: broken_failure() },
        )
    } else {
        LoopTurn::Finished(Err(LoopError::Transition(error)))
    }
}

/// A loop and what is to be done next in it.
pub type Driven = (LoopState, LoopTurn);

/// What follows a transition: `turn` where it was in order.
pub open spec fn unless_broken(
    context: ContextView,
    iteration: u32,
    change: LoopChange,
    turn: LoopTurn,
) -> Driven {
    (
        change.0,
        match change.1 {
            Ok(_) => turn,
            Err(error) => broken(context, iteration, error),
        },
    )
}

/// How a loop that is opened goes on: a retrieval that was interrupted is run again, anything else
/// begins an iteration.
pub open spec fn opened(state: LoopState) -> LoopTurn {
    if state.position == LoopPosition::PhaseRunning(LoopPhase::Retrieve) {
        match state.current_iteration {
            Some(iteration) => LoopTurn::Run(
                Place { iteration, phase: LoopPhase::Retrieve, verification: None },
            ),
            None => LoopTurn::Finished(Err(LoopError::RecoveryStateInvalid)),
        }
    } else {
        LoopTurn::BeginIteration
    }
}

/// How a phase is left: with what its program came to, if that is what the phase is for.
pub open spec fn left(state: LoopState, place: Place, outcome: PhaseOutcome) -> LoopChange {
    let misplaced = (
        state,
        Err(LoopTransitionError::IllegalPhaseCompletion { phase: place.phase }),
    );
    match outcome {
        PhaseOutcome::Done => if place.phase == LoopPhase::Verify || place.phase
            == LoopPhase::Reflect {
            misplaced
        } else {
            state.completed(place.phase)
        },
        PhaseOutcome::Verified(_) => if place.phase == LoopPhase::Verify {
            state.completed(place.phase)
        } else {
            misplaced
        },
        PhaseOutcome::Reflected(decision) => if place.phase == LoopPhase::Reflect
            && state.completed_iterations < u32::MAX {
            state.reflected(decision)
        } else {
            misplaced
        },
    }
}

/// What follows a check of the run.
pub open spec fn checked(
    state: LoopState,
    context: ContextView,
    step: CheckStep,
    result: Result<(), HarnessError>,
) -> Driven {
    match result {
        Err(error) => (state, harness_failing(context, error)),
        Ok(_) => if context.status != RunStatus::Running {
            (state, terminal(context))
        } else {
            match step {
                CheckStep::Opening => (state, opened(state)),
                CheckStep::Entering(place) => unless_broken(
                    context,
                    place.iteration,
                    state.entered(place.phase),
                    LoopTurn::Progress(
                        LoopProgressEvent::PhaseEntered {
                            iteration: place.iteration,
                            phase: place.phase,
                        },
                        ProgressStep::Entered(place),
                    ),
                ),
                CheckStep::Leaving(place, outcome) => unless_broken(
                    context,
                    place.iteration,
                    left(state, place, outcome),
                    LoopTurn::Progress(
                        LoopProgressEvent::PhaseCompleted {
                            iteration: place.iteration,
                            phase: place.phase,
                        },
                        ProgressStep::Left(place, outcome),
                    ),
                ),
            }
        },
    }
}

/// What follows the reservation of an iteration.
pub open spec fn iteration_begun(
    state: LoopState,
    context: ContextView,
    result: Result<u32, HarnessError>,
) -> Driven {
    match result {
        Err(error) => (state, harness_failing(context, error)),
        Ok(iteration) => unless_broken(
            context,
            iteration,
            state.begun(iteration),
            LoopTurn::Checkpoint(
                CheckStep::Entering(
                    Place { iteration, phase: LoopPhase::Observe, verification: None },
                ),
            ),
        ),
    }
}

pub open spec fn program_failure(phase: LoopPhase) -> RunFailureKind {
    RunFailureKind::Loop { kind: LoopFailureKind::Program { phase } }
}

/// What follows a phase of the program. A run that ended meanwhile ends the loop, whatever the
/// program says.
pub open spec fn phase_ran(
    context: ContextView,
    place: Place,
    result: Result<PhaseOutcome, LoopStepError>,
) -> LoopTurn {
    if context.status != RunStatus::Running {
        terminal(context)
    } else {
        match result {
            Ok(outcome) => LoopTurn::Checkpoint(CheckStep::Leaving(place, outcome)),
            Err(LoopStepError::Harness(error)) => harness_failing(context, error),
            Err(LoopStepError::Program) => LoopTurn::Progress(
                LoopProgressEvent::LoopFailed {
                    iteration: context.usage.iterations,
                    kind: program_failure(place.phase),
                },
                ProgressStep::ProgramFailed {
                    phase: place.phase,
                    failure: program_failure(place.phase),
                },
            ),
        }
    }
}

/// What follows a phase that was left.
pub open spec fn after_phase(place: Place, outcome: PhaseOutcome) -> LoopTurn {
    match outcome {
        PhaseOutcome::Reflected(decision) => LoopTurn::Progress(
            LoopProgressEvent::ReflectDecision {
                iteration: place.iteration,
                decision: decision.decision_kind(),
            },
            ProgressStep::Decided { iteration: place.iteration, decision },
        ),
        _ => match place.phase.successor() {
            Some(phase) => LoopTurn::Checkpoint(
                CheckStep::Entering(
                    Place {
                        iteration: place.iteration,
                        phase,
                        verification: match outcome {
                            PhaseOutcome::Verified(verification) => Some(verification),
                            _ => None,
                        },
                    },
                ),
            ),
            None => LoopTurn::Finished(
                Err(
                    LoopError::Transition(
                        LoopTransitionError::IllegalPhaseCompletion { phase: place.phase },
                    ),
                ),
            ),
        },
    }
}

/// What follows an iteration that was closed.
pub open spec fn after_iteration(state: LoopState, iteration: u32, decision: ReflectDecision)
    -> LoopTurn {
    match decision {
        ReflectDecision::Continue => LoopTurn::BeginIteration,
        ReflectDecision::Complete => LoopTurn::Progress(
            LoopProgressEvent::LoopCompleted { completed_iterations: state.completed_iterations },
            ProgressStep::Ended(TerminalLoopDecision::Complete),
        ),
        ReflectDecision::Fail { kind } => LoopTurn::Progress(
            LoopProgressEvent::LoopFailed { iteration, kind: RunFailureKind::Loop { kind } },
            ProgressStep::Ended(TerminalLoopDecision::Fail { kind }),
        ),
    }
}

/// What follows progress that was recorded while the run goes on.
pub open spec fn continued(state: LoopState, step: ProgressStep) -> LoopTurn {
    match step {
        ProgressStep::Entered(place) => LoopTurn::Run(place),
        ProgressStep::Left(place, outcome) => after_phase(place, outcome),
        ProgressStep::Decided { iteration, decision } => LoopTurn::Progress(
            LoopProgressEvent::IterationCompleted { iteration },
            ProgressStep::Closed { iteration, decision },
        ),
        ProgressStep::Closed { iteration, decision } => after_iteration(state, iteration, decision),
        ProgressStep::Ended(TerminalLoopDecision::Complete) => LoopTurn::CompleteRun,
        ProgressStep::Ended(TerminalLoopDecision::Fail { kind }) => LoopTurn::FailRun(
            RunFailureKind::Loop { kind },
            FinalStep::Ended(TerminalLoopDecision::Fail { kind }),
        ),
        ProgressStep::ProgramFailed { phase, failure } => LoopTurn::FailRun(
            failure,
            FinalStep::ProgramFailed { phase },
        ),
        ProgressStep::HarnessFailed { error, failure } => LoopTurn::FailRun(
            failure,
            FinalStep::HarnessFailed { error },
        ),
        ProgressStep::Broken { error, failure } => LoopTurn::FailRun(
            failure,
            FinalStep::Broken { error },
        ),
    }
}

/// What follows recorded progress, or progress that could not be recorded.
pub open spec fn progressed(
    state: LoopState,
    context: ContextView,
    step: ProgressStep,
    result: Result<(), HarnessError>,
) -> LoopTurn {
    match step {
        ProgressStep::HarnessFailed { error, failure } => match result {
            Ok(_) => continued(state, step),
            Err(progress_error) => if context.status != RunStatus::Running {
                LoopTurn::Finished(Err(LoopError::Harness(progress_error)))
            } else {
                LoopTurn::FailRun(
                    harness_failure(progress_error),
                    FinalStep::HarnessFailed { error: progress_error },
                )
            },
        },
        ProgressStep::Broken { error, failure } => if context.status == RunStatus::Running {
            continued(state, step)
        } else {
            LoopTurn::Finished(Err(LoopError::Transition(error)))
        },
        _ => match result {
            Err(error) => harness_failing(context, error),
            Ok(_) => if context.status != RunStatus::Running {
                terminal(context)
            } else {
                continued(state, step)
            },
        },
    }
}

pub open spec fn summary_of(
    state: LoopState,
    context: ContextView,
    terminal_decision: TerminalLoopDecision,
) -> LoopRunSummary {
    LoopRunSummary {
        reserved_iterations: context.usage.iterations,
        completed_iterations: state.completed_iterations,
        terminal_decision,
        final_status: context.status,
    }
}

/// What follows the end of the run.
pub open spec fn finalized(
    state: LoopState,
    context: ContextView,
    step: FinalStep,
    result: Result<(), HarnessError>,
) -> LoopTurn {
    match step {
        FinalStep::Broken { error } => LoopTurn::Finished(Err(LoopError::Transition(error))),
        FinalStep::Ended(decision) => match result {
            Ok(_) => LoopTurn::Finished(Ok(summary_of(state, context, decision))),
            Err(source) => if context.status is Finished {
                LoopTurn::Finished(Err(LoopError::Finalization { source }))
            } else {
                harness_failing(context, source)
            },
        },
        FinalStep::HarnessFailed { error } => match result {
            Ok(_) => LoopTurn::Finished(Err(LoopError::Harness(error))),
            Err(source) => if context.status is Finished {
                LoopTurn::Finished(Err(LoopError::Finalization { source }))
            } else {
                LoopTurn::Finished(Err(LoopError::Harness(source)))
            },
        },
        FinalStep::ProgramFailed { phase } => match result {
            Ok(_) => LoopTurn::Finished(Err(LoopError::Program { phase })),
            Err(source) => if context.status is Finished {
                LoopTurn::Finished(Err(LoopError::Finalization { source }))
            } else {
                LoopTurn::Finished(Err(LoopError::Harness(source)))
            },
        },
    }
}

/// Where a recovered loop goes on, if the program may and can go on there.
pub open spec fn resumed_state(
    durable: RunStateView,
    contract: RecoveryContract,
    version: u32,
    restart_retrieval: bool,
) -> Result<LoopState, LoopError> {
    let matched = match contract {
        RecoveryContract::Restartable { version: agreed } => agreed == version,
        RecoveryContract::RestartableRetrieval { version: agreed } => agreed == version
            && restart_retrieval,
        _ => false,
    };
    if !matched {
        Err(LoopError::RecoveryContractMismatch)
    } else {
        match durable.loop_position {
            DurableLoopPosition::NotStarted => Ok(LoopState::fresh()),
            DurableLoopPosition::Ready => Ok(
                LoopState {
                    completed_iterations: durable.completed_iterations,
                    ..LoopState::fresh()
                },
            ),
            DurableLoopPosition::PhaseRunning(LoopPhase::Retrieve) => if restart_retrieval
                && durable.restartable_knowledge_retrieval is Some && durable.current_iteration
                is Some {
                Ok(
                    LoopState {
                        current_iteration: durable.current_iteration,
                        completed_iterations: durable.completed_iterations,
                        position: LoopPosition::PhaseRunning(LoopPhase::Retrieve),
                    },
                )
            } else {
                Err(LoopError::RecoveryStateInvalid)
            },
            _ => Err(LoopError::RecoveryStateInvalid),
        }
    }
}

#[derive(Clone, Copy, Debug, Default)]
pub struct LoopEngine;

fn is_running(context: &RunContext) -> (r: bool)
    ensures
        r == (context@.status == RunStatus::Running),
{
    context.status() == RunStatus::Running
}

fn fail_with(context: &RunContext, error: HarnessError) -> (r: LoopTurn)
    ensures
        r == harness_failing(context@, error),
{
    if !is_running(context) {
        return LoopTurn::Finished(Err(LoopError::Harness(error)));
    }
    let failure = failure_kind_for_harness_error(&error);
    LoopTurn::Progress(
        LoopProgressEvent::LoopFailed { iteration: context.usage().iterations, kind: failure },
        ProgressStep::HarnessFailed { error, failure },
    )
}

fn end_terminal(context: &RunContext) -> (r: LoopTurn)
    ensures
        r == terminal(context@),
{
    LoopTurn::Finished(Err(LoopError::RunTerminal { status: context.status() }))
}

fn break_loop(context: &RunContext, iteration: u32, error: LoopTransitionError) -> (r: LoopTurn)
    ensures
        r == broken(context@, iteration, error),
{
    if !is_running(context) {
        return LoopTurn::Finished(Err(LoopError::Transition(error)));
    }
    let failure = RunFailureKind::Loop { kind: LoopFailureKind::InvariantViolation };
    LoopTurn::Progress(
        LoopProgressEvent::LoopFailed { iteration, kind: failure },
        ProgressStep::Broken { error, failure },
    )
}

fn leave(state: &mut LoopState, place: Place, outcome: PhaseOutcome) -> (r: Result<
    (),
    LoopTransitionError,
>)
    ensures
        (*final(state), r) == left(*old(state), place, outcome),
{
    match outcome {
        PhaseOutcome::Done => {
            if place.phase != LoopPhase::Verify && place.phase != LoopPhase::Reflect {
                return state.complete_phase(place.phase);
            }
        },
        PhaseOutcome::Verified(_) => {
            if place.phase == LoopPhase::Verify {
                return state.complete_phase(place.phase);
            }
        },
        PhaseOutcome::Reflected(decision) => {
            if place.phase == LoopPhase::Reflect && state.completed_iterations() < u32::MAX {
                return state.accept_reflect(decision);
            }
        },
    }
    Err(LoopTransitionError::IllegalPhaseCompletion { phase: place.phase })
}

impl LoopEngine {
    pub fn new() -> (r: Self)
        ensures
            r == LoopEngine,
    {
        LoopEngine
    }

    /// A loop is opened with a check of the run.
    pub fn open(&self) -> (r: LoopTurn)
        ensures
            r == LoopTurn::Checkpoint(CheckStep::Opening),
    {
        LoopTurn::Checkpoint(CheckStep::Opening)
    }

    /// Where a recovered loop goes on.
    pub fn resume_state(
        &self,
        durable: &DurableRunState,
        contract: RecoveryContract,
        version: u32,
        restart_retrieval: bool,
    ) -> (r: Result<LoopState, LoopError>)
        ensures
            r == resumed_state(durable@, contract, version, restart_retrieval),
    {
        let matched = match contract {
            RecoveryContract::Restartable { version: agreed } => agreed == version,
            RecoveryContract::RestartableRetrieval { version: agreed } => agreed == version
                && restart_retrieval,
            _ => false,
        };
        if !matched {
            return Err(LoopError::RecoveryContractMismatch);
        }
        match durable.loop_position() {
            DurableLoopPosition::NotStarted => Ok(LoopState::new()),
            DurableLoopPosition::Ready => Ok(
                LoopState::recovered_ready(durable.completed_iterations()),
            ),
            DurableLoopPosition::PhaseRunning(LoopPhase::Retrieve) => {
                if !restart_retrieval || durable.restartable_knowledge_retrieval().is_none() {
                    return Err(LoopError::RecoveryStateInvalid);
                }
                match durable.current_iteration() {
                    Some(iteration) => Ok(
                        LoopState::recovered_retrieve_running(
                            iteration,
                            durable.completed_iterations(),
                        ),
                    ),
                    None => Err(LoopError::RecoveryStateInvalid),
                }
            },
            _ => Err(LoopError::RecoveryStateInvalid),
        }
    }

    /// Takes the result of a check.
    pub fn on_checked(
        &self,
        state: &mut LoopState,
        context: &RunContext,
        step: CheckStep,
        result: Result<(), HarnessError>,
    ) -> (r: LoopTurn)
        ensures
            (*final(state), r) == checked(*old(state), context@, step, result),
    {
        match result {
            Err(error) => {
                return fail_with(context, error);
            },
            Ok(()) => {},
        }
        if !is_running(context) {
            return end_terminal(context);
        }
        match step {
            CheckStep::Opening => match state.position() {
                LoopPosition::PhaseRunning(LoopPhase::Retrieve) => match state.current_iteration() {
                    Some(iteration) => LoopTurn::Run(
                        Place { iteration, phase: LoopPhase::Retrieve, verification: None },
                    ),
                    None => LoopTurn::Finished(Err(LoopError::RecoveryStateInvalid)),
                },
                _ => LoopTurn::BeginIteration,
            },
            CheckStep::Entering(place) => match state.enter_phase(place.phase) {
                Ok(()) => LoopTurn::Progress(
                    LoopProgressEvent::PhaseEntered {
                        iteration: place.iteration,
                        phase: place.phase,
                    },
                    ProgressStep::Entered(place),
                ),
                Err(error) => break_loop(context, place.iteration, error),
            },
            CheckStep::Leaving(place, outcome) => match leave(state, place, outcome) {
                Ok(()) => LoopTurn::Progress(
                    LoopProgressEvent::PhaseCompleted {
                        iteration: place.iteration,
                        phase: place.phase,
                    },
                    ProgressStep::Left(place, outcome),
                ),
                Err(error) => break_loop(context, place.iteration, error),
            },
        }
    }

    /// Takes the reservation of an iteration.
    pub fn on_begun(
        &self,
        state: &mut LoopState,
        context: &RunContext,
        result: Result<u32, HarnessError>,
    ) -> (r: LoopTurn)
        ensures
            (*final(state), r) == iteration_begun(*old(state), context@, result),
    {
        let iteration = match result {
            Err(error) => {
                return fail_with(context, error);
            },
            Ok(iteration) => iteration,
        };
        match state.begin_iteration(iteration) {
            Ok(()) => LoopTurn::Checkpoint(
                CheckStep::Entering(
                    Place { iteration, phase: LoopPhase::Observe, verification: None },
                ),
            ),
            Err(error) => break_loop(context, iteration, error),
        }
    }

    /// Takes what a phase of the program came to.
    pub fn on_phase(
        &self,
        context: &RunContext,
        place: Place,
        result: Result<PhaseOutcome, LoopStepError>,
    ) -> (r: LoopTurn)
        ensures
            r == phase_ran(context@, place, result),
    {
        if !is_running(context) {
            return end_terminal(context);
        }
        match result {
            Ok(outcome) => LoopTurn::Checkpoint(CheckStep::Leaving(place, outcome)),
            Err(LoopStepError::Harness(error)) => fail_with(context, error),
            Err(LoopStepError::Program) => {
                let failure = RunFailureKind::Loop {
                    kind: LoopFailureKind::Program { phase: place.phase },
                };
                LoopTurn::Progress(
                    LoopProgressEvent::LoopFailed {
                        iteration: context.usage().iterations,
                        kind: failure,
                    },
                    ProgressStep::ProgramFailed { phase: place.phase, failure },
                )
            },
        }
    }

    /// Takes the result of recording progress.
    pub fn on_progress(
        &self,
        state: &LoopState,
        context: &RunContext,
        step: ProgressStep,
        result: Result<(), HarnessError>,
    ) -> (r: LoopTurn)
        ensures
            r == progressed(*state, context@, step, result),
    {
        match step {
            ProgressStep::HarnessFailed { error, failure } => match result {
                Ok(()) => LoopTurn::FailRun(failure, FinalStep::HarnessFailed { error }),
                Err(progress_error) => {
                    if !is_running(context) {
                        return LoopTurn::Finished(Err(LoopError::Harness(progress_error)));
                    }
                    let failure = failure_kind_for_harness_error(&progress_error);
                    LoopTurn::FailRun(failure, FinalStep::HarnessFailed { error: progress_error })
                },
            },
            ProgressStep::Broken { error, failure } => {
                if is_running(context) {
                    LoopTurn::FailRun(failure, FinalStep::Broken { error })
                } else {
                    LoopTurn::Finished(Err(LoopError::Transition(error)))
                }
            },
            other => {
                match result {
                    Err(error) => {
                        return fail_with(context, error);
                    },
                    Ok(()) => {},
                }
                if !is_running(context) {
                    return end_terminal(context);
                }
                go_on(state, other)
            },
        }
    }

    /// Takes the result of ending the run.
    pub fn on_finalized(
        &self,
        state: &LoopState,
        context: &RunContext,
        step: FinalStep,
        result: Result<(), HarnessError>,
    ) -> (r: LoopTurn)
        ensures
            r == finalized(*state, context@, step, result),
    {
        let ended = matches!(context.status(), RunStatus::Finished(_));
        match step {
            FinalStep::Broken { error } => LoopTurn::Finished(Err(LoopError::Transition(error))),
            FinalStep::Ended(decision) => match result {
                Ok(()) => LoopTurn::Finished(
                    Ok(
                        LoopRunSummary {
                            reserved_iterations: context.usage().iterations,
                            completed_iterations: state.completed_iterations(),
                            terminal_decision: decision,
                            final_status: context.status(),
                        },
                    ),
                ),
                Err(source) => {
                    if ended {
                        LoopTurn::Finished(Err(LoopError::Finalization { source }))
                    } else {
                        fail_with(context, source)
                    }
                },
            },
            FinalStep::HarnessFailed { error } => match result {
                Ok(()) => LoopTurn::Finished(Err(LoopError::Harness(error))),
                Err(source) => {
                    if ended {
                        LoopTurn::Finished(Err(LoopError::Finalization { source }))
                    } else {
                        LoopTurn::Finished(Err(LoopError::Harness(source)))
                    }
                },
            },
            FinalStep::ProgramFailed { phase } => match result {
                Ok(()) => LoopTurn::Finished(Err(LoopError::Program { phase })),
                Err(source) => {
                    if ended {
                        LoopTurn::Finished(Err(LoopError::Finalization { source }))
                    } else {
                        LoopTurn::Finished(Err(LoopError::Harness(source)))
                    }
                },
            },
        }
    }
}

/// What follows progress that was recorded while the run goes on.
fn go_on(state: &LoopState, step: ProgressStep) -> (r: LoopTurn)
    ensures
        r == continued(*state, step),
{
    match step {
        ProgressStep::Entered(place) => LoopTurn::Run(place),
        ProgressStep::Left(place, outcome) => match outcome {
            PhaseOutcome::Reflected(decision) => LoopTurn::Progress(
                LoopProgressEvent::ReflectDecision {
                    iteration: place.iteration,
                    decision: decision.kind(),
                },
                ProgressStep::Decided { iteration: place.iteration, decision },
            ),
            _ => match place.phase.next_phase() {
                Some(phase) => LoopTurn::Checkpoint(
                    CheckStep::Entering(
                        Place {
                            iteration: place.iteration,
                            phase,
                            verification: match outcome {
                                PhaseOutcome::Verified(verification) => Some(verification),
                                _ => None,
                            },
                        },
                    ),
                ),
                None => LoopTurn::Finished(
                    Err(
                        LoopError::Transition(
                            LoopTransitionError::IllegalPhaseCompletion { phase: place.phase },
                        ),
                    ),
                ),
            },
        },
        ProgressStep::Decided { iteration, decision } => LoopTurn::Progress(
            LoopProgressEvent::IterationCompleted { iteration },
            ProgressStep::Closed { iteration, decision },
        ),
        ProgressStep::Closed { iteration, decision } => match decision {
            ReflectDecision::Continue => LoopTurn::BeginIteration,
            ReflectDecision::Complete => LoopTurn::Progress(
                LoopProgressEvent::LoopCompleted {
                    completed_iterations: state.completed_iterations(),
                },
                ProgressStep::Ended(TerminalLoopDecision::Complete),
            ),
            ReflectDecision::Fail { kind } => LoopTurn::Progress(
                LoopProgressEvent::LoopFailed { iteration, kind: RunFailureKind::Loop { kind } },
                ProgressStep::Ended(TerminalLoopDecision::Fail { kind }),
            ),
        },
        ProgressStep::Ended(decision) => match decision {
            TerminalLoopDecision::Complete => LoopTurn::CompleteRun,
            TerminalLoopDecision::Fail { kind } => LoopTurn::FailRun(
                RunFailureKind::Loop { kind },
                FinalStep::Ended(TerminalLoopDecision::Fail { kind }),
            ),
        },
        ProgressStep::ProgramFailed { phase, failure } => LoopTurn::FailRun(
            failure,
            FinalStep::ProgramFailed { phase },
        ),
        ProgressStep::HarnessFailed { error, failure } => LoopTurn::FailRun(
            failure,
            FinalStep::HarnessFailed { error },
        ),
        ProgressStep::Broken { error, failure } => LoopTurn::FailRun(
            failure,
            FinalStep::Broken { error },
        ),
    }
}

/// No phase of the program runs once the run has ended, whatever happened.
pub proof fn law_no_phase_after_the_end(
    state: LoopState,
    context: ContextView,
    check: CheckStep,
    progress: ProgressStep,
    last: FinalStep,
    place: Place,
    result: Result<(), HarnessError>,
    begun: Result<u32, HarnessError>,
    ran: Result<PhaseOutcome, LoopStepError>,
)
    requires
        context.status != RunStatus::Running,
    ensures
        !(checked(state, context, check, result).1 is Run),
        !(iteration_begun(state, context, begun).1 is Run),
        !(phase_ran(context, place, ran) is Run),
        !(progressed(state, context, progress, result) is Run),
        !(finalized(state, context, last, result) is Run),
{
}

/// A phase of the program runs only once its start is recorded. The one exception is a retrieval
/// that was interrupted: its start is in the log already.
pub proof fn law_phase_runs_only_when_recorded(
    state: LoopState,
    context: ContextView,
    check: CheckStep,
    progress: ProgressStep,
    last: FinalStep,
    place: Place,
    result: Result<(), HarnessError>,
    begun: Result<u32, HarnessError>,
    ran: Result<PhaseOutcome, LoopStepError>,
)
    ensures
        progressed(state, context, progress, result) matches LoopTurn::Run(running) ==> progress
            == ProgressStep::Entered(running) && result is Ok,
        checked(state, context, check, result).1 matches LoopTurn::Run(running) ==> check
            == CheckStep::Opening && running.phase == LoopPhase::Retrieve && state.position
            == LoopPosition::PhaseRunning(LoopPhase::Retrieve),
        !(iteration_begun(state, context, begun).1 is Run),
        !(phase_ran(context, place, ran) is Run),
        !(finalized(state, context, last, result) is Run),
{
}

/// A phase that is entered has its turn in the loop, and is marked as running before its start is
/// recorded.
pub proof fn law_entered_phase_had_its_turn(
    state: LoopState,
    context: ContextView,
    check: CheckStep,
    result: Result<(), HarnessError>,
)
    ensures
        checked(state, context, check, result).1 matches LoopTurn::Progress(
            event,
            ProgressStep::Entered(place),
        ) ==> {
            &&& state.position == LoopPosition::PhaseReady(place.phase)
            &&& checked(state, context, check, result).0.position == LoopPosition::PhaseRunning(
                place.phase,
            )
            &&& event == (LoopProgressEvent::PhaseEntered {
                iteration: place.iteration,
                phase: place.phase,
            })
        },
{
}

/// The loop succeeds only with the decision of the program, once the end of the run is recorded.
pub proof fn law_success_is_the_programs_decision(
    state: LoopState,
    context: ContextView,
    check: CheckStep,
    progress: ProgressStep,
    last: FinalStep,
    place: Place,
    result: Result<(), HarnessError>,
    begun: Result<u32, HarnessError>,
    ran: Result<PhaseOutcome, LoopStepError>,
)
    ensures
        finalized(state, context, last, result) matches LoopTurn::Finished(Ok(summary)) ==> last
            == FinalStep::Ended(summary.terminal_decision) && result is Ok,
        !(checked(state, context, check, result).1 matches LoopTurn::Finished(Ok(_))),
        !(iteration_begun(state, context, begun).1 matches LoopTurn::Finished(Ok(_))),
        !(phase_ran(context, place, ran) matches LoopTurn::Finished(Ok(_))),
        !(progressed(state, context, progress, result) matches LoopTurn::Finished(Ok(_))),
{
}

} // verus!
