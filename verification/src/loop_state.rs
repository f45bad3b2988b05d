//! Where a loop stands: which phase of which iteration, and what may follow.

use vstd::prelude::*;

use crate::status::{LoopDecisionKind, LoopFailureKind, LoopPhase};

verus! {

#[derive(Clone, Copy, Debug, PartialEq, Eq, Structural)]
pub enum VerificationResult {
    Passed,
    Failed,
}

/// What a loop decides at the end of an iteration.
#[derive(Clone, Copy, Debug, PartialEq, Eq, Structural)]
pub enum ReflectDecision {
    Complete,
    Continue,
    Fail { kind: LoopFailureKind },
}

impl ReflectDecision {
    pub open spec fn decision_kind(self) -> LoopDecisionKind {
        match self {
            ReflectDecision::Complete => LoopDecisionKind::Complete,
            ReflectDecision::Continue => LoopDecisionKind::Continue,
            ReflectDecision::Fail { .. } => LoopDecisionKind::Fail,
        }
    }

    pub fn kind(self) -> (r: LoopDecisionKind)
        ensures
            r == self.decision_kind(),
    {
        match self {
            ReflectDecision::Complete => LoopDecisionKind::Complete,
            ReflectDecision::Continue => LoopDecisionKind::Continue,
            ReflectDecision::Fail { .. } => LoopDecisionKind::Fail,
        }
    }
}

#[derive(Clone, Copy, Debug, PartialEq, Eq, Structural)]
pub enum LoopTerminal {
    Complete,
    Fail { kind: LoopFailureKind },
}

#[derive(Clone, Copy, Debug, PartialEq, Eq, Structural)]
pub enum LoopPosition {
    Ready,
    PhaseReady(LoopPhase),
    PhaseRunning(LoopPhase),
    Finished(LoopTerminal),
}

#[derive(Clone, Copy, Debug, PartialEq, Eq, Structural)]
pub enum LoopTransitionError {
    AlreadyTerminal,
    BeginRequiresReady,
    IllegalPhaseEntry { phase: LoopPhase },
    IllegalPhaseCompletion { phase: LoopPhase },
}

/// Where a loop stands. It lives as long as the process; what survives is in the run's log.
#[derive(Clone, Copy, Debug, PartialEq, Eq, Structural)]
pub struct LoopState {
    pub current_iteration: Option<u32>,
    pub completed_iterations: u32,
    pub position: LoopPosition,
}

/// A state and what became of a transition of it.
pub type LoopChange = (LoopState, Result<(), LoopTransitionError>);

impl LoopState {
    pub open spec fn fresh() -> LoopState {
        LoopState {
            current_iteration: None,
            completed_iterations: 0,
            position: LoopPosition::Ready,
        }
    }

    /// An iteration begins with its first phase.
    pub open spec fn begun(self, iteration: u32) -> LoopChange {
        if self.position == LoopPosition::Ready {
            (
                LoopState {
                    current_iteration: Some(iteration),
                    position: LoopPosition::PhaseReady(LoopPhase::Observe),
                    ..self
                },
                Ok(()),
            )
        } else {
            (self, Err(LoopTransitionError::BeginRequiresReady))
        }
    }

    /// Only the phase whose turn it is is entered.
    pub open spec fn entered(self, phase: LoopPhase) -> LoopChange {
        if self.position is Finished {
            (self, Err(LoopTransitionError::AlreadyTerminal))
        } else if self.position == LoopPosition::PhaseReady(phase) {
            (LoopState { position: LoopPosition::PhaseRunning(phase), ..self }, Ok(()))
        } else {
            (self, Err(LoopTransitionError::IllegalPhaseEntry { phase }))
        }
    }

    /// Only the phase that runs is completed, and the next one has its turn.
    pub open spec fn completed(self, phase: LoopPhase) -> LoopChange {
        if self.position is Finished {
            (self, Err(LoopTransitionError::AlreadyTerminal))
        } else if self.position == LoopPosition::PhaseRunning(phase) && phase.successor() is Some {
            (
                LoopState { position: LoopPosition::PhaseReady(phase.successor()->0), ..self },
                Ok(()),
            )
        } else {
            (self, Err(LoopTransitionError::IllegalPhaseCompletion { phase }))
        }
    }

    /// The last phase ends with a decision.
    pub open spec fn reflected(self, decision: ReflectDecision) -> LoopChange {
        if self.position is Finished {
            (self, Err(LoopTransitionError::AlreadyTerminal))
        } else if self.position == LoopPosition::PhaseRunning(LoopPhase::Reflect) {
            let counted = LoopState {
                completed_iterations: (self.completed_iterations + 1) as u32,
                ..self
            };
            (
                match decision {
                    ReflectDecision::Continue => LoopState {
                        current_iteration: None,
                        position: LoopPosition::Ready,
                        ..counted
                    },
                    ReflectDecision::Complete => LoopState {
                        position: LoopPosition::Finished(LoopTerminal::Complete),
                        ..counted
                    },
                    ReflectDecision::Fail { kind } => LoopState {
                        position: LoopPosition::Finished(LoopTerminal::Fail { kind }),
                        ..counted
                    },
                },
                Ok(()),
            )
        } else {
            (self, Err(LoopTransitionError::IllegalPhaseCompletion { phase: LoopPhase::Reflect }))
        }
    }

    pub fn new() -> (r: Self)
        ensures
            r == LoopState::fresh(),
    {
        LoopState { current_iteration: None, completed_iterations: 0, position: LoopPosition::Ready }
    }

    /// A loop that was found between two iterations.
    pub fn recovered_ready(completed_iterations: u32) -> (r: Self)
        ensures
            r == (LoopState { completed_iterations, ..LoopState::fresh() }),
    {
        LoopState { current_iteration: None, completed_iterations, position: LoopPosition::Ready }
    }

    /// A loop that was found in the middle of retrieving.
    pub fn recovered_retrieve_running(current_iteration: u32, completed_iterations: u32) -> (r:
        Self)
        ensures
            r == (LoopState {
                current_iteration: Some(current_iteration),
                completed_iterations,
                position: LoopPosition::PhaseRunning(LoopPhase::Retrieve),
            }),
    {
        LoopState {
            current_iteration: Some(current_iteration),
            completed_iterations,
            position: LoopPosition::PhaseRunning(LoopPhase::Retrieve),
        }
    }

    pub fn current_iteration(&self) -> (r: Option<u32>)
        ensures
            r == self.current_iteration,
    {
        self.current_iteration
    }

    pub fn completed_iterations(&self) -> (r: u32)
        ensures
            r == self.completed_iterations,
    {
        self.completed_iterations
    }

    pub fn position(&self) -> (r: LoopPosition)
        ensures
            r == self.position,
    {
        self.position
    }

    pub fn begin_iteration(&mut self, iteration: u32) -> (r: Result<(), LoopTransitionError>)
        ensures
            (*final(self), r) == old(self).begun(iteration),
    {
        match self.position {
            LoopPosition::Ready => {
                self.current_iteration = Some(iteration);
                self.position = LoopPosition::PhaseReady(LoopPhase::Observe);
                Ok(())
            },
            _ => Err(LoopTransitionError::BeginRequiresReady),
        }
    }

    pub fn enter_phase(&mut self, phase: LoopPhase) -> (r: Result<(), LoopTransitionError>)
        ensures
            (*final(self), r) == old(self).entered(phase),
    {
        match self.position {
            LoopPosition::Finished(_) => Err(LoopTransitionError::AlreadyTerminal),
            LoopPosition::PhaseReady(expected) => {
                if expected == phase {
                    self.position = LoopPosition::PhaseRunning(phase);
                    Ok(())
                } else {
                    Err(LoopTransitionError::IllegalPhaseEntry { phase })
                }
            },
            _ => Err(LoopTransitionError::IllegalPhaseEntry { phase }),
        }
    }

    pub fn complete_phase(&mut self, phase: LoopPhase) -> (r: Result<(), LoopTransitionError>)
        ensures
            (*final(self), r) == old(self).completed(phase),
    {
        match self.position {
            LoopPosition::Finished(_) => Err(LoopTransitionError::AlreadyTerminal),
            LoopPosition::PhaseRunning(current) => {
                if current != phase {
                    return Err(LoopTransitionError::IllegalPhaseCompletion { phase });
                }
                match phase.next_phase() {
                    Some(next) => {
                        self.position = LoopPosition::PhaseReady(next);
                        Ok(())
                    },
                    None => Err(LoopTransitionError::IllegalPhaseCompletion { phase }),
                }
            },
            _ => Err(LoopTransitionError::IllegalPhaseCompletion { phase }),
        }
    }

    pub fn accept_reflect(&mut self, decision: ReflectDecision) -> (r: Result<
        (),
        LoopTransitionError,
    >)
        requires
            old(self).completed_iterations < u32::MAX,
        ensures
            (*final(self), r) == old(self).reflected(decision),
    {
        match self.position {
            LoopPosition::PhaseRunning(LoopPhase::Reflect) => {
                self.completed_iterations = self.completed_iterations + 1;
                match decision {
                    ReflectDecision::Continue => {
                        self.current_iteration = None;
                        self.position = LoopPosition::Ready;
                    },
                    ReflectDecision::Complete => {
                        self.position = LoopPosition::Finished(LoopTerminal::Complete);
                    },
                    ReflectDecision::Fail { kind } => {
                        self.position = LoopPosition::Finished(LoopTerminal::Fail { kind });
                    },
                }
                Ok(())
            },
            LoopPosition::Finished(_) => Err(LoopTransitionError::AlreadyTerminal),
            _ => Err(
                LoopTransitionError::IllegalPhaseCompletion { phase: LoopPhase::Reflect },
            ),
        }
    }
}

impl Default for LoopState {
    fn default() -> (r: Self)
        ensures
            r == LoopState::fresh(),
    {
        LoopState::new()
    }
}

/// A loop that has finished stays as it is, whatever is tried.
pub proof fn law_finished_loop_stays(
    state: LoopState,
    iteration: u32,
    phase: LoopPhase,
    decision: ReflectDecision,
)
    requires
        state.position is Finished,
    ensures
        state.begun(iteration).0 == state && state.begun(iteration).1 is Err,
        state.entered(phase).0 == state && state.entered(phase).1 is Err,
        state.completed(phase).0 == state && state.completed(phase).1 is Err,
        state.reflected(decision).0 == state && state.reflected(decision).1 is Err,
{
}

/// A transition that is refused changes nothing.
pub proof fn law_refused_transition_changes_nothing(
    state: LoopState,
    iteration: u32,
    phase: LoopPhase,
    decision: ReflectDecision,
)
    ensures
        state.begun(iteration).1 is Err ==> state.begun(iteration).0 == state,
        state.entered(phase).1 is Err ==> state.entered(phase).0 == state,
        state.completed(phase).1 is Err ==> state.completed(phase).0 == state,
        state.reflected(decision).1 is Err ==> state.reflected(decision).0 == state,
{
}

/// The phases of an iteration run in their one order: whatever phase is entered after a phase was
/// completed is its successor, and the first phase of an iteration is `Observe`.
pub proof fn law_phases_run_in_order(
    state: LoopState,
    iteration: u32,
    first: LoopPhase,
    second: LoopPhase,
)
    ensures
        state.completed(first).1 is Ok && state.completed(first).0.entered(second).1 is Ok
            ==> first.successor() == Some(second),
        state.begun(iteration).1 is Ok && state.begun(iteration).0.entered(second).1 is Ok
            ==> second == LoopPhase::Observe,
        state.entered(first).1 is Ok && state.entered(first).0.completed(second).1 is Ok ==> second
            == first,
{
}

/// A phase that is entered and completed.
pub open spec fn ran(change: LoopChange, phase: LoopPhase) -> LoopChange {
    if change.1 is Err {
        change
    } else {
        let (running, entered) = change.0.entered(phase);
        if entered is Err {
            (running, entered)
        } else {
            running.completed(phase)
        }
    }
}

/// An iteration observes, retrieves, plans, acts and verifies, in this order, and then reflects.
/// It is counted once. To continue is to stand ready for the next iteration; to complete or to fail
/// is to have finished so.
pub proof fn law_iteration_takes_six_phases(
    state: LoopState,
    iteration: u32,
    decision: ReflectDecision,
)
    requires
        state.position == LoopPosition::Ready,
        state.completed_iterations < u32::MAX,
    ensures
        ({
            let begun = state.begun(iteration);
            let observed = ran(begun, LoopPhase::Observe);
            let retrieved = ran(observed, LoopPhase::Retrieve);
            let planned = ran(retrieved, LoopPhase::Plan);
            let acted = ran(planned, LoopPhase::Act);
            let verified = ran(acted, LoopPhase::Verify);
            let reflecting = verified.0.entered(LoopPhase::Reflect);
            let (after, result) = reflecting.0.reflected(decision);
            &&& begun.1 is Ok && begun.0.current_iteration == Some(iteration)
            &&& verified.1 is Ok && reflecting.1 is Ok && result is Ok
            &&& reflecting.0.current_iteration == Some(iteration)
            &&& reflecting.0.completed_iterations == state.completed_iterations
            &&& after.completed_iterations == state.completed_iterations + 1
            &&& match decision {
                ReflectDecision::Continue => after.position == LoopPosition::Ready
                    && after.current_iteration is None,
                ReflectDecision::Complete => after.position == LoopPosition::Finished(
                    LoopTerminal::Complete,
                ) && after.current_iteration == Some(iteration),
                ReflectDecision::Fail { kind } => after.position == LoopPosition::Finished(
                    LoopTerminal::Fail { kind },
                ) && after.current_iteration == Some(iteration),
            }
        }),
{
}

/// An iteration begins only between iterations, a phase is entered only in its turn and completed
/// only while it runs, and a loop reflects only in its last phase. Entering and completing change
/// nothing but the position.
pub proof fn law_transition_needs_its_position(
    state: LoopState,
    iteration: u32,
    phase: LoopPhase,
    decision: ReflectDecision,
)
    ensures
        state.begun(iteration).1 is Ok <==> state.position == LoopPosition::Ready,
        state.entered(phase).1 is Ok <==> state.position == LoopPosition::PhaseReady(phase),
        state.completed(phase).1 is Ok <==> state.position == LoopPosition::PhaseRunning(phase)
            && phase != LoopPhase::Reflect,
        state.reflected(decision).1 is Ok <==> state.position == LoopPosition::PhaseRunning(
            LoopPhase::Reflect,
        ),
        state.entered(phase).1 is Ok ==> state.entered(phase).0 == (LoopState {
            position: LoopPosition::PhaseRunning(phase),
            ..state
        }),
        ({
            let after = state.completed(phase).0;
            after.current_iteration == state.current_iteration && after.completed_iterations
                == state.completed_iterations
        }),
        state.begun(iteration).0.completed_iterations == state.completed_iterations,
{
}

/// A refusal says what was wrong: that the loop has finished, or which phase was out of turn.
pub proof fn law_refusal_names_the_phase(
    state: LoopState,
    iteration: u32,
    phase: LoopPhase,
    decision: ReflectDecision,
)
    ensures
        state.begun(iteration).1 matches Err(error) ==> error
            == LoopTransitionError::BeginRequiresReady,
        state.entered(phase).1 matches Err(error) ==> error == (if state.position is Finished {
            LoopTransitionError::AlreadyTerminal
        } else {
            LoopTransitionError::IllegalPhaseEntry { phase }
        }),
        state.completed(phase).1 matches Err(error) ==> error == (if state.position is Finished {
            LoopTransitionError::AlreadyTerminal
        } else {
            LoopTransitionError::IllegalPhaseCompletion { phase }
        }),
        state.reflected(decision).1 matches Err(error) ==> error == (if state.position is Finished {
            LoopTransitionError::AlreadyTerminal
        } else {
            LoopTransitionError::IllegalPhaseCompletion { phase: LoopPhase::Reflect }
        }),
{
}

} // verus!
