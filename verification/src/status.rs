//! Lifecycle of a run, and the phases of the loop that drives it.

use vstd::prelude::*;

use crate::budget::BudgetDimension;

verus! {

/// The six phases of an iteration, in order.
#[derive(Clone, Copy, Debug, PartialEq, Eq, Structural)]
pub enum LoopPhase {
    Observe,
    Retrieve,
    Plan,
    Act,
    Verify,
    Reflect,
}

impl LoopPhase {
    /// The phase that follows, if one does.
    pub open spec fn successor(self) -> Option<LoopPhase> {
        match self {
            LoopPhase::Observe => Some(LoopPhase::Retrieve),
            LoopPhase::Retrieve => Some(LoopPhase::Plan),
            LoopPhase::Plan => Some(LoopPhase::Act),
            LoopPhase::Act => Some(LoopPhase::Verify),
            LoopPhase::Verify => Some(LoopPhase::Reflect),
            LoopPhase::Reflect => None,
        }
    }

    pub fn next_phase(self) -> (r: Option<LoopPhase>)
        ensures
            r == self.successor(),
    {
        match self {
            LoopPhase::Observe => Some(LoopPhase::Retrieve),
            LoopPhase::Retrieve => Some(LoopPhase::Plan),
            LoopPhase::Plan => Some(LoopPhase::Act),
            LoopPhase::Act => Some(LoopPhase::Verify),
            LoopPhase::Verify => Some(LoopPhase::Reflect),
            LoopPhase::Reflect => None,
        }
    }
}

#[derive(Clone, Copy, Debug, PartialEq, Eq, Structural)]
pub enum LoopDecisionKind {
    Continue,
    Complete,
    Fail,
}

#[derive(Clone, Copy, Debug, PartialEq, Eq, Structural)]
pub enum LoopFailureKind {
    InvariantViolation,
    Program { phase: LoopPhase },
    VerificationFailed,
}

#[derive(Clone, Copy, Debug, PartialEq, Eq, Structural)]
pub enum GraphFailureKind {
    Callback,
}

#[derive(Clone, Copy, Debug, PartialEq, Eq, Structural)]
pub enum RunFailureKind {
    AuditUnavailable,
    Model,
    Tool,
    Approval,
    Containment,
    Internal,
    Loop { kind: LoopFailureKind },
    Graph { kind: GraphFailureKind },
}

#[derive(Clone, Copy, Debug, PartialEq, Eq, Structural)]
pub enum RunOutcome {
    Completed,
    Cancelled,
    Failed { kind: RunFailureKind },
    BudgetExceeded { dimension: BudgetDimension },
}

#[derive(Clone, Copy, Debug, PartialEq, Eq, Structural)]
pub enum RunStatus {
    Pending,
    Running,
    Finished(RunOutcome),
}

#[derive(Clone, Copy, Debug, PartialEq, Eq, Structural)]
pub enum RunStateError {
    NotPending,
    NotRunning,
}

impl RunStatus {
    /// Only a pending run starts.
    pub fn start(self) -> (r: Result<RunStatus, RunStateError>)
        ensures
            r == (if self == RunStatus::Pending {
                Ok::<RunStatus, RunStateError>(RunStatus::Running)
            } else {
                Err(RunStateError::NotPending)
            }),
    {
        match self {
            RunStatus::Pending => Ok(RunStatus::Running),
            _ => Err(RunStateError::NotPending),
        }
    }

    /// Only a running run finishes, and it finishes once.
    pub fn finish(self, outcome: RunOutcome) -> (r: Result<RunStatus, RunStateError>)
        ensures
            r == (if self == RunStatus::Running {
                Ok::<RunStatus, RunStateError>(RunStatus::Finished(outcome))
            } else {
                Err(RunStateError::NotRunning)
            }),
    {
        match self {
            RunStatus::Running => Ok(RunStatus::Finished(outcome)),
            _ => Err(RunStateError::NotRunning),
        }
    }
}

} // verus!
