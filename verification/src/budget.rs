//! Execution budgets of a run and what has been reserved of them.

use vstd::prelude::*;

verus! {

pub const MAX_GRAPH_STEPS: u32 = 256;

/// A span of time in nanoseconds.
#[derive(Clone, Copy, Debug, PartialEq, Eq, Structural)]
pub struct TimeSpan {
    pub nanos: u128,
}

impl TimeSpan {
    pub fn from_millis(millis: u64) -> (r: Self)
        ensures
            r.nanos == millis * 1_000_000,
    {
        TimeSpan { nanos: millis as u128 * 1_000_000 }
    }

    pub fn from_secs(secs: u64) -> (r: Self)
        ensures
            r.nanos == secs * 1_000_000_000,
    {
        TimeSpan { nanos: secs as u128 * 1_000_000_000 }
    }

    pub fn is_zero(self) -> (r: bool)
        ensures
            r == (self.nanos == 0),
    {
        self.nanos == 0
    }
}

/// What a budget limits.
#[derive(Clone, Copy, Debug, PartialEq, Eq, Structural)]
pub enum BudgetDimension {
    ModelCalls,
    ToolCalls,
    Iterations,
    ApprovalRequests,
    GraphSteps,
    Elapsed,
}

#[derive(Clone, Copy, Debug, PartialEq, Eq, Structural)]
pub enum RunBudgetError {
    ZeroElapsed,
    GraphSteps,
}

/// The limits that one run may not exceed.
#[derive(Clone, Copy, Debug, PartialEq, Eq, Structural)]
pub struct RunBudget {
    pub max_model_calls: u32,
    pub max_tool_calls: u32,
    pub max_iterations: u32,
    pub max_approval_requests: u32,
    pub max_graph_steps: u32,
    pub max_elapsed: TimeSpan,
}

impl RunBudget {
    /// A budget without approvals and without graph steps. Zero calls are a budget; no time at
    /// all is none.
    pub fn new(
        max_model_calls: u32,
        max_tool_calls: u32,
        max_iterations: u32,
        max_elapsed: TimeSpan,
    ) -> (r: Result<Self, RunBudgetError>)
        ensures
            r == (if max_elapsed.nanos == 0 {
                Err::<RunBudget, RunBudgetError>(RunBudgetError::ZeroElapsed)
            } else {
                Ok(
                    (RunBudget {
                        max_model_calls,
                        max_tool_calls,
                        max_iterations,
                        max_approval_requests: 0,
                        max_graph_steps: 0,
                        max_elapsed,
                    }),
                )
            }),
    {
        if max_elapsed.is_zero() {
            return Err(RunBudgetError::ZeroElapsed);
        }
        Ok(
            RunBudget {
                max_model_calls,
                max_tool_calls,
                max_iterations,
                max_approval_requests: 0,
                max_graph_steps: 0,
                max_elapsed,
            },
        )
    }

    pub fn with_max_approval_requests(self, max_approval_requests: u32) -> (r: Self)
        ensures
            r == (RunBudget { max_approval_requests, ..self }),
    {
        RunBudget { max_approval_requests, ..self }
    }

    pub fn with_max_graph_steps(self, max_graph_steps: u32) -> (r: Result<Self, RunBudgetError>)
        ensures
            r == (if 0 < max_graph_steps <= MAX_GRAPH_STEPS {
                Ok::<RunBudget, RunBudgetError>((RunBudget { max_graph_steps, ..self }))
            } else {
                Err(RunBudgetError::GraphSteps)
            }),
    {
        if max_graph_steps == 0 || max_graph_steps > MAX_GRAPH_STEPS {
            return Err(RunBudgetError::GraphSteps);
        }
        Ok(RunBudget { max_graph_steps, ..self })
    }

    /// The limit on one counted dimension.
    pub open spec fn limit(self, dimension: BudgetDimension) -> int {
        match dimension {
            BudgetDimension::ModelCalls => self.max_model_calls as int,
            BudgetDimension::ToolCalls => self.max_tool_calls as int,
            BudgetDimension::Iterations => self.max_iterations as int,
            BudgetDimension::ApprovalRequests => self.max_approval_requests as int,
            BudgetDimension::GraphSteps => self.max_graph_steps as int,
            BudgetDimension::Elapsed => self.max_elapsed.nanos as int,
        }
    }
}

/// Reservations made so far. A reservation is never given back.
#[derive(Clone, Copy, Debug, PartialEq, Eq, Structural)]
pub struct BudgetUsage {
    pub model_calls: u32,
    pub tool_calls: u32,
    pub iterations: u32,
    pub approval_requests: u32,
    pub graph_steps: u32,
}

impl BudgetUsage {
    pub open spec fn none() -> Self {
        BudgetUsage {
            model_calls: 0,
            tool_calls: 0,
            iterations: 0,
            approval_requests: 0,
            graph_steps: 0,
        }
    }

    pub fn unused() -> (r: Self)
        ensures
            r == Self::none(),
    {
        BudgetUsage {
            model_calls: 0,
            tool_calls: 0,
            iterations: 0,
            approval_requests: 0,
            graph_steps: 0,
        }
    }

    /// What has been reserved of one counted dimension.
    pub open spec fn of(self, dimension: BudgetDimension) -> int {
        match dimension {
            BudgetDimension::ModelCalls => self.model_calls as int,
            BudgetDimension::ToolCalls => self.tool_calls as int,
            BudgetDimension::Iterations => self.iterations as int,
            BudgetDimension::ApprovalRequests => self.approval_requests as int,
            BudgetDimension::GraphSteps => self.graph_steps as int,
            BudgetDimension::Elapsed => 0,
        }
    }

    /// No counted dimension is over its limit.
    pub open spec fn within(self, budget: RunBudget) -> bool {
        &&& self.model_calls <= budget.max_model_calls
        &&& self.tool_calls <= budget.max_tool_calls
        &&& self.iterations <= budget.max_iterations
        &&& self.approval_requests <= budget.max_approval_requests
        &&& self.graph_steps <= budget.max_graph_steps
    }
}

/// The refusal of a reservation.
#[derive(Clone, Copy, Debug, PartialEq, Eq, Structural)]
pub struct BudgetExceeded {
    pub dimension: BudgetDimension,
}

impl BudgetExceeded {
    pub fn new(dimension: BudgetDimension) -> (r: Self)
        ensures
            r.dimension == dimension,
    {
        BudgetExceeded { dimension }
    }

    pub fn dimension(self) -> (r: BudgetDimension)
        ensures
            r == self.dimension,
    {
        self.dimension
    }
}

} // verus!
