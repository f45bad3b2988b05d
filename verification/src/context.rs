//! The live context of a run: its reservations, its lifecycle and its place in the log.

use vstd::prelude::*;

use crate::budget::{BudgetDimension, BudgetExceeded, BudgetUsage, RunBudget, TimeSpan, MAX_GRAPH_STEPS};
use crate::digest::Digest32;
use crate::events::{AgentEvent, AgentEventKind, EventSequence, CURRENT_EVENT_SCHEMA_VERSION};
use crate::ids::{RunId, SessionId};
use crate::persistence::{DurableCheckpoint, RecoveryContract, RunKey, RunRecord, CURRENT_CHECKPOINT_SCHEMA_VERSION};
use crate::recovery::{initial_state, option_bytes, reduce, DurableRunState, RunStateView};
use crate::status::{RunOutcome, RunStateError, RunStatus};

verus! {

#[derive(Clone, Copy, Debug, PartialEq, Eq, Structural)]
pub enum RunContextError {
    InvalidState(RunStateError),
    DeadlineOutOfRange,
    WallClockOutOfRange,
    RuntimeUnavailable,
    EventSequenceExhausted,
    DurableTransitionInvalid,
}

/// A reading of the process-local monotonic clock, in nanoseconds.
#[derive(Clone, Copy, Debug, PartialEq, Eq, Structural)]
pub struct MonotonicTime {
    pub nanos: u128,
}

impl MonotonicTime {
    pub open spec fn plus(self, span: TimeSpan) -> Option<MonotonicTime> {
        if self.nanos + span.nanos <= u128::MAX {
            Some(MonotonicTime { nanos: (self.nanos + span.nanos) as u128 })
        } else {
            None
        }
    }

    pub fn checked_add(self, span: TimeSpan) -> (r: Option<MonotonicTime>)
        ensures
            r == self.plus(span),
    {
        match self.nanos.checked_add(span.nanos) {
            Some(nanos) => Some(MonotonicTime { nanos }),
            None => None,
        }
    }
}

/// What is seen of the world at the moment of a decision.
#[derive(Clone, Copy, Debug, PartialEq, Eq, Structural)]
pub struct Observation {
    pub cancelled: bool,
    pub now: MonotonicTime,
}

/// The context of one run in this process.
pub struct RunContext {
    key: RunKey,
    budget: RunBudget,
    usage: BudgetUsage,
    status: RunStatus,
    next_event_sequence: EventSequence,
    deadline_at: Option<MonotonicTime>,
    audit_degraded: bool,
    recovery_contract: RecoveryContract,
    durable_state: DurableRunState,
    persistence_failed: bool,
}

pub struct ContextView {
    pub key: RunKey,
    pub budget: RunBudget,
    pub usage: BudgetUsage,
    pub status: RunStatus,
    pub next_event_sequence: EventSequence,
    pub deadline_at: Option<MonotonicTime>,
    pub audit_degraded: bool,
    pub recovery_contract: RecoveryContract,
    pub durable: RunStateView,
    pub persistence_failed: bool,
}

impl View for RunContext {
    type V = ContextView;

    closed spec fn view(&self) -> ContextView {
        ContextView {
            key: self.key,
            budget: self.budget,
            usage: self.usage,
            status: self.status,
            next_event_sequence: self.next_event_sequence,
            deadline_at: self.deadline_at,
            audit_degraded: self.audit_degraded,
            recovery_contract: self.recovery_contract,
            durable: self.durable_state@,
            persistence_failed: self.persistence_failed,
        }
    }
}

/// The context of a run that has not been started.
pub open spec fn fresh_context(key: RunKey, budget: RunBudget, contract: RecoveryContract)
    -> ContextView {
    ContextView {
        key,
        budget,
        usage: BudgetUsage::none(),
        status: RunStatus::Pending,
        next_event_sequence: EventSequence(0),
        deadline_at: None,
        audit_degraded: false,
        recovery_contract: contract,
        durable: initial_state(key, budget, contract),
        persistence_failed: false,
    }
}

/// The context and what became of a change to it.
pub type ContextStep<T, E> = (ContextView, Result<T, E>);

impl ContextView {
    pub open spec fn degraded(self) -> ContextView {
        ContextView {
            audit_degraded: true,
            durable: RunStateView { audit_degraded: true, ..self.durable },
            ..self
        }
    }

    pub open spec fn with_usage(self, usage: BudgetUsage) -> ContextView {
        ContextView { usage, ..self }
    }

    /// The reservation of one unit of a counted dimension.
    pub open spec fn reserved(self, dimension: BudgetDimension) -> BudgetUsage {
        match dimension {
            BudgetDimension::ModelCalls => BudgetUsage {
                model_calls: (self.usage.model_calls + 1) as u32,
                ..self.usage
            },
            BudgetDimension::ToolCalls => BudgetUsage {
                tool_calls: (self.usage.tool_calls + 1) as u32,
                ..self.usage
            },
            BudgetDimension::Iterations => BudgetUsage {
                iterations: (self.usage.iterations + 1) as u32,
                ..self.usage
            },
            BudgetDimension::ApprovalRequests => BudgetUsage {
                approval_requests: (self.usage.approval_requests + 1) as u32,
                ..self.usage
            },
            BudgetDimension::GraphSteps => BudgetUsage {
                graph_steps: (self.usage.graph_steps + 1) as u32,
                ..self.usage
            },
            BudgetDimension::Elapsed => self.usage,
        }
    }

    /// One more unit of a counted dimension is within the budget.
    pub open spec fn has_room(self, dimension: BudgetDimension) -> bool {
        &&& self.usage.of(dimension) < self.budget.limit(dimension)
        &&& dimension == BudgetDimension::GraphSteps ==> self.budget.max_graph_steps
            <= MAX_GRAPH_STEPS
    }

    pub open spec fn finished(self, outcome: RunOutcome) -> ContextView {
        ContextView { status: RunStatus::Finished(outcome), ..self }
    }

    /// The event that takes the next place in the log.
    pub open spec fn event(self, kind: AgentEventKind) -> AgentEvent {
        AgentEvent {
            schema_version: CURRENT_EVENT_SCHEMA_VERSION,
            run_id: self.key.run_id,
            sequence: self.next_event_sequence,
            kind,
        }
    }

    /// The place in the log is taken.
    pub open spec fn staged(self) -> ContextView {
        ContextView {
            next_event_sequence: EventSequence((self.next_event_sequence.0 + 1) as u64),
            ..self
        }
    }
}

impl RunContext {
    pub fn new(run_id: RunId, session_id: SessionId, budget: RunBudget) -> (r: Self)
        ensures
            r@ == fresh_context(
                RunKey { run_id, session_id },
                budget,
                RecoveryContract::NonRestartable,
            ),
    {
        Self::new_with_recovery_contract(
            run_id,
            session_id,
            budget,
            RecoveryContract::NonRestartable,
        )
    }

    pub fn new_restartable(
        run_id: RunId,
        session_id: SessionId,
        budget: RunBudget,
        recovery_version: u32,
    ) -> (r: Self)
        ensures
            r@ == fresh_context(
                RunKey { run_id, session_id },
                budget,
                RecoveryContract::Restartable { version: recovery_version },
            ),
    {
        Self::new_with_recovery_contract(
            run_id,
            session_id,
            budget,
            RecoveryContract::Restartable { version: recovery_version },
        )
    }

    /// A run whose program can issue an interrupted read-only retrieval afresh.
    pub fn new_restartable_retrieval(
        run_id: RunId,
        session_id: SessionId,
        budget: RunBudget,
        recovery_version: u32,
    ) -> (r: Self)
        ensures
            r@ == fresh_context(
                RunKey { run_id, session_id },
                budget,
                RecoveryContract::RestartableRetrieval { version: recovery_version },
            ),
    {
        Self::new_with_recovery_contract(
            run_id,
            session_id,
            budget,
            RecoveryContract::RestartableRetrieval { version: recovery_version },
        )
    }

    pub fn new_graph(
        run_id: RunId,
        session_id: SessionId,
        budget: RunBudget,
        program_version: u32,
        definition_digest: Digest32,
    ) -> (r: Self)
        ensures
            r@ == fresh_context(
                RunKey { run_id, session_id },
                budget,
                RecoveryContract::Graph { program_version, definition_digest },
            ),
    {
        Self::new_with_recovery_contract(
            run_id,
            session_id,
            budget,
            RecoveryContract::Graph { program_version, definition_digest },
        )
    }

    fn new_with_recovery_contract(
        run_id: RunId,
        session_id: SessionId,
        budget: RunBudget,
        recovery_contract: RecoveryContract,
    ) -> (r: Self)
        ensures
            r@ == fresh_context(RunKey { run_id, session_id }, budget, recovery_contract),
    {
        let key = RunKey::new(run_id, session_id);
        RunContext {
            key,
            budget,
            usage: BudgetUsage::unused(),
            status: RunStatus::Pending,
            next_event_sequence: EventSequence::new(0),
            deadline_at: None,
            audit_degraded: false,
            recovery_contract,
            durable_state: DurableRunState::initial(key, budget, recovery_contract),
            persistence_failed: false,
        }
    }

    pub fn run_id(&self) -> (r: RunId)
        ensures
            r == self@.key.run_id,
    {
        self.key.run_id()
    }

    pub fn session_id(&self) -> (r: SessionId)
        ensures
            r == self@.key.session_id,
    {
        self.key.session_id()
    }

    pub fn key(&self) -> (r: RunKey)
        ensures
            r == self@.key,
    {
        self.key
    }

    pub fn budget(&self) -> (r: &RunBudget)
        ensures
            *r == self@.budget,
    {
        &self.budget
    }

    pub fn usage(&self) -> (r: BudgetUsage)
        ensures
            r == self@.usage,
    {
        self.usage
    }

    pub fn status(&self) -> (r: RunStatus)
        ensures
            r == self@.status,
    {
        self.status
    }

    pub fn audit_degraded(&self) -> (r: bool)
        ensures
            r == self@.audit_degraded,
    {
        self.audit_degraded
    }

    pub fn recovery_contract(&self) -> (r: RecoveryContract)
        ensures
            r == self@.recovery_contract,
    {
        self.recovery_contract
    }

    pub fn durable_state(&self) -> (r: &DurableRunState)
        ensures
            r@ == self@.durable,
    {
        &self.durable_state
    }

    pub fn persistence_failed(&self) -> (r: bool)
        ensures
            r == self@.persistence_failed,
    {
        self.persistence_failed
    }

    pub fn mark_persistence_failed(&mut self)
        ensures
            final(self)@ == (ContextView { persistence_failed: true, ..old(self)@ }),
    {
        self.persistence_failed = true;
    }

    pub fn mark_audit_degraded(&mut self)
        ensures
            final(self)@ == old(self)@.degraded(),
    {
        self.audit_degraded = true;
        self.durable_state.set_audit_degraded();
    }

    /// Starts the run on the monotonic clock and on the wall clock. `started_at_unix_millis` is
    /// missing where the wall clock cannot be written as milliseconds since the epoch.
    pub fn commit_running(
        &mut self,
        started_at: MonotonicTime,
        started_at_unix_millis: Option<u64>,
    ) -> (r: Result<(), RunContextError>)
        ensures
            r == (if old(self)@.status != RunStatus::Pending {
                Err::<(), RunContextError>(RunContextError::InvalidState(RunStateError::NotPending))
            } else if started_at.plus(old(self)@.budget.max_elapsed) is None {
                Err(RunContextError::DeadlineOutOfRange)
            } else if started_at_unix_millis is None {
                Err(RunContextError::WallClockOutOfRange)
            } else {
                Ok(())
            }),
            r is Err ==> final(self)@ == old(self)@,
            r is Ok ==> final(self)@ == (ContextView {
                status: RunStatus::Running,
                deadline_at: started_at.plus(old(self)@.budget.max_elapsed),
                durable: RunStateView { started_at_unix_millis, ..old(self)@.durable },
                ..old(self)@
            }),
    {
        let status = match self.status.start() {
            Ok(status) => status,
            Err(error) => {
                return Err(RunContextError::InvalidState(error));
            },
        };
        let deadline_at = match started_at.checked_add(self.budget.max_elapsed) {
            Some(deadline) => deadline,
            None => {
                return Err(RunContextError::DeadlineOutOfRange);
            },
        };
        let millis = match started_at_unix_millis {
            Some(millis) => millis,
            None => {
                return Err(RunContextError::WallClockOutOfRange);
            },
        };
        self.status = status;
        self.deadline_at = Some(deadline_at);
        self.durable_state.set_started_at(millis);
        Ok(())
    }

    pub fn commit_finished(&mut self, outcome: RunOutcome) -> (r: Result<(), RunContextError>)
        ensures
            old(self)@.status == RunStatus::Running ==> r is Ok && final(self)@ == old(
                self,
            )@.finished(outcome),
            old(self)@.status != RunStatus::Running ==> r == Err::<(), RunContextError>(
                RunContextError::InvalidState(RunStateError::NotRunning),
            ) && final(self)@ == old(self)@,
    {
        match self.status.finish(outcome) {
            Ok(status) => {
                self.status = status;
                Ok(())
            },
            Err(error) => Err(RunContextError::InvalidState(error)),
        }
    }

    pub fn started_at_unix_millis(&self) -> (r: Result<u64, RunContextError>)
        ensures
            r == (match self@.durable.started_at_unix_millis {
                Some(millis) => Ok::<u64, RunContextError>(millis),
                None => Err(RunContextError::WallClockOutOfRange),
            }),
    {
        match self.durable_state.started_at_unix_millis() {
            Some(millis) => Ok(millis),
            None => Err(RunContextError::WallClockOutOfRange),
        }
    }

    pub fn deadline_at(&self) -> (r: Result<MonotonicTime, RunContextError>)
        ensures
            r == (match self@.deadline_at {
                Some(deadline) => Ok::<MonotonicTime, RunContextError>(deadline),
                None => Err(RunContextError::RuntimeUnavailable),
            }),
    {
        match self.deadline_at {
            Some(deadline) => Ok(deadline),
            None => Err(RunContextError::RuntimeUnavailable),
        }
    }

    pub fn reserve_model_call(&mut self) -> (r: Result<(), BudgetExceeded>)
        ensures
            old(self)@.has_room(BudgetDimension::ModelCalls) ==> r is Ok && final(self)@ == old(
                self,
            )@.with_usage(old(self)@.reserved(BudgetDimension::ModelCalls)),
            !old(self)@.has_room(BudgetDimension::ModelCalls) ==> r == Err::<(), BudgetExceeded>(
                BudgetExceeded { dimension: BudgetDimension::ModelCalls },
            ) && final(self)@ == old(self)@,
    {
        if self.usage.model_calls >= self.budget.max_model_calls {
            return Err(BudgetExceeded::new(BudgetDimension::ModelCalls));
        }
        self.usage.model_calls = self.usage.model_calls + 1;
        Ok(())
    }

    pub fn reserve_tool_call(&mut self) -> (r: Result<(), BudgetExceeded>)
        ensures
            old(self)@.has_room(BudgetDimension::ToolCalls) ==> r is Ok && final(self)@ == old(
                self,
            )@.with_usage(old(self)@.reserved(BudgetDimension::ToolCalls)),
            !old(self)@.has_room(BudgetDimension::ToolCalls) ==> r == Err::<(), BudgetExceeded>(
                BudgetExceeded { dimension: BudgetDimension::ToolCalls },
            ) && final(self)@ == old(self)@,
    {
        if self.usage.tool_calls >= self.budget.max_tool_calls {
            return Err(BudgetExceeded::new(BudgetDimension::ToolCalls));
        }
        self.usage.tool_calls = self.usage.tool_calls + 1;
        Ok(())
    }

    /// Reserves an iteration and numbers it, from one.
    pub fn reserve_iteration(&mut self) -> (r: Result<u32, BudgetExceeded>)
        ensures
            old(self)@.has_room(BudgetDimension::Iterations) ==> r == Ok::<u32, BudgetExceeded>(
                final(self)@.usage.iterations,
            ) && final(self)@ == old(self)@.with_usage(
                old(self)@.reserved(BudgetDimension::Iterations),
            ),
            !old(self)@.has_room(BudgetDimension::Iterations) ==> r == Err::<u32, BudgetExceeded>(
                BudgetExceeded { dimension: BudgetDimension::Iterations },
            ) && final(self)@ == old(self)@,
    {
        if self.usage.iterations >= self.budget.max_iterations {
            return Err(BudgetExceeded::new(BudgetDimension::Iterations));
        }
        self.usage.iterations = self.usage.iterations + 1;
        Ok(self.usage.iterations)
    }

    pub fn reserve_approval_request(&mut self) -> (r: Result<(), BudgetExceeded>)
        ensures
            old(self)@.has_room(BudgetDimension::ApprovalRequests) ==> r is Ok && final(self)@
                == old(self)@.with_usage(old(self)@.reserved(BudgetDimension::ApprovalRequests)),
            !old(self)@.has_room(BudgetDimension::ApprovalRequests) ==> r == Err::<
                (),
                BudgetExceeded,
            >(BudgetExceeded { dimension: BudgetDimension::ApprovalRequests }) && final(self)@
                == old(self)@,
    {
        if self.usage.approval_requests >= self.budget.max_approval_requests {
            return Err(BudgetExceeded::new(BudgetDimension::ApprovalRequests));
        }
        self.usage.approval_requests = self.usage.approval_requests + 1;
        Ok(())
    }

    /// Reserves a graph step and numbers it, from one.
    pub fn reserve_graph_step(&mut self) -> (r: Result<u32, BudgetExceeded>)
        ensures
            old(self)@.has_room(BudgetDimension::GraphSteps) ==> r == Ok::<u32, BudgetExceeded>(
                final(self)@.usage.graph_steps,
            ) && final(self)@ == old(self)@.with_usage(
                old(self)@.reserved(BudgetDimension::GraphSteps),
            ),
            !old(self)@.has_room(BudgetDimension::GraphSteps) ==> r == Err::<u32, BudgetExceeded>(
                BudgetExceeded { dimension: BudgetDimension::GraphSteps },
            ) && final(self)@ == old(self)@,
    {
        let limit = self.budget.max_graph_steps;
        if self.usage.graph_steps >= limit || limit == 0 || limit > MAX_GRAPH_STEPS {
            return Err(BudgetExceeded::new(BudgetDimension::GraphSteps));
        }
        self.usage.graph_steps = self.usage.graph_steps + 1;
        Ok(self.usage.graph_steps)
    }

    /// Takes the next place in the log for an event of this kind.
    pub fn stage_event(&mut self, kind: AgentEventKind) -> (r: Result<AgentEvent, RunContextError>)
        ensures
            old(self)@.next_event_sequence.0 < u64::MAX ==> r == Ok::<AgentEvent, RunContextError>(
                old(self)@.event(kind),
            ) && final(self)@ == old(self)@.staged(),
            old(self)@.next_event_sequence.0 == u64::MAX ==> r == Err::<
                AgentEvent,
                RunContextError,
            >(RunContextError::EventSequenceExhausted) && final(self)@ == old(self)@,
    {
        let sequence = self.next_event_sequence;
        match sequence.checked_next() {
            None => Err(RunContextError::EventSequenceExhausted),
            Some(next) => {
                self.next_event_sequence = next;
                Ok(AgentEvent::new(self.key.run_id(), sequence, kind))
            },
        }
    }

    /// Takes an event into the durable state, once it is encoded.
    pub fn commit_event(&mut self, event: &AgentEvent, encoding: &Option<Vec<u8>>) -> (r: Result<
        (),
        RunContextError,
    >)
        ensures
            ({
                let (durable, result) = reduce(
                    old(self)@.durable,
                    *event,
                    option_bytes(*encoding),
                );
                &&& final(self)@ == (ContextView { durable, ..old(self)@ })
                &&& r == (if result is Ok {
                    Ok::<(), RunContextError>(())
                } else {
                    Err(RunContextError::DurableTransitionInvalid)
                })
            }),
    {
        match self.durable_state.apply(event, encoding) {
            Ok(()) => Ok(()),
            Err(_) => Err(RunContextError::DurableTransitionInvalid),
        }
    }

    pub fn run_record(&self) -> (r: RunRecord)
        ensures
            r.key == self@.key,
            r.budget == self@.budget,
            r.recovery_contract == self@.recovery_contract,
            r.authorization is None,
            r.store_schema_version == crate::persistence::CURRENT_STORE_SCHEMA_VERSION,
            r.checkpoint_schema_version == CURRENT_CHECKPOINT_SCHEMA_VERSION,
    {
        RunRecord::new(self.key, self.budget, self.recovery_contract)
    }

    pub fn durable_checkpoint(&self) -> (r: DurableCheckpoint)
        ensures
            r.checkpoint_schema_version == CURRENT_CHECKPOINT_SCHEMA_VERSION,
            r.state@ == self@.durable,
    {
        DurableCheckpoint::new(self.durable_state.clone())
    }

    /// The context of a run that is continued from its durable state after `elapsed` of its time.
    pub fn from_recovery(
        state: &DurableRunState,
        elapsed: TimeSpan,
        now: MonotonicTime,
        recovery_contract: RecoveryContract,
    ) -> (r: Result<Self, RunContextError>)
        ensures
            r is Ok <==> recovered_context(state@, elapsed, now, recovery_contract) is Ok,
            r matches Ok(context) ==> Ok::<ContextView, RunContextError>(context@)
                == recovered_context(state@, elapsed, now, recovery_contract),
            r matches Err(error) ==> Err::<ContextView, RunContextError>(error)
                == recovered_context(state@, elapsed, now, recovery_contract),
    {
        let max_elapsed = state.budget().max_elapsed;
        if elapsed.nanos > max_elapsed.nanos {
            return Err(RunContextError::DeadlineOutOfRange);
        }
        let remaining = TimeSpan { nanos: max_elapsed.nanos - elapsed.nanos };
        let deadline_at = match now.checked_add(remaining) {
            Some(deadline) => deadline,
            None => {
                return Err(RunContextError::DeadlineOutOfRange);
            },
        };
        let next_event_sequence = match state.last_sequence() {
            None => EventSequence::new(0),
            Some(sequence) => match sequence.checked_next() {
                Some(next) => next,
                None => {
                    return Err(RunContextError::EventSequenceExhausted);
                },
            },
        };
        let status = state.status();
        Ok(
            RunContext {
                key: state.key(),
                budget: *state.budget(),
                usage: state.usage(),
                status,
                next_event_sequence,
                deadline_at: if status == RunStatus::Running {
                    Some(deadline_at)
                } else {
                    None
                },
                audit_degraded: state.audit_degraded(),
                recovery_contract,
                durable_state: state.clone(),
                persistence_failed: false,
            },
        )
    }
}

/// The context that continues a durable state, or why none does.
pub open spec fn recovered_context(
    state: RunStateView,
    elapsed: TimeSpan,
    now: MonotonicTime,
    recovery_contract: RecoveryContract,
) -> Result<ContextView, RunContextError> {
    let remaining = TimeSpan { nanos: (state.budget.max_elapsed.nanos - elapsed.nanos) as u128 };
    if elapsed.nanos > state.budget.max_elapsed.nanos || now.plus(remaining) is None {
        Err(RunContextError::DeadlineOutOfRange)
    } else if state.last_sequence == Some(EventSequence(u64::MAX)) {
        Err(RunContextError::EventSequenceExhausted)
    } else {
        Ok(
            ContextView {
                key: state.key,
                budget: state.budget,
                usage: state.usage,
                status: state.status,
                next_event_sequence: crate::recovery::next_sequence(state.last_sequence),
                deadline_at: if state.status == RunStatus::Running {
                    now.plus(remaining)
                } else {
                    None
                },
                audit_degraded: state.audit_degraded,
                recovery_contract,
                durable: state,
                persistence_failed: false,
            },
        )
    }
}

} // verus!
