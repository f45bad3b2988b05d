//! Recovery of a run from what a store returns for it.

use vstd::prelude::*;

use crate::budget::{BudgetDimension, TimeSpan};
use crate::context::{recovered_context, ContextView, MonotonicTime, RunContext};
use crate::events::{AgentEvent, CURRENT_EVENT_SCHEMA_VERSION};
use crate::persistence::{
    replayed, DurableCheckpoint, LoadedRun, LoggedEvent, RecoveryContract, RunRecord,
    CURRENT_CHECKPOINT_SCHEMA_VERSION, CURRENT_STORE_SCHEMA_VERSION,
};
use crate::positions::{ContinuationState, DurableGraphPosition, DurableLoopPosition, PendingEffect};
use crate::recovery::{option_bytes, reduce, DurableRunState, RunStateView};
use crate::status::{LoopPhase, RunOutcome, RunStatus};

verus! {

#[derive(Clone, Copy, Debug, PartialEq, Eq, Structural)]
pub enum RecoveryError {
    UnsupportedOrInconsistentSchema,
    CorruptLog,
    CorruptCheckpoint,
    ClockAmbiguous,
    InvalidRuntime,
}

#[derive(Clone, Copy, Debug, PartialEq, Eq, Structural)]
pub enum ManualReconciliationReason {
    UnresolvedEffect(PendingEffect),
    NonRestartableProgram,
    TransientStateUnavailable,
}

/// A run that its program may continue.
pub struct RecoveredRun {
    pub context: RunContext,
    pub state: DurableRunState,
    pub recovery_contract: RecoveryContract,
}

impl RecoveredRun {
    pub fn context(&self) -> (r: &RunContext)
        ensures
            *r == self.context,
    {
        &self.context
    }

    pub fn state(&self) -> (r: &DurableRunState)
        ensures
            *r == self.state,
    {
        &self.state
    }

    pub fn recovery_contract(&self) -> (r: RecoveryContract)
        ensures
            r == self.recovery_contract,
    {
        self.recovery_contract
    }

    pub fn into_context(self) -> (r: RunContext)
        ensures
            r == self.context,
    {
        self.context
    }

    pub fn into_parts(self) -> (r: (RunContext, DurableRunState, RecoveryContract))
        ensures
            r == (self.context, self.state, self.recovery_contract),
    {
        (self.context, self.state, self.recovery_contract)
    }
}

/// A run that waits for a durable approval.
pub struct RecoveredWaitingRun {
    pub context: RunContext,
    pub state: DurableRunState,
    pub recovery_contract: RecoveryContract,
}

impl RecoveredWaitingRun {
    pub fn context(&self) -> (r: &RunContext)
        ensures
            *r == self.context,
    {
        &self.context
    }

    pub fn state(&self) -> (r: &DurableRunState)
        ensures
            *r == self.state,
    {
        &self.state
    }

    pub fn recovery_contract(&self) -> (r: RecoveryContract)
        ensures
            r == self.recovery_contract,
    {
        self.recovery_contract
    }

    pub fn into_parts(self) -> (r: (RunContext, DurableRunState, RecoveryContract))
        ensures
            r == (self.context, self.state, self.recovery_contract),
    {
        (self.context, self.state, self.recovery_contract)
    }
}

/// What is to be done with a run that was found in a store.
pub enum RecoveryDisposition {
    Completed { state: DurableRunState },
    TerminalFailure { state: DurableRunState, outcome: RunOutcome },
    Resumable(Box<RecoveredRun>),
    Waiting(Box<RecoveredWaitingRun>),
    ManualReconciliationRequired { state: DurableRunState, reason: ManualReconciliationReason },
}

pub enum DispositionView {
    Completed { state: RunStateView },
    TerminalFailure { state: RunStateView, outcome: RunOutcome },
    Resumable { context: ContextView, state: RunStateView, contract: RecoveryContract },
    Waiting { context: ContextView, state: RunStateView, contract: RecoveryContract },
    ManualReconciliationRequired { state: RunStateView, reason: ManualReconciliationReason },
}

impl View for RecoveryDisposition {
    type V = DispositionView;

    open spec fn view(&self) -> DispositionView {
        match *self {
            RecoveryDisposition::Completed { state } => DispositionView::Completed {
                state: state@,
            },
            RecoveryDisposition::TerminalFailure { state, outcome } => {
                DispositionView::TerminalFailure { state: state@, outcome }
            },
            RecoveryDisposition::Resumable(run) => DispositionView::Resumable {
                context: run.context@,
                state: run.state@,
                contract: run.recovery_contract,
            },
            RecoveryDisposition::Waiting(run) => DispositionView::Waiting {
                context: run.context@,
                state: run.state@,
                contract: run.recovery_contract,
            },
            RecoveryDisposition::ManualReconciliationRequired { state, reason } => {
                DispositionView::ManualReconciliationRequired { state: state@, reason }
            },
        }
    }
}

/// The event names its run, its schema and its place.
pub open spec fn header_fits(record: RunRecord, event: AgentEvent, place: int) -> bool {
    &&& event.run_id == record.key.run_id
    &&& event.schema_version == CURRENT_EVENT_SCHEMA_VERSION
    &&& event.sequence.0 == place
}

pub open spec fn headers_fit(record: RunRecord, log: Seq<LoggedEvent>) -> bool {
    forall|i: int| 0 <= i < log.len() ==> header_fits(record, (#[trigger] log[i]).event, i)
}

/// How many events a checkpoint covers.
pub open spec fn covered(state: RunStateView) -> int {
    match state.last_sequence {
        None => 0,
        Some(sequence) => sequence.0 + 1,
    }
}

pub open spec fn schemas_fit(record: RunRecord, checkpoint: DurableCheckpoint) -> bool {
    &&& record.store_schema_version == CURRENT_STORE_SCHEMA_VERSION
    &&& record.checkpoint_schema_version == CURRENT_CHECKPOINT_SCHEMA_VERSION
    &&& checkpoint.checkpoint_schema_version == CURRENT_CHECKPOINT_SCHEMA_VERSION
    &&& checkpoint.state@.key == record.key
    &&& checkpoint.state@.budget == record.budget
}

/// The checkpoint stands within the log, the log up to it is sound, and it says something else.
pub open spec fn checkpoint_contradicts_log(loaded: LoadedRun) -> bool {
    let stored = loaded.checkpoint.state@;
    let log = loaded.events@;
    let count = covered(stored);
    &&& 0 < count <= log.len()
    &&& headers_fit(loaded.record, log.take(count))
    &&& replayed(loaded.record.start(), log.take(count)) matches Some(state) && state != stored
}

/// The part of the log that the checkpoint covers is sound, as far as it is there.
pub open spec fn covered_log_replays(loaded: LoadedRun) -> bool {
    let log = loaded.events@;
    let count = covered(loaded.checkpoint.state@);
    replayed(
        loaded.record.start(),
        log.take(if count <= log.len() {
            count
        } else {
            log.len() as int
        }),
    ) is Some
}

/// The state that a log and its checkpoint establish, or why they establish none.
pub open spec fn recovered_state(loaded: LoadedRun) -> Result<RunStateView, RecoveryError> {
    let stored = loaded.checkpoint.state@;
    let log = loaded.events@;
    let count = covered(stored);
    if !schemas_fit(loaded.record, loaded.checkpoint) {
        Err(RecoveryError::UnsupportedOrInconsistentSchema)
    } else if checkpoint_contradicts_log(loaded) {
        Err(RecoveryError::CorruptCheckpoint)
    } else if !headers_fit(loaded.record, log) || !covered_log_replays(loaded) {
        Err(RecoveryError::CorruptLog)
    } else if count > log.len() || (count == 0 && stored != loaded.record.start()) {
        Err(RecoveryError::CorruptCheckpoint)
    } else {
        match replayed(stored, log.skip(count)) {
            Some(state) => Ok(state),
            None => Err(RecoveryError::CorruptLog),
        }
    }
}

/// A program with this contract may continue from this state.
pub open spec fn may_continue(state: RunStateView, contract: RecoveryContract) -> bool {
    ||| (contract is RestartableRetrieval && state.loop_position
        == DurableLoopPosition::PhaseRunning(LoopPhase::Retrieve)
        && state.restartable_knowledge_retrieval is Some)
    ||| (contract matches RecoveryContract::Graph { definition_digest, .. } && state.graph is Some
        && state.graph->0.definition_digest == definition_digest && state.graph->0.resumable())
    ||| state.continuation == ContinuationState::InitialBoundary
    ||| state.continuation == ContinuationState::RestartableBoundary
}

/// What is to be done with a run in this state.
pub open spec fn disposition(
    state: RunStateView,
    contract: RecoveryContract,
    now_unix_millis: u64,
    now: MonotonicTime,
) -> Result<DispositionView, RecoveryError> {
    if state.pending_effects.len() > 0 {
        Ok(
            DispositionView::ManualReconciliationRequired {
                state,
                reason: ManualReconciliationReason::UnresolvedEffect(state.pending_effects[0]),
            },
        )
    } else {
        match state.status {
            RunStatus::Finished(RunOutcome::Completed) => Ok(DispositionView::Completed { state }),
            RunStatus::Finished(outcome) => Ok(DispositionView::TerminalFailure { state, outcome }),
            RunStatus::Pending => Ok(
                DispositionView::ManualReconciliationRequired {
                    state,
                    reason: ManualReconciliationReason::TransientStateUnavailable,
                },
            ),
            RunStatus::Running => running_disposition(state, contract, now_unix_millis, now),
        }
    }
}

pub open spec fn running_disposition(
    state: RunStateView,
    contract: RecoveryContract,
    now_unix_millis: u64,
    now: MonotonicTime,
) -> Result<DispositionView, RecoveryError> {
    match state.started_at_unix_millis {
        None => Err(RecoveryError::CorruptCheckpoint),
        Some(started) => if now_unix_millis < started {
            Err(RecoveryError::ClockAmbiguous)
        } else {
            let elapsed = TimeSpan { nanos: ((now_unix_millis - started) * 1_000_000) as u128 };
            let waiting = state.graph is Some && state.position() is Waiting;
            if elapsed.nanos >= state.budget.max_elapsed.nanos {
                Ok(
                    DispositionView::TerminalFailure {
                        state,
                        outcome: RunOutcome::BudgetExceeded { dimension: BudgetDimension::Elapsed },
                    },
                )
            } else if !waiting && contract is NonRestartable {
                Ok(
                    DispositionView::ManualReconciliationRequired {
                        state,
                        reason: ManualReconciliationReason::NonRestartableProgram,
                    },
                )
            } else if !waiting && !may_continue(state, contract) {
                Ok(
                    DispositionView::ManualReconciliationRequired {
                        state,
                        reason: ManualReconciliationReason::TransientStateUnavailable,
                    },
                )
            } else {
                match recovered_context(state, elapsed, now, contract) {
                    Err(_) => Err(RecoveryError::InvalidRuntime),
                    Ok(context) => Ok(
                        if waiting {
                            DispositionView::Waiting { context, state, contract }
                        } else {
                            DispositionView::Resumable { context, state, contract }
                        },
                    ),
                }
            }
        },
    }
}

/// The result with its disposition seen as a value.
pub open spec fn disposition_view(result: Result<RecoveryDisposition, RecoveryError>) -> Result<
    DispositionView,
    RecoveryError,
> {
    match result {
        Ok(disposition) => Ok(disposition@),
        Err(error) => Err(error),
    }
}

/// Replaying one more event.
proof fn replay_step(state: RunStateView, log: Seq<LoggedEvent>, i: int)
    requires
        0 <= i < log.len(),
    ensures
        replayed(state, log.take(i + 1)) == (match replayed(state, log.take(i)) {
            None => None,
            Some(before) => {
                let (after, result) = reduce(
                    before,
                    log[i].event,
                    option_bytes(log[i].encoding),
                );
                if result is Ok {
                    Some(after)
                } else {
                    None
                }
            },
        }),
{
    assert(log.take(i + 1).drop_last() =~= log.take(i));
    assert(log.take(i + 1).last() == log[i]);
}

/// A log that fails to replay fails with whatever follows it.
proof fn replay_fails_onward(state: RunStateView, log: Seq<LoggedEvent>, i: int, j: int)
    requires
        0 <= i <= j <= log.len(),
        replayed(state, log.take(i)) is None,
    ensures
        replayed(state, log.take(j)) is None,
    decreases j - i,
{
    if i < j {
        replay_fails_onward(state, log, i, j - 1);
        replay_step(state, log, j - 1);
    }
}

/// Recovers a run: checks what the store returned, replays it and decides what is to be done.
pub fn recover_loaded_run(loaded: LoadedRun, now_unix_millis: u64, now: MonotonicTime) -> (r:
    Result<RecoveryDisposition, RecoveryError>)
    ensures
        disposition_view(r) == (match recovered_state(loaded) {
            Err(error) => Err(error),
            Ok(state) => disposition(
                state,
                loaded.record.recovery_contract,
                now_unix_millis,
                now,
            ),
        }),
        r matches Ok(RecoveryDisposition::Completed { state }) ==> state@.status
            == RunStatus::Finished(RunOutcome::Completed),
        r matches Ok(RecoveryDisposition::TerminalFailure { state, outcome }) ==> outcome
            != RunOutcome::Completed && (state@.status == RunStatus::Finished(outcome)
            || state@.status == RunStatus::Running),
        match r {
            Ok(RecoveryDisposition::Completed { state }) => recovered_state(loaded) == Ok::<
                RunStateView,
                RecoveryError,
            >(state@),
            Ok(RecoveryDisposition::TerminalFailure { state, .. }) => recovered_state(loaded)
                == Ok::<RunStateView, RecoveryError>(state@),
            Ok(RecoveryDisposition::ManualReconciliationRequired { state, .. }) => recovered_state(
                loaded,
            ) == Ok::<RunStateView, RecoveryError>(state@),
            Ok(RecoveryDisposition::Resumable(run)) => recovered_state(loaded) == Ok::<
                RunStateView,
                RecoveryError,
            >(run.state@),
            Ok(RecoveryDisposition::Waiting(run)) => recovered_state(loaded) == Ok::<
                RunStateView,
                RecoveryError,
            >(run.state@),
            Err(_) => true,
        },
{
    let recovery_contract = loaded.record.recovery_contract();
    match recover_state(loaded) {
        Err(error) => Err(error),
        Ok(state) => dispose(state, recovery_contract, now_unix_millis, now),
    }
}

/// Checks and replays what the store returned.
pub fn recover_state(loaded: LoadedRun) -> (r: Result<DurableRunState, RecoveryError>)
    ensures
        r matches Ok(state) ==> recovered_state(loaded) == Ok::<RunStateView, RecoveryError>(
            state@,
        ),
        r matches Err(error) ==> recovered_state(loaded) == Err::<RunStateView, RecoveryError>(
            error,
        ),
{
    let LoadedRun { record, checkpoint, events } = loaded;
    let ghost log = events@;
    let ghost stored = checkpoint.state@;
    let ghost count = covered(stored);
    let ghost start = record.start();
    if record.store_schema_version() != CURRENT_STORE_SCHEMA_VERSION
        || record.checkpoint_schema_version() != CURRENT_CHECKPOINT_SCHEMA_VERSION
        || checkpoint.checkpoint_schema_version() != CURRENT_CHECKPOINT_SCHEMA_VERSION
        || checkpoint.state().key() != record.key() || *checkpoint.state().budget()
        != *record.budget() {
        return Err(RecoveryError::UnsupportedOrInconsistentSchema);
    }
    let checkpoint_sequence = checkpoint.state().last_sequence();
    let mut checkpoint_state = DurableRunState::initial(
        record.key(),
        *record.budget(),
        record.recovery_contract(),
    );
    proof {
        assert(log.take(0) =~= Seq::empty());
    }
    let mut place: usize = 0;
    while place < events.len()
        invariant
            place <= events.len(),
            log == events@,
            stored == checkpoint.state@,
            start == record.start(),
            count == covered(stored),
            checkpoint_sequence == stored.last_sequence,
            schemas_fit(record, checkpoint),
            loaded == (LoadedRun { record, checkpoint, events }),
            headers_fit(record, log.take(place as int)),
            replayed(start, log.take(if place <= count { place as int } else { count })) == Some(
                checkpoint_state@,
            ),
            0 < count <= place ==> checkpoint_state@ == stored,
        decreases events.len() - place,
    {
        let logged = &events[place];
        let ghost next = log.take(place + 1);
        proof {
            assert forall|i: int| 0 <= i < place implies header_fits(
                record,
                (#[trigger] log[i]).event,
                i,
            ) by {
                assert(log.take(place as int)[i] == log[i]);
            }
        }
        if logged.event.run_id != record.key().run_id() || logged.event.schema_version
            != CURRENT_EVENT_SCHEMA_VERSION || logged.event.sequence().get() != place as u64 {
            proof {
                assert(!header_fits(record, log[place as int].event, place as int));
                if checkpoint_contradicts_log(loaded) && count > place {
                    assert(log.take(count)[place as int] == log[place as int]);
                }
                if checkpoint_contradicts_log(loaded) {
                    assert(count <= place);
                    assert(replayed(start, log.take(count)) == Some(stored));
                }
            }
            return Err(RecoveryError::CorruptLog);
        }
        let within = match checkpoint_sequence {
            None => false,
            Some(sequence) => logged.event.sequence().get() <= sequence.get(),
        };
        if within {
            proof {
                replay_step(start, log, place as int);
            }
            match checkpoint_state.apply(&logged.event, &logged.encoding) {
                Ok(()) => {},
                Err(_) => {
                    proof {
                        assert(replayed(start, next) is None);
                        let bound = if count <= log.len() {
                            count
                        } else {
                            log.len() as int
                        };
                        replay_fails_onward(start, log, place + 1, bound);
                    }
                    return Err(RecoveryError::CorruptLog);
                },
            }
            if checkpoint_sequence == Some(logged.event.sequence()) && !checkpoint_state.same_as(
                checkpoint.state(),
            ) {
                proof {
                    assert(count == place + 1);
                    assert forall|i: int| 0 <= i < next.len() implies header_fits(
                        record,
                        (#[trigger] next[i]).event,
                        i,
                    ) by {
                        assert(next[i] == log[i]);
                    }
                    assert(checkpoint_contradicts_log(loaded));
                }
                return Err(RecoveryError::CorruptCheckpoint);
            }
        }
        proof {
            assert forall|i: int| 0 <= i < next.len() implies header_fits(
                record,
                (#[trigger] next[i]).event,
                i,
            ) by {
                assert(next[i] == log[i]);
            }
        }
        place = place + 1;
    }
    proof {
        assert(log.take(log.len() as int) =~= log);
        assert(headers_fit(record, log));
        assert(!checkpoint_contradicts_log(loaded));
        assert(covered_log_replays(loaded));
    }
    if let Some(sequence) = checkpoint_sequence {
        if sequence.get() >= events.len() as u64 {
            return Err(RecoveryError::CorruptCheckpoint);
        }
    } else if !checkpoint.state().same_as(
        &DurableRunState::initial(record.key(), *record.budget(), record.recovery_contract()),
    ) {
        return Err(RecoveryError::CorruptCheckpoint);
    }
    let tail_start: usize = match checkpoint_sequence {
        None => 0,
        Some(sequence) => sequence.get() as usize + 1,
    };
    let mut state = checkpoint.into_state();
    let ghost tail = log.skip(count);
    proof {
        assert(tail.take(0) =~= Seq::empty());
    }
    let mut next: usize = tail_start;
    while next < events.len()
        invariant
            tail_start == count <= next <= events.len(),
            log == events@,
            tail == log.skip(count),
            replayed(stored, tail.take(next - count)) == Some(state@),
            recovered_state(loaded) == (match replayed(stored, tail) {
                Some(state) => Ok(state),
                None => Err(RecoveryError::CorruptLog),
            }),
        decreases events.len() - next,
    {
        let logged = &events[next];
        proof {
            assert(tail[next - count] == log[next as int]);
            replay_step(stored, tail, next - count);
        }
        match state.apply(&logged.event, &logged.encoding) {
            Ok(()) => {},
            Err(_) => {
                proof {
                    replay_fails_onward(stored, tail, next - count + 1, tail.len() as int);
                    assert(tail.take(tail.len() as int) =~= tail);
                }
                return Err(RecoveryError::CorruptLog);
            },
        }
        next = next + 1;
    }
    proof {
        assert(tail.take(tail.len() as int) =~= tail);
    }
    Ok(state)
}

/// Decides what is to be done with a run in this state.
pub fn dispose(
    state: DurableRunState,
    contract: RecoveryContract,
    now_unix_millis: u64,
    now: MonotonicTime,
) -> (r: Result<RecoveryDisposition, RecoveryError>)
    ensures
        disposition_view(r) == disposition(state@, contract, now_unix_millis, now),
        (r matches Ok(RecoveryDisposition::Completed { .. })) <==> state@.pending_effects.len() == 0
            && state@.status == RunStatus::Finished(RunOutcome::Completed),
        r matches Ok(RecoveryDisposition::TerminalFailure { outcome, .. })
            ==> state@.pending_effects.len() == 0 && outcome != RunOutcome::Completed && (
        state@.status is Finished ==> state@.status == RunStatus::Finished(outcome)),
        r matches Ok(RecoveryDisposition::Resumable(run)) ==> run.context@.durable == state@
            && run.state@ == state@ && run.recovery_contract == contract,
        r matches Ok(RecoveryDisposition::Waiting(run)) ==> run.context@.durable == state@
            && run.state@ == state@ && run.recovery_contract == contract,
        state@.pending_effects.len() > 0 ==> (r matches Ok(
            RecoveryDisposition::ManualReconciliationRequired { .. },
        )),
        match r {
            Ok(RecoveryDisposition::Completed { state: told }) => told@ == state@,
            Ok(RecoveryDisposition::TerminalFailure { state: told, .. }) => told@ == state@,
            Ok(RecoveryDisposition::ManualReconciliationRequired { state: told, .. }) => told@
                == state@,
            _ => true,
        },
{
    if state.pending_effects().len() > 0 {
        let effect = state.pending_effects()[0];
        return Ok(
            RecoveryDisposition::ManualReconciliationRequired {
                state,
                reason: ManualReconciliationReason::UnresolvedEffect(effect),
            },
        );
    }
    match state.status() {
        RunStatus::Finished(RunOutcome::Completed) => {
            return Ok(RecoveryDisposition::Completed { state });
        },
        RunStatus::Finished(outcome) => {
            return Ok(RecoveryDisposition::TerminalFailure { state, outcome });
        },
        RunStatus::Pending => {
            return Ok(
                RecoveryDisposition::ManualReconciliationRequired {
                    state,
                    reason: ManualReconciliationReason::TransientStateUnavailable,
                },
            );
        },
        RunStatus::Running => {},
    }
    let started = match state.started_at_unix_millis() {
        None => {
            return Err(RecoveryError::CorruptCheckpoint);
        },
        Some(started) => started,
    };
    if now_unix_millis < started {
        return Err(RecoveryError::ClockAmbiguous);
    }
    let elapsed = TimeSpan::from_millis(now_unix_millis - started);
    if elapsed.nanos >= state.budget().max_elapsed.nanos {
        return Ok(
            RecoveryDisposition::TerminalFailure {
                state,
                outcome: RunOutcome::BudgetExceeded { dimension: BudgetDimension::Elapsed },
            },
        );
    }
    let waiting = match state.graph() {
        None => false,
        Some(graph) => match graph.position() {
            DurableGraphPosition::Waiting { .. } => true,
            _ => false,
        },
    };
    if !waiting {
        if matches!(contract, RecoveryContract::NonRestartable) {
            return Ok(
                RecoveryDisposition::ManualReconciliationRequired {
                    state,
                    reason: ManualReconciliationReason::NonRestartableProgram,
                },
            );
        }
        if !can_continue(&state, contract) {
            return Ok(
                RecoveryDisposition::ManualReconciliationRequired {
                    state,
                    reason: ManualReconciliationReason::TransientStateUnavailable,
                },
            );
        }
    }
    match RunContext::from_recovery(&state, elapsed, now, contract) {
        Err(_) => Err(RecoveryError::InvalidRuntime),
        Ok(context) => if waiting {
            Ok(
                RecoveryDisposition::Waiting(
                    Box::new(RecoveredWaitingRun { context, state, recovery_contract: contract }),
                ),
            )
        } else {
            Ok(
                RecoveryDisposition::Resumable(
                    Box::new(RecoveredRun { context, state, recovery_contract: contract }),
                ),
            )
        },
    }
}

fn can_continue(state: &DurableRunState, contract: RecoveryContract) -> (r: bool)
    ensures
        r == may_continue(state@, contract),
{
    let by_contract = match contract {
        RecoveryContract::RestartableRetrieval { .. } => state.loop_position()
            == DurableLoopPosition::PhaseRunning(LoopPhase::Retrieve)
            && state.restartable_knowledge_retrieval().is_some(),
        RecoveryContract::Graph { definition_digest, .. } => match state.graph() {
            None => false,
            Some(graph) => graph.definition_digest() == definition_digest && graph.can_resume(),
        },
        _ => false,
    };
    by_contract || state.continuation() == ContinuationState::InitialBoundary
        || state.continuation() == ContinuationState::RestartableBoundary
}

} // verus!
