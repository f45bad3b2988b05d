//! Recording one event: it is encoded, taken into the durable state, appended to the store and
//! audited, and a failure on the way is turned into the error that the operation reports.
//!
//! Nothing is done here. Each function takes what happened and says what is to be done next; the
//! caller does it and comes back with the answer.

use vstd::prelude::*;

use crate::audit::AuditFailurePolicy;
use crate::budget::{BudgetDimension, BudgetExceeded};
use crate::context::{ContextView, Observation, RunContext, RunContextError};
use crate::error::{
    audit_stage, AuditPhase, AuditPortError, ExecutionStage, HarnessError, HarnessOperation,
    OperationEffect,
};
use crate::events::{AgentEvent, AgentEventKind, EventSequence};
use crate::persistence::{
    expected_predecessor, predecessor, DurableCheckpoint, PersistencePortError,
    CURRENT_CHECKPOINT_SCHEMA_VERSION,
};
use crate::recovery::{option_bytes, reduce};
use crate::status::{RunOutcome, RunStatus};

verus! {

/// What the runtime around the decisions has been set up with.
#[derive(Clone, Copy, Debug, PartialEq, Eq, Structural)]
pub struct Settings {
    pub audit_failure_policy: AuditFailurePolicy,
    /// Whether events go to a durable store.
    pub durable: bool,
}

/// What a failed audit means for the operation.
#[derive(Clone, Copy, Debug, PartialEq, Eq, Structural)]
pub enum AuditMode {
    /// The configured failure policy decides.
    Configured,
    /// The operation does not go on without an audited event.
    Required,
}

/// How an event is reported when its audit fails.
#[derive(Clone, Copy, Debug, PartialEq, Eq, Structural)]
pub struct RecordPlan {
    pub operation: HarnessOperation,
    pub phase: AuditPhase,
    pub effect: OperationEffect,
    pub mode: AuditMode,
}

/// Why an event is recorded.
#[derive(Clone, Copy, Debug, PartialEq, Eq, Structural)]
pub enum Purpose {
    /// A step of an operation, audited within the run's bounds.
    Step(RecordPlan),
    /// The same, but stored by a call of the operation's own, with a checkpoint or without one.
    Stored { plan: RecordPlan, checkpoint: bool },
    /// A change of the run's lifecycle, audited whatever its bounds.
    Lifecycle(HarnessOperation),
    /// The end of a run: recorded as well as it can be.
    Terminal,
    /// An interrupted retrieval: stored, and audited as well as it can be.
    Interruption,
    /// The note that the audit trail has a hole. It is stored, not audited.
    Degraded,
}

/// An event on its way.
#[derive(Debug)]
pub struct Recording {
    pub event: AgentEvent,
    pub purpose: Purpose,
    /// The error that the operation reports once the event is recorded.
    pub held: Option<HarnessError>,
}

/// What is to be done next.
#[derive(Debug)]
pub enum RecordTurn {
    /// Encode the event.
    Encode(Recording),
    /// Append the event to the store.
    Append(Recording),
    /// Store the event by the operation's own call.
    Store(Recording),
    /// Hand the event to the audit sink.
    Audit(Recording),
    /// The event is dealt with.
    Finished(Result<(), HarnessError>),
}

/// What came of handing an event to the audit sink.
#[derive(Clone, Copy, Debug, PartialEq, Eq, Structural)]
pub enum AuditOutcome {
    Recorded,
    Failed(AuditPortError),
    Cancelled,
    DeadlineExceeded,
}

/// What ends a run for its own safety.
#[derive(Clone, Copy, Debug, PartialEq, Eq, Structural)]
pub enum SafetyTerminalization {
    Cancelled,
    DeadlineExceeded,
    BudgetExceeded(BudgetDimension),
}

impl SafetyTerminalization {
    pub open spec fn outcome(self) -> RunOutcome {
        match self {
            SafetyTerminalization::Cancelled => RunOutcome::Cancelled,
            SafetyTerminalization::DeadlineExceeded => RunOutcome::BudgetExceeded {
                dimension: BudgetDimension::Elapsed,
            },
            SafetyTerminalization::BudgetExceeded(dimension) => RunOutcome::BudgetExceeded {
                dimension,
            },
        }
    }

    pub fn run_outcome(self) -> (r: RunOutcome)
        ensures
            r == self.outcome(),
    {
        match self {
            SafetyTerminalization::Cancelled => RunOutcome::Cancelled,
            SafetyTerminalization::DeadlineExceeded => RunOutcome::BudgetExceeded {
                dimension: BudgetDimension::Elapsed,
            },
            SafetyTerminalization::BudgetExceeded(dimension) => RunOutcome::BudgetExceeded {
                dimension,
            },
        }
    }
}

/// A context and the turn that follows in it.
pub type Turned = (ContextView, RecordTurn);

pub open spec fn held_result(held: Option<HarnessError>) -> Result<(), HarnessError> {
    match held {
        None => Ok(()),
        Some(error) => Err(error),
    }
}

pub open spec fn failed(context: ContextView, error: HarnessError) -> Turned {
    (context, RecordTurn::Finished(Err(error)))
}

/// Recording an event begins: it takes its place in the log.
pub open spec fn recording(
    context: ContextView,
    kind: AgentEventKind,
    purpose: Purpose,
    held: Option<HarnessError>,
) -> Turned {
    if context.next_event_sequence.0 < u64::MAX {
        (
            context.staged(),
            RecordTurn::Encode(Recording { event: context.event(kind), purpose, held }),
        )
    } else if purpose == Purpose::Terminal {
        (context.degraded(), RecordTurn::Finished(held_result(held)))
    } else {
        failed(context, HarnessError::Context(RunContextError::EventSequenceExhausted))
    }
}

/// The audit of this purpose may be broken off by cancellation and by the deadline.
pub open spec fn is_bounded(purpose: Purpose) -> bool {
    purpose is Step || purpose is Stored
}

/// What follows once the event is in the store.
pub open spec fn once_stored(
    context: ContextView,
    settings: Settings,
    recording: Recording,
) -> Turned {
    if recording.purpose == Purpose::Degraded {
        (context, RecordTurn::Finished(held_result(recording.held)))
    } else if is_bounded(recording.purpose) && context.deadline_at is None {
        once_audited(
            context,
            settings,
            recording,
            AuditOutcome::Failed(AuditPortError::Unavailable),
        )
    } else {
        (context, RecordTurn::Audit(recording))
    }
}

/// What follows once the event is encoded, or could not be.
pub open spec fn once_encoded(
    context: ContextView,
    settings: Settings,
    recording: Recording,
    encoding: Option<Seq<u8>>,
) -> Turned {
    let (durable, result) = reduce(context.durable, recording.event, encoding);
    let taken = ContextView { durable, ..context };
    if result is Err {
        if recording.purpose == Purpose::Terminal {
            (taken.degraded(), RecordTurn::Finished(held_result(recording.held)))
        } else {
            failed(taken, HarnessError::Context(RunContextError::DurableTransitionInvalid))
        }
    } else {
        let marked = if recording.purpose == Purpose::Degraded {
            taken.degraded()
        } else {
            taken
        };
        if recording.purpose is Stored {
            (marked, RecordTurn::Store(recording))
        } else if settings.durable {
            (marked, RecordTurn::Append(recording))
        } else {
            once_stored(marked, settings, recording)
        }
    }
}

/// What follows the answer of the store.
pub open spec fn once_appended(
    context: ContextView,
    settings: Settings,
    recording: Recording,
    result: Result<(), PersistencePortError>,
) -> Turned {
    match result {
        Ok(_) => once_stored(context, settings, recording),
        Err(error) => {
            let marked = ContextView { persistence_failed: true, ..context };
            if recording.purpose == Purpose::Terminal {
                (marked, RecordTurn::Finished(held_result(recording.held)))
            } else {
                failed(marked, HarnessError::Persistence(error))
            }
        },
    }
}

/// What a failed audit means.
pub open spec fn audit_failed(
    context: ContextView,
    settings: Settings,
    plan: RecordPlan,
    kind: AuditPortError,
) -> Turned {
    let error = HarnessError::Audit {
        phase: plan.phase,
        operation: plan.operation,
        effect: plan.effect,
        kind,
    };
    if plan.mode == AuditMode::Required {
        recording(context, AgentEventKind::AuditDegraded, Purpose::Degraded, Some(error))
    } else if settings.audit_failure_policy == AuditFailurePolicy::FailClosed {
        failed(context, error)
    } else {
        recording(context, AgentEventKind::AuditDegraded, Purpose::Degraded, None)
    }
}

/// The end of a run that is still running: its outcome is committed and recorded, and the error
/// is reported either way.
pub open spec fn terminalized(context: ContextView, outcome: RunOutcome, error: HarnessError)
    -> Turned {
    if context.status == RunStatus::Running {
        recording(
            context.finished(outcome),
            AgentEventKind::RunFinished { outcome },
            Purpose::Terminal,
            Some(error),
        )
    } else {
        failed(context, error)
    }
}

/// The plan by which a failed audit of a lifecycle change is reported.
pub open spec fn lifecycle_plan(operation: HarnessOperation) -> RecordPlan {
    RecordPlan {
        operation,
        phase: AuditPhase::Lifecycle,
        effect: OperationEffect::StateCommitted,
        mode: AuditMode::Configured,
    }
}

/// What follows the answer of the audit sink.
pub open spec fn once_audited(
    context: ContextView,
    settings: Settings,
    recording: Recording,
    outcome: AuditOutcome,
) -> Turned {
    match recording.purpose {
        Purpose::Step(plan) | Purpose::Stored { plan, .. } => match outcome {
            AuditOutcome::Recorded => (context, RecordTurn::Finished(Ok(()))),
            AuditOutcome::Failed(kind) => audit_failed(context, settings, plan, kind),
            AuditOutcome::Cancelled => terminalized(
                context,
                RunOutcome::Cancelled,
                HarnessError::Cancelled { stage: plan.phase.stage() },
            ),
            AuditOutcome::DeadlineExceeded => terminalized(
                context,
                RunOutcome::BudgetExceeded { dimension: BudgetDimension::Elapsed },
                HarnessError::DeadlineExceeded { stage: plan.phase.stage() },
            ),
        },
        Purpose::Lifecycle(operation) => match outcome {
            AuditOutcome::Recorded => (context, RecordTurn::Finished(Ok(()))),
            AuditOutcome::Failed(kind) => audit_failed(
                context,
                settings,
                lifecycle_plan(operation),
                kind,
            ),
            _ => audit_failed(
                context,
                settings,
                lifecycle_plan(operation),
                AuditPortError::TimedOut,
            ),
        },
        _ => (
            if outcome == AuditOutcome::Recorded {
                context
            } else {
                context.degraded()
            },
            RecordTurn::Finished(held_result(recording.held)),
        ),
    }
}

fn finish(held: Option<HarnessError>) -> (r: RecordTurn)
    ensures
        r == RecordTurn::Finished(held_result(held)),
{
    match held {
        None => RecordTurn::Finished(Ok(())),
        Some(error) => RecordTurn::Finished(Err(error)),
    }
}

pub fn fail(error: HarnessError) -> (r: RecordTurn)
    ensures
        r == RecordTurn::Finished(Err::<(), HarnessError>(error)),
{
    RecordTurn::Finished(Err(error))
}

/// Begins to record an event of this kind.
pub fn begin_recording(
    context: &mut RunContext,
    kind: AgentEventKind,
    purpose: Purpose,
    held: Option<HarnessError>,
) -> (r: RecordTurn)
    ensures
        (final(context)@, r) == recording(old(context)@, kind, purpose, held),
{
    match context.stage_event(kind) {
        Ok(event) => RecordTurn::Encode(Recording { event, purpose, held }),
        Err(error) => {
            if matches!(purpose, Purpose::Terminal) {
                context.mark_audit_degraded();
                finish(held)
            } else {
                fail(HarnessError::Context(error))
            }
        },
    }
}

/// Takes an encoded event into the context and says where it goes.
pub fn on_encoded(
    context: &mut RunContext,
    settings: Settings,
    recording: Recording,
    encoding: &Option<Vec<u8>>,
) -> (r: RecordTurn)
    ensures
        (final(context)@, r) == once_encoded(
            old(context)@,
            settings,
            recording,
            option_bytes(*encoding),
        ),
{
    match context.commit_event(&recording.event, encoding) {
        Err(error) => {
            if matches!(recording.purpose, Purpose::Terminal) {
                context.mark_audit_degraded();
                return finish(recording.held);
            }
            return fail(HarnessError::Context(error));
        },
        Ok(()) => {},
    }
    if matches!(recording.purpose, Purpose::Degraded) {
        context.mark_audit_degraded();
    }
    if matches!(recording.purpose, Purpose::Stored { .. }) {
        RecordTurn::Store(recording)
    } else if settings.durable {
        RecordTurn::Append(recording)
    } else {
        after_store(context, settings, recording)
    }
}

fn after_store(context: &mut RunContext, settings: Settings, recording: Recording) -> (r:
    RecordTurn)
    ensures
        (final(context)@, r) == once_stored(old(context)@, settings, recording),
{
    match recording.purpose {
        Purpose::Degraded => finish(recording.held),
        Purpose::Step(_) | Purpose::Stored { .. } => {
            if context.deadline_at().is_err() {
                on_audited(
                    context,
                    settings,
                    recording,
                    AuditOutcome::Failed(AuditPortError::Unavailable),
                )
            } else {
                RecordTurn::Audit(recording)
            }
        },
        _ => RecordTurn::Audit(recording),
    }
}

/// Takes the answer of the store. The same function takes the answer of an operation's own
/// storing call.
pub fn on_appended(
    context: &mut RunContext,
    settings: Settings,
    recording: Recording,
    result: Result<(), PersistencePortError>,
) -> (r: RecordTurn)
    ensures
        (final(context)@, r) == once_appended(old(context)@, settings, recording, result),
{
    match result {
        Ok(()) => after_store(context, settings, recording),
        Err(error) => {
            context.mark_persistence_failed();
            if matches!(recording.purpose, Purpose::Terminal) {
                finish(recording.held)
            } else {
                fail(HarnessError::Persistence(error))
            }
        },
    }
}

fn apply_audit_failure(
    context: &mut RunContext,
    settings: Settings,
    plan: RecordPlan,
    kind: AuditPortError,
) -> (r: RecordTurn)
    ensures
        (final(context)@, r) == audit_failed(old(context)@, settings, plan, kind),
{
    let error = HarnessError::Audit {
        phase: plan.phase,
        operation: plan.operation,
        effect: plan.effect,
        kind,
    };
    if plan.mode == AuditMode::Required {
        return begin_recording(
            context,
            AgentEventKind::AuditDegraded,
            Purpose::Degraded,
            Some(error),
        );
    }
    match settings.audit_failure_policy {
        AuditFailurePolicy::FailClosed => fail(error),
        AuditFailurePolicy::FailOpen => begin_recording(
            context,
            AgentEventKind::AuditDegraded,
            Purpose::Degraded,
            None,
        ),
    }
}

/// Takes the answer of the audit sink.
pub fn on_audited(
    context: &mut RunContext,
    settings: Settings,
    recording: Recording,
    outcome: AuditOutcome,
) -> (r: RecordTurn)
    ensures
        (final(context)@, r) == once_audited(old(context)@, settings, recording, outcome),
{
    match recording.purpose {
        Purpose::Step(plan) | Purpose::Stored { plan, .. } => match outcome {
            AuditOutcome::Recorded => RecordTurn::Finished(Ok(())),
            AuditOutcome::Failed(kind) => apply_audit_failure(context, settings, plan, kind),
            AuditOutcome::Cancelled => terminalize(
                context,
                RunOutcome::Cancelled,
                HarnessError::Cancelled { stage: audit_stage(plan.phase) },
            ),
            AuditOutcome::DeadlineExceeded => terminalize(
                context,
                RunOutcome::BudgetExceeded { dimension: BudgetDimension::Elapsed },
                HarnessError::DeadlineExceeded { stage: audit_stage(plan.phase) },
            ),
        },
        Purpose::Lifecycle(operation) => {
            let plan = RecordPlan {
                operation,
                phase: AuditPhase::Lifecycle,
                effect: OperationEffect::StateCommitted,
                mode: AuditMode::Configured,
            };
            match outcome {
                AuditOutcome::Recorded => RecordTurn::Finished(Ok(())),
                AuditOutcome::Failed(kind) => apply_audit_failure(context, settings, plan, kind),
                _ => apply_audit_failure(context, settings, plan, AuditPortError::TimedOut),
            }
        },
        _ => {
            if !matches!(outcome, AuditOutcome::Recorded) {
                context.mark_audit_degraded();
            }
            finish(recording.held)
        },
    }
}

/// Ends a run that is still running, and reports the error.
pub fn terminalize(context: &mut RunContext, outcome: RunOutcome, error: HarnessError) -> (r:
    RecordTurn)
    ensures
        (final(context)@, r) == terminalized(old(context)@, outcome, error),
{
    if context.status() != RunStatus::Running {
        return fail(error);
    }
    match context.commit_finished(outcome) {
        Ok(()) => begin_recording(
            context,
            AgentEventKind::RunFinished { outcome },
            Purpose::Terminal,
            Some(error),
        ),
        Err(_) => {
            context.mark_audit_degraded();
            fail(error)
        },
    }
}

/// Ends a run for its own safety, and reports the error.
pub fn terminalize_safety(
    context: &mut RunContext,
    terminal: SafetyTerminalization,
    error: HarnessError,
) -> (r: RecordTurn)
    ensures
        (final(context)@, r) == terminalized(old(context)@, terminal.outcome(), error),
{
    terminalize(context, terminal.run_outcome(), error)
}

/// A reservation that does not fit ends the run.
pub open spec fn exhausted(context: ContextView, dimension: BudgetDimension) -> Turned {
    terminalized(
        context,
        RunOutcome::BudgetExceeded { dimension },
        HarnessError::BudgetExceeded(BudgetExceeded { dimension }),
    )
}

pub fn exhaust(context: &mut RunContext, error: BudgetExceeded) -> (r: RecordTurn)
    ensures
        (final(context)@, r) == exhausted(old(context)@, error.dimension),
{
    terminalize_safety(
        context,
        SafetyTerminalization::BudgetExceeded(error.dimension()),
        HarnessError::BudgetExceeded(error),
    )
}

/// Why an operation may not begin, if it may not.
pub open spec fn closed_gate(
    context: ContextView,
    operation: HarnessOperation,
    seen: Observation,
) -> Option<Turned> {
    if context.persistence_failed {
        Some(failed(context, HarnessError::Persistence(PersistencePortError::Failed)))
    } else if context.status != RunStatus::Running {
        Some(
            failed(
                context,
                HarnessError::InvalidLifecycle { operation, status: context.status },
            ),
        )
    } else if context.deadline_at is None {
        Some(failed(context, HarnessError::Context(RunContextError::RuntimeUnavailable)))
    } else if seen.cancelled {
        Some(
            terminalized(
                context,
                RunOutcome::Cancelled,
                HarnessError::Cancelled { stage: ExecutionStage::Preflight },
            ),
        )
    } else if seen.now.nanos >= context.deadline_at->0.nanos {
        Some(
            terminalized(
                context,
                RunOutcome::BudgetExceeded { dimension: BudgetDimension::Elapsed },
                HarnessError::DeadlineExceeded { stage: ExecutionStage::Preflight },
            ),
        )
    } else {
        None
    }
}

/// Checks that an operation may begin: the run is running, its store has not failed, it is not
/// cancelled and its time is not over. Cancellation is looked at before the deadline.
pub fn preflight(context: &mut RunContext, operation: HarnessOperation, seen: Observation) -> (r:
    Option<RecordTurn>)
    ensures
        match r {
            None => closed_gate(old(context)@, operation, seen) is None && final(context)@ == old(
                context,
            )@,
            Some(turn) => closed_gate(old(context)@, operation, seen) == Some(
                (final(context)@, turn),
            ),
        },
{
    match require_status(context, operation, RunStatus::Running) {
        Err(error) => {
            return Some(fail(error));
        },
        Ok(()) => {},
    }
    let deadline = match context.deadline_at() {
        Err(error) => {
            return Some(fail(HarnessError::Context(error)));
        },
        Ok(deadline) => deadline,
    };
    if seen.cancelled {
        return Some(
            terminalize_safety(
                context,
                SafetyTerminalization::Cancelled,
                HarnessError::Cancelled { stage: ExecutionStage::Preflight },
            ),
        );
    }
    if seen.now.nanos >= deadline.nanos {
        return Some(
            terminalize_safety(
                context,
                SafetyTerminalization::DeadlineExceeded,
                HarnessError::DeadlineExceeded { stage: ExecutionStage::Preflight },
            ),
        );
    }
    None
}

/// Why a run in this state does not admit an operation that needs `required`, if it does not.
pub open spec fn status_error(
    context: ContextView,
    operation: HarnessOperation,
    required: RunStatus,
) -> Result<(), HarnessError> {
    if context.persistence_failed {
        Err(HarnessError::Persistence(PersistencePortError::Failed))
    } else if context.status != required {
        Err(HarnessError::InvalidLifecycle { operation, status: context.status })
    } else {
        Ok(())
    }
}

pub fn require_status(context: &RunContext, operation: HarnessOperation, required: RunStatus)
    -> (r: Result<(), HarnessError>)
    ensures
        r == status_error(context@, operation, required),
{
    if context.persistence_failed() {
        return Err(HarnessError::Persistence(PersistencePortError::Failed));
    }
    if context.status() != required {
        return Err(HarnessError::InvalidLifecycle { operation, status: context.status() });
    }
    Ok(())
}

/// What the store is given beside the event itself.
pub struct AppendRequest {
    pub expected_sequence: Option<EventSequence>,
    pub checkpoint: Option<DurableCheckpoint>,
}

/// Whether the store is given a checkpoint with an event: as the operation says, where it stores
/// the event itself, and else where nothing is pending.
pub open spec fn carries_checkpoint(context: ContextView, purpose: Purpose) -> bool {
    match purpose {
        Purpose::Stored { checkpoint, .. } => checkpoint,
        _ => context.durable.quiescent(),
    }
}

/// The request that appends an event, or that is part of the call by which an operation stores
/// it.
pub fn append_request(context: &RunContext, recording: &Recording) -> (r: AppendRequest)
    ensures
        r.expected_sequence == predecessor(recording.event.sequence),
        r.checkpoint is Some <==> carries_checkpoint(context@, recording.purpose),
        r.checkpoint matches Some(checkpoint) ==> checkpoint.state@ == context@.durable
            && checkpoint.checkpoint_schema_version == CURRENT_CHECKPOINT_SCHEMA_VERSION,
{
    let checkpoint = match recording.purpose {
        Purpose::Stored { checkpoint, .. } => checkpoint,
        _ => context.durable_state().is_quiescent(),
    };
    transition_for_event(context, &recording.event, checkpoint)
}

fn transition_for_event(context: &RunContext, event: &AgentEvent, checkpoint: bool) -> (r:
    AppendRequest)
    ensures
        r.expected_sequence == predecessor(event.sequence),
        r.checkpoint is Some <==> checkpoint,
        r.checkpoint matches Some(stored) ==> stored.state@ == context@.durable
            && stored.checkpoint_schema_version == CURRENT_CHECKPOINT_SCHEMA_VERSION,
{
    AppendRequest {
        expected_sequence: expected_predecessor(event.sequence()),
        checkpoint: if checkpoint {
            Some(context.durable_checkpoint())
        } else {
            None
        },
    }
}

} // verus!
