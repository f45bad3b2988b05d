//! What an operation does when nothing stands in its way, and what it reports when something does.

use vstd::prelude::*;

use crate::action::{
    decoded, proposal_fault, ActionPreparationError, ActionProposal, ActionValidationError,
    ValidatedAction,
};
use crate::approval::{ApprovalDecision, ApprovalOutcome};
use crate::audit::AuditFailurePolicy;
use crate::budget::{BudgetDimension, BudgetExceeded, BudgetUsage};
use crate::context::{ContextView, Observation, RunContextError};
use crate::error::{
    ApprovalPortError, AuditPhase, AuditPortError, ContainmentPortError, ExecutionStage,
    HarnessError, HarnessOperation, KnowledgeError, ModelPortError, OperationEffect, PolicyDenial,
    PolicyDenialReason, ToolPortError,
};
use crate::events::{
    AgentEvent, AgentEventKind, ApprovalFailureKind, CapabilityKind, ContainmentFailureKind,
    EventSequence, GraphProgressEvent, KnowledgeFailureKind, LoopEventKind, TokenUsage,
    ToolDomainFailureKind,
};
use crate::governed::{
    action_begun, authorized, decided, governed_settled, plain_begun, previewed, Authorization,
    DecisionReply, GovernedCall, GovernedStage, GovernedStep, GovernedTurn, Grounds,
};
use crate::ids::{
    ActionProposalId, ApprovalRequestId, KnowledgeRetrievalId, ModelCallId, ToolCallId, ToolName,
};
use crate::metadata::KnowledgeBackendId;
use crate::model::CompletedModelInvocation;
use crate::model_call::{
    model_answered, model_begun, model_settled, GroundingBinding, ModelReply, ModelStage, ModelTurn,
};
use crate::operations::{cancelled, ended, iteration_begun, node_begun};
use crate::persistence::PersistencePortError;
use crate::policy::AuthorizationDecision;
use crate::preparation::{
    begins_preparation, continues_preparation, PreparationStage, PreparationTurn,
};
use crate::record::{
    carries_checkpoint, closed_gate, once_appended, once_audited, once_encoded, recording,
    status_error, terminalized, AuditMode, AuditOutcome, Purpose, RecordPlan, RecordTurn,
    Recording, Settings, Turned,
};
use crate::recovery::{reduce, RunStateView};
use crate::retrieval::{
    retrieval_answered, retrieval_begun, retrieval_settled, Question, RetrievalReply,
    RetrievalStage, RetrievalTurn, RetrievedEvidence,
};
use crate::start::{running_from, start_settled, StartClock, StartStage, StartTurn};
use crate::status::{RunFailureKind, RunOutcome, RunStatus};
use crate::tool_call::{
    tool_answered, tool_begun, tool_settled, Interruption, ToolOutcome, ToolReply, ToolStage,
    ToolTurn,
};
use crate::tools::{ExecutionKind, ToolRegistry};

verus! {

/// The run is running, its store is sound, it is not cancelled and time is left to it.
pub open spec fn open_to_operations(context: ContextView, seen: Observation) -> bool {
    &&& context.status == RunStatus::Running
    &&& !context.persistence_failed
    &&& !seen.cancelled
    &&& context.deadline_at matches Some(deadline) && seen.now.nanos < deadline.nanos
}

/// An event of this kind takes the next place in the log of the run.
pub open spec fn placed(context: ContextView, kind: AgentEventKind) -> AgentEvent {
    AgentEvent {
        schema_version: 5,
        run_id: context.key.run_id,
        sequence: context.next_event_sequence,
        kind,
    }
}

pub open spec fn one_place_on(context: ContextView) -> ContextView {
    ContextView {
        next_event_sequence: EventSequence((context.next_event_sequence.0 + 1) as u64),
        ..context
    }
}

/// The step records this event in the next place of the log, and nothing else.
pub open spec fn notes(
    context: ContextView,
    step: Turned,
    kind: AgentEventKind,
    plan: RecordPlan,
) -> bool {
    step == (
        one_place_on(context),
        RecordTurn::Encode(
            Recording { event: placed(context, kind), purpose: Purpose::Step(plan), held: None },
        ),
    )
}

/// The step ends the run with this outcome, records the end, and reports the error.
pub open spec fn ends_run(
    context: ContextView,
    step: Turned,
    outcome: RunOutcome,
    error: HarnessError,
) -> bool {
    step == (
        one_place_on(ContextView { status: RunStatus::Finished(outcome), ..context }),
        RecordTurn::Encode(
            Recording {
                event: placed(context, AgentEventKind::RunFinished { outcome }),
                purpose: Purpose::Terminal,
                held: Some(error),
            },
        ),
    )
}

pub open spec fn before_plan(operation: HarnessOperation, mode: AuditMode) -> RecordPlan {
    RecordPlan {
        operation,
        phase: AuditPhase::BeforeInvocation,
        effect: OperationEffect::NotInvoked,
        mode,
    }
}

pub open spec fn after_plan(operation: HarnessOperation, mode: AuditMode) -> RecordPlan {
    RecordPlan {
        operation,
        phase: AuditPhase::AfterInvocation,
        effect: OperationEffect::InvocationStarted,
        mode,
    }
}

pub open spec fn state_plan(operation: HarnessOperation) -> RecordPlan {
    RecordPlan {
        operation,
        phase: AuditPhase::Lifecycle,
        effect: OperationEffect::StateCommitted,
        mode: AuditMode::Configured,
    }
}

/// There is a place left in the log.
pub open spec fn log_has_room(context: ContextView) -> bool {
    context.next_event_sequence.0 < u64::MAX
}

/// An operation begins exactly in a run that is open to it. A run that was cancelled ends as
/// cancelled, and one whose time is over for want of time; cancellation is looked at first.
pub proof fn law_open_run_admits_operations(
    context: ContextView,
    operation: HarnessOperation,
    seen: Observation,
)
    ensures
        closed_gate(context, operation, seen) is None <==> open_to_operations(context, seen),
        context.status == RunStatus::Running && !context.persistence_failed && context.deadline_at
            is Some && seen.cancelled && log_has_room(context) ==> (closed_gate(
            context,
            operation,
            seen,
        ) matches Some(step) && ends_run(
            context,
            step,
            RunOutcome::Cancelled,
            HarnessError::Cancelled { stage: ExecutionStage::Preflight },
        )),
        context.status == RunStatus::Running && !context.persistence_failed && !seen.cancelled && (
        context.deadline_at matches Some(deadline) && seen.now.nanos >= deadline.nanos)
            && log_has_room(context) ==> (closed_gate(context, operation, seen) matches Some(step)
            && ends_run(
            context,
            step,
            RunOutcome::BudgetExceeded { dimension: BudgetDimension::Elapsed },
            HarnessError::DeadlineExceeded { stage: ExecutionStage::Preflight },
        )),
        context.persistence_failed ==> closed_gate(context, operation, seen) == Some(
            (
                context,
                RecordTurn::Finished(
                    Err(HarnessError::Persistence(PersistencePortError::Failed)),
                ),
            ),
        ),
        !context.persistence_failed && context.status != RunStatus::Running ==> closed_gate(
            context,
            operation,
            seen,
        ) == Some(
            (
                context,
                RecordTurn::Finished(
                    Err(HarnessError::InvalidLifecycle { operation, status: context.status }),
                ),
            ),
        ),
{
}

/// An event is recorded by way of its encoding, the store where there is one, and the audit sink;
/// and where all three take it, recording succeeds.
pub proof fn law_event_is_stored_and_audited(
    context: ContextView,
    settings: Settings,
    under_way: Recording,
    encoding: Seq<u8>,
)
    requires
        reduce(context.durable, under_way.event, Some(encoding)).1 is Ok,
        context.deadline_at is Some,
        under_way.purpose is Step || under_way.purpose is Lifecycle,
    ensures
        ({
            let taken = ContextView {
                durable: reduce(context.durable, under_way.event, Some(encoding)).0,
                ..context
            };
            &&& once_encoded(context, settings, under_way, Some(encoding)) == (
                taken,
                if settings.durable {
                    RecordTurn::Append(under_way)
                } else {
                    RecordTurn::Audit(under_way)
                },
            )
            &&& once_appended(taken, settings, under_way, Ok(())) == (
                taken,
                RecordTurn::Audit(under_way),
            )
            &&& once_audited(taken, settings, under_way, AuditOutcome::Recorded) == (
                taken,
                RecordTurn::Finished(Ok(())),
            )
        }),
{
}

/// An event that an operation stores itself goes to that store whatever the settings are, and then
/// to the audit sink.
pub proof fn law_own_store_is_used(
    context: ContextView,
    settings: Settings,
    under_way: Recording,
    encoding: Seq<u8>,
)
    requires
        reduce(context.durable, under_way.event, Some(encoding)).1 is Ok,
        context.deadline_at is Some,
        under_way.purpose is Stored,
    ensures
        once_encoded(context, settings, under_way, Some(encoding)).1 == RecordTurn::Store(under_way),
        once_appended(context, settings, under_way, Ok(())) == (
            context,
            RecordTurn::Audit(under_way),
        ),
        once_audited(context, settings, under_way, AuditOutcome::Recorded) == (
            context,
            RecordTurn::Finished(Ok(())),
        ),
{
}

/// A store that fails marks the run, which then admits nothing more, and its error is reported; an
/// event that does not fit is refused.
pub proof fn law_failed_store_is_reported(
    context: ContextView,
    settings: Settings,
    under_way: Recording,
    error: PersistencePortError,
    encoding: Option<Seq<u8>>,
    operation: HarnessOperation,
    seen: Observation,
)
    requires
        under_way.purpose != Purpose::Terminal,
    ensures
        ({
            let (after, turn) = once_appended(context, settings, under_way, Err(error));
            &&& after == (ContextView { persistence_failed: true, ..context })
            &&& turn == RecordTurn::Finished(Err(HarnessError::Persistence(error)))
            &&& closed_gate(after, operation, seen) is Some
        }),
        reduce(context.durable, under_way.event, encoding).1 is Err ==> once_encoded(
            context,
            settings,
            under_way,
            encoding,
        ).1 == RecordTurn::Finished(
            Err(HarnessError::Context(RunContextError::DurableTransitionInvalid)),
        ),
{
}

/// Where the audit fails, a fail-closed policy reports it and a fail-open policy records the hole
/// and goes on. A step that must be audited records the hole and reports the failure.
pub proof fn law_failed_audit_is_dealt_with(
    context: ContextView,
    settings: Settings,
    event: AgentEvent,
    plan: RecordPlan,
    kind: AuditPortError,
)
    requires
        log_has_room(context),
    ensures
        ({
            let under_way = Recording { event, purpose: Purpose::Step(plan), held: None };
            let step = once_audited(context, settings, under_way, AuditOutcome::Failed(kind));
            let error = HarnessError::Audit {
                phase: plan.phase,
                operation: plan.operation,
                effect: plan.effect,
                kind,
            };
            let noted = |held: Option<HarnessError>|
                (
                    one_place_on(context),
                    RecordTurn::Encode(
                        Recording {
                            event: placed(context, AgentEventKind::AuditDegraded),
                            purpose: Purpose::Degraded,
                            held,
                        },
                    ),
                );
            &&& plan.mode == AuditMode::Required ==> step == noted(Some(error))
            &&& plan.mode == AuditMode::Configured && settings.audit_failure_policy
                == AuditFailurePolicy::FailClosed ==> step == (
                context,
                RecordTurn::Finished(Err(error)),
            )
            &&& plan.mode == AuditMode::Configured && settings.audit_failure_policy
                == AuditFailurePolicy::FailOpen ==> step == noted(None)
        }),
{
}

/// A hole in the audit trail that is recorded marks the run, and then reports what it was recorded
/// for: nothing under a fail-open policy, so that the operation goes on.
pub proof fn law_hole_is_marked(
    context: ContextView,
    settings: Settings,
    event: AgentEvent,
    held: Option<HarnessError>,
    encoding: Seq<u8>,
)
    requires
        reduce(context.durable, event, Some(encoding)).1 is Ok,
    ensures
        ({
            let under_way = Recording { event, purpose: Purpose::Degraded, held };
            let (after, turn) = once_encoded(context, settings, under_way, Some(encoding));
            let reported = RecordTurn::Finished(
                match held {
                    None => Ok(()),
                    Some(error) => Err(error),
                },
            );
            &&& after.audit_degraded
            &&& after.durable.audit_degraded
            &&& after.status == context.status
            &&& turn == (if settings.durable {
                RecordTurn::Append(under_way)
            } else {
                reported
            })
            &&& once_appended(after, settings, under_way, Ok(())) == (after, reported)
        }),
{
}

/// An audit that is broken off ends the run: as cancelled, or for want of time, in the stage of the
/// operation that was audited.
pub proof fn law_broken_audit_ends_the_run(
    context: ContextView,
    settings: Settings,
    event: AgentEvent,
    plan: RecordPlan,
)
    requires
        context.status == RunStatus::Running,
        log_has_room(context),
    ensures
        ({
            let under_way = Recording { event, purpose: Purpose::Step(plan), held: None };
            let stage = match plan.phase {
                AuditPhase::BeforeInvocation => ExecutionStage::PreInvocationAudit,
                AuditPhase::AfterInvocation => ExecutionStage::PostInvocationAudit,
                AuditPhase::Lifecycle => ExecutionStage::LifecycleAudit,
            };
            &&& ends_run(
                context,
                once_audited(context, settings, under_way, AuditOutcome::Cancelled),
                RunOutcome::Cancelled,
                HarnessError::Cancelled { stage },
            )
            &&& ends_run(
                context,
                once_audited(context, settings, under_way, AuditOutcome::DeadlineExceeded),
                RunOutcome::BudgetExceeded { dimension: BudgetDimension::Elapsed },
                HarnessError::DeadlineExceeded { stage },
            )
        }),
{
}

/// A store is given a checkpoint with an event exactly where nothing is pending, unless the
/// operation stores the event itself and says so.
pub proof fn law_checkpoint_needs_quiet(context: ContextView, purpose: Purpose)
    ensures
        !(purpose is Stored) ==> (carries_checkpoint(context, purpose)
            <==> context.durable.pending_effects.len() == 0
            && context.durable.pending_knowledge_retrieval is None),
        purpose matches Purpose::Stored { checkpoint, .. } ==> carries_checkpoint(context, purpose)
            == checkpoint,
{
}

/// Ending a run that runs gives it exactly this outcome and records it; a run that does not run is
/// left as it is. The error is reported either way.
pub proof fn law_run_is_ended_with_its_outcome(
    context: ContextView,
    outcome: RunOutcome,
    error: HarnessError,
)
    requires
        log_has_room(context),
    ensures
        context.status == RunStatus::Running ==> ends_run(
            context,
            terminalized(context, outcome, error),
            outcome,
            error,
        ),
        context.status != RunStatus::Running ==> terminalized(context, outcome, error) == (
            context,
            RecordTurn::Finished(Err(error)),
        ),
{
}

/// A pending run starts with the clocks that it is given: its deadline is its budget from now, and
/// its start is recorded with the time on the wall.
pub proof fn law_run_starts_its_clock(context: ContextView, clock: StartClock, millis: u64)
    requires
        context.status == RunStatus::Pending,
        clock.unix_millis == Some(millis),
        clock.now.nanos + context.budget.max_elapsed.nanos <= u128::MAX,
        log_has_room(context),
    ensures
        ({
            let (after, turn) = running_from(context, clock);
            &&& after.status == RunStatus::Running
            &&& after.deadline_at matches Some(deadline) && deadline.nanos == clock.now.nanos
                + context.budget.max_elapsed.nanos
            &&& after.usage == context.usage
            &&& after.durable == (RunStateView {
                started_at_unix_millis: Some(millis),
                ..context.durable
            })
            &&& turn == StartTurn::Record(
                RecordTurn::Encode(
                    Recording {
                        event: placed(
                            context,
                            AgentEventKind::RunStarted { started_at_unix_millis: millis },
                        ),
                        purpose: Purpose::Lifecycle(HarnessOperation::StartRun),
                        held: None,
                    },
                ),
                StartStage::Starting,
            )
        }),
{
}

/// A run whose start is recorded has started. Where the start could not be recorded, the error is
/// reported, and under a fail-closed policy the run ends for want of an audit.
pub proof fn law_start_is_reported(
    context: ContextView,
    settings: Settings,
    stage: StartStage,
    error: HarnessError,
)
    requires
        log_has_room(context),
    ensures
        start_settled(context, settings, stage, Ok(())) == (context, StartTurn::Finished(Ok(()))),
        settings.audit_failure_policy == AuditFailurePolicy::FailOpen || stage == StartStage::Ending
            ==> start_settled(context, settings, stage, Err(error)) == (
            context,
            StartTurn::Finished(Err(error)),
        ),
        settings.audit_failure_policy == AuditFailurePolicy::FailClosed && stage
            == StartStage::Starting && context.status == RunStatus::Running ==> (start_settled(
            context,
            settings,
            stage,
            Err(error),
        ).1 matches StartTurn::Record(turn, next) && next == StartStage::Ending && ends_run(
            context,
            (start_settled(context, settings, stage, Err(error)).0, turn),
            RunOutcome::Failed { kind: RunFailureKind::AuditUnavailable },
            error,
        )),
{
}

/// An iteration is reserved while the budget has one, and its start is recorded under the next
/// number.
pub proof fn law_iteration_is_reserved(context: ContextView)
    requires
        log_has_room(context),
    ensures
        context.usage.iterations < context.budget.max_iterations ==> {
            let number = (context.usage.iterations + 1) as u32;
            notes(
                ContextView {
                    usage: BudgetUsage { iterations: number, ..context.usage },
                    ..context
                },
                iteration_begun(context),
                AgentEventKind::Loop {
                    event: LoopEventKind::IterationStarted {
                        iteration: number,
                        usage: number,
                        limit: context.budget.max_iterations,
                    },
                },
                state_plan(HarnessOperation::BeginIteration),
            )
        },
        context.usage.iterations >= context.budget.max_iterations && context.status
            == RunStatus::Running ==> ends_run(
            context,
            iteration_begun(context),
            RunOutcome::BudgetExceeded { dimension: BudgetDimension::Iterations },
            HarnessError::BudgetExceeded(
                BudgetExceeded { dimension: BudgetDimension::Iterations },
            ),
        ),
{
}

/// A graph step is reserved while the budget has one, and a budget has 256 at most.
pub proof fn law_graph_step_is_reserved(context: ContextView, event: GraphProgressEvent)
    requires
        log_has_room(context),
    ensures
        context.usage.graph_steps < context.budget.max_graph_steps <= 256 ==> notes(
            ContextView {
                usage: BudgetUsage {
                    graph_steps: (context.usage.graph_steps + 1) as u32,
                    ..context.usage
                },
                ..context
            },
            node_begun(context, event),
            AgentEventKind::Graph { event },
            state_plan(HarnessOperation::EnterGraphNode),
        ),
        (context.usage.graph_steps >= context.budget.max_graph_steps
            || context.budget.max_graph_steps > 256) && context.status == RunStatus::Running
            ==> ends_run(
            context,
            node_begun(context, event),
            RunOutcome::BudgetExceeded { dimension: BudgetDimension::GraphSteps },
            HarnessError::BudgetExceeded(
                BudgetExceeded { dimension: BudgetDimension::GraphSteps },
            ),
        ),
{
}

/// A run is given its outcome and the event that says so is recorded; a run that is cancelled ends
/// as cancelled, whatever its clock says, and that is a success.
pub proof fn law_run_ends_as_asked(
    context: ContextView,
    outcome: RunOutcome,
    kind: AgentEventKind,
    operation: HarnessOperation,
)
    requires
        log_has_room(context),
    ensures
        ended(context, outcome, kind, operation) == (
            one_place_on(ContextView { status: RunStatus::Finished(outcome), ..context }),
            RecordTurn::Encode(
                Recording {
                    event: placed(context, kind),
                    purpose: Purpose::Lifecycle(operation),
                    held: None,
                },
            ),
        ),
        context.status == RunStatus::Running && !context.persistence_failed && context.deadline_at
            is Some ==> cancelled(context) == (
            one_place_on(
                ContextView { status: RunStatus::Finished(RunOutcome::Cancelled), ..context },
            ),
            RecordTurn::Encode(
                Recording {
                    event: placed(
                        context,
                        AgentEventKind::RunFinished { outcome: RunOutcome::Cancelled },
                    ),
                    purpose: Purpose::Terminal,
                    held: None,
                },
            ),
        ),
        context.persistence_failed || context.status != RunStatus::Running ==> cancelled(context).0
            == context && (cancelled(context).1 matches RecordTurn::Finished(Err(_))),
{
}

/// A status that an operation needs is the status that the run must have.
pub proof fn law_status_is_required(
    context: ContextView,
    operation: HarnessOperation,
    required: RunStatus,
)
    ensures
        status_error(context, operation, required) is Ok <==> !context.persistence_failed
            && context.status == required,
        context.persistence_failed ==> status_error(context, operation, required) == Err::<
            (),
            HarnessError,
        >(HarnessError::Persistence(PersistencePortError::Failed)),
        !context.persistence_failed && context.status != required ==> status_error(
            context,
            operation,
            required,
        ) == Err::<(), HarnessError>(
            HarnessError::InvalidLifecycle { operation, status: context.status },
        ),
{
}

/// A model call in an open run with budget is reserved, and its start is recorded. Once that is
/// recorded the model is called; where it is given evidence, once the binding to that evidence is
/// recorded too.
pub proof fn law_model_is_called(
    context: ContextView,
    seen: Observation,
    model_call_id: ModelCallId,
    grounding: GroundingBinding,
)
    requires
        open_to_operations(context, seen),
        log_has_room(context),
        context.usage.model_calls < context.budget.max_model_calls,
    ensures
        ({
            let usage = (context.usage.model_calls + 1) as u32;
            let reserved = ContextView {
                usage: BudgetUsage { model_calls: usage, ..context.usage },
                ..context
            };
            let started = AgentEventKind::ModelInvocationStarted {
                model_call_id,
                usage,
                limit: context.budget.max_model_calls,
            };
            let plan = before_plan(HarnessOperation::InvokeModel, AuditMode::Configured);
            let called = (context, ModelTurn::Invoke { model_call_id });
            &&& forall|given: Option<GroundingBinding>|
                (#[trigger] model_begun(context, seen, model_call_id, given)).1 matches
                    ModelTurn::Record(turn, stage) && notes(
                    reserved,
                    (model_begun(context, seen, model_call_id, given).0, turn),
                    started,
                    plan,
                ) && stage == (ModelStage::Starting { model_call_id, grounding: given })
            &&& model_settled(
                context,
                ModelStage::Starting { model_call_id, grounding: None },
                Ok(()),
            ) == called
            &&& model_settled(context, ModelStage::Binding { model_call_id }, Ok(())) == called
            &&& ({
                let (after, turn) = model_settled(
                    context,
                    ModelStage::Starting { model_call_id, grounding: Some(grounding) },
                    Ok(()),
                );
                turn matches ModelTurn::Record(record, stage) && stage == (ModelStage::Binding {
                    model_call_id,
                }) && notes(
                    context,
                    (after, record),
                    AgentEventKind::ModelGroundingBound {
                        retrieval_id: grounding.retrieval_id,
                        model_call_id,
                        evidence_count: grounding.evidence_count,
                        manifest_digest: grounding.manifest_digest,
                    },
                    RecordPlan {
                        operation: HarnessOperation::BindModelGrounding,
                        phase: AuditPhase::Lifecycle,
                        effect: OperationEffect::NotInvoked,
                        mode: AuditMode::Configured,
                    },
                )
            })
        }),
{
}

/// What the model answers is recorded, and then reported: a response as success, a failure as that
/// failure of the model. A call that was broken off ends the run.
pub proof fn law_model_answer_is_reported(
    context: ContextView,
    model_call_id: ModelCallId,
    token_usage: Option<TokenUsage>,
    error: ModelPortError,
    failure: HarnessError,
    stage: ModelStage,
)
    requires
        log_has_room(context),
    ensures
        ({
            let plan = after_plan(HarnessOperation::InvokeModel, AuditMode::Configured);
            let (after, turn) = model_answered(
                context,
                model_call_id,
                ModelReply::Responded { token_usage },
            );
            let (failed_after, failed_turn) = model_answered(
                context,
                model_call_id,
                ModelReply::Failed(error),
            );
            &&& turn matches ModelTurn::Record(record, ending) && notes(
                context,
                (after, record),
                AgentEventKind::ModelInvocationCompleted { model_call_id, token_usage },
                plan,
            ) && model_settled(context, ending, Ok(())) == (context, ModelTurn::Finished(Ok(())))
            &&& failed_turn matches ModelTurn::Record(record, ending) && notes(
                context,
                (failed_after, record),
                AgentEventKind::ModelInvocationFailed { model_call_id },
                plan,
            ) && model_settled(context, ending, Ok(())) == (
                context,
                ModelTurn::Finished(Err(HarnessError::ModelPort(error))),
            )
            &&& model_settled(context, stage, Err(failure)) == (
                context,
                ModelTurn::Finished(Err(failure)),
            )
        }),
        context.status == RunStatus::Running ==> {
            let (after, turn) = model_answered(context, model_call_id, ModelReply::Cancelled);
            turn matches ModelTurn::Record(record, _) && ends_run(
                context,
                (after, record),
                RunOutcome::Cancelled,
                HarnessError::Cancelled { stage: ExecutionStage::Invocation },
            )
        },
        context.status == RunStatus::Running ==> {
            let (after, turn) = model_answered(
                context,
                model_call_id,
                ModelReply::DeadlineExceeded,
            );
            turn matches ModelTurn::Record(record, _) && ends_run(
                context,
                (after, record),
                RunOutcome::BudgetExceeded { dimension: BudgetDimension::Elapsed },
                HarnessError::DeadlineExceeded { stage: ExecutionStage::Invocation },
            )
        },
{
}

/// A tool call with budget is reserved, its start is recorded, and then the tool is called.
pub proof fn law_tool_is_called(
    context: ContextView,
    tool_call_id: ToolCallId,
    tool_name: ToolName,
    capability: CapabilityKind,
    mode: AuditMode,
    failure: HarnessError,
)
    requires
        log_has_room(context),
        context.deadline_at is Some,
        context.usage.tool_calls < context.budget.max_tool_calls,
    ensures
        ({
            let usage = (context.usage.tool_calls + 1) as u32;
            let (after, turn) = tool_begun(context, tool_call_id, tool_name, capability, mode);
            let starting = ToolStage::Starting { tool_call_id, mode };
            &&& turn matches ToolTurn::Record(record, stage) && stage == starting && notes(
                ContextView {
                    usage: BudgetUsage { tool_calls: usage, ..context.usage },
                    ..context
                },
                (after, record),
                AgentEventKind::ToolInvocationStarted {
                    tool_call_id,
                    tool_name,
                    capability,
                    usage,
                    limit: context.budget.max_tool_calls,
                },
                before_plan(HarnessOperation::InvokeTool, mode),
            )
            &&& tool_settled(context, starting, Ok(())) == (
                context,
                ToolTurn::Invoke { tool_call_id, mode },
            )
            &&& tool_settled(context, starting, Err(failure)) == (
                context,
                ToolTurn::Finished(Err(failure)),
            )
        }),
{
}

/// What an answered call is recorded as, and what is reported once it is.
pub open spec fn answers(
    context: ContextView,
    tool_call_id: ToolCallId,
    mode: AuditMode,
    reply: ToolReply,
    kind: AgentEventKind,
    reported: Result<(), HarnessError>,
) -> bool {
    let (after, turn) = tool_answered(context, tool_call_id, mode, reply);
    turn matches ToolTurn::Record(record, ending) && notes(
        context,
        (after, record),
        kind,
        after_plan(HarnessOperation::InvokeTool, mode),
    ) && tool_settled(context, ending, Ok(())) == (context, ToolTurn::Finished(reported))
}

/// What a tool answers is recorded and reported. An answer to the call itself is a success, also
/// where the tool says that it could not do what was asked; an answer to another call, and a
/// failure of the tool or of its containment, are failures.
pub proof fn law_tool_answer_is_reported(
    context: ContextView,
    tool_call_id: ToolCallId,
    other_call: ToolCallId,
    mode: AuditMode,
    outcome: ToolOutcome,
    kind: ToolDomainFailureKind,
    tool_error: ToolPortError,
    containment_error: ContainmentPortError,
)
    requires
        log_has_room(context),
        other_call != tool_call_id,
    ensures
        answers(
            context,
            tool_call_id,
            mode,
            ToolReply::Answered { call_id: tool_call_id, outcome: ToolOutcome::Succeeded },
            AgentEventKind::ToolInvocationCompleted { tool_call_id },
            Ok(()),
        ),
        answers(
            context,
            tool_call_id,
            mode,
            ToolReply::Answered { call_id: tool_call_id, outcome: ToolOutcome::DomainFailure(kind) },
            AgentEventKind::ToolInvocationDomainFailed { tool_call_id, kind },
            Ok(()),
        ),
        answers(
            context,
            tool_call_id,
            mode,
            ToolReply::Answered { call_id: other_call, outcome },
            AgentEventKind::ToolInvocationAdapterFailed { tool_call_id },
            Err(HarnessError::ToolPort(ToolPortError::AdapterFailure)),
        ),
        answers(
            context,
            tool_call_id,
            mode,
            ToolReply::ToolFailed(tool_error),
            AgentEventKind::ToolInvocationAdapterFailed { tool_call_id },
            Err(HarnessError::ToolPort(tool_error)),
        ),
        answers(
            context,
            tool_call_id,
            mode,
            ToolReply::ContainmentFailed(containment_error),
            AgentEventKind::ToolInvocationAdapterFailed { tool_call_id },
            Err(HarnessError::ContainmentPort(containment_error)),
        ),
{
}

/// A tool call that is broken off ends the run, and the call is then recorded as failed.
pub proof fn law_broken_tool_call_ends_the_run(
    context: ContextView,
    tool_call_id: ToolCallId,
    mode: AuditMode,
    by: Interruption,
    result: Result<(), HarnessError>,
)
    requires
        log_has_room(context),
        context.status == RunStatus::Running,
    ensures
        ({
            let outcome = match by {
                Interruption::Cancelled => RunOutcome::Cancelled,
                Interruption::DeadlineExceeded => RunOutcome::BudgetExceeded {
                    dimension: BudgetDimension::Elapsed,
                },
            };
            let error = match by {
                Interruption::Cancelled => HarnessError::Cancelled {
                    stage: ExecutionStage::Invocation,
                },
                Interruption::DeadlineExceeded => HarnessError::DeadlineExceeded {
                    stage: ExecutionStage::Invocation,
                },
            };
            let (after, turn) = tool_answered(
                context,
                tool_call_id,
                mode,
                ToolReply::Interrupted(by),
            );
            &&& turn matches ToolTurn::Record(record, stage) && ends_run(
                context,
                (after, record),
                outcome,
                error,
            ) && (log_has_room(after) ==> tool_settled(after, stage, result) == (
                one_place_on(after),
                ToolTurn::Record(
                    RecordTurn::Encode(
                        Recording {
                            event: placed(
                                after,
                                AgentEventKind::ToolInvocationAdapterFailed { tool_call_id },
                            ),
                            purpose: Purpose::Terminal,
                            held: Some(error),
                        },
                    ),
                    ToolStage::Ending { error: None },
                ),
            ))
        }),
{
}

/// A retrieval in an open run, with a port and nothing pending, records its question, and then
/// retrieves. A question that is still pending is asked anew under its old one; another question
/// is refused.
pub proof fn law_knowledge_is_retrieved(
    context: ContextView,
    seen: Observation,
    retrieval_id: KnowledgeRetrievalId,
    first: KnowledgeBackendId,
    question: Question,
)
    requires
        open_to_operations(context, seen),
        log_has_room(context),
    ensures
        ({
            let (after, turn) = retrieval_begun(
                context,
                seen,
                true,
                retrieval_id,
                first,
                question,
            );
            let starting = RetrievalStage::Starting { retrieval_id };
            let plan = before_plan(HarnessOperation::RetrieveKnowledge, AuditMode::Configured);
            &&& context.durable.pending_knowledge_retrieval is None ==> (
            turn matches RetrievalTurn::Record(record, stage) && stage == starting && notes(
                context,
                (after, record),
                AgentEventKind::KnowledgeRetrievalStarted {
                    retrieval_id,
                    route: question.route,
                    query_digest: question.query_digest,
                    query_bytes: question.query_bytes,
                },
                plan,
            ))
            &&& context.durable.pending_knowledge_retrieval matches Some(previous) ==> {
                let same = previous.route == question.route@ && previous.query_digest
                    == question.query_digest && previous.query_bytes == question.query_bytes;
                &&& same ==> (turn matches RetrievalTurn::Record(record, stage) && stage == starting
                    && notes(
                    context,
                    (after, record),
                    AgentEventKind::KnowledgeRetrievalRestarted {
                        previous_retrieval_id: previous.retrieval_id,
                        retrieval_id,
                        route: question.route,
                        query_digest: question.query_digest,
                        query_bytes: question.query_bytes,
                    },
                    plan,
                ))
                &&& !same ==> after == context && turn == RetrievalTurn::Finished(
                    Err(HarnessError::KnowledgePort(KnowledgeError::Rejected(first))),
                )
            }
            &&& retrieval_begun(context, seen, false, retrieval_id, first, question) == (
                context,
                RetrievalTurn::Finished(
                    Err(HarnessError::KnowledgePort(KnowledgeError::Unavailable(first))),
                ),
            )
            &&& retrieval_settled(context, starting, Ok(())) == (
                context,
                RetrievalTurn::Retrieve { retrieval_id },
            )
        }),
{
}

/// What a retrieval brings is recorded as it is, and is then a success; a failure is recorded by
/// its kind and reported as it is.
pub proof fn law_retrieval_answer_is_reported(
    context: ContextView,
    retrieval_id: KnowledgeRetrievalId,
    evidence: RetrievedEvidence,
    error: KnowledgeError,
)
    requires
        log_has_room(context),
    ensures
        ({
            let plan = after_plan(HarnessOperation::RetrieveKnowledge, AuditMode::Configured);
            let (after, turn) = retrieval_answered(
                context,
                retrieval_id,
                RetrievalReply::Retrieved(evidence),
            );
            let (failed_after, failed_turn) = retrieval_answered(
                context,
                retrieval_id,
                RetrievalReply::Failed(error),
            );
            let kind = match error {
                KnowledgeError::Unavailable(_) => KnowledgeFailureKind::Unavailable,
                KnowledgeError::Rejected(_) => KnowledgeFailureKind::Rejected,
                KnowledgeError::MalformedResponse => KnowledgeFailureKind::MalformedResponse,
                KnowledgeError::SnapshotMismatch => KnowledgeFailureKind::SnapshotMismatch,
                KnowledgeError::Failed(_) => KnowledgeFailureKind::Failed,
                KnowledgeError::AllBackendsFailed => KnowledgeFailureKind::Failed,
            };
            &&& turn matches RetrievalTurn::Record(record, stage) && notes(
                context,
                (after, record),
                AgentEventKind::KnowledgeRetrievalCompleted {
                    retrieval_id,
                    snapshots: evidence.snapshots,
                    evidence_references: evidence.references,
                    evidence_count: evidence.evidence_count,
                    truncated: evidence.truncated,
                    degraded: evidence.degraded,
                    manifest_digest: evidence.manifest_digest,
                },
                plan,
            ) && retrieval_settled(context, stage, Ok(())) == (
                context,
                RetrievalTurn::Finished(Ok(())),
            )
            &&& failed_turn matches RetrievalTurn::Record(record, stage) && notes(
                context,
                (failed_after, record),
                AgentEventKind::KnowledgeRetrievalFailed { retrieval_id, kind },
                plan,
            ) && retrieval_settled(context, stage, Ok(())) == (
                context,
                RetrievalTurn::Finished(Err(HarnessError::KnowledgePort(error))),
            )
        }),
{
}

/// A retrieval that is broken off is recorded as such, and then ends the run.
pub proof fn law_broken_retrieval_ends_the_run(
    context: ContextView,
    retrieval_id: KnowledgeRetrievalId,
    by: Interruption,
)
    requires
        log_has_room(context),
        context.status == RunStatus::Running,
    ensures
        ({
            let (after, turn) = retrieval_answered(
                context,
                retrieval_id,
                RetrievalReply::Interrupted(by),
            );
            let kind = match by {
                Interruption::Cancelled => KnowledgeFailureKind::Cancelled,
                Interruption::DeadlineExceeded => KnowledgeFailureKind::DeadlineExceeded,
            };
            let (outcome, error) = match by {
                Interruption::Cancelled => (
                    RunOutcome::Cancelled,
                    HarnessError::Cancelled { stage: ExecutionStage::Invocation },
                ),
                Interruption::DeadlineExceeded => (
                    RunOutcome::BudgetExceeded { dimension: BudgetDimension::Elapsed },
                    HarnessError::DeadlineExceeded { stage: ExecutionStage::Invocation },
                ),
            };
            let stage = RetrievalStage::Interrupting { by };
            let (stopped, stopping) = retrieval_settled(context, stage, Ok(()));
            &&& after == one_place_on(context)
            &&& turn == RetrievalTurn::Record(
                RecordTurn::Encode(
                    Recording {
                        event: placed(
                            context,
                            AgentEventKind::KnowledgeRetrievalFailed { retrieval_id, kind },
                        ),
                        purpose: Purpose::Interruption,
                        held: None,
                    },
                ),
                stage,
            )
            &&& stopping matches RetrievalTurn::Record(record, _) && ends_run(
                context,
                (stopped, record),
                outcome,
                error,
            )
        }),
{
}

/// The step records this refusal, and once it is recorded reports this error.
pub open spec fn refuses(
    context: ContextView,
    seen: Observation,
    step: GovernedStep,
    kind: AgentEventKind,
    plan: RecordPlan,
    error: HarnessError,
) -> bool {
    step.1 matches GovernedTurn::Record(record, stage) && notes(
        context,
        (step.0, record),
        kind,
        plan,
    ) && governed_settled(context, seen, stage, Ok(())) == (
        context,
        GovernedTurn::Finished(Err(error)),
    )
}

/// An action whose tool is registered with the capability that was validated is bound to its tool
/// call, and once that is recorded the policy is asked. A tool that is not registered, or that has
/// another capability by now, is not executed. Binding a write must be audited.
pub proof fn law_registered_action_is_bound(
    context: ContextView,
    seen: Observation,
    call: GovernedCall,
    grounds: Grounds,
)
    requires
        open_to_operations(context, seen),
        log_has_room(context),
    ensures
        action_begun(context, seen, call, None) == (
            context,
            GovernedTurn::Finished(Err(HarnessError::ToolNotFound { name: call.tool_name })),
        ),
        grounds.capability != call.capability ==> action_begun(context, seen, call, Some(grounds))
            == (
            context,
            GovernedTurn::Finished(Err(HarnessError::ToolPort(ToolPortError::AdapterFailure))),
        ),
        grounds.capability == call.capability ==> {
            let (after, turn) = action_begun(context, seen, call, Some(grounds));
            turn matches GovernedTurn::Record(record, stage) && notes(
                context,
                (after, record),
                AgentEventKind::ActionExecutionBound {
                    action_proposal_id: call.action_proposal_id,
                    tool_call_id: call.tool_call_id,
                },
                before_plan(
                    HarnessOperation::InvokeValidatedAction,
                    if call.capability == CapabilityKind::LocalWrite {
                        AuditMode::Required
                    } else {
                        AuditMode::Configured
                    },
                ),
            ) && governed_settled(context, seen, stage, Ok(())) == (
                context,
                GovernedTurn::Authorize(
                    Authorization::Action { call, execution: grounds.execution },
                ),
            )
        },
{
}

/// Whether a governed step is the start of this tool call.
pub open spec fn starts_call(
    context: ContextView,
    step: GovernedStep,
    tool_call_id: ToolCallId,
    tool_name: ToolName,
    capability: CapabilityKind,
    mode: AuditMode,
    execution: ExecutionKind,
) -> bool {
    let usage = (context.usage.tool_calls + 1) as u32;
    step.1 matches GovernedTurn::Record(record, stage) && notes(
        ContextView { usage: BudgetUsage { tool_calls: usage, ..context.usage }, ..context },
        (step.0, record),
        AgentEventKind::ToolInvocationStarted {
            tool_call_id,
            tool_name,
            capability,
            usage,
            limit: context.budget.max_tool_calls,
        },
        before_plan(HarnessOperation::InvokeTool, mode),
    ) && stage == (GovernedStage::Calling {
        stage: ToolStage::Starting { tool_call_id, mode },
        execution,
    })
}

/// What becomes of an action once the policy has answered. Reading that is allowed is called. A
/// contained write that needs approval is shown to an approver, while the audit trail is whole. A
/// write that the policy would allow unasked, one that is not contained, and what is neither
/// reading nor writing in the workspace are refused, each with its reason; and what the policy
/// denies is denied for the reason that the policy gives.
pub proof fn law_policy_is_followed(
    context: ContextView,
    seen: Observation,
    call: GovernedCall,
    execution: ExecutionKind,
    decision: AuthorizationDecision,
    denial: PolicyDenial,
)
    requires
        log_has_room(context),
        context.usage.tool_calls < context.budget.max_tool_calls,
    ensures
        ({
            let step = authorized(context, Authorization::Action { call, execution }, decision);
            let denied = AgentEventKind::ToolPolicyDenied {
                tool_call_id: call.tool_call_id,
                tool_name: call.tool_name,
                capability: call.capability,
            };
            let plan = before_plan(
                HarnessOperation::InvokeValidatedAction,
                AuditMode::Configured,
            );
            &&& call.capability == CapabilityKind::ReadOnly && decision
                == AuthorizationDecision::Allowed ==> starts_call(
                context,
                step,
                call.tool_call_id,
                call.tool_name,
                CapabilityKind::ReadOnly,
                AuditMode::Configured,
                execution,
            )
            &&& call.capability == CapabilityKind::ReadOnly && decision
                == AuthorizationDecision::RequiresApproval ==> refuses(
                context,
                seen,
                step,
                denied,
                plan,
                HarnessError::PolicyDenied(
                    PolicyDenial {
                        capability: CapabilityKind::ReadOnly,
                        reason: PolicyDenialReason::ApprovalRequiredButUnsupported,
                    },
                ),
            )
            &&& (call.capability == CapabilityKind::ReadOnly || call.capability
                == CapabilityKind::LocalWrite) && decision == AuthorizationDecision::Denied(denial)
                ==> refuses(
                context,
                seen,
                step,
                denied,
                plan,
                HarnessError::PolicyDenied(denial),
            )
            &&& call.capability == CapabilityKind::LocalWrite && decision
                == AuthorizationDecision::Allowed ==> refuses(
                context,
                seen,
                step,
                denied,
                plan,
                HarnessError::ApprovalRequired,
            )
            &&& call.capability == CapabilityKind::LocalWrite && decision
                == AuthorizationDecision::RequiresApproval && execution == ExecutionKind::Contained
                ==> step == (
                context,
                if context.audit_degraded {
                    GovernedTurn::Finished(Err(HarnessError::AuditDegraded))
                } else {
                    GovernedTurn::Preview(call)
                },
            )
            &&& call.capability == CapabilityKind::LocalWrite && decision
                == AuthorizationDecision::RequiresApproval && execution != ExecutionKind::Contained
                ==> refuses(
                context,
                seen,
                step,
                AgentEventKind::ContainmentFailed {
                    tool_call_id: call.tool_call_id,
                    tool_name: call.tool_name,
                    capability: call.capability,
                    kind: ContainmentFailureKind::Unavailable,
                },
                before_plan(HarnessOperation::InvokeValidatedAction, AuditMode::Required),
                HarnessError::ContainmentUnavailable { name: call.tool_name },
            )
            &&& call.capability == CapabilityKind::ExternalWrite || call.capability
                == CapabilityKind::Privileged ==> refuses(
                context,
                seen,
                step,
                denied,
                plan,
                HarnessError::CapabilityNotExecutable { capability: call.capability },
            )
        }),
{
}

/// A write that could be shown is put to the approver, if there is one and if the budget has room
/// for the question: the question is recorded, and then asked. A write that could not be shown is
/// refused for its containment.
pub proof fn law_approver_is_asked(
    context: ContextView,
    seen: Observation,
    call: GovernedCall,
    request_id: ApprovalRequestId,
    error: ContainmentPortError,
)
    requires
        open_to_operations(context, seen),
        log_has_room(context),
    ensures
        context.usage.approval_requests < context.budget.max_approval_requests ==> {
            let usage = (context.usage.approval_requests + 1) as u32;
            let (after, turn) = previewed(context, seen, call, request_id, true, Ok(()));
            turn matches GovernedTurn::Record(record, stage) && notes(
                ContextView {
                    usage: BudgetUsage { approval_requests: usage, ..context.usage },
                    ..context
                },
                (after, record),
                AgentEventKind::ApprovalRequested {
                    approval_request_id: request_id,
                    action_proposal_id: call.action_proposal_id,
                    tool_call_id: call.tool_call_id,
                    tool_name: call.tool_name,
                    capability: call.capability,
                    usage,
                    limit: context.budget.max_approval_requests,
                },
                before_plan(HarnessOperation::RequestApproval, AuditMode::Required),
            ) && governed_settled(context, seen, stage, Ok(())) == (
                context,
                GovernedTurn::Decide { call, request_id },
            )
        },
        context.usage.approval_requests >= context.budget.max_approval_requests ==> {
            let (after, turn) = previewed(context, seen, call, request_id, true, Ok(()));
            turn matches GovernedTurn::Record(record, _) && ends_run(
                context,
                (after, record),
                RunOutcome::BudgetExceeded { dimension: BudgetDimension::ApprovalRequests },
                HarnessError::BudgetExceeded(
                    BudgetExceeded { dimension: BudgetDimension::ApprovalRequests },
                ),
            )
        },
        previewed(context, seen, call, request_id, false, Ok(())) == (
            context,
            GovernedTurn::Finished(Err(HarnessError::ApprovalPortMissing)),
        ),
        forall|approver: bool|
            refuses(
                context,
                seen,
                #[trigger] previewed(context, seen, call, request_id, approver, Err(error)),
                AgentEventKind::ContainmentFailed {
                    tool_call_id: call.tool_call_id,
                    tool_name: call.tool_name,
                    capability: call.capability,
                    kind: match error {
                        ContainmentPortError::Unavailable => ContainmentFailureKind::Unavailable,
                        ContainmentPortError::PreviewRejected => {
                            ContainmentFailureKind::PreviewRejected
                        },
                        ContainmentPortError::Infrastructure => {
                            ContainmentFailureKind::Infrastructure
                        },
                    },
                },
                before_plan(HarnessOperation::InvokeValidatedAction, AuditMode::Required),
                HarnessError::ContainmentPort(error),
            ),
{
}

/// What the approver's part is recorded as.
pub open spec fn answer_plan() -> RecordPlan {
    RecordPlan {
        operation: HarnessOperation::RequestApproval,
        phase: AuditPhase::AfterInvocation,
        effect: OperationEffect::NotInvoked,
        mode: AuditMode::Required,
    }
}

/// An approver's decision on exactly this request and this action is carried out: a grant is
/// recorded and the write then called, contained and audited; a denial is recorded and reported.
/// A decision on anything else is a mismatch, and an approver that fails is a failure.
pub proof fn law_decision_is_followed(
    context: ContextView,
    seen: Observation,
    call: GovernedCall,
    request_id: ApprovalRequestId,
    decision: ApprovalDecision,
    error: ApprovalPortError,
)
    requires
        open_to_operations(context, seen),
        log_has_room(context),
        context.usage.tool_calls < context.budget.max_tool_calls,
    ensures
        ({
            let step = decided(context, seen, call, request_id, DecisionReply::Decided(decision));
            let for_this = decision.request_id == request_id && decision.action_digest
                == call.action_digest;
            &&& for_this && decision.outcome == ApprovalOutcome::Granted ==> (
            step.1 matches GovernedTurn::Record(record, stage) && notes(
                context,
                (step.0, record),
                AgentEventKind::ApprovalGranted { approval_request_id: request_id },
                answer_plan(),
            ) && starts_call(
                context,
                governed_settled(context, seen, stage, Ok(())),
                call.tool_call_id,
                call.tool_name,
                call.capability,
                AuditMode::Required,
                ExecutionKind::Contained,
            ))
            &&& for_this && decision.outcome == ApprovalOutcome::Denied ==> refuses(
                context,
                seen,
                step,
                AgentEventKind::ApprovalDenied { approval_request_id: request_id },
                answer_plan(),
                HarnessError::ApprovalDenied,
            )
            &&& !for_this ==> refuses(
                context,
                seen,
                step,
                AgentEventKind::ApprovalFailed {
                    approval_request_id: request_id,
                    kind: ApprovalFailureKind::DecisionMismatch,
                },
                answer_plan(),
                HarnessError::ApprovalDecisionMismatch,
            )
        }),
        refuses(
            context,
            seen,
            decided(context, seen, call, request_id, DecisionReply::Failed(error)),
            AgentEventKind::ApprovalFailed {
                approval_request_id: request_id,
                kind: match error {
                    ApprovalPortError::Unavailable => ApprovalFailureKind::PortUnavailable,
                    ApprovalPortError::Failed => ApprovalFailureKind::PortFailed,
                },
            },
            answer_plan(),
            HarnessError::ApprovalPort(error),
        ),
{
}

/// A call without a validated action is put to the policy with the capability under which its tool
/// is registered. Reading that is allowed is called; anything else that is allowed is not
/// executable, and what the policy denies or wants approved is denied.
pub proof fn law_plain_call_is_put_to_the_policy(
    context: ContextView,
    seen: Observation,
    tool_call_id: ToolCallId,
    tool_name: ToolName,
    grounds: Grounds,
    decision: AuthorizationDecision,
    denial: PolicyDenial,
)
    requires
        open_to_operations(context, seen),
        log_has_room(context),
        context.usage.tool_calls < context.budget.max_tool_calls,
    ensures
        ({
            let Grounds { capability, execution } = grounds;
            let asked = Authorization::Plain { tool_call_id, tool_name, capability, execution };
            let step = authorized(context, asked, decision);
            let denied = AgentEventKind::ToolPolicyDenied { tool_call_id, tool_name, capability };
            let plan = before_plan(HarnessOperation::InvokeTool, AuditMode::Configured);
            &&& plain_begun(context, seen, tool_call_id, tool_name, Some(grounds)) == (
                context,
                GovernedTurn::Authorize(asked),
            )
            &&& plain_begun(context, seen, tool_call_id, tool_name, None) == (
                context,
                GovernedTurn::Finished(Err(HarnessError::ToolNotFound { name: tool_name })),
            )
            &&& decision == AuthorizationDecision::Allowed && capability == CapabilityKind::ReadOnly
                ==> starts_call(
                context,
                step,
                tool_call_id,
                tool_name,
                capability,
                AuditMode::Configured,
                execution,
            )
            &&& decision == AuthorizationDecision::Allowed && capability != CapabilityKind::ReadOnly
                ==> refuses(
                context,
                seen,
                step,
                denied,
                plan,
                HarnessError::CapabilityNotExecutable { capability },
            )
            &&& decision == AuthorizationDecision::RequiresApproval ==> refuses(
                context,
                seen,
                step,
                denied,
                plan,
                HarnessError::PolicyDenied(
                    PolicyDenial {
                        capability,
                        reason: PolicyDenialReason::ApprovalRequiredButUnsupported,
                    },
                ),
            )
            &&& decision == AuthorizationDecision::Denied(denial) ==> refuses(
                context,
                seen,
                step,
                denied,
                plan,
                HarnessError::PolicyDenied(denial),
            )
        }),
{
}

/// A governed tool call that is recorded as started is called, in the way that it was registered
/// or granted.
pub proof fn law_governed_tool_is_called(
    context: ContextView,
    seen: Observation,
    tool_call_id: ToolCallId,
    mode: AuditMode,
    execution: ExecutionKind,
    stage: GovernedStage,
    failure: HarnessError,
)
    requires
        context.deadline_at is Some,
    ensures
        governed_settled(
            context,
            seen,
            GovernedStage::Calling { stage: ToolStage::Starting { tool_call_id, mode }, execution },
            Ok(()),
        ) == (context, GovernedTurn::Invoke { tool_call_id, mode, execution }),
        !(stage matches GovernedStage::Calling { stage: ToolStage::Interrupted { .. }, .. })
            ==> governed_settled(context, seen, stage, Err(failure)) == (
            context,
            GovernedTurn::Finished(Err(failure)),
        ),
{
}

/// A log that is full takes no more: an operation is refused for it, and the end of a run is left
/// with a mark on the audit trail in place of its event.
pub proof fn law_full_log_takes_no_more(
    context: ContextView,
    kind: AgentEventKind,
    purpose: Purpose,
    error: HarnessError,
)
    requires
        context.next_event_sequence.0 == u64::MAX,
    ensures
        purpose != Purpose::Terminal ==> recording(context, kind, purpose, None) == (
            context,
            RecordTurn::Finished(
                Err(HarnessError::Context(RunContextError::EventSequenceExhausted)),
            ),
        ),
        recording(context, kind, Purpose::Terminal, Some(error)) == (
            ContextView {
                audit_degraded: true,
                durable: RunStateView { audit_degraded: true, ..context.durable },
                ..context
            },
            RecordTurn::Finished(Err(error)),
        ),
{
}

/// The end of a run is recorded as well as it can be: an event that does not fit, a store that
/// fails and an audit that fails leave a mark, and none of them changes what is reported.
pub proof fn law_end_is_recorded_as_well_as_can_be(
    context: ContextView,
    settings: Settings,
    event: AgentEvent,
    error: HarnessError,
    encoding: Option<Seq<u8>>,
    failure: PersistencePortError,
    outcome: AuditOutcome,
)
    ensures
        ({
            let under_way = Recording { event, purpose: Purpose::Terminal, held: Some(error) };
            let reported = RecordTurn::Finished(Err(error));
            let (unfit, unfit_turn) = once_encoded(context, settings, under_way, encoding);
            let (unstored, unstored_turn) = once_appended(
                context,
                settings,
                under_way,
                Err(failure),
            );
            let (unaudited, unaudited_turn) = once_audited(context, settings, under_way, outcome);
            &&& reduce(context.durable, event, encoding).1 is Err ==> unfit.audit_degraded
                && unfit_turn == reported
            &&& unstored.persistence_failed && unstored_turn == reported
            &&& unaudited_turn == reported
            &&& outcome != AuditOutcome::Recorded ==> unaudited.audit_degraded
            &&& outcome == AuditOutcome::Recorded ==> unaudited == context
        }),
{
}

/// A change of the lifecycle whose audit fails is dealt with by the failure policy, with the
/// failure that the sink reported, or with a timeout where the audit was broken off.
pub proof fn law_lifecycle_audit_is_dealt_with(
    context: ContextView,
    event: AgentEvent,
    operation: HarnessOperation,
    kind: AuditPortError,
    durable: bool,
)
    ensures
        ({
            let closed = Settings { audit_failure_policy: AuditFailurePolicy::FailClosed, durable };
            let under_way = Recording {
                event,
                purpose: Purpose::Lifecycle(operation),
                held: None,
            };
            let reported = |kind: AuditPortError|
                (
                    context,
                    RecordTurn::Finished(
                        Err(
                            HarnessError::Audit {
                                phase: AuditPhase::Lifecycle,
                                operation,
                                effect: OperationEffect::StateCommitted,
                                kind,
                            },
                        ),
                    ),
                );
            &&& once_audited(context, closed, under_way, AuditOutcome::Failed(kind)) == reported(kind)
            &&& once_audited(context, closed, under_way, AuditOutcome::Cancelled) == reported(
                AuditPortError::TimedOut,
            )
            &&& once_audited(context, closed, under_way, AuditOutcome::DeadlineExceeded)
                == reported(AuditPortError::TimedOut)
        }),
{
}

/// What a model's output proposes is recorded as proposed, under the ids that it was given; what
/// proposes nothing is recorded as rejected, with the reason.
pub proof fn law_proposal_is_recorded(
    context: ContextView,
    seen: Observation,
    invocation: CompletedModelInvocation,
    proposal_id: ActionProposalId,
    after: ContextView,
    turn: PreparationTurn,
)
    requires
        open_to_operations(context, seen),
        log_has_room(context),
        begins_preparation(context, seen, invocation, proposal_id, after, turn),
    ensures
        match decoded(invocation.response.output@) {
            Ok((name, arguments)) => (turn matches PreparationTurn::Record(
                record,
                PreparationStage::Proposing(proposal),
            ) && {
                &&& proposal.id == proposal_id
                &&& proposal.source_model_call_id == invocation.model_call_id
                &&& proposal.tool_name@ == name
                &&& proposal.arguments.json() == arguments
                &&& notes(
                    context,
                    (after, record),
                    AgentEventKind::ActionProposed {
                        model_call_id: invocation.model_call_id,
                        action_proposal_id: proposal_id,
                        tool_name: proposal.tool_name,
                    },
                    state_plan(HarnessOperation::PrepareAction),
                )
            }),
            Err(reason) => (turn matches PreparationTurn::Record(
                record,
                PreparationStage::Rejecting(error),
            ) && {
                &&& error.proposal_id == proposal_id
                &&& error.model_call_id == invocation.model_call_id
                &&& error.reason == reason
                &&& notes(
                    context,
                    (after, record),
                    AgentEventKind::ActionRejected {
                        model_call_id: invocation.model_call_id,
                        action_proposal_id: proposal_id,
                        reason,
                    },
                    state_plan(HarnessOperation::PrepareAction),
                )
            }),
        },
{
}

/// A proposal that is recorded is validated: it becomes an action that says what the proposal says,
/// or it is rejected with the reason. Once that is recorded too, the action is handed out, or the
/// rejection reported.
pub proof fn law_proposal_becomes_an_action(
    context: ContextView,
    registry: ToolRegistry,
    proposal: ActionProposal,
    action: ValidatedAction,
    error: ActionValidationError,
    stage: PreparationStage,
    failure: HarnessError,
    after: ContextView,
    turn: PreparationTurn,
)
    requires
        log_has_room(context),
    ensures
        continues_preparation(
            context,
            registry,
            PreparationStage::Proposing(proposal),
            Ok(()),
            after,
            turn,
        ) ==> match proposal_fault(
            proposal.tool_name@,
            proposal.arguments.json(),
            registry@,
        ) {
            None => (turn matches PreparationTurn::Record(
                record,
                PreparationStage::Validating(made),
            ) && {
                &&& made@.proposal_id == proposal.id
                &&& made@.tool_name == proposal.tool_name@
                &&& made@.arguments == proposal.arguments.json()
                &&& notes(
                    context,
                    (after, record),
                    AgentEventKind::ActionValidated { action_proposal_id: proposal.id },
                    state_plan(HarnessOperation::PrepareAction),
                )
            }),
            Some(reason) => (turn matches PreparationTurn::Record(
                record,
                PreparationStage::Rejecting(told),
            ) && {
                &&& told.proposal_id == proposal.id
                &&& told.reason == reason
                &&& notes(
                    context,
                    (after, record),
                    AgentEventKind::ActionRejected {
                        model_call_id: proposal.source_model_call_id,
                        action_proposal_id: proposal.id,
                        reason,
                    },
                    state_plan(HarnessOperation::PrepareAction),
                )
            }),
        },
        continues_preparation(
            context,
            registry,
            PreparationStage::Validating(action),
            Ok(()),
            after,
            turn,
        ) ==> after == context && turn == PreparationTurn::Finished(Ok(action)),
        continues_preparation(
            context,
            registry,
            PreparationStage::Rejecting(error),
            Ok(()),
            after,
            turn,
        ) ==> after == context && turn == PreparationTurn::Finished(
            Err(ActionPreparationError::Validation(error)),
        ),
        continues_preparation(context, registry, stage, Err(failure), after, turn) ==> after
            == context && turn == PreparationTurn::Finished(
            Err(ActionPreparationError::Harness(failure)),
        ),
{
}

} // verus!
