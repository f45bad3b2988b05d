//! What holds of a run whatever operations are carried out in it, in whatever order.

use vstd::prelude::*;

use crate::approval::ApprovalOutcome;
use crate::budget::{BudgetDimension, BudgetExceeded, BudgetUsage, RunBudget, TimeSpan};
use crate::context::{fresh_context, recovered_context, ContextView, MonotonicTime, Observation};
use crate::durable_approval::{
    ActionSealBinding, DurableApprovalDecisionCommand, DurableApprovalRecord, DurableApprovalStatus,
    SealedLocalWriteAction,
};
use crate::error::{ActionSealError, ContainmentPortError, HarnessError, HarnessOperation};
use crate::events::{AgentEventKind, CapabilityKind, GraphProgressEvent};
use crate::governed::{
    action_begun, authorized, decided, governed_settled, plain_begun, previewed, Authorization,
    DecisionReply, GovernedCall, GovernedStage, GovernedTurn, Grounds,
};
use crate::ids::{
    ActionProposalId, ApprovalRequestId, DurableApprovalWaitId, KnowledgeRetrievalId, ModelCallId,
    ToolCallId, ToolName,
};
use crate::metadata::KnowledgeBackendId;
use crate::model::CompletedModelInvocation;
use crate::model_call::{
    model_answered, model_begun, model_settled, GroundingBinding, ModelReply, ModelStage, ModelTurn,
};
use crate::operations::{cancelled, ended, gated, iteration_begun, node_begun};
use crate::persistence::{PersistencePortError, RecoveryContract, RunKey};
use crate::policy::AuthorizationDecision;
use crate::preparation::{
    begins_preparation, continues_preparation, PreparationStage, PreparationTurn,
};
use crate::record::{
    closed_gate, once_appended, once_audited, once_encoded, recording, terminalized, AuditMode,
    AuditOutcome, Purpose, RecordPlan, RecordTurn, Recording, Settings, Turned,
};
use crate::recovery::{next_sequence, reduce};
use crate::replay_laws::grown;
use crate::resume::{
    abort_begun, continues_loaded, continues_recorded, decision_begun, restored_previewed,
    resume_moved, LoadStage, MoveStage, Restored, ResumeStage, ResumeTurn,
};
use crate::retrieval::{
    retrieval_answered, retrieval_begun, retrieval_settled, Question, RetrievalReply,
    RetrievalStage, RetrievalTurn,
};
use crate::start::{running_from, start_settled, StartClock, StartStage};
use crate::status::{RunOutcome, RunStatus};
use crate::tool_call::{tool_answered, tool_begun, tool_settled, ToolReply, ToolStage, ToolTurn};
use crate::tools::{BindingView, ExecutionKind, ToolRegistry};
use crate::waits::{suspension_sealed, suspension_settled, SuspensionStage, WaitSetup};

verus! {

/// Every counter is within its limit.
pub open spec fn within_budget(usage: BudgetUsage, budget: RunBudget) -> bool {
    &&& usage.model_calls <= budget.max_model_calls
    &&& usage.tool_calls <= budget.max_tool_calls
    &&& usage.iterations <= budget.max_iterations
    &&& usage.approval_requests <= budget.max_approval_requests
    &&& usage.graph_steps <= budget.max_graph_steps
}

/// What no step of any operation takes back: the run's identity, its limits and its contract, a
/// reservation, a place in the log, an end, a mark on the audit trail or on the store. And no
/// step exceeds the budget.
pub open spec fn advances(before: ContextView, after: ContextView) -> bool {
    &&& after.key == before.key
    &&& after.budget == before.budget
    &&& after.recovery_contract == before.recovery_contract
    &&& before.status is Finished ==> after.status == before.status
    &&& before.status is Running ==> !(after.status is Pending)
    &&& before.next_event_sequence.0 <= after.next_event_sequence.0
    &&& before.audit_degraded ==> after.audit_degraded
    &&& before.persistence_failed ==> after.persistence_failed
    &&& grown(before.usage, after.usage)
    &&& within_budget(before.usage, before.budget) ==> within_budget(after.usage, after.budget)
}

/// Steps that advance a run advance it together.
pub proof fn law_advancing_composes(first: ContextView, second: ContextView, third: ContextView)
    requires
        advances(first, second),
        advances(second, third),
    ensures
        advances(first, third),
{
}

/// Recording an event advances the run, at every step.
pub proof fn law_recording_advances(
    context: ContextView,
    settings: Settings,
    kind: AgentEventKind,
    purpose: Purpose,
    held: Option<HarnessError>,
    under_way: Recording,
    encoding: Option<Seq<u8>>,
    stored: Result<(), PersistencePortError>,
    outcome: AuditOutcome,
)
    ensures
        advances(context, recording(context, kind, purpose, held).0),
        advances(context, once_encoded(context, settings, under_way, encoding).0),
        advances(context, once_appended(context, settings, under_way, stored).0),
        advances(context, once_audited(context, settings, under_way, outcome).0),
{
}

/// Ending a run, and refusing to go on, advance the run.
pub proof fn law_ending_advances(
    context: ContextView,
    seen: Observation,
    operation: HarnessOperation,
    outcome: RunOutcome,
    error: HarnessError,
    kind: AgentEventKind,
)
    ensures
        advances(context, terminalized(context, outcome, error).0),
        closed_gate(context, operation, seen) matches Some(turned) ==> advances(context, turned.0),
        advances(
            context,
            gated(context, operation, seen, ended(context, outcome, kind, operation)).0,
        ),
        advances(context, cancelled(context).0),
{
}

/// The steps of a loop and of a graph advance the run.
pub proof fn law_progress_advances(
    context: ContextView,
    clock: StartClock,
    settings: Settings,
    stage: StartStage,
    event: GraphProgressEvent,
    result: Result<(), HarnessError>,
)
    ensures
        advances(context, running_from(context, clock).0),
        advances(context, start_settled(context, settings, stage, result).0),
        advances(context, iteration_begun(context).0),
        advances(context, node_begun(context, event).0),
{
}

/// The steps of a model call advance the run.
pub proof fn law_model_call_advances(
    context: ContextView,
    seen: Observation,
    model_call_id: ModelCallId,
    grounding: Option<GroundingBinding>,
    stage: ModelStage,
    result: Result<(), HarnessError>,
    reply: ModelReply,
)
    ensures
        advances(context, model_begun(context, seen, model_call_id, grounding).0),
        advances(context, model_settled(context, stage, result).0),
        advances(context, model_answered(context, model_call_id, reply).0),
{
}

/// The steps of a tool call advance the run.
pub proof fn law_tool_call_advances(
    context: ContextView,
    tool_call_id: ToolCallId,
    tool_name: ToolName,
    capability: CapabilityKind,
    mode: AuditMode,
    stage: ToolStage,
    result: Result<(), HarnessError>,
    reply: ToolReply,
)
    ensures
        advances(context, tool_begun(context, tool_call_id, tool_name, capability, mode).0),
        advances(context, tool_settled(context, stage, result).0),
        advances(context, tool_answered(context, tool_call_id, mode, reply).0),
{
}

/// The steps of a governed action advance the run.
pub proof fn law_governed_action_advances(
    context: ContextView,
    seen: Observation,
    call: GovernedCall,
    registered: Option<Grounds>,
    asked: Authorization,
    decision: AuthorizationDecision,
    request_id: ApprovalRequestId,
    approver: bool,
    preview: Result<(), ContainmentPortError>,
    reply: DecisionReply,
)
    ensures
        advances(context, action_begun(context, seen, call, registered).0),
        advances(
            context,
            plain_begun(context, seen, call.tool_call_id, call.tool_name, registered).0,
        ),
        advances(
            context,
            previewed(context, seen, call, request_id, approver, preview).0,
        ),
        advances(context, decided(context, seen, call, request_id, reply).0),
        advances(context, authorized(context, asked, decision).0),
{
    authorized_call_advances(context, asked, decision);
}

proof fn authorized_call_advances(
    context: ContextView,
    asked: Authorization,
    decision: AuthorizationDecision,
)
    ensures
        advances(context, authorized(context, asked, decision).0),
{
}

/// What follows a recorded event of a governed action advances the run.
pub proof fn law_governed_event_advances(
    context: ContextView,
    seen: Observation,
    stage: GovernedStage,
    result: Result<(), HarnessError>,
)
    ensures
        advances(context, governed_settled(context, seen, stage, result).0),
{
    match stage {
        GovernedStage::Calling { stage: tool_stage, execution: _ } => {
            settled_tool_advances(context, tool_stage, result);
        },
        _ => {},
    }
}

proof fn settled_tool_advances(
    context: ContextView,
    stage: ToolStage,
    result: Result<(), HarnessError>,
)
    ensures
        advances(context, tool_settled(context, stage, result).0),
{
}

/// The steps of a retrieval advance the run.
pub proof fn law_retrieval_advances(
    context: ContextView,
    seen: Observation,
    has_port: bool,
    retrieval_id: KnowledgeRetrievalId,
    first: KnowledgeBackendId,
    question: Question,
    stage: RetrievalStage,
    result: Result<(), HarnessError>,
    reply: RetrievalReply,
)
    ensures
        advances(
            context,
            retrieval_begun(context, seen, has_port, retrieval_id, first, question).0,
        ),
        advances(context, retrieval_settled(context, stage, result).0),
        advances(context, retrieval_answered(context, retrieval_id, reply).0),
{
}

/// The steps of preparing an action advance the run.
pub proof fn law_preparation_advances(
    context: ContextView,
    seen: Observation,
    invocation: CompletedModelInvocation,
    proposal_id: ActionProposalId,
    registry: ToolRegistry,
    stage: PreparationStage,
    result: Result<(), HarnessError>,
    after: ContextView,
    turn: PreparationTurn,
)
    ensures
        begins_preparation(context, seen, invocation, proposal_id, after, turn) ==> advances(
            context,
            after,
        ),
        continues_preparation(context, registry, stage, result, after, turn) ==> advances(
            context,
            after,
        ),
{
}

/// The steps of a suspension advance the run.
pub proof fn law_suspension_advances(
    context: ContextView,
    stage: SuspensionStage,
    result: Result<(), HarnessError>,
    binding: ActionSealBinding,
    sealed: Result<SealedLocalWriteAction, ActionSealError>,
    record: DurableApprovalRecord,
    command: DurableApprovalDecisionCommand,
    wait_id: DurableApprovalWaitId,
    row_version: u64,
)
    ensures
        advances(context, suspension_settled(context, stage, result).0),
        advances(context, suspension_sealed(context, binding, sealed, record).0),
        advances(context, decision_begun(context, command).0),
        advances(context, abort_begun(context, wait_id, row_version, record).0),
{
}

/// The steps that carry on a wait advance the run.
pub proof fn law_resumption_advances(
    context: ContextView,
    seen: Observation,
    grounds: (WaitSetup, Seq<BindingView>),
    loading: LoadStage,
    loaded: Result<DurableApprovalRecord, PersistencePortError>,
    restored: Restored,
    preview: Result<(), ContainmentPortError>,
    moving: MoveStage,
    moved: Result<(), PersistencePortError>,
    after: ContextView,
    turn: ResumeTurn,
)
    ensures
        continues_loaded(context, seen, grounds, loading, loaded, after, turn) ==> advances(
            context,
            after,
        ),
        advances(context, restored_previewed(context, restored, preview).0),
        advances(context, resume_moved(context, moving, moved).0),
{
}

/// What follows a recorded event of a wait that is carried on advances the run.
pub proof fn law_resumption_event_advances(
    context: ContextView,
    stage: ResumeStage,
    result: Result<(), HarnessError>,
    after: ContextView,
    turn: ResumeTurn,
)
    requires
        continues_recorded(context, stage, result, after, turn),
    ensures
        advances(context, after),
{
    match stage {
        ResumeStage::Calling { plan: _, stage: tool_stage } => {
            settled_tool_advances(context, tool_stage, result);
        },
        ResumeStage::Starting { plan: _, store: _, action: _, tool_call_id } => {
            settled_tool_advances(
                context,
                ToolStage::Starting { tool_call_id, mode: AuditMode::Required },
                Ok(()),
            );
        },
        _ => {},
    }
}

/// The error by which a run was ended is what the operation reports, whatever becomes of the
/// event that says so.
pub open spec fn reports(turn: RecordTurn, error: HarnessError) -> bool {
    match turn {
        RecordTurn::Encode(under_way)
        | RecordTurn::Append(under_way)
        | RecordTurn::Audit(under_way) => under_way.purpose == Purpose::Terminal && under_way.held
            == Some(error),
        RecordTurn::Store(_) => false,
        RecordTurn::Finished(result) => result == Err::<(), HarnessError>(error),
    }
}

/// Ending a run reports the error that it was ended by, whatever the log, the store and the audit
/// sink say.
pub proof fn law_ending_reports_its_error(
    context: ContextView,
    settings: Settings,
    outcome: RunOutcome,
    error: HarnessError,
    under_way: Recording,
    encoding: Option<Seq<u8>>,
    stored: Result<(), PersistencePortError>,
    audited: AuditOutcome,
)
    ensures
        reports(terminalized(context, outcome, error).1, error),
        under_way.purpose == Purpose::Terminal && under_way.held == Some(error) ==> {
            &&& reports(once_encoded(context, settings, under_way, encoding).1, error)
            &&& reports(once_appended(context, settings, under_way, stored).1, error)
            &&& reports(once_audited(context, settings, under_way, audited).1, error)
        },
{
}

/// Whatever comes of this turn, it does not end in success.
pub open spec fn cannot_succeed(turn: RecordTurn) -> bool {
    match turn {
        RecordTurn::Encode(under_way) | RecordTurn::Append(under_way) => (under_way.purpose
            == Purpose::Terminal || under_way.purpose == Purpose::Degraded) && under_way.held
            is Some,
        RecordTurn::Audit(under_way) => under_way.purpose == Purpose::Terminal && under_way.held
            is Some,
        RecordTurn::Store(_) => false,
        RecordTurn::Finished(result) => result is Err,
    }
}

/// A step that must be audited does not succeed without its audit: whatever the failure policy
/// is, and whatever becomes of the note that the audit failed.
pub proof fn law_required_audit_is_required(
    context: ContextView,
    settings: Settings,
    plan: RecordPlan,
    under_way: Recording,
    outcome: AuditOutcome,
)
    requires
        plan.mode == AuditMode::Required,
        under_way.purpose == Purpose::Step(plan) || (under_way.purpose matches Purpose::Stored {
            plan: stored,
            ..
        } && stored == plan),
        outcome != AuditOutcome::Recorded,
    ensures
        cannot_succeed(once_audited(context, settings, under_way, outcome).1),
{
}

/// A turn that cannot succeed leads to none that can.
pub proof fn law_failure_is_final(
    context: ContextView,
    settings: Settings,
    under_way: Recording,
    encoding: Option<Seq<u8>>,
    stored: Result<(), PersistencePortError>,
    outcome: AuditOutcome,
)
    ensures
        cannot_succeed(RecordTurn::Encode(under_way)) ==> cannot_succeed(
            once_encoded(context, settings, under_way, encoding).1,
        ),
        cannot_succeed(RecordTurn::Append(under_way)) ==> cannot_succeed(
            once_appended(context, settings, under_way, stored).1,
        ),
        cannot_succeed(RecordTurn::Audit(under_way)) ==> cannot_succeed(
            once_audited(context, settings, under_way, outcome).1,
        ),
{
}

/// Under a fail-closed policy no step succeeds without its audit.
pub proof fn law_fail_closed_stops(
    context: ContextView,
    settings: Settings,
    under_way: Recording,
    outcome: AuditOutcome,
)
    requires
        settings.audit_failure_policy == crate::audit::AuditFailurePolicy::FailClosed,
        under_way.purpose is Step || under_way.purpose is Stored || under_way.purpose is Lifecycle,
        outcome != AuditOutcome::Recorded,
    ensures
        cannot_succeed(once_audited(context, settings, under_way, outcome).1),
{
}

/// Nothing begins in a run that is not running, or whose store has failed.
pub proof fn law_no_operation_after_the_end(
    context: ContextView,
    operation: HarnessOperation,
    seen: Observation,
)
    requires
        context.status != RunStatus::Running || context.persistence_failed,
    ensures
        closed_gate(context, operation, seen) matches Some((after, turn)) && after == context
            && cannot_succeed(turn),
{
}

/// A reservation that does not fit ends the run with the dimension that ran out, and the operation
/// reports it.
pub proof fn law_exhausted_budget_ends_the_run(
    context: ContextView,
    seen: Observation,
    model_call_id: ModelCallId,
    grounding: Option<GroundingBinding>,
    tool_call_id: ToolCallId,
    tool_name: ToolName,
    capability: CapabilityKind,
    mode: AuditMode,
)
    requires
        closed_gate(context, HarnessOperation::InvokeModel, seen) is None,
    ensures
        !context.has_room(BudgetDimension::ModelCalls) ==> {
            let (after, turn) = model_begun(context, seen, model_call_id, grounding);
            &&& after.status == RunStatus::Finished(
                RunOutcome::BudgetExceeded { dimension: BudgetDimension::ModelCalls },
            )
            &&& turn matches ModelTurn::Record(record, _) && reports(
                record,
                HarnessError::BudgetExceeded(
                    BudgetExceeded { dimension: BudgetDimension::ModelCalls },
                ),
            )
        },
        !context.has_room(BudgetDimension::ToolCalls) ==> {
            let (after, turn) = tool_begun(context, tool_call_id, tool_name, capability, mode);
            &&& after.status == RunStatus::Finished(
                RunOutcome::BudgetExceeded { dimension: BudgetDimension::ToolCalls },
            )
            &&& turn matches ToolTurn::Record(record, _) && reports(
                record,
                HarnessError::BudgetExceeded(
                    BudgetExceeded { dimension: BudgetDimension::ToolCalls },
                ),
            )
        },
        !context.has_room(BudgetDimension::Iterations) ==> {
            let (after, turn) = iteration_begun(context);
            &&& after.status == RunStatus::Finished(
                RunOutcome::BudgetExceeded { dimension: BudgetDimension::Iterations },
            )
            &&& reports(
                turn,
                HarnessError::BudgetExceeded(
                    BudgetExceeded { dimension: BudgetDimension::Iterations },
                ),
            )
        },
{
}

/// The model is called only once its start is recorded, and the binding to its evidence too.
pub proof fn law_model_is_called_only_when_recorded(
    context: ContextView,
    seen: Observation,
    model_call_id: ModelCallId,
    grounding: Option<GroundingBinding>,
    stage: ModelStage,
    result: Result<(), HarnessError>,
    reply: ModelReply,
)
    ensures
        !(model_begun(context, seen, model_call_id, grounding).1 is Invoke),
        !(model_answered(context, model_call_id, reply).1 is Invoke),
        model_settled(context, stage, result).1 matches ModelTurn::Invoke { model_call_id: called }
            ==> result is Ok && (stage == (ModelStage::Starting {
            model_call_id: called,
            grounding: None,
        }) || stage == (ModelStage::Binding { model_call_id: called })),
{
}

/// A tool is called only once its start is recorded.
pub proof fn law_tool_is_called_only_when_recorded(
    context: ContextView,
    tool_call_id: ToolCallId,
    tool_name: ToolName,
    capability: CapabilityKind,
    mode: AuditMode,
    stage: ToolStage,
    result: Result<(), HarnessError>,
    reply: ToolReply,
)
    ensures
        !(tool_begun(context, tool_call_id, tool_name, capability, mode).1 is Invoke),
        !(tool_answered(context, tool_call_id, mode, reply).1 is Invoke),
        tool_settled(context, stage, result).1 matches ToolTurn::Invoke {
            tool_call_id: called,
            mode: audited,
        } ==> result is Ok && stage == (ToolStage::Starting {
            tool_call_id: called,
            mode: audited,
        }),
{
}

/// Knowledge is retrieved only once the question is recorded.
pub proof fn law_knowledge_is_retrieved_only_when_recorded(
    context: ContextView,
    seen: Observation,
    has_port: bool,
    retrieval_id: KnowledgeRetrievalId,
    first: KnowledgeBackendId,
    question: Question,
    stage: RetrievalStage,
    result: Result<(), HarnessError>,
    reply: RetrievalReply,
)
    ensures
        !(retrieval_begun(context, seen, has_port, retrieval_id, first, question).1 is Retrieve),
        !(retrieval_answered(context, retrieval_id, reply).1 is Retrieve),
        retrieval_settled(context, stage, result).1 matches RetrievalTurn::Retrieve {
            retrieval_id: asked,
        } ==> result is Ok && stage == (RetrievalStage::Starting { retrieval_id: asked }),
{
}

/// A tool call is about to begin, or has begun.
pub open spec fn executes(turn: GovernedTurn) -> bool {
    turn is Invoke || (turn matches GovernedTurn::Record(_, GovernedStage::Calling { .. }))
}

/// Without a validated action only reading is executed, and only where the policy allows it.
pub proof fn law_plain_call_only_reads(
    context: ContextView,
    seen: Observation,
    tool_call_id: ToolCallId,
    tool_name: ToolName,
    registered: Option<Grounds>,
    asked: Authorization,
    decision: AuthorizationDecision,
)
    requires
        asked is Plain,
    ensures
        !executes(plain_begun(context, seen, tool_call_id, tool_name, registered).1),
        plain_begun(context, seen, tool_call_id, tool_name, registered).1
            matches GovernedTurn::Authorize(asks) ==> registered matches Some(grounds)
            && asks.subject() == grounds.capability,
        executes(authorized(context, asked, decision).1) ==> asked.subject()
            == CapabilityKind::ReadOnly && decision == AuthorizationDecision::Allowed,
        !(authorized(context, asked, decision).1 is Preview),
{
}

/// A validated action is executed without asking anyone only where it reads and the policy allows
/// it. What else it might do, no policy can have executed unasked. And the policy is asked only
/// once the action is bound to its tool call, about the capability that was validated.
pub proof fn law_only_reading_runs_unasked(
    context: ContextView,
    seen: Observation,
    call: GovernedCall,
    execution: ExecutionKind,
    registered: Option<Grounds>,
    decision: AuthorizationDecision,
    result: Result<(), HarnessError>,
)
    ensures
        !executes(action_begun(context, seen, call, registered).1),
        !(action_begun(context, seen, call, registered).1 is Authorize),
        !executes(
            governed_settled(
                context,
                seen,
                GovernedStage::Binding { call, execution },
                result,
            ).1,
        ),
        governed_settled(context, seen, GovernedStage::Binding { call, execution }, result).1
            matches GovernedTurn::Authorize(asked) ==> result is Ok && asked.subject()
            == call.capability,
        executes(
            authorized(context, Authorization::Action { call, execution }, decision).1,
        ) ==> call.capability == CapabilityKind::ReadOnly && decision
            == AuthorizationDecision::Allowed,
{
}

/// An approver is asked only about a write that is contained and that the policy wants approved,
/// and only while the audit trail is whole.
pub proof fn law_only_contained_writes_are_asked_about(
    context: ContextView,
    call: GovernedCall,
    execution: ExecutionKind,
    decision: AuthorizationDecision,
)
    requires
        authorized(context, Authorization::Action { call, execution }, decision).1 is Preview,
    ensures
        call.capability == CapabilityKind::LocalWrite,
        execution == ExecutionKind::Contained,
        decision == AuthorizationDecision::RequiresApproval,
        !context.audit_degraded,
{
}

/// A write is granted only by a decision on exactly the question that was put and exactly the
/// action that was shown.
pub proof fn law_grant_is_for_this_action(
    context: ContextView,
    seen: Observation,
    call: GovernedCall,
    request_id: ApprovalRequestId,
    reply: DecisionReply,
)
    ensures
        !executes(decided(context, seen, call, request_id, reply).1),
        decided(context, seen, call, request_id, reply).1 matches GovernedTurn::Record(
            _,
            GovernedStage::Granting { call: granted_call },
        ) ==> {
            &&& granted_call == call
            &&& reply matches DecisionReply::Decided(decision) && {
                &&& decision.outcome == ApprovalOutcome::Granted
                &&& decision.request_id == request_id
                &&& decision.action_digest == call.action_digest
            }
        },
{
}

/// A granted write is executed contained, with every event audited, and only once the grant is
/// recorded.
pub proof fn law_granted_write_runs_contained(
    context: ContextView,
    seen: Observation,
    call: GovernedCall,
    result: Result<(), HarnessError>,
)
    requires
        executes(governed_settled(context, seen, GovernedStage::Granting { call }, result).1),
    ensures
        result is Ok,
        governed_settled(context, seen, GovernedStage::Granting { call }, result).1
            matches GovernedTurn::Record(
            _,
            GovernedStage::Calling { stage, execution },
        ) && execution == ExecutionKind::Contained && stage == (ToolStage::Starting {
            tool_call_id: call.tool_call_id,
            mode: AuditMode::Required,
        }),
{
}

/// No other stage of an action leads to its execution: not the question, not a refusal.
pub proof fn law_refusal_executes_nothing(
    context: ContextView,
    seen: Observation,
    call: GovernedCall,
    request_id: ApprovalRequestId,
    error: HarnessError,
    approver: bool,
    preview: Result<(), ContainmentPortError>,
    result: Result<(), HarnessError>,
)
    ensures
        !executes(previewed(context, seen, call, request_id, approver, preview).1),
        !executes(
            governed_settled(
                context,
                seen,
                GovernedStage::Asking { call, request_id },
                result,
            ).1,
        ),
        !executes(
            governed_settled(context, seen, GovernedStage::Refusing { error }, result).1,
        ),
        !executes(governed_settled(context, seen, GovernedStage::Stopping, result).1),
        governed_settled(context, seen, GovernedStage::Refusing { error }, result).1
            matches GovernedTurn::Finished(Err(_)),
{
}

/// The stages that lead to a denial.
pub open spec fn is_denied(turn: ResumeTurn) -> bool {
    match turn {
        ResumeTurn::Load(LoadStage::Denied { .. }) => true,
        ResumeTurn::Record(_, ResumeStage::Denying { .. }) => true,
        ResumeTurn::Record(_, ResumeStage::Consuming { .. }) => true,
        ResumeTurn::Finished(result) => !(result matches Ok(
            crate::resume::ResumeOutcome::Executed { .. },
        )),
        _ => false,
    }
}

/// A wait that was decided against never leads to the write: from the decision on, every turn is
/// one of a denial.
pub proof fn law_denied_write_is_never_executed(
    context: ContextView,
    seen: Observation,
    grounds: (WaitSetup, Seq<BindingView>),
    loading: LoadStage,
    loaded: Result<DurableApprovalRecord, PersistencePortError>,
    stage: ResumeStage,
    result: Result<(), HarnessError>,
    after: ContextView,
    turn: ResumeTurn,
)
    ensures
        loading is Deciding && (loaded matches Ok(record) && record.status
            == DurableApprovalStatus::DecisionRecordedDeny) && continues_loaded(
            context,
            seen,
            grounds,
            loading,
            loaded,
            after,
            turn,
        ) ==> is_denied(turn),
        loading is Denied && continues_loaded(context, seen, grounds, loading, loaded, after, turn)
            ==> is_denied(turn),
        (stage is Denying || stage is Consuming) && continues_recorded(
            context,
            stage,
            result,
            after,
            turn,
        ) ==> is_denied(turn),
{
}

/// A wait that nobody has decided on is not carried on.
pub proof fn law_undecided_wait_is_not_carried_on(
    context: ContextView,
    seen: Observation,
    grounds: (WaitSetup, Seq<BindingView>),
    loading: LoadStage,
    record: DurableApprovalRecord,
    after: ContextView,
    turn: ResumeTurn,
)
    requires
        loading is Deciding,
        record.status == DurableApprovalStatus::Waiting || record.status
            == DurableApprovalStatus::Executing || record.status
            == DurableApprovalStatus::Consumed,
        continues_loaded(context, seen, grounds, loading, Ok(record), after, turn),
    ensures
        after == context,
        turn == ResumeTurn::Finished(Err(HarnessError::DurableApprovalMismatch)),
{
}

/// A suspended write is executed only once its start is stored together with the move of the wait
/// from ready to executing. So it is never executed twice: the store moves a wait only from the
/// status that is expected.
pub proof fn law_write_is_claimed_before_it_runs(
    context: ContextView,
    seen: Observation,
    grounds: (WaitSetup, Seq<BindingView>),
    loading: LoadStage,
    loaded: Result<DurableApprovalRecord, PersistencePortError>,
    stage: ResumeStage,
    result: Result<(), HarnessError>,
    restored: Restored,
    preview: Result<(), ContainmentPortError>,
    moving: MoveStage,
    moved: Result<(), PersistencePortError>,
    after: ContextView,
    turn: ResumeTurn,
)
    ensures
        turn is Invoke && continues_recorded(context, stage, result, after, turn) ==> result is Ok
            && stage is Starting,
        continues_loaded(context, seen, grounds, loading, loaded, after, turn) ==> !(turn is Invoke)
            && (turn matches ResumeTurn::Record(_, ResumeStage::Starting { store, .. }) ==> {
            &&& loading is Resumed
            &&& store.expected_status == DurableApprovalStatus::ApprovedReady
            &&& store.next_status == DurableApprovalStatus::Executing
        }),
        !(restored_previewed(context, restored, preview).1 is Invoke),
        !(resume_moved(context, moving, moved).1 is Invoke),
{
}

/// The durable state tells the same as the context: whoever, how much, how far, in what state.
pub open spec fn in_step(context: ContextView) -> bool {
    &&& context.durable.key == context.key
    &&& context.durable.budget == context.budget
    &&& context.durable.recovery_contract == context.recovery_contract
    &&& context.durable.usage == context.usage
    &&& context.durable.status == context.status
    &&& context.durable.audit_degraded == context.audit_degraded
    &&& context.next_event_sequence == next_sequence(context.durable.last_sequence)
    &&& context.durable.last_sequence matches Some(last) ==> last.0 < u64::MAX
}

/// A new run is in step with its log.
pub proof fn law_fresh_run_is_in_step(key: RunKey, budget: RunBudget, contract: RecoveryContract)
    ensures
        in_step(fresh_context(key, budget, contract)),
        within_budget(
            fresh_context(key, budget, contract).usage,
            fresh_context(key, budget, contract).budget,
        ),
{
}

/// A run that is in step is recovered as it was: whatever the process knew of it, but for its
/// clock, comes back from the durable state.
pub proof fn law_recovery_restores_the_run(
    context: ContextView,
    elapsed: TimeSpan,
    now: MonotonicTime,
)
    requires
        in_step(context),
        elapsed.nanos <= context.budget.max_elapsed.nanos,
        now.nanos + context.budget.max_elapsed.nanos <= u128::MAX,
    ensures
        recovered_context(context.durable, elapsed, now, context.recovery_contract) matches Ok(
            recovered,
        ) && recovered == (ContextView {
            deadline_at: recovered.deadline_at,
            persistence_failed: false,
            ..context
        }) && (context.status == RunStatus::Running ==> recovered.deadline_at == now.plus(
            TimeSpan { nanos: (context.budget.max_elapsed.nanos - elapsed.nanos) as u128 },
        )),
{
}

/// What is left of the context once the event of a recording is taken into the durable state.
pub open spec fn taken(turned: Turned, encoding: Seq<u8>) -> Option<ContextView> {
    match turned.1 {
        RecordTurn::Encode(under_way) => {
            let (durable, result) = reduce(turned.0.durable, under_way.event, Some(encoding));
            if result is Ok {
                Some(
                    if under_way.purpose == Purpose::Degraded {
                        ContextView { durable, ..turned.0 }.degraded()
                    } else {
                        ContextView { durable, ..turned.0 }
                    },
                )
            } else {
                None
            }
        },
        _ => None,
    }
}

/// A step goes on from exactly what is left of the context: it is handed to the store, or to the
/// audit sink.
pub proof fn law_taken_is_what_is_stored(
    context: ContextView,
    settings: Settings,
    under_way: Recording,
    encoding: Seq<u8>,
)
    requires
        context.deadline_at is Some,
    ensures
        taken((context, RecordTurn::Encode(under_way)), encoding) matches Some(left) ==> {
            let (after, turn) = once_encoded(context, settings, under_way, Some(encoding));
            &&& after == left
            &&& under_way.purpose != Purpose::Degraded ==> turn == RecordTurn::Store(under_way)
                || turn == RecordTurn::Append(under_way) || turn == RecordTurn::Audit(under_way)
        },
{
}

/// Starting a run, reserving in it and ending it are always taken into the log, and leave the run
/// in step with it.
pub proof fn law_lifecycle_is_logged(
    context: ContextView,
    clock: StartClock,
    outcome: RunOutcome,
    error: HarnessError,
    operation: HarnessOperation,
    encoding: Seq<u8>,
)
    requires
        in_step(context),
        context.next_event_sequence.0 < u64::MAX - 1,
    ensures
        context.status == RunStatus::Pending && running_from(context, clock).0.status
            == RunStatus::Running ==> {
            let (after, turn) = running_from(context, clock);
            turn matches crate::start::StartTurn::Record(record, _) && taken(
                (after, record),
                encoding,
            ) matches Some(left) && in_step(left)
        },
        context.status == RunStatus::Running ==> {
            &&& taken(terminalized(context, outcome, error), encoding) matches Some(left)
                && in_step(left)
            &&& taken(
                ended(
                    context,
                    outcome,
                    AgentEventKind::RunFinished { outcome },
                    operation,
                ),
                encoding,
            ) matches Some(left) && in_step(left)
        },
        taken(
            recording(context, AgentEventKind::AuditDegraded, Purpose::Degraded, Some(error)),
            encoding,
        ) matches Some(left) && in_step(left),
{
}

/// A reservation is taken into the log with the start of what it was made for.
pub proof fn law_reservation_is_logged(
    context: ContextView,
    seen: Observation,
    model_call_id: ModelCallId,
    grounding: Option<GroundingBinding>,
    tool_call_id: ToolCallId,
    tool_name: ToolName,
    capability: CapabilityKind,
    mode: AuditMode,
    encoding: Seq<u8>,
)
    requires
        in_step(context),
        context.next_event_sequence.0 < u64::MAX - 1,
        closed_gate(context, HarnessOperation::InvokeModel, seen) is None,
    ensures
        ({
            let (after, turn) = model_begun(context, seen, model_call_id, grounding);
            turn matches ModelTurn::Record(record, _) && taken((after, record), encoding)
                matches Some(left) && in_step(left)
        }),
        ({
            let (after, turn) = tool_begun(context, tool_call_id, tool_name, capability, mode);
            turn matches ToolTurn::Record(record, _) && taken((after, record), encoding)
                matches Some(left) && in_step(left)
        }),
        taken(iteration_begun(context), encoding) matches Some(left) ==> in_step(left),
{
}

/// An event that neither reserves anything nor moves the run's lifecycle.
pub open spec fn is_plain(kind: AgentEventKind) -> bool {
    match kind {
        AgentEventKind::RunStarted { .. }
        | AgentEventKind::RunFinished { .. }
        | AgentEventKind::ModelInvocationStarted { .. }
        | AgentEventKind::ToolInvocationStarted { .. }
        | AgentEventKind::ApprovalRequested { .. }
        | AgentEventKind::DurableApprovalPrepared { .. }
        | AgentEventKind::AuditDegraded => false,
        AgentEventKind::Loop { event } => !(event is IterationStarted),
        AgentEventKind::Graph { event } => !(event is GraphNodeEntered)
            && !(event is GraphNodeRestarted) && !(event is GraphCompleted)
            && !(event is GraphFailed),
        _ => true,
    }
}

/// Any other event that is taken into the log leaves the run in step with it.
pub proof fn law_plain_event_keeps_step(
    context: ContextView,
    kind: AgentEventKind,
    purpose: Purpose,
    encoding: Seq<u8>,
)
    requires
        in_step(context),
        context.next_event_sequence.0 < u64::MAX - 1,
        is_plain(kind),
        purpose != Purpose::Degraded,
    ensures
        taken(recording(context, kind, purpose, None), encoding) matches Some(left) ==> in_step(
            left,
        ),
{
    crate::replay_laws::law_event_carries_over(
        context.durable,
        context.event(kind),
        Some(encoding),
    );
}

} // verus!
