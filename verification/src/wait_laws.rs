//! How a write is suspended, decided on, carried on or given up.

use vstd::prelude::*;
use vstd::utf8::encode_utf8;

use crate::action::ValidatedAction;
use crate::approval::{preview_part, ApprovalPreviewError};
use crate::budget::{BudgetDimension, BudgetExceeded, BudgetUsage};
use crate::context::{ContextView, Observation};
use crate::digest::sha256;
use crate::durable_approval::{
    capsule_fits, names_something, path_parts, seal_fits, ActionSealBinding,
    DurableActionContext, DurableApprovalDecisionCommand, DurableApprovalRecord,
    DurableApprovalStatus, DurableApprovalWait, LocalWriteActionCapsuleV1, SealedLocalWriteAction,
};
use crate::error::{
    ActionSealError, AuditPhase, ContainmentPortError, HarnessError, HarnessOperation,
    OperationEffect,
};
use crate::events::{
    AgentEventKind, CapabilityKind, GraphNodeKind, GraphProgressEvent, GraphRecoveryMode,
};
use crate::ids::ToolCallId;
use crate::json::{json_at, JsonModel};
use crate::operation_laws::{
    answer_plan, before_plan, ends_run, log_has_room, notes, one_place_on,
    open_to_operations, placed, state_plan,
};
use crate::persistence::{PersistencePortError, RecoveryContract, RunKey};
use crate::policy::AuthorizationDecision;
use crate::positions::GraphPositionView;
use crate::record::{AuditMode, Purpose, RecordPlan, RecordTurn, Recording, Turned};
use crate::recovery::{reduce_graph, RunStateView};
use crate::resume::{
    abort_begun, continues_loaded, continues_recorded, decision_begun, file_json,
    reports_fault, restore_fault, restore_refusal, restored_previewed, resume_moved, AbortStep, LoadStage,
    MoveStage, Opening, RestoreFault, Restored, ResumeOutcome, ResumePlan, ResumeStage, ResumeTurn, StatusMove,
};
use crate::status::{RunOutcome, RunStatus};
use crate::text::{has_control, trimmed};
use crate::tool_call::ToolStage;
use crate::tools::{contract_content, names_differ, BindingView, ExecutionKind};
use crate::waits::{
    new_record, suspension_fault, suspension_refusal, suspension_sealed, suspension_settled,
    wait_binding, waiting_for, written_file, SuspensionStage, SuspensionTurn, WaitIds, WaitPlan,
    WaitSetup,
};

verus! {

/// The step stores this event together with the wait.
pub open spec fn stores(
    context: ContextView,
    step: Turned,
    kind: AgentEventKind,
    plan: RecordPlan,
    checkpoint: bool,
) -> bool {
    step == (
        one_place_on(context),
        RecordTurn::Encode(
            Recording {
                event: placed(context, kind),
                purpose: Purpose::Stored { plan, checkpoint },
                held: None,
            },
        ),
    )
}

/// A file that is put into arguments is what is taken out of them, and arguments that are anything
/// but a path and a content write no file.
pub proof fn law_written_file_is_given_back(path: Seq<char>, content: Seq<char>, other: JsonModel)
    ensures
        written_file(file_json(path, content)) == Some((path, content)),
        written_file(other) matches Some((to, text)) ==> {
            &&& other matches JsonModel::Object(members) && members.len() == 2
            &&& json_at(other, "relative_path"@) == Some(JsonModel::Text(to))
            &&& json_at(other, "content"@) == Some(JsonModel::Text(text))
        },
        !(other is Object) ==> written_file(other) is None,
        json_at(other, "relative_path"@) is None || json_at(other, "content"@) is None
            ==> written_file(other) is None,
        other matches JsonModel::Object(members) && members.len() == 2 && (json_at(
            other,
            "relative_path"@,
        ) matches Some(JsonModel::Text(_))) && (json_at(other, "content"@) matches Some(
            JsonModel::Text(_),
        )) ==> written_file(other) is Some,
{
    reveal_strlit("content");
    reveal_strlit("relative_path");
    assert("content"@.len() != "relative_path"@.len());
    let members = file_json(path, content)->Object_0;
    crate::action_laws::law_member_is_the_first_of_its_key(members, "content"@, 0);
    crate::action_laws::law_member_is_the_first_of_its_key(members, "relative_path"@, 1);
}

/// The run stands in this action node of this graph program, at this attempt.
pub open spec fn in_action_node(context: ContextView, durable: DurableActionContext) -> bool {
    &&& context.recovery_contract matches RecoveryContract::Graph {
        program_version,
        definition_digest,
    } && program_version == durable.program_version && definition_digest == durable.graph_digest@
    &&& context.durable.graph matches Some(graph) && (
    graph.position matches GraphPositionView::Running { attempt_id, node_id, node_kind, recovery }
        && attempt_id == durable.attempt_id && node_id == durable.node_id@ && node_kind
        == GraphNodeKind::Action && recovery == GraphRecoveryMode::Never)
}

/// A write can be suspended where there is a store, a seal and a workspace, where the run stands in
/// the action node that is named, and where it is a write to the workspace by the one tool for that;
/// and each thing that is missing is reported.
pub proof fn law_write_can_be_suspended(
    context: ContextView,
    setup: WaitSetup,
    action: ValidatedAction,
    durable: DurableActionContext,
)
    ensures
        ({
            let fault = suspension_fault(context, setup, action, durable);
            let fits = setup.workspace is Some && in_action_node(context, durable)
                && action@.tool_name == "workspace_write_file"@ && action@.capability
                == CapabilityKind::LocalWrite;
            &&& fault is None <==> setup.has_store && setup.has_seal && fits
            &&& !setup.has_store ==> fault == Some(
                HarnessError::Persistence(PersistencePortError::Unavailable),
            )
            &&& setup.has_store && !setup.has_seal ==> fault == Some(
                HarnessError::ActionSeal(ActionSealError::KeyUnavailable),
            )
            &&& setup.has_store && setup.has_seal && !fits ==> fault == Some(
                HarnessError::DurableApprovalMismatch,
            )
        }),
{
}

/// Once the policy is asked, a write is suspended where the policy wants it approved, its tool is
/// registered as contained, and the audit trail is whole.
pub proof fn law_suspension_needs_a_contained_tool(
    context: ContextView,
    tools: Seq<BindingView>,
    action: ValidatedAction,
    decision: AuthorizationDecision,
)
    requires
        names_differ(tools),
    ensures
        ({
            let refusal = suspension_refusal(context, tools, action, decision);
            &&& refusal is None <==> {
                &&& decision == AuthorizationDecision::RequiresApproval
                &&& !context.audit_degraded
                &&& exists|i: int|
                    0 <= i < tools.len() && (#[trigger] tools[i]).definition.name
                        == action@.tool_name && tools[i].execution == ExecutionKind::Contained
            }
            &&& decision != AuthorizationDecision::RequiresApproval ==> refusal == Some(
                HarnessError::DurableApprovalMismatch,
            )
            &&& decision == AuthorizationDecision::RequiresApproval && (forall|i: int|
                0 <= i < tools.len() ==> (#[trigger] tools[i]).definition.name
                    != action@.tool_name) ==> refusal == Some(
                HarnessError::ToolNotFound { name: action.name() },
            )
        }),
{
    crate::action_laws::law_tool_is_found_by_name(tools, action@.tool_name, 0);
    assert forall|i: int| 0 <= i < tools.len() && (#[trigger] tools[i]).definition.name
        == action@.tool_name implies crate::tools::tool_named(tools, action@.tool_name) == Some(
        tools[i],
    ) by {
        crate::action_laws::law_tool_is_found_by_name(tools, action@.tool_name, i);
    }
}

/// A write that is bound to its tool call is put as a question, within the budget for questions;
/// then it is sealed; then the run is suspended, stored with the wait and a checkpoint; and then
/// the wait is what is reported.
pub proof fn law_suspension_goes_on(
    context: ContextView,
    binding: ActionSealBinding,
    capsule: LocalWriteActionCapsuleV1,
    sealed: SealedLocalWriteAction,
    record: DurableApprovalRecord,
    error: ActionSealError,
    failure: HarnessError,
    stage: SuspensionStage,
)
    requires
        log_has_room(context),
    ensures
        context.usage.approval_requests < context.budget.max_approval_requests ==> {
            let usage = (context.usage.approval_requests + 1) as u32;
            let (after, turn) = suspension_settled(
                context,
                SuspensionStage::Binding { binding, capsule },
                Ok(()),
            );
            turn matches SuspensionTurn::Record(asked, next) && notes(
                ContextView {
                    usage: BudgetUsage { approval_requests: usage, ..context.usage },
                    ..context
                },
                (after, asked),
                AgentEventKind::DurableApprovalPrepared {
                    wait_id: binding.wait_id,
                    approval_request_id: binding.approval_request_id,
                    action_proposal_id: binding.action_proposal_id,
                    tool_call_id: binding.tool_call_id,
                    action_digest: binding.action_digest,
                    workspace_binding_id: binding.workspace_binding_id,
                    tool_contract_digest: binding.tool_contract_digest,
                    usage,
                    limit: context.budget.max_approval_requests,
                },
                before_plan(HarnessOperation::RequestApproval, AuditMode::Required),
            ) && next == (SuspensionStage::Preparing { binding, capsule })
        },
        context.usage.approval_requests >= context.budget.max_approval_requests && context.status
            == RunStatus::Running ==> {
            let (after, turn) = suspension_settled(
                context,
                SuspensionStage::Binding { binding, capsule },
                Ok(()),
            );
            turn matches SuspensionTurn::Record(stopped, _) && ends_run(
                context,
                (after, stopped),
                RunOutcome::BudgetExceeded { dimension: BudgetDimension::ApprovalRequests },
                HarnessError::BudgetExceeded(
                    BudgetExceeded { dimension: BudgetDimension::ApprovalRequests },
                ),
            )
        },
        suspension_settled(context, SuspensionStage::Preparing { binding, capsule }, Ok(())) == (
            context,
            SuspensionTurn::Seal { binding, capsule },
        ),
        ({
            let (after, turn) = suspension_sealed(context, binding, Ok(sealed), record);
            turn matches SuspensionTurn::Record(suspended, next) && stores(
                context,
                (after, suspended),
                AgentEventKind::Graph {
                    event: GraphProgressEvent::GraphSuspended {
                        attempt_id: binding.attempt_id,
                        node_id: binding.node_id,
                        wait_id: binding.wait_id,
                        approval_request_id: binding.approval_request_id,
                        action_proposal_id: binding.action_proposal_id,
                        tool_call_id: binding.tool_call_id,
                        action_digest: binding.action_digest,
                    },
                },
                state_plan(HarnessOperation::RequestApproval),
                true,
            ) && next == (SuspensionStage::Suspending { record })
        }),
        suspension_sealed(context, binding, Err(error), record) == (
            context,
            SuspensionTurn::Finished(Err(HarnessError::ActionSeal(error))),
        ),
        suspension_settled(context, SuspensionStage::Suspending { record }, Ok(())) == (
            context,
            SuspensionTurn::Finished(
                Ok(
                    DurableApprovalWait {
                        wait_id: record.binding.wait_id,
                        approval_request_id: record.binding.approval_request_id,
                        action_proposal_id: record.binding.action_proposal_id,
                        tool_call_id: record.binding.tool_call_id,
                        action_digest: record.binding.action_digest,
                    },
                ),
            ),
        ),
        suspension_settled(context, stage, Err(failure)) == (
            context,
            SuspensionTurn::Finished(Err(failure)),
        ),
{
}

/// A new wait holds the binding and the seal that it was made with; nobody has decided on it.
pub proof fn law_new_wait_is_undecided(
    binding: ActionSealBinding,
    sealed: SealedLocalWriteAction,
)
    ensures
        ({
            let record = new_record(binding, sealed);
            &&& record.binding == binding
            &&& record.sealed_action == sealed
            &&& record.status == DurableApprovalStatus::Waiting
            &&& record.row_version == 0
            &&& record.decision_actor is None
            &&& record.decision_timestamp_unix_millis is None
        }),
{
}

/// The run waits, under these ids and this digest.
pub open spec fn waits_under(state: RunStateView, command: DurableApprovalDecisionCommand) -> bool {
    state.graph matches Some(graph) && (graph.position matches GraphPositionView::Waiting {
        wait_id,
        approval_request_id,
        action_proposal_id,
        tool_call_id,
        action_digest,
        ..
    } && wait_id == command.wait_id && approval_request_id == command.approval_request_id
        && action_proposal_id == command.action_proposal_id && tool_call_id == command.tool_call_id
        && action_digest == command.action_digest)
}

/// A decision is recorded exactly where it is on the wait, the question, the proposal, the call and
/// the action that the run waits under. It is recorded as it was made, with the next version of the
/// row, and stored with the wait and a checkpoint.
pub proof fn law_decision_is_on_what_waits(
    context: ContextView,
    command: DurableApprovalDecisionCommand,
)
    requires
        log_has_room(context),
    ensures
        waits_under(context.durable, command) && command.expected_row_version < u64::MAX ==> stores(
            context,
            decision_begun(context, command),
            AgentEventKind::DurableApprovalDecisionRecorded {
                wait_id: command.wait_id,
                approval_request_id: command.approval_request_id,
                outcome: command.outcome,
                row_version: (command.expected_row_version + 1) as u64,
            },
            RecordPlan {
                operation: HarnessOperation::RequestApproval,
                phase: AuditPhase::AfterInvocation,
                effect: OperationEffect::NotInvoked,
                mode: AuditMode::Configured,
            },
            true,
        ),
        !waits_under(context.durable, command) ==> decision_begun(context, command) == (
            context,
            RecordTurn::Finished(Err(HarnessError::DurableApprovalMismatch)),
        ),
{
}

/// A run that is suspended waits for exactly what it was suspended for, so a decision on that can
/// be recorded.
pub proof fn law_suspended_run_can_be_decided_on(
    state: RunStateView,
    suspension: GraphProgressEvent,
    command: DurableApprovalDecisionCommand,
)
    requires
        suspension is GraphSuspended,
        reduce_graph(state, suspension).1 is Ok,
    ensures
        ({
            let suspended = reduce_graph(state, suspension).0;
            &&& waiting_for(suspended, suspension->GraphSuspended_wait_id) matches Some(waiting) && {
                &&& waiting.attempt_id == suspension->GraphSuspended_attempt_id
                &&& waiting.approval_request_id == suspension->GraphSuspended_approval_request_id
                &&& waiting.action_proposal_id == suspension->GraphSuspended_action_proposal_id
                &&& waiting.tool_call_id == suspension->GraphSuspended_tool_call_id
                &&& waiting.action_digest == suspension->GraphSuspended_action_digest
            }
            &&& waits_under(suspended, command) <==> {
                &&& command.wait_id == suspension->GraphSuspended_wait_id
                &&& command.approval_request_id == suspension->GraphSuspended_approval_request_id
                &&& command.action_proposal_id == suspension->GraphSuspended_action_proposal_id
                &&& command.tool_call_id == suspension->GraphSuspended_tool_call_id
                &&& command.action_digest == suspension->GraphSuspended_action_digest
            }
        }),
{
}

/// A wait is given up where the run waits for it and nobody has decided, in the version of the row
/// that was seen: the run ends as cancelled, and the wait is consumed with it.
pub proof fn law_undecided_wait_is_given_up(
    context: ContextView,
    command: DurableApprovalDecisionCommand,
    expected_row_version: u64,
    record: DurableApprovalRecord,
)
    requires
        log_has_room(context),
    ensures
        ({
            let wait_id = command.wait_id;
            let (after, step) = abort_begun(context, wait_id, expected_row_version, record);
            let undecided = waiting_for(context.durable, wait_id) is Some && record.status
                == DurableApprovalStatus::Waiting && record.row_version == expected_row_version;
            &&& undecided && context.status == RunStatus::Running ==> (
            step matches AbortStep::Record(turn, moved) && stores(
                ContextView { status: RunStatus::Finished(RunOutcome::Cancelled), ..context },
                (after, turn),
                AgentEventKind::RunFinished { outcome: RunOutcome::Cancelled },
                state_plan(HarnessOperation::CancelRun),
                true,
            ) && moved == (StatusMove {
                key: context.key,
                wait_id,
                expected_row_version,
                expected_status: DurableApprovalStatus::Waiting,
                next_status: DurableApprovalStatus::Consumed,
            }))
            &&& !undecided ==> after == context && step == AbortStep::Failed(
                HarnessError::DurableApprovalMismatch,
            )
            &&& waits_under(context.durable, command) ==> waiting_for(context.durable, wait_id)
                is Some
        }),
{
}

/// The move of a wait from the row that was loaded.
pub open spec fn moves(
    record: DurableApprovalRecord,
    plan: ResumePlan,
    from: DurableApprovalStatus,
    to: DurableApprovalStatus,
) -> StatusMove {
    StatusMove {
        key: RunKey { run_id: record.binding.run_id, session_id: record.binding.session_id },
        wait_id: plan.wait_id,
        expected_row_version: record.row_version,
        expected_status: from,
        next_status: to,
    }
}

/// The plan with the key that a record is bound to.
pub open spec fn rebound(plan: ResumePlan, record: DurableApprovalRecord) -> ResumePlan {
    ResumePlan {
        key: RunKey { run_id: record.binding.run_id, session_id: record.binding.session_id },
        wait_id: plan.wait_id,
        approval_request_id: plan.approval_request_id,
        attempt_id: plan.attempt_id,
        node_id: plan.node_id,
    }
}

pub open spec fn goes_on(plan: ResumePlan) -> AgentEventKind {
    AgentEventKind::Graph {
        event: GraphProgressEvent::GraphResumed {
            attempt_id: plan.attempt_id,
            node_id: plan.node_id,
            wait_id: plan.wait_id,
        },
    }
}

/// A wait that was decided against is told so: the denial is recorded, then the run goes on without
/// the write while the wait is consumed, and then the denial is what is reported.
pub proof fn law_denied_wait_is_consumed(
    context: ContextView,
    seen: Observation,
    grounds: (WaitSetup, Seq<BindingView>),
    plan: ResumePlan,
    record: DurableApprovalRecord,
    after: ContextView,
    turn: ResumeTurn,
)
    requires
        log_has_room(context),
    ensures
        ({
            let bound = rebound(plan, record);
            let store = moves(
                record,
                plan,
                DurableApprovalStatus::DecisionRecordedDeny,
                DurableApprovalStatus::Consumed,
            );
            &&& record.status == DurableApprovalStatus::DecisionRecordedDeny && continues_loaded(
                context,
                seen,
                grounds,
                LoadStage::Deciding { plan },
                Ok(record),
                after,
                turn,
            ) ==> (turn matches ResumeTurn::Record(denied, next) && notes(
                context,
                (after, denied),
                AgentEventKind::DurableApprovalDenied {
                    wait_id: plan.wait_id,
                    approval_request_id: plan.approval_request_id,
                },
                answer_plan(),
            ) && next == (ResumeStage::Denying { plan: bound }))
            &&& continues_recorded(context, ResumeStage::Denying { plan }, Ok(()), after, turn)
                ==> after == context && turn == ResumeTurn::Load(LoadStage::Denied { plan })
            &&& continues_loaded(
                context,
                seen,
                grounds,
                LoadStage::Denied { plan },
                Ok(record),
                after,
                turn,
            ) ==> (turn matches ResumeTurn::Record(resumed, next) && stores(
                context,
                (after, resumed),
                goes_on(plan),
                state_plan(HarnessOperation::RequestApproval),
                false,
            ) && next == (ResumeStage::Consuming { plan: bound, store }))
            &&& continues_recorded(
                context,
                ResumeStage::Consuming { plan, store },
                Ok(()),
                after,
                turn,
            ) ==> after == context && turn == ResumeTurn::Finished(
                Ok(
                    ResumeOutcome::Denied { attempt_id: plan.attempt_id, node_id: plan.node_id },
                ),
            )
        }),
{
}

/// The run waits for what this binding says, in the graph program that it names.
pub open spec fn waits_as_bound(state: RunStateView, binding: ActionSealBinding) -> bool {
    &&& state.graph matches Some(graph) && (graph.position matches GraphPositionView::Waiting {
        attempt_id,
        node_id,
        wait_id,
        approval_request_id,
        action_proposal_id,
        tool_call_id,
        action_digest,
    } && attempt_id == binding.attempt_id && node_id == binding.node_id@ && wait_id
        == binding.wait_id && approval_request_id == binding.approval_request_id
        && action_proposal_id == binding.action_proposal_id && tool_call_id == binding.tool_call_id
        && action_digest == binding.action_digest)
    &&& state.recovery_contract matches RecoveryContract::Graph {
        program_version,
        definition_digest,
    } && program_version == binding.program_version && definition_digest == binding.graph_digest@
}

/// A suspended write is restored only into what it was suspended from: the same workspace, a run
/// that waits as it was bound, and a tool with the very contract that was bound. Then the policy
/// must want it approved, the audit trail be whole, and the tool be contained.
pub proof fn law_write_is_restored_where_it_was_suspended(
    binding: ActionSealBinding,
    state: RunStateView,
    setup: WaitSetup,
    tools: Seq<BindingView>,
    decision: AuthorizationDecision,
)
    requires
        names_differ(tools),
    ensures
        restore_fault(binding, state, setup, tools) is None <==> {
            &&& setup.has_seal
            &&& setup.workspace == Some(binding.workspace_binding_id)
            &&& binding.capsule_version == 1
            &&& waits_as_bound(state, binding)
            &&& exists|i: int|
                0 <= i < tools.len() && (#[trigger] tools[i]).definition.name
                    == "workspace_write_file"@ && tools[i].definition.capability
                    == CapabilityKind::LocalWrite && sha256(contract_content(tools[i].definition))
                    == binding.tool_contract_digest@
        },
        restore_refusal(state, tools, decision) is None <==> {
            &&& decision == AuthorizationDecision::RequiresApproval
            &&& !state.audit_degraded
            &&& exists|i: int|
                0 <= i < tools.len() && (#[trigger] tools[i]).definition.name
                    == "workspace_write_file"@ && tools[i].execution == ExecutionKind::Contained
        },
{
    let name = "workspace_write_file"@;
    crate::action_laws::law_tool_is_found_by_name(tools, name, 0);
    assert forall|i: int| 0 <= i < tools.len() && (#[trigger] tools[i]).definition.name
        == name implies crate::tools::tool_named(tools, name) == Some(tools[i]) by {
        crate::action_laws::law_tool_is_found_by_name(tools, name, i);
    }
}

/// A wait that was decided for is put to the policy where it can be restored. Once it can be shown
/// again, the grant is recorded and the wait made ready; one that is ready already makes the run go
/// on at once.
pub proof fn law_approved_wait_is_made_ready(
    context: ContextView,
    seen: Observation,
    grounds: (WaitSetup, Seq<BindingView>),
    plan: ResumePlan,
    record: DurableApprovalRecord,
    action: ValidatedAction,
    readied: StatusMove,
    after: ContextView,
    turn: ResumeTurn,
    error: ContainmentPortError,
)
    requires
        log_has_room(context),
    ensures
        ({
            let ready = DurableApprovalStatus::ApprovedReady;
            let approved = DurableApprovalStatus::DecisionRecordedApprove;
            let (shown, shown_turn) = restored_previewed(
                context,
                Restored { plan, record, action },
                Ok(()),
            );
            &&& (record.status == approved || record.status == ready) && restore_fault(
                record.binding,
                context.durable,
                grounds.0,
                grounds.1,
            ) is None && continues_loaded(
                context,
                seen,
                grounds,
                LoadStage::Deciding { plan },
                Ok(record),
                after,
                turn,
            ) ==> after == context && turn == ResumeTurn::Authorize(
                Opening { plan: rebound(plan, record), record },
            )
            &&& record.status == approved ==> (shown_turn matches ResumeTurn::Record(granted, next)
                && notes(
                context,
                (shown, granted),
                AgentEventKind::DurableApprovalGranted {
                    wait_id: plan.wait_id,
                    approval_request_id: plan.approval_request_id,
                },
                answer_plan(),
            ) && next == (ResumeStage::Granting {
                plan,
                readied: moves(record, plan, approved, ready),
                action,
            }))
            &&& record.status == ready ==> (shown_turn matches ResumeTurn::Record(resumed, next)
                && stores(
                context,
                (shown, resumed),
                goes_on(plan),
                state_plan(HarnessOperation::RequestApproval),
                false,
            ) && next == (ResumeStage::Resuming {
                plan,
                store: moves(record, plan, ready, ready),
                action,
            }))
            &&& continues_recorded(
                context,
                ResumeStage::Granting { plan, readied, action },
                Ok(()),
                after,
                turn,
            ) ==> after == context && turn == ResumeTurn::Move(
                readied,
                MoveStage::Readying { plan, action },
            )
            &&& resume_moved(context, MoveStage::Readying { plan, action }, Ok(())) == (
                context,
                ResumeTurn::Load(LoadStage::Ready { plan, action }),
            )
            &&& restored_previewed(context, Restored { plan, record, action }, Err(error)) == (
                context,
                ResumeTurn::Finished(Err(HarnessError::ContainmentPort(error))),
            )
        }),
{
}

/// A wait that is ready makes the run go on; then the write is reserved and its start stored with
/// the wait, which now executes; then the tool is called with the very action that was restored.
pub proof fn law_ready_wait_is_executed(
    context: ContextView,
    seen: Observation,
    grounds: (WaitSetup, Seq<BindingView>),
    plan: ResumePlan,
    record: DurableApprovalRecord,
    action: ValidatedAction,
    store: StatusMove,
    tool_call_id: ToolCallId,
    after: ContextView,
    turn: ResumeTurn,
)
    requires
        log_has_room(context),
        open_to_operations(context, seen),
        context.usage.tool_calls < context.budget.max_tool_calls,
    ensures
        ({
            let bound = rebound(plan, record);
            let ready = DurableApprovalStatus::ApprovedReady;
            let usage = (context.usage.tool_calls + 1) as u32;
            &&& continues_loaded(
                context,
                seen,
                grounds,
                LoadStage::Ready { plan, action },
                Ok(record),
                after,
                turn,
            ) ==> (turn matches ResumeTurn::Record(resumed, next) && stores(
                context,
                (after, resumed),
                goes_on(plan),
                state_plan(HarnessOperation::RequestApproval),
                false,
            ) && next == (ResumeStage::Resuming {
                plan: bound,
                store: moves(record, plan, ready, ready),
                action,
            }))
            &&& continues_recorded(
                context,
                ResumeStage::Resuming { plan, store, action },
                Ok(()),
                after,
                turn,
            ) ==> after == context && turn == ResumeTurn::Load(LoadStage::Resumed { plan, action })
            &&& continues_loaded(
                context,
                seen,
                grounds,
                LoadStage::Resumed { plan, action },
                Ok(record),
                after,
                turn,
            ) ==> (turn matches ResumeTurn::Record(started, next) && stores(
                ContextView {
                    usage: BudgetUsage { tool_calls: usage, ..context.usage },
                    ..context
                },
                (after, started),
                AgentEventKind::ToolInvocationStarted {
                    tool_call_id: record.binding.tool_call_id,
                    tool_name: action.name(),
                    capability: action@.capability,
                    usage,
                    limit: context.budget.max_tool_calls,
                },
                before_plan(HarnessOperation::InvokeTool, AuditMode::Required),
                false,
            ) && next == (ResumeStage::Starting {
                plan: bound,
                store: moves(record, plan, ready, DurableApprovalStatus::Executing),
                action,
                tool_call_id: record.binding.tool_call_id,
            }))
            &&& continues_recorded(
                context,
                ResumeStage::Starting { plan, store, action, tool_call_id },
                Ok(()),
                after,
                turn,
            ) ==> after == context && (turn matches ResumeTurn::Invoke { plan: carried, call }
                && carried == plan && call.id == tool_call_id && call.tool_name@
                == action@.tool_name && call.arguments.json() == action@.arguments)
        }),
{
}

/// A write that was executed is reported as executed, once its wait is consumed.
pub proof fn law_executed_wait_is_consumed(
    context: ContextView,
    seen: Observation,
    grounds: (WaitSetup, Seq<BindingView>),
    plan: ResumePlan,
    record: DurableApprovalRecord,
    after: ContextView,
    turn: ResumeTurn,
    error: PersistencePortError,
    moving: MoveStage,
    loading: LoadStage,
)
    ensures
        continues_recorded(
            context,
            ResumeStage::Calling { plan, stage: ToolStage::Ending { error: None } },
            Ok(()),
            after,
            turn,
        ) ==> after == context && turn == ResumeTurn::Load(LoadStage::Executed { plan }),
        continues_loaded(
            context,
            seen,
            grounds,
            LoadStage::Executed { plan },
            Ok(record),
            after,
            turn,
        ) ==> after == context && turn == ResumeTurn::Move(
            moves(
                record,
                plan,
                DurableApprovalStatus::Executing,
                DurableApprovalStatus::Consumed,
            ),
            MoveStage::Consuming { plan: rebound(plan, record) },
        ),
        resume_moved(context, MoveStage::Consuming { plan }, Ok(())) == (
            context,
            ResumeTurn::Finished(
                Ok(ResumeOutcome::Executed { attempt_id: plan.attempt_id, node_id: plan.node_id }),
            ),
        ),
        resume_moved(context, moving, Err(error)) == (
            ContextView { persistence_failed: true, ..context },
            ResumeTurn::Finished(Err(HarnessError::Persistence(error))),
        ),
        continues_loaded(context, seen, grounds, loading, Err(error), after, turn) ==> after
            == context && turn == ResumeTurn::Finished(Err(HarnessError::Persistence(error))),
{
}

/// A path is cut at its slashes and nowhere else: what stands before a slash and what stands behind
/// it are cut by themselves, and what holds no slash is one part.
pub proof fn law_path_is_cut_at_slashes(before: Seq<char>, behind: Seq<char>)
    ensures
        path_parts(before + seq!['/'] + behind) == path_parts(before) + path_parts(behind),
        !before.contains('/') ==> path_parts(before) == seq![before],
        path_parts(before).len() > 0,
    decreases behind.len() + before.len(),
{
    parts_are_there(before);
    if !before.contains('/') {
        one_part(before);
    }
    let joined = before + seq!['/'] + behind;
    if behind.len() == 0 {
        assert(joined.drop_last() =~= before);
        assert(joined.last() == '/');
        assert(path_parts(joined) =~= path_parts(before) + path_parts(behind));
    } else {
        let init = behind.drop_last();
        law_path_is_cut_at_slashes(before, init);
        parts_are_there(init);
        assert(joined.drop_last() =~= before + seq!['/'] + init);
        assert(joined.last() == behind.last());
        let left = path_parts(before);
        let right = path_parts(init);
        assert((left + right).last() == right.last());
        assert((left + right).drop_last() =~= left + right.drop_last());
        assert(path_parts(joined) =~= left + path_parts(behind));
    }
}

proof fn parts_are_there(path: Seq<char>)
    ensures
        path_parts(path).len() > 0,
    decreases path.len(),
{
    if path.len() > 0 {
        parts_are_there(path.drop_last());
    }
}

proof fn one_part(path: Seq<char>)
    requires
        !path.contains('/'),
    ensures
        path_parts(path) == seq![path],
    decreases path.len(),
{
    if path.len() == 0 {
        assert(path =~= Seq::empty());
    } else {
        let init = path.drop_last();
        assert(!init.contains('/')) by {
            if init.contains('/') {
                let i = choose|i: int| 0 <= i < init.len() && init[i] == '/';
                assert(path[i] == '/');
            }
        }
        one_part(init);
        assert(path[path.len() - 1] == path.last());
        assert(init.push(path.last()) =~= path);
        assert(path_parts(path) =~= seq![path]);
    }
}

/// A write is kept where its path has 240 bytes at most, no control character, and only parts that
/// are neither empty nor a step in place or upwards, and where its content has 4096 bytes at most.
/// A seal is kept with a key's name of 64 bytes at most, a nonce, and 8192 bytes at most.
pub proof fn law_kept_write_is_bounded(
    path: Seq<char>,
    content: Seq<char>,
    key_id: Seq<char>,
    nonce: Seq<u8>,
    ciphertext: Seq<u8>,
)
    ensures
        capsule_fits(path, content) <==> {
            &&& 0 < path.len()
            &&& encode_utf8(path).len() <= 240
            &&& forall|i: int|
                0 <= i < path.len() ==> !((#[trigger] path[i]) as u32 <= 0x1f || 0x7f
                    <= path[i] as u32 <= 0x9f)
            &&& forall|i: int|
                0 <= i < path_parts(path).len() ==> {
                    let part = #[trigger] path_parts(path)[i];
                    part.len() > 0 && part != seq!['.'] && part != seq!['.', '.']
                }
            &&& encode_utf8(content).len() <= 4096
        },
        seal_fits(key_id, nonce, ciphertext) <==> {
            &&& 0 < key_id.len()
            &&& encode_utf8(key_id).len() <= 64
            &&& forall|i: int|
                0 <= i < key_id.len() ==> ('a' <= #[trigger] key_id[i] <= 'z' || 'A' <= key_id[i]
                    <= 'Z' || '0' <= key_id[i] <= '9' || key_id[i] == '-' || key_id[i] == '_')
            &&& nonce.len() > 0
            &&& 0 < ciphertext.len() <= 8192
        },
{
    if capsule_fits(path, content) {
        assert forall|i: int| 0 <= i < path.len() implies !((#[trigger] path[i]) as u32 <= 0x1f
            || 0x7f <= path[i] as u32 <= 0x9f) by {
            assert(!crate::text::is_control(path[i]));
        }
        assert forall|i: int| 0 <= i < path_parts(path).len() implies ({
            let part = #[trigger] path_parts(path)[i];
            part.len() > 0 && part != seq!['.'] && part != seq!['.', '.']
        }) by {
            assert(names_something(path_parts(path)[i]));
        }
    }
    if seal_fits(key_id, nonce, ciphertext) {
        assert forall|i: int| 0 <= i < key_id.len() implies ('a' <= #[trigger] key_id[i] <= 'z'
            || 'A' <= key_id[i] <= 'Z' || '0' <= key_id[i] <= '9' || key_id[i] == '-' || key_id[i]
            == '_') by {
            assert(crate::durable_approval::is_key_char(key_id[i]));
        }
    }
}

/// A line of a preview is shown without the white space at its ends, where anything is left of it,
/// it has 256 bytes at most and holds no control character; and each refusal says which of these
/// is missing.
pub proof fn law_preview_line_is_shown_trimmed(text: Seq<char>)
    ensures
        ({
            let part = trimmed(text);
            let shown = preview_part(text);
            let small = encode_utf8(part).len() <= 256;
            &&& shown is Ok <==> part.len() > 0 && small && !has_control(part)
            &&& shown matches Ok(line) ==> line == part
            &&& part.len() == 0 ==> shown == Err::<Seq<char>, ApprovalPreviewError>(
                ApprovalPreviewError::Empty,
            )
            &&& part.len() > 0 && !small ==> shown == Err::<Seq<char>, ApprovalPreviewError>(
                ApprovalPreviewError::TooLarge,
            )
            &&& part.len() > 0 && small && has_control(part) ==> shown == Err::<
                Seq<char>,
                ApprovalPreviewError,
            >(ApprovalPreviewError::ControlCharacter)
        }),
{
}

/// What keeps a write from being restored is reported for what it is: a missing key, something that
/// does not fit, a missing tool, a tool that is not contained.
pub proof fn law_restore_fault_is_reported(error: HarnessError, fault: RestoreFault)
    requires
        reports_fault(error, fault),
    ensures
        fault is NoKey <==> error == HarnessError::ActionSeal(ActionSealError::KeyUnavailable),
        fault is Mismatch <==> error == HarnessError::DurableApprovalMismatch,
        fault is NoTool <==> error is ToolNotFound,
        fault is NotContained <==> error is ContainmentUnavailable,
        error matches HarnessError::ToolNotFound { name } ==> name@ == "workspace_write_file"@,
        error matches HarnessError::ContainmentUnavailable { name } ==> name@
            == "workspace_write_file"@,
{
}

/// A write is bound to everything that it was suspended with: its run, its program, its node and
/// attempt, its question, its proposal, its call, its digest, its workspace and the contract of its
/// tool.
pub proof fn law_write_is_bound_to_all_of_it(key: RunKey, plan: WaitPlan, ids: WaitIds)
    ensures
        ({
            let binding = wait_binding(key, plan, ids);
            &&& binding.run_id == key.run_id
            &&& binding.session_id == key.session_id
            &&& binding.program_version == plan.durable.program_version
            &&& binding.graph_digest == plan.durable.graph_digest
            &&& binding.node_id == plan.durable.node_id
            &&& binding.attempt_id == plan.durable.attempt_id
            &&& binding.wait_id == ids.wait_id
            &&& binding.approval_request_id == ids.approval_request_id
            &&& binding.tool_call_id == ids.tool_call_id
            &&& binding.action_proposal_id == plan.action@.proposal_id
            &&& binding.action_digest == plan.action.identity()
            &&& binding.workspace_binding_id == plan.workspace_binding_id
            &&& binding.tool_contract_digest == plan.tool_contract_digest
            &&& binding.requester is None
            &&& binding.capsule_version == 1
        }),
{
}

/// A write that was bound and suspended in a run is what the run then waits for.
pub proof fn law_suspended_write_is_waited_for(
    context: ContextView,
    plan: WaitPlan,
    ids: WaitIds,
)
    requires
        context.recovery_contract == context.durable.recovery_contract,
        in_action_node(context, plan.durable),
        context.durable.pending_effects.len() == 0,
        context.durable.pending_knowledge_retrieval is None,
    ensures
        ({
            let binding = wait_binding(context.key, plan, ids);
            let (suspended, result) = reduce_graph(
                context.durable,
                GraphProgressEvent::GraphSuspended {
                    attempt_id: binding.attempt_id,
                    node_id: binding.node_id,
                    wait_id: binding.wait_id,
                    approval_request_id: binding.approval_request_id,
                    action_proposal_id: binding.action_proposal_id,
                    tool_call_id: binding.tool_call_id,
                    action_digest: binding.action_digest,
                },
            );
            &&& result is Ok
            &&& waits_as_bound(suspended, binding)
        }),
{
}

} // verus!
