//! Suspending a write until someone decides on it.
//!
//! The write is bound to its run, its place in the graph, its tool and its arguments, sealed, and
//! stored; the run then waits. Nothing is written before a decision is recorded.

use vstd::prelude::*;

use crate::action::{action_digest, ValidatedAction};
use crate::budget::BudgetDimension;
use crate::context::{ContextView, Observation, RunContext, RunContextError};
use crate::digest::{sha256, Digest32};
use crate::durable_approval::{
    capsule_fits, ActionSealBinding, DurableActionContext, DurableApprovalRecord,
    DurableApprovalWait, LocalWriteActionCapsuleV1, SealedLocalWriteAction,
    LOCAL_WRITE_CAPSULE_VERSION,
};
use crate::error::{
    ActionSealError, AuditPhase, ContainmentPortError, HarnessError, HarnessOperation,
    OperationEffect,
};
use crate::events::{
    AgentEventKind, CapabilityKind, GraphNodeKind, GraphProgressEvent, GraphRecoveryMode,
};
use crate::ids::{
    ActionProposalId, ApprovalRequestId, DurableApprovalWaitId, GraphNodeAttemptId, ToolCallId,
    WorkspaceBindingId,
};
use crate::json::{json_at, open_value, value_at, value_json, JsonModel, JsonNode};
use crate::model_call::{before_invocation, before_invocation_step};
use crate::persistence::{PersistencePortError, RecoveryContract, RunKey};
use crate::policy::{AuthorizationDecision, CapabilityPolicy};
use crate::positions::{DurableGraphPosition, GraphPositionView};
use crate::record::{
    begin_recording, closed_gate, exhaust, exhausted, preflight, recording, AuditMode, Purpose,
    RecordPlan, RecordTurn, Turned,
};
use crate::recovery::{DurableRunState, RunStateView};
use crate::text::str_equal;
use crate::tools::{
    compute_tool_contract_digest, contract_content, tool_named, BindingView, ExecutionKind,
    ToolRegistry,
};

verus! {

/// The one tool whose writes can be suspended.
pub open spec fn durable_tool_name() -> Seq<char> {
    "workspace_write_file"@
}

/// What stands ready to suspend a write.
#[derive(Clone, Copy, Debug, PartialEq, Eq, Structural)]
pub struct WaitSetup {
    pub has_store: bool,
    pub has_seal: bool,
    pub workspace: Option<WorkspaceBindingId>,
}

/// The file that arguments say to write: its path and its content, and nothing else.
pub open spec fn written_file(arguments: JsonModel) -> Option<(Seq<char>, Seq<char>)> {
    match arguments {
        JsonModel::Object(members) => if members.len() == 2 {
            match (json_at(arguments, "relative_path"@), json_at(arguments, "content"@)) {
                (Some(JsonModel::Text(path)), Some(JsonModel::Text(content))) => Some(
                    (path, content),
                ),
                _ => None,
            }
        } else {
            None
        },
        _ => None,
    }
}

fn text_at(value: &serde_json::Value, key: &str) -> (r: Option<String>)
    ensures
        match r {
            Some(text) => json_at(value_json(*value), key@) == Some(JsonModel::Text(text@)),
            None => !(json_at(value_json(*value), key@) matches Some(JsonModel::Text(_))),
        },
{
    match value_at(value, key) {
        Some(inner) => match open_value(inner) {
            JsonNode::Text(text) => Some(text.clone()),
            _ => None,
        },
        None => None,
    }
}

/// Takes the file to write out of arguments.
pub fn local_write_capsule(value: &serde_json::Value) -> (r: Result<
    LocalWriteActionCapsuleV1,
    HarnessError,
>)
    ensures
        match written_file(value_json(*value)) {
            None => r == Err::<LocalWriteActionCapsuleV1, HarnessError>(
                HarnessError::DurableApprovalMismatch,
            ),
            Some((path, content)) => if capsule_fits(path, content) {
                r matches Ok(capsule) && capsule.path() == path && capsule.text() == content
            } else {
                r == Err::<LocalWriteActionCapsuleV1, HarnessError>(
                    HarnessError::ActionSeal(ActionSealError::InvalidCapsule),
                )
            },
        },
{
    let pair = match open_value(value) {
        JsonNode::Object(members) => members.len() == 2,
        _ => false,
    };
    if !pair {
        return Err(HarnessError::DurableApprovalMismatch);
    }
    let path = match text_at(value, "relative_path") {
        Some(path) => path,
        None => {
            return Err(HarnessError::DurableApprovalMismatch);
        },
    };
    let content = match text_at(value, "content") {
        Some(content) => content,
        None => {
            return Err(HarnessError::DurableApprovalMismatch);
        },
    };
    match LocalWriteActionCapsuleV1::new(path, content) {
        Ok(capsule) => Ok(capsule),
        Err(error) => Err(HarnessError::ActionSeal(error)),
    }
}

/// What a wait is bound to in a run's position.
#[derive(Clone, Copy, Debug)]
pub struct WaitingBinding {
    pub attempt_id: GraphNodeAttemptId,
    pub approval_request_id: ApprovalRequestId,
    pub action_proposal_id: ActionProposalId,
    pub tool_call_id: ToolCallId,
    pub action_digest: Digest32,
}

/// What the run waits for, if it waits for this.
pub open spec fn waiting_for(state: RunStateView, expected: DurableApprovalWaitId) -> Option<
    WaitingBinding,
> {
    match state.graph {
        Some(graph) => match graph.position {
            GraphPositionView::Waiting {
                attempt_id,
                node_id: _,
                wait_id,
                approval_request_id,
                action_proposal_id,
                tool_call_id,
                action_digest,
            } => if wait_id == expected {
                Some(
                    WaitingBinding {
                        attempt_id,
                        approval_request_id,
                        action_proposal_id,
                        tool_call_id,
                        action_digest,
                    },
                )
            } else {
                None
            },
            _ => None,
        },
        None => None,
    }
}

/// What a run waits for, if it waits for this.
pub fn waiting_position(state: &DurableRunState, expected_wait_id: DurableApprovalWaitId) -> (r:
    Result<WaitingBinding, HarnessError>)
    ensures
        r == (match waiting_for(state@, expected_wait_id) {
            Some(binding) => Ok(binding),
            None => Err::<WaitingBinding, HarnessError>(HarnessError::DurableApprovalMismatch),
        }),
{
    match state.graph() {
        Some(graph) => match graph.position() {
            DurableGraphPosition::Waiting {
                attempt_id,
                node_id: _,
                wait_id,
                approval_request_id,
                action_proposal_id,
                tool_call_id,
                action_digest,
            } => {
                if *wait_id == expected_wait_id {
                    Ok(
                        WaitingBinding {
                            attempt_id: *attempt_id,
                            approval_request_id: *approval_request_id,
                            action_proposal_id: *action_proposal_id,
                            tool_call_id: *tool_call_id,
                            action_digest: *action_digest,
                        },
                    )
                } else {
                    Err(HarnessError::DurableApprovalMismatch)
                }
            },
            _ => Err(HarnessError::DurableApprovalMismatch),
        },
        None => Err(HarnessError::DurableApprovalMismatch),
    }
}

/// Whether a run stands in an action node of this graph program, at this attempt.
pub open spec fn stands_at(context: ContextView, durable: DurableActionContext) -> bool {
    &&& context.recovery_contract == (RecoveryContract::Graph {
        program_version: durable.program_version,
        definition_digest: durable.graph_digest@,
    })
    &&& context.durable.graph matches Some(graph) && graph.position == (
    GraphPositionView::Running {
        attempt_id: durable.attempt_id,
        node_id: durable.node_id@,
        node_kind: GraphNodeKind::Action,
        recovery: GraphRecoveryMode::Never,
    })
}

fn is_standing_at(context: &RunContext, durable: &DurableActionContext) -> (r: bool)
    ensures
        r == stands_at(context@, *durable),
{
    let contract = RecoveryContract::Graph {
        program_version: durable.program_version,
        definition_digest: durable.graph_digest.digest(),
    };
    if context.recovery_contract() != contract {
        return false;
    }
    match context.durable_state().graph() {
        None => false,
        Some(graph) => match graph.position() {
            DurableGraphPosition::Running { attempt_id, node_id, node_kind, recovery } => {
                *attempt_id == durable.attempt_id && *node_id == durable.node_id && *node_kind
                    == GraphNodeKind::Action && *recovery == GraphRecoveryMode::Never
            },
            _ => false,
        },
    }
}

/// Why the policy need not even be asked about suspending a write: the store, the seal, the
/// workspace, the run's place and the tool must all be as a suspended write needs them.
pub open spec fn suspension_fault(
    context: ContextView,
    setup: WaitSetup,
    action: ValidatedAction,
    durable: DurableActionContext,
) -> Option<HarnessError> {
    if !setup.has_store {
        Some(HarnessError::Persistence(PersistencePortError::Unavailable))
    } else if !setup.has_seal {
        Some(HarnessError::ActionSeal(ActionSealError::KeyUnavailable))
    } else if setup.workspace is None || !stands_at(context, durable) || action@.tool_name
        != durable_tool_name() || action@.capability != CapabilityKind::LocalWrite {
        Some(HarnessError::DurableApprovalMismatch)
    } else {
        None
    }
}

/// Why a write cannot be suspended once the policy is asked, if it cannot.
pub open spec fn suspension_refusal(
    context: ContextView,
    tools: Seq<BindingView>,
    action: ValidatedAction,
    decision: AuthorizationDecision,
) -> Option<HarnessError> {
    if decision != AuthorizationDecision::RequiresApproval {
        Some(HarnessError::DurableApprovalMismatch)
    } else {
        match tool_named(tools, action@.tool_name) {
            None => Some(HarnessError::ToolNotFound { name: action.name() }),
            Some(tool) => if tool.execution != ExecutionKind::Contained {
                Some(HarnessError::ContainmentUnavailable { name: action.name() })
            } else if context.audit_degraded {
                Some(HarnessError::AuditDegraded)
            } else {
                None
            },
        }
    }
}

/// A write that the policy is to be asked about.
pub struct WaitRequest {
    pub action: ValidatedAction,
    pub durable: DurableActionContext,
    pub workspace_binding_id: WorkspaceBindingId,
}

impl WaitRequest {
    /// Asks the policy about the capability of the action.
    pub fn ask<P: CapabilityPolicy>(&self, policy: &P) -> (r: AuthorizationDecision)
        ensures
            call_ensures(P::authorize, (policy, self.action@.capability), r),
    {
        policy.authorize(self.action.capability())
    }
}

/// A write that can be suspended.
pub struct WaitPlan {
    pub action: ValidatedAction,
    pub durable: DurableActionContext,
    pub workspace_binding_id: WorkspaceBindingId,
    pub tool_contract_digest: Digest32,
}

/// The new names that a wait takes.
#[derive(Clone, Copy, Debug, PartialEq, Eq, Structural)]
pub struct WaitIds {
    pub tool_call_id: ToolCallId,
    pub approval_request_id: ApprovalRequestId,
    pub wait_id: DurableApprovalWaitId,
}

pub enum SuspensionStage {
    /// The write may not be suspended; what is being recorded reports why.
    Stopping,
    /// The binding of the action to its tool call is being recorded.
    Binding { binding: ActionSealBinding, capsule: LocalWriteActionCapsuleV1 },
    /// The question is being recorded.
    Preparing { binding: ActionSealBinding, capsule: LocalWriteActionCapsuleV1 },
    /// The wait is being stored, and the suspension recorded with it.
    Suspending { record: DurableApprovalRecord },
}

pub enum SuspensionTurn {
    Record(RecordTurn, SuspensionStage),
    /// Ask the policy.
    Authorize(WaitRequest),
    /// Render a preview of the action for the approver.
    Preview(WaitPlan),
    /// Seal the write.
    Seal { binding: ActionSealBinding, capsule: LocalWriteActionCapsuleV1 },
    Finished(Result<DurableApprovalWait, HarnessError>),
}

pub type SuspensionStep = (ContextView, SuspensionTurn);

pub open spec fn suspension_stopping(turned: Turned) -> SuspensionStep {
    (turned.0, SuspensionTurn::Record(turned.1, SuspensionStage::Stopping))
}

pub open spec fn suspension_failed(context: ContextView, error: HarnessError) -> SuspensionStep {
    (context, SuspensionTurn::Finished(Err(error)))
}

/// Begins to suspend a write.
pub fn begin_suspension(
    context: &mut RunContext,
    seen: Observation,
    setup: WaitSetup,
    action: ValidatedAction,
    durable: DurableActionContext,
) -> (r: SuspensionTurn)
    ensures
        match closed_gate(old(context)@, HarnessOperation::RequestApproval, seen) {
            Some(turned) => (final(context)@, r) == suspension_stopping(turned),
            None => final(context)@ == old(context)@ && match suspension_fault(
                old(context)@,
                setup,
                action,
                durable,
            ) {
                Some(error) => r == SuspensionTurn::Finished(Err(error)),
                None => r matches SuspensionTurn::Authorize(request) && request.action == action
                    && request.durable == durable && Some(request.workspace_binding_id)
                    == setup.workspace,
            },
        },
{
    match preflight(context, HarnessOperation::RequestApproval, seen) {
        Some(turn) => {
            return SuspensionTurn::Record(turn, SuspensionStage::Stopping);
        },
        None => {},
    }
    if !setup.has_store {
        return SuspensionTurn::Finished(
            Err(HarnessError::Persistence(PersistencePortError::Unavailable)),
        );
    }
    if !setup.has_seal {
        return SuspensionTurn::Finished(
            Err(HarnessError::ActionSeal(ActionSealError::KeyUnavailable)),
        );
    }
    let workspace_binding_id = match setup.workspace {
        Some(workspace_binding_id) => workspace_binding_id,
        None => {
            return SuspensionTurn::Finished(Err(HarnessError::DurableApprovalMismatch));
        },
    };
    if !is_standing_at(context, &durable) {
        return SuspensionTurn::Finished(Err(HarnessError::DurableApprovalMismatch));
    }
    if !str_equal(action.tool_name().as_str(), "workspace_write_file") || action.capability()
        != CapabilityKind::LocalWrite {
        return SuspensionTurn::Finished(Err(HarnessError::DurableApprovalMismatch));
    }
    SuspensionTurn::Authorize(WaitRequest { action, durable, workspace_binding_id })
}

/// Takes the policy's answer on a write that is to be suspended.
pub fn suspension_authorized(
    context: &RunContext,
    registry: &ToolRegistry,
    request: WaitRequest,
    decision: AuthorizationDecision,
) -> (r: SuspensionTurn)
    ensures
        match suspension_refusal(context@, registry@, request.action, decision) {
            Some(error) => r == SuspensionTurn::Finished(Err(error)),
            None => r matches SuspensionTurn::Preview(plan) && plan.action == request.action
                && plan.durable == request.durable && plan.workspace_binding_id
                == request.workspace_binding_id && plan.tool_contract_digest@ == sha256(
                contract_content(tool_named(registry@, request.action@.tool_name)->0.definition),
            ),
        },
{
    if decision != AuthorizationDecision::RequiresApproval {
        return SuspensionTurn::Finished(Err(HarnessError::DurableApprovalMismatch));
    }
    let name = request.action.tool_name().clone();
    let binding = match registry.get(&name) {
        Some(binding) => binding,
        None => {
            return SuspensionTurn::Finished(Err(HarnessError::ToolNotFound { name }));
        },
    };
    if binding.execution() != ExecutionKind::Contained {
        return SuspensionTurn::Finished(Err(HarnessError::ContainmentUnavailable { name }));
    }
    if context.audit_degraded() {
        return SuspensionTurn::Finished(Err(HarnessError::AuditDegraded));
    }
    let tool_contract_digest = compute_tool_contract_digest(binding.definition());
    SuspensionTurn::Preview(
        WaitPlan {
            action: request.action,
            durable: request.durable,
            workspace_binding_id: request.workspace_binding_id,
            tool_contract_digest,
        },
    )
}

/// Everything that the write of a plan is bound to.
pub open spec fn wait_binding(key: RunKey, plan: WaitPlan, ids: WaitIds) -> ActionSealBinding {
    ActionSealBinding {
        run_id: key.run_id,
        session_id: key.session_id,
        program_version: plan.durable.program_version,
        graph_digest: plan.durable.graph_digest,
        node_id: plan.durable.node_id,
        attempt_id: plan.durable.attempt_id,
        wait_id: ids.wait_id,
        approval_request_id: ids.approval_request_id,
        action_proposal_id: plan.action@.proposal_id,
        tool_call_id: ids.tool_call_id,
        action_digest: plan.action.identity(),
        workspace_binding_id: plan.workspace_binding_id,
        tool_contract_digest: plan.tool_contract_digest,
        requester: None,
        capsule_version: LOCAL_WRITE_CAPSULE_VERSION,
    }
}

/// Takes the answer to the request for a preview: the file to write is taken out of the
/// arguments, and the binding of the action to its tool call recorded.
pub fn wait_previewed(
    context: &mut RunContext,
    plan: WaitPlan,
    ids: WaitIds,
    preview: Result<(), ContainmentPortError>,
) -> (r: SuspensionTurn)
    ensures
        match preview {
            Err(error) => (final(context)@, r) == suspension_failed(
                old(context)@,
                HarnessError::ContainmentPort(error),
            ),
            Ok(_) => match written_file(plan.action@.arguments) {
                None => (final(context)@, r) == suspension_failed(
                    old(context)@,
                    HarnessError::DurableApprovalMismatch,
                ),
                Some((path, content)) => if !capsule_fits(path, content) {
                    (final(context)@, r) == suspension_failed(
                        old(context)@,
                        HarnessError::ActionSeal(ActionSealError::InvalidCapsule),
                    )
                } else {
                    r matches SuspensionTurn::Record(
                        turn,
                        SuspensionStage::Binding { binding, capsule },
                    ) && {
                        &&& binding == wait_binding(old(context)@.key, plan, ids)
                        &&& capsule.path() == path && capsule.text() == content
                        &&& (final(context)@, turn) == recording(
                            old(context)@,
                            AgentEventKind::ActionExecutionBound {
                                action_proposal_id: plan.action@.proposal_id,
                                tool_call_id: ids.tool_call_id,
                            },
                            before_invocation(
                                HarnessOperation::InvokeValidatedAction,
                                AuditMode::Required,
                            ),
                            None,
                        )
                    }
                },
            },
        },
{
    match preview {
        Err(error) => {
            return SuspensionTurn::Finished(Err(HarnessError::ContainmentPort(error)));
        },
        Ok(()) => {},
    }
    let capsule = match local_write_capsule(plan.action.arguments().as_value()) {
        Ok(capsule) => capsule,
        Err(error) => {
            return SuspensionTurn::Finished(Err(error));
        },
    };
    let action_proposal_id = plan.action.proposal_id();
    let binding = ActionSealBinding::new(
        context.key(),
        plan.durable.program_version,
        plan.durable.graph_digest,
        plan.durable.node_id,
        plan.durable.attempt_id,
        ids.wait_id,
        ids.approval_request_id,
        action_proposal_id,
        ids.tool_call_id,
        plan.action.digest(),
        plan.workspace_binding_id,
        plan.tool_contract_digest,
    );
    let turn = begin_recording(
        context,
        AgentEventKind::ActionExecutionBound {
            action_proposal_id,
            tool_call_id: ids.tool_call_id,
        },
        before_invocation_step(HarnessOperation::InvokeValidatedAction, AuditMode::Required),
        None,
    );
    SuspensionTurn::Record(turn, SuspensionStage::Binding { binding, capsule })
}

/// The question that is put durably.
pub open spec fn prepared(context: ContextView, binding: ActionSealBinding) -> AgentEventKind {
    AgentEventKind::DurableApprovalPrepared {
        wait_id: binding.wait_id,
        approval_request_id: binding.approval_request_id,
        action_proposal_id: binding.action_proposal_id,
        tool_call_id: binding.tool_call_id,
        action_digest: binding.action_digest,
        workspace_binding_id: binding.workspace_binding_id,
        tool_contract_digest: binding.tool_contract_digest,
        usage: context.usage.approval_requests,
        limit: context.budget.max_approval_requests,
    }
}

/// What follows once an event of the suspension is recorded, or could not be.
pub open spec fn suspension_settled(
    context: ContextView,
    stage: SuspensionStage,
    result: Result<(), HarnessError>,
) -> SuspensionStep {
    match result {
        Err(error) => suspension_failed(context, error),
        Ok(_) => match stage {
            SuspensionStage::Stopping => suspension_failed(
                context,
                HarnessError::Context(RunContextError::RuntimeUnavailable),
            ),
            SuspensionStage::Binding { binding, capsule } => if context.has_room(
                BudgetDimension::ApprovalRequests,
            ) {
                let reserved = context.with_usage(
                    context.reserved(BudgetDimension::ApprovalRequests),
                );
                let (after, turn) = recording(
                    reserved,
                    prepared(reserved, binding),
                    before_invocation(HarnessOperation::RequestApproval, AuditMode::Required),
                    None,
                );
                (
                    after,
                    SuspensionTurn::Record(
                        turn,
                        SuspensionStage::Preparing { binding, capsule },
                    ),
                )
            } else {
                suspension_stopping(exhausted(context, BudgetDimension::ApprovalRequests))
            },
            SuspensionStage::Preparing { binding, capsule } => (
                context,
                SuspensionTurn::Seal { binding, capsule },
            ),
            SuspensionStage::Suspending { record } => (
                context,
                SuspensionTurn::Finished(Ok(DurableApprovalWait::bound(record.binding))),
            ),
        },
    }
}

/// Takes the result of recording.
pub fn suspension_recorded(
    context: &mut RunContext,
    stage: SuspensionStage,
    result: Result<(), HarnessError>,
) -> (r: SuspensionTurn)
    ensures
        (final(context)@, r) == suspension_settled(old(context)@, stage, result),
{
    match result {
        Err(error) => {
            return SuspensionTurn::Finished(Err(error));
        },
        Ok(()) => {},
    }
    match stage {
        SuspensionStage::Stopping => SuspensionTurn::Finished(
            Err(HarnessError::Context(RunContextError::RuntimeUnavailable)),
        ),
        SuspensionStage::Binding { binding, capsule } => {
            match context.reserve_approval_request() {
                Err(error) => {
                    let turn = exhaust(context, error);
                    return SuspensionTurn::Record(turn, SuspensionStage::Stopping);
                },
                Ok(()) => {},
            }
            let kind = AgentEventKind::DurableApprovalPrepared {
                wait_id: binding.wait_id,
                approval_request_id: binding.approval_request_id,
                action_proposal_id: binding.action_proposal_id,
                tool_call_id: binding.tool_call_id,
                action_digest: binding.action_digest,
                workspace_binding_id: binding.workspace_binding_id,
                tool_contract_digest: binding.tool_contract_digest,
                usage: context.usage().approval_requests,
                limit: context.budget().max_approval_requests,
            };
            let turn = begin_recording(
                context,
                kind,
                before_invocation_step(HarnessOperation::RequestApproval, AuditMode::Required),
                None,
            );
            SuspensionTurn::Record(turn, SuspensionStage::Preparing { binding, capsule })
        },
        SuspensionStage::Preparing { binding, capsule } => SuspensionTurn::Seal {
            binding,
            capsule,
        },
        SuspensionStage::Suspending { record } => SuspensionTurn::Finished(
            Ok(DurableApprovalWait::new(&record.binding)),
        ),
    }
}

/// A change of state that is stored with the wait.
pub open spec fn stored_purpose(operation: HarnessOperation, checkpoint: bool) -> Purpose {
    Purpose::Stored {
        plan: RecordPlan {
            operation,
            phase: AuditPhase::Lifecycle,
            effect: OperationEffect::StateCommitted,
            mode: AuditMode::Configured,
        },
        checkpoint,
    }
}

pub fn stored_step(operation: HarnessOperation, checkpoint: bool) -> (r: Purpose)
    ensures
        r == stored_purpose(operation, checkpoint),
{
    Purpose::Stored {
        plan: RecordPlan {
            operation,
            phase: AuditPhase::Lifecycle,
            effect: OperationEffect::StateCommitted,
            mode: AuditMode::Configured,
        },
        checkpoint,
    }
}

/// What follows the sealing.
pub open spec fn suspension_sealed(
    context: ContextView,
    binding: ActionSealBinding,
    sealed: Result<SealedLocalWriteAction, ActionSealError>,
    record: DurableApprovalRecord,
) -> SuspensionStep {
    match sealed {
        Err(error) => suspension_failed(context, HarnessError::ActionSeal(error)),
        Ok(_) => {
            let (after, turn) = recording(
                context,
                AgentEventKind::Graph {
                    event: GraphProgressEvent::GraphSuspended {
                        attempt_id: binding.attempt_id,
                        node_id: binding.node_id,
                        wait_id: binding.wait_id,
                        approval_request_id: binding.approval_request_id,
                        action_proposal_id: binding.action_proposal_id,
                        tool_call_id: binding.tool_call_id,
                        action_digest: binding.action_digest,
                    },
                },
                stored_purpose(HarnessOperation::RequestApproval, true),
                None,
            );
            (after, SuspensionTurn::Record(turn, SuspensionStage::Suspending { record }))
        },
    }
}

/// The record of a new wait.
pub open spec fn new_record(binding: ActionSealBinding, sealed_action: SealedLocalWriteAction)
    -> DurableApprovalRecord {
    DurableApprovalRecord {
        binding,
        sealed_action,
        status: crate::durable_approval::DurableApprovalStatus::Waiting,
        row_version: 0,
        decision_actor: None,
        decision_timestamp_unix_millis: None,
    }
}

/// Takes the sealed write. The record in the stage is what the store is to keep, together with
/// the event that is recorded.
pub fn wait_sealed(
    context: &mut RunContext,
    binding: ActionSealBinding,
    sealed: Result<SealedLocalWriteAction, ActionSealError>,
) -> (r: SuspensionTurn)
    ensures
        (final(context)@, r) == suspension_sealed(
            old(context)@,
            binding,
            sealed,
            new_record(binding, sealed->Ok_0),
        ),
{
    let sealed_action = match sealed {
        Ok(sealed_action) => sealed_action,
        Err(error) => {
            return SuspensionTurn::Finished(Err(HarnessError::ActionSeal(error)));
        },
    };
    let turn = begin_recording(
        context,
        AgentEventKind::Graph {
            event: GraphProgressEvent::GraphSuspended {
                attempt_id: binding.attempt_id,
                node_id: binding.node_id.clone(),
                wait_id: binding.wait_id,
                approval_request_id: binding.approval_request_id,
                action_proposal_id: binding.action_proposal_id,
                tool_call_id: binding.tool_call_id,
                action_digest: binding.action_digest,
            },
        },
        stored_step(HarnessOperation::RequestApproval, true),
        None,
    );
    let record = DurableApprovalRecord::new(binding, sealed_action);
    SuspensionTurn::Record(turn, SuspensionStage::Suspending { record })
}

} // verus!
