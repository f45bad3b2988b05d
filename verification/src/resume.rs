//! Deciding on a suspended write, and carrying the decision out.
//!
//! A denied write is consumed without being looked at. An approved write is opened, held again to
//! everything that it was bound to, and executed once: the store moves the wait on before the
//! tool is called, so that a wait that has begun to execute is never executed again.

use vstd::prelude::*;

use crate::action::{
    action_digest, arguments_fit, validate_argument_limits, ActionView, ValidatedAction,
};
use crate::budget::BudgetDimension;
use crate::context::{ContextView, Observation, RunContext, RunContextError};
use crate::digest::{digest_ext, sha256};
use crate::durable_approval::{
    ActionSealBinding, DurableApprovalDecisionCommand, DurableApprovalRecord,
    DurableApprovalStatus, LocalWriteActionCapsuleV1, LOCAL_WRITE_CAPSULE_VERSION,
};
use crate::error::{
    ActionSealError, AuditPhase, ContainmentPortError, HarnessError, HarnessOperation,
    OperationEffect,
};
use crate::events::{
    AgentEventKind, CapabilityKind, DurableApprovalOutcome, GraphProgressEvent,
};
use crate::governed::{answer_purpose, answer_step};
use crate::ids::{
    ApprovalRequestId, DurableApprovalWaitId, GraphNodeAttemptId, GraphNodeId, ToolCallId, ToolName,
};
use crate::json::{
    given_members, keys_ascend, make_leaf, make_object, member_of, value_json, written_json,
    JsonLeaf, JsonModel,
};
use crate::persistence::{PersistencePortError, RecoveryContract, RunKey};
use crate::policy::{AuthorizationDecision, CapabilityPolicy};
use crate::positions::{DurableGraphPosition, GraphPositionView};
use crate::record::{
    begin_recording, closed_gate, exhaust, exhausted, preflight, recording, AuditMode, Purpose,
    RecordPlan, RecordTurn, Turned,
};
use crate::recovery::{DurableRunState, RunStateView};
use crate::schema::schema_accepts;
use crate::status::{RunOutcome, RunStateError, RunStatus};
use crate::text::text_before;
use crate::tool_call::{
    tool_answered, tool_recorded, tool_replied, tool_settled, ToolReply, ToolStage, ToolStep,
    ToolTurn,
};
use crate::tools::{
    compute_tool_contract_digest, contract_content, tool_named, BindingView, ExecutionKind,
    ToolCall, ToolInput, ToolRegistry,
};
use crate::waits::{
    durable_tool_name, stored_purpose, stored_step, waiting_for, waiting_position, written_file,
    WaitSetup,
};

verus! {

/// Whether a run waits for exactly what a record is bound to.
pub open spec fn waits_for(state: RunStateView, binding: ActionSealBinding) -> bool {
    &&& state.graph matches Some(graph) && graph.position == (GraphPositionView::Waiting {
        attempt_id: binding.attempt_id,
        node_id: binding.node_id@,
        wait_id: binding.wait_id,
        approval_request_id: binding.approval_request_id,
        action_proposal_id: binding.action_proposal_id,
        tool_call_id: binding.tool_call_id,
        action_digest: binding.action_digest,
    })
    &&& state.recovery_contract == (RecoveryContract::Graph {
        program_version: binding.program_version,
        definition_digest: binding.graph_digest@,
    })
}

fn is_waiting_for(state: &DurableRunState, binding: &ActionSealBinding) -> (r: bool)
    ensures
        r == waits_for(state@, *binding),
{
    let contract = RecoveryContract::Graph {
        program_version: binding.program_version,
        definition_digest: binding.graph_digest.digest(),
    };
    if state.recovery_contract() != contract {
        return false;
    }
    match state.graph() {
        None => false,
        Some(graph) => match graph.position() {
            DurableGraphPosition::Waiting {
                attempt_id,
                node_id,
                wait_id,
                approval_request_id,
                action_proposal_id,
                tool_call_id,
                action_digest,
            } => *attempt_id == binding.attempt_id && *node_id == binding.node_id && *wait_id
                == binding.wait_id && *approval_request_id == binding.approval_request_id
                && *action_proposal_id == binding.action_proposal_id && *tool_call_id
                == binding.tool_call_id && *action_digest == binding.action_digest,
            _ => false,
        },
    }
}

/// What stands against opening a suspended write.
#[derive(Clone, Copy, Debug, PartialEq, Eq, Structural)]
pub enum RestoreFault {
    NoKey,
    Mismatch,
    NoTool,
    NotContained,
}

/// Why the policy need not even be asked about opening a suspended write: the workspace, the run's
/// place and the tool with its contract must all be what they were.
pub open spec fn restore_fault(
    binding: ActionSealBinding,
    state: RunStateView,
    setup: WaitSetup,
    tools: Seq<BindingView>,
) -> Option<RestoreFault> {
    if !setup.has_seal {
        Some(RestoreFault::NoKey)
    } else if setup.workspace != Some(binding.workspace_binding_id) || binding.capsule_version
        != LOCAL_WRITE_CAPSULE_VERSION || !waits_for(state, binding) {
        Some(RestoreFault::Mismatch)
    } else {
        match tool_named(tools, durable_tool_name()) {
            None => Some(RestoreFault::NoTool),
            Some(tool) => if tool.definition.capability != CapabilityKind::LocalWrite || sha256(
                contract_content(tool.definition),
            ) != binding.tool_contract_digest@ {
                Some(RestoreFault::Mismatch)
            } else {
                None
            },
        }
    }
}

/// Why a suspended write cannot be opened once the policy is asked, if it cannot: the policy must
/// want it approved, the audit trail be whole, and the tool be contained.
pub open spec fn restore_refusal(
    state: RunStateView,
    tools: Seq<BindingView>,
    decision: AuthorizationDecision,
) -> Option<RestoreFault> {
    if decision != AuthorizationDecision::RequiresApproval || state.audit_degraded {
        Some(RestoreFault::Mismatch)
    } else {
        match tool_named(tools, durable_tool_name()) {
            None => Some(RestoreFault::NoTool),
            Some(tool) => if tool.execution != ExecutionKind::Contained {
                Some(RestoreFault::NotContained)
            } else {
                None
            },
        }
    }
}

fn durable_tool() -> (r: Option<ToolName>)
    ensures
        r matches Some(name) && name@ == durable_tool_name(),
{
    proof {
        reveal_strlit("workspace_write_file");
    }
    match ToolName::new("workspace_write_file".to_owned()) {
        Ok(name) => Some(name),
        Err(_) => None,
    }
}

/// Looks for what stands against opening a suspended write, before the policy is asked.
pub fn check_restorable(
    binding: &ActionSealBinding,
    state: &DurableRunState,
    setup: WaitSetup,
    registry: &ToolRegistry,
) -> (r: Option<RestoreFault>)
    ensures
        r == restore_fault(*binding, state@, setup, registry@),
{
    broadcast use digest_ext;

    if !setup.has_seal {
        return Some(RestoreFault::NoKey);
    }
    let same_workspace = match setup.workspace {
        None => false,
        Some(workspace) => workspace == binding.workspace_binding_id,
    };
    if !same_workspace || binding.capsule_version != LOCAL_WRITE_CAPSULE_VERSION || !is_waiting_for(
        state,
        binding,
    ) {
        return Some(RestoreFault::Mismatch);
    }
    let name = match durable_tool() {
        Some(name) => name,
        None => {
            return Some(RestoreFault::Mismatch);
        },
    };
    let registered = match registry.get(&name) {
        Some(registered) => registered,
        None => {
            return Some(RestoreFault::NoTool);
        },
    };
    let digest = compute_tool_contract_digest(registered.definition());
    if registered.definition().capability() != CapabilityKind::LocalWrite || digest
        != binding.tool_contract_digest {
        return Some(RestoreFault::Mismatch);
    }
    None
}

/// Asks the policy about the write that is to be opened.
pub fn ask_about_write<P: CapabilityPolicy>(policy: &P) -> (r: AuthorizationDecision)
    ensures
        call_ensures(P::authorize, (policy, CapabilityKind::LocalWrite), r),
{
    policy.authorize(CapabilityKind::LocalWrite)
}

/// Looks for what stands against opening a suspended write, once the policy is asked.
pub fn check_allowed(
    state: &DurableRunState,
    registry: &ToolRegistry,
    decision: AuthorizationDecision,
) -> (r: Option<RestoreFault>)
    ensures
        r == restore_refusal(state@, registry@, decision),
{
    if decision != AuthorizationDecision::RequiresApproval || state.audit_degraded() {
        return Some(RestoreFault::Mismatch);
    }
    let name = match durable_tool() {
        Some(name) => name,
        None => {
            return Some(RestoreFault::Mismatch);
        },
    };
    match registry.get(&name) {
        Some(registered) => if registered.execution() != ExecutionKind::Contained {
            Some(RestoreFault::NotContained)
        } else {
            None
        },
        None => Some(RestoreFault::NoTool),
    }
}

/// Whether an error reports a fault.
pub open spec fn reports_fault(error: HarnessError, fault: RestoreFault) -> bool {
    match fault {
        RestoreFault::NoKey => error == HarnessError::ActionSeal(ActionSealError::KeyUnavailable),
        RestoreFault::Mismatch => error == HarnessError::DurableApprovalMismatch,
        RestoreFault::NoTool => error matches HarnessError::ToolNotFound { name } && name@
            == durable_tool_name(),
        RestoreFault::NotContained => error matches HarnessError::ContainmentUnavailable { name }
            && name@ == durable_tool_name(),
    }
}

/// The error that reports a fault.
pub fn report_fault(fault: RestoreFault) -> (r: HarnessError)
    ensures
        reports_fault(r, fault),
{
    let name = match durable_tool() {
        Some(name) => name,
        None => {
            return HarnessError::DurableApprovalMismatch;
        },
    };
    match fault {
        RestoreFault::NoKey => HarnessError::ActionSeal(ActionSealError::KeyUnavailable),
        RestoreFault::Mismatch => HarnessError::DurableApprovalMismatch,
        RestoreFault::NoTool => HarnessError::ToolNotFound { name },
        RestoreFault::NotContained => HarnessError::ContainmentUnavailable { name },
    }
}

/// The arguments that write a file.
pub open spec fn file_json(path: Seq<char>, content: Seq<char>) -> JsonModel {
    JsonModel::Object(
        seq![("content"@, JsonModel::Text(content)), ("relative_path"@, JsonModel::Text(path))],
    )
}

/// The action that arguments amount to, for what a binding names.
pub open spec fn restored_view(binding: ActionSealBinding, arguments: JsonModel) -> ActionView {
    ActionView {
        proposal_id: binding.action_proposal_id,
        tool_name: durable_tool_name(),
        arguments,
        capability: CapabilityKind::LocalWrite,
    }
}

/// Whether arguments that were sealed are still good: within the limits, accepted by the tool's
/// schema, and the very action that was bound.
pub open spec fn restores(binding: ActionSealBinding, schema: JsonModel, arguments: JsonModel)
    -> bool {
    &&& arguments_fit(arguments, written_json(arguments))
    &&& schema_accepts(schema, arguments)
    &&& action_digest(restored_view(binding, arguments)) == binding.action_digest@
}

/// Restores the action from the file that was sealed.
pub fn restore_action(
    binding: &ActionSealBinding,
    capsule: &LocalWriteActionCapsuleV1,
    registry: &ToolRegistry,
) -> (r: Result<ValidatedAction, HarnessError>)
    ensures
        ({
            let arguments = file_json(capsule.path(), capsule.text());
            match tool_named(registry@, durable_tool_name()) {
                None => r matches Err(error) && reports_fault(error, RestoreFault::NoTool),
                Some(tool) => if restores(*binding, tool.definition.schema, arguments) {
                    r matches Ok(action) && action@ == restored_view(*binding, arguments)
                } else {
                    r == Err::<ValidatedAction, HarnessError>(HarnessError::DurableApprovalMismatch)
                },
            }
        }),
{
    broadcast use digest_ext;

    let name = match durable_tool() {
        Some(name) => name,
        None => {
            return Err(HarnessError::DurableApprovalMismatch);
        },
    };
    let registered = match registry.get(&name) {
        Some(registered) => registered,
        None => {
            return Err(HarnessError::ToolNotFound { name });
        },
    };
    let mut members: Vec<(String, serde_json::Value)> = Vec::new();
    members.push(
        ("content".to_owned(), make_leaf(JsonLeaf::Text(capsule.content().to_owned()))),
    );
    members.push(
        (
            "relative_path".to_owned(),
            make_leaf(JsonLeaf::Text(capsule.relative_path().to_owned())),
        ),
    );
    proof {
        reveal_strlit("content");
        reveal_strlit("relative_path");
        let given = given_members(members@);
        assert(given[0].0.len() == 7 && given[0].0[0] == 'c');
        assert(given[1].0.len() == 13 && given[1].0[0] == 'r');
        assert(JsonModel::Object(given) == file_json(capsule.path(), capsule.text())) by {
            assert(given =~= file_json(capsule.path(), capsule.text())->Object_0);
        }
    }
    let arguments = make_object(members);
    let ghost json = value_json(arguments);
    let ghost schema = tool_named(registry@, durable_tool_name())->0.definition.schema;
    if validate_argument_limits(&arguments).is_err() {
        assert(!restores(*binding, schema, json));
        return Err(HarnessError::DurableApprovalMismatch);
    }
    if !registered.accepts(&arguments) {
        assert(!restores(*binding, schema, json));
        return Err(HarnessError::DurableApprovalMismatch);
    }
    let action = ValidatedAction::from_durable_parts(
        binding.action_proposal_id,
        name,
        ToolInput::new(arguments),
        CapabilityKind::LocalWrite,
    );
    if action.digest() != binding.action_digest {
        assert(!restores(*binding, schema, json));
        return Err(HarnessError::DurableApprovalMismatch);
    }
    Ok(action)
}

/// A write that was taken out of an action comes back as that action: what is restored from the
/// file is what was validated, with the arguments, and so the digest, that were approved.
pub proof fn law_sealed_write_is_restored(
    action: ActionView,
    binding: ActionSealBinding,
    schema: JsonModel,
)
    requires
        action.tool_name == durable_tool_name(),
        action.capability == CapabilityKind::LocalWrite,
        action.arguments is Object,
        keys_ascend(action.arguments->Object_0),
        written_file(action.arguments) is Some,
        arguments_fit(action.arguments, written_json(action.arguments)),
        schema_accepts(schema, action.arguments),
        binding.action_proposal_id == action.proposal_id,
        binding.action_digest@ == action_digest(action),
    ensures
        ({
            let (path, content) = written_file(action.arguments)->0;
            &&& restores(binding, schema, file_json(path, content))
            &&& restored_view(binding, file_json(path, content)) == action
        }),
{
    let (path, content) = written_file(action.arguments)->0;
    let members = action.arguments->Object_0;
    reveal_strlit("content");
    reveal_strlit("relative_path");
    reveal_with_fuel(member_of, 3);
    let rest = members.drop_first();
    assert(members.first() == members[0]);
    assert(rest.first() == members[1]);
    assert(rest.drop_first().len() == 0);
    assert("content"@[0] == 'c' && "relative_path"@[0] == 'r');
    assert(text_before(members[0].0, members[1].0));
    assert(members =~= file_json(path, content)->Object_0);
}

/// What a decision must be for: the very question that the run waits on.
pub open spec fn decision_fits(state: RunStateView, command: DurableApprovalDecisionCommand)
    -> bool {
    waiting_for(state, command.wait_id) matches Some(waiting) && waiting.approval_request_id
        == command.approval_request_id && waiting.action_proposal_id == command.action_proposal_id
        && waiting.tool_call_id == command.tool_call_id && waiting.action_digest
        == command.action_digest
}

/// A decision is stored with the wait and a checkpoint; nothing has been invoked.
pub open spec fn decision_purpose() -> Purpose {
    Purpose::Stored {
        plan: RecordPlan {
            operation: HarnessOperation::RequestApproval,
            phase: AuditPhase::AfterInvocation,
            effect: OperationEffect::NotInvoked,
            mode: AuditMode::Configured,
        },
        checkpoint: true,
    }
}

/// What recording a decision begins with.
pub open spec fn decision_begun(context: ContextView, command: DurableApprovalDecisionCommand)
    -> Turned {
    if !decision_fits(context.durable, command) || command.expected_row_version == u64::MAX {
        (context, RecordTurn::Finished(Err(HarnessError::DurableApprovalMismatch)))
    } else {
        recording(
            context,
            AgentEventKind::DurableApprovalDecisionRecorded {
                wait_id: command.wait_id,
                approval_request_id: command.approval_request_id,
                outcome: command.outcome,
                row_version: (command.expected_row_version + 1) as u64,
            },
            decision_purpose(),
            None,
        )
    }
}

/// Begins to record a decision in the context of the waiting run.
pub fn begin_decision(context: &mut RunContext, command: &DurableApprovalDecisionCommand) -> (r:
    RecordTurn)
    ensures
        (final(context)@, r) == decision_begun(old(context)@, *command),
{
    let waiting = match waiting_position(context.durable_state(), command.wait_id) {
        Ok(waiting) => waiting,
        Err(error) => {
            return RecordTurn::Finished(Err(error));
        },
    };
    if waiting.approval_request_id != command.approval_request_id || waiting.action_proposal_id
        != command.action_proposal_id || waiting.tool_call_id != command.tool_call_id
        || waiting.action_digest != command.action_digest || command.expected_row_version
        == u64::MAX {
        return RecordTurn::Finished(Err(HarnessError::DurableApprovalMismatch));
    }
    begin_recording(
        context,
        AgentEventKind::DurableApprovalDecisionRecorded {
            wait_id: command.wait_id,
            approval_request_id: command.approval_request_id,
            outcome: command.outcome,
            row_version: command.expected_row_version + 1,
        },
        Purpose::Stored {
            plan: RecordPlan {
                operation: HarnessOperation::RequestApproval,
                phase: AuditPhase::AfterInvocation,
                effect: OperationEffect::NotInvoked,
                mode: AuditMode::Configured,
            },
            checkpoint: true,
        },
        None,
    )
}

/// The decision with this outcome on whatever the run waits for under this name.
pub fn outcome_command(
    state: &DurableRunState,
    key: RunKey,
    wait_id: DurableApprovalWaitId,
    expected_row_version: u64,
    outcome: DurableApprovalOutcome,
) -> (r: Result<DurableApprovalDecisionCommand, HarnessError>)
    ensures
        match waiting_for(state@, wait_id) {
            None => r == Err::<DurableApprovalDecisionCommand, HarnessError>(
                HarnessError::DurableApprovalMismatch,
            ),
            Some(waiting) => r == Ok::<DurableApprovalDecisionCommand, HarnessError>(
                (DurableApprovalDecisionCommand {
                    key,
                    wait_id,
                    approval_request_id: waiting.approval_request_id,
                    action_proposal_id: waiting.action_proposal_id,
                    tool_call_id: waiting.tool_call_id,
                    action_digest: waiting.action_digest,
                    expected_row_version,
                    outcome,
                    actor: None,
                    decided_at_unix_millis: None,
                }),
            ),
        },
{
    match waiting_position(state, wait_id) {
        Err(error) => Err(error),
        Ok(waiting) => Ok(
            DurableApprovalDecisionCommand {
                key,
                wait_id,
                approval_request_id: waiting.approval_request_id,
                action_proposal_id: waiting.action_proposal_id,
                tool_call_id: waiting.tool_call_id,
                action_digest: waiting.action_digest,
                expected_row_version,
                outcome,
                actor: None,
                decided_at_unix_millis: None,
            },
        ),
    }
}

/// A move of a wait in the store.
#[derive(Clone, Copy, Debug, PartialEq, Eq, Structural)]
pub struct StatusMove {
    pub key: RunKey,
    pub wait_id: DurableApprovalWaitId,
    pub expected_row_version: u64,
    pub expected_status: DurableApprovalStatus,
    pub next_status: DurableApprovalStatus,
}

/// The move of a wait from the row that was loaded, under the key that the record is bound to.
pub open spec fn status_move(
    record: DurableApprovalRecord,
    wait_id: DurableApprovalWaitId,
    expected_status: DurableApprovalStatus,
    next_status: DurableApprovalStatus,
) -> StatusMove {
    StatusMove {
        key: record.binding.bound_key(),
        wait_id,
        expected_row_version: record.row_version,
        expected_status,
        next_status,
    }
}

fn move_of(
    record: &DurableApprovalRecord,
    wait_id: DurableApprovalWaitId,
    expected_status: DurableApprovalStatus,
    next_status: DurableApprovalStatus,
) -> (r: StatusMove)
    ensures
        r == status_move(*record, wait_id, expected_status, next_status),
{
    StatusMove {
        key: record.binding.key(),
        wait_id,
        expected_row_version: record.row_version,
        expected_status,
        next_status,
    }
}

/// What giving up a wait leads to.
pub enum AbortStep {
    /// The cancellation is recorded, and the wait consumed with it.
    Record(RecordTurn, StatusMove),
    Failed(HarnessError),
}

/// What follows the record of a wait that is given up: only one that nobody has decided on is. It
/// is consumed under the key of the run that gives it up.
pub open spec fn abort_begun(
    context: ContextView,
    wait_id: DurableApprovalWaitId,
    expected_row_version: u64,
    record: DurableApprovalRecord,
) -> (ContextView, AbortStep) {
    if waiting_for(context.durable, wait_id) is None || record.status
        != DurableApprovalStatus::Waiting || record.row_version != expected_row_version {
        (context, AbortStep::Failed(HarnessError::DurableApprovalMismatch))
    } else if context.status != RunStatus::Running {
        (
            context,
            AbortStep::Failed(
                HarnessError::Context(RunContextError::InvalidState(RunStateError::NotRunning)),
            ),
        )
    } else {
        let (after, turn) = recording(
            context.finished(RunOutcome::Cancelled),
            AgentEventKind::RunFinished { outcome: RunOutcome::Cancelled },
            stored_purpose(HarnessOperation::CancelRun, true),
            None,
        );
        (
            after,
            AbortStep::Record(
                turn,
                StatusMove {
                    key: context.key,
                    wait_id,
                    expected_row_version,
                    expected_status: DurableApprovalStatus::Waiting,
                    next_status: DurableApprovalStatus::Consumed,
                },
            ),
        )
    }
}

/// Begins to give up a wait, once its record is loaded.
pub fn begin_abort(
    context: &mut RunContext,
    wait_id: DurableApprovalWaitId,
    expected_row_version: u64,
    record: &DurableApprovalRecord,
) -> (r: AbortStep)
    ensures
        (final(context)@, r) == abort_begun(old(context)@, wait_id, expected_row_version, *record),
{
    match waiting_position(context.durable_state(), wait_id) {
        Ok(_) => {},
        Err(error) => {
            return AbortStep::Failed(error);
        },
    }
    if record.status() != DurableApprovalStatus::Waiting || record.row_version()
        != expected_row_version {
        return AbortStep::Failed(HarnessError::DurableApprovalMismatch);
    }
    match context.commit_finished(RunOutcome::Cancelled) {
        Ok(()) => {},
        Err(error) => {
            return AbortStep::Failed(HarnessError::Context(error));
        },
    }
    let turn = begin_recording(
        context,
        AgentEventKind::RunFinished { outcome: RunOutcome::Cancelled },
        stored_step(HarnessOperation::CancelRun, true),
        None,
    );
    AbortStep::Record(
        turn,
        StatusMove {
            key: context.key(),
            wait_id,
            expected_row_version,
            expected_status: DurableApprovalStatus::Waiting,
            next_status: DurableApprovalStatus::Consumed,
        },
    )
}

/// The wait that is carried on.
pub struct ResumePlan {
    /// The key under which the wait is looked for: first that of the run, then the one that its
    /// record is bound to.
    pub key: RunKey,
    pub wait_id: DurableApprovalWaitId,
    pub approval_request_id: ApprovalRequestId,
    pub attempt_id: GraphNodeAttemptId,
    pub node_id: GraphNodeId,
}

impl ResumePlan {
    /// The plan once a record of the wait is loaded.
    pub open spec fn bound_to(self, record: DurableApprovalRecord) -> ResumePlan {
        ResumePlan { key: record.binding.bound_key(), ..self }
    }

    fn follow(self, record: &DurableApprovalRecord) -> (r: Self)
        ensures
            r == self.bound_to(*record),
    {
        ResumePlan {
            key: record.binding.key(),
            wait_id: self.wait_id,
            approval_request_id: self.approval_request_id,
            attempt_id: self.attempt_id,
            node_id: self.node_id,
        }
    }
}

/// Why the record of the wait is loaded.
pub enum LoadStage {
    /// To see what was decided.
    Deciding { plan: ResumePlan },
    /// The denial is recorded; the wait is about to be consumed.
    Denied { plan: ResumePlan },
    /// The write is approved and ready.
    Ready { plan: ResumePlan, action: ValidatedAction },
    /// The run goes on; the write is about to be executed.
    Resumed { plan: ResumePlan, action: ValidatedAction },
    /// The write is executed; the wait is about to be consumed.
    Executed { plan: ResumePlan },
}

impl LoadStage {
    pub open spec fn plan(self) -> ResumePlan {
        match self {
            LoadStage::Deciding { plan } => plan,
            LoadStage::Denied { plan } => plan,
            LoadStage::Ready { plan, .. } => plan,
            LoadStage::Resumed { plan, .. } => plan,
            LoadStage::Executed { plan } => plan,
        }
    }

    /// The key under which the record is to be loaded.
    pub fn key(&self) -> (r: RunKey)
        ensures
            r == self.plan().key,
    {
        match self {
            LoadStage::Deciding { plan } => plan.key,
            LoadStage::Denied { plan } => plan.key,
            LoadStage::Ready { plan, .. } => plan.key,
            LoadStage::Resumed { plan, .. } => plan.key,
            LoadStage::Executed { plan } => plan.key,
        }
    }
}

/// A record whose seal is to be opened.
pub struct Opening {
    pub plan: ResumePlan,
    pub record: DurableApprovalRecord,
}

/// A restored write of which a preview is to be rendered once more.
pub struct Restored {
    pub plan: ResumePlan,
    pub record: DurableApprovalRecord,
    pub action: ValidatedAction,
}

/// Why the wait is moved on without an event.
pub enum MoveStage {
    /// The grant is recorded.
    Readying { plan: ResumePlan, action: ValidatedAction },
    /// The write is executed.
    Consuming { plan: ResumePlan },
}

/// What is being recorded.
pub enum ResumeStage {
    /// The wait may not be carried on; what is being recorded reports why.
    Stopping,
    Denying { plan: ResumePlan },
    /// The run goes on without the write; the store moves the wait with the event.
    Consuming { plan: ResumePlan, store: StatusMove },
    Granting { plan: ResumePlan, readied: StatusMove, action: ValidatedAction },
    /// The run goes on with the write; the store moves the wait with the event.
    Resuming { plan: ResumePlan, store: StatusMove, action: ValidatedAction },
    /// The write is about to be executed; the store moves the wait with the event.
    Starting {
        plan: ResumePlan,
        store: StatusMove,
        action: ValidatedAction,
        tool_call_id: ToolCallId,
    },
    /// The execution of the write.
    Calling { plan: ResumePlan, stage: ToolStage },
}

/// How a wait was carried on.
pub enum ResumeOutcome {
    Denied { attempt_id: GraphNodeAttemptId, node_id: GraphNodeId },
    Executed { attempt_id: GraphNodeAttemptId, node_id: GraphNodeId },
}

pub enum ResumeTurn {
    /// Load the record of the wait.
    Load(LoadStage),
    /// Ask the policy about the write.
    Authorize(Opening),
    /// Open the seal of the record.
    Open(Opening),
    /// Render a preview of the restored write.
    Preview(Restored),
    /// Move the wait on in the store.
    Move(StatusMove, MoveStage),
    Record(RecordTurn, ResumeStage),
    /// Call the tool, contained, within the run's bounds.
    Invoke { plan: ResumePlan, call: ToolCall },
    Finished(Result<ResumeOutcome, HarnessError>),
}

pub type ResumeStep = (ContextView, ResumeTurn);

pub open spec fn resume_failed(context: ContextView, error: HarnessError) -> ResumeStep {
    (context, ResumeTurn::Finished(Err(error)))
}

/// Begins to carry on the wait of a run that was recovered waiting.
pub fn begin_resume(context: &RunContext, wait_id: DurableApprovalWaitId, has_store: bool) -> (r:
    ResumeTurn)
    ensures
        match waiting_for(context@.durable, wait_id) {
            None => r == ResumeTurn::Finished(Err(HarnessError::DurableApprovalMismatch)),
            Some(waiting) => if !has_store {
                r == ResumeTurn::Finished(
                    Err(HarnessError::Persistence(PersistencePortError::Unavailable)),
                )
            } else {
                r matches ResumeTurn::Load(LoadStage::Deciding { plan }) && {
                    &&& plan.key == context@.key
                    &&& plan.wait_id == wait_id
                    &&& plan.approval_request_id == waiting.approval_request_id
                    &&& plan.attempt_id == waiting.attempt_id
                    &&& context@.durable.graph->0.position matches GraphPositionView::Waiting {
                        node_id,
                        ..
                    } && plan.node_id@ == node_id
                }
            },
        },
{
    match context.durable_state().graph() {
        Some(graph) => match graph.position() {
            DurableGraphPosition::Waiting {
                attempt_id,
                node_id,
                wait_id: waiting_id,
                approval_request_id,
                action_proposal_id: _,
                tool_call_id: _,
                action_digest: _,
            } => {
                if *waiting_id != wait_id {
                    return ResumeTurn::Finished(Err(HarnessError::DurableApprovalMismatch));
                }
                if !has_store {
                    return ResumeTurn::Finished(
                        Err(HarnessError::Persistence(PersistencePortError::Unavailable)),
                    );
                }
                ResumeTurn::Load(
                    LoadStage::Deciding {
                        plan: ResumePlan {
                            key: context.key(),
                            wait_id,
                            approval_request_id: *approval_request_id,
                            attempt_id: *attempt_id,
                            node_id: node_id.clone(),
                        },
                    },
                )
            },
            _ => ResumeTurn::Finished(Err(HarnessError::DurableApprovalMismatch)),
        },
        None => ResumeTurn::Finished(Err(HarnessError::DurableApprovalMismatch)),
    }
}

/// The event by which a run goes on after a wait.
pub open spec fn resumed_event(plan: ResumePlan) -> AgentEventKind {
    AgentEventKind::Graph {
        event: GraphProgressEvent::GraphResumed {
            attempt_id: plan.attempt_id,
            node_id: plan.node_id,
            wait_id: plan.wait_id,
        },
    }
}

fn resumed_event_of(plan: &ResumePlan) -> (r: AgentEventKind)
    ensures
        r == resumed_event(*plan),
{
    AgentEventKind::Graph {
        event: GraphProgressEvent::GraphResumed {
            attempt_id: plan.attempt_id,
            node_id: plan.node_id.clone(),
            wait_id: plan.wait_id,
        },
    }
}

/// A write that is approved and ready makes the run go on.
pub open spec fn resuming(
    context: ContextView,
    plan: ResumePlan,
    record: DurableApprovalRecord,
    action: ValidatedAction,
) -> ResumeStep {
    let store = status_move(
        record,
        plan.wait_id,
        DurableApprovalStatus::ApprovedReady,
        DurableApprovalStatus::ApprovedReady,
    );
    let (after, turn) = recording(
        context,
        resumed_event(plan),
        stored_purpose(HarnessOperation::RequestApproval, false),
        None,
    );
    (after, ResumeTurn::Record(turn, ResumeStage::Resuming { plan, store, action }))
}

fn resume_ready(
    context: &mut RunContext,
    plan: ResumePlan,
    record: &DurableApprovalRecord,
    action: ValidatedAction,
) -> (r: ResumeTurn)
    ensures
        (final(context)@, r) == resuming(old(context)@, plan, *record, action),
{
    let store = move_of(
        record,
        plan.wait_id,
        DurableApprovalStatus::ApprovedReady,
        DurableApprovalStatus::ApprovedReady,
    );
    let turn = begin_recording(
        context,
        resumed_event_of(&plan),
        stored_step(HarnessOperation::RequestApproval, false),
        None,
    );
    ResumeTurn::Record(turn, ResumeStage::Resuming { plan, store, action })
}

/// The start of the write is audited without fail, and stored with the wait. There is no checkpoint
/// of a write that is under way.
pub open spec fn start_purpose() -> Purpose {
    Purpose::Stored {
        plan: RecordPlan {
            operation: HarnessOperation::InvokeTool,
            phase: AuditPhase::BeforeInvocation,
            effect: OperationEffect::NotInvoked,
            mode: AuditMode::Required,
        },
        checkpoint: false,
    }
}

/// The write is reserved, and its start recorded as the wait moves on.
pub open spec fn starting(
    context: ContextView,
    seen: Observation,
    plan: ResumePlan,
    record: DurableApprovalRecord,
    action: ValidatedAction,
) -> ResumeStep {
    let tool_call_id = record.binding.tool_call_id;
    match closed_gate(context, HarnessOperation::InvokeTool, seen) {
        Some((after, turn)) => (after, ResumeTurn::Record(turn, ResumeStage::Stopping)),
        None => if context.has_room(BudgetDimension::ToolCalls) {
            let reserved = context.with_usage(context.reserved(BudgetDimension::ToolCalls));
            let store = status_move(
                record,
                plan.wait_id,
                DurableApprovalStatus::ApprovedReady,
                DurableApprovalStatus::Executing,
            );
            let (after, turn) = recording(
                reserved,
                AgentEventKind::ToolInvocationStarted {
                    tool_call_id,
                    tool_name: action.name(),
                    capability: action@.capability,
                    usage: reserved.usage.tool_calls,
                    limit: context.budget.max_tool_calls,
                },
                start_purpose(),
                None,
            );
            (
                after,
                ResumeTurn::Record(
                    turn,
                    ResumeStage::Starting { plan, store, action, tool_call_id },
                ),
            )
        } else {
            let (after, turn) = exhausted(context, BudgetDimension::ToolCalls);
            (after, ResumeTurn::Record(turn, ResumeStage::Stopping))
        },
    }
}

fn start_write(
    context: &mut RunContext,
    seen: Observation,
    plan: ResumePlan,
    record: &DurableApprovalRecord,
    action: ValidatedAction,
) -> (r: ResumeTurn)
    ensures
        (final(context)@, r) == starting(old(context)@, seen, plan, *record, action),
{
    match preflight(context, HarnessOperation::InvokeTool, seen) {
        Some(turn) => {
            return ResumeTurn::Record(turn, ResumeStage::Stopping);
        },
        None => {},
    }
    match context.reserve_tool_call() {
        Err(error) => {
            let turn = exhaust(context, error);
            return ResumeTurn::Record(turn, ResumeStage::Stopping);
        },
        Ok(()) => {},
    }
    let tool_call_id = record.binding.tool_call_id();
    let store = move_of(
        record,
        plan.wait_id,
        DurableApprovalStatus::ApprovedReady,
        DurableApprovalStatus::Executing,
    );
    let kind = AgentEventKind::ToolInvocationStarted {
        tool_call_id,
        tool_name: action.tool_name().clone(),
        capability: action.capability(),
        usage: context.usage().tool_calls,
        limit: context.budget().max_tool_calls,
    };
    let turn = begin_recording(
        context,
        kind,
        Purpose::Stored {
            plan: RecordPlan {
                operation: HarnessOperation::InvokeTool,
                phase: AuditPhase::BeforeInvocation,
                effect: OperationEffect::NotInvoked,
                mode: AuditMode::Required,
            },
            checkpoint: false,
        },
        None,
    );
    ResumeTurn::Record(turn, ResumeStage::Starting { plan, store, action, tool_call_id })
}

/// Whether carrying on goes like this, once the record of the wait is loaded, or could not be.
pub open spec fn continues_loaded(
    before: ContextView,
    seen: Observation,
    grounds: (WaitSetup, Seq<BindingView>),
    stage: LoadStage,
    loaded: Result<DurableApprovalRecord, PersistencePortError>,
    after: ContextView,
    turn: ResumeTurn,
) -> bool {
    match loaded {
        Err(error) => (after, turn) == resume_failed(before, HarnessError::Persistence(error)),
        Ok(record) => match stage {
            LoadStage::Deciding { plan } => match record.status {
                DurableApprovalStatus::DecisionRecordedDeny => {
                    turn matches ResumeTurn::Record(record_turn, next) && next
                        == (ResumeStage::Denying { plan: plan.bound_to(record) }) && (
                    after,
                    record_turn,
                    ) == recording(
                        before,
                        AgentEventKind::DurableApprovalDenied {
                            wait_id: plan.wait_id,
                            approval_request_id: plan.approval_request_id,
                        },
                        answer_purpose(),
                        None,
                    )
                },
                DurableApprovalStatus::DecisionRecordedApprove
                | DurableApprovalStatus::ApprovedReady => after == before && match restore_fault(
                    record.binding,
                    before.durable,
                    grounds.0,
                    grounds.1,
                ) {
                    Some(fault) => turn matches ResumeTurn::Finished(Err(error)) && reports_fault(
                        error,
                        fault,
                    ),
                    None => turn == ResumeTurn::Authorize(
                        Opening { plan: plan.bound_to(record), record },
                    ),
                },
                _ => (after, turn) == resume_failed(before, HarnessError::DurableApprovalMismatch),
            },
            LoadStage::Denied { plan: given } => {
                let plan = given.bound_to(record);
                let store = status_move(
                    record,
                    plan.wait_id,
                    DurableApprovalStatus::DecisionRecordedDeny,
                    DurableApprovalStatus::Consumed,
                );
                turn matches ResumeTurn::Record(record_turn, next) && next
                    == (ResumeStage::Consuming { plan, store }) && (after, record_turn)
                    == recording(
                    before,
                    resumed_event(plan),
                    stored_purpose(HarnessOperation::RequestApproval, false),
                    None,
                )
            },
            LoadStage::Ready { plan, action } => (after, turn) == resuming(
                before,
                plan.bound_to(record),
                record,
                action,
            ),
            LoadStage::Resumed { plan, action } => (after, turn) == starting(
                before,
                seen,
                plan.bound_to(record),
                record,
                action,
            ),
            LoadStage::Executed { plan } => after == before && turn == ResumeTurn::Move(
                status_move(
                    record,
                    plan.wait_id,
                    DurableApprovalStatus::Executing,
                    DurableApprovalStatus::Consumed,
                ),
                MoveStage::Consuming { plan: plan.bound_to(record) },
            ),
        },
    }
}

/// Takes the record of the wait.
pub fn record_loaded(
    context: &mut RunContext,
    seen: Observation,
    setup: WaitSetup,
    registry: &ToolRegistry,
    stage: LoadStage,
    loaded: Result<DurableApprovalRecord, PersistencePortError>,
) -> (r: ResumeTurn)
    ensures
        continues_loaded(
            old(context)@,
            seen,
            (setup, registry@),
            stage,
            loaded,
            final(context)@,
            r,
        ),
{
    let record = match loaded {
        Err(error) => {
            return ResumeTurn::Finished(Err(HarnessError::Persistence(error)));
        },
        Ok(record) => record,
    };
    match stage {
        LoadStage::Deciding { plan } => match record.status() {
            DurableApprovalStatus::DecisionRecordedDeny => {
                let turn = begin_recording(
                    context,
                    AgentEventKind::DurableApprovalDenied {
                        wait_id: plan.wait_id,
                        approval_request_id: plan.approval_request_id,
                    },
                    answer_step(),
                    None,
                );
                ResumeTurn::Record(turn, ResumeStage::Denying { plan: plan.follow(&record) })
            },
            DurableApprovalStatus::DecisionRecordedApprove
            | DurableApprovalStatus::ApprovedReady => {
                match check_restorable(
                    &record.binding,
                    context.durable_state(),
                    setup,
                    registry,
                ) {
                    Some(fault) => ResumeTurn::Finished(Err(report_fault(fault))),
                    None => ResumeTurn::Authorize(
                        Opening { plan: plan.follow(&record), record },
                    ),
                }
            },
            _ => ResumeTurn::Finished(Err(HarnessError::DurableApprovalMismatch)),
        },
        LoadStage::Denied { plan: given } => {
            let plan = given.follow(&record);
            let store = move_of(
                &record,
                plan.wait_id,
                DurableApprovalStatus::DecisionRecordedDeny,
                DurableApprovalStatus::Consumed,
            );
            let turn = begin_recording(
                context,
                resumed_event_of(&plan),
                stored_step(HarnessOperation::RequestApproval, false),
                None,
            );
            ResumeTurn::Record(turn, ResumeStage::Consuming { plan, store })
        },
        LoadStage::Ready { plan, action } => resume_ready(context, plan.follow(&record), &record, action),
        LoadStage::Resumed { plan, action } => start_write(context, seen, plan.follow(&record), &record, action),
        LoadStage::Executed { plan } => {
            let next = move_of(
                &record,
                plan.wait_id,
                DurableApprovalStatus::Executing,
                DurableApprovalStatus::Consumed,
            );
            ResumeTurn::Move(next, MoveStage::Consuming { plan: plan.follow(&record) })
        },
    }
}

/// Takes the policy's answer on the write that is carried on: its seal is opened, or it is not
/// carried on.
pub fn write_authorized(
    context: &RunContext,
    registry: &ToolRegistry,
    opening: Opening,
    decision: AuthorizationDecision,
) -> (r: ResumeTurn)
    ensures
        match restore_refusal(context@.durable, registry@, decision) {
            Some(fault) => r matches ResumeTurn::Finished(Err(error)) && reports_fault(
                error,
                fault,
            ),
            None => r == ResumeTurn::Open(opening),
        },
{
    match check_allowed(context.durable_state(), registry, decision) {
        Some(fault) => ResumeTurn::Finished(Err(report_fault(fault))),
        None => ResumeTurn::Open(opening),
    }
}

/// Takes what was sealed: the action is restored from it, or the wait is not carried on.
pub fn seal_opened(
    registry: &ToolRegistry,
    opening: Opening,
    opened: Result<LocalWriteActionCapsuleV1, ActionSealError>,
) -> (r: ResumeTurn)
    ensures
        match opened {
            Err(error) => r == ResumeTurn::Finished(Err(HarnessError::ActionSeal(error))),
            Ok(capsule) => {
                let binding = opening.record.binding;
                let arguments = file_json(capsule.path(), capsule.text());
                match tool_named(registry@, durable_tool_name()) {
                    None => r matches ResumeTurn::Finished(Err(error)) && reports_fault(
                        error,
                        RestoreFault::NoTool,
                    ),
                    Some(tool) => if restores(binding, tool.definition.schema, arguments) {
                        r matches ResumeTurn::Preview(restored) && {
                            &&& restored.plan == opening.plan
                            &&& restored.record == opening.record
                            &&& restored.action@ == restored_view(binding, arguments)
                        }
                    } else {
                        r == ResumeTurn::Finished(Err(HarnessError::DurableApprovalMismatch))
                    },
                }
            },
        },
{
    let capsule = match opened {
        Err(error) => {
            return ResumeTurn::Finished(Err(HarnessError::ActionSeal(error)));
        },
        Ok(capsule) => capsule,
    };
    match restore_action(&opening.record.binding, &capsule, registry) {
        Err(error) => ResumeTurn::Finished(Err(error)),
        Ok(action) => ResumeTurn::Preview(
            Restored { plan: opening.plan, record: opening.record, action },
        ),
    }
}

/// What follows the preview of a restored write: the grant is recorded, if it was not before.
pub open spec fn restored_previewed(
    context: ContextView,
    restored: Restored,
    preview: Result<(), ContainmentPortError>,
) -> ResumeStep {
    let plan = restored.plan;
    match preview {
        Err(error) => resume_failed(context, HarnessError::ContainmentPort(error)),
        Ok(_) => if restored.record.status == DurableApprovalStatus::DecisionRecordedApprove {
            let readied = status_move(
                restored.record,
                plan.wait_id,
                DurableApprovalStatus::DecisionRecordedApprove,
                DurableApprovalStatus::ApprovedReady,
            );
            let (after, turn) = recording(
                context,
                AgentEventKind::DurableApprovalGranted {
                    wait_id: plan.wait_id,
                    approval_request_id: plan.approval_request_id,
                },
                answer_purpose(),
                None,
            );
            (
                after,
                ResumeTurn::Record(
                    turn,
                    ResumeStage::Granting { plan, readied, action: restored.action },
                ),
            )
        } else {
            resuming(context, plan, restored.record, restored.action)
        },
    }
}

/// Takes the answer to the request for a preview of a restored write.
pub fn restored_preview_rendered(
    context: &mut RunContext,
    restored: Restored,
    preview: Result<(), ContainmentPortError>,
) -> (r: ResumeTurn)
    ensures
        (final(context)@, r) == restored_previewed(old(context)@, restored, preview),
{
    match preview {
        Err(error) => {
            return ResumeTurn::Finished(Err(HarnessError::ContainmentPort(error)));
        },
        Ok(()) => {},
    }
    let plan = restored.plan;
    if restored.record.status() != DurableApprovalStatus::DecisionRecordedApprove {
        return resume_ready(context, plan, &restored.record, restored.action);
    }
    let readied = move_of(
        &restored.record,
        plan.wait_id,
        DurableApprovalStatus::DecisionRecordedApprove,
        DurableApprovalStatus::ApprovedReady,
    );
    let turn = begin_recording(
        context,
        AgentEventKind::DurableApprovalGranted {
            wait_id: plan.wait_id,
            approval_request_id: plan.approval_request_id,
        },
        answer_step(),
        None,
    );
    ResumeTurn::Record(turn, ResumeStage::Granting { plan, readied, action: restored.action })
}

/// What follows a move of the wait. A store that failed is not used again.
pub open spec fn resume_moved(
    context: ContextView,
    stage: MoveStage,
    result: Result<(), PersistencePortError>,
) -> ResumeStep {
    match result {
        Err(error) => resume_failed(
            ContextView { persistence_failed: true, ..context },
            HarnessError::Persistence(error),
        ),
        Ok(_) => match stage {
            MoveStage::Readying { plan, action } => (
                context,
                ResumeTurn::Load(LoadStage::Ready { plan, action }),
            ),
            MoveStage::Consuming { plan } => (
                context,
                ResumeTurn::Finished(
                    Ok(
                        ResumeOutcome::Executed {
                            attempt_id: plan.attempt_id,
                            node_id: plan.node_id,
                        },
                    ),
                ),
            ),
        },
    }
}

/// Takes the answer of the store to a move.
pub fn status_moved(
    context: &mut RunContext,
    stage: MoveStage,
    result: Result<(), PersistencePortError>,
) -> (r: ResumeTurn)
    ensures
        (final(context)@, r) == resume_moved(old(context)@, stage, result),
{
    match result {
        Err(error) => {
            context.mark_persistence_failed();
            return ResumeTurn::Finished(Err(HarnessError::Persistence(error)));
        },
        Ok(()) => {},
    }
    match stage {
        MoveStage::Readying { plan, action } => ResumeTurn::Load(
            LoadStage::Ready { plan, action },
        ),
        MoveStage::Consuming { plan } => ResumeTurn::Finished(
            Ok(
                ResumeOutcome::Executed { attempt_id: plan.attempt_id, node_id: plan.node_id },
            ),
        ),
    }
}

/// Whether this is the call of a validated action.
pub open spec fn is_call_of(
    call: ToolCall,
    action: ValidatedAction,
    tool_call_id: ToolCallId,
) -> bool {
    &&& call.id == tool_call_id
    &&& call.tool_name@ == action@.tool_name
    &&& call.arguments.json() == action@.arguments
}

/// Whether the turn of a tool call, once it has begun, is this turn of the wait: an executed call
/// leads to the wait being consumed.
pub open spec fn carries_call(step: ToolStep, plan: ResumePlan, after: ContextView, turn: ResumeTurn)
    -> bool {
    after == step.0 && match step.1 {
        ToolTurn::Record(record, stage) => turn == ResumeTurn::Record(
            record,
            ResumeStage::Calling { plan, stage },
        ),
        ToolTurn::Invoke { .. } => turn == ResumeTurn::Finished(
            Err(HarnessError::Context(RunContextError::RuntimeUnavailable)),
        ),
        ToolTurn::Finished(Ok(_)) => turn == ResumeTurn::Load(LoadStage::Executed { plan }),
        ToolTurn::Finished(Err(error)) => turn == ResumeTurn::Finished(Err(error)),
    }
}

fn carry_call(turn: ToolTurn, plan: ResumePlan) -> (r: ResumeTurn)
    ensures
        forall|context: ContextView|
            #[trigger] carries_call((context, turn), plan, context, r),
{
    match turn {
        ToolTurn::Record(record, stage) => ResumeTurn::Record(
            record,
            ResumeStage::Calling { plan, stage },
        ),
        ToolTurn::Invoke { .. } => ResumeTurn::Finished(
            Err(HarnessError::Context(RunContextError::RuntimeUnavailable)),
        ),
        ToolTurn::Finished(Ok(())) => ResumeTurn::Load(LoadStage::Executed { plan }),
        ToolTurn::Finished(Err(error)) => ResumeTurn::Finished(Err(error)),
    }
}

/// Whether carrying on goes like this, once an event of it is recorded, or could not be.
pub open spec fn continues_recorded(
    before: ContextView,
    stage: ResumeStage,
    result: Result<(), HarnessError>,
    after: ContextView,
    turn: ResumeTurn,
) -> bool {
    match stage {
        ResumeStage::Calling { plan, stage: tool_stage } => carries_call(
            tool_settled(before, tool_stage, result),
            plan,
            after,
            turn,
        ),
        _ => match result {
            Err(error) => (after, turn) == resume_failed(before, error),
            Ok(_) => match stage {
                ResumeStage::Stopping => (after, turn) == resume_failed(
                    before,
                    HarnessError::Context(RunContextError::RuntimeUnavailable),
                ),
                ResumeStage::Denying { plan } => after == before && turn == ResumeTurn::Load(
                    LoadStage::Denied { plan },
                ),
                ResumeStage::Consuming { plan, store: _ } => after == before && turn
                    == ResumeTurn::Finished(
                    Ok(
                        ResumeOutcome::Denied {
                            attempt_id: plan.attempt_id,
                            node_id: plan.node_id,
                        },
                    ),
                ),
                ResumeStage::Granting { plan, readied, action } => after == before && turn
                    == ResumeTurn::Move(readied, MoveStage::Readying { plan, action }),
                ResumeStage::Resuming { plan, store: _, action } => after == before && turn
                    == ResumeTurn::Load(LoadStage::Resumed { plan, action }),
                ResumeStage::Starting { plan, store: _, action, tool_call_id } => {
                    let step = tool_settled(
                        before,
                        ToolStage::Starting { tool_call_id, mode: AuditMode::Required },
                        Ok(()),
                    );
                    if step.1 is Invoke {
                        &&& after == step.0
                        &&& turn matches ResumeTurn::Invoke { plan: carried, call } && carried
                            == plan && is_call_of(call, action, tool_call_id)
                    } else {
                        carries_call(step, plan, after, turn)
                    }
                },
                ResumeStage::Calling { .. } => true,
            },
        },
    }
}

/// Takes the result of recording.
pub fn resume_recorded(
    context: &mut RunContext,
    stage: ResumeStage,
    result: Result<(), HarnessError>,
) -> (r: ResumeTurn)
    ensures
        continues_recorded(old(context)@, stage, result, final(context)@, r),
{
    let stage = match stage {
        ResumeStage::Calling { plan, stage: tool_stage } => {
            let turn = tool_recorded(context, tool_stage, result);
            return carry_call(turn, plan);
        },
        _ => stage,
    };
    match result {
        Err(error) => {
            return ResumeTurn::Finished(Err(error));
        },
        Ok(()) => {},
    }
    match stage {
        ResumeStage::Denying { plan } => ResumeTurn::Load(LoadStage::Denied { plan }),
        ResumeStage::Consuming { plan, store: _ } => ResumeTurn::Finished(
            Ok(ResumeOutcome::Denied { attempt_id: plan.attempt_id, node_id: plan.node_id }),
        ),
        ResumeStage::Granting { plan, readied, action } => ResumeTurn::Move(
            readied,
            MoveStage::Readying { plan, action },
        ),
        ResumeStage::Resuming { plan, store: _, action } => ResumeTurn::Load(
            LoadStage::Resumed { plan, action },
        ),
        ResumeStage::Starting { plan, store: _, action, tool_call_id } => {
            let turn = tool_recorded(
                context,
                ToolStage::Starting { tool_call_id, mode: AuditMode::Required },
                Ok(()),
            );
            match turn {
                ToolTurn::Invoke { .. } => ResumeTurn::Invoke {
                    plan,
                    call: action.into_tool_call(tool_call_id),
                },
                other => carry_call(other, plan),
            }
        },
        _ => ResumeTurn::Finished(
            Err(HarnessError::Context(RunContextError::RuntimeUnavailable)),
        ),
    }
}

/// Takes the tool's answer.
pub fn write_replied(
    context: &mut RunContext,
    plan: ResumePlan,
    tool_call_id: ToolCallId,
    reply: ToolReply,
) -> (r: ResumeTurn)
    ensures
        carries_call(
            tool_answered(old(context)@, tool_call_id, AuditMode::Required, reply),
            plan,
            final(context)@,
            r,
        ),
{
    let turn = tool_replied(context, tool_call_id, AuditMode::Required, reply);
    carry_call(turn, plan)
}

} // verus!
