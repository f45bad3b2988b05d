//! Executing tools under policy, approval and containment.
//!
//! A read-only tool runs where the policy allows it. A tool that writes to the workspace runs
//! only contained, and only once an approver has granted exactly this action. Nothing else runs.

use vstd::prelude::*;

use crate::action::ValidatedAction;
use crate::approval::{ApprovalDecision, ApprovalOutcome};
use crate::budget::BudgetDimension;
use crate::context::{ContextView, Observation, RunContext, RunContextError};
use crate::digest::Digest32;
use crate::error::{
    ApprovalPortError, AuditPhase, ContainmentPortError, HarnessError, HarnessOperation,
    OperationEffect, PolicyDenial, PolicyDenialReason, ToolPortError,
};
use crate::events::{
    AgentEventKind, ApprovalFailureKind, CapabilityKind, ContainmentFailureKind,
};
use crate::ids::{ActionProposalId, ApprovalRequestId, ToolCallId, ToolName};
use crate::model_call::{before_invocation, before_invocation_step};
use crate::policy::{AuthorizationDecision, CapabilityPolicy};
use crate::record::{
    begin_recording, closed_gate, exhaust, exhausted, preflight, recording, terminalize_safety,
    terminalized, AuditMode, Purpose, RecordPlan, RecordTurn, Turned,
};
use crate::tool_call::{
    begin_tool_call, tool_answered, tool_begun, tool_recorded, tool_replied, tool_settled,
    Interruption, ToolReply, ToolStage, ToolStep, ToolTurn,
};
use crate::tools::{tool_named, ExecutionKind, ToolRegistry};

verus! {

/// A validated action about to be executed.
#[derive(Debug)]
pub struct GovernedCall {
    pub action_proposal_id: ActionProposalId,
    pub tool_call_id: ToolCallId,
    pub tool_name: ToolName,
    pub capability: CapabilityKind,
    pub action_digest: Digest32,
}

/// What the registry says of the tool that a call names.
#[derive(Clone, Copy, Debug, PartialEq, Eq, Structural)]
pub struct Grounds {
    pub capability: CapabilityKind,
    pub execution: ExecutionKind,
}

/// The call that executes a validated action.
pub fn governed_call(action: &ValidatedAction, tool_call_id: ToolCallId) -> (r: GovernedCall)
    ensures
        r == (GovernedCall {
            action_proposal_id: action@.proposal_id,
            tool_call_id,
            tool_name: action.name(),
            capability: action@.capability,
            action_digest: action.identity(),
        }),
{
    GovernedCall {
        action_proposal_id: action.proposal_id(),
        tool_call_id,
        tool_name: action.tool_name().clone(),
        capability: action.capability(),
        action_digest: action.digest(),
    }
}

/// Looks a tool up.
pub fn ground(registry: &ToolRegistry, name: &ToolName) -> (r: Option<Grounds>)
    ensures
        r == (match tool_named(registry@, name@) {
            Some(tool) => Some(
                Grounds { capability: tool.definition.capability, execution: tool.execution },
            ),
            None => None,
        }),
{
    match registry.get(name) {
        Some(binding) => Some(
            Grounds {
                capability: binding.definition().capability(),
                execution: binding.execution(),
            },
        ),
        None => None,
    }
}

/// A call that the policy is to be asked about.
#[derive(Debug)]
pub enum Authorization {
    /// A validated action, once its binding to the tool call is recorded.
    Action { call: GovernedCall, execution: ExecutionKind },
    /// A call that no validated action stands behind.
    Plain {
        tool_call_id: ToolCallId,
        tool_name: ToolName,
        capability: CapabilityKind,
        execution: ExecutionKind,
    },
}

impl Authorization {
    pub open spec fn subject(self) -> CapabilityKind {
        match self {
            Authorization::Action { call, .. } => call.capability,
            Authorization::Plain { capability, .. } => capability,
        }
    }

    /// Asks the policy, about nothing but the capability.
    pub fn ask<P: CapabilityPolicy>(&self, policy: &P) -> (r: AuthorizationDecision)
        ensures
            call_ensures(P::authorize, (policy, self.subject()), r),
    {
        match self {
            Authorization::Action { call, .. } => policy.authorize(call.capability),
            Authorization::Plain { capability, .. } => policy.authorize(*capability),
        }
    }
}

/// What is to become of a call.
#[derive(Clone, Copy, Debug, PartialEq, Eq, Structural)]
pub enum Dispatch {
    /// The tool runs.
    Run,
    /// An approver is asked, then the tool runs contained.
    Approve,
    /// The policy stands against it.
    DeniedByPolicy(PolicyDenial),
    /// The policy would allow a write without asking anyone, which is not enough.
    NeedsApproval,
    /// The write cannot be contained.
    NotContained,
    /// The capability is not executable at all.
    NotExecutable,
}

pub open spec fn unsupported_approval(capability: CapabilityKind) -> PolicyDenial {
    PolicyDenial { capability, reason: PolicyDenialReason::ApprovalRequiredButUnsupported }
}

/// What becomes of a validated action: the whole table.
pub open spec fn action_dispatch(
    capability: CapabilityKind,
    execution: ExecutionKind,
    decision: AuthorizationDecision,
) -> Dispatch {
    match capability {
        CapabilityKind::ReadOnly => match decision {
            AuthorizationDecision::Allowed => Dispatch::Run,
            AuthorizationDecision::RequiresApproval => Dispatch::DeniedByPolicy(
                unsupported_approval(capability),
            ),
            AuthorizationDecision::Denied(denial) => Dispatch::DeniedByPolicy(denial),
        },
        CapabilityKind::LocalWrite => match decision {
            AuthorizationDecision::Denied(denial) => Dispatch::DeniedByPolicy(denial),
            AuthorizationDecision::Allowed => Dispatch::NeedsApproval,
            AuthorizationDecision::RequiresApproval => if execution == ExecutionKind::Contained {
                Dispatch::Approve
            } else {
                Dispatch::NotContained
            },
        },
        _ => Dispatch::NotExecutable,
    }
}

pub fn dispatch_action(
    capability: CapabilityKind,
    execution: ExecutionKind,
    decision: AuthorizationDecision,
) -> (r: Dispatch)
    ensures
        r == action_dispatch(capability, execution, decision),
{
    match capability {
        CapabilityKind::ReadOnly => match decision {
            AuthorizationDecision::Allowed => Dispatch::Run,
            AuthorizationDecision::RequiresApproval => Dispatch::DeniedByPolicy(
                PolicyDenial::new(capability, PolicyDenialReason::ApprovalRequiredButUnsupported),
            ),
            AuthorizationDecision::Denied(denial) => Dispatch::DeniedByPolicy(denial),
        },
        CapabilityKind::LocalWrite => match decision {
            AuthorizationDecision::Denied(denial) => Dispatch::DeniedByPolicy(denial),
            AuthorizationDecision::Allowed => Dispatch::NeedsApproval,
            AuthorizationDecision::RequiresApproval => match execution {
                ExecutionKind::Contained => Dispatch::Approve,
                _ => Dispatch::NotContained,
            },
        },
        _ => Dispatch::NotExecutable,
    }
}

/// What becomes of a call that no validated action stands behind: only reading runs.
pub open spec fn plain_dispatch(capability: CapabilityKind, decision: AuthorizationDecision)
    -> Dispatch {
    match decision {
        AuthorizationDecision::RequiresApproval => Dispatch::DeniedByPolicy(
            unsupported_approval(capability),
        ),
        AuthorizationDecision::Denied(denial) => Dispatch::DeniedByPolicy(denial),
        AuthorizationDecision::Allowed => if capability == CapabilityKind::ReadOnly {
            Dispatch::Run
        } else {
            Dispatch::NotExecutable
        },
    }
}

pub fn dispatch_plain(capability: CapabilityKind, decision: AuthorizationDecision) -> (r: Dispatch)
    ensures
        r == plain_dispatch(capability, decision),
{
    match decision {
        AuthorizationDecision::RequiresApproval => Dispatch::DeniedByPolicy(
            PolicyDenial::new(capability, PolicyDenialReason::ApprovalRequiredButUnsupported),
        ),
        AuthorizationDecision::Denied(denial) => Dispatch::DeniedByPolicy(denial),
        AuthorizationDecision::Allowed => match capability {
            CapabilityKind::ReadOnly => Dispatch::Run,
            _ => Dispatch::NotExecutable,
        },
    }
}

#[derive(Debug)]
pub enum GovernedStage {
    /// The binding of the action to its tool call is being recorded.
    Binding { call: GovernedCall, execution: ExecutionKind },
    /// A refusal is being recorded; then the error is reported.
    Refusing { error: HarnessError },
    /// The call may not go on; what is being recorded reports why.
    Stopping,
    /// The question to the approver is being recorded.
    Asking { call: GovernedCall, request_id: ApprovalRequestId },
    /// The grant is being recorded.
    Granting { call: GovernedCall },
    /// The tool call itself.
    Calling { stage: ToolStage, execution: ExecutionKind },
}

#[derive(Debug)]
pub enum GovernedTurn {
    Record(RecordTurn, GovernedStage),
    /// Ask the policy.
    Authorize(Authorization),
    /// Render a preview of the action for the approver.
    Preview(GovernedCall),
    /// Ask the approver, within the run's bounds.
    Decide { call: GovernedCall, request_id: ApprovalRequestId },
    /// Call the tool, within the run's bounds.
    Invoke { tool_call_id: ToolCallId, mode: AuditMode, execution: ExecutionKind },
    Finished(Result<(), HarnessError>),
}

pub type GovernedStep = (ContextView, GovernedTurn);

/// The turn of a tool call as a turn of the action.
pub open spec fn calling(step: ToolStep, execution: ExecutionKind) -> GovernedStep {
    (
        step.0,
        match step.1 {
            ToolTurn::Record(turn, stage) => GovernedTurn::Record(
                turn,
                GovernedStage::Calling { stage, execution },
            ),
            ToolTurn::Invoke { tool_call_id, mode } => GovernedTurn::Invoke {
                tool_call_id,
                mode,
                execution,
            },
            ToolTurn::Finished(result) => GovernedTurn::Finished(result),
        },
    )
}

fn as_calling(turn: ToolTurn, execution: ExecutionKind) -> (r: GovernedTurn)
    ensures
        forall|context: ContextView|
            calling((context, turn), execution) == (context, r),
{
    match turn {
        ToolTurn::Record(turn, stage) => GovernedTurn::Record(
            turn,
            GovernedStage::Calling { stage, execution },
        ),
        ToolTurn::Invoke { tool_call_id, mode } => GovernedTurn::Invoke {
            tool_call_id,
            mode,
            execution,
        },
        ToolTurn::Finished(result) => GovernedTurn::Finished(result),
    }
}

pub open spec fn refusing(turned: Turned, error: HarnessError) -> GovernedStep {
    (turned.0, GovernedTurn::Record(turned.1, GovernedStage::Refusing { error }))
}

pub open spec fn stopping(turned: Turned) -> GovernedStep {
    (turned.0, GovernedTurn::Record(turned.1, GovernedStage::Stopping))
}

pub open spec fn finished(context: ContextView, error: HarnessError) -> GovernedStep {
    (context, GovernedTurn::Finished(Err(error)))
}

/// The refusal of a tool by policy is recorded, then reported as `error`.
pub open spec fn denied(
    context: ContextView,
    tool_call_id: ToolCallId,
    tool_name: ToolName,
    capability: CapabilityKind,
    operation: HarnessOperation,
    error: HarnessError,
) -> GovernedStep {
    refusing(
        recording(
            context,
            AgentEventKind::ToolPolicyDenied { tool_call_id, tool_name, capability },
            before_invocation(operation, AuditMode::Configured),
            None,
        ),
        error,
    )
}

fn deny(
    context: &mut RunContext,
    tool_call_id: ToolCallId,
    tool_name: ToolName,
    capability: CapabilityKind,
    operation: HarnessOperation,
    error: HarnessError,
) -> (r: GovernedTurn)
    ensures
        (final(context)@, r) == denied(
            old(context)@,
            tool_call_id,
            tool_name,
            capability,
            operation,
            error,
        ),
{
    let turn = begin_recording(
        context,
        AgentEventKind::ToolPolicyDenied { tool_call_id, tool_name, capability },
        before_invocation_step(operation, AuditMode::Configured),
        None,
    );
    GovernedTurn::Record(turn, GovernedStage::Refusing { error })
}

/// A failing containment is recorded, then reported as `error`.
pub open spec fn uncontained(
    context: ContextView,
    tool_call_id: ToolCallId,
    tool_name: ToolName,
    capability: CapabilityKind,
    kind: ContainmentFailureKind,
    error: HarnessError,
) -> GovernedStep {
    refusing(
        recording(
            context,
            AgentEventKind::ContainmentFailed { tool_call_id, tool_name, capability, kind },
            before_invocation(HarnessOperation::InvokeValidatedAction, AuditMode::Required),
            None,
        ),
        error,
    )
}

fn report_uncontained(
    context: &mut RunContext,
    tool_call_id: ToolCallId,
    tool_name: ToolName,
    capability: CapabilityKind,
    kind: ContainmentFailureKind,
    error: HarnessError,
) -> (r: GovernedTurn)
    ensures
        (final(context)@, r) == uncontained(
            old(context)@,
            tool_call_id,
            tool_name,
            capability,
            kind,
            error,
        ),
{
    let turn = begin_recording(
        context,
        AgentEventKind::ContainmentFailed { tool_call_id, tool_name, capability, kind },
        before_invocation_step(HarnessOperation::InvokeValidatedAction, AuditMode::Required),
        None,
    );
    GovernedTurn::Record(turn, GovernedStage::Refusing { error })
}

pub open spec fn containment_kind(error: ContainmentPortError) -> ContainmentFailureKind {
    match error {
        ContainmentPortError::Unavailable => ContainmentFailureKind::Unavailable,
        ContainmentPortError::PreviewRejected => ContainmentFailureKind::PreviewRejected,
        ContainmentPortError::Infrastructure => ContainmentFailureKind::Infrastructure,
    }
}

pub fn containment_failure_kind(error: ContainmentPortError) -> (r: ContainmentFailureKind)
    ensures
        r == containment_kind(error),
{
    match error {
        ContainmentPortError::Unavailable => ContainmentFailureKind::Unavailable,
        ContainmentPortError::PreviewRejected => ContainmentFailureKind::PreviewRejected,
        ContainmentPortError::Infrastructure => ContainmentFailureKind::Infrastructure,
    }
}

/// A write is bound only with an audited event; reading follows the configured policy.
pub open spec fn binding_mode(capability: CapabilityKind) -> AuditMode {
    if capability == CapabilityKind::LocalWrite {
        AuditMode::Required
    } else {
        AuditMode::Configured
    }
}

/// An action begins: its tool must be registered with the capability that was validated, and the
/// binding of the action to the tool call is recorded.
pub open spec fn action_begun(
    context: ContextView,
    seen: Observation,
    call: GovernedCall,
    registered: Option<Grounds>,
) -> GovernedStep {
    match closed_gate(context, HarnessOperation::InvokeValidatedAction, seen) {
        Some(turned) => stopping(turned),
        None => match registered {
            None => finished(context, HarnessError::ToolNotFound { name: call.tool_name }),
            Some(grounds) => if grounds.capability != call.capability {
                finished(context, HarnessError::ToolPort(ToolPortError::AdapterFailure))
            } else {
                let (after, turn) = recording(
                    context,
                    AgentEventKind::ActionExecutionBound {
                        action_proposal_id: call.action_proposal_id,
                        tool_call_id: call.tool_call_id,
                    },
                    before_invocation(
                        HarnessOperation::InvokeValidatedAction,
                        binding_mode(call.capability),
                    ),
                    None,
                );
                (
                    after,
                    GovernedTurn::Record(
                        turn,
                        GovernedStage::Binding { call, execution: grounds.execution },
                    ),
                )
            },
        },
    }
}

/// Begins to execute a validated action. `registered` is what the registry says of its tool, if it
/// is registered at all.
pub fn begin_action(
    context: &mut RunContext,
    seen: Observation,
    call: GovernedCall,
    registered: Option<Grounds>,
) -> (r: GovernedTurn)
    ensures
        (final(context)@, r) == action_begun(old(context)@, seen, call, registered),
{
    match preflight(context, HarnessOperation::InvokeValidatedAction, seen) {
        Some(turn) => {
            return GovernedTurn::Record(turn, GovernedStage::Stopping);
        },
        None => {},
    }
    let grounds = match registered {
        None => {
            return GovernedTurn::Finished(
                Err(HarnessError::ToolNotFound { name: call.tool_name }),
            );
        },
        Some(grounds) => grounds,
    };
    if grounds.capability != call.capability {
        return GovernedTurn::Finished(Err(HarnessError::ToolPort(ToolPortError::AdapterFailure)));
    }
    let mode = if call.capability == CapabilityKind::LocalWrite {
        AuditMode::Required
    } else {
        AuditMode::Configured
    };
    let turn = begin_recording(
        context,
        AgentEventKind::ActionExecutionBound {
            action_proposal_id: call.action_proposal_id,
            tool_call_id: call.tool_call_id,
        },
        before_invocation_step(HarnessOperation::InvokeValidatedAction, mode),
        None,
    );
    GovernedTurn::Record(turn, GovernedStage::Binding { call, execution: grounds.execution })
}

/// What follows the policy's answer on a validated action.
pub open spec fn bound(
    context: ContextView,
    call: GovernedCall,
    execution: ExecutionKind,
    decision: AuthorizationDecision,
) -> GovernedStep {
    let operation = HarnessOperation::InvokeValidatedAction;
    match action_dispatch(call.capability, execution, decision) {
        Dispatch::Run => calling(
            tool_begun(
                context,
                call.tool_call_id,
                call.tool_name,
                call.capability,
                AuditMode::Configured,
            ),
            execution,
        ),
        Dispatch::Approve => if context.audit_degraded {
            finished(context, HarnessError::AuditDegraded)
        } else {
            (context, GovernedTurn::Preview(call))
        },
        Dispatch::DeniedByPolicy(denial) => denied(
            context,
            call.tool_call_id,
            call.tool_name,
            call.capability,
            operation,
            HarnessError::PolicyDenied(denial),
        ),
        Dispatch::NeedsApproval => denied(
            context,
            call.tool_call_id,
            call.tool_name,
            call.capability,
            operation,
            HarnessError::ApprovalRequired,
        ),
        Dispatch::NotContained => uncontained(
            context,
            call.tool_call_id,
            call.tool_name,
            call.capability,
            ContainmentFailureKind::Unavailable,
            HarnessError::ContainmentUnavailable { name: call.tool_name },
        ),
        Dispatch::NotExecutable => denied(
            context,
            call.tool_call_id,
            call.tool_name,
            call.capability,
            operation,
            HarnessError::CapabilityNotExecutable { capability: call.capability },
        ),
    }
}

fn dispatch_bound(
    context: &mut RunContext,
    call: GovernedCall,
    execution: ExecutionKind,
    decision: AuthorizationDecision,
) -> (r: GovernedTurn)
    ensures
        (final(context)@, r) == bound(old(context)@, call, execution, decision),
{
    let operation = HarnessOperation::InvokeValidatedAction;
    match dispatch_action(call.capability, execution, decision) {
        Dispatch::Run => {
            let turn = begin_tool_call(
                context,
                call.tool_call_id,
                call.tool_name,
                call.capability,
                AuditMode::Configured,
            );
            as_calling(turn, execution)
        },
        Dispatch::Approve => {
            if context.audit_degraded() {
                GovernedTurn::Finished(Err(HarnessError::AuditDegraded))
            } else {
                GovernedTurn::Preview(call)
            }
        },
        Dispatch::DeniedByPolicy(denial) => deny(
            context,
            call.tool_call_id,
            call.tool_name,
            call.capability,
            operation,
            HarnessError::PolicyDenied(denial),
        ),
        Dispatch::NeedsApproval => deny(
            context,
            call.tool_call_id,
            call.tool_name,
            call.capability,
            operation,
            HarnessError::ApprovalRequired,
        ),
        Dispatch::NotContained => {
            let name = call.tool_name.clone();
            report_uncontained(
                context,
                call.tool_call_id,
                call.tool_name,
                call.capability,
                ContainmentFailureKind::Unavailable,
                HarnessError::ContainmentUnavailable { name },
            )
        },
        Dispatch::NotExecutable => deny(
            context,
            call.tool_call_id,
            call.tool_name,
            call.capability,
            operation,
            HarnessError::CapabilityNotExecutable { capability: call.capability },
        ),
    }
}

/// A granted write runs contained, after one more look at the run's bounds.
pub open spec fn granted(context: ContextView, seen: Observation, call: GovernedCall)
    -> GovernedStep {
    match closed_gate(context, HarnessOperation::InvokeTool, seen) {
        Some(turned) => stopping(turned),
        None => calling(
            tool_begun(
                context,
                call.tool_call_id,
                call.tool_name,
                call.capability,
                AuditMode::Required,
            ),
            ExecutionKind::Contained,
        ),
    }
}

/// What follows once an event of the action is recorded, or could not be.
pub open spec fn governed_settled(
    context: ContextView,
    seen: Observation,
    stage: GovernedStage,
    result: Result<(), HarnessError>,
) -> GovernedStep {
    match stage {
        GovernedStage::Calling { stage: tool_stage, execution } => calling(
            tool_settled(context, tool_stage, result),
            execution,
        ),
        GovernedStage::Binding { call, execution } => match result {
            Err(error) => finished(context, error),
            Ok(_) => (
                context,
                GovernedTurn::Authorize(Authorization::Action { call, execution }),
            ),
        },
        GovernedStage::Asking { call, request_id } => match result {
            Err(error) => finished(context, error),
            Ok(_) => if context.deadline_at is None {
                finished(context, HarnessError::Context(RunContextError::RuntimeUnavailable))
            } else {
                (context, GovernedTurn::Decide { call, request_id })
            },
        },
        GovernedStage::Granting { call } => match result {
            Err(error) => finished(context, error),
            Ok(_) => granted(context, seen, call),
        },
        GovernedStage::Refusing { error } => match result {
            Err(failure) => finished(context, failure),
            Ok(_) => finished(context, error),
        },
        GovernedStage::Stopping => match result {
            Err(error) => finished(context, error),
            Ok(_) => finished(
                context,
                HarnessError::Context(RunContextError::RuntimeUnavailable),
            ),
        },
    }
}

/// Takes the result of recording.
pub fn governed_recorded(
    context: &mut RunContext,
    seen: Observation,
    stage: GovernedStage,
    result: Result<(), HarnessError>,
) -> (r: GovernedTurn)
    ensures
        (final(context)@, r) == governed_settled(old(context)@, seen, stage, result),
{
    match stage {
        GovernedStage::Calling { stage: tool_stage, execution } => {
            let turn = tool_recorded(context, tool_stage, result);
            as_calling(turn, execution)
        },
        GovernedStage::Binding { call, execution } => match result {
            Err(error) => GovernedTurn::Finished(Err(error)),
            Ok(()) => GovernedTurn::Authorize(Authorization::Action { call, execution }),
        },
        GovernedStage::Asking { call, request_id } => match result {
            Err(error) => GovernedTurn::Finished(Err(error)),
            Ok(()) => match context.deadline_at() {
                Err(error) => GovernedTurn::Finished(Err(HarnessError::Context(error))),
                Ok(_) => GovernedTurn::Decide { call, request_id },
            },
        },
        GovernedStage::Granting { call } => match result {
            Err(error) => GovernedTurn::Finished(Err(error)),
            Ok(()) => {
                match preflight(context, HarnessOperation::InvokeTool, seen) {
                    Some(turn) => {
                        return GovernedTurn::Record(turn, GovernedStage::Stopping);
                    },
                    None => {},
                }
                let turn = begin_tool_call(
                    context,
                    call.tool_call_id,
                    call.tool_name,
                    call.capability,
                    AuditMode::Required,
                );
                as_calling(turn, ExecutionKind::Contained)
            },
        },
        GovernedStage::Stopping => match result {
            Err(error) => GovernedTurn::Finished(Err(error)),
            Ok(()) => GovernedTurn::Finished(
                Err(HarnessError::Context(RunContextError::RuntimeUnavailable)),
            ),
        },
        GovernedStage::Refusing { error } => match result {
            Err(failure) => GovernedTurn::Finished(Err(failure)),
            Ok(()) => GovernedTurn::Finished(Err(error)),
        },
    }
}

/// What follows the preview: the approver is asked, if there is one and if the budget has room
/// for the question.
pub open spec fn previewed(
    context: ContextView,
    seen: Observation,
    call: GovernedCall,
    request_id: ApprovalRequestId,
    approver: bool,
    preview: Result<(), ContainmentPortError>,
) -> GovernedStep {
    match preview {
        Err(error) => uncontained(
            context,
            call.tool_call_id,
            call.tool_name,
            call.capability,
            containment_kind(error),
            HarnessError::ContainmentPort(error),
        ),
        Ok(_) => match closed_gate(context, HarnessOperation::RequestApproval, seen) {
            Some(turned) => stopping(turned),
            None => if !approver {
                finished(context, HarnessError::ApprovalPortMissing)
            } else if !context.has_room(BudgetDimension::ApprovalRequests) {
                stopping(exhausted(context, BudgetDimension::ApprovalRequests))
            } else {
                let reserved = context.with_usage(
                    context.reserved(BudgetDimension::ApprovalRequests),
                );
                let (after, turn) = recording(
                    reserved,
                    AgentEventKind::ApprovalRequested {
                        approval_request_id: request_id,
                        action_proposal_id: call.action_proposal_id,
                        tool_call_id: call.tool_call_id,
                        tool_name: call.tool_name,
                        capability: call.capability,
                        usage: reserved.usage.approval_requests,
                        limit: context.budget.max_approval_requests,
                    },
                    before_invocation(HarnessOperation::RequestApproval, AuditMode::Required),
                    None,
                );
                (after, GovernedTurn::Record(turn, GovernedStage::Asking { call, request_id }))
            },
        },
    }
}

/// Takes the answer to the request for a preview. `approver` says whether anyone can be asked.
pub fn preview_answered(
    context: &mut RunContext,
    seen: Observation,
    call: GovernedCall,
    request_id: ApprovalRequestId,
    approver: bool,
    preview: Result<(), ContainmentPortError>,
) -> (r: GovernedTurn)
    ensures
        (final(context)@, r) == previewed(
            old(context)@,
            seen,
            call,
            request_id,
            approver,
            preview,
        ),
{
    match preview {
        Err(error) => {
            return report_uncontained(
                context,
                call.tool_call_id,
                call.tool_name,
                call.capability,
                containment_failure_kind(error),
                HarnessError::ContainmentPort(error),
            );
        },
        Ok(()) => {},
    }
    match preflight(context, HarnessOperation::RequestApproval, seen) {
        Some(turn) => {
            return GovernedTurn::Record(turn, GovernedStage::Stopping);
        },
        None => {},
    }
    if !approver {
        return GovernedTurn::Finished(Err(HarnessError::ApprovalPortMissing));
    }
    match context.reserve_approval_request() {
        Err(error) => {
            let turn = exhaust(context, error);
            return GovernedTurn::Record(turn, GovernedStage::Stopping);
        },
        Ok(()) => {},
    }
    let usage = context.usage().approval_requests;
    let limit = context.budget().max_approval_requests;
    let turn = begin_recording(
        context,
        AgentEventKind::ApprovalRequested {
            approval_request_id: request_id,
            action_proposal_id: call.action_proposal_id,
            tool_call_id: call.tool_call_id,
            tool_name: call.tool_name.clone(),
            capability: call.capability,
            usage,
            limit,
        },
        before_invocation_step(HarnessOperation::RequestApproval, AuditMode::Required),
        None,
    );
    GovernedTurn::Record(turn, GovernedStage::Asking { call, request_id })
}

/// What came of asking the approver.
#[derive(Clone, Copy, Debug)]
pub enum DecisionReply {
    Decided(ApprovalDecision),
    Failed(ApprovalPortError),
    Interrupted(Interruption),
}

/// The approver's part is recorded after the question, and nothing has been invoked.
pub open spec fn answer_purpose() -> Purpose {
    Purpose::Step(
        RecordPlan {
            operation: HarnessOperation::RequestApproval,
            phase: AuditPhase::AfterInvocation,
            effect: OperationEffect::NotInvoked,
            mode: AuditMode::Required,
        },
    )
}

pub fn answer_step() -> (r: Purpose)
    ensures
        r == answer_purpose(),
{
    Purpose::Step(
        RecordPlan {
            operation: HarnessOperation::RequestApproval,
            phase: AuditPhase::AfterInvocation,
            effect: OperationEffect::NotInvoked,
            mode: AuditMode::Required,
        },
    )
}

pub open spec fn approval_failure(error: ApprovalPortError) -> ApprovalFailureKind {
    match error {
        ApprovalPortError::Unavailable => ApprovalFailureKind::PortUnavailable,
        ApprovalPortError::Failed => ApprovalFailureKind::PortFailed,
    }
}

/// What follows the approver's answer. A grant counts only for the request that was put and the
/// action that was shown.
pub open spec fn decided(
    context: ContextView,
    seen: Observation,
    call: GovernedCall,
    request_id: ApprovalRequestId,
    reply: DecisionReply,
) -> GovernedStep {
    match reply {
        DecisionReply::Interrupted(by) => stopping(
            terminalized(context, by.safety().outcome(), by.reported()),
        ),
        DecisionReply::Failed(error) => refusing(
            recording(
                context,
                AgentEventKind::ApprovalFailed {
                    approval_request_id: request_id,
                    kind: approval_failure(error),
                },
                answer_purpose(),
                None,
            ),
            HarnessError::ApprovalPort(error),
        ),
        DecisionReply::Decided(decision) => match closed_gate(
            context,
            HarnessOperation::RequestApproval,
            seen,
        ) {
            Some(turned) => stopping(turned),
            None => if decision.request_id != request_id || decision.action_digest
                != call.action_digest {
                refusing(
                    recording(
                        context,
                        AgentEventKind::ApprovalFailed {
                            approval_request_id: request_id,
                            kind: ApprovalFailureKind::DecisionMismatch,
                        },
                        answer_purpose(),
                        None,
                    ),
                    HarnessError::ApprovalDecisionMismatch,
                )
            } else {
                match decision.outcome {
                    ApprovalOutcome::Denied => refusing(
                        recording(
                            context,
                            AgentEventKind::ApprovalDenied { approval_request_id: request_id },
                            answer_purpose(),
                            None,
                        ),
                        HarnessError::ApprovalDenied,
                    ),
                    ApprovalOutcome::Granted => {
                        let (after, turn) = recording(
                            context,
                            AgentEventKind::ApprovalGranted { approval_request_id: request_id },
                            answer_purpose(),
                            None,
                        );
                        (after, GovernedTurn::Record(turn, GovernedStage::Granting { call }))
                    },
                }
            },
        },
    }
}

/// Takes the approver's answer.
pub fn decision_answered(
    context: &mut RunContext,
    seen: Observation,
    call: GovernedCall,
    request_id: ApprovalRequestId,
    reply: DecisionReply,
) -> (r: GovernedTurn)
    ensures
        (final(context)@, r) == decided(old(context)@, seen, call, request_id, reply),
{
    let decision = match reply {
        DecisionReply::Interrupted(by) => {
            let turn = terminalize_safety(context, by.terminalization(), by.error());
            return GovernedTurn::Record(turn, GovernedStage::Stopping);
        },
        DecisionReply::Failed(error) => {
            let kind = match error {
                ApprovalPortError::Unavailable => ApprovalFailureKind::PortUnavailable,
                ApprovalPortError::Failed => ApprovalFailureKind::PortFailed,
            };
            let turn = begin_recording(
                context,
                AgentEventKind::ApprovalFailed { approval_request_id: request_id, kind },
                answer_step(),
                None,
            );
            return GovernedTurn::Record(
                turn,
                GovernedStage::Refusing { error: HarnessError::ApprovalPort(error) },
            );
        },
        DecisionReply::Decided(decision) => decision,
    };
    match preflight(context, HarnessOperation::RequestApproval, seen) {
        Some(turn) => {
            return GovernedTurn::Record(turn, GovernedStage::Stopping);
        },
        None => {},
    }
    if decision.request_id != request_id || decision.action_digest != call.action_digest {
        let turn = begin_recording(
            context,
            AgentEventKind::ApprovalFailed {
                approval_request_id: request_id,
                kind: ApprovalFailureKind::DecisionMismatch,
            },
            answer_step(),
            None,
        );
        return GovernedTurn::Record(
            turn,
            GovernedStage::Refusing { error: HarnessError::ApprovalDecisionMismatch },
        );
    }
    match decision.outcome {
        ApprovalOutcome::Denied => {
            let turn = begin_recording(
                context,
                AgentEventKind::ApprovalDenied { approval_request_id: request_id },
                answer_step(),
                None,
            );
            GovernedTurn::Record(
                turn,
                GovernedStage::Refusing { error: HarnessError::ApprovalDenied },
            )
        },
        ApprovalOutcome::Granted => {
            let turn = begin_recording(
                context,
                AgentEventKind::ApprovalGranted { approval_request_id: request_id },
                answer_step(),
                None,
            );
            GovernedTurn::Record(turn, GovernedStage::Granting { call })
        },
    }
}

/// Takes the tool's answer.
pub fn governed_replied(
    context: &mut RunContext,
    tool_call_id: ToolCallId,
    mode: AuditMode,
    execution: ExecutionKind,
    reply: ToolReply,
) -> (r: GovernedTurn)
    ensures
        (final(context)@, r) == calling(
            tool_answered(old(context)@, tool_call_id, mode, reply),
            execution,
        ),
{
    let turn = tool_replied(context, tool_call_id, mode, reply);
    as_calling(turn, execution)
}

/// A plain tool call begins: its tool must be registered.
pub open spec fn plain_begun(
    context: ContextView,
    seen: Observation,
    tool_call_id: ToolCallId,
    tool_name: ToolName,
    registered: Option<Grounds>,
) -> GovernedStep {
    match closed_gate(context, HarnessOperation::InvokeTool, seen) {
        Some(turned) => stopping(turned),
        None => match registered {
            None => finished(context, HarnessError::ToolNotFound { name: tool_name }),
            Some(grounds) => (
                context,
                GovernedTurn::Authorize(
                    Authorization::Plain {
                        tool_call_id,
                        tool_name,
                        capability: grounds.capability,
                        execution: grounds.execution,
                    },
                ),
            ),
        },
    }
}

/// Begins a tool call that no validated action stands behind.
pub fn begin_plain_call(
    context: &mut RunContext,
    seen: Observation,
    tool_call_id: ToolCallId,
    tool_name: ToolName,
    registered: Option<Grounds>,
) -> (r: GovernedTurn)
    ensures
        (final(context)@, r) == plain_begun(
            old(context)@,
            seen,
            tool_call_id,
            tool_name,
            registered,
        ),
{
    match preflight(context, HarnessOperation::InvokeTool, seen) {
        Some(turn) => {
            return GovernedTurn::Record(turn, GovernedStage::Stopping);
        },
        None => {},
    }
    match registered {
        None => GovernedTurn::Finished(Err(HarnessError::ToolNotFound { name: tool_name })),
        Some(grounds) => GovernedTurn::Authorize(
            Authorization::Plain {
                tool_call_id,
                tool_name,
                capability: grounds.capability,
                execution: grounds.execution,
            },
        ),
    }
}

/// What follows the policy's answer on a plain tool call.
pub open spec fn plain_authorized(
    context: ContextView,
    tool_call_id: ToolCallId,
    tool_name: ToolName,
    capability: CapabilityKind,
    execution: ExecutionKind,
    decision: AuthorizationDecision,
) -> GovernedStep {
    match plain_dispatch(capability, decision) {
        Dispatch::Run => calling(
            tool_begun(context, tool_call_id, tool_name, capability, AuditMode::Configured),
            execution,
        ),
        Dispatch::DeniedByPolicy(denial) => denied(
            context,
            tool_call_id,
            tool_name,
            capability,
            HarnessOperation::InvokeTool,
            HarnessError::PolicyDenied(denial),
        ),
        _ => denied(
            context,
            tool_call_id,
            tool_name,
            capability,
            HarnessOperation::InvokeTool,
            HarnessError::CapabilityNotExecutable { capability },
        ),
    }
}

/// What follows the policy's answer.
pub open spec fn authorized(
    context: ContextView,
    asked: Authorization,
    decision: AuthorizationDecision,
) -> GovernedStep {
    match asked {
        Authorization::Action { call, execution } => bound(context, call, execution, decision),
        Authorization::Plain { tool_call_id, tool_name, capability, execution } => plain_authorized(
            context,
            tool_call_id,
            tool_name,
            capability,
            execution,
            decision,
        ),
    }
}

/// Takes the policy's answer.
pub fn policy_answered(
    context: &mut RunContext,
    asked: Authorization,
    decision: AuthorizationDecision,
) -> (r: GovernedTurn)
    ensures
        (final(context)@, r) == authorized(old(context)@, asked, decision),
{
    match asked {
        Authorization::Action { call, execution } => dispatch_bound(
            context,
            call,
            execution,
            decision,
        ),
        Authorization::Plain { tool_call_id, tool_name, capability, execution } => {
            match dispatch_plain(capability, decision) {
                Dispatch::Run => {
                    let turn = begin_tool_call(
                        context,
                        tool_call_id,
                        tool_name,
                        capability,
                        AuditMode::Configured,
                    );
                    as_calling(turn, execution)
                },
                Dispatch::DeniedByPolicy(denial) => deny(
                    context,
                    tool_call_id,
                    tool_name,
                    capability,
                    HarnessOperation::InvokeTool,
                    HarnessError::PolicyDenied(denial),
                ),
                _ => deny(
                    context,
                    tool_call_id,
                    tool_name,
                    capability,
                    HarnessOperation::InvokeTool,
                    HarnessError::CapabilityNotExecutable { capability },
                ),
            }
        },
    }
}

} // verus!
