//! Invoking a tool: a reservation, a recorded start, the call, a recorded end.

use vstd::prelude::*;

use crate::budget::BudgetDimension;
use crate::context::{ContextView, RunContext, RunContextError};
use crate::error::{
    ContainmentPortError, ExecutionStage, HarnessError, HarnessOperation, ToolPortError,
};
use crate::events::{AgentEventKind, CapabilityKind, ToolDomainFailureKind};
use crate::ids::{ToolCallId, ToolName};
use crate::model_call::{
    after_invocation, after_invocation_step, before_invocation, before_invocation_step,
};
use crate::record::{
    begin_recording, exhaust, exhausted, held_result, recording, terminalize_safety, terminalized,
    AuditMode, Purpose, RecordTurn, SafetyTerminalization,
};
use crate::status::RunStatus;

verus! {

/// What ended a call from outside.
#[derive(Clone, Copy, Debug, PartialEq, Eq, Structural)]
pub enum Interruption {
    Cancelled,
    DeadlineExceeded,
}

impl Interruption {
    pub open spec fn safety(self) -> SafetyTerminalization {
        match self {
            Interruption::Cancelled => SafetyTerminalization::Cancelled,
            Interruption::DeadlineExceeded => SafetyTerminalization::DeadlineExceeded,
        }
    }

    pub open spec fn reported(self) -> HarnessError {
        match self {
            Interruption::Cancelled => HarnessError::Cancelled {
                stage: ExecutionStage::Invocation,
            },
            Interruption::DeadlineExceeded => HarnessError::DeadlineExceeded {
                stage: ExecutionStage::Invocation,
            },
        }
    }

    pub fn terminalization(self) -> (r: SafetyTerminalization)
        ensures
            r == self.safety(),
    {
        match self {
            Interruption::Cancelled => SafetyTerminalization::Cancelled,
            Interruption::DeadlineExceeded => SafetyTerminalization::DeadlineExceeded,
        }
    }

    pub fn error(self) -> (r: HarnessError)
        ensures
            r == self.reported(),
    {
        match self {
            Interruption::Cancelled => HarnessError::Cancelled {
                stage: ExecutionStage::Invocation,
            },
            Interruption::DeadlineExceeded => HarnessError::DeadlineExceeded {
                stage: ExecutionStage::Invocation,
            },
        }
    }
}

#[derive(Debug)]
pub enum ToolStage {
    /// The start is being recorded.
    Starting { tool_call_id: ToolCallId, mode: AuditMode },
    /// The run is being ended because the call was broken off.
    Interrupted { tool_call_id: ToolCallId, mode: AuditMode, by: Interruption },
    /// The end is being recorded; then the error is reported, if there is one.
    Ending { error: Option<HarnessError> },
}

#[derive(Debug)]
pub enum ToolTurn {
    Record(RecordTurn, ToolStage),
    /// Call the tool, within the run's bounds.
    Invoke { tool_call_id: ToolCallId, mode: AuditMode },
    Finished(Result<(), HarnessError>),
}

/// What a tool says of a call that it answered.
#[derive(Clone, Copy, Debug, PartialEq, Eq, Structural)]
pub enum ToolOutcome {
    Succeeded,
    DomainFailure(ToolDomainFailureKind),
}

/// What came of the call.
#[derive(Clone, Copy, Debug, PartialEq, Eq, Structural)]
pub enum ToolReply {
    Answered { call_id: ToolCallId, outcome: ToolOutcome },
    ToolFailed(ToolPortError),
    ContainmentFailed(ContainmentPortError),
    Interrupted(Interruption),
}

pub type ToolStep = (ContextView, ToolTurn);

/// A tool call is reserved and its start recorded; without room the run ends.
pub open spec fn tool_begun(
    context: ContextView,
    tool_call_id: ToolCallId,
    tool_name: ToolName,
    capability: CapabilityKind,
    mode: AuditMode,
) -> ToolStep {
    let (after, turn) = if context.has_room(BudgetDimension::ToolCalls) {
        let reserved = context.with_usage(context.reserved(BudgetDimension::ToolCalls));
        recording(
            reserved,
            AgentEventKind::ToolInvocationStarted {
                tool_call_id,
                tool_name,
                capability,
                usage: reserved.usage.tool_calls,
                limit: context.budget.max_tool_calls,
            },
            before_invocation(HarnessOperation::InvokeTool, mode),
            None,
        )
    } else {
        exhausted(context, BudgetDimension::ToolCalls)
    };
    (after, ToolTurn::Record(turn, ToolStage::Starting { tool_call_id, mode }))
}

pub fn begin_tool_call(
    context: &mut RunContext,
    tool_call_id: ToolCallId,
    tool_name: ToolName,
    capability: CapabilityKind,
    mode: AuditMode,
) -> (r: ToolTurn)
    ensures
        (final(context)@, r) == tool_begun(
            old(context)@,
            tool_call_id,
            tool_name,
            capability,
            mode,
        ),
{
    let stage = ToolStage::Starting { tool_call_id, mode };
    match context.reserve_tool_call() {
        Err(error) => {
            let turn = exhaust(context, error);
            return ToolTurn::Record(turn, stage);
        },
        Ok(()) => {},
    }
    let usage = context.usage().tool_calls;
    let limit = context.budget().max_tool_calls;
    let turn = begin_recording(
        context,
        AgentEventKind::ToolInvocationStarted { tool_call_id, tool_name, capability, usage, limit },
        before_invocation_step(HarnessOperation::InvokeTool, mode),
        None,
    );
    ToolTurn::Record(turn, stage)
}

/// A call that was broken off is recorded as failed: as a step while the run goes on, as well as
/// it can be once the run has ended.
pub open spec fn broken_off(
    context: ContextView,
    tool_call_id: ToolCallId,
    mode: AuditMode,
    error: HarnessError,
) -> ToolStep {
    let kind = AgentEventKind::ToolInvocationAdapterFailed { tool_call_id };
    if context.status == RunStatus::Running {
        let (after, turn) = recording(
            context,
            kind,
            after_invocation(HarnessOperation::InvokeTool, mode),
            None,
        );
        (after, ToolTurn::Record(turn, ToolStage::Ending { error: Some(error) }))
    } else {
        let (after, turn) = recording(context, kind, Purpose::Terminal, Some(error));
        (after, ToolTurn::Record(turn, ToolStage::Ending { error: None }))
    }
}

fn break_off(
    context: &mut RunContext,
    tool_call_id: ToolCallId,
    mode: AuditMode,
    error: HarnessError,
) -> (r: ToolTurn)
    ensures
        (final(context)@, r) == broken_off(old(context)@, tool_call_id, mode, error),
{
    let kind = AgentEventKind::ToolInvocationAdapterFailed { tool_call_id };
    if context.status() == RunStatus::Running {
        let turn = begin_recording(
            context,
            kind,
            after_invocation_step(HarnessOperation::InvokeTool, mode),
            None,
        );
        ToolTurn::Record(turn, ToolStage::Ending { error: Some(error) })
    } else {
        let turn = begin_recording(context, kind, Purpose::Terminal, Some(error));
        ToolTurn::Record(turn, ToolStage::Ending { error: None })
    }
}

/// What follows once an event of the call is recorded, or could not be.
pub open spec fn tool_settled(
    context: ContextView,
    stage: ToolStage,
    result: Result<(), HarnessError>,
) -> ToolStep {
    match stage {
        ToolStage::Interrupted { tool_call_id, mode, by } => broken_off(
            context,
            tool_call_id,
            mode,
            by.reported(),
        ),
        ToolStage::Starting { tool_call_id, mode } => match result {
            Err(error) => (context, ToolTurn::Finished(Err(error))),
            Ok(_) => if context.deadline_at is None {
                broken_off(
                    context,
                    tool_call_id,
                    mode,
                    HarnessError::Context(RunContextError::RuntimeUnavailable),
                )
            } else {
                (context, ToolTurn::Invoke { tool_call_id, mode })
            },
        },
        ToolStage::Ending { error } => match result {
            Err(failure) => (context, ToolTurn::Finished(Err(failure))),
            Ok(_) => (context, ToolTurn::Finished(held_result(error))),
        },
    }
}

pub fn tool_recorded(context: &mut RunContext, stage: ToolStage, result: Result<(), HarnessError>)
    -> (r: ToolTurn)
    ensures
        (final(context)@, r) == tool_settled(old(context)@, stage, result),
{
    match stage {
        ToolStage::Interrupted { tool_call_id, mode, by } => break_off(
            context,
            tool_call_id,
            mode,
            by.error(),
        ),
        ToolStage::Starting { tool_call_id, mode } => match result {
            Err(error) => ToolTurn::Finished(Err(error)),
            Ok(()) => match context.deadline_at() {
                Err(error) => break_off(context, tool_call_id, mode, HarnessError::Context(error)),
                Ok(_) => ToolTurn::Invoke { tool_call_id, mode },
            },
        },
        ToolStage::Ending { error } => match result {
            Err(failure) => ToolTurn::Finished(Err(failure)),
            Ok(()) => match error {
                None => ToolTurn::Finished(Ok(())),
                Some(error) => ToolTurn::Finished(Err(error)),
            },
        },
    }
}

/// The event and the error by which an answered call ends.
pub open spec fn ending(tool_call_id: ToolCallId, reply: ToolReply) -> (
    AgentEventKind,
    Option<HarnessError>,
) {
    match reply {
        ToolReply::Answered { call_id, outcome } => if call_id != tool_call_id {
            (
                AgentEventKind::ToolInvocationAdapterFailed { tool_call_id },
                Some(HarnessError::ToolPort(ToolPortError::AdapterFailure)),
            )
        } else {
            match outcome {
                ToolOutcome::Succeeded => (
                    AgentEventKind::ToolInvocationCompleted { tool_call_id },
                    None,
                ),
                ToolOutcome::DomainFailure(kind) => (
                    AgentEventKind::ToolInvocationDomainFailed { tool_call_id, kind },
                    None,
                ),
            }
        },
        ToolReply::ToolFailed(error) => (
            AgentEventKind::ToolInvocationAdapterFailed { tool_call_id },
            Some(HarnessError::ToolPort(error)),
        ),
        ToolReply::ContainmentFailed(error) => (
            AgentEventKind::ToolInvocationAdapterFailed { tool_call_id },
            Some(HarnessError::ContainmentPort(error)),
        ),
        ToolReply::Interrupted(by) => (
            AgentEventKind::ToolInvocationAdapterFailed { tool_call_id },
            Some(by.reported()),
        ),
    }
}

/// What follows the tool's answer.
pub open spec fn tool_answered(
    context: ContextView,
    tool_call_id: ToolCallId,
    mode: AuditMode,
    reply: ToolReply,
) -> ToolStep {
    match reply {
        ToolReply::Interrupted(by) => {
            let (after, turn) = terminalized(context, by.safety().outcome(), by.reported());
            (after, ToolTurn::Record(turn, ToolStage::Interrupted { tool_call_id, mode, by }))
        },
        _ => {
            let (kind, error) = ending(tool_call_id, reply);
            let (after, turn) = recording(
                context,
                kind,
                after_invocation(HarnessOperation::InvokeTool, mode),
                None,
            );
            (after, ToolTurn::Record(turn, ToolStage::Ending { error }))
        },
    }
}

pub fn tool_replied(
    context: &mut RunContext,
    tool_call_id: ToolCallId,
    mode: AuditMode,
    reply: ToolReply,
) -> (r: ToolTurn)
    ensures
        (final(context)@, r) == tool_answered(old(context)@, tool_call_id, mode, reply),
{
    let (kind, error) = match reply {
        ToolReply::Interrupted(by) => {
            let turn = terminalize_safety(context, by.terminalization(), by.error());
            return ToolTurn::Record(turn, ToolStage::Interrupted { tool_call_id, mode, by });
        },
        ToolReply::Answered { call_id, outcome } => {
            if call_id != tool_call_id {
                (
                    AgentEventKind::ToolInvocationAdapterFailed { tool_call_id },
                    Some(HarnessError::ToolPort(ToolPortError::AdapterFailure)),
                )
            } else {
                match outcome {
                    ToolOutcome::Succeeded => (
                        AgentEventKind::ToolInvocationCompleted { tool_call_id },
                        None,
                    ),
                    ToolOutcome::DomainFailure(kind) => (
                        AgentEventKind::ToolInvocationDomainFailed { tool_call_id, kind },
                        None,
                    ),
                }
            }
        },
        ToolReply::ToolFailed(error) => (
            AgentEventKind::ToolInvocationAdapterFailed { tool_call_id },
            Some(HarnessError::ToolPort(error)),
        ),
        ToolReply::ContainmentFailed(error) => (
            AgentEventKind::ToolInvocationAdapterFailed { tool_call_id },
            Some(HarnessError::ContainmentPort(error)),
        ),
    };
    let turn = begin_recording(
        context,
        kind,
        after_invocation_step(HarnessOperation::InvokeTool, mode),
        None,
    );
    ToolTurn::Record(turn, ToolStage::Ending { error })
}

} // verus!
