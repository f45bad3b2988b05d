//! Preparing an action: the model's output is decoded and validated, and both are recorded.

use vstd::prelude::*;

use crate::action::{
    decoded, proposal_fault, ActionPreparationError, ActionProposal, ActionValidationError,
    ActionValidator, ActionView, TextActionDecoder, ValidatedAction,
};
use crate::context::{ContextView, Observation, RunContext, RunContextError};
use crate::error::{AuditPhase, HarnessError, HarnessOperation, OperationEffect};
use crate::events::AgentEventKind;
use crate::ids::ActionProposalId;
use crate::model::CompletedModelInvocation;
use crate::record::{
    begin_recording, closed_gate, preflight, recording, AuditMode, Purpose, RecordPlan, RecordTurn,
};
use crate::tools::{tool_named, ToolRegistry};

verus! {

/// What an action has become so far.
pub enum PreparationStage {
    /// The action may not be prepared; what is being recorded reports why.
    Stopping,
    /// A rejection is being recorded; then it is reported.
    Rejecting(ActionValidationError),
    /// The proposal is being recorded.
    Proposing(ActionProposal),
    /// The validation is being recorded.
    Validating(ValidatedAction),
}

pub enum PreparationTurn {
    Record(RecordTurn, PreparationStage),
    Finished(Result<ValidatedAction, ActionPreparationError>),
}

/// Each step is recorded as a change of state.
pub open spec fn preparation_purpose() -> Purpose {
    Purpose::Step(
        RecordPlan {
            operation: HarnessOperation::PrepareAction,
            phase: AuditPhase::Lifecycle,
            effect: OperationEffect::StateCommitted,
            mode: AuditMode::Configured,
        },
    )
}

fn preparation_step() -> (r: Purpose)
    ensures
        r == preparation_purpose(),
{
    Purpose::Step(
        RecordPlan {
            operation: HarnessOperation::PrepareAction,
            phase: AuditPhase::Lifecycle,
            effect: OperationEffect::StateCommitted,
            mode: AuditMode::Configured,
        },
    )
}

/// The event that an action was rejected.
pub open spec fn rejection(error: ActionValidationError) -> AgentEventKind {
    AgentEventKind::ActionRejected {
        model_call_id: error.model_call_id,
        action_proposal_id: error.proposal_id,
        reason: error.reason,
    }
}

fn record_action_rejected(context: &mut RunContext, error: ActionValidationError) -> (r:
    PreparationTurn)
    ensures
        r matches PreparationTurn::Record(turn, stage) && (final(context)@, turn) == recording(
            old(context)@,
            rejection(error),
            preparation_purpose(),
            None,
        ) && stage == PreparationStage::Rejecting(error),
{
    let turn = begin_recording(
        context,
        AgentEventKind::ActionRejected {
            model_call_id: error.model_call_id(),
            action_proposal_id: error.proposal_id(),
            reason: error.reason(),
        },
        preparation_step(),
        None,
    );
    PreparationTurn::Record(turn, PreparationStage::Rejecting(error))
}

/// Whether preparing an output begins like this: the action that it proposes is recorded, or the
/// reason why it proposes none.
pub open spec fn begins_preparation(
    before: ContextView,
    seen: Observation,
    invocation: CompletedModelInvocation,
    proposal_id: ActionProposalId,
    after: ContextView,
    turn: PreparationTurn,
) -> bool {
    match closed_gate(before, HarnessOperation::PrepareAction, seen) {
        Some((stopped, record)) => after == stopped && turn == PreparationTurn::Record(
            record,
            PreparationStage::Stopping,
        ),
        None => match decoded(invocation.response.output@) {
            Err(reason) => {
                let error = ActionValidationError {
                    proposal_id,
                    model_call_id: invocation.model_call_id,
                    reason,
                };
                turn matches PreparationTurn::Record(record, stage) && (after, record)
                    == recording(before, rejection(error), preparation_purpose(), None) && stage
                    == PreparationStage::Rejecting(error)
            },
            Ok((name, arguments)) => {
                turn matches PreparationTurn::Record(
                    record,
                    PreparationStage::Proposing(proposal),
                ) && {
                    &&& proposal.id == proposal_id
                    &&& proposal.source_model_call_id == invocation.model_call_id
                    &&& proposal.tool_name@ == name
                    &&& proposal.arguments.json() == arguments
                    &&& (after, record) == recording(
                        before,
                        AgentEventKind::ActionProposed {
                            model_call_id: invocation.model_call_id,
                            action_proposal_id: proposal_id,
                            tool_name: proposal.tool_name,
                        },
                        preparation_purpose(),
                        None,
                    )
                }
            },
        },
    }
}

/// Begins to prepare the action in a model's output.
pub fn begin_preparation(
    context: &mut RunContext,
    seen: Observation,
    invocation: CompletedModelInvocation,
    proposal_id: ActionProposalId,
) -> (r: PreparationTurn)
    ensures
        begins_preparation(old(context)@, seen, invocation, proposal_id, final(context)@, r),
{
    match preflight(context, HarnessOperation::PrepareAction, seen) {
        Some(turn) => {
            return PreparationTurn::Record(turn, PreparationStage::Stopping);
        },
        None => {},
    }
    let (model_call_id, response) = invocation.into_parts();
    match TextActionDecoder::decode(&response, proposal_id, model_call_id) {
        Err(error) => record_action_rejected(context, error),
        Ok(proposal) => {
            let tool_name = proposal.tool_name.clone();
            let turn = begin_recording(
                context,
                AgentEventKind::ActionProposed {
                    model_call_id,
                    action_proposal_id: proposal_id,
                    tool_name,
                },
                preparation_step(),
                None,
            );
            PreparationTurn::Record(turn, PreparationStage::Proposing(proposal))
        },
    }
}

/// Whether preparing goes on like this, once an event of it is recorded, or could not be: a
/// proposal is validated, a validated action is handed out.
pub open spec fn continues_preparation(
    before: ContextView,
    registry: ToolRegistry,
    stage: PreparationStage,
    result: Result<(), HarnessError>,
    after: ContextView,
    turn: PreparationTurn,
) -> bool {
    match result {
        Err(error) => after == before && turn == PreparationTurn::Finished(
            Err(ActionPreparationError::Harness(error)),
        ),
        Ok(_) => match stage {
            PreparationStage::Stopping => after == before && turn == PreparationTurn::Finished(
                Err(
                    ActionPreparationError::Harness(
                        HarnessError::Context(RunContextError::RuntimeUnavailable),
                    ),
                ),
            ),
            PreparationStage::Rejecting(error) => after == before && turn
                == PreparationTurn::Finished(Err(ActionPreparationError::Validation(error))),
            PreparationStage::Validating(action) => after == before && turn
                == PreparationTurn::Finished(Ok(action)),
            PreparationStage::Proposing(proposal) => match proposal_fault(
                proposal.tool_name@,
                proposal.arguments.json(),
                registry@,
            ) {
                Some(reason) => {
                    let error = ActionValidationError {
                        proposal_id: proposal.id,
                        model_call_id: proposal.source_model_call_id,
                        reason,
                    };
                    turn matches PreparationTurn::Record(record, stage) && (after, record)
                        == recording(before, rejection(error), preparation_purpose(), None)
                        && stage == PreparationStage::Rejecting(error)
                },
                None => {
                    turn matches PreparationTurn::Record(
                        record,
                        PreparationStage::Validating(action),
                    ) && {
                        &&& action@ == (ActionView {
                            proposal_id: proposal.id,
                            tool_name: proposal.tool_name@,
                            arguments: proposal.arguments.json(),
                            capability: tool_named(
                                registry@,
                                proposal.tool_name@,
                            )->0.definition.capability,
                        })
                        &&& (after, record) == recording(
                            before,
                            AgentEventKind::ActionValidated { action_proposal_id: proposal.id },
                            preparation_purpose(),
                            None,
                        )
                    }
                },
            },
        },
    }
}

/// Takes the result of recording.
pub fn preparation_recorded(
    context: &mut RunContext,
    registry: &ToolRegistry,
    stage: PreparationStage,
    result: Result<(), HarnessError>,
) -> (r: PreparationTurn)
    ensures
        continues_preparation(old(context)@, *registry, stage, result, final(context)@, r),
{
    match result {
        Err(error) => {
            return PreparationTurn::Finished(Err(ActionPreparationError::Harness(error)));
        },
        Ok(()) => {},
    }
    match stage {
        PreparationStage::Stopping => PreparationTurn::Finished(
            Err(
                ActionPreparationError::Harness(
                    HarnessError::Context(RunContextError::RuntimeUnavailable),
                ),
            ),
        ),
        PreparationStage::Rejecting(error) => PreparationTurn::Finished(
            Err(ActionPreparationError::Validation(error)),
        ),
        PreparationStage::Validating(action) => PreparationTurn::Finished(Ok(action)),
        PreparationStage::Proposing(proposal) => {
            let action_proposal_id = proposal.id();
            match ActionValidator::validate(proposal, registry) {
                Err(error) => record_action_rejected(context, error),
                Ok(action) => {
                    let turn = begin_recording(
                        context,
                        AgentEventKind::ActionValidated { action_proposal_id },
                        preparation_step(),
                        None,
                    );
                    PreparationTurn::Record(turn, PreparationStage::Validating(action))
                },
            }
        },
    }
}

} // verus!
