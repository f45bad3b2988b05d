//! Invoking the model: a reservation, a recorded start, the call, a recorded end.

use vstd::prelude::*;

use crate::budget::BudgetDimension;
use crate::context::{ContextView, Observation, RunContext, RunContextError};
use crate::digest::Digest32;
use crate::error::{
    AuditPhase, ExecutionStage, HarnessError, HarnessOperation, ModelPortError, OperationEffect,
};
use crate::events::{AgentEventKind, TokenUsage};
use crate::ids::{KnowledgeRetrievalId, ModelCallId};
use crate::record::{
    begin_recording, closed_gate, exhaust, exhausted, preflight, recording, terminalize_safety,
    terminalized, AuditMode, Purpose, RecordPlan, RecordTurn, SafetyTerminalization,
};

verus! {

/// The retrieval whose evidence a model call is given.
#[derive(Clone, Copy, Debug)]
pub struct GroundingBinding {
    pub retrieval_id: KnowledgeRetrievalId,
    pub evidence_count: u8,
    pub manifest_digest: Digest32,
}

#[derive(Clone, Copy, Debug)]
pub enum ModelStage {
    /// The start is being recorded.
    Starting { model_call_id: ModelCallId, grounding: Option<GroundingBinding> },
    /// The binding to the evidence is being recorded.
    Binding { model_call_id: ModelCallId },
    /// The end is being recorded; then the error is reported, if there is one.
    Ending { error: Option<ModelPortError> },
}

#[derive(Debug)]
pub enum ModelTurn {
    Record(RecordTurn, ModelStage),
    /// Call the model, within the run's bounds.
    Invoke { model_call_id: ModelCallId },
    Finished(Result<(), HarnessError>),
}

/// What came of the call.
#[derive(Clone, Copy, Debug)]
pub enum ModelReply {
    Responded { token_usage: Option<TokenUsage> },
    Failed(ModelPortError),
    Cancelled,
    DeadlineExceeded,
}

pub type ModelStep = (ContextView, ModelTurn);

pub open spec fn before_invocation(operation: HarnessOperation, mode: AuditMode) -> Purpose {
    Purpose::Step(
        RecordPlan {
            operation,
            phase: AuditPhase::BeforeInvocation,
            effect: OperationEffect::NotInvoked,
            mode,
        },
    )
}

pub fn before_invocation_step(operation: HarnessOperation, mode: AuditMode) -> (r: Purpose)
    ensures
        r == before_invocation(operation, mode),
{
    Purpose::Step(
        RecordPlan {
            operation,
            phase: AuditPhase::BeforeInvocation,
            effect: OperationEffect::NotInvoked,
            mode,
        },
    )
}

pub open spec fn after_invocation(operation: HarnessOperation, mode: AuditMode) -> Purpose {
    Purpose::Step(
        RecordPlan {
            operation,
            phase: AuditPhase::AfterInvocation,
            effect: OperationEffect::InvocationStarted,
            mode,
        },
    )
}

pub fn after_invocation_step(operation: HarnessOperation, mode: AuditMode) -> (r: Purpose)
    ensures
        r == after_invocation(operation, mode),
{
    Purpose::Step(
        RecordPlan {
            operation,
            phase: AuditPhase::AfterInvocation,
            effect: OperationEffect::InvocationStarted,
            mode,
        },
    )
}

/// The binding is recorded as a change of state before anything is invoked.
pub open spec fn binding_purpose() -> Purpose {
    Purpose::Step(
        RecordPlan {
            operation: HarnessOperation::BindModelGrounding,
            phase: AuditPhase::Lifecycle,
            effect: OperationEffect::NotInvoked,
            mode: AuditMode::Configured,
        },
    )
}

/// A model call is reserved and its start recorded; without room the run ends.
pub open spec fn model_begun(
    context: ContextView,
    seen: Observation,
    model_call_id: ModelCallId,
    grounding: Option<GroundingBinding>,
) -> ModelStep {
    let (after, turn) = match closed_gate(context, HarnessOperation::InvokeModel, seen) {
        Some(turned) => turned,
        None => if context.has_room(BudgetDimension::ModelCalls) {
            let reserved = context.with_usage(context.reserved(BudgetDimension::ModelCalls));
            recording(
                reserved,
                AgentEventKind::ModelInvocationStarted {
                    model_call_id,
                    usage: reserved.usage.model_calls,
                    limit: context.budget.max_model_calls,
                },
                before_invocation(HarnessOperation::InvokeModel, AuditMode::Configured),
                None,
            )
        } else {
            exhausted(context, BudgetDimension::ModelCalls)
        },
    };
    (after, ModelTurn::Record(turn, ModelStage::Starting { model_call_id, grounding }))
}

pub fn begin_model_call(
    context: &mut RunContext,
    seen: Observation,
    model_call_id: ModelCallId,
    grounding: Option<GroundingBinding>,
) -> (r: ModelTurn)
    ensures
        (final(context)@, r) == model_begun(old(context)@, seen, model_call_id, grounding),
{
    let stage = ModelStage::Starting { model_call_id, grounding };
    match preflight(context, HarnessOperation::InvokeModel, seen) {
        Some(turn) => {
            return ModelTurn::Record(turn, stage);
        },
        None => {},
    }
    match context.reserve_model_call() {
        Err(error) => {
            let turn = exhaust(context, error);
            return ModelTurn::Record(turn, stage);
        },
        Ok(()) => {},
    }
    let usage = context.usage().model_calls;
    let limit = context.budget().max_model_calls;
    let turn = begin_recording(
        context,
        AgentEventKind::ModelInvocationStarted { model_call_id, usage, limit },
        before_invocation_step(HarnessOperation::InvokeModel, AuditMode::Configured),
        None,
    );
    ModelTurn::Record(turn, stage)
}

/// The model is called only while the run has its bounds.
pub open spec fn invoking(context: ContextView, model_call_id: ModelCallId) -> ModelStep {
    if context.deadline_at is None {
        (
            context,
            ModelTurn::Finished(Err(HarnessError::Context(RunContextError::RuntimeUnavailable))),
        )
    } else {
        (context, ModelTurn::Invoke { model_call_id })
    }
}

/// What follows once an event of the call is recorded, or could not be.
pub open spec fn model_settled(
    context: ContextView,
    stage: ModelStage,
    result: Result<(), HarnessError>,
) -> ModelStep {
    match result {
        Err(error) => (context, ModelTurn::Finished(Err(error))),
        Ok(_) => match stage {
            ModelStage::Starting { model_call_id, grounding: Some(grounding) } => {
                let (after, turn) = recording(
                    context,
                    AgentEventKind::ModelGroundingBound {
                        retrieval_id: grounding.retrieval_id,
                        model_call_id,
                        evidence_count: grounding.evidence_count,
                        manifest_digest: grounding.manifest_digest,
                    },
                    binding_purpose(),
                    None,
                );
                (after, ModelTurn::Record(turn, ModelStage::Binding { model_call_id }))
            },
            ModelStage::Starting { model_call_id, grounding: None } => invoking(
                context,
                model_call_id,
            ),
            ModelStage::Binding { model_call_id } => invoking(context, model_call_id),
            ModelStage::Ending { error: None } => (context, ModelTurn::Finished(Ok(()))),
            ModelStage::Ending { error: Some(error) } => (
                context,
                ModelTurn::Finished(Err(HarnessError::ModelPort(error))),
            ),
        },
    }
}

pub fn model_recorded(
    context: &mut RunContext,
    stage: ModelStage,
    result: Result<(), HarnessError>,
) -> (r: ModelTurn)
    ensures
        (final(context)@, r) == model_settled(old(context)@, stage, result),
{
    match result {
        Err(error) => {
            return ModelTurn::Finished(Err(error));
        },
        Ok(()) => {},
    }
    match stage {
        ModelStage::Starting { model_call_id, grounding } => match grounding {
            Some(grounding) => {
                let turn = begin_recording(
                    context,
                    AgentEventKind::ModelGroundingBound {
                        retrieval_id: grounding.retrieval_id,
                        model_call_id,
                        evidence_count: grounding.evidence_count,
                        manifest_digest: grounding.manifest_digest,
                    },
                    Purpose::Step(
                        RecordPlan {
                            operation: HarnessOperation::BindModelGrounding,
                            phase: AuditPhase::Lifecycle,
                            effect: OperationEffect::NotInvoked,
                            mode: AuditMode::Configured,
                        },
                    ),
                    None,
                );
                ModelTurn::Record(turn, ModelStage::Binding { model_call_id })
            },
            None => invoke(context, model_call_id),
        },
        ModelStage::Binding { model_call_id } => invoke(context, model_call_id),
        ModelStage::Ending { error } => match error {
            None => ModelTurn::Finished(Ok(())),
            Some(error) => ModelTurn::Finished(Err(HarnessError::ModelPort(error))),
        },
    }
}

fn invoke(context: &RunContext, model_call_id: ModelCallId) -> (r: ModelTurn)
    ensures
        (context@, r) == invoking(context@, model_call_id),
{
    match context.deadline_at() {
        Err(error) => ModelTurn::Finished(Err(HarnessError::Context(error))),
        Ok(_) => ModelTurn::Invoke { model_call_id },
    }
}

/// What follows the model's answer.
pub open spec fn model_answered(
    context: ContextView,
    model_call_id: ModelCallId,
    reply: ModelReply,
) -> ModelStep {
    let purpose = after_invocation(HarnessOperation::InvokeModel, AuditMode::Configured);
    let (turned, stage) = match reply {
        ModelReply::Responded { token_usage } => (
            recording(
                context,
                AgentEventKind::ModelInvocationCompleted { model_call_id, token_usage },
                purpose,
                None,
            ),
            ModelStage::Ending { error: None },
        ),
        ModelReply::Failed(error) => (
            recording(
                context,
                AgentEventKind::ModelInvocationFailed { model_call_id },
                purpose,
                None,
            ),
            ModelStage::Ending { error: Some(error) },
        ),
        ModelReply::Cancelled => (
            terminalized(
                context,
                SafetyTerminalization::Cancelled.outcome(),
                HarnessError::Cancelled { stage: ExecutionStage::Invocation },
            ),
            ModelStage::Ending { error: None },
        ),
        ModelReply::DeadlineExceeded => (
            terminalized(
                context,
                SafetyTerminalization::DeadlineExceeded.outcome(),
                HarnessError::DeadlineExceeded { stage: ExecutionStage::Invocation },
            ),
            ModelStage::Ending { error: None },
        ),
    };
    (turned.0, ModelTurn::Record(turned.1, stage))
}

pub fn model_replied(context: &mut RunContext, model_call_id: ModelCallId, reply: ModelReply) -> (r:
    ModelTurn)
    ensures
        (final(context)@, r) == model_answered(old(context)@, model_call_id, reply),
{
    let purpose = after_invocation_step(HarnessOperation::InvokeModel, AuditMode::Configured);
    match reply {
        ModelReply::Responded { token_usage } => {
            let turn = begin_recording(
                context,
                AgentEventKind::ModelInvocationCompleted { model_call_id, token_usage },
                purpose,
                None,
            );
            ModelTurn::Record(turn, ModelStage::Ending { error: None })
        },
        ModelReply::Failed(error) => {
            let turn = begin_recording(
                context,
                AgentEventKind::ModelInvocationFailed { model_call_id },
                purpose,
                None,
            );
            ModelTurn::Record(turn, ModelStage::Ending { error: Some(error) })
        },
        ModelReply::Cancelled => {
            let turn = terminalize_safety(
                context,
                SafetyTerminalization::Cancelled,
                HarnessError::Cancelled { stage: ExecutionStage::Invocation },
            );
            ModelTurn::Record(turn, ModelStage::Ending { error: None })
        },
        ModelReply::DeadlineExceeded => {
            let turn = terminalize_safety(
                context,
                SafetyTerminalization::DeadlineExceeded,
                HarnessError::DeadlineExceeded { stage: ExecutionStage::Invocation },
            );
            ModelTurn::Record(turn, ModelStage::Ending { error: None })
        },
    }
}

/// The binding of a model request to the retrieval whose evidence it was rendered from. It holds
/// only where digest and count are those of that evidence.
pub fn bind_grounding(
    retrieval_id: KnowledgeRetrievalId,
    retrieved_digest: Digest32,
    retrieved_count: usize,
    request_digest: Digest32,
    request_count: u8,
) -> (r: Result<GroundingBinding, HarnessError>)
    ensures
        r == (if request_digest == retrieved_digest && request_count == (if retrieved_count
            <= u8::MAX {
            retrieved_count as int
        } else {
            u8::MAX as int
        }) {
            Ok::<GroundingBinding, HarnessError>(
                (GroundingBinding {
                    retrieval_id,
                    evidence_count: request_count,
                    manifest_digest: request_digest,
                }),
            )
        } else {
            Err(HarnessError::GroundingMismatch)
        }),
{
    let count: u8 = if retrieved_count <= u8::MAX as usize {
        retrieved_count as u8
    } else {
        u8::MAX
    };
    if request_digest != retrieved_digest || request_count != count {
        return Err(HarnessError::GroundingMismatch);
    }
    Ok(
        GroundingBinding {
            retrieval_id,
            evidence_count: request_count,
            manifest_digest: request_digest,
        },
    )
}

} // verus!
