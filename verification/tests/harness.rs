use agent_runtime::action::{ActionPreparationError, ValidatedAction};
use agent_runtime::approval::{ApprovalDecision, ApprovalPreview, ApprovalPreviewError};
use agent_runtime::audit::{AuditFailurePolicy, HarnessConfig, HarnessConfigError};
use agent_runtime::budget::{BudgetDimension, RunBudget, TimeSpan};
use agent_runtime::context::{MonotonicTime, Observation, RunContext};
use agent_runtime::digest::Digest32;
use agent_runtime::error::{
    ApprovalPortError, AuditPhase, AuditPortError, ContainmentPortError, ExecutionStage,
    HarnessError, HarnessOperation, ModelPortError, OperationEffect, PolicyDenial,
    PolicyDenialReason, ToolPortError,
};
use agent_runtime::events::{
    ActionRejectionReason, AgentEvent, AgentEventKind, CapabilityKind, ContainmentFailureKind,
    LoopEventKind, LoopProgressEvent, ToolDomainFailureKind,
};
use agent_runtime::governed::{
    begin_action, begin_plain_call, decision_answered, governed_call, governed_recorded,
    governed_replied, ground, policy_answered, preview_answered, DecisionReply, GovernedTurn,
};
use agent_runtime::ids::{
    ActionProposalId, ApprovalRequestId, ModelCallId, RunId, SessionId, ToolCallId, ToolName,
};
use agent_runtime::model::{CompletedModelInvocation, ModelOutputPart, ModelResponse};
use agent_runtime::model_call::{
    begin_model_call, bind_grounding, model_recorded, model_replied, GroundingBinding, ModelReply,
    ModelTurn,
};
use agent_runtime::operations::{
    begin_iteration, cancel_run, checkpoint, complete_run, fail_run, record_loop_progress,
};
use agent_runtime::persistence::PersistencePortError;
use agent_runtime::policy::{
    AuthorizationDecision, CapabilityPolicy, M0ReadOnlyPolicy, M6ApprovalPolicy,
};
use agent_runtime::preparation::{begin_preparation, preparation_recorded, PreparationTurn};
use agent_runtime::record::{
    append_request, on_appended, on_audited, on_encoded, AuditOutcome, RecordTurn, Settings,
};
use agent_runtime::start::{begin_start, run_created, start_recorded, StartClock, StartTurn};
use agent_runtime::status::{LoopPhase, RunFailureKind, RunOutcome, RunStatus};
use agent_runtime::tool_call::{Interruption, ToolOutcome, ToolReply};
use agent_runtime::tools::{ExecutionKind, ToolDefinition, ToolRegistry, ToolSchema};

/// A scripted world around the decisions: its clock, its store, its audit sink, its ports.
struct World {
    settings: Settings,
    now: u128,
    cancelled: bool,
    failing_audits: Vec<usize>,
    audits: usize,
    rejects_starts: bool,
    recorded: Vec<AgentEvent>,
    appended: Vec<AgentEvent>,
    trail: Vec<&'static str>,
    ids: u128,
}

impl World {
    fn new(policy: AuditFailurePolicy) -> World {
        World {
            settings: Settings {
                audit_failure_policy: policy,
                durable: false,
            },
            now: 0,
            cancelled: false,
            failing_audits: Vec::new(),
            audits: 0,
            rejects_starts: false,
            recorded: Vec::new(),
            appended: Vec::new(),
            trail: Vec::new(),
            ids: 100,
        }
    }

    fn closed() -> World {
        World::new(AuditFailurePolicy::FailClosed)
    }

    fn failing_on(policy: AuditFailurePolicy, attempt: usize) -> World {
        let mut world = World::new(policy);
        world.failing_audits.push(attempt);
        world
    }

    fn seen(&self) -> Observation {
        Observation {
            cancelled: self.cancelled,
            now: MonotonicTime { nanos: self.now },
        }
    }

    fn id(&mut self) -> u128 {
        self.ids += 1;
        self.ids
    }

    fn advance_secs(&mut self, secs: u128) {
        self.now += secs * 1_000_000_000;
    }

    fn store(&mut self, event: &AgentEvent) -> Result<(), PersistencePortError> {
        if self.rejects_starts
            && matches!(event.kind, AgentEventKind::ModelInvocationStarted { .. })
        {
            return Err(PersistencePortError::Unavailable);
        }
        self.appended.push(event.clone());
        Ok(())
    }

    fn record(&mut self, context: &mut RunContext, turn: RecordTurn) -> Result<(), HarnessError> {
        let settings = self.settings;
        let mut turn = turn;
        loop {
            turn = match turn {
                RecordTurn::Encode(recording) => {
                    let encoding = Some(format!("{:?}", recording.event).into_bytes());
                    on_encoded(context, settings, recording, &encoding)
                }
                RecordTurn::Append(recording) => {
                    let request = append_request(context, &recording);
                    assert_eq!(
                        request.expected_sequence.map(|sequence| sequence.0 + 1),
                        recording.event.sequence.0.checked_sub(1).map(|last| last + 1)
                    );
                    let result = self.store(&recording.event);
                    on_appended(context, settings, recording, result)
                }
                RecordTurn::Store(recording) => {
                    let result = self.store(&recording.event);
                    on_appended(context, settings, recording, result)
                }
                RecordTurn::Audit(recording) => {
                    self.audits += 1;
                    let outcome = if self.failing_audits.contains(&self.audits) {
                        AuditOutcome::Failed(AuditPortError::RecordFailed)
                    } else {
                        self.trail.push("audit");
                        self.recorded.push(recording.event.clone());
                        AuditOutcome::Recorded
                    };
                    on_audited(context, settings, recording, outcome)
                }
                RecordTurn::Finished(result) => return result,
            };
        }
    }

    fn start(&mut self, context: &mut RunContext) -> Result<(), HarnessError> {
        let clock = StartClock {
            now: MonotonicTime { nanos: self.now },
            unix_millis: Some(1_000),
        };
        let mut turn = begin_start(context, self.settings, clock);
        loop {
            turn = match turn {
                StartTurn::CreateRun => run_created(context, Ok(()), clock),
                StartTurn::Record(record, stage) => {
                    let result = self.record(context, record);
                    start_recorded(context, self.settings, stage, result)
                }
                StartTurn::Finished(result) => return result,
            };
        }
    }

    fn model(
        &mut self,
        context: &mut RunContext,
        grounding: Option<GroundingBinding>,
        reply: ModelReply,
    ) -> Result<ModelCallId, HarnessError> {
        let call = ModelCallId(self.id());
        let mut turn = begin_model_call(context, self.seen(), call, grounding);
        loop {
            turn = match turn {
                ModelTurn::Record(record, stage) => {
                    let result = self.record(context, record);
                    model_recorded(context, stage, result)
                }
                ModelTurn::Invoke { model_call_id } => {
                    assert_eq!(model_call_id, call);
                    self.trail.push("model");
                    model_replied(context, model_call_id, reply)
                }
                ModelTurn::Finished(result) => return result.map(|()| call),
            };
        }
    }

    fn prepare(
        &mut self,
        context: &mut RunContext,
        registry: &ToolRegistry,
        output: &str,
    ) -> Result<ValidatedAction, ActionPreparationError> {
        let call = self
            .model(context, None, responded())
            .unwrap_or_else(|error| panic!("model invocation must succeed: {error:?}"));
        let invocation = CompletedModelInvocation::new(
            call,
            ModelResponse::new(vec![ModelOutputPart::Text(output.to_owned())], None),
        );
        let proposal_id = ActionProposalId(self.id());
        let mut turn = begin_preparation(context, self.seen(), invocation, proposal_id);
        loop {
            turn = match turn {
                PreparationTurn::Record(record, stage) => {
                    let result = self.record(context, record);
                    preparation_recorded(context, registry, stage, result)
                }
                PreparationTurn::Finished(result) => return result,
            };
        }
    }

    fn prepared(
        &mut self,
        context: &mut RunContext,
        registry: &ToolRegistry,
        tool: &str,
    ) -> ValidatedAction {
        let output = format!("{{\"action\":{{\"tool\":\"{tool}\",\"arguments\":{{}}}}}}");
        match self.prepare(context, registry, &output) {
            Ok(action) => action,
            Err(_) => panic!("action must prepare"),
        }
    }

    fn governed<P: CapabilityPolicy>(
        &mut self,
        context: &mut RunContext,
        turn: GovernedTurn,
        policy: &P,
        ports: Ports,
    ) -> Result<(), HarnessError> {
        let mut turn = turn;
        loop {
            turn = match turn {
                GovernedTurn::Record(record, stage) => {
                    let result = self.record(context, record);
                    governed_recorded(context, self.seen(), stage, result)
                }
                GovernedTurn::Authorize(asked) => {
                    self.trail.push("policy");
                    let decision = asked.ask(policy);
                    policy_answered(context, asked, decision)
                }
                GovernedTurn::Preview(call) => {
                    self.trail.push("preview");
                    let request_id = ApprovalRequestId(self.id());
                    let approver = !matches!(ports.approval, Approval::Missing);
                    preview_answered(
                        context,
                        self.seen(),
                        call,
                        request_id,
                        approver,
                        ports.preview,
                    )
                }
                GovernedTurn::Decide { call, request_id } => {
                    self.trail.push("approval");
                    let reply = match ports.approval {
                        Approval::Missing => panic!("nobody can be asked"),
                        Approval::Grants => DecisionReply::Decided(ApprovalDecision::approved(
                            request_id,
                            call.action_digest,
                        )),
                        Approval::Denies => DecisionReply::Decided(ApprovalDecision::denied(
                            request_id,
                            call.action_digest,
                        )),
                        Approval::AnotherRequest => DecisionReply::Decided(
                            ApprovalDecision::approved(ApprovalRequestId(1), call.action_digest),
                        ),
                        Approval::AnotherAction => DecisionReply::Decided(
                            ApprovalDecision::approved(
                                request_id,
                                Digest32::from_bytes([7; 32]),
                            ),
                        ),
                        Approval::Fails(error) => DecisionReply::Failed(error),
                        Approval::Interrupted(by) => DecisionReply::Interrupted(by),
                    };
                    decision_answered(context, self.seen(), call, request_id, reply)
                }
                GovernedTurn::Invoke {
                    tool_call_id,
                    mode,
                    execution,
                } => {
                    self.trail.push("tool");
                    let reply = match ports.tool {
                        Tool::Succeeds => ToolReply::Answered {
                            call_id: tool_call_id,
                            outcome: ToolOutcome::Succeeded,
                        },
                        Tool::DomainFails(kind) => ToolReply::Answered {
                            call_id: tool_call_id,
                            outcome: ToolOutcome::DomainFailure(kind),
                        },
                        Tool::AnotherCall => ToolReply::Answered {
                            call_id: ToolCallId(1),
                            outcome: ToolOutcome::Succeeded,
                        },
                        Tool::Fails(error) => ToolReply::ToolFailed(error),
                        Tool::Uncontained(error) => ToolReply::ContainmentFailed(error),
                        Tool::Interrupted(by) => ToolReply::Interrupted(by),
                    };
                    governed_replied(context, tool_call_id, mode, execution, reply)
                }
                GovernedTurn::Finished(result) => return result,
            };
        }
    }

    fn act<P: CapabilityPolicy>(
        &mut self,
        context: &mut RunContext,
        registry: &ToolRegistry,
        policy: &P,
        action: &ValidatedAction,
        ports: Ports,
    ) -> Result<(), HarnessError> {
        let call = governed_call(action, ToolCallId(self.id()));
        let registered = ground(registry, action.tool_name());
        let turn = begin_action(context, self.seen(), call, registered);
        self.governed(context, turn, policy, ports)
    }

    fn plain<P: CapabilityPolicy>(
        &mut self,
        context: &mut RunContext,
        registry: &ToolRegistry,
        policy: &P,
        tool: &str,
        call_id: ToolCallId,
        ports: Ports,
    ) -> Result<(), HarnessError> {
        let registered = ground(registry, &name(tool));
        let turn = begin_plain_call(context, self.seen(), call_id, name(tool), registered);
        self.governed(context, turn, policy, ports)
    }

    fn count(&self, what: &str) -> usize {
        self.trail.iter().filter(|entry| **entry == what).count()
    }

    fn sequences(&self) -> Vec<u64> {
        self.recorded.iter().map(|event| event.sequence.0).collect()
    }
}

#[derive(Clone, Copy)]
enum Approval {
    Missing,
    Grants,
    Denies,
    AnotherRequest,
    AnotherAction,
    Fails(ApprovalPortError),
    Interrupted(Interruption),
}

#[derive(Clone, Copy)]
enum Tool {
    Succeeds,
    DomainFails(ToolDomainFailureKind),
    AnotherCall,
    Fails(ToolPortError),
    Uncontained(ContainmentPortError),
    Interrupted(Interruption),
}

#[derive(Clone, Copy)]
struct Ports {
    preview: Result<(), ContainmentPortError>,
    approval: Approval,
    tool: Tool,
}

const GRANTING: Ports = Ports {
    preview: Ok(()),
    approval: Approval::Grants,
    tool: Tool::Succeeds,
};

const UNASKED: Ports = Ports {
    preview: Ok(()),
    approval: Approval::Missing,
    tool: Tool::Succeeds,
};

fn responded() -> ModelReply {
    ModelReply::Responded { token_usage: None }
}

fn name(text: &str) -> ToolName {
    ToolName::new(text.to_owned()).expect("tool name must be valid")
}

fn definition(tool: &str, capability: CapabilityKind) -> ToolDefinition {
    let schema = match ToolSchema::new(
        serde_json::from_str(r#"{"type": "object"}"#).expect("the literal is JSON"),
    ) {
        Ok(schema) => schema,
        Err(_) => panic!("test schema must be valid"),
    };
    match ToolDefinition::new(name(tool), "test tool".to_owned(), capability, schema) {
        Ok(definition) => definition,
        Err(_) => panic!("test definition must be valid"),
    }
}

fn registry(tools: &[(&str, CapabilityKind, ExecutionKind)]) -> ToolRegistry {
    let mut registry = ToolRegistry::new();
    for (tool, capability, execution) in tools {
        if registry
            .register(definition(tool, *capability), *execution)
            .is_err()
        {
            panic!("test tool must register");
        }
    }
    registry
}

fn write_note() -> ToolRegistry {
    registry(&[(
        "write_note",
        CapabilityKind::LocalWrite,
        ExecutionKind::Contained,
    )])
}

fn context(models: u32, tools: u32, secs: u64) -> RunContext {
    approving(models, tools, 0, secs)
}

fn approving(models: u32, tools: u32, approvals: u32, secs: u64) -> RunContext {
    RunContext::new(
        RunId(1),
        SessionId(2),
        RunBudget::new(models, tools, 1, TimeSpan::from_secs(secs))
            .expect("test budget must be valid")
            .with_max_approval_requests(approvals),
    )
}

fn iterating(iterations: u32, secs: u64) -> RunContext {
    RunContext::new(
        RunId(1),
        SessionId(2),
        RunBudget::new(1, 1, iterations, TimeSpan::from_secs(secs))
            .expect("test budget must be valid"),
    )
}

fn error_of<T>(result: Result<T, HarnessError>) -> HarnessError {
    match result {
        Ok(_) => panic!("the operation must fail"),
        Err(error) => error,
    }
}

fn exceeded(dimension: BudgetDimension) -> RunStatus {
    RunStatus::Finished(RunOutcome::BudgetExceeded { dimension })
}

fn started(world: &mut World, context: &mut RunContext) {
    if let Err(error) = world.start(context) {
        panic!("run must start: {error:?}");
    }
}

#[test]
fn durable_effect_start_failure_invokes_no_external_port() {
    let mut world = World::closed();
    world.settings.durable = true;
    world.rejects_starts = true;
    let mut run = context(1, 0, 30);
    started(&mut world, &mut run);

    assert!(matches!(
        world.model(&mut run, None, responded()),
        Err(HarnessError::Persistence(PersistencePortError::Unavailable))
    ));
    assert_eq!(world.count("model"), 0);
    assert!(run.persistence_failed());
    let turn = checkpoint(&mut run, world.seen());
    assert!(matches!(
        world.record(&mut run, turn),
        Err(HarnessError::Persistence(PersistencePortError::Failed))
    ));
}

#[test]
fn model_budget_is_reserved_and_audited_before_invocation() {
    let mut world = World::closed();
    let mut run = context(1, 0, 30);
    started(&mut world, &mut run);
    assert!(world.model(&mut run, None, responded()).is_ok());

    assert_eq!(run.usage().model_calls, 1);
    assert_eq!(world.trail, vec!["audit", "audit", "model", "audit"]);
    assert!(matches!(
        world.recorded[1].kind,
        AgentEventKind::ModelInvocationStarted { usage: 1, .. }
    ));
}

#[test]
fn zero_model_budget_never_invokes_model_port() {
    let mut world = World::closed();
    let mut run = context(0, 0, 30);
    started(&mut world, &mut run);

    let error = error_of(world.model(&mut run, None, responded()));
    assert_eq!(error.budget_dimension(), Some(BudgetDimension::ModelCalls));
    assert_eq!(world.count("model"), 0);
    assert_eq!(run.status(), exceeded(BudgetDimension::ModelCalls));
    assert!(matches!(
        world.model(&mut run, None, responded()),
        Err(HarnessError::InvalidLifecycle { .. })
    ));
}

#[test]
fn exhausted_model_budget_terminalizes_and_prevents_later_operations() {
    let mut world = World::closed();
    let mut run = context(1, 0, 30);
    started(&mut world, &mut run);
    assert!(world.model(&mut run, None, responded()).is_ok());

    let error = error_of(world.model(&mut run, None, responded()));
    assert_eq!(error.budget_dimension(), Some(BudgetDimension::ModelCalls));
    assert_eq!(world.count("model"), 1);
    assert_eq!(run.status(), exceeded(BudgetDimension::ModelCalls));
    let turn = complete_run(&mut run, world.seen());
    assert!(matches!(
        world.record(&mut run, turn),
        Err(HarnessError::InvalidLifecycle { .. })
    ));
}

#[test]
fn read_only_tool_executes_and_uses_correlated_call_id() {
    let tools = registry(&[("lookup", CapabilityKind::ReadOnly, ExecutionKind::Direct)]);
    let mut world = World::closed();
    let mut run = context(0, 1, 30);
    started(&mut world, &mut run);
    let call_id = ToolCallId(77);

    assert!(world
        .plain(&mut run, &tools, &M0ReadOnlyPolicy, "lookup", call_id, UNASKED)
        .is_ok());

    assert_eq!(world.count("tool"), 1);
    assert_eq!(run.usage().tool_calls, 1);
    let tool_ids: Vec<_> = world
        .recorded
        .iter()
        .filter_map(|event| match event.kind {
            AgentEventKind::ToolInvocationStarted { tool_call_id, .. }
            | AgentEventKind::ToolInvocationCompleted { tool_call_id } => Some(tool_call_id),
            _ => None,
        })
        .collect();
    assert_eq!(tool_ids, vec![call_id, call_id]);
}

#[test]
fn denied_local_write_is_not_invoked_and_consumes_no_tool_budget() {
    let tools = registry(&[("write", CapabilityKind::LocalWrite, ExecutionKind::Direct)]);
    let mut world = World::closed();
    let mut run = context(0, 1, 30);
    started(&mut world, &mut run);

    let error = error_of(world.plain(
        &mut run,
        &tools,
        &M0ReadOnlyPolicy,
        "write",
        ToolCallId(7),
        UNASKED,
    ));

    assert!(matches!(error, HarnessError::PolicyDenied(_)));
    assert_eq!(world.count("tool"), 0);
    assert_eq!(run.usage().tool_calls, 0);
    assert_eq!(run.status(), RunStatus::Running);
}

#[test]
fn contained_read_only_executes_without_approval_or_approval_budget() {
    let tools = registry(&[("lookup", CapabilityKind::ReadOnly, ExecutionKind::Contained)]);
    let mut world = World::closed();
    let mut run = approving(0, 1, 0, 30);
    started(&mut world, &mut run);

    assert!(world
        .plain(
            &mut run,
            &tools,
            &M6ApprovalPolicy,
            "lookup",
            ToolCallId(7),
            UNASKED
        )
        .is_ok());

    assert_eq!(world.count("tool"), 1);
    assert_eq!(world.count("preview"), 0);
    assert_eq!(run.usage().tool_calls, 1);
    assert_eq!(run.usage().approval_requests, 0);
}

#[test]
fn execution_tests_direct_local_write_cannot_request_approval_or_execute() {
    let tools = registry(&[(
        "write_note",
        CapabilityKind::LocalWrite,
        ExecutionKind::Direct,
    )]);
    let mut world = World::closed();
    let mut run = approving(1, 1, 1, 30);
    started(&mut world, &mut run);
    let action = world.prepared(&mut run, &tools, "write_note");

    let error = error_of(world.act(&mut run, &tools, &M6ApprovalPolicy, &action, GRANTING));

    assert!(matches!(error, HarnessError::ContainmentUnavailable { .. }));
    assert_eq!(world.count("approval"), 0);
    assert_eq!(world.count("tool"), 0);
    assert_eq!(run.usage().approval_requests, 0);
    assert_eq!(run.usage().tool_calls, 0);
}

#[test]
fn contained_local_write_approval_grant_executes_once() {
    let tools = write_note();
    let mut world = World::closed();
    let mut run = approving(1, 1, 1, 30);
    started(&mut world, &mut run);
    let action = world.prepared(&mut run, &tools, "write_note");

    assert!(world
        .act(&mut run, &tools, &M6ApprovalPolicy, &action, GRANTING)
        .is_ok());

    assert_eq!(world.count("approval"), 1);
    assert_eq!(world.count("preview"), 1);
    assert_eq!(world.count("tool"), 1);
    assert_eq!(run.usage().approval_requests, 1);
    assert_eq!(run.usage().tool_calls, 1);
    let event_kinds: Vec<_> = world
        .recorded
        .iter()
        .filter_map(|event| match event.kind {
            AgentEventKind::ApprovalRequested { .. } => Some("approval_requested"),
            AgentEventKind::ApprovalGranted { .. } => Some("approval_granted"),
            AgentEventKind::ToolInvocationStarted { .. } => Some("tool_started"),
            AgentEventKind::ToolInvocationCompleted { .. } => Some("tool_completed"),
            _ => None,
        })
        .collect();
    assert_eq!(
        event_kinds,
        vec![
            "approval_requested",
            "approval_granted",
            "tool_started",
            "tool_completed"
        ]
    );
}

#[test]
fn execution_tests_approval_denial_consumes_approval_budget_but_zero_tool_calls() {
    let tools = write_note();
    let mut world = World::closed();
    let mut run = approving(1, 1, 1, 30);
    started(&mut world, &mut run);
    let action = world.prepared(&mut run, &tools, "write_note");

    let ports = Ports {
        approval: Approval::Denies,
        ..GRANTING
    };
    let error = error_of(world.act(&mut run, &tools, &M6ApprovalPolicy, &action, ports));

    assert!(matches!(error, HarnessError::ApprovalDenied));
    assert_eq!(world.count("approval"), 1);
    assert_eq!(world.count("tool"), 0);
    assert_eq!(run.usage().approval_requests, 1);
    assert_eq!(run.usage().tool_calls, 0);
}

#[test]
fn execution_tests_zero_approval_budget_terminalizes_before_approval_port() {
    let tools = write_note();
    let mut world = World::closed();
    let mut run = approving(1, 1, 0, 30);
    started(&mut world, &mut run);
    let action = world.prepared(&mut run, &tools, "write_note");

    let error = error_of(world.act(&mut run, &tools, &M6ApprovalPolicy, &action, GRANTING));

    assert_eq!(
        error.budget_dimension(),
        Some(BudgetDimension::ApprovalRequests)
    );
    assert_eq!(world.count("approval"), 0);
    assert_eq!(world.count("tool"), 0);
    assert_eq!(run.status(), exceeded(BudgetDimension::ApprovalRequests));
}

struct AlwaysAllowPolicy;

impl CapabilityPolicy for AlwaysAllowPolicy {
    fn authorize(&self, _capability: CapabilityKind) -> AuthorizationDecision {
        AuthorizationDecision::Allowed
    }
}

struct AlwaysDenyPolicy;

impl CapabilityPolicy for AlwaysDenyPolicy {
    fn authorize(&self, capability: CapabilityKind) -> AuthorizationDecision {
        AuthorizationDecision::Denied(PolicyDenial::new(
            capability,
            PolicyDenialReason::CapabilityNotExecutableInM6,
        ))
    }
}

#[test]
fn validated_read_only_action_still_obeys_capability_policy() {
    let tools = registry(&[("lookup", CapabilityKind::ReadOnly, ExecutionKind::Direct)]);
    let mut world = World::closed();
    let mut run = approving(1, 1, 0, 30);
    started(&mut world, &mut run);
    let action = world.prepared(&mut run, &tools, "lookup");

    let error = error_of(world.act(&mut run, &tools, &AlwaysDenyPolicy, &action, UNASKED));

    assert!(matches!(error, HarnessError::PolicyDenied(_)));
    assert_eq!(world.count("tool"), 0);
    assert_eq!(run.usage().tool_calls, 0);
    assert_eq!(run.usage().approval_requests, 0);
}

#[test]
fn faulty_allowed_local_write_cannot_bypass_approval_requirement() {
    let tools = write_note();
    let mut world = World::closed();
    let mut run = approving(1, 1, 1, 30);
    started(&mut world, &mut run);
    let action = world.prepared(&mut run, &tools, "write_note");

    let error = error_of(world.act(&mut run, &tools, &AlwaysAllowPolicy, &action, GRANTING));

    assert!(matches!(error, HarnessError::ApprovalRequired));
    assert_eq!(world.count("approval"), 0);
    assert_eq!(world.count("tool"), 0);
    assert_eq!(run.usage().approval_requests, 0);
    assert_eq!(run.usage().tool_calls, 0);
}

#[test]
fn faulty_allowed_external_write_and_privileged_cannot_execute() {
    for capability in [CapabilityKind::ExternalWrite, CapabilityKind::Privileged] {
        let tools = registry(&[("danger", capability, ExecutionKind::Direct)]);
        let mut world = World::closed();
        let mut run = approving(1, 1, 1, 30);
        started(&mut world, &mut run);
        let action = world.prepared(&mut run, &tools, "danger");

        let error = error_of(world.act(&mut run, &tools, &AlwaysAllowPolicy, &action, GRANTING));

        assert!(matches!(
            error,
            HarnessError::CapabilityNotExecutable { capability: denied } if denied == capability
        ));
        assert_eq!(world.count("tool"), 0);
        assert_eq!(run.usage().approval_requests, 0);
        assert_eq!(run.usage().tool_calls, 0);
    }
}

#[test]
fn degraded_audit_from_action_preparation_blocks_local_write() {
    let tools = write_note();
    let mut world = World::failing_on(AuditFailurePolicy::FailOpen, 4);
    let mut run = approving(1, 1, 1, 30);
    started(&mut world, &mut run);
    let action = world.prepared(&mut run, &tools, "write_note");
    assert!(run.audit_degraded());

    let error = error_of(world.act(&mut run, &tools, &M6ApprovalPolicy, &action, GRANTING));

    assert!(matches!(error, HarnessError::AuditDegraded));
    assert_eq!(world.count("approval"), 0);
    assert_eq!(world.count("preview"), 0);
    assert_eq!(world.count("tool"), 0);
    assert_eq!(run.usage().approval_requests, 0);
    assert_eq!(run.usage().tool_calls, 0);
}

#[test]
fn missing_or_failing_approval_port_never_starts_tool_execution() {
    for approval in [
        Approval::Missing,
        Approval::Fails(ApprovalPortError::Failed),
    ] {
        let tools = write_note();
        let mut world = World::closed();
        let mut run = approving(1, 1, 1, 30);
        started(&mut world, &mut run);
        let action = world.prepared(&mut run, &tools, "write_note");

        let ports = Ports {
            approval,
            ..GRANTING
        };
        let error = error_of(world.act(&mut run, &tools, &M6ApprovalPolicy, &action, ports));

        match approval {
            Approval::Missing => {
                assert!(matches!(error, HarnessError::ApprovalPortMissing));
                assert_eq!(run.usage().approval_requests, 0);
            }
            _ => {
                assert!(matches!(
                    error,
                    HarnessError::ApprovalPort(ApprovalPortError::Failed)
                ));
                assert_eq!(run.usage().approval_requests, 1);
            }
        }
        assert_eq!(world.count("tool"), 0);
        assert_eq!(run.usage().tool_calls, 0);
    }
}

#[test]
fn preview_failures_preserve_category_and_consume_no_execution_budget() {
    for (error, expected_kind) in [
        (
            ContainmentPortError::Unavailable,
            ContainmentFailureKind::Unavailable,
        ),
        (
            ContainmentPortError::PreviewRejected,
            ContainmentFailureKind::PreviewRejected,
        ),
        (
            ContainmentPortError::Infrastructure,
            ContainmentFailureKind::Infrastructure,
        ),
    ] {
        let tools = write_note();
        let mut world = World::closed();
        let mut run = approving(1, 1, 1, 30);
        started(&mut world, &mut run);
        let action = world.prepared(&mut run, &tools, "write_note");

        let ports = Ports {
            preview: Err(error),
            ..GRANTING
        };
        let actual = error_of(world.act(&mut run, &tools, &M6ApprovalPolicy, &action, ports));

        assert!(matches!(actual, HarnessError::ContainmentPort(actual) if actual == error));
        assert_eq!(world.count("approval"), 0);
        assert_eq!(world.count("tool"), 0);
        assert_eq!(run.usage().approval_requests, 0);
        assert_eq!(run.usage().tool_calls, 0);
        assert!(world.recorded.iter().any(|event| matches!(
            event.kind,
            AgentEventKind::ContainmentFailed { kind, .. } if kind == expected_kind
        )));
    }
}

fn write_with_failing_audit(attempt: usize) -> (World, RunContext, HarnessError) {
    let tools = write_note();
    let mut world = World::failing_on(AuditFailurePolicy::FailOpen, attempt);
    let mut run = approving(1, 1, 1, 30);
    started(&mut world, &mut run);
    let action = world.prepared(&mut run, &tools, "write_note");
    let error = error_of(world.act(&mut run, &tools, &M6ApprovalPolicy, &action, GRANTING));
    (world, run, error)
}

#[test]
fn approval_requested_audit_failure_consumes_approval_slot_but_invokes_no_port() {
    let (world, run, error) = write_with_failing_audit(7);
    assert!(matches!(error, HarnessError::Audit { .. }));
    assert_eq!(run.usage().approval_requests, 1);
    assert_eq!(world.count("approval"), 0);
    assert_eq!(world.count("tool"), 0);
    assert_eq!(run.usage().tool_calls, 0);
}

#[test]
fn approval_granted_audit_failure_prevents_tool_reservation() {
    let (world, run, error) = write_with_failing_audit(8);
    assert!(matches!(error, HarnessError::Audit { .. }));
    assert_eq!(world.count("approval"), 1);
    assert_eq!(run.usage().approval_requests, 1);
    assert_eq!(run.usage().tool_calls, 0);
    assert_eq!(world.count("tool"), 0);
}

#[test]
fn tool_invocation_started_audit_failure_reserves_tool_but_never_invokes_executor() {
    let (world, run, error) = write_with_failing_audit(9);
    assert!(matches!(error, HarnessError::Audit { .. }));
    assert_eq!(run.usage().approval_requests, 1);
    assert_eq!(run.usage().tool_calls, 1);
    assert_eq!(world.count("tool"), 0);
}

#[test]
fn approval_decision_must_match_request_id_and_digest() {
    for approval in [Approval::AnotherRequest, Approval::AnotherAction] {
        let tools = write_note();
        let mut world = World::closed();
        let mut run = approving(1, 1, 1, 30);
        started(&mut world, &mut run);
        let action = world.prepared(&mut run, &tools, "write_note");

        let ports = Ports {
            approval,
            ..GRANTING
        };
        let error = error_of(world.act(&mut run, &tools, &M6ApprovalPolicy, &action, ports));

        assert!(matches!(error, HarnessError::ApprovalDecisionMismatch));
        assert_eq!(run.usage().approval_requests, 1);
        assert_eq!(run.usage().tool_calls, 0);
        assert_eq!(world.count("tool"), 0);
    }
}

#[test]
fn pending_approval_observes_cancellation_before_execution() {
    let tools = write_note();
    let mut world = World::closed();
    let mut run = approving(1, 1, 1, 30);
    started(&mut world, &mut run);
    let action = world.prepared(&mut run, &tools, "write_note");

    let ports = Ports {
        approval: Approval::Interrupted(Interruption::Cancelled),
        ..GRANTING
    };
    let error = error_of(world.act(&mut run, &tools, &M6ApprovalPolicy, &action, ports));

    assert!(matches!(
        error,
        HarnessError::Cancelled {
            stage: ExecutionStage::Invocation
        }
    ));
    assert_eq!(run.status(), RunStatus::Finished(RunOutcome::Cancelled));
    assert_eq!(world.count("approval"), 1);
    assert_eq!(world.count("tool"), 0);
}

#[test]
fn pending_approval_observes_deadline_before_execution() {
    let tools = write_note();
    let mut world = World::closed();
    let mut run = approving(1, 1, 1, 1);
    started(&mut world, &mut run);
    let action = world.prepared(&mut run, &tools, "write_note");

    let ports = Ports {
        approval: Approval::Interrupted(Interruption::DeadlineExceeded),
        ..GRANTING
    };
    let error = error_of(world.act(&mut run, &tools, &M6ApprovalPolicy, &action, ports));

    assert!(matches!(
        error,
        HarnessError::DeadlineExceeded {
            stage: ExecutionStage::Invocation
        }
    ));
    assert_eq!(run.status(), exceeded(BudgetDimension::Elapsed));
    assert_eq!(world.count("approval"), 1);
    assert_eq!(world.count("tool"), 0);
}

fn assert_started_tool_has_terminal_event(events: &[AgentEvent]) {
    let started = events
        .iter()
        .find_map(|event| match event.kind {
            AgentEventKind::ToolInvocationStarted { tool_call_id, .. } => Some(tool_call_id),
            _ => None,
        })
        .expect("contained execution must emit ToolInvocationStarted");
    assert!(events.iter().any(|event| matches!(
        event.kind,
        AgentEventKind::ToolInvocationCompleted { tool_call_id }
            | AgentEventKind::ToolInvocationDomainFailed { tool_call_id, .. }
            | AgentEventKind::ToolInvocationAdapterFailed { tool_call_id }
            if tool_call_id == started
    )));
}

fn interrupted_write(by: Interruption) -> (World, RunContext, HarnessError) {
    let tools = write_note();
    let mut world = World::closed();
    let mut run = approving(1, 1, 1, 30);
    started(&mut world, &mut run);
    let action = world.prepared(&mut run, &tools, "write_note");
    let ports = Ports {
        tool: Tool::Interrupted(by),
        ..GRANTING
    };
    let error = error_of(world.act(&mut run, &tools, &M6ApprovalPolicy, &action, ports));
    assert_eq!(world.count("approval"), 1);
    assert_eq!(world.count("tool"), 1);
    assert_eq!(run.usage().approval_requests, 1);
    assert_eq!(run.usage().tool_calls, 1);
    assert_started_tool_has_terminal_event(&world.recorded);
    (world, run, error)
}

#[test]
fn pending_contained_execution_cancellation_emits_terminal_tool_event() {
    let (_, run, error) = interrupted_write(Interruption::Cancelled);
    assert!(matches!(
        error,
        HarnessError::Cancelled {
            stage: ExecutionStage::Invocation
        }
    ));
    assert_eq!(run.status(), RunStatus::Finished(RunOutcome::Cancelled));
}

#[test]
fn pending_contained_execution_deadline_emits_terminal_tool_event() {
    let (_, run, error) = interrupted_write(Interruption::DeadlineExceeded);
    assert!(matches!(
        error,
        HarnessError::DeadlineExceeded {
            stage: ExecutionStage::Invocation
        }
    ));
    assert_eq!(run.status(), exceeded(BudgetDimension::Elapsed));
}

#[test]
fn contained_tool_result_call_id_mismatch_is_adapter_failure() {
    let tools = write_note();
    let mut world = World::closed();
    let mut run = approving(1, 1, 1, 30);
    started(&mut world, &mut run);
    let action = world.prepared(&mut run, &tools, "write_note");

    let ports = Ports {
        tool: Tool::AnotherCall,
        ..GRANTING
    };
    let error = error_of(world.act(&mut run, &tools, &M6ApprovalPolicy, &action, ports));

    assert!(matches!(
        error,
        HarnessError::ToolPort(ToolPortError::AdapterFailure)
    ));
    assert_eq!(run.usage().tool_calls, 1);
    assert_eq!(world.count("tool"), 1);
}

#[test]
fn exhausted_tool_budget_prevents_invocation() {
    let tools = registry(&[("lookup", CapabilityKind::ReadOnly, ExecutionKind::Direct)]);
    let mut world = World::closed();
    let mut run = context(0, 0, 30);
    started(&mut world, &mut run);

    let error = error_of(world.plain(
        &mut run,
        &tools,
        &M0ReadOnlyPolicy,
        "lookup",
        ToolCallId(7),
        UNASKED,
    ));

    assert_eq!(error.budget_dimension(), Some(BudgetDimension::ToolCalls));
    assert_eq!(world.count("tool"), 0);
    assert_eq!(run.status(), exceeded(BudgetDimension::ToolCalls));
    let turn = complete_run(&mut run, world.seen());
    assert!(matches!(
        world.record(&mut run, turn),
        Err(HarnessError::InvalidLifecycle { .. })
    ));
}

#[test]
fn cancellation_before_invocation_terminalizes_run() {
    let mut world = World::closed();
    let mut run = context(1, 0, 30);
    started(&mut world, &mut run);
    world.cancelled = true;

    assert!(matches!(
        error_of(world.model(&mut run, None, responded())),
        HarnessError::Cancelled {
            stage: ExecutionStage::Preflight
        }
    ));
    assert_eq!(run.status(), RunStatus::Finished(RunOutcome::Cancelled));
    assert_eq!(world.count("model"), 0);
}

#[test]
fn cancellation_during_invocation_terminalizes_run() {
    let mut world = World::closed();
    let mut run = context(1, 0, 30);
    started(&mut world, &mut run);

    assert!(matches!(
        error_of(world.model(&mut run, None, ModelReply::Cancelled)),
        HarnessError::Cancelled {
            stage: ExecutionStage::Invocation
        }
    ));
    assert_eq!(run.status(), RunStatus::Finished(RunOutcome::Cancelled));
    assert_eq!(world.count("model"), 1);
}

#[test]
fn deadline_before_invocation_terminalizes_run() {
    let mut world = World::closed();
    let mut run = context(1, 0, 1);
    started(&mut world, &mut run);
    world.advance_secs(1);

    assert!(matches!(
        error_of(world.model(&mut run, None, responded())),
        HarnessError::DeadlineExceeded {
            stage: ExecutionStage::Preflight
        }
    ));
    assert_eq!(run.status(), exceeded(BudgetDimension::Elapsed));
    assert_eq!(world.count("model"), 0);
}

#[test]
fn deadline_during_invocation_terminalizes_run() {
    let mut world = World::closed();
    let mut run = context(1, 0, 1);
    started(&mut world, &mut run);

    assert!(matches!(
        error_of(world.model(&mut run, None, ModelReply::DeadlineExceeded)),
        HarnessError::DeadlineExceeded {
            stage: ExecutionStage::Invocation
        }
    ));
    assert_eq!(run.status(), exceeded(BudgetDimension::Elapsed));
    assert_eq!(world.count("model"), 1);
}

#[test]
fn lifecycle_rejects_operations_before_start_and_after_finish() {
    let mut world = World::closed();
    let mut run = context(2, 0, 30);
    assert!(matches!(
        world.model(&mut run, None, responded()),
        Err(HarnessError::InvalidLifecycle { .. })
    ));
    started(&mut world, &mut run);
    let turn = complete_run(&mut run, world.seen());
    assert!(world.record(&mut run, turn).is_ok());
    assert!(matches!(
        world.model(&mut run, None, responded()),
        Err(HarnessError::InvalidLifecycle { .. })
    ));
}

#[test]
fn complete_run_keeps_committed_state_when_audit_fails() {
    let mut world = World::failing_on(AuditFailurePolicy::FailClosed, 2);
    let mut run = context(0, 0, 30);
    started(&mut world, &mut run);

    let turn = complete_run(&mut run, world.seen());
    assert!(matches!(
        error_of(world.record(&mut run, turn)),
        HarnessError::Audit {
            phase: AuditPhase::Lifecycle,
            effect: OperationEffect::StateCommitted,
            ..
        }
    ));
    assert_eq!(run.status(), RunStatus::Finished(RunOutcome::Completed));
}

#[test]
fn fail_closed_start_audit_failure_leaves_run_terminal() {
    let mut world = World::closed();
    world.failing_audits = (1..10).collect();
    let mut run = context(0, 0, 30);

    assert!(matches!(
        error_of(world.start(&mut run)),
        HarnessError::Audit {
            effect: OperationEffect::StateCommitted,
            ..
        }
    ));
    assert_eq!(
        run.status(),
        RunStatus::Finished(RunOutcome::Failed {
            kind: RunFailureKind::AuditUnavailable,
        })
    );
}

#[test]
fn event_sequences_and_model_call_correlation_are_deterministic() {
    let mut world = World::closed();
    let mut run = context(1, 0, 30);
    started(&mut world, &mut run);
    assert!(world.model(&mut run, None, responded()).is_ok());
    let turn = complete_run(&mut run, world.seen());
    assert!(world.record(&mut run, turn).is_ok());

    assert_eq!(world.sequences(), vec![0, 1, 2, 3]);
    let started = match world.recorded[1].kind {
        AgentEventKind::ModelInvocationStarted { model_call_id, .. } => model_call_id,
        _ => panic!("expected model-started event"),
    };
    let completed = match world.recorded[2].kind {
        AgentEventKind::ModelInvocationCompleted { model_call_id, .. } => model_call_id,
        _ => panic!("expected model-completed event"),
    };
    assert_eq!(started, completed);
}

#[test]
fn fail_closed_pre_audit_prevents_adapter_but_keeps_reservation() {
    let mut world = World::failing_on(AuditFailurePolicy::FailClosed, 2);
    let mut run = context(1, 0, 30);
    started(&mut world, &mut run);

    assert!(matches!(
        error_of(world.model(&mut run, None, responded())),
        HarnessError::Audit {
            phase: AuditPhase::BeforeInvocation,
            effect: OperationEffect::NotInvoked,
            ..
        }
    ));
    assert_eq!(run.usage().model_calls, 1);
    assert_eq!(world.count("model"), 0);
    assert_eq!(run.status(), RunStatus::Running);

    assert_eq!(
        error_of(world.model(&mut run, None, responded())).budget_dimension(),
        Some(BudgetDimension::ModelCalls)
    );
    assert_eq!(run.status(), exceeded(BudgetDimension::ModelCalls));
}

#[test]
fn fail_open_pre_audit_invokes_adapter_and_marks_audit_degraded() {
    let mut world = World::failing_on(AuditFailurePolicy::FailOpen, 2);
    let mut run = context(1, 0, 30);
    started(&mut world, &mut run);

    assert!(world.model(&mut run, None, responded()).is_ok());

    assert!(run.audit_degraded());
    assert!(run.durable_state().audit_degraded());
    assert_eq!(world.count("model"), 1);
    assert_eq!(world.sequences(), vec![0, 3]);
}

#[test]
fn post_invocation_audit_failure_reports_invocation_started() {
    let mut world = World::failing_on(AuditFailurePolicy::FailClosed, 3);
    let mut run = context(1, 0, 30);
    started(&mut world, &mut run);

    assert!(matches!(
        error_of(world.model(&mut run, None, responded())),
        HarnessError::Audit {
            phase: AuditPhase::AfterInvocation,
            effect: OperationEffect::InvocationStarted,
            ..
        }
    ));
    assert_eq!(world.count("model"), 1);
}

#[test]
fn fail_open_post_audit_preserves_adapter_error() {
    let mut world = World::failing_on(AuditFailurePolicy::FailOpen, 3);
    let mut run = context(1, 0, 30);
    started(&mut world, &mut run);

    assert!(matches!(
        error_of(world.model(&mut run, None, ModelReply::Failed(ModelPortError::Rejected))),
        HarnessError::ModelPort(ModelPortError::Rejected)
    ));
    assert!(run.audit_degraded());
    assert_eq!(world.count("model"), 1);
}

#[test]
fn terminal_safety_state_wins_when_terminal_audit_fails() {
    let mut world = World::failing_on(AuditFailurePolicy::FailClosed, 2);
    let mut run = context(1, 0, 30);
    started(&mut world, &mut run);
    world.cancelled = true;

    assert!(matches!(
        error_of(world.model(&mut run, None, responded())),
        HarnessError::Cancelled { .. }
    ));
    assert_eq!(run.status(), RunStatus::Finished(RunOutcome::Cancelled));
    assert!(run.audit_degraded());
    assert_eq!(world.count("model"), 0);
}

#[test]
fn terminal_audit_failure_preserves_call_budget_exhaustion_states() {
    let mut world = World::failing_on(AuditFailurePolicy::FailClosed, 2);
    let mut model_run = context(0, 0, 30);
    started(&mut world, &mut model_run);
    assert_eq!(
        error_of(world.model(&mut model_run, None, responded())).budget_dimension(),
        Some(BudgetDimension::ModelCalls)
    );
    assert_eq!(model_run.status(), exceeded(BudgetDimension::ModelCalls));
    assert!(model_run.audit_degraded());
    assert_eq!(world.count("model"), 0);

    let tools = registry(&[("lookup", CapabilityKind::ReadOnly, ExecutionKind::Direct)]);
    let mut world = World::failing_on(AuditFailurePolicy::FailClosed, 2);
    let mut tool_run = context(0, 0, 30);
    started(&mut world, &mut tool_run);
    assert_eq!(
        error_of(world.plain(
            &mut tool_run,
            &tools,
            &M0ReadOnlyPolicy,
            "lookup",
            ToolCallId(7),
            UNASKED
        ))
        .budget_dimension(),
        Some(BudgetDimension::ToolCalls)
    );
    assert_eq!(tool_run.status(), exceeded(BudgetDimension::ToolCalls));
    assert!(tool_run.audit_degraded());
    assert_eq!(world.count("tool"), 0);
}

#[test]
fn adapter_errors_are_sanitized_and_domain_failure_is_a_normal_result() {
    let tools = registry(&[
        ("domain", CapabilityKind::ReadOnly, ExecutionKind::Direct),
        ("adapter", CapabilityKind::ReadOnly, ExecutionKind::Direct),
        ("managed", CapabilityKind::ReadOnly, ExecutionKind::Contained),
    ]);
    let mut world = World::closed();
    let mut run = context(1, 3, 30);
    started(&mut world, &mut run);

    assert!(matches!(
        error_of(world.model(&mut run, None, ModelReply::Failed(ModelPortError::Failed))),
        HarnessError::ModelPort(ModelPortError::Failed)
    ));
    let ports = |tool: Tool| Ports { tool, ..UNASKED };
    assert!(world
        .plain(
            &mut run,
            &tools,
            &M0ReadOnlyPolicy,
            "domain",
            ToolCallId(7),
            ports(Tool::DomainFails(ToolDomainFailureKind::Rejected)),
        )
        .is_ok());
    assert!(matches!(
        error_of(world.plain(
            &mut run,
            &tools,
            &M0ReadOnlyPolicy,
            "adapter",
            ToolCallId(8),
            ports(Tool::Fails(ToolPortError::AdapterFailure)),
        )),
        HarnessError::ToolPort(ToolPortError::AdapterFailure)
    ));
    assert!(matches!(
        error_of(world.plain(
            &mut run,
            &tools,
            &M0ReadOnlyPolicy,
            "managed",
            ToolCallId(9),
            ports(Tool::Uncontained(ContainmentPortError::Infrastructure)),
        )),
        HarnessError::ContainmentPort(ContainmentPortError::Infrastructure)
    ));
}

#[test]
fn an_unknown_tool_is_not_found() {
    let tools = registry(&[]);
    let mut world = World::closed();
    let mut run = context(0, 1, 30);
    started(&mut world, &mut run);
    assert!(matches!(
        error_of(world.plain(
            &mut run,
            &tools,
            &M0ReadOnlyPolicy,
            "lookup",
            ToolCallId(7),
            UNASKED
        )),
        HarnessError::ToolNotFound { name } if name.as_str() == "lookup"
    ));
}

#[test]
fn malformed_and_schema_invalid_actions_consume_no_tool_budget() {
    let tools = lookup(
        CapabilityKind::ReadOnly,
        ExecutionKind::Direct,
        r#"{"type": "object", "properties": {}, "additionalProperties": false}"#,
    );
    for (output, parsed) in [
        (
            "```json\n{\"action\":{\"tool\":\"lookup\",\"arguments\":{}}}\n```",
            false,
        ),
        (
            r#"{"action":{"tool":"lookup","arguments":{"unknown":true}}}"#,
            true,
        ),
    ] {
        let mut world = World::closed();
        let mut run = context(1, 1, 30);
        started(&mut world, &mut run);

        let error = match world.prepare(&mut run, &tools, output) {
            Err(error) => error,
            Ok(_) => panic!("invalid action must fail preparation"),
        };

        assert!(matches!(error, ActionPreparationError::Validation(_)));
        assert_eq!(run.usage().tool_calls, 0);
        assert_eq!(world.count("tool"), 0);
        let proposed = world
            .recorded
            .iter()
            .position(|event| matches!(event.kind, AgentEventKind::ActionProposed { .. }));
        let rejected = world
            .recorded
            .iter()
            .position(|event| matches!(event.kind, AgentEventKind::ActionRejected { .. }))
            .expect("invalid attempt must be correlated by a rejection event");
        if parsed {
            assert!(proposed.is_some_and(|position| position < rejected));
        } else {
            assert!(proposed.is_none());
        }
    }
}

#[test]
fn a_rejected_action_is_reported_with_its_reason() {
    let tools = registry(&[("lookup", CapabilityKind::ReadOnly, ExecutionKind::Direct)]);
    for (output, reason) in [
        ("not-json", ActionRejectionReason::MalformedEnvelope),
        (
            r#"{"action":{"tool":"other","arguments":{}}}"#,
            ActionRejectionReason::UnknownTool,
        ),
        (
            r#"{"action":{"tool":"lookup","arguments":[]}}"#,
            ActionRejectionReason::MalformedEnvelope,
        ),
    ] {
        let mut world = World::closed();
        let mut run = context(1, 1, 30);
        started(&mut world, &mut run);
        match world.prepare(&mut run, &tools, output) {
            Err(ActionPreparationError::Validation(error)) => assert_eq!(error.reason(), reason),
            _ => panic!("the action must be rejected"),
        }
    }
}

#[test]
fn the_policy_is_asked_once_the_action_is_bound() {
    let tools = reading();
    let mut world = World::closed();
    let mut run = context(1, 1, 30);
    started(&mut world, &mut run);
    let action = validated(&mut world, &mut run, &tools, LOOKUP);
    let before = world.trail.len();
    assert!(world
        .act(&mut run, &tools, &M0ReadOnlyPolicy, &action, UNASKED)
        .is_ok());
    assert_eq!(
        world.trail[before..],
        ["audit", "policy", "audit", "tool", "audit"]
    );

    let mut world = World::failing_on(AuditFailurePolicy::FailClosed, 6);
    let mut run = context(1, 1, 30);
    started(&mut world, &mut run);
    let action = validated(&mut world, &mut run, &tools, LOOKUP);
    assert!(world
        .act(&mut run, &tools, &M0ReadOnlyPolicy, &action, UNASKED)
        .is_err());
    assert_eq!(world.count("policy"), 0);

    let mut world = World::closed();
    let mut run = context(1, 1, 30);
    started(&mut world, &mut run);
    world.cancelled = true;
    assert!(world
        .plain(
            &mut run,
            &tools,
            &M0ReadOnlyPolicy,
            "lookup",
            ToolCallId(7),
            UNASKED
        )
        .is_err());
    assert_eq!(world.count("policy"), 0);
}

#[test]
fn begin_iteration_reserves_one_based_usage_and_audits_metadata() {
    let mut world = World::closed();
    let mut run = iterating(2, 30);
    started(&mut world, &mut run);

    let turn = begin_iteration(&mut run, world.seen());
    assert!(world.record(&mut run, turn).is_ok());

    assert_eq!(run.usage().iterations, 1);
    assert!(matches!(
        world.recorded[1].kind,
        AgentEventKind::Loop {
            event: LoopEventKind::IterationStarted {
                iteration: 1,
                usage: 1,
                limit: 2,
            }
        }
    ));
}

#[test]
fn zero_iteration_budget_terminalizes_before_any_iteration_event() {
    let mut world = World::closed();
    let mut run = iterating(0, 30);
    started(&mut world, &mut run);

    let turn = begin_iteration(&mut run, world.seen());
    let error = error_of(world.record(&mut run, turn));

    assert_eq!(error.budget_dimension(), Some(BudgetDimension::Iterations));
    assert_eq!(run.usage().iterations, 0);
    assert_eq!(run.status(), exceeded(BudgetDimension::Iterations));
    assert!(world.recorded.iter().all(|event| !matches!(
        event.kind,
        AgentEventKind::Loop {
            event: LoopEventKind::IterationStarted { .. }
        }
    )));
}

#[test]
fn exhausted_iteration_budget_preserves_started_iteration_usage() {
    let mut world = World::closed();
    let mut run = iterating(1, 30);
    started(&mut world, &mut run);
    let turn = begin_iteration(&mut run, world.seen());
    assert!(world.record(&mut run, turn).is_ok());

    let turn = begin_iteration(&mut run, world.seen());
    let error = error_of(world.record(&mut run, turn));

    assert_eq!(error.budget_dimension(), Some(BudgetDimension::Iterations));
    assert_eq!(run.usage().iterations, 1);
    assert_eq!(run.status(), exceeded(BudgetDimension::Iterations));
}

#[test]
fn fail_closed_iteration_started_audit_keeps_reservation_non_terminal() {
    let mut world = World::failing_on(AuditFailurePolicy::FailClosed, 2);
    let mut run = iterating(1, 30);
    started(&mut world, &mut run);

    let turn = begin_iteration(&mut run, world.seen());
    assert!(matches!(
        error_of(world.record(&mut run, turn)),
        HarnessError::Audit {
            operation: HarnessOperation::BeginIteration,
            phase: AuditPhase::Lifecycle,
            effect: OperationEffect::StateCommitted,
            ..
        }
    ));
    assert_eq!(run.usage().iterations, 1);
    assert_eq!(run.status(), RunStatus::Running);
}

#[test]
fn fail_open_iteration_started_audit_marks_degraded_and_continues() {
    let mut world = World::failing_on(AuditFailurePolicy::FailOpen, 2);
    let mut run = iterating(1, 30);
    started(&mut world, &mut run);

    let turn = begin_iteration(&mut run, world.seen());
    assert!(world.record(&mut run, turn).is_ok());
    assert_eq!(run.usage().iterations, 1);
    assert!(run.audit_degraded());
    assert_eq!(run.status(), RunStatus::Running);
}

#[test]
fn loop_progress_is_metadata_only_and_sequence_ordered() {
    let mut world = World::closed();
    let mut run = iterating(1, 30);
    started(&mut world, &mut run);
    let turn = begin_iteration(&mut run, world.seen());
    assert!(world.record(&mut run, turn).is_ok());
    let turn = record_loop_progress(
        &mut run,
        world.seen(),
        LoopProgressEvent::PhaseEntered {
            iteration: 1,
            phase: LoopPhase::Observe,
        },
    );
    assert!(world.record(&mut run, turn).is_ok());

    assert_eq!(world.sequences(), vec![0, 1, 2]);
}

#[test]
fn checkpoint_terminalizes_requested_cancellation_without_consuming_budget() {
    let mut world = World::closed();
    let mut run = iterating(1, 30);
    started(&mut world, &mut run);
    world.cancelled = true;

    let turn = checkpoint(&mut run, world.seen());
    assert!(matches!(
        error_of(world.record(&mut run, turn)),
        HarnessError::Cancelled { .. }
    ));
    assert_eq!(run.status(), RunStatus::Finished(RunOutcome::Cancelled));
    assert_eq!(run.usage().model_calls, 0);
    assert_eq!(run.usage().tool_calls, 0);
    assert_eq!(run.usage().iterations, 0);
}

#[test]
fn checkpoint_terminalizes_elapsed_deadline_without_consuming_budget() {
    let mut world = World::closed();
    let mut run = iterating(1, 1);
    started(&mut world, &mut run);
    world.advance_secs(1);

    let turn = checkpoint(&mut run, world.seen());
    assert!(matches!(
        error_of(world.record(&mut run, turn)),
        HarnessError::DeadlineExceeded { .. }
    ));
    assert_eq!(run.status(), exceeded(BudgetDimension::Elapsed));
    assert_eq!(run.usage().model_calls, 0);
    assert_eq!(run.usage().tool_calls, 0);
    assert_eq!(run.usage().iterations, 0);
}

#[test]
fn a_run_is_failed_and_cancelled_as_told() {
    let mut world = World::closed();
    let mut failed = context(0, 0, 30);
    started(&mut world, &mut failed);
    let turn = fail_run(&mut failed, world.seen(), RunFailureKind::Model);
    assert!(world.record(&mut failed, turn).is_ok());
    assert_eq!(
        failed.status(),
        RunStatus::Finished(RunOutcome::Failed {
            kind: RunFailureKind::Model
        })
    );

    let mut cancelled = context(0, 0, 1);
    started(&mut world, &mut cancelled);
    world.advance_secs(60);
    let turn = cancel_run(&mut cancelled);
    assert!(world.record(&mut cancelled, turn).is_ok());
    assert_eq!(
        cancelled.status(),
        RunStatus::Finished(RunOutcome::Cancelled)
    );
    assert_eq!(
        cancelled.durable_state().status(),
        RunStatus::Finished(RunOutcome::Cancelled)
    );
}

#[test]
fn a_grounded_call_is_bound_to_its_evidence_first() {
    let digest = Digest32::from_bytes([3; 32]);
    let retrieval = agent_runtime::ids::KnowledgeRetrievalId(9);
    assert!(matches!(
        bind_grounding(retrieval, digest, 2, digest, 3),
        Err(HarnessError::GroundingMismatch)
    ));
    assert!(matches!(
        bind_grounding(retrieval, digest, 2, Digest32::from_bytes([4; 32]), 2),
        Err(HarnessError::GroundingMismatch)
    ));
    assert!(bind_grounding(retrieval, digest, 2, digest, 2).is_ok());
}

#[test]
fn previews_are_short_plain_texts() {
    let preview = |summary: &str, target: &str| {
        ApprovalPreview::new(summary.to_owned(), target.to_owned())
    };
    match preview("  write a note ", "notes.txt") {
        Ok(preview) => {
            assert_eq!(preview.summary(), "write a note");
            assert_eq!(preview.target_label(), "notes.txt");
        }
        Err(_) => panic!("the preview is fine"),
    }
    assert!(matches!(
        preview(" ", "notes.txt"),
        Err(ApprovalPreviewError::Empty)
    ));
    assert!(matches!(
        preview("write", "a\nb"),
        Err(ApprovalPreviewError::ControlCharacter)
    ));
    assert!(matches!(
        preview(&"x".repeat(257), "notes.txt"),
        Err(ApprovalPreviewError::TooLarge)
    ));
    assert!(matches!(
        HarnessConfig::new(AuditFailurePolicy::FailOpen, TimeSpan::from_millis(0)),
        Err(HarnessConfigError::ZeroAuditTimeout)
    ));
}

const LOOKUP: &str = r#"{"action":{"tool":"lookup","arguments":{}}}"#;
const STRICT: &str = r#"{"type": "object", "additionalProperties": false}"#;

/// A registry with one tool, `lookup`, that takes what a schema says.
fn lookup(capability: CapabilityKind, execution: ExecutionKind, schema: &str) -> ToolRegistry {
    let schema = match ToolSchema::new(serde_json::from_str(schema).expect("the literal is JSON")) {
        Ok(schema) => schema,
        Err(_) => panic!("schema must be an object"),
    };
    let definition =
        match ToolDefinition::new(name("lookup"), "test tool".to_owned(), capability, schema) {
            Ok(definition) => definition,
            Err(_) => panic!("definition must be valid"),
        };
    let mut registry = ToolRegistry::new();
    if registry.register(definition, execution).is_err() {
        panic!("tool must register");
    }
    registry
}

fn reading() -> ToolRegistry {
    lookup(CapabilityKind::ReadOnly, ExecutionKind::Direct, STRICT)
}

fn writing(execution: ExecutionKind) -> ToolRegistry {
    lookup(CapabilityKind::LocalWrite, execution, STRICT)
}

fn validated(
    world: &mut World,
    run: &mut RunContext,
    registry: &ToolRegistry,
    output: &str,
) -> ValidatedAction {
    match world.prepare(run, registry, output) {
        Ok(action) => action,
        Err(_) => panic!("action must validate"),
    }
}

fn bound_call(events: &[AgentEvent], proposal: ActionProposalId) -> ToolCallId {
    events
        .iter()
        .find_map(|event| match event.kind {
            AgentEventKind::ActionExecutionBound {
                action_proposal_id,
                tool_call_id,
            } if action_proposal_id == proposal => Some(tool_call_id),
            _ => None,
        })
        .expect("the action must be bound to a tool call")
}

fn assert_unbound(events: &[AgentEvent]) {
    assert!(!events
        .iter()
        .any(|event| matches!(event.kind, AgentEventKind::ActionExecutionBound { .. })));
}

#[test]
fn governed_read_only_action_correlates_model_proposal_and_tool_call() {
    let tools = lookup(
        CapabilityKind::ReadOnly,
        ExecutionKind::Direct,
        r#"{
            "type": "object",
            "description": "schema-sentinel",
            "properties": {"query": {"type": "string"}},
            "required": ["query"],
            "additionalProperties": false
        }"#,
    );
    let mut world = World::closed();
    let mut run = context(1, 1, 30);
    started(&mut world, &mut run);
    let action = validated(
        &mut world,
        &mut run,
        &tools,
        r#"{"action":{"tool":"lookup","arguments":{"query":"argument-sentinel"}}}"#,
    );
    let proposal_id = action.proposal_id();
    assert!(world
        .act(&mut run, &tools, &M0ReadOnlyPolicy, &action, UNASKED)
        .is_ok());

    assert_eq!(world.count("tool"), 1);
    assert_eq!(run.usage().model_calls, 1);
    assert_eq!(run.usage().tool_calls, 1);
    let tool_call_id = bound_call(&world.recorded, proposal_id);
    assert_ne!(proposal_id.0, tool_call_id.0);
    assert!(world.recorded.iter().any(|event| matches!(
        event.kind,
        AgentEventKind::ToolInvocationCompleted { tool_call_id: completed }
            if completed == tool_call_id
    )));
    let model_call = world
        .recorded
        .iter()
        .find_map(|event| match event.kind {
            AgentEventKind::ModelInvocationStarted { model_call_id, .. } => Some(model_call_id),
            _ => None,
        })
        .expect("model correlation event must exist");
    assert!(world.recorded.iter().any(|event| matches!(
        event.kind,
        AgentEventKind::ActionProposed { model_call_id, action_proposal_id, .. }
            if model_call_id == model_call && action_proposal_id == proposal_id
    )));
    let written = format!("{:?}", world.recorded);
    for sentinel in ["argument-sentinel", "schema-sentinel"] {
        assert!(!written.contains(sentinel));
    }
}

#[test]
fn fail_closed_action_audit_failures_stop_before_tool_execution() {
    for fail_on_attempt in [4, 5, 6] {
        let tools = reading();
        let mut world = World::failing_on(AuditFailurePolicy::FailClosed, fail_on_attempt);
        let mut run = context(1, 1, 30);
        started(&mut world, &mut run);

        let result = match world.prepare(&mut run, &tools, LOOKUP) {
            Ok(action) => world.act(&mut run, &tools, &M0ReadOnlyPolicy, &action, UNASKED),
            Err(ActionPreparationError::Harness(error)) => Err(error),
            Err(ActionPreparationError::Validation(_)) => {
                panic!("valid action must not fail structural validation")
            }
        };

        assert!(matches!(result, Err(HarnessError::Audit { .. })));
        assert_eq!(world.audits, fail_on_attempt);
        assert_eq!(run.usage().tool_calls, 0);
        assert_eq!(world.count("tool"), 0);
        assert!(!run.audit_degraded());
    }
}

#[test]
fn fail_open_action_audit_failures_mark_degraded_and_continue() {
    for fail_on_attempt in [4, 5, 6] {
        let tools = reading();
        let mut world = World::failing_on(AuditFailurePolicy::FailOpen, fail_on_attempt);
        let mut run = context(1, 1, 30);
        started(&mut world, &mut run);

        let action = validated(&mut world, &mut run, &tools, LOOKUP);
        assert!(world
            .act(&mut run, &tools, &M0ReadOnlyPolicy, &action, UNASKED)
            .is_ok());

        assert!(world.audits >= fail_on_attempt);
        assert!(run.audit_degraded());
        assert_eq!(run.usage().tool_calls, 1);
        assert_eq!(world.count("tool"), 1);
    }
}

#[test]
fn policy_denied_action_is_bound_but_uninvoked_and_unbudgeted() {
    for capability in [
        CapabilityKind::LocalWrite,
        CapabilityKind::ExternalWrite,
        CapabilityKind::Privileged,
    ] {
        let tools = lookup(capability, ExecutionKind::Direct, STRICT);
        let mut world = World::closed();
        let mut run = context(1, 1, 30);
        started(&mut world, &mut run);
        let action = validated(&mut world, &mut run, &tools, LOOKUP);
        let proposal_id = action.proposal_id();

        let error = error_of(world.act(&mut run, &tools, &M0ReadOnlyPolicy, &action, UNASKED));

        match capability {
            CapabilityKind::LocalWrite => assert!(matches!(error, HarnessError::PolicyDenied(_))),
            CapabilityKind::ExternalWrite | CapabilityKind::Privileged => assert!(matches!(
                error,
                HarnessError::CapabilityNotExecutable { .. }
            )),
            CapabilityKind::ReadOnly => unreachable!("read-only is not part of this test"),
        }
        assert_eq!(run.usage().tool_calls, 0);
        assert_eq!(world.count("tool"), 0);
        let bound = bound_call(&world.recorded, proposal_id);
        assert!(world.recorded.iter().any(|event| matches!(
            event.kind,
            AgentEventKind::ToolPolicyDenied { tool_call_id, .. } if tool_call_id == bound
        )));
        assert!(!world
            .recorded
            .iter()
            .any(|event| matches!(event.kind, AgentEventKind::ToolInvocationStarted { .. })));
    }
}

#[test]
fn action_tests_direct_local_write_cannot_request_approval_or_execute() {
    let tools = writing(ExecutionKind::Direct);
    let mut world = World::closed();
    let mut run = approving(1, 1, 1, 30);
    started(&mut world, &mut run);
    let action = validated(&mut world, &mut run, &tools, LOOKUP);

    let error = error_of(world.act(&mut run, &tools, &M6ApprovalPolicy, &action, GRANTING));

    assert!(matches!(error, HarnessError::ContainmentUnavailable { .. }));
    assert_eq!(run.usage().approval_requests, 0);
    assert_eq!(run.usage().tool_calls, 0);
    assert!(world
        .recorded
        .iter()
        .any(|event| matches!(event.kind, AgentEventKind::ContainmentFailed { .. })));
}

#[test]
fn contained_local_write_granted_approval_executes_once() {
    let tools = writing(ExecutionKind::Contained);
    let mut world = World::closed();
    let mut run = approving(1, 1, 1, 30);
    started(&mut world, &mut run);
    let action = validated(&mut world, &mut run, &tools, LOOKUP);

    assert!(world
        .act(&mut run, &tools, &M6ApprovalPolicy, &action, GRANTING)
        .is_ok());

    assert_eq!(run.usage().approval_requests, 1);
    assert_eq!(run.usage().tool_calls, 1);
    assert_eq!(world.count("approval"), 1);
    assert_eq!(world.count("tool"), 1);
    let granted = world
        .recorded
        .iter()
        .position(|event| matches!(event.kind, AgentEventKind::ApprovalGranted { .. }))
        .expect("grant must be audited");
    let tool_started = world
        .recorded
        .iter()
        .position(|event| matches!(event.kind, AgentEventKind::ToolInvocationStarted { .. }))
        .expect("tool start must be audited");
    assert!(granted < tool_started);
}

#[test]
fn action_tests_approval_denial_consumes_approval_budget_but_zero_tool_calls() {
    let tools = writing(ExecutionKind::Contained);
    let mut world = World::closed();
    let mut run = approving(1, 1, 1, 30);
    started(&mut world, &mut run);
    let action = validated(&mut world, &mut run, &tools, LOOKUP);
    let denying = Ports {
        approval: Approval::Denies,
        ..GRANTING
    };

    let error = error_of(world.act(&mut run, &tools, &M6ApprovalPolicy, &action, denying));

    assert!(matches!(error, HarnessError::ApprovalDenied));
    assert_eq!(run.usage().approval_requests, 1);
    assert_eq!(run.usage().tool_calls, 0);
    assert_eq!(world.count("approval"), 1);
    assert_eq!(world.count("tool"), 0);
    assert!(world
        .recorded
        .iter()
        .any(|event| matches!(event.kind, AgentEventKind::ApprovalDenied { .. })));
}

#[test]
fn action_tests_zero_approval_budget_terminalizes_before_approval_port() {
    let tools = writing(ExecutionKind::Contained);
    let mut world = World::closed();
    let mut run = approving(1, 1, 0, 30);
    started(&mut world, &mut run);
    let action = validated(&mut world, &mut run, &tools, LOOKUP);

    let error = error_of(world.act(&mut run, &tools, &M6ApprovalPolicy, &action, GRANTING));

    assert_eq!(
        error.budget_dimension(),
        Some(BudgetDimension::ApprovalRequests)
    );
    assert_eq!(world.count("approval"), 0);
    assert_eq!(world.count("tool"), 0);
    assert_eq!(run.usage().approval_requests, 0);
    assert_eq!(run.status(), exceeded(BudgetDimension::ApprovalRequests));
}

#[test]
fn faulty_allowed_local_write_policy_cannot_bypass_approval_requirement() {
    let tools = writing(ExecutionKind::Contained);
    let mut world = World::closed();
    let mut run = approving(1, 1, 1, 30);
    started(&mut world, &mut run);
    let action = validated(&mut world, &mut run, &tools, LOOKUP);

    let error = error_of(world.act(&mut run, &tools, &AlwaysAllowPolicy, &action, GRANTING));

    assert!(matches!(error, HarnessError::ApprovalRequired));
    assert_eq!(run.usage().approval_requests, 0);
    assert_eq!(run.usage().tool_calls, 0);
    assert_eq!(world.count("tool"), 0);
}

#[test]
fn mismatched_tool_result_call_id_is_adapter_failure() {
    let tools = reading();
    let mut world = World::closed();
    let mut run = context(1, 1, 30);
    started(&mut world, &mut run);
    let action = validated(&mut world, &mut run, &tools, LOOKUP);
    let mismatched = Ports {
        tool: Tool::AnotherCall,
        ..UNASKED
    };

    let error = error_of(world.act(&mut run, &tools, &M0ReadOnlyPolicy, &action, mismatched));

    assert!(matches!(
        error,
        HarnessError::ToolPort(ToolPortError::AdapterFailure)
    ));
    assert_eq!(run.usage().tool_calls, 1);
}

#[test]
fn domain_failure_preserves_the_bound_tool_call_id() {
    let tools = reading();
    let mut world = World::closed();
    let mut run = context(1, 1, 30);
    started(&mut world, &mut run);
    let action = validated(&mut world, &mut run, &tools, LOOKUP);
    let proposal_id = action.proposal_id();
    let failing = Ports {
        tool: Tool::DomainFails(ToolDomainFailureKind::NotFound),
        ..UNASKED
    };

    assert!(world
        .act(&mut run, &tools, &M0ReadOnlyPolicy, &action, failing)
        .is_ok());
    let bound = bound_call(&world.recorded, proposal_id);
    assert!(world.recorded.iter().any(|event| matches!(
        event.kind,
        AgentEventKind::ToolInvocationDomainFailed {
            tool_call_id,
            kind: ToolDomainFailureKind::NotFound,
        } if tool_call_id == bound
    )));
}

#[test]
fn tool_budget_exhaustion_after_binding_terminalizes_without_invocation() {
    let tools = reading();
    let mut world = World::closed();
    let mut run = context(1, 0, 30);
    started(&mut world, &mut run);
    let action = validated(&mut world, &mut run, &tools, LOOKUP);
    let proposal_id = action.proposal_id();

    let error = error_of(world.act(&mut run, &tools, &M0ReadOnlyPolicy, &action, UNASKED));

    assert!(matches!(error, HarnessError::BudgetExceeded(_)));
    assert_eq!(run.usage().tool_calls, 0);
    assert_eq!(world.count("tool"), 0);
    assert_eq!(run.status(), exceeded(BudgetDimension::ToolCalls));
    let _ = bound_call(&world.recorded, proposal_id);
}

#[test]
fn cancellation_before_governed_act_preserves_harness_authority() {
    let tools = reading();
    let mut world = World::closed();
    let mut run = context(1, 1, 30);
    started(&mut world, &mut run);
    let action = validated(&mut world, &mut run, &tools, LOOKUP);
    world.cancelled = true;

    let error = error_of(world.act(&mut run, &tools, &M0ReadOnlyPolicy, &action, UNASKED));

    assert!(matches!(error, HarnessError::Cancelled { .. }));
    assert_eq!(run.status(), RunStatus::Finished(RunOutcome::Cancelled));
    assert_eq!(run.usage().tool_calls, 0);
    assert_eq!(world.count("tool"), 0);
    assert_unbound(&world.recorded);
}

#[test]
fn elapsed_deadline_before_governed_act_preserves_harness_authority() {
    let tools = reading();
    let mut world = World::closed();
    let mut run = context(1, 1, 30);
    started(&mut world, &mut run);
    let action = validated(&mut world, &mut run, &tools, LOOKUP);
    world.advance_secs(31);

    let error = error_of(world.act(&mut run, &tools, &M0ReadOnlyPolicy, &action, UNASKED));

    assert!(matches!(error, HarnessError::DeadlineExceeded { .. }));
    assert_eq!(run.status(), exceeded(BudgetDimension::Elapsed));
    assert_eq!(run.usage().tool_calls, 0);
    assert_eq!(world.count("tool"), 0);
    assert_unbound(&world.recorded);
}
