use std::collections::VecDeque;

use agent_runtime::audit::AuditFailurePolicy;
use agent_runtime::budget::{BudgetDimension, RunBudget, TimeSpan};
use agent_runtime::context::{MonotonicTime, Observation, RunContext};
use agent_runtime::error::{AuditPortError, HarnessError, ModelPortError};
use agent_runtime::events::{
    AgentEvent, AgentEventKind, CapabilityKind, LoopEventKind, LoopProgressEvent,
};
use agent_runtime::governed::{
    begin_plain_call, governed_recorded, governed_replied, ground, policy_answered, GovernedTurn,
};
use agent_runtime::evidence::{
    BackendEvidenceSet, Evidence, EvidenceId, EvidenceMetadata, EvidenceSource,
};
use agent_runtime::evidence_set::{EvidenceSet, GroundedModelRequest};
use agent_runtime::ids::{
    KnowledgeRetrievalId, ModelCallId, RunId, SessionId, ToolCallId, ToolName,
};
use agent_runtime::knowledge::{KnowledgeQuery, KnowledgeRequest, KnowledgeRoute, RetrievalLimits};
use agent_runtime::loop_engine::{
    FinalStep, LoopEngine, LoopError, LoopRunSummary, LoopStepError, LoopTurn, PhaseOutcome, Place,
    TerminalLoopDecision,
};
use agent_runtime::loop_state::{LoopPosition, LoopState, ReflectDecision, VerificationResult};
use agent_runtime::metadata::KnowledgeBackendId;
use agent_runtime::model::{ModelMessage, ModelRole};
use agent_runtime::model_call::{
    begin_model_call, bind_grounding, model_recorded, model_replied, GroundingBinding, ModelReply,
    ModelTurn,
};
use agent_runtime::operations::{
    begin_iteration, cancel_run, checkpoint, complete_run, fail_run, record_loop_progress,
};
use agent_runtime::persistence::{DurableCheckpoint, LoadedRun, LoggedEvent, RunRecord};
use agent_runtime::policy::M0ReadOnlyPolicy;
use agent_runtime::record::{
    on_appended, on_audited, on_encoded, AuditOutcome, RecordTurn, Settings,
};
use agent_runtime::replay::{recover_loaded_run, RecoveryDisposition};
use agent_runtime::retrieval::{
    begin_retrieval, retrieval_recorded, retrieval_replied, RetrievalReply, RetrievalTurn,
    RetrievedEvidence,
};
use agent_runtime::start::{begin_start, run_created, start_recorded, StartClock, StartTurn};
use agent_runtime::status::{
    LoopDecisionKind, LoopFailureKind, LoopPhase, RunFailureKind, RunOutcome, RunStatus,
};
use agent_runtime::tool_call::{ToolOutcome, ToolReply};
use agent_runtime::tools::{ExecutionKind, ToolDefinition, ToolRegistry, ToolSchema};

const SECOND: u128 = 1_000_000_000;

/// The world around a run: its clock, its audit sink, its model and its tool.
struct World {
    settings: Settings,
    now: u128,
    cancelled: bool,
    failing_audit: Option<usize>,
    audits: usize,
    events: Vec<AgentEvent>,
    tools: ToolRegistry,
    model_results: VecDeque<Result<(), ModelPortError>>,
    model_calls: usize,
    tool_calls: usize,
    retrievals: usize,
    created: Option<(RunRecord, DurableCheckpoint)>,
    encoded: Option<Vec<u8>>,
    log: Vec<LoggedEvent>,
    ids: u128,
}

impl World {
    fn new(model_results: Vec<Result<(), ModelPortError>>) -> World {
        let schema = match ToolSchema::new(
            serde_json::from_str(r#"{"type": "object"}"#).expect("the literal is JSON"),
        ) {
            Ok(schema) => schema,
            Err(_) => panic!("test schema must be valid"),
        };
        let definition = match ToolDefinition::new(
            tool_name(),
            "deterministic read-only lookup".to_owned(),
            CapabilityKind::ReadOnly,
            schema,
        ) {
            Ok(definition) => definition,
            Err(_) => panic!("test definition must be valid"),
        };
        let mut tools = ToolRegistry::new();
        if tools.register(definition, ExecutionKind::Direct).is_err() {
            panic!("test tool must register");
        }
        World {
            settings: Settings {
                audit_failure_policy: AuditFailurePolicy::FailClosed,
                durable: false,
            },
            now: 0,
            cancelled: false,
            failing_audit: None,
            audits: 0,
            events: Vec::new(),
            tools,
            model_results: model_results.into(),
            model_calls: 0,
            tool_calls: 0,
            retrievals: 0,
            created: None,
            encoded: None,
            log: Vec::new(),
            ids: 100,
        }
    }

    fn failing_on(policy: AuditFailurePolicy, attempt: usize) -> World {
        let mut world = World::new(Vec::new());
        world.settings.audit_failure_policy = policy;
        world.failing_audit = Some(attempt);
        world
    }

    fn durable(model_results: Vec<Result<(), ModelPortError>>) -> World {
        let mut world = World::new(model_results);
        world.settings.durable = true;
        world
    }

    fn seen(&self) -> Observation {
        Observation {
            cancelled: self.cancelled,
            now: MonotonicTime { nanos: self.now },
        }
    }

    fn id(&mut self) -> u128 {
        self.ids += 1;
        self.ids
    }

    fn record(&mut self, run: &mut RunContext, turn: RecordTurn) -> Result<(), HarnessError> {
        let settings = self.settings;
        let mut turn = turn;
        loop {
            turn = match turn {
                RecordTurn::Encode(recording) => {
                    self.encoded = Some(format!("{:?}", recording.event).into_bytes());
                    on_encoded(run, settings, recording, &self.encoded)
                }
                RecordTurn::Append(recording) | RecordTurn::Store(recording) => {
                    self.log.push(LoggedEvent {
                        event: recording.event.clone(),
                        encoding: self.encoded.clone(),
                    });
                    on_appended(run, settings, recording, Ok(()))
                }
                RecordTurn::Audit(recording) => {
                    self.audits += 1;
                    let outcome = if self.failing_audit == Some(self.audits) {
                        AuditOutcome::Failed(AuditPortError::RecordFailed)
                    } else {
                        self.events.push(recording.event.clone());
                        AuditOutcome::Recorded
                    };
                    on_audited(run, settings, recording, outcome)
                }
                RecordTurn::Finished(result) => return result,
            };
        }
    }

    fn start(&mut self, run: &mut RunContext) {
        let clock = StartClock {
            now: MonotonicTime { nanos: self.now },
            unix_millis: Some(1_000),
        };
        let mut turn = begin_start(run, self.settings, clock);
        loop {
            turn = match turn {
                StartTurn::CreateRun => {
                    self.created = Some((run.run_record(), run.durable_checkpoint()));
                    run_created(run, Ok(()), clock)
                }
                StartTurn::Record(record, stage) => {
                    let result = self.record(run, record);
                    start_recorded(run, self.settings, stage, result)
                }
                StartTurn::Finished(result) => {
                    assert!(result.is_ok(), "run must start");
                    return;
                }
            };
        }
    }

    fn model(
        &mut self,
        run: &mut RunContext,
        grounding: Option<GroundingBinding>,
    ) -> Result<(), HarnessError> {
        let call = ModelCallId(self.id());
        let mut turn = begin_model_call(run, self.seen(), call, grounding);
        loop {
            turn = match turn {
                ModelTurn::Record(record, stage) => {
                    let result = self.record(run, record);
                    model_recorded(run, stage, result)
                }
                ModelTurn::Invoke { model_call_id } => {
                    self.model_calls += 1;
                    let reply = match self.model_results.pop_front() {
                        Some(Ok(())) => ModelReply::Responded { token_usage: None },
                        Some(Err(error)) => ModelReply::Failed(error),
                        None => ModelReply::Failed(ModelPortError::Unavailable),
                    };
                    model_replied(run, model_call_id, reply)
                }
                ModelTurn::Finished(result) => return result,
            };
        }
    }

    fn tool(&mut self, run: &mut RunContext) -> Result<(), HarnessError> {
        let call = ToolCallId(self.id());
        let grounds = ground(&self.tools, &tool_name());
        let mut turn = begin_plain_call(run, self.seen(), call, tool_name(), grounds);
        loop {
            turn = match turn {
                GovernedTurn::Record(record, stage) => {
                    let result = self.record(run, record);
                    governed_recorded(run, self.seen(), stage, result)
                }
                GovernedTurn::Invoke {
                    tool_call_id,
                    mode,
                    execution,
                } => {
                    self.tool_calls += 1;
                    let reply = ToolReply::Answered {
                        call_id: tool_call_id,
                        outcome: ToolOutcome::Succeeded,
                    };
                    governed_replied(run, tool_call_id, mode, execution, reply)
                }
                GovernedTurn::Authorize(asked) => {
                    let decision = asked.ask(&M0ReadOnlyPolicy);
                    policy_answered(run, asked, decision)
                }
                GovernedTurn::Finished(result) => return result,
                GovernedTurn::Preview(_) | GovernedTurn::Decide { .. } => {
                    panic!("reading needs no approval")
                }
            };
        }
    }

    /// Retrieves knowledge, or breaks off where the backend is asked and does not answer.
    fn retrieve(
        &mut self,
        run: &mut RunContext,
        answers: bool,
    ) -> Result<Option<Retrieval>, HarnessError> {
        let id = KnowledgeRetrievalId(self.id());
        let evidence = evidence_set();
        let mut turn = begin_retrieval(run, self.seen(), true, id, &request());
        loop {
            turn = match turn {
                RetrievalTurn::Record(record, stage) => {
                    let result = self.record(run, record);
                    retrieval_recorded(run, stage, result)
                }
                RetrievalTurn::Retrieve { retrieval_id } => {
                    self.retrievals += 1;
                    if !answers {
                        return Ok(None);
                    }
                    let reply = RetrievalReply::Retrieved(RetrievedEvidence::of(&evidence));
                    retrieval_replied(run, retrieval_id, reply)
                }
                RetrievalTurn::Finished(result) => {
                    return result.map(|()| Some(Retrieval { id, evidence }))
                }
            };
        }
    }

    /// What the store gives back of the run.
    fn loaded(&self) -> LoadedRun {
        let (record, checkpoint) = self.created.clone().expect("the run is stored");
        LoadedRun::new(record, checkpoint, self.log.clone())
    }

    fn drive(
        &mut self,
        run: &mut RunContext,
        program: &mut Program,
        state: LoopState,
    ) -> Result<LoopRunSummary, LoopError> {
        let engine = LoopEngine::new();
        let mut state = state;
        let mut turn = engine.open();
        loop {
            turn = match turn {
                LoopTurn::Checkpoint(step) => {
                    let record = checkpoint(run, self.seen());
                    let result = self.record(run, record);
                    engine.on_checked(&mut state, run, step, result)
                }
                LoopTurn::BeginIteration => {
                    let record = begin_iteration(run, self.seen());
                    let result = self.record(run, record).map(|()| run.usage().iterations);
                    engine.on_begun(&mut state, run, result)
                }
                LoopTurn::Progress(event, step) => {
                    let record = record_loop_progress(run, self.seen(), event);
                    let result = self.record(run, record);
                    engine.on_progress(&state, run, step, result)
                }
                LoopTurn::Run(place) => {
                    let result = program.run(self, run, place);
                    engine.on_phase(run, place, result)
                }
                LoopTurn::CompleteRun => {
                    let record = complete_run(run, self.seen());
                    let result = self.record(run, record);
                    let step = FinalStep::Ended(TerminalLoopDecision::Complete);
                    engine.on_finalized(&state, run, step, result)
                }
                LoopTurn::FailRun(kind, step) => {
                    let record = fail_run(run, self.seen(), kind);
                    let result = self.record(run, record);
                    engine.on_finalized(&state, run, step, result)
                }
                LoopTurn::Finished(result) => return result,
            };
        }
    }

    fn run(
        &mut self,
        run: &mut RunContext,
        program: &mut Program,
    ) -> Result<LoopRunSummary, LoopError> {
        self.drive(run, program, LoopState::new())
    }

    fn loop_events(&self) -> Vec<LoopEventKind> {
        self.events
            .iter()
            .filter_map(|event| match event.kind {
                AgentEventKind::Loop { event } => Some(event),
                _ => None,
            })
            .collect()
    }
}

fn tool_name() -> ToolName {
    ToolName::new("m2_lookup".to_owned()).expect("test tool name must be valid")
}

/// A retrieval that completed.
struct Retrieval {
    id: KnowledgeRetrievalId,
    evidence: EvidenceSet,
}

/// A program that does what it is told, phase by phase.
struct Program {
    knowledge: bool,
    retrieval: Option<Retrieval>,
    phases: Vec<LoopPhase>,
    decisions: VecDeque<ReflectDecision>,
    verification: VerificationResult,
    effects: bool,
    swallow_model_error: bool,
    fail_phase: Option<LoopPhase>,
    cancel_in: Option<LoopPhase>,
    delay_in: Option<(LoopPhase, u128)>,
}

impl Program {
    fn new(decisions: Vec<ReflectDecision>) -> Program {
        Program {
            knowledge: false,
            retrieval: None,
            phases: Vec::new(),
            decisions: decisions.into(),
            verification: VerificationResult::Passed,
            effects: true,
            swallow_model_error: false,
            fail_phase: None,
            cancel_in: None,
            delay_in: None,
        }
    }

    fn without_effects(decisions: Vec<ReflectDecision>) -> Program {
        let mut program = Program::new(decisions);
        program.effects = false;
        program
    }

    /// A program that retrieves, and plans with what it found.
    fn knowing() -> Program {
        let mut program = Program::without_effects(Vec::new());
        program.knowledge = true;
        program
    }

    fn run(
        &mut self,
        world: &mut World,
        run: &mut RunContext,
        place: Place,
    ) -> Result<PhaseOutcome, LoopStepError> {
        let phase = place.phase;
        self.phases.push(phase);
        if self.cancel_in == Some(phase) {
            world.cancelled = true;
        }
        if let Some((delay_phase, seconds)) = self.delay_in {
            if delay_phase == phase {
                world.now += seconds * SECOND;
            }
        }
        if self.fail_phase == Some(phase) {
            return Err(LoopStepError::Program);
        }
        match phase {
            LoopPhase::Observe => Ok(PhaseOutcome::Done),
            LoopPhase::Retrieve => {
                if self.knowledge {
                    self.retrieval = world
                        .retrieve(run, true)
                        .map_err(LoopStepError::Harness)?;
                }
                Ok(PhaseOutcome::Done)
            }
            LoopPhase::Plan => {
                if self.knowledge {
                    let retrieval = self.retrieval.as_ref().ok_or(LoopStepError::Program)?;
                    let grounded = GroundedModelRequest::new(
                        vec![ModelMessage::new(
                            ModelRole::User,
                            "Answer with citations".to_owned(),
                        )],
                        &retrieval.evidence,
                    );
                    let binding = bind_grounding(
                        retrieval.id,
                        retrieval.evidence.manifest_digest(),
                        retrieval.evidence.evidence().len(),
                        grounded.manifest_digest(),
                        grounded.evidence_count(),
                    )
                    .map_err(LoopStepError::Harness)?;
                    world
                        .model(run, Some(binding))
                        .map_err(LoopStepError::Harness)?;
                }
                if self.effects {
                    match world.model(run, None) {
                        Ok(()) => {}
                        Err(_) if self.swallow_model_error => {}
                        Err(error) => return Err(LoopStepError::Harness(error)),
                    }
                }
                Ok(PhaseOutcome::Done)
            }
            LoopPhase::Act => {
                if self.effects {
                    world.tool(run).map_err(LoopStepError::Harness)?;
                }
                Ok(PhaseOutcome::Done)
            }
            LoopPhase::Verify => Ok(PhaseOutcome::Verified(self.verification)),
            LoopPhase::Reflect => {
                assert_eq!(place.verification, Some(self.verification));
                Ok(PhaseOutcome::Reflected(
                    self.decisions
                        .pop_front()
                        .unwrap_or(ReflectDecision::Complete),
                ))
            }
        }
    }
}

fn context(models: u32, tools: u32, iterations: u32, secs: u64) -> RunContext {
    let budget = RunBudget::new(models, tools, iterations, TimeSpan::from_secs(secs))
        .expect("test budget must be valid");
    RunContext::new(RunId(1), SessionId(2), budget)
}

fn expected_iteration() -> Vec<LoopPhase> {
    vec![
        LoopPhase::Observe,
        LoopPhase::Retrieve,
        LoopPhase::Plan,
        LoopPhase::Act,
        LoopPhase::Verify,
        LoopPhase::Reflect,
    ]
}

fn exceeded(dimension: BudgetDimension) -> RunStatus {
    RunStatus::Finished(RunOutcome::BudgetExceeded { dimension })
}

fn failed(kind: RunFailureKind) -> RunStatus {
    RunStatus::Finished(RunOutcome::Failed { kind })
}

#[test]
fn one_full_iteration_uses_harness_model_and_read_only_tool_then_completes() {
    let mut world = World::new(vec![Ok(())]);
    let mut run = context(1, 1, 2, 30);
    world.start(&mut run);
    let mut program = Program::new(vec![ReflectDecision::Complete]);

    let summary = world
        .run(&mut run, &mut program)
        .unwrap_or_else(|error| panic!("loop must complete: {error:?}"));

    assert_eq!(program.phases, expected_iteration());
    assert_eq!(world.model_calls, 1);
    assert_eq!(world.tool_calls, 1);
    assert_eq!(summary.reserved_iterations(), 1);
    assert_eq!(summary.completed_iterations(), 1);
    assert_eq!(summary.terminal_decision(), TerminalLoopDecision::Complete);
    assert_eq!(
        summary.final_status(),
        &RunStatus::Finished(RunOutcome::Completed)
    );
    assert_eq!(run.usage().model_calls, 1);
    assert_eq!(run.usage().tool_calls, 1);
    assert_eq!(run.usage().iterations, 1);
}

#[test]
fn reflect_continue_starts_exactly_one_new_ordered_iteration() {
    let mut world = World::new(vec![Ok(()), Ok(())]);
    let mut run = context(2, 2, 2, 30);
    world.start(&mut run);
    let mut program = Program::new(vec![ReflectDecision::Continue, ReflectDecision::Complete]);

    let summary = world
        .run(&mut run, &mut program)
        .unwrap_or_else(|error| panic!("second iteration must complete: {error:?}"));

    let mut expected = expected_iteration();
    expected.extend(expected_iteration());
    assert_eq!(program.phases, expected);
    assert_eq!(run.usage().iterations, 2);
    assert_eq!(summary.completed_iterations(), 2);
}

#[test]
fn reflect_complete_does_not_reserve_another_iteration() {
    let mut world = World::new(Vec::new());
    let mut run = context(0, 0, 3, 30);
    world.start(&mut run);
    let mut program = Program::without_effects(vec![ReflectDecision::Complete]);

    assert!(world.run(&mut run, &mut program).is_ok());

    assert_eq!(run.usage().iterations, 1);
    assert_eq!(program.phases, expected_iteration());
}

#[test]
fn reflect_fail_is_a_normal_typed_terminal_decision() {
    let mut world = World::new(Vec::new());
    let mut run = context(0, 0, 1, 30);
    world.start(&mut run);
    let mut program = Program::without_effects(vec![ReflectDecision::Fail {
        kind: LoopFailureKind::VerificationFailed,
    }]);
    program.verification = VerificationResult::Failed;

    let summary = world
        .run(&mut run, &mut program)
        .unwrap_or_else(|error| panic!("typed fail is a normal loop result: {error:?}"));

    let failure = RunFailureKind::Loop {
        kind: LoopFailureKind::VerificationFailed,
    };
    assert_eq!(run.status(), failed(failure));
    assert_eq!(
        summary.terminal_decision(),
        TerminalLoopDecision::Fail {
            kind: LoopFailureKind::VerificationFailed,
        }
    );
    assert!(world.loop_events().iter().any(|event| matches!(
        event,
        LoopEventKind::LoopFailed { kind, .. } if *kind == failure
    )));
}

#[test]
fn zero_iteration_budget_runs_no_phase_and_terminalizes_iterations() {
    let mut world = World::new(Vec::new());
    let mut run = context(0, 0, 0, 30);
    world.start(&mut run);
    let mut program = Program::without_effects(vec![ReflectDecision::Complete]);

    let result = world.run(&mut run, &mut program);

    assert!(matches!(
        result,
        Err(LoopError::Harness(HarnessError::BudgetExceeded(_)))
    ));
    assert!(program.phases.is_empty());
    assert_eq!(run.usage().iterations, 0);
    assert_eq!(run.status(), exceeded(BudgetDimension::Iterations));
}

#[test]
fn continue_cannot_begin_after_iteration_budget_is_consumed() {
    let mut world = World::new(Vec::new());
    let mut run = context(0, 0, 1, 30);
    world.start(&mut run);
    let mut program = Program::without_effects(vec![ReflectDecision::Continue]);

    let result = world.run(&mut run, &mut program);

    assert!(matches!(
        result,
        Err(LoopError::Harness(HarnessError::BudgetExceeded(_)))
    ));
    assert_eq!(program.phases, expected_iteration());
    assert_eq!(run.usage().iterations, 1);
    assert_eq!(run.status(), exceeded(BudgetDimension::Iterations));
}

#[test]
fn started_iteration_remains_consumed_after_program_failure() {
    let mut world = World::new(Vec::new());
    let mut run = context(0, 0, 2, 30);
    world.start(&mut run);
    let mut program = Program::without_effects(vec![ReflectDecision::Complete]);
    program.fail_phase = Some(LoopPhase::Observe);

    let result = world.run(&mut run, &mut program);

    assert!(matches!(
        result,
        Err(LoopError::Program {
            phase: LoopPhase::Observe
        })
    ));
    assert_eq!(run.usage().iterations, 1);
    assert_eq!(
        run.status(),
        failed(RunFailureKind::Loop {
            kind: LoopFailureKind::Program {
                phase: LoopPhase::Observe,
            },
        })
    );
}

#[test]
fn swallowed_terminal_harness_error_cannot_advance_after_plan() {
    let mut world = World::new(Vec::new());
    let mut run = context(0, 0, 1, 30);
    world.start(&mut run);
    let mut program = Program::new(vec![ReflectDecision::Complete]);
    program.swallow_model_error = true;

    let result = world.run(&mut run, &mut program);

    assert!(matches!(result, Err(LoopError::RunTerminal { .. })));
    assert_eq!(
        program.phases,
        vec![LoopPhase::Observe, LoopPhase::Retrieve, LoopPhase::Plan]
    );
    assert_eq!(world.model_calls, 0);
    assert_eq!(run.usage().iterations, 1);
    assert_eq!(run.status(), exceeded(BudgetDimension::ModelCalls));
    assert!(!world.loop_events().iter().any(|event| matches!(
        event,
        LoopEventKind::PhaseCompleted {
            phase: LoopPhase::Plan,
            ..
        }
    )));
}

#[test]
fn fail_closed_iteration_audit_consumes_slot_and_observe_never_runs() {
    let mut world = World::failing_on(AuditFailurePolicy::FailClosed, 2);
    let mut run = context(0, 0, 1, 30);
    world.start(&mut run);
    let mut program = Program::without_effects(vec![ReflectDecision::Complete]);

    let result = world.run(&mut run, &mut program);

    assert!(matches!(
        result,
        Err(LoopError::Harness(HarnessError::Audit { .. }))
    ));
    assert!(program.phases.is_empty());
    assert_eq!(run.usage().iterations, 1);
    assert_eq!(run.status(), failed(RunFailureKind::AuditUnavailable));
}

#[test]
fn fail_open_iteration_audit_marks_degraded_and_allows_observe() {
    let mut world = World::failing_on(AuditFailurePolicy::FailOpen, 2);
    let mut run = context(0, 0, 1, 30);
    world.start(&mut run);
    let mut program = Program::without_effects(vec![ReflectDecision::Complete]);

    assert!(world.run(&mut run, &mut program).is_ok());

    assert_eq!(program.phases.first(), Some(&LoopPhase::Observe));
    assert!(run.audit_degraded());
    assert_eq!(run.status(), RunStatus::Finished(RunOutcome::Completed));
}

#[test]
fn illegal_internal_transition_terminalizes_the_active_run() {
    let mut world = World::new(Vec::new());
    let mut run = context(0, 0, 2, 30);
    world.start(&mut run);
    let mut invalid_state = LoopState::new();
    assert!(invalid_state.begin_iteration(99).is_ok());
    assert!(matches!(
        invalid_state.position(),
        LoopPosition::PhaseReady(_)
    ));
    let mut program = Program::without_effects(vec![ReflectDecision::Complete]);

    let result = world.drive(&mut run, &mut program, invalid_state);

    assert!(matches!(result, Err(LoopError::Transition(_))));
    assert!(program.phases.is_empty());
    assert_eq!(
        run.status(),
        failed(RunFailureKind::Loop {
            kind: LoopFailureKind::InvariantViolation,
        })
    );
}

#[test]
fn terminal_context_emits_no_additional_loop_metadata() {
    let mut world = World::new(Vec::new());
    let mut run = context(0, 0, 1, 30);
    world.start(&mut run);
    let turn = cancel_run(&mut run);
    assert!(world.record(&mut run, turn).is_ok());
    let event_count = world.events.len();
    let mut program = Program::without_effects(vec![ReflectDecision::Complete]);

    let result = world.run(&mut run, &mut program);

    assert!(result.is_err());
    assert_eq!(world.events.len(), event_count);
    assert!(program.phases.is_empty());
}

#[test]
fn hard_model_budget_exhaustion_stops_before_act() {
    let mut world = World::new(Vec::new());
    let mut run = context(0, 1, 1, 30);
    world.start(&mut run);
    let mut program = Program::new(vec![ReflectDecision::Complete]);

    let result = world.run(&mut run, &mut program);

    assert!(result.is_err());
    assert_eq!(
        program.phases,
        vec![LoopPhase::Observe, LoopPhase::Retrieve, LoopPhase::Plan]
    );
    assert_eq!(world.model_calls, 0);
    assert_eq!(world.tool_calls, 0);
    assert_eq!(run.status(), exceeded(BudgetDimension::ModelCalls));
}

#[test]
fn non_terminal_model_error_remains_typed_and_fails_without_retry() {
    let mut world = World::new(vec![Err(ModelPortError::Rejected)]);
    let mut run = context(1, 1, 1, 30);
    world.start(&mut run);
    let mut program = Program::new(vec![ReflectDecision::Complete]);

    let result = world.run(&mut run, &mut program);

    assert!(matches!(
        result,
        Err(LoopError::Harness(HarnessError::ModelPort(
            ModelPortError::Rejected
        )))
    ));
    assert_eq!(world.model_calls, 1);
    assert_eq!(world.tool_calls, 0);
    assert_eq!(run.status(), failed(RunFailureKind::Model));
    assert!(world.loop_events().iter().any(|event| matches!(
        event,
        LoopEventKind::LoopFailed {
            kind: RunFailureKind::Model,
            ..
        }
    )));
}

#[test]
fn hard_tool_budget_exhaustion_stops_before_verify() {
    let mut world = World::new(vec![Ok(())]);
    let mut run = context(1, 0, 1, 30);
    world.start(&mut run);
    let mut program = Program::new(vec![ReflectDecision::Complete]);

    let result = world.run(&mut run, &mut program);

    assert!(result.is_err());
    assert_eq!(
        program.phases,
        vec![
            LoopPhase::Observe,
            LoopPhase::Retrieve,
            LoopPhase::Plan,
            LoopPhase::Act,
        ]
    );
    assert_eq!(world.model_calls, 1);
    assert_eq!(world.tool_calls, 0);
    assert_eq!(run.status(), exceeded(BudgetDimension::ToolCalls));
}

#[test]
fn cancellation_between_phases_is_terminal_and_consumes_iteration() {
    let mut world = World::new(Vec::new());
    let mut run = context(0, 0, 1, 30);
    world.start(&mut run);
    let mut program = Program::without_effects(vec![ReflectDecision::Complete]);
    program.cancel_in = Some(LoopPhase::Observe);

    let result = world.run(&mut run, &mut program);

    assert!(result.is_err());
    assert_eq!(program.phases, vec![LoopPhase::Observe]);
    assert_eq!(run.usage().iterations, 1);
    assert_eq!(run.status(), RunStatus::Finished(RunOutcome::Cancelled));
}

#[test]
fn elapsed_deadline_between_phases_is_terminal_and_consumes_iteration() {
    let mut world = World::new(Vec::new());
    let mut run = context(0, 0, 1, 1);
    world.start(&mut run);
    let mut program = Program::without_effects(vec![ReflectDecision::Complete]);
    program.delay_in = Some((LoopPhase::Observe, 2));

    let result = world.run(&mut run, &mut program);

    assert!(result.is_err());
    assert_eq!(program.phases, vec![LoopPhase::Observe]);
    assert_eq!(run.usage().iterations, 1);
    assert_eq!(run.status(), exceeded(BudgetDimension::Elapsed));
}

#[test]
fn loop_and_event_ordering_is_deterministic_and_payload_free() {
    let mut world = World::new(vec![Ok(())]);
    let mut run = context(1, 1, 1, 30);
    world.start(&mut run);
    let mut program = Program::new(vec![ReflectDecision::Complete]);

    assert!(world.run(&mut run, &mut program).is_ok());

    let sequences: Vec<u64> = world.events.iter().map(|event| event.sequence.0).collect();
    let expected: Vec<u64> = (0..world.events.len() as u64).collect();
    assert_eq!(sequences, expected);
    assert!(world.events.iter().all(|event| event.schema_version == 5));
    assert!(matches!(
        world.events.last().map(|event| &event.kind),
        Some(AgentEventKind::RunFinished {
            outcome: RunOutcome::Completed,
        })
    ));
    let mut expected = vec![LoopEventKind::IterationStarted {
        iteration: 1,
        usage: 1,
        limit: 1,
    }];
    for phase in expected_iteration() {
        expected.push(LoopProgressEvent::PhaseEntered { iteration: 1, phase }.to_loop_event());
        expected.push(LoopProgressEvent::PhaseCompleted { iteration: 1, phase }.to_loop_event());
    }
    expected.push(LoopEventKind::ReflectDecision {
        iteration: 1,
        decision: LoopDecisionKind::Complete,
    });
    expected.push(LoopEventKind::IterationCompleted { iteration: 1 });
    expected.push(LoopEventKind::LoopCompleted {
        completed_iterations: 1,
    });
    assert_eq!(world.loop_events(), expected);
}

const KNOWLEDGE_VERSION: u32 = 8;

fn knowing_context() -> RunContext {
    let budget =
        RunBudget::new(1, 0, 1, TimeSpan::from_secs(30)).expect("test budget must be valid");
    RunContext::new_restartable_retrieval(RunId(1), SessionId(2), budget, KNOWLEDGE_VERSION)
}

fn request() -> KnowledgeRequest {
    let query = match KnowledgeQuery::new("ISO charging loop requirements".to_owned()) {
        Ok(query) => query,
        Err(_) => panic!("query"),
    };
    KnowledgeRequest::new(
        query,
        KnowledgeRoute::single(KnowledgeBackendId::StandardsMcp),
        RetrievalLimits::default(),
    )
}

fn evidence_set() -> EvidenceSet {
    let backend = KnowledgeBackendId::StandardsMcp;
    let evidence = match Evidence::new(
        EvidenceId::new("standards:chunk-1".to_owned()).unwrap_or_else(|_| panic!("id")),
        EvidenceSource::new(backend, "ISO15118-20".to_owned()).unwrap_or_else(|_| panic!("source")),
        "The charging loop has bounded protocol semantics.".to_owned(),
        1,
        None,
        Some("ISO15118-20".to_owned()),
        Some("chunk-1".to_owned()),
        "ISO15118-20:chunk-1".to_owned(),
        None,
        None,
        EvidenceMetadata::Standards {
            source_title: "ISO 15118-20".to_owned(),
            section: Some("8.4".to_owned()),
            heading: Some("Charge loop".to_owned()),
            page_range: Some("42-43".to_owned()),
            chunk_type: "text".to_owned(),
        },
    ) {
        Ok(evidence) => evidence,
        Err(_) => panic!("evidence"),
    };
    let set = match BackendEvidenceSet::new(backend, vec![evidence], None, false) {
        Ok(set) => set,
        Err(_) => panic!("backend set"),
    };
    match EvidenceSet::from_backend(set, RetrievalLimits::default()) {
        Ok(set) => set,
        Err(_) => panic!("set"),
    }
}

#[test]
fn full_retrieve_evidence_grounded_plan_flow_is_harness_governed() {
    let mut world = World::durable(vec![Ok(())]);
    let mut run = knowing_context();
    world.start(&mut run);
    let mut program = Program::knowing();

    let summary = world
        .run(&mut run, &mut program)
        .unwrap_or_else(|error| panic!("the loop must complete: {error:?}"));

    assert_eq!(world.retrievals, 1);
    assert_eq!(world.model_calls, 1);
    assert_eq!(run.usage().tool_calls, 0);
    assert!(program.retrieval.is_some());
    assert_eq!(summary.completed_iterations(), 1);
    assert!(matches!(
        recover_loaded_run(world.loaded(), 2_000, MonotonicTime { nanos: 5 }),
        Ok(RecoveryDisposition::Completed { .. })
    ));
}

#[test]
fn interrupted_retrieval_replay_is_inert_then_explicit_resume_retrieves_fresh() {
    let mut world = World::durable(vec![Ok(())]);
    let mut run = knowing_context();
    world.start(&mut run);
    let turn = begin_iteration(&mut run, world.seen());
    assert!(world.record(&mut run, turn).is_ok());
    for event in [
        LoopProgressEvent::PhaseEntered {
            iteration: 1,
            phase: LoopPhase::Observe,
        },
        LoopProgressEvent::PhaseCompleted {
            iteration: 1,
            phase: LoopPhase::Observe,
        },
        LoopProgressEvent::PhaseEntered {
            iteration: 1,
            phase: LoopPhase::Retrieve,
        },
    ] {
        let turn = record_loop_progress(&mut run, world.seen(), event);
        assert!(world.record(&mut run, turn).is_ok());
    }
    assert!(matches!(world.retrieve(&mut run, false), Ok(None)));
    assert_eq!(world.retrievals, 1);

    let recovered = match recover_loaded_run(world.loaded(), 2_000, MonotonicTime { nanos: 5 }) {
        Ok(RecoveryDisposition::Resumable(recovered)) => recovered,
        _ => panic!("retrieval-aware run must be resumable"),
    };
    assert_eq!(world.retrievals, 1, "replay must not retrieve");
    assert_eq!(world.model_calls, 0, "replay must not plan");

    let (mut run, durable, contract) = recovered.into_parts();
    let state = match LoopEngine::new().resume_state(&durable, contract, KNOWLEDGE_VERSION, true) {
        Ok(state) => state,
        Err(error) => panic!("the loop must be resumable: {error:?}"),
    };
    let mut program = Program::knowing();
    let summary = world
        .drive(&mut run, &mut program, state)
        .unwrap_or_else(|error| panic!("the loop must complete: {error:?}"));

    assert_eq!(world.retrievals, 2);
    assert_eq!(world.model_calls, 1);
    assert!(program.retrieval.is_some());
    assert_eq!(program.phases.first(), Some(&LoopPhase::Retrieve));
    assert_eq!(summary.completed_iterations(), 1);
    assert_eq!(summary.terminal_decision(), TerminalLoopDecision::Complete);
}

#[test]
fn retrieval_is_explicit_metadata_only_and_grounding_does_not_gain_tool_authority() {
    let mut world = World::durable(vec![Ok(())]);
    let mut run = knowing_context();
    world.start(&mut run);
    let mut program = Program::knowing();

    assert!(world.run(&mut run, &mut program).is_ok());

    assert_eq!(world.retrievals, 1);
    assert_eq!(world.model_calls, 1);
    assert_eq!(world.tool_calls, 0);
    assert_eq!(run.usage().tool_calls, 0);
    let written = format!("{:?}", world.events);
    assert!(!written.contains("ISO charging loop requirements"));
    assert!(!written.contains("The charging loop has bounded protocol semantics."));
    let completed = world
        .events
        .iter()
        .position(|event| {
            matches!(
                event.kind,
                AgentEventKind::KnowledgeRetrievalCompleted { .. }
            )
        })
        .expect("the retrieval completes");
    let bound = world
        .events
        .iter()
        .position(|event| matches!(event.kind, AgentEventKind::ModelGroundingBound { .. }))
        .expect("the call is bound to its evidence");
    assert!(completed < bound);
}
