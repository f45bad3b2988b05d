use agent_runtime::action::{ActionProposal, ActionValidator, ValidatedAction};
use agent_runtime::approval::ApprovalPreview;
use agent_runtime::audit::AuditFailurePolicy;
use agent_runtime::budget::{BudgetDimension, RunBudget, TimeSpan};
use agent_runtime::context::{MonotonicTime, Observation, RunContext};
use agent_runtime::digest::Digest32;
use agent_runtime::durable_approval::{
    ActionSealBinding, DurableActionContext, DurableApprovalDecisionCommand, DurableApprovalRecord,
    DurableApprovalStatus, DurableApprovalWait, GraphDefinitionDigest, LocalWriteActionCapsuleV1,
    SealedLocalWriteAction, MAX_DURABLE_CONTENT_BYTES, MAX_DURABLE_RELATIVE_PATH_BYTES,
};
use agent_runtime::error::{ActionSealError, ContainmentPortError, HarnessError};
use agent_runtime::events::{
    AgentEvent, AgentEventKind, CapabilityKind, DurableApprovalOutcome, GraphNodeKind,
    GraphRecoveryMode,
};
use agent_runtime::ids::{
    ActionProposalId, ApprovalRequestId, DurableApprovalWaitId, GraphNodeAttemptId, GraphNodeId,
    ModelCallId, RunId, SessionId, ToolCallId, ToolName, WorkspaceBindingId,
};
use agent_runtime::operations::{enter_graph_node, start_graph};
use agent_runtime::persistence::RunKey;
use agent_runtime::policy::{AuthorizationDecision, M6ApprovalPolicy};
use agent_runtime::positions::{ContinuationState, DurableGraphPosition};
use agent_runtime::record::{
    append_request, on_appended, on_audited, on_encoded, AuditOutcome, RecordTurn, Settings,
};
use agent_runtime::resume::{
    ask_about_write, begin_abort, begin_decision, begin_resume, outcome_command, record_loaded,
    restored_preview_rendered, resume_recorded, seal_opened, status_moved, write_authorized,
    write_replied, AbortStep, ResumeOutcome, ResumeStage, ResumeTurn, StatusMove,
};
use agent_runtime::start::{begin_start, run_created, start_recorded, StartClock, StartTurn};
use agent_runtime::status::{RunOutcome, RunStatus};
use agent_runtime::tool_call::{ToolOutcome, ToolReply};
use agent_runtime::tools::{ExecutionKind, ToolDefinition, ToolInput, ToolRegistry, ToolSchema};
use agent_runtime::waits::{
    begin_suspension, suspension_authorized, suspension_recorded, wait_previewed, wait_sealed,
    SuspensionStage, SuspensionTurn, WaitIds, WaitSetup,
};

const SETTINGS: Settings = Settings {
    audit_failure_policy: AuditFailurePolicy::FailClosed,
    durable: true,
};

const CLOCK: StartClock = StartClock {
    now: MonotonicTime { nanos: 0 },
    unix_millis: Some(1_000),
};

const SEEN: Observation = Observation {
    cancelled: false,
    now: MonotonicTime { nanos: 1 },
};

const SETUP: WaitSetup = WaitSetup {
    has_store: true,
    has_seal: true,
    workspace: Some(WorkspaceBindingId(50)),
};

const WAIT: DurableApprovalWaitId = DurableApprovalWaitId(33);

const ARGUMENTS: &str = r#"{"relative_path":"notes/today.txt","content":"hello"}"#;

/// A store with at most one wait in it, and everything that was written down.
struct World {
    wait: Option<(DurableApprovalStatus, u64)>,
    binding: Option<ActionSealBinding>,
    events: Vec<AgentEvent>,
    invoked: usize,
    moves: Vec<(DurableApprovalStatus, DurableApprovalStatus)>,
    /// Whether a checkpoint went with each event that an operation stored itself.
    checkpoints: Vec<bool>,
    loads: Vec<RunKey>,
}

impl World {
    fn new() -> World {
        World {
            wait: None,
            binding: None,
            events: Vec::new(),
            invoked: 0,
            moves: Vec::new(),
            checkpoints: Vec::new(),
            loads: Vec::new(),
        }
    }

    fn move_wait(&mut self, step: &StatusMove) {
        let (status, row_version) = self.wait.expect("a wait is stored");
        assert_eq!(step.wait_id, WAIT);
        assert_eq!(status, step.expected_status);
        assert_eq!(row_version, step.expected_row_version);
        self.moves.push((step.expected_status, step.next_status));
        self.wait = Some((step.next_status, row_version + 1));
    }

    fn record(
        &mut self,
        context: &mut RunContext,
        turn: RecordTurn,
    ) -> Result<(), HarnessError> {
        let mut turn = turn;
        loop {
            turn = match turn {
                RecordTurn::Encode(recording) => {
                    let encoding = Some(format!("{:?}", recording.event).into_bytes());
                    on_encoded(context, SETTINGS, recording, &encoding)
                }
                RecordTurn::Store(recording) => {
                    let request = append_request(context, &recording);
                    self.checkpoints.push(request.checkpoint.is_some());
                    self.events.push(recording.event.clone());
                    on_appended(context, SETTINGS, recording, Ok(()))
                }
                RecordTurn::Append(recording) => {
                    self.events.push(recording.event.clone());
                    on_appended(context, SETTINGS, recording, Ok(()))
                }
                RecordTurn::Audit(recording) => {
                    on_audited(context, SETTINGS, recording, AuditOutcome::Recorded)
                }
                RecordTurn::Finished(result) => return result,
            };
        }
    }

    fn stored_record(&self) -> DurableApprovalRecord {
        let (status, row_version) = self.wait.expect("a wait is stored");
        let binding = self.binding.as_ref().expect("a wait is stored");
        DurableApprovalRecord::new(same_binding(binding), sealed())
            .restore_store_state(status, row_version)
    }
}

fn same_binding(binding: &ActionSealBinding) -> ActionSealBinding {
    ActionSealBinding::new(
        binding.key(),
        binding.program_version,
        binding.graph_digest,
        binding.node_id.clone(),
        binding.attempt_id,
        binding.wait_id,
        binding.approval_request_id,
        binding.action_proposal_id,
        binding.tool_call_id,
        binding.action_digest,
        binding.workspace_binding_id,
        binding.tool_contract_digest,
    )
}

fn sealed() -> SealedLocalWriteAction {
    match SealedLocalWriteAction::new("key-1".to_owned(), vec![1], vec![2]) {
        Ok(sealed) => sealed,
        Err(_) => panic!("the seal is fine"),
    }
}

fn node() -> GraphNodeId {
    GraphNodeId::new("action".to_owned()).expect("node")
}

fn graph() -> GraphDefinitionDigest {
    GraphDefinitionDigest::from_bytes([7; 32])
}

fn registry(execution: ExecutionKind, description: &str) -> ToolRegistry {
    let schema = match ToolSchema::new(
        serde_json::from_str(r#"{"type": "object"}"#).expect("the literal is JSON"),
    ) {
        Ok(schema) => schema,
        Err(_) => panic!("schema"),
    };
    let definition = match ToolDefinition::new(
        ToolName::new("workspace_write_file".to_owned()).expect("name"),
        description.to_owned(),
        CapabilityKind::LocalWrite,
        schema,
    ) {
        Ok(definition) => definition,
        Err(_) => panic!("definition"),
    };
    let mut registry = ToolRegistry::new();
    if registry.register(definition, execution).is_err() {
        panic!("tool must register");
    }
    registry
}

fn contained() -> ToolRegistry {
    registry(ExecutionKind::Contained, "writes a file")
}

fn action(registry: &ToolRegistry, arguments: &str) -> ValidatedAction {
    let proposal = ActionProposal::new(
        ActionProposalId(30),
        ModelCallId(31),
        ToolName::new("workspace_write_file".to_owned()).expect("name"),
        ToolInput::new(serde_json::from_str(arguments).expect("the literal is JSON")),
    );
    match ActionValidator::validate(proposal, registry) {
        Ok(action) => action,
        Err(error) => panic!("action must be valid: {:?}", error.reason()),
    }
}

/// A run of a graph program that stands in its action node.
fn acting(world: &mut World, approvals: u32, tools: u32) -> RunContext {
    let budget = RunBudget::new(1, tools, 1, TimeSpan::from_secs(60))
        .expect("budget")
        .with_max_approval_requests(approvals)
        .with_max_graph_steps(8)
        .expect("graph budget");
    let mut run = RunContext::new_graph(
        RunId(1),
        SessionId(2),
        budget,
        9,
        Digest32::from_bytes([7; 32]),
    );
    let mut turn = begin_start(&mut run, SETTINGS, CLOCK);
    loop {
        turn = match turn {
            StartTurn::CreateRun => run_created(&mut run, Ok(()), CLOCK),
            StartTurn::Record(record, stage) => {
                let result = world.record(&mut run, record);
                start_recorded(&mut run, SETTINGS, stage, result)
            }
            StartTurn::Finished(result) => {
                assert!(result.is_ok());
                break;
            }
        };
    }
    let turn = start_graph(
        &mut run,
        SEEN,
        Digest32::from_bytes([7; 32]),
        node(),
        GraphNodeKind::Action,
        GraphRecoveryMode::Never,
    );
    assert!(world.record(&mut run, turn).is_ok());
    let turn = enter_graph_node(
        &mut run,
        SEEN,
        GraphNodeAttemptId(20),
        node(),
        GraphNodeKind::Action,
        GraphRecoveryMode::Never,
    );
    assert!(world.record(&mut run, turn).is_ok());
    run
}

fn place() -> DurableActionContext {
    DurableActionContext {
        program_version: 9,
        graph_digest: graph(),
        node_id: node(),
        attempt_id: GraphNodeAttemptId(20),
    }
}

fn suspend(
    world: &mut World,
    run: &mut RunContext,
    registry: &ToolRegistry,
    setup: WaitSetup,
    decision: AuthorizationDecision,
    arguments: &str,
) -> Result<DurableApprovalWait, HarnessError> {
    let ids = WaitIds {
        tool_call_id: ToolCallId(34),
        approval_request_id: ApprovalRequestId(35),
        wait_id: WAIT,
    };
    let action = action(registry, arguments);
    let mut turn = begin_suspension(run, SEEN, setup, action, place());
    loop {
        turn = match turn {
            SuspensionTurn::Authorize(request) => {
                suspension_authorized(run, registry, request, decision)
            }
            SuspensionTurn::Preview(plan) => wait_previewed(run, plan, ids, Ok(())),
            SuspensionTurn::Seal { binding, capsule } => {
                assert_eq!(capsule.relative_path(), "notes/today.txt");
                assert_eq!(capsule.content(), "hello");
                wait_sealed(run, binding, Ok(sealed()))
            }
            SuspensionTurn::Record(record, stage) => {
                if let SuspensionStage::Suspending { record } = &stage {
                    world.wait = Some((record.status(), record.row_version()));
                    world.binding = Some(same_binding(record.binding()));
                }
                let result = world.record(run, record);
                suspension_recorded(run, stage, result)
            }
            SuspensionTurn::Finished(result) => return result,
        };
    }
}

fn suspended(world: &mut World, approvals: u32, tools: u32) -> RunContext {
    let registry = contained();
    let mut run = acting(world, approvals, tools);
    match suspend(
        world,
        &mut run,
        &registry,
        SETUP,
        AuthorizationDecision::RequiresApproval,
        ARGUMENTS,
    ) {
        Ok(wait) => {
            assert_eq!(wait.wait_id(), WAIT);
            assert_eq!(wait.tool_call_id(), ToolCallId(34));
            assert_eq!(wait.action_proposal_id(), ActionProposalId(30));
        }
        Err(error) => panic!("the write must be suspended: {error:?}"),
    }
    run
}

fn decide(world: &mut World, run: &mut RunContext, outcome: DurableApprovalOutcome) {
    let key = run.key();
    let command = match outcome_command(run.durable_state(), key, WAIT, 0, outcome) {
        Ok(command) => command,
        Err(error) => panic!("the run waits: {error:?}"),
    };
    let turn = begin_decision(run, &command);
    assert!(world.record(run, turn).is_ok());
    world.wait = Some((
        match outcome {
            DurableApprovalOutcome::Approve => DurableApprovalStatus::DecisionRecordedApprove,
            DurableApprovalOutcome::Deny => DurableApprovalStatus::DecisionRecordedDeny,
        },
        1,
    ));
}

fn resume(
    world: &mut World,
    run: &mut RunContext,
    registry: &ToolRegistry,
    content: &str,
) -> Result<ResumeOutcome, HarnessError> {
    let mut turn = begin_resume(run, WAIT, true);
    loop {
        turn = match turn {
            ResumeTurn::Authorize(opening) => {
                let decision = ask_about_write(&M6ApprovalPolicy);
                write_authorized(run, registry, opening, decision)
            }
            ResumeTurn::Load(stage) => {
                world.loads.push(stage.key());
                let loaded = Ok(world.stored_record());
                record_loaded(
                    run,
                    SEEN,
                    SETUP,
                    registry,
                    stage,
                    loaded,
                )
            }
            ResumeTurn::Open(opening) => {
                let capsule = match LocalWriteActionCapsuleV1::new(
                    "notes/today.txt".to_owned(),
                    content.to_owned(),
                ) {
                    Ok(capsule) => capsule,
                    Err(_) => panic!("capsule"),
                };
                seal_opened(registry, opening, Ok(capsule))
            }
            ResumeTurn::Preview(restored) => restored_preview_rendered(run, restored, Ok(())),
            ResumeTurn::Move(step, stage) => {
                world.move_wait(&step);
                status_moved(run, stage, Ok(()))
            }
            ResumeTurn::Record(record, stage) => {
                let store = match &stage {
                    ResumeStage::Consuming { store, .. }
                    | ResumeStage::Resuming { store, .. }
                    | ResumeStage::Starting { store, .. } => Some(*store),
                    _ => None,
                };
                let result = world.record(run, record);
                if let Some(store) = store {
                    world.move_wait(&store);
                }
                resume_recorded(run, stage, result)
            }
            ResumeTurn::Invoke { plan, call } => {
                world.invoked += 1;
                assert_eq!(
                    world.wait.expect("a wait is stored").0,
                    DurableApprovalStatus::Executing
                );
                assert_eq!(call.tool_name.as_str(), "workspace_write_file");
                assert_eq!(call.arguments.as_value()["content"], "hello");
                let reply = ToolReply::Answered {
                    call_id: call.id,
                    outcome: ToolOutcome::Succeeded,
                };
                write_replied(run, plan, call.id, reply)
            }
            ResumeTurn::Finished(result) => return result,
        };
    }
}

#[test]
fn an_approved_write_is_claimed_executed_and_consumed() {
    let mut world = World::new();
    let mut run = suspended(&mut world, 1, 1);
    assert_eq!(run.usage().approval_requests, 1);
    assert_eq!(world.wait, Some((DurableApprovalStatus::Waiting, 0)));
    decide(&mut world, &mut run, DurableApprovalOutcome::Approve);

    match resume(&mut world, &mut run, &contained(), "hello") {
        Ok(ResumeOutcome::Executed {
            attempt_id,
            node_id,
        }) => {
            assert_eq!(attempt_id, GraphNodeAttemptId(20));
            assert_eq!(node_id.as_str(), "action");
        }
        Ok(_) => panic!("the write must be executed"),
        Err(error) => panic!("the wait must be carried on: {error:?}"),
    }

    assert_eq!(world.invoked, 1);
    assert_eq!(run.usage().tool_calls, 1);
    assert_eq!(
        world.moves,
        vec![
            (
                DurableApprovalStatus::DecisionRecordedApprove,
                DurableApprovalStatus::ApprovedReady
            ),
            (
                DurableApprovalStatus::ApprovedReady,
                DurableApprovalStatus::ApprovedReady
            ),
            (
                DurableApprovalStatus::ApprovedReady,
                DurableApprovalStatus::Executing
            ),
            (
                DurableApprovalStatus::Executing,
                DurableApprovalStatus::Consumed
            ),
        ]
    );
    assert!(matches!(
        resume(&mut world, &mut run, &contained(), "hello"),
        Err(HarnessError::DurableApprovalMismatch)
    ));
    assert_eq!(world.invoked, 1);
}

#[test]
fn a_denied_write_is_consumed_without_being_executed() {
    let mut world = World::new();
    let mut run = suspended(&mut world, 1, 1);
    decide(&mut world, &mut run, DurableApprovalOutcome::Deny);

    assert!(matches!(
        resume(&mut world, &mut run, &contained(), "hello"),
        Ok(ResumeOutcome::Denied { .. })
    ));
    assert_eq!(world.invoked, 0);
    assert_eq!(run.usage().tool_calls, 0);
    assert_eq!(
        world.wait.expect("a wait is stored").0,
        DurableApprovalStatus::Consumed
    );
}

#[test]
fn an_undecided_wait_is_not_carried_on() {
    let mut world = World::new();
    let mut run = suspended(&mut world, 1, 1);
    assert!(matches!(
        resume(&mut world, &mut run, &contained(), "hello"),
        Err(HarnessError::DurableApprovalMismatch)
    ));
    assert_eq!(world.invoked, 0);
}

#[test]
fn a_write_other_than_the_approved_one_is_not_restored() {
    let mut world = World::new();
    let mut run = suspended(&mut world, 1, 1);
    decide(&mut world, &mut run, DurableApprovalOutcome::Approve);
    assert!(matches!(
        resume(&mut world, &mut run, &contained(), "something else"),
        Err(HarnessError::DurableApprovalMismatch)
    ));
    assert_eq!(world.invoked, 0);
}

#[test]
fn a_tool_that_changed_meanwhile_is_not_called() {
    for (tools, missing) in [
        (registry(ExecutionKind::Contained, "another contract"), false),
        (ToolRegistry::new(), true),
    ] {
        let mut world = World::new();
        let mut run = suspended(&mut world, 1, 1);
        decide(&mut world, &mut run, DurableApprovalOutcome::Approve);
        match resume(&mut world, &mut run, &tools, "hello") {
            Err(HarnessError::ToolNotFound { .. }) => assert!(missing),
            Err(HarnessError::DurableApprovalMismatch) => assert!(!missing),
            _ => panic!("the write must not be restored"),
        }
        assert_eq!(world.invoked, 0);
    }
}

#[test]
fn a_resumed_write_needs_room_in_the_budget() {
    let mut world = World::new();
    let mut run = suspended(&mut world, 1, 0);
    decide(&mut world, &mut run, DurableApprovalOutcome::Approve);
    match resume(&mut world, &mut run, &contained(), "hello") {
        Err(error) => assert_eq!(error.budget_dimension(), Some(BudgetDimension::ToolCalls)),
        Ok(_) => panic!("there is no room"),
    }
    assert_eq!(world.invoked, 0);
}

#[test]
fn a_write_is_suspended_only_where_everything_stands_ready() {
    let refused = |setup: WaitSetup, decision: AuthorizationDecision, arguments: &str| {
        let mut world = World::new();
        let mut run = acting(&mut world, 1, 1);
        match suspend(
            &mut world,
            &mut run,
            &contained(),
            setup,
            decision,
            arguments,
        ) {
            Ok(_) => panic!("the write must not be suspended"),
            Err(error) => {
                assert_eq!(run.usage().approval_requests, 0);
                error
            }
        }
    };
    let approval = AuthorizationDecision::RequiresApproval;
    assert!(matches!(
        refused(
            WaitSetup {
                has_store: false,
                ..SETUP
            },
            approval,
            ARGUMENTS
        ),
        HarnessError::Persistence(_)
    ));
    assert!(matches!(
        refused(
            WaitSetup {
                has_seal: false,
                ..SETUP
            },
            approval,
            ARGUMENTS
        ),
        HarnessError::ActionSeal(ActionSealError::KeyUnavailable)
    ));
    assert!(matches!(
        refused(
            WaitSetup {
                workspace: None,
                ..SETUP
            },
            approval,
            ARGUMENTS
        ),
        HarnessError::DurableApprovalMismatch
    ));
    assert!(matches!(
        refused(SETUP, AuthorizationDecision::Allowed, ARGUMENTS),
        HarnessError::DurableApprovalMismatch
    ));
    assert!(matches!(
        refused(SETUP, approval, r#"{"relative_path":"a","content":1}"#),
        HarnessError::DurableApprovalMismatch
    ));
    assert!(matches!(
        refused(
            SETUP,
            approval,
            r#"{"relative_path":"a","content":"b","more":1}"#
        ),
        HarnessError::DurableApprovalMismatch
    ));
    assert!(matches!(
        refused(
            SETUP,
            approval,
            r#"{"relative_path":"../a","content":"b"}"#
        ),
        HarnessError::ActionSeal(ActionSealError::InvalidCapsule)
    ));
}

#[test]
fn a_direct_tool_cannot_be_suspended_and_a_budget_can_run_out() {
    let mut world = World::new();
    let mut run = acting(&mut world, 1, 1);
    assert!(matches!(
        suspend(
            &mut world,
            &mut run,
            &registry(ExecutionKind::Direct, "writes a file"),
            SETUP,
            AuthorizationDecision::RequiresApproval,
            ARGUMENTS
        ),
        Err(HarnessError::ContainmentUnavailable { .. })
    ));
    let mut world = World::new();
    let mut run = acting(&mut world, 0, 1);
    match suspend(
        &mut world,
        &mut run,
        &contained(),
        SETUP,
        AuthorizationDecision::RequiresApproval,
        ARGUMENTS,
    ) {
        Err(error) => assert_eq!(
            error.budget_dimension(),
            Some(BudgetDimension::ApprovalRequests)
        ),
        Ok(_) => panic!("there is no room"),
    }
    assert!(matches!(run.status(), RunStatus::Finished(_)));
}

#[test]
fn a_decision_must_be_for_the_question_that_was_put() {
    let mut world = World::new();
    let mut run = suspended(&mut world, 1, 1);
    let key = run.key();
    let command = |request: u128, digest: Digest32| DurableApprovalDecisionCommand {
        key,
        wait_id: WAIT,
        approval_request_id: ApprovalRequestId(request),
        action_proposal_id: ActionProposalId(30),
        tool_call_id: ToolCallId(34),
        action_digest: digest,
        expected_row_version: 0,
        outcome: DurableApprovalOutcome::Approve,
        actor: None,
        decided_at_unix_millis: None,
    };
    let digest = world
        .binding
        .as_ref()
        .expect("a wait is stored")
        .action_digest;
    for wrong in [
        command(36, digest),
        command(35, Digest32::from_bytes([1; 32])),
    ] {
        assert!(matches!(
            begin_decision(&mut run, &wrong),
            RecordTurn::Finished(Err(HarnessError::DurableApprovalMismatch))
        ));
    }
    assert!(matches!(
        outcome_command(
            run.durable_state(),
            key,
            DurableApprovalWaitId(99),
            0,
            DurableApprovalOutcome::Approve
        ),
        Err(HarnessError::DurableApprovalMismatch)
    ));
    let turn = begin_decision(&mut run, &command(35, digest));
    assert!(world.record(&mut run, turn).is_ok());
    assert!(matches!(
        world.events.last().expect("an event").kind,
        AgentEventKind::DurableApprovalDecisionRecorded { row_version: 1, .. }
    ));
}

#[test]
fn only_an_undecided_wait_is_given_up() {
    let mut world = World::new();
    let mut run = suspended(&mut world, 1, 1);
    let record = world.stored_record();
    assert!(matches!(
        begin_abort(&mut run, WAIT, 5, &record),
        AbortStep::Failed(HarnessError::DurableApprovalMismatch)
    ));
    match begin_abort(&mut run, WAIT, 0, &record) {
        AbortStep::Record(turn, step) => {
            assert_eq!(step.key, run.key());
            assert_eq!(step.expected_row_version, 0);
            assert_eq!(step.next_status, DurableApprovalStatus::Consumed);
            assert!(world.record(&mut run, turn).is_ok());
        }
        AbortStep::Failed(error) => panic!("the wait must be given up: {error:?}"),
    }
    assert_eq!(run.status(), RunStatus::Finished(RunOutcome::Cancelled));
}

#[test]
fn a_failing_preview_stops_a_suspension() {
    let mut world = World::new();
    let registry = contained();
    let mut run = acting(&mut world, 1, 1);
    let turn = begin_suspension(
        &mut run,
        SEEN,
        SETUP,
        action(&registry, ARGUMENTS),
        place(),
    );
    let request = match turn {
        SuspensionTurn::Authorize(request) => request,
        _ => panic!("the policy is asked first"),
    };
    let decision = request.ask(&M6ApprovalPolicy);
    let plan = match suspension_authorized(&run, &registry, request, decision) {
        SuspensionTurn::Preview(plan) => plan,
        _ => panic!("the write is shown first"),
    };
    let ids = WaitIds {
        tool_call_id: ToolCallId(34),
        approval_request_id: ApprovalRequestId(35),
        wait_id: WAIT,
    };
    assert!(matches!(
        wait_previewed(
            &mut run,
            plan,
            ids,
            Err(ContainmentPortError::PreviewRejected)
        ),
        SuspensionTurn::Finished(Err(HarnessError::ContainmentPort(
            ContainmentPortError::PreviewRejected
        )))
    ));
}

#[test]
fn kept_writes_name_relative_paths_and_little_content() {
    let made = |path: &str, content: &str| {
        LocalWriteActionCapsuleV1::new(path.to_owned(), content.to_owned()).is_ok()
    };
    assert!(made("a", ""));
    assert!(made("a/b.txt", "text"));
    for path in ["", "/a", "a//b", "a/", ".", "..", "a/../b", "./a", "a\nb"] {
        assert!(!made(path, "text"), "{path:?}");
    }
    assert!(made(&"p".repeat(MAX_DURABLE_RELATIVE_PATH_BYTES), ""));
    assert!(!made(&"p".repeat(MAX_DURABLE_RELATIVE_PATH_BYTES + 1), ""));
    assert!(made("a", &"c".repeat(MAX_DURABLE_CONTENT_BYTES)));
    assert!(!made("a", &"c".repeat(MAX_DURABLE_CONTENT_BYTES + 1)));
}

#[test]
fn a_seal_names_its_key_and_is_not_empty() {
    let made = |key: &str, nonce: Vec<u8>, text: Vec<u8>| {
        SealedLocalWriteAction::new(key.to_owned(), nonce, text)
    };
    assert!(made("key_1-A", vec![1], vec![1]).is_ok());
    for key in ["", "key 1", "key/1"] {
        assert!(matches!(
            made(key, vec![1], vec![1]),
            Err(ActionSealError::InvalidCapsule)
        ));
    }
    assert!(made("key", Vec::new(), vec![1]).is_err());
    assert!(made("key", vec![1], Vec::new()).is_err());
    let mut seal = sealed();
    assert_eq!(seal.validate(), Ok(()));
    assert_eq!(seal.key_id(), "key-1");
    assert_eq!(seal.nonce(), [1]);
    assert_eq!(seal.ciphertext(), [2]);
    seal.version += 1;
    assert_eq!(seal.validate(), Err(ActionSealError::InvalidCapsule));
    assert_eq!(graph().as_bytes(), [7; 32]);
}

#[test]
fn a_wait_is_given_up_under_the_key_of_the_run() {
    let mut world = World::new();
    let mut run = suspended(&mut world, 1, 1);
    let key = run.key();
    if let Some(binding) = &mut world.binding {
        binding.run_id = RunId(77);
    }
    let record = world.stored_record();
    match begin_abort(&mut run, WAIT, 0, &record) {
        AbortStep::Record(_, step) => assert_eq!(step.key, key),
        AbortStep::Failed(error) => panic!("the wait must be given up: {error:?}"),
    }
}

#[test]
fn a_wait_is_reloaded_under_the_key_that_its_record_is_bound_to() {
    let mut world = World::new();
    let registry = contained();
    let mut run = suspended(&mut world, 1, 1);
    let key = run.key();
    decide(&mut world, &mut run, DurableApprovalOutcome::Deny);
    if let Some(binding) = &mut world.binding {
        binding.run_id = RunId(77);
    }
    assert!(matches!(
        resume(&mut world, &mut run, &registry, "hello"),
        Ok(ResumeOutcome::Denied { .. })
    ));
    assert_eq!(
        world.loads,
        [key, RunKey::new(RunId(77), key.session_id())]
    );
}

#[test]
fn checkpoints_go_with_a_wait_and_its_decision_but_not_with_its_end() {
    let mut world = World::new();
    let registry = contained();
    let mut run = suspended(&mut world, 1, 1);
    assert_eq!(world.checkpoints, [true]);
    decide(&mut world, &mut run, DurableApprovalOutcome::Approve);
    assert_eq!(world.checkpoints, [true, true]);
    assert!(resume(&mut world, &mut run, &registry, "hello").is_ok());
    assert_eq!(world.checkpoints, [true, true, false, false]);

    let mut world = World::new();
    let mut run = suspended(&mut world, 1, 1);
    decide(&mut world, &mut run, DurableApprovalOutcome::Deny);
    assert!(resume(&mut world, &mut run, &registry, "hello").is_ok());
    assert_eq!(world.checkpoints, [true, true, false]);

    let mut world = World::new();
    let mut run = suspended(&mut world, 1, 1);
    let record = world.stored_record();
    match begin_abort(&mut run, WAIT, 0, &record) {
        AbortStep::Record(turn, _) => assert!(world.record(&mut run, turn).is_ok()),
        AbortStep::Failed(error) => panic!("the wait must be given up: {error:?}"),
    }
    assert_eq!(world.checkpoints, [true, true]);
}

#[test]
fn a_wait_gives_back_the_node_that_it_suspended() {
    let mut world = World::new();
    let registry = contained();
    let mut run = suspended(&mut world, 1, 1);
    let steps = run.durable_state().graph().expect("a graph").steps();
    decide(&mut world, &mut run, DurableApprovalOutcome::Deny);
    assert!(resume(&mut world, &mut run, &registry, "hello").is_ok());
    let graph = run.durable_state().graph().expect("a graph");
    assert_eq!(graph.steps(), steps);
    assert!(graph.restart_anchor().is_none());
    assert!(
        *graph.position()
            == DurableGraphPosition::Running {
                attempt_id: GraphNodeAttemptId(20),
                node_id: node(),
                node_kind: GraphNodeKind::Action,
                recovery: GraphRecoveryMode::Never,
            }
    );
    assert_eq!(
        run.durable_state().continuation(),
        ContinuationState::TransientStateRequired
    );
}

#[test]
fn debugging_texts_of_waits_hide_what_is_sealed() {
    let mut world = World::new();
    let registry = contained();
    let _ = suspended(&mut world, 1, 1);
    let ids = "run_id: RunId(00000000-0000-0000-0000-000000000001), \
               wait_id: DurableApprovalWaitId(00000000-0000-0000-0000-000000000021), \
               approval_request_id: ApprovalRequestId(00000000-0000-0000-0000-000000000023)";
    assert_eq!(
        world.stored_record().redacted(),
        format!(
            "DurableApprovalRecord {{ binding: ActionSealBinding {{ {ids}, \
             action_digest: \"[REDACTED]\", tool_contract_digest: \"[REDACTED]\", .. }}, \
             sealed_action: SealedLocalWriteAction {{ version: 1, key_id: \"key-1\", \
             nonce: \"[REDACTED]\", ciphertext: \"[REDACTED]\", ciphertext_bytes: 1 }}, \
             status: Waiting, row_version: 0 }}"
        )
    );
    assert_eq!(
        action(&registry, ARGUMENTS).redacted(),
        "ValidatedAction { proposal_id: ActionProposalId(00000000-0000-0000-0000-00000000001e), \
         tool_name: ToolName(\"workspace_write_file\"), arguments: \"[REDACTED]\" }"
    );
    let capsule = match LocalWriteActionCapsuleV1::new("a.txt".to_owned(), "hello".to_owned()) {
        Ok(capsule) => capsule,
        Err(_) => panic!("capsule"),
    };
    assert_eq!(
        capsule.redacted(),
        "LocalWriteActionCapsuleV1 { relative_path: \"[REDACTED]\", content: \"[REDACTED]\", \
         content_bytes: 5 }"
    );
    assert!(capsule.clone() == capsule);
    assert_eq!(graph().redacted(), "GraphDefinitionDigest([REDACTED])");
    assert!(graph() == graph());
    assert!(graph() != GraphDefinitionDigest::from_bytes([8; 32]));
    let preview = match ApprovalPreview::new("writes a file".to_owned(), "a.txt".to_owned()) {
        Ok(preview) => preview,
        Err(_) => panic!("preview"),
    };
    assert_eq!(
        preview.redacted(),
        "ApprovalPreview { summary: \"[REDACTED]\", target_label: \"[REDACTED]\" }"
    );
}

#[test]
fn a_waiting_graph_has_no_anchor() {
    let mut world = World::new();
    let run = suspended(&mut world, 1, 1);
    let graph = run.durable_state().graph().expect("a graph");
    assert!(matches!(
        graph.position(),
        DurableGraphPosition::Waiting { .. }
    ));
    assert!(graph.restart_anchor().is_none());
}
