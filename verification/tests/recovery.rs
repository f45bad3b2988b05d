use agent_runtime::budget::{RunBudget, TimeSpan};
use agent_runtime::context::MonotonicTime;
use agent_runtime::digest::Digest32;
use agent_runtime::events::{
    AgentEvent, AgentEventKind, CapabilityKind, EventSequence, GraphNodeKind, GraphProgressEvent,
    GraphRecoveryMode, GraphTransitionKey, KnowledgeFailureKind, LoopEventKind,
};
use agent_runtime::ids::{
    ActionProposalId, ApprovalRequestId, GraphNodeAttemptId, GraphNodeId, KnowledgeRetrievalId,
    ModelCallId, RunId, SessionId, ToolCallId, ToolName,
};
use agent_runtime::metadata::{
    KnowledgeBackendId, KnowledgeEvidenceReference, KnowledgeRouteMetadata,
};
use agent_runtime::persistence::{
    DurableCheckpoint, LoadedRun, LoggedEvent, RecoveryContract, RunKey, RunRecord,
};
use agent_runtime::positions::{
    DurableGraphState, GraphRestartAnchor, PendingEffect, PendingKnowledgeRetrieval,
};
use agent_runtime::recovery::{DurableRunState, TransitionError};
use agent_runtime::replay::{
    recover_loaded_run, ManualReconciliationReason, RecoveryDisposition, RecoveryError,
};
use agent_runtime::status::{GraphFailureKind, LoopPhase, RunFailureKind, RunOutcome};

const STARTED_AT: u64 = 1_000;

const NOW: MonotonicTime = MonotonicTime { nanos: 0 };

fn record(contract: RecoveryContract) -> RunRecord {
    RunRecord::new(
        RunKey::new(RunId(1), SessionId(2)),
        RunBudget::new(4, 4, 4, TimeSpan::from_secs(60))
            .expect("budget must be valid")
            .with_max_approval_requests(4)
            .with_max_graph_steps(8)
            .expect("graph budget must be valid"),
        contract,
    )
}

fn same(record: &RunRecord) -> RunRecord {
    RunRecord::new(record.key(), *record.budget(), record.recovery_contract())
}

fn initial(record: &RunRecord) -> DurableRunState {
    DurableRunState::initial(record.key(), *record.budget(), record.recovery_contract())
}

fn event(record: &RunRecord, sequence: u64, kind: AgentEventKind) -> AgentEvent {
    AgentEvent::new(record.key().run_id(), EventSequence::new(sequence), kind)
}

fn started(record: &RunRecord) -> AgentEvent {
    event(
        record,
        0,
        AgentEventKind::RunStarted {
            started_at_unix_millis: STARTED_AT,
        },
    )
}

fn encoding(event: &AgentEvent) -> Option<Vec<u8>> {
    Some(format!("{event:?}").into_bytes())
}

fn logged(events: Vec<AgentEvent>) -> Vec<LoggedEvent> {
    events
        .into_iter()
        .map(|event| LoggedEvent {
            encoding: encoding(&event),
            event,
        })
        .collect()
}

fn recover_from(
    record: &RunRecord,
    checkpoint: DurableCheckpoint,
    events: Vec<AgentEvent>,
) -> Result<RecoveryDisposition, RecoveryError> {
    recover_loaded_run(
        LoadedRun::new(same(record), checkpoint, logged(events)),
        STARTED_AT + 1,
        NOW,
    )
}

fn recover(
    record: &RunRecord,
    events: Vec<AgentEvent>,
) -> Result<RecoveryDisposition, RecoveryError> {
    recover_from(record, DurableCheckpoint::initial(record), events)
}

fn digest(byte: u8) -> Digest32 {
    Digest32::from_bytes([byte; 32])
}

fn node(name: &str) -> GraphNodeId {
    GraphNodeId::new(name.to_owned()).expect("node")
}

fn tool_name(name: &str) -> ToolName {
    ToolName::new(name.to_owned()).expect("tool name")
}

fn retrieval_prefix(record: &RunRecord) -> Vec<AgentEvent> {
    vec![
        started(record),
        event(
            record,
            1,
            AgentEventKind::Loop {
                event: LoopEventKind::IterationStarted {
                    iteration: 1,
                    usage: 1,
                    limit: 4,
                },
            },
        ),
        event(
            record,
            2,
            AgentEventKind::Loop {
                event: LoopEventKind::PhaseEntered {
                    iteration: 1,
                    phase: LoopPhase::Observe,
                },
            },
        ),
        event(
            record,
            3,
            AgentEventKind::Loop {
                event: LoopEventKind::PhaseCompleted {
                    iteration: 1,
                    phase: LoopPhase::Observe,
                },
            },
        ),
        event(
            record,
            4,
            AgentEventKind::Loop {
                event: LoopEventKind::PhaseEntered {
                    iteration: 1,
                    phase: LoopPhase::Retrieve,
                },
            },
        ),
    ]
}

#[test]
fn interrupted_read_only_retrieval_is_resumable_only_under_explicit_contract() {
    for (contract, expected_resumable) in [
        (RecoveryContract::Restartable { version: 7 }, false),
        (RecoveryContract::RestartableRetrieval { version: 7 }, true),
    ] {
        let record = record(contract);
        let retrieval_id = KnowledgeRetrievalId(101);
        let mut events = retrieval_prefix(&record);
        events.push(event(
            &record,
            5,
            AgentEventKind::KnowledgeRetrievalStarted {
                retrieval_id,
                route: KnowledgeRouteMetadata::Single {
                    backend: KnowledgeBackendId::StandardsMcp,
                },
                query_digest: digest(9),
                query_bytes: 12,
            },
        ));
        let disposition = recover(&record, events)
            .expect("recovery classification");
        if expected_resumable {
            let RecoveryDisposition::Resumable(recovered) = disposition else {
                panic!("explicit retrieval recovery must be resumable");
            };
            assert_eq!(
                recovered
                    .state()
                    .pending_knowledge_retrieval()
                    .map(PendingKnowledgeRetrieval::retrieval_id),
                Some(retrieval_id)
            );
        } else {
            assert!(matches!(
                disposition,
                RecoveryDisposition::ManualReconciliationRequired {
                    reason: ManualReconciliationReason::TransientStateUnavailable,
                    ..
                }
            ));
        }
    }
}

#[test]
fn completed_retrieval_with_lost_transient_evidence_can_be_freshly_retrieved() {
    let record = record(RecoveryContract::RestartableRetrieval { version: 7 });
    let retrieval_id = KnowledgeRetrievalId(102);
    let mut events = retrieval_prefix(&record);
    events.extend([
        event(
            &record,
            5,
            AgentEventKind::KnowledgeRetrievalStarted {
                retrieval_id,
                route: KnowledgeRouteMetadata::Single {
                    backend: KnowledgeBackendId::StandardsMcp,
                },
                query_digest: digest(3),
                query_bytes: 8,
            },
        ),
        event(
            &record,
            6,
            AgentEventKind::KnowledgeRetrievalCompleted {
                retrieval_id,
                snapshots: Vec::new(),
                evidence_references: vec![
                    KnowledgeEvidenceReference::new(
                        KnowledgeBackendId::StandardsMcp,
                        "ISO15118-20:chunk-1".to_owned(),
                    )
                    .expect("reference"),
                ],
                evidence_count: 1,
                truncated: false,
                degraded: false,
                manifest_digest: digest(4),
            },
        ),
    ]);
    let disposition = recover(&record, events)
        .expect("recovery classification");

    let RecoveryDisposition::Resumable(recovered) = disposition else {
        panic!("completed retrieval at an unfinished Retrieve phase must be resumable");
    };
    assert!(recovered.state().pending_knowledge_retrieval().is_none());
    assert!(
        recovered
            .state()
            .restartable_knowledge_retrieval()
            .is_some()
    );
}

fn graph_record() -> RunRecord {
    record(RecoveryContract::Graph {
        program_version: 9,
        definition_digest: digest(7),
    })
}

fn graph_prefix(record: &RunRecord) -> (Vec<AgentEvent>, GraphNodeAttemptId) {
    let attempt_id = GraphNodeAttemptId(103);
    (
        vec![
            started(record),
            event(
                record,
                1,
                AgentEventKind::Graph {
                    event: GraphProgressEvent::GraphStarted {
                        definition_digest: digest(7),
                        start_node: node("retrieve"),
                        start_kind: GraphNodeKind::Retrieve,
                        start_recovery: GraphRecoveryMode::FreshRetrieval,
                    },
                },
            ),
            event(
                record,
                2,
                AgentEventKind::Graph {
                    event: GraphProgressEvent::GraphNodeEntered {
                        attempt_id,
                        node_id: node("retrieve"),
                        node_kind: GraphNodeKind::Retrieve,
                        recovery: GraphRecoveryMode::FreshRetrieval,
                        step: 1,
                        limit: 8,
                    },
                },
            ),
        ],
        attempt_id,
    )
}

#[test]
fn graph_retrieve_recovery_is_fresh_and_lost_evidence_is_not_reconstructed() {
    for complete_retrieval in [false, true] {
        let record = graph_record();
        let (mut events, _) = graph_prefix(&record);
        let retrieval_id = KnowledgeRetrievalId(104);
        events.push(event(
            &record,
            3,
            AgentEventKind::KnowledgeRetrievalStarted {
                retrieval_id,
                route: KnowledgeRouteMetadata::Single {
                    backend: KnowledgeBackendId::StandardsMcp,
                },
                query_digest: digest(3),
                query_bytes: 8,
            },
        ));
        if complete_retrieval {
            events.push(event(
                &record,
                4,
                AgentEventKind::KnowledgeRetrievalCompleted {
                    retrieval_id,
                    snapshots: Vec::new(),
                    evidence_references: Vec::new(),
                    evidence_count: 0,
                    truncated: false,
                    degraded: false,
                    manifest_digest: digest(4),
                },
            ));
        }

        let disposition = recover(&record, events)
            .expect("classification");
        let RecoveryDisposition::Resumable(recovered) = disposition else {
            panic!("Retrieve must recover only as a fresh-retrieval boundary");
        };
        let anchor = recovered
            .state()
            .graph()
            .and_then(DurableGraphState::restart_anchor)
            .expect("fresh retrieval anchor");
        assert_eq!(anchor.node_id().as_str(), "retrieve");
    }
}

#[test]
fn model_action_and_verify_positions_are_never_falsely_reconstructed() {
    let record = graph_record();
    let (mut events, retrieve_attempt) = graph_prefix(&record);
    events.extend([
        event(
            &record,
            3,
            AgentEventKind::Graph {
                event: GraphProgressEvent::GraphNodeCompleted {
                    attempt_id: retrieve_attempt,
                    node_id: node("retrieve"),
                    transition: GraphTransitionKey::Succeeded,
                    next_node: node("model"),
                    next_kind: GraphNodeKind::Model,
                    next_recovery: GraphRecoveryMode::Never,
                },
            },
        ),
        event(
            &record,
            4,
            AgentEventKind::Graph {
                event: GraphProgressEvent::GraphNodeEntered {
                    attempt_id: GraphNodeAttemptId(105),
                    node_id: node("model"),
                    node_kind: GraphNodeKind::Model,
                    recovery: GraphRecoveryMode::Never,
                    step: 2,
                    limit: 8,
                },
            },
        ),
    ]);
    let disposition = recover(&record, events)
        .expect("classification");
    let RecoveryDisposition::Resumable(recovered) = disposition else {
        panic!("pre-dispatch Model position must rewind through fresh Retrieve");
    };
    assert_eq!(
        recovered
            .state()
            .graph()
            .and_then(DurableGraphState::restart_anchor)
            .map(GraphRestartAnchor::node_id)
            .map(GraphNodeId::as_str),
        Some("retrieve")
    );

    for stop_at_verify in [false, true] {
        let record = graph_record();
        let (mut events, retrieve_attempt) = graph_prefix(&record);
        let model_attempt = GraphNodeAttemptId(106);
        let action_attempt = GraphNodeAttemptId(107);
        let model_call_id = ModelCallId(108);
        events.extend([
            event(
                &record,
                3,
                AgentEventKind::Graph {
                    event: GraphProgressEvent::GraphNodeCompleted {
                        attempt_id: retrieve_attempt,
                        node_id: node("retrieve"),
                        transition: GraphTransitionKey::Succeeded,
                        next_node: node("model"),
                        next_kind: GraphNodeKind::Model,
                        next_recovery: GraphRecoveryMode::Never,
                    },
                },
            ),
            event(
                &record,
                4,
                AgentEventKind::Graph {
                    event: GraphProgressEvent::GraphNodeEntered {
                        attempt_id: model_attempt,
                        node_id: node("model"),
                        node_kind: GraphNodeKind::Model,
                        recovery: GraphRecoveryMode::Never,
                        step: 2,
                        limit: 8,
                    },
                },
            ),
            event(
                &record,
                5,
                AgentEventKind::ModelInvocationStarted {
                    model_call_id,
                    usage: 1,
                    limit: 4,
                },
            ),
            event(
                &record,
                6,
                AgentEventKind::ModelInvocationCompleted {
                    model_call_id,
                    token_usage: None,
                },
            ),
            event(
                &record,
                7,
                AgentEventKind::Graph {
                    event: GraphProgressEvent::GraphNodeCompleted {
                        attempt_id: model_attempt,
                        node_id: node("model"),
                        transition: GraphTransitionKey::Succeeded,
                        next_node: node("action"),
                        next_kind: GraphNodeKind::Action,
                        next_recovery: GraphRecoveryMode::Never,
                    },
                },
            ),
            event(
                &record,
                8,
                AgentEventKind::Graph {
                    event: GraphProgressEvent::GraphNodeEntered {
                        attempt_id: action_attempt,
                        node_id: node("action"),
                        node_kind: GraphNodeKind::Action,
                        recovery: GraphRecoveryMode::Never,
                        step: 3,
                        limit: 8,
                    },
                },
            ),
        ]);
        if stop_at_verify {
            events.extend([
                event(
                    &record,
                    9,
                    AgentEventKind::Graph {
                        event: GraphProgressEvent::GraphNodeCompleted {
                            attempt_id: action_attempt,
                            node_id: node("action"),
                            transition: GraphTransitionKey::Succeeded,
                            next_node: node("verify"),
                            next_kind: GraphNodeKind::Verify,
                            next_recovery: GraphRecoveryMode::Never,
                        },
                    },
                ),
                event(
                    &record,
                    10,
                    AgentEventKind::Graph {
                        event: GraphProgressEvent::GraphNodeEntered {
                            attempt_id: GraphNodeAttemptId(109),
                            node_id: node("verify"),
                            node_kind: GraphNodeKind::Verify,
                            recovery: GraphRecoveryMode::Never,
                            step: 4,
                            limit: 8,
                        },
                    },
                ),
            ]);
        }

        let disposition = recover(&record, events)
            .expect("classification");
        assert!(matches!(
            disposition,
            RecoveryDisposition::ManualReconciliationRequired {
                reason: ManualReconciliationReason::TransientStateUnavailable,
                ..
            }
        ));
    }
}

#[test]
fn completed_local_write_before_graph_continuation_is_never_reexecuted() {
    let record = graph_record();
    let attempt_id = GraphNodeAttemptId(110);
    let tool_call_id = ToolCallId(111);
    let action = node("action");
    let events = vec![
        started(&record),
        event(
            &record,
            1,
            AgentEventKind::Graph {
                event: GraphProgressEvent::GraphStarted {
                    definition_digest: digest(7),
                    start_node: action.clone(),
                    start_kind: GraphNodeKind::Action,
                    start_recovery: GraphRecoveryMode::Never,
                },
            },
        ),
        event(
            &record,
            2,
            AgentEventKind::Graph {
                event: GraphProgressEvent::GraphNodeEntered {
                    attempt_id,
                    node_id: action,
                    node_kind: GraphNodeKind::Action,
                    recovery: GraphRecoveryMode::Never,
                    step: 1,
                    limit: 8,
                },
            },
        ),
        event(
            &record,
            3,
            AgentEventKind::ToolInvocationStarted {
                tool_call_id,
                tool_name: tool_name("workspace_write_file"),
                capability: CapabilityKind::LocalWrite,
                usage: 1,
                limit: 4,
            },
        ),
        event(
            &record,
            4,
            AgentEventKind::ToolInvocationCompleted { tool_call_id },
        ),
    ];
    let disposition = recover(&record, events)
        .expect("classification");
    assert!(matches!(
        disposition,
        RecoveryDisposition::ManualReconciliationRequired {
            reason: ManualReconciliationReason::TransientStateUnavailable,
            ..
        }
    ));
}

#[test]
fn unresolved_graph_model_effect_requires_manual_reconciliation() {
    let record = graph_record();
    let (mut events, retrieve_attempt) = graph_prefix(&record);
    let model_attempt = GraphNodeAttemptId(112);
    let model_call_id = ModelCallId(113);
    events.extend([
        event(
            &record,
            3,
            AgentEventKind::Graph {
                event: GraphProgressEvent::GraphNodeCompleted {
                    attempt_id: retrieve_attempt,
                    node_id: node("retrieve"),
                    transition: GraphTransitionKey::Succeeded,
                    next_node: node("model"),
                    next_kind: GraphNodeKind::Model,
                    next_recovery: GraphRecoveryMode::Never,
                },
            },
        ),
        event(
            &record,
            4,
            AgentEventKind::Graph {
                event: GraphProgressEvent::GraphNodeEntered {
                    attempt_id: model_attempt,
                    node_id: node("model"),
                    node_kind: GraphNodeKind::Model,
                    recovery: GraphRecoveryMode::Never,
                    step: 2,
                    limit: 8,
                },
            },
        ),
        event(
            &record,
            5,
            AgentEventKind::ModelInvocationStarted {
                model_call_id,
                usage: 1,
                limit: 4,
            },
        ),
    ]);

    let disposition = recover(&record, events)
        .expect("classification");
    assert!(matches!(
        disposition,
        RecoveryDisposition::ManualReconciliationRequired {
            reason: ManualReconciliationReason::UnresolvedEffect(PendingEffect::Model {
                model_call_id: pending
            }),
            ..
        } if pending == model_call_id
    ));
}

#[test]
fn graph_definition_digest_mismatch_fails_closed() {
    let record = graph_record();
    let events = vec![
        started(&record),
        event(
            &record,
            1,
            AgentEventKind::Graph {
                event: GraphProgressEvent::GraphStarted {
                    definition_digest: digest(8),
                    start_node: node("retrieve"),
                    start_kind: GraphNodeKind::Retrieve,
                    start_recovery: GraphRecoveryMode::FreshRetrieval,
                },
            },
        ),
    ];

    assert!(matches!(
        recover(&record, events),
        Err(RecoveryError::CorruptLog)
    ));
}

#[test]
fn graph_callback_failure_and_completion_restore_terminal_dispositions() {
    let failed_record = graph_record();
    let (mut failed_events, attempt_id) = graph_prefix(&failed_record);
    failed_events.push(event(
        &failed_record,
        3,
        AgentEventKind::Graph {
            event: GraphProgressEvent::GraphFailed {
                attempt_id,
                node_id: node("retrieve"),
                steps: 1,
                failure: GraphFailureKind::Callback,
                run_failure: RunFailureKind::Graph {
                    kind: GraphFailureKind::Callback,
                },
            },
        },
    ));
    assert!(matches!(
        recover(&failed_record, failed_events),
        Ok(RecoveryDisposition::TerminalFailure {
            outcome: RunOutcome::Failed {
                kind: RunFailureKind::Graph {
                    kind: GraphFailureKind::Callback
                }
            },
            ..
        })
    ));

    let completed_record = graph_record();
    let completed_attempt = GraphNodeAttemptId(114);
    let complete_node = node("complete");
    let completed_events = vec![
        started(&completed_record),
        event(
            &completed_record,
            1,
            AgentEventKind::Graph {
                event: GraphProgressEvent::GraphStarted {
                    definition_digest: digest(7),
                    start_node: complete_node.clone(),
                    start_kind: GraphNodeKind::Complete,
                    start_recovery: GraphRecoveryMode::Never,
                },
            },
        ),
        event(
            &completed_record,
            2,
            AgentEventKind::Graph {
                event: GraphProgressEvent::GraphNodeEntered {
                    attempt_id: completed_attempt,
                    node_id: complete_node.clone(),
                    node_kind: GraphNodeKind::Complete,
                    recovery: GraphRecoveryMode::Never,
                    step: 1,
                    limit: 8,
                },
            },
        ),
        event(
            &completed_record,
            3,
            AgentEventKind::Graph {
                event: GraphProgressEvent::GraphCompleted {
                    attempt_id: completed_attempt,
                    node_id: complete_node,
                    steps: 1,
                },
            },
        ),
    ];
    assert!(matches!(
        recover(&completed_record, completed_events),
        Ok(RecoveryDisposition::Completed { .. })
    ));
}

#[test]
fn retrieval_failure_is_terminal_metadata_not_an_unresolved_effect() {
    let record = record(RecoveryContract::RestartableRetrieval { version: 7 });
    let retrieval_id = KnowledgeRetrievalId(115);
    let mut events = retrieval_prefix(&record);
    events.extend([
        event(
            &record,
            5,
            AgentEventKind::KnowledgeRetrievalStarted {
                retrieval_id,
                route: KnowledgeRouteMetadata::Single {
                    backend: KnowledgeBackendId::OcppRagKag,
                },
                query_digest: digest(1),
                query_bytes: 4,
            },
        ),
        event(
            &record,
            6,
            AgentEventKind::KnowledgeRetrievalFailed {
                retrieval_id,
                kind: KnowledgeFailureKind::Unavailable,
            },
        ),
    ]);

    assert!(matches!(
        recover(&record, events)
            .expect("recovery classification"),
        RecoveryDisposition::Resumable(_)
    ));
}

#[test]
fn full_log_restores_budget_audit_and_terminal_state() {
    let record = record(RecoveryContract::NonRestartable);
    let model_call_id = ModelCallId(116);
    let events = vec![
        started(&record),
        event(
            &record,
            1,
            AgentEventKind::ModelInvocationStarted {
                model_call_id,
                usage: 1,
                limit: 4,
            },
        ),
        event(
            &record,
            2,
            AgentEventKind::ModelInvocationCompleted {
                model_call_id,
                token_usage: None,
            },
        ),
        event(&record, 3, AgentEventKind::AuditDegraded),
        event(
            &record,
            4,
            AgentEventKind::RunFinished {
                outcome: RunOutcome::Completed,
            },
        ),
    ];
    let disposition = recover(&record, events)
        .expect("full log must recover");
    let RecoveryDisposition::Completed { state } = disposition else {
        panic!("completed run must restore as completed");
    };
    assert_eq!(state.usage().model_calls, 1);
    assert!(state.audit_degraded());
    assert_eq!(state.last_sequence(), Some(EventSequence::new(4)));
}

#[test]
fn checkpoint_and_tail_use_the_same_reducer() {
    let record = record(RecoveryContract::Restartable { version: 7 });
    let start = started(&record);
    let mut checkpoint_state = initial(&record);
    checkpoint_state
        .apply(&start, &encoding(&start))
        .expect("start must reduce");
    let model_call_id = ModelCallId(117);
    let events = vec![
        start,
        event(
            &record,
            1,
            AgentEventKind::ModelInvocationStarted {
                model_call_id,
                usage: 1,
                limit: 4,
            },
        ),
    ];
    let disposition = recover_from(&record, DurableCheckpoint::new(checkpoint_state), events)
        .expect("checkpoint and tail must recover");
    assert!(matches!(
        disposition,
        RecoveryDisposition::ManualReconciliationRequired {
            reason: ManualReconciliationReason::UnresolvedEffect(PendingEffect::Model { .. }),
            ..
        }
    ));
}

#[test]
fn gaps_duplicates_wrong_run_and_checkpoint_chain_fail_closed() {
    let record = record(RecoveryContract::NonRestartable);
    for events in [
        vec![event(&record, 1, AgentEventKind::AuditDegraded)],
        vec![started(&record), started(&record)],
        vec![AgentEvent::new(
            RunId(118),
            EventSequence::new(0),
            AgentEventKind::AuditDegraded,
        )],
    ] {
        assert_eq!(
            recover(&record, events).err(),
            Some(RecoveryError::CorruptLog)
        );
    }

    let mut wrong = initial(&record);
    wrong
        .apply(&started(&record), &Some(b"tampered".to_vec()))
        .expect("start must reduce");
    assert_eq!(
        recover_from(
            &record,
            DurableCheckpoint::new(wrong),
            vec![started(&record)],
        )
        .err(),
        Some(RecoveryError::CorruptCheckpoint)
    );
}

#[test]
fn unresolved_external_effects_always_require_reconciliation() {
    let name = tool_name("workspace_write_file");
    let cases = [
        AgentEventKind::ModelInvocationStarted {
            model_call_id: ModelCallId(119),
            usage: 1,
            limit: 4,
        },
        AgentEventKind::ApprovalRequested {
            approval_request_id: ApprovalRequestId(120),
            action_proposal_id: ActionProposalId(121),
            tool_call_id: ToolCallId(122),
            tool_name: name.clone(),
            capability: CapabilityKind::LocalWrite,
            usage: 1,
            limit: 4,
        },
        AgentEventKind::ToolInvocationStarted {
            tool_call_id: ToolCallId(123),
            tool_name: name,
            capability: CapabilityKind::LocalWrite,
            usage: 1,
            limit: 4,
        },
    ];
    for kind in cases {
        let record = record(RecoveryContract::Restartable { version: 1 });
        let disposition = recover(
            &record,
            vec![started(&record), event(&record, 1, kind)],
        )
        .expect("uncertain effect must classify");
        assert!(matches!(
            disposition,
            RecoveryDisposition::ManualReconciliationRequired {
                reason: ManualReconciliationReason::UnresolvedEffect(_),
                ..
            }
        ));
    }
}

#[test]
fn every_running_loop_phase_is_non_resumable_without_transient_state() {
    for stopped_phase in [
        LoopPhase::Observe,
        LoopPhase::Retrieve,
        LoopPhase::Plan,
        LoopPhase::Act,
        LoopPhase::Verify,
        LoopPhase::Reflect,
    ] {
        let record = record(RecoveryContract::Restartable { version: 1 });
        let mut events = vec![started(&record)];
        let mut sequence = 1;
        events.push(event(
            &record,
            sequence,
            AgentEventKind::Loop {
                event: LoopEventKind::IterationStarted {
                    iteration: 1,
                    usage: 1,
                    limit: 4,
                },
            },
        ));
        sequence += 1;
        for phase in [
            LoopPhase::Observe,
            LoopPhase::Retrieve,
            LoopPhase::Plan,
            LoopPhase::Act,
            LoopPhase::Verify,
            LoopPhase::Reflect,
        ] {
            events.push(event(
                &record,
                sequence,
                AgentEventKind::Loop {
                    event: LoopEventKind::PhaseEntered {
                        iteration: 1,
                        phase,
                    },
                },
            ));
            sequence += 1;
            if phase == stopped_phase {
                break;
            }
            events.push(event(
                &record,
                sequence,
                AgentEventKind::Loop {
                    event: LoopEventKind::PhaseCompleted {
                        iteration: 1,
                        phase,
                    },
                },
            ));
            sequence += 1;
        }
        assert!(matches!(
            recover(&record, events)
                .expect("phase must classify"),
            RecoveryDisposition::ManualReconciliationRequired {
                reason: ManualReconciliationReason::TransientStateUnavailable,
                ..
            }
        ));
    }
}

#[test]
fn non_restartable_state_is_never_reconstructed_and_clock_rollback_fails() {
    let record = record(RecoveryContract::NonRestartable);
    assert!(matches!(
        recover(&record, vec![started(&record)])
        .expect("run must classify"),
        RecoveryDisposition::ManualReconciliationRequired {
            reason: ManualReconciliationReason::NonRestartableProgram,
            ..
        }
    ));
    assert_eq!(
        recover_loaded_run(
            LoadedRun::new(
                same(&record),
                DurableCheckpoint::initial(&record),
                logged(vec![started(&record)]),
            ),
            STARTED_AT - 1,
            NOW,
        )
        .err(),
        Some(RecoveryError::ClockAmbiguous)
    );
}

#[test]
fn a_run_whose_time_is_over_ends_as_such() {
    let record = record(RecoveryContract::Restartable { version: 1 });
    let disposition = recover_loaded_run(
        LoadedRun::new(
            same(&record),
            DurableCheckpoint::initial(&record),
            logged(vec![started(&record)]),
        ),
        STARTED_AT + 60_000,
        NOW,
    );
    assert!(matches!(
        disposition,
        Ok(RecoveryDisposition::TerminalFailure {
            outcome: RunOutcome::BudgetExceeded { .. },
            ..
        })
    ));
}

#[test]
fn a_started_run_is_continued_with_the_time_that_is_left() {
    let record = record(RecoveryContract::Restartable { version: 1 });
    match recover(&record, vec![started(&record)]) {
        Ok(RecoveryDisposition::Resumable(recovered)) => {
            let (context, state, contract) = recovered.into_parts();
            assert_eq!(contract, RecoveryContract::Restartable { version: 1 });
            assert_eq!(context.usage(), state.usage());
            assert_eq!(context.status(), state.status());
            assert_eq!(
                context.deadline_at(),
                Ok(MonotonicTime {
                    nanos: 59_999 * 1_000_000
                })
            );
        }
        _ => panic!("a started run is resumable"),
    }
}

#[test]
fn a_log_that_could_not_be_encoded_is_corrupt() {
    let record = record(RecoveryContract::NonRestartable);
    let loaded = LoadedRun::new(
        same(&record),
        DurableCheckpoint::initial(&record),
        vec![LoggedEvent {
            event: started(&record),
            encoding: None,
        }],
    );
    assert_eq!(
        recover_loaded_run(loaded, STARTED_AT + 1, NOW).err(),
        Some(RecoveryError::CorruptLog)
    );
}

#[test]
fn a_record_of_another_schema_is_refused() {
    let mut foreign = record(RecoveryContract::NonRestartable);
    foreign.store_schema_version += 1;
    let checkpoint = DurableCheckpoint::initial(&foreign);
    assert_eq!(
        recover_loaded_run(
            LoadedRun::new(foreign, checkpoint, Vec::new()),
            STARTED_AT,
            NOW
        )
        .err(),
        Some(RecoveryError::UnsupportedOrInconsistentSchema)
    );
}

#[test]
fn a_waiting_write_is_handed_back_waiting() {
    let record = record(RecoveryContract::Graph {
        program_version: 9,
        definition_digest: digest(7),
    });
    let action = || node("action");
    let attempt_id = GraphNodeAttemptId(201);
    let action_proposal_id = ActionProposalId(202);
    let tool_call_id = ToolCallId(203);
    let approval_request_id = ApprovalRequestId(204);
    let wait_id = agent_runtime::ids::DurableApprovalWaitId(205);
    let events = vec![
        started(&record),
        event(
            &record,
            1,
            AgentEventKind::Graph {
                event: GraphProgressEvent::GraphStarted {
                    definition_digest: digest(7),
                    start_node: action(),
                    start_kind: GraphNodeKind::Action,
                    start_recovery: GraphRecoveryMode::Never,
                },
            },
        ),
        event(
            &record,
            2,
            AgentEventKind::Graph {
                event: GraphProgressEvent::GraphNodeEntered {
                    attempt_id,
                    node_id: action(),
                    node_kind: GraphNodeKind::Action,
                    recovery: GraphRecoveryMode::Never,
                    step: 1,
                    limit: 8,
                },
            },
        ),
        event(
            &record,
            3,
            AgentEventKind::DurableApprovalPrepared {
                wait_id,
                approval_request_id,
                action_proposal_id,
                tool_call_id,
                action_digest: digest(5),
                workspace_binding_id: agent_runtime::ids::WorkspaceBindingId(206),
                tool_contract_digest: digest(6),
                usage: 1,
                limit: 4,
            },
        ),
        event(
            &record,
            4,
            AgentEventKind::Graph {
                event: GraphProgressEvent::GraphSuspended {
                    attempt_id,
                    node_id: action(),
                    wait_id,
                    approval_request_id,
                    action_proposal_id,
                    tool_call_id,
                    action_digest: digest(5),
                },
            },
        ),
    ];
    assert!(matches!(
        recover(&record, events),
        Ok(RecoveryDisposition::Waiting(_))
    ));
}

#[test]
fn the_end_of_a_call_takes_back_its_start_once() {
    let record = record(RecoveryContract::Restartable { version: 1 });
    let mut state = initial(&record);
    let call = ModelCallId(5);
    let earlier = ToolCallId(6);
    let kinds = vec![
        AgentEventKind::RunStarted {
            started_at_unix_millis: STARTED_AT,
        },
        AgentEventKind::ToolInvocationStarted {
            tool_call_id: earlier,
            tool_name: tool_name("lookup"),
            capability: CapabilityKind::ReadOnly,
            usage: 1,
            limit: 4,
        },
        AgentEventKind::ModelInvocationStarted {
            model_call_id: call,
            usage: 1,
            limit: 4,
        },
        AgentEventKind::ModelInvocationFailed {
            model_call_id: call,
        },
    ];
    for (sequence, kind) in kinds.into_iter().enumerate() {
        let event = event(&record, sequence as u64, kind);
        assert!(state.apply(&event, &encoding(&event)).is_ok());
    }
    assert_eq!(
        state.pending_effects(),
        [PendingEffect::Tool {
            tool_call_id: earlier,
            capability: CapabilityKind::ReadOnly,
        }]
    );
    let again = event(
        &record,
        4,
        AgentEventKind::ModelInvocationCompleted {
            model_call_id: call,
            token_usage: None,
        },
    );
    assert!(matches!(
        state.apply(&again, &encoding(&again)),
        Err(TransitionError::Effect)
    ));
    assert_eq!(state.pending_effects().len(), 1);
}
