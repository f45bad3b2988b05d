use agent_runtime::audit::AuditFailurePolicy;
use agent_runtime::budget::{BudgetDimension, RunBudget, TimeSpan};
use agent_runtime::context::{MonotonicTime, Observation, RunContext};
use agent_runtime::error::{HarnessError, KnowledgeError};
use agent_runtime::events::{AgentEvent, AgentEventKind, KnowledgeFailureKind, LoopProgressEvent};
use agent_runtime::evidence::{
    BackendEvidenceSet, Evidence, EvidenceId, EvidenceMetadata, EvidenceSource,
};
use agent_runtime::evidence_set::{EvidenceSet, GroundedModelRequest};
use agent_runtime::ids::{KnowledgeRetrievalId, ModelCallId, RunId, SessionId};
use agent_runtime::knowledge::{KnowledgeQuery, KnowledgeRequest, KnowledgeRoute, RetrievalLimits};
use agent_runtime::metadata::KnowledgeBackendId;
use agent_runtime::model_call::{
    begin_model_call, bind_grounding, model_recorded, model_replied, ModelReply, ModelTurn,
};
use agent_runtime::operations::{begin_iteration, record_loop_progress};
use agent_runtime::persistence::PersistencePortError;
use agent_runtime::record::{on_appended, on_audited, on_encoded, AuditOutcome, RecordTurn, Settings};
use agent_runtime::retrieval::{
    begin_retrieval, knowledge_failure_kind, retrieval_recorded, retrieval_replied, Question,
    RetrievalReply, RetrievalTurn, RetrievedEvidence,
};
use agent_runtime::start::{begin_start, run_created, start_recorded, StartClock, StartTurn};
use agent_runtime::status::{LoopPhase, RunOutcome, RunStatus};
use agent_runtime::tool_call::Interruption;

const OCPP: KnowledgeBackendId = KnowledgeBackendId::OcppRagKag;

const SETTINGS: Settings = Settings {
    audit_failure_policy: AuditFailurePolicy::FailClosed,
    durable: true,
};

const SEEN: Observation = Observation {
    cancelled: false,
    now: MonotonicTime { nanos: 1 },
};

struct World {
    refuses_retrievals: bool,
    events: Vec<AgentEvent>,
    retrieved: usize,
}

impl World {
    fn new() -> World {
        World {
            refuses_retrievals: false,
            events: Vec::new(),
            retrieved: 0,
        }
    }

    fn record(&mut self, run: &mut RunContext, turn: RecordTurn) -> Result<(), HarnessError> {
        let mut turn = turn;
        loop {
            turn = match turn {
                RecordTurn::Encode(recording) => {
                    let encoding = Some(format!("{:?}", recording.event).into_bytes());
                    on_encoded(run, SETTINGS, recording, &encoding)
                }
                RecordTurn::Append(recording) | RecordTurn::Store(recording) => {
                    let refused = self.refuses_retrievals
                        && matches!(
                            recording.event.kind,
                            AgentEventKind::KnowledgeRetrievalStarted { .. }
                        );
                    let result = if refused {
                        Err(PersistencePortError::Unavailable)
                    } else {
                        self.events.push(recording.event.clone());
                        Ok(())
                    };
                    on_appended(run, SETTINGS, recording, result)
                }
                RecordTurn::Audit(recording) => {
                    on_audited(run, SETTINGS, recording, AuditOutcome::Recorded)
                }
                RecordTurn::Finished(result) => return result,
            };
        }
    }

    fn retrieve(
        &mut self,
        run: &mut RunContext,
        id: u128,
        has_port: bool,
        request: &KnowledgeRequest,
        reply: RetrievalReply,
    ) -> Result<(), HarnessError> {
        let mut reply = Some(reply);
        let mut turn = begin_retrieval(run, SEEN, has_port, KnowledgeRetrievalId(id), request);
        loop {
            turn = match turn {
                RetrievalTurn::Record(record, stage) => {
                    let result = self.record(run, record);
                    retrieval_recorded(run, stage, result)
                }
                RetrievalTurn::Retrieve { retrieval_id } => {
                    self.retrieved += 1;
                    let reply = reply.take().expect("knowledge is retrieved once");
                    retrieval_replied(run, retrieval_id, reply)
                }
                RetrievalTurn::Finished(result) => return result,
            };
        }
    }
}

/// A run whose loop is in its retrieve phase.
fn retrieving(world: &mut World) -> RunContext {
    let budget = RunBudget::new(1, 1, 1, TimeSpan::from_secs(60)).expect("budget");
    let mut run = RunContext::new_restartable_retrieval(RunId(1), SessionId(2), budget, 1);
    let clock = StartClock {
        now: MonotonicTime { nanos: 0 },
        unix_millis: Some(1_000),
    };
    let mut turn = begin_start(&mut run, SETTINGS, clock);
    loop {
        turn = match turn {
            StartTurn::CreateRun => run_created(&mut run, Ok(()), clock),
            StartTurn::Record(record, stage) => {
                let result = world.record(&mut run, record);
                start_recorded(&mut run, SETTINGS, stage, result)
            }
            StartTurn::Finished(result) => {
                assert!(result.is_ok());
                break;
            }
        };
    }
    let turn = begin_iteration(&mut run, SEEN);
    assert!(world.record(&mut run, turn).is_ok());
    for event in [
        LoopProgressEvent::PhaseEntered {
            iteration: 1,
            phase: LoopPhase::Observe,
        },
        LoopProgressEvent::PhaseCompleted {
            iteration: 1,
            phase: LoopPhase::Observe,
        },
        LoopProgressEvent::PhaseEntered {
            iteration: 1,
            phase: LoopPhase::Retrieve,
        },
    ] {
        let turn = record_loop_progress(&mut run, SEEN, event);
        assert!(world.record(&mut run, turn).is_ok());
    }
    run
}

fn request(text: &str) -> KnowledgeRequest {
    let query = match KnowledgeQuery::new(text.to_owned()) {
        Ok(query) => query,
        Err(_) => panic!("query"),
    };
    KnowledgeRequest::new(query, KnowledgeRoute::single(OCPP), RetrievalLimits::default())
}

fn evidence() -> EvidenceSet {
    let item = match Evidence::new(
        EvidenceId::new("id".to_owned()).unwrap_or_else(|_| panic!("id")),
        EvidenceSource::new(OCPP, "source".to_owned()).unwrap_or_else(|_| panic!("source")),
        "sentinel content".to_owned(),
        1,
        None,
        None,
        None,
        "reference".to_owned(),
        None,
        None,
        EvidenceMetadata::Ocpp {
            strategy: "hybrid".to_owned(),
            section_title: None,
            page_start: None,
            page_end: None,
            evidence_layer: None,
            source_type: None,
        },
    ) {
        Ok(item) => item,
        Err(_) => panic!("evidence"),
    };
    let set = match BackendEvidenceSet::new(OCPP, vec![item], None, false) {
        Ok(set) => set,
        Err(_) => panic!("set"),
    };
    match EvidenceSet::from_backend(set, RetrievalLimits::default()) {
        Ok(set) => set,
        Err(_) => panic!("set"),
    }
}

#[test]
fn a_retrieval_leaves_only_metadata_in_the_log() {
    let mut world = World::new();
    let mut run = retrieving(&mut world);
    let set = evidence();
    assert!(world
        .retrieve(
            &mut run,
            7,
            true,
            &request("sentinel query"),
            RetrievalReply::Retrieved(RetrievedEvidence::of(&set)),
        )
        .is_ok());
    assert_eq!(world.retrieved, 1);
    let log = format!("{:?}", world.events);
    assert!(!log.contains("sentinel query"));
    assert!(!log.contains("sentinel content"));
    match &world.events[world.events.len() - 1].kind {
        AgentEventKind::KnowledgeRetrievalCompleted {
            evidence_count,
            manifest_digest,
            truncated,
            degraded,
            ..
        } => {
            assert_eq!(*evidence_count, 1);
            assert_eq!(*manifest_digest, set.manifest_digest());
            assert!(!truncated && !degraded);
        }
        _ => panic!("the completion is recorded"),
    }
    assert!(run.durable_state().pending_knowledge_retrieval().is_none());
}

#[test]
fn a_model_call_is_bound_to_the_evidence_it_was_given() {
    let mut world = World::new();
    let mut run = retrieving(&mut world);
    let set = evidence();
    assert!(world
        .retrieve(
            &mut run,
            7,
            true,
            &request("query"),
            RetrievalReply::Retrieved(RetrievedEvidence::of(&set)),
        )
        .is_ok());
    let grounded = GroundedModelRequest::new(Vec::new(), &set);
    let binding = match bind_grounding(
        KnowledgeRetrievalId(7),
        set.manifest_digest(),
        set.evidence().len(),
        grounded.manifest_digest(),
        grounded.evidence_count(),
    ) {
        Ok(binding) => binding,
        Err(_) => panic!("the request was rendered from this evidence"),
    };
    let mut turn = begin_model_call(&mut run, SEEN, ModelCallId(9), Some(binding));
    let mut invoked = false;
    loop {
        turn = match turn {
            ModelTurn::Record(record, stage) => {
                let result = world.record(&mut run, record);
                model_recorded(&mut run, stage, result)
            }
            ModelTurn::Invoke { model_call_id } => {
                invoked = true;
                assert!(matches!(
                    world.events[world.events.len() - 1].kind,
                    AgentEventKind::ModelGroundingBound { .. }
                ));
                model_replied(
                    &mut run,
                    model_call_id,
                    ModelReply::Responded { token_usage: None },
                )
            }
            ModelTurn::Finished(result) => {
                assert!(result.is_ok());
                break;
            }
        };
    }
    assert!(invoked);
}

#[test]
fn durable_start_failure_invokes_no_knowledge_port() {
    let mut world = World::new();
    let mut run = retrieving(&mut world);
    world.refuses_retrievals = true;
    assert!(matches!(
        world.retrieve(
            &mut run,
            7,
            true,
            &request("query"),
            RetrievalReply::Retrieved(RetrievedEvidence::of(&evidence())),
        ),
        Err(HarnessError::Persistence(PersistencePortError::Unavailable))
    ));
    assert_eq!(world.retrieved, 0);
}

#[test]
fn cancellation_during_retrieval_records_failure_and_stops_waiting() {
    let mut world = World::new();
    let mut run = retrieving(&mut world);
    assert!(matches!(
        world.retrieve(
            &mut run,
            7,
            true,
            &request("query"),
            RetrievalReply::Interrupted(Interruption::Cancelled),
        ),
        Err(HarnessError::Cancelled { .. })
    ));
    assert_eq!(run.status(), RunStatus::Finished(RunOutcome::Cancelled));
    assert!(world.events.iter().any(|event| matches!(
        event.kind,
        AgentEventKind::KnowledgeRetrievalFailed {
            kind: KnowledgeFailureKind::Cancelled,
            ..
        }
    )));
}

#[test]
fn run_deadline_bounds_pending_retrieval() {
    let mut world = World::new();
    let mut run = retrieving(&mut world);
    assert!(matches!(
        world.retrieve(
            &mut run,
            7,
            true,
            &request("query"),
            RetrievalReply::Interrupted(Interruption::DeadlineExceeded),
        ),
        Err(HarnessError::DeadlineExceeded { .. })
    ));
    assert_eq!(
        run.status(),
        RunStatus::Finished(RunOutcome::BudgetExceeded {
            dimension: BudgetDimension::Elapsed
        })
    );
    assert!(world.events.iter().any(|event| matches!(
        event.kind,
        AgentEventKind::KnowledgeRetrievalFailed {
            kind: KnowledgeFailureKind::DeadlineExceeded,
            ..
        }
    )));
}

#[test]
fn a_failing_retrieval_is_recorded_and_reported() {
    let mut world = World::new();
    let mut run = retrieving(&mut world);
    assert!(matches!(
        world.retrieve(
            &mut run,
            7,
            true,
            &request("query"),
            RetrievalReply::Failed(KnowledgeError::SnapshotMismatch),
        ),
        Err(HarnessError::KnowledgePort(KnowledgeError::SnapshotMismatch))
    ));
    assert_eq!(run.status(), RunStatus::Running);
    assert!(matches!(
        world.events[world.events.len() - 1].kind,
        AgentEventKind::KnowledgeRetrievalFailed {
            kind: KnowledgeFailureKind::SnapshotMismatch,
            ..
        }
    ));
}

#[test]
fn without_a_port_nothing_is_asked() {
    let mut world = World::new();
    let mut run = retrieving(&mut world);
    let before = world.events.len();
    assert!(matches!(
        world.retrieve(
            &mut run,
            7,
            false,
            &request("query"),
            RetrievalReply::Failed(KnowledgeError::MalformedResponse),
        ),
        Err(HarnessError::KnowledgePort(KnowledgeError::Unavailable(
            KnowledgeBackendId::OcppRagKag
        )))
    ));
    assert_eq!(world.events.len(), before);
}

#[test]
fn a_pending_question_is_asked_again_and_no_other() {
    let mut world = World::new();
    let mut run = retrieving(&mut world);
    let turn = begin_retrieval(
        &mut run,
        SEEN,
        true,
        KnowledgeRetrievalId(7),
        &request("query"),
    );
    match turn {
        RetrievalTurn::Record(record, stage) => {
            let result = world.record(&mut run, record);
            assert!(matches!(
                retrieval_recorded(&mut run, stage, result),
                RetrievalTurn::Retrieve { .. }
            ));
        }
        _ => panic!("the question is recorded"),
    }
    assert!(matches!(
        world.retrieve(
            &mut run,
            8,
            true,
            &request("another query"),
            RetrievalReply::Failed(KnowledgeError::MalformedResponse),
        ),
        Err(HarnessError::KnowledgePort(KnowledgeError::Rejected(
            KnowledgeBackendId::OcppRagKag
        )))
    ));
    assert!(world
        .retrieve(
            &mut run,
            9,
            true,
            &request("query"),
            RetrievalReply::Retrieved(RetrievedEvidence::of(&evidence())),
        )
        .is_ok());
    assert!(world.events.iter().any(|event| matches!(
        event.kind,
        AgentEventKind::KnowledgeRetrievalRestarted {
            previous_retrieval_id: KnowledgeRetrievalId(7),
            retrieval_id: KnowledgeRetrievalId(9),
            ..
        }
    )));
}

#[test]
fn a_question_is_kept_by_its_digest_and_its_length() {
    let question = Question::of(&request("abc"));
    assert_eq!(question.query_bytes, 3);
    assert_eq!(
        question.query_digest.as_bytes()[..4],
        [0xba, 0x78, 0x16, 0xbf]
    );
    assert_eq!(
        knowledge_failure_kind(KnowledgeError::AllBackendsFailed),
        KnowledgeFailureKind::Failed
    );
    assert_eq!(
        knowledge_failure_kind(KnowledgeError::Rejected(OCPP)),
        KnowledgeFailureKind::Rejected
    );
}
