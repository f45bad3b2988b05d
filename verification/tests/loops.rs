use agent_runtime::budget::{RunBudget, TimeSpan};
use agent_runtime::context::RunContext;
use agent_runtime::error::HarnessError;
use agent_runtime::events::LoopProgressEvent;
use agent_runtime::ids::{RunId, SessionId};
use agent_runtime::loop_engine::{
    failure_kind_for_harness_error, CheckStep, FinalStep, LoopEngine, LoopError, LoopStepError,
    LoopTurn, PhaseOutcome, Place, ProgressStep, TerminalLoopDecision,
};
use agent_runtime::loop_state::{
    LoopPosition, LoopState, LoopTerminal, LoopTransitionError, ReflectDecision, VerificationResult,
};
use agent_runtime::persistence::RecoveryContract;
use agent_runtime::recovery::DurableRunState;
use agent_runtime::persistence::RunKey;
use agent_runtime::start::{begin_start, StartClock};
use agent_runtime::context::MonotonicTime;
use agent_runtime::record::Settings;
use agent_runtime::audit::AuditFailurePolicy;
use agent_runtime::status::{LoopFailureKind, LoopPhase, RunFailureKind, RunOutcome, RunStatus};

#[test]
fn legal_order_is_exact() {
    let mut state = LoopState::new();

    state.begin_iteration(1).expect("iteration must begin");
    for phase in [
        LoopPhase::Observe,
        LoopPhase::Retrieve,
        LoopPhase::Plan,
        LoopPhase::Act,
        LoopPhase::Verify,
    ] {
        state.enter_phase(phase).expect("phase must enter");
        state.complete_phase(phase).expect("phase must complete");
    }
    state
        .enter_phase(LoopPhase::Reflect)
        .expect("reflect must enter");
    assert_eq!(state.accept_reflect(ReflectDecision::Complete), Ok(()));
    assert_eq!(state.completed_iterations(), 1);
    assert!(matches!(
        state.position(),
        LoopPosition::Finished(LoopTerminal::Complete)
    ));
}

#[test]
fn illegal_transition_is_rejected() {
    let mut state = LoopState::new();

    assert_eq!(
        state.enter_phase(LoopPhase::Plan),
        Err(LoopTransitionError::IllegalPhaseEntry {
            phase: LoopPhase::Plan,
        })
    );
    state.begin_iteration(1).expect("iteration must begin");
    assert_eq!(
        state.complete_phase(LoopPhase::Observe),
        Err(LoopTransitionError::IllegalPhaseCompletion {
            phase: LoopPhase::Observe,
        })
    );
}

#[test]
fn continue_returns_to_ready_without_persistence_contract() {
    let mut state = LoopState::new();
    state.begin_iteration(1).expect("iteration must begin");
    for phase in [
        LoopPhase::Observe,
        LoopPhase::Retrieve,
        LoopPhase::Plan,
        LoopPhase::Act,
        LoopPhase::Verify,
    ] {
        state.enter_phase(phase).expect("phase must enter");
        state.complete_phase(phase).expect("phase must complete");
    }
    state
        .enter_phase(LoopPhase::Reflect)
        .expect("reflect must enter");

    assert_eq!(state.accept_reflect(ReflectDecision::Continue), Ok(()));
    assert_eq!(state.position(), LoopPosition::Ready);
    assert_eq!(state.current_iteration(), None);
    assert_eq!(state.completed_iterations(), 1);
}

#[test]
fn fail_terminalizes_control_state() {
    let mut state = LoopState::new();
    state.begin_iteration(1).expect("iteration must begin");
    for phase in [
        LoopPhase::Observe,
        LoopPhase::Retrieve,
        LoopPhase::Plan,
        LoopPhase::Act,
        LoopPhase::Verify,
    ] {
        state.enter_phase(phase).expect("phase must enter");
        state.complete_phase(phase).expect("phase must complete");
    }
    state
        .enter_phase(LoopPhase::Reflect)
        .expect("reflect must enter");

    let kind = LoopFailureKind::VerificationFailed;
    assert_eq!(state.accept_reflect(ReflectDecision::Fail { kind }), Ok(()));
    assert!(matches!(
        state.position(),
        LoopPosition::Finished(LoopTerminal::Fail { kind: returned }) if returned == kind
    ));
    assert_eq!(
        state.begin_iteration(2),
        Err(LoopTransitionError::BeginRequiresReady)
    );
    assert_eq!(
        state.enter_phase(LoopPhase::Observe),
        Err(LoopTransitionError::AlreadyTerminal)
    );
}

fn budget() -> RunBudget {
    RunBudget::new(4, 4, 4, TimeSpan::from_secs(60)).expect("budget must be valid")
}

fn pending() -> RunContext {
    RunContext::new(RunId(1), SessionId(2), budget())
}

fn running() -> RunContext {
    let mut context = pending();
    let _ = begin_start(
        &mut context,
        Settings {
            audit_failure_policy: AuditFailurePolicy::FailClosed,
            durable: false,
        },
        StartClock {
            now: MonotonicTime { nanos: 0 },
            unix_millis: Some(1_000),
        },
    );
    assert_eq!(context.status(), RunStatus::Running);
    context
}

/// Drives a loop whose program is scripted, and writes down what it is asked for.
fn drive(decisions: &[ReflectDecision]) -> (Vec<String>, Result<TerminalLoopDecision, LoopError>) {
    let engine = LoopEngine::new();
    let mut context = running();
    let mut state = LoopState::new();
    let mut decisions = decisions.iter().copied();
    let mut trail = Vec::new();
    let mut turn = engine.open();
    loop {
        turn = match turn {
            LoopTurn::Checkpoint(step) => engine.on_checked(&mut state, &context, step, Ok(())),
            LoopTurn::BeginIteration => {
                let iteration = context.reserve_iteration().expect("an iteration is left");
                trail.push(format!("begin {iteration}"));
                engine.on_begun(&mut state, &context, Ok(iteration))
            }
            LoopTurn::Progress(event, step) => {
                trail.push(match event {
                    LoopProgressEvent::PhaseEntered { phase, .. } => format!("enter {phase:?}"),
                    LoopProgressEvent::PhaseCompleted { phase, .. } => format!("leave {phase:?}"),
                    LoopProgressEvent::ReflectDecision { decision, .. } => format!("{decision:?}"),
                    LoopProgressEvent::IterationCompleted { iteration } => {
                        format!("close {iteration}")
                    }
                    LoopProgressEvent::LoopCompleted {
                        completed_iterations,
                    } => format!("completed {completed_iterations}"),
                    LoopProgressEvent::LoopFailed { iteration, .. } => {
                        format!("failed {iteration}")
                    }
                });
                engine.on_progress(&state, &context, step, Ok(()))
            }
            LoopTurn::Run(place) => {
                trail.push(format!("run {:?}", place.phase));
                let outcome = match place.phase {
                    LoopPhase::Verify => PhaseOutcome::Verified(VerificationResult::Passed),
                    LoopPhase::Reflect => {
                        assert_eq!(place.verification, Some(VerificationResult::Passed));
                        PhaseOutcome::Reflected(decisions.next().expect("a decision is left"))
                    }
                    _ => PhaseOutcome::Done,
                };
                engine.on_phase(&context, place, Ok(outcome))
            }
            LoopTurn::CompleteRun => {
                context
                    .commit_finished(RunOutcome::Completed)
                    .expect("the run is running");
                engine.on_finalized(
                    &state,
                    &context,
                    FinalStep::Ended(TerminalLoopDecision::Complete),
                    Ok(()),
                )
            }
            LoopTurn::FailRun(kind, step) => {
                context
                    .commit_finished(RunOutcome::Failed { kind })
                    .expect("the run is running");
                engine.on_finalized(&state, &context, step, Ok(()))
            }
            LoopTurn::Finished(result) => {
                return (trail, result.map(|summary| summary.terminal_decision()));
            }
        };
    }
}

fn iteration(number: u32) -> Vec<String> {
    let mut trail = vec![format!("begin {number}")];
    for phase in ["Observe", "Retrieve", "Plan", "Act", "Verify", "Reflect"] {
        for step in ["enter", "run", "leave"] {
            trail.push(format!("{step} {phase}"));
        }
    }
    trail
}

#[test]
fn a_loop_runs_its_phases_in_order_and_records_each() {
    let (trail, result) = drive(&[ReflectDecision::Continue, ReflectDecision::Complete]);
    let mut expected = iteration(1);
    expected.extend(["Continue".to_owned(), "close 1".to_owned()]);
    expected.extend(iteration(2));
    expected.extend([
        "Complete".to_owned(),
        "close 2".to_owned(),
        "completed 2".to_owned(),
    ]);
    assert_eq!(trail, expected);
    assert!(matches!(result, Ok(TerminalLoopDecision::Complete)));
}

#[test]
fn a_loop_that_decides_to_fail_ends_normally() {
    let kind = LoopFailureKind::VerificationFailed;
    let (trail, result) = drive(&[ReflectDecision::Fail { kind }]);
    assert_eq!(
        trail[trail.len() - 3..],
        [
            "Fail".to_owned(),
            "close 1".to_owned(),
            "failed 1".to_owned()
        ]
    );
    assert!(matches!(
        result,
        Ok(TerminalLoopDecision::Fail { kind: returned }) if returned == kind
    ));
}

fn place(phase: LoopPhase) -> Place {
    Place {
        iteration: 1,
        phase,
        verification: None,
    }
}

#[test]
fn a_failing_program_fails_the_run_and_is_reported() {
    let engine = LoopEngine::new();
    let mut context = running();
    let state = LoopState::new();
    let turn = engine.on_phase(
        &context,
        place(LoopPhase::Plan),
        Err(LoopStepError::Program),
    );
    let kind = RunFailureKind::Loop {
        kind: LoopFailureKind::Program {
            phase: LoopPhase::Plan,
        },
    };
    let step = match turn {
        LoopTurn::Progress(LoopProgressEvent::LoopFailed { iteration, kind: told }, step) => {
            assert_eq!(iteration, 0);
            assert_eq!(told, kind);
            step
        }
        _ => panic!("the failure is recorded first"),
    };
    let last = match engine.on_progress(&state, &context, step, Ok(())) {
        LoopTurn::FailRun(told, last) => {
            assert_eq!(told, kind);
            last
        }
        _ => panic!("then the run is failed"),
    };
    context
        .commit_finished(RunOutcome::Failed { kind })
        .expect("the run is running");
    assert!(matches!(
        engine.on_finalized(&state, &context, last, Ok(())),
        LoopTurn::Finished(Err(LoopError::Program {
            phase: LoopPhase::Plan
        }))
    ));
}

#[test]
fn a_run_that_ended_meanwhile_ends_the_loop() {
    let engine = LoopEngine::new();
    let mut context = running();
    let mut state = LoopState::new();
    context
        .commit_finished(RunOutcome::Cancelled)
        .expect("the run is running");
    let ended = RunStatus::Finished(RunOutcome::Cancelled);
    assert!(matches!(
        engine.on_checked(&mut state, &context, CheckStep::Opening, Ok(())),
        LoopTurn::Finished(Err(LoopError::RunTerminal { status })) if status == ended
    ));
    assert!(matches!(
        engine.on_phase(&context, place(LoopPhase::Act), Ok(PhaseOutcome::Done)),
        LoopTurn::Finished(Err(LoopError::RunTerminal { status })) if status == ended
    ));
    assert!(matches!(
        engine.on_progress(&state, &context, ProgressStep::Entered(place(LoopPhase::Act)), Ok(())),
        LoopTurn::Finished(Err(LoopError::RunTerminal { status })) if status == ended
    ));
    assert!(matches!(
        engine.on_checked(
            &mut state,
            &context,
            CheckStep::Opening,
            Err(HarnessError::ApprovalDenied)
        ),
        LoopTurn::Finished(Err(LoopError::Harness(HarnessError::ApprovalDenied)))
    ));
}

#[test]
fn an_outcome_out_of_place_breaks_the_loop() {
    let engine = LoopEngine::new();
    let context = running();
    let mut state = LoopState::new();
    let turn = engine.on_checked(
        &mut state,
        &context,
        CheckStep::Leaving(
            place(LoopPhase::Observe),
            PhaseOutcome::Reflected(ReflectDecision::Complete),
        ),
        Ok(()),
    );
    assert!(matches!(
        turn,
        LoopTurn::Progress(
            LoopProgressEvent::LoopFailed {
                kind: RunFailureKind::Loop {
                    kind: LoopFailureKind::InvariantViolation
                },
                ..
            },
            ProgressStep::Broken {
                error: LoopTransitionError::IllegalPhaseCompletion {
                    phase: LoopPhase::Observe
                },
                ..
            }
        )
    ));
}

#[test]
fn errors_fail_a_run_by_their_kind() {
    assert_eq!(
        failure_kind_for_harness_error(&HarnessError::ApprovalRequired),
        RunFailureKind::Approval
    );
    assert_eq!(
        failure_kind_for_harness_error(&HarnessError::AuditDegraded),
        RunFailureKind::Containment
    );
    assert_eq!(
        failure_kind_for_harness_error(&HarnessError::GroundingMismatch),
        RunFailureKind::Internal
    );
}

#[test]
fn a_loop_is_continued_only_under_its_contract() {
    let engine = LoopEngine::new();
    let key = RunKey::new(RunId(1), SessionId(2));
    let contract = RecoveryContract::Restartable { version: 3 };
    let durable = DurableRunState::initial(key, budget(), contract);
    assert!(matches!(
        engine.resume_state(&durable, contract, 3, false),
        Ok(state) if state == LoopState::new()
    ));
    assert!(matches!(
        engine.resume_state(&durable, contract, 4, false),
        Err(LoopError::RecoveryContractMismatch)
    ));
    assert!(matches!(
        engine.resume_state(&durable, RecoveryContract::NonRestartable, 3, true),
        Err(LoopError::RecoveryContractMismatch)
    ));
    let retrieval = RecoveryContract::RestartableRetrieval { version: 3 };
    assert!(matches!(
        engine.resume_state(&durable, retrieval, 3, false),
        Err(LoopError::RecoveryContractMismatch)
    ));
    assert!(engine.resume_state(&durable, retrieval, 3, true).is_ok());
}

#[test]
fn an_interrupted_retrieval_is_run_again() {
    let engine = LoopEngine::new();
    let context = running();
    let mut state = LoopState::recovered_retrieve_running(2, 1);
    assert!(matches!(
        engine.on_checked(&mut state, &context, CheckStep::Opening, Ok(())),
        LoopTurn::Run(Place {
            iteration: 2,
            phase: LoopPhase::Retrieve,
            verification: None
        })
    ));
    let mut ready = LoopState::recovered_ready(1);
    assert!(matches!(
        engine.on_checked(&mut ready, &context, CheckStep::Opening, Ok(())),
        LoopTurn::BeginIteration
    ));
}
