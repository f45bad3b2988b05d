//! Starting a run.

use vstd::prelude::*;

use crate::audit::AuditFailurePolicy;
use crate::context::{ContextView, MonotonicTime, RunContext, RunContextError};
use crate::error::{HarnessError, HarnessOperation};
use crate::events::AgentEventKind;
use crate::persistence::PersistencePortError;
use crate::record::{
    begin_recording, recording, require_status, status_error, terminalize, terminalized, Purpose,
    RecordTurn, Settings,
};
use crate::recovery::RunStateView;
use crate::status::{RunFailureKind, RunOutcome, RunStatus};

verus! {

/// Both clocks at the moment of the start. The wall clock is missing where it cannot be written
/// as milliseconds since the epoch.
#[derive(Clone, Copy, Debug, PartialEq, Eq, Structural)]
pub struct StartClock {
    pub now: MonotonicTime,
    pub unix_millis: Option<u64>,
}

#[derive(Clone, Copy, Debug, PartialEq, Eq, Structural)]
pub enum StartStage {
    /// The start itself is being recorded.
    Starting,
    /// The run ends because its start could not be recorded.
    Ending,
}

#[derive(Debug)]
pub enum StartTurn {
    /// Create the run in the store, with its record and its first checkpoint.
    CreateRun,
    Record(RecordTurn, StartStage),
    Finished(Result<(), HarnessError>),
}

pub type Started = (ContextView, StartTurn);

/// The run is running: both clocks are set and the start is recorded.
pub open spec fn running_from(context: ContextView, clock: StartClock) -> Started {
    let deadline_at = clock.now.plus(context.budget.max_elapsed);
    if context.status != RunStatus::Pending {
        (
            context,
            StartTurn::Finished(
                Err(
                    HarnessError::Context(
                        RunContextError::InvalidState(crate::status::RunStateError::NotPending),
                    ),
                ),
            ),
        )
    } else if deadline_at is None {
        (
            context,
            StartTurn::Finished(Err(HarnessError::Context(RunContextError::DeadlineOutOfRange))),
        )
    } else if clock.unix_millis is None {
        (
            context,
            StartTurn::Finished(Err(HarnessError::Context(RunContextError::WallClockOutOfRange))),
        )
    } else {
        let running = ContextView {
            status: RunStatus::Running,
            deadline_at,
            durable: RunStateView { started_at_unix_millis: clock.unix_millis, ..context.durable },
            ..context
        };
        let (staged, turn) = recording(
            running,
            AgentEventKind::RunStarted { started_at_unix_millis: clock.unix_millis->0 },
            Purpose::Lifecycle(HarnessOperation::StartRun),
            None,
        );
        (staged, StartTurn::Record(turn, StartStage::Starting))
    }
}

/// Begins to start a run that is pending.
pub fn begin_start(context: &mut RunContext, settings: Settings, clock: StartClock) -> (r:
    StartTurn)
    ensures
        (final(context)@, r) == (match status_error(
            old(context)@,
            HarnessOperation::StartRun,
            RunStatus::Pending,
        ) {
            Err(error) => (old(context)@, StartTurn::Finished(Err(error))),
            Ok(_) => if settings.durable {
                (old(context)@, StartTurn::CreateRun)
            } else {
                running_from(old(context)@, clock)
            },
        }),
{
    match require_status(context, HarnessOperation::StartRun, RunStatus::Pending) {
        Err(error) => {
            return StartTurn::Finished(Err(error));
        },
        Ok(()) => {},
    }
    if settings.durable {
        StartTurn::CreateRun
    } else {
        set_running(context, clock)
    }
}

/// Takes the store's answer to the creation of the run.
pub fn run_created(
    context: &mut RunContext,
    result: Result<(), PersistencePortError>,
    clock: StartClock,
) -> (r: StartTurn)
    ensures
        (final(context)@, r) == (match result {
            Err(error) => (
                old(context)@,
                StartTurn::Finished(Err(HarnessError::Persistence(error))),
            ),
            Ok(_) => running_from(old(context)@, clock),
        }),
{
    match result {
        Err(error) => StartTurn::Finished(Err(HarnessError::Persistence(error))),
        Ok(()) => set_running(context, clock),
    }
}

fn set_running(context: &mut RunContext, clock: StartClock) -> (r: StartTurn)
    ensures
        (final(context)@, r) == running_from(old(context)@, clock),
{
    match context.commit_running(clock.now, clock.unix_millis) {
        Err(error) => {
            return StartTurn::Finished(Err(HarnessError::Context(error)));
        },
        Ok(()) => {},
    }
    let started_at_unix_millis = match context.started_at_unix_millis() {
        Err(error) => {
            return StartTurn::Finished(Err(HarnessError::Context(error)));
        },
        Ok(millis) => millis,
    };
    let turn = begin_recording(
        context,
        AgentEventKind::RunStarted { started_at_unix_millis },
        Purpose::Lifecycle(HarnessOperation::StartRun),
        None,
    );
    StartTurn::Record(turn, StartStage::Starting)
}

/// What follows once the start is recorded, or could not be: under a fail-closed policy a run
/// whose start could not be recorded ends.
pub open spec fn start_settled(
    context: ContextView,
    settings: Settings,
    stage: StartStage,
    result: Result<(), HarnessError>,
) -> Started {
    match result {
        Ok(_) => (context, StartTurn::Finished(Ok(()))),
        Err(error) => if stage == StartStage::Starting && settings.audit_failure_policy
            == AuditFailurePolicy::FailClosed {
            let (ended, turn) = terminalized(
                context,
                RunOutcome::Failed { kind: RunFailureKind::AuditUnavailable },
                error,
            );
            (ended, StartTurn::Record(turn, StartStage::Ending))
        } else {
            (context, StartTurn::Finished(Err(error)))
        },
    }
}

/// Takes the result of recording.
pub fn start_recorded(
    context: &mut RunContext,
    settings: Settings,
    stage: StartStage,
    result: Result<(), HarnessError>,
) -> (r: StartTurn)
    ensures
        (final(context)@, r) == start_settled(old(context)@, settings, stage, result),
{
    match result {
        Ok(()) => StartTurn::Finished(Ok(())),
        Err(error) => {
            if stage == StartStage::Starting && settings.audit_failure_policy
                == AuditFailurePolicy::FailClosed {
                let turn = terminalize(
                    context,
                    RunOutcome::Failed { kind: RunFailureKind::AuditUnavailable },
                    error,
                );
                StartTurn::Record(turn, StartStage::Ending)
            } else {
                StartTurn::Finished(Err(error))
            }
        },
    }
}

} // verus!
