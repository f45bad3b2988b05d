//! What a durable store keeps of a run.

use vstd::prelude::*;

use crate::budget::RunBudget;
use crate::digest::Digest32;
use crate::events::{AgentEvent, EventSequence};
use crate::identity::DurableRunAuthorization;
use crate::ids::{RunId, SessionId};
use crate::recovery::{initial_state, option_bytes, reduce, DurableRunState, RunStateView};

verus! {

pub const CURRENT_STORE_SCHEMA_VERSION: u16 = 2;

pub const CURRENT_CHECKPOINT_SCHEMA_VERSION: u16 = 4;

#[derive(Clone, Copy, Debug, PartialEq, Eq, Hash, Structural)]
pub struct RunKey {
    pub run_id: RunId,
    pub session_id: SessionId,
}

impl RunKey {
    pub fn new(run_id: RunId, session_id: SessionId) -> (r: Self)
        ensures
            r == (RunKey { run_id, session_id }),
    {
        RunKey { run_id, session_id }
    }

    pub fn run_id(self) -> (r: RunId)
        ensures
            r == self.run_id,
    {
        self.run_id
    }

    pub fn session_id(self) -> (r: SessionId)
        ensures
            r == self.session_id,
    {
        self.session_id
    }
}

/// What a program promises about continuing an interrupted run.
#[derive(Clone, Copy, Debug, Eq)]
pub enum RecoveryContract {
    NonRestartable,
    Restartable { version: u32 },
    RestartableRetrieval { version: u32 },
    Graph { program_version: u32, definition_digest: Digest32 },
}

impl PartialEq for RecoveryContract {
    fn eq(&self, other: &RecoveryContract) -> (r: bool) {
        match (*self, *other) {
            (RecoveryContract::NonRestartable, RecoveryContract::NonRestartable) => true,
            (
                RecoveryContract::Restartable { version },
                RecoveryContract::Restartable { version: other_version },
            ) => version == other_version,
            (
                RecoveryContract::RestartableRetrieval { version },
                RecoveryContract::RestartableRetrieval { version: other_version },
            ) => version == other_version,
            (
                RecoveryContract::Graph { program_version, definition_digest },
                RecoveryContract::Graph {
                    program_version: other_version,
                    definition_digest: other_digest,
                },
            ) => program_version == other_version && definition_digest == other_digest,
            _ => false,
        }
    }
}

impl vstd::std_specs::cmp::PartialEqSpecImpl for RecoveryContract {
    open spec fn obeys_eq_spec() -> bool {
        true
    }

    open spec fn eq_spec(&self, other: &RecoveryContract) -> bool {
        *self == *other
    }
}

#[derive(Clone, Copy, Debug, PartialEq, Eq, Structural)]
pub enum PersistencePortError {
    Unavailable,
    Conflict,
    Corrupt,
    UnsupportedVersion,
    Failed,
}

/// What identifies a durable run and bounds it.
#[derive(Clone, PartialEq, Eq)]
pub struct RunRecord {
    pub store_schema_version: u16,
    pub checkpoint_schema_version: u16,
    pub key: RunKey,
    pub budget: RunBudget,
    pub recovery_contract: RecoveryContract,
    pub authorization: Option<DurableRunAuthorization>,
}

impl RunRecord {
    pub fn new(key: RunKey, budget: RunBudget, recovery_contract: RecoveryContract) -> (r: Self)
        ensures
            r == (RunRecord {
                store_schema_version: CURRENT_STORE_SCHEMA_VERSION,
                checkpoint_schema_version: CURRENT_CHECKPOINT_SCHEMA_VERSION,
                key,
                budget,
                recovery_contract,
                authorization: None,
            }),
    {
        RunRecord {
            store_schema_version: CURRENT_STORE_SCHEMA_VERSION,
            checkpoint_schema_version: CURRENT_CHECKPOINT_SCHEMA_VERSION,
            key,
            budget,
            recovery_contract,
            authorization: None,
        }
    }

    pub fn with_authorization(self, authorization: DurableRunAuthorization) -> (r: Self)
        ensures
            r == (RunRecord { authorization: Some(authorization), ..self }),
    {
        RunRecord { authorization: Some(authorization), ..self }
    }

    pub fn store_schema_version(&self) -> (r: u16)
        ensures
            r == self.store_schema_version,
    {
        self.store_schema_version
    }

    pub fn checkpoint_schema_version(&self) -> (r: u16)
        ensures
            r == self.checkpoint_schema_version,
    {
        self.checkpoint_schema_version
    }

    pub fn key(&self) -> (r: RunKey)
        ensures
            r == self.key,
    {
        self.key
    }

    pub fn budget(&self) -> (r: &RunBudget)
        ensures
            *r == self.budget,
    {
        &self.budget
    }

    pub fn recovery_contract(&self) -> (r: RecoveryContract)
        ensures
            r == self.recovery_contract,
    {
        self.recovery_contract
    }

    pub fn authorization(&self) -> (r: Option<&DurableRunAuthorization>)
        ensures
            r is Some <==> self.authorization is Some,
            r matches Some(authorization) ==> Some(*authorization) == self.authorization,
    {
        self.authorization.as_ref()
    }

    /// The state of the run before its first event.
    pub open spec fn start(self) -> RunStateView {
        initial_state(self.key, self.budget, self.recovery_contract)
    }
}

/// A state that was stored so that a log need not be replayed from its beginning.
#[derive(Clone, PartialEq, Eq)]
pub struct DurableCheckpoint {
    pub checkpoint_schema_version: u16,
    pub state: DurableRunState,
}

impl DurableCheckpoint {
    pub fn initial(record: &RunRecord) -> (r: Self)
        ensures
            r.checkpoint_schema_version == CURRENT_CHECKPOINT_SCHEMA_VERSION,
            r.state@ == record.start(),
    {
        Self::new(DurableRunState::initial(record.key, record.budget, record.recovery_contract))
    }

    pub fn new(state: DurableRunState) -> (r: Self)
        ensures
            r == (DurableCheckpoint {
                checkpoint_schema_version: CURRENT_CHECKPOINT_SCHEMA_VERSION,
                state,
            }),
    {
        DurableCheckpoint { checkpoint_schema_version: CURRENT_CHECKPOINT_SCHEMA_VERSION, state }
    }

    pub fn checkpoint_schema_version(&self) -> (r: u16)
        ensures
            r == self.checkpoint_schema_version,
    {
        self.checkpoint_schema_version
    }

    pub fn state(&self) -> (r: &DurableRunState)
        ensures
            *r == self.state,
    {
        &self.state
    }

    pub fn into_state(self) -> (r: DurableRunState)
        ensures
            r == self.state,
    {
        self.state
    }
}

/// An event with the bytes that encode it, where it could be encoded.
#[derive(Clone, PartialEq, Eq)]
pub struct LoggedEvent {
    pub event: AgentEvent,
    pub encoding: Option<Vec<u8>>,
}

/// The state after a whole log, or nothing where the log holds an event that does not fit.
pub open spec fn replayed(state: RunStateView, log: Seq<LoggedEvent>) -> Option<RunStateView>
    decreases log.len(),
{
    if log.len() == 0 {
        Some(state)
    } else {
        match replayed(state, log.drop_last()) {
            None => None,
            Some(before) => {
                let (after, result) = reduce(
                    before,
                    log.last().event,
                    option_bytes(log.last().encoding),
                );
                if result is Ok {
                    Some(after)
                } else {
                    None
                }
            },
        }
    }
}

/// What a store returns for a run.
#[derive(Clone, PartialEq, Eq)]
pub struct LoadedRun {
    pub record: RunRecord,
    pub checkpoint: DurableCheckpoint,
    pub events: Vec<LoggedEvent>,
}

impl LoadedRun {
    pub fn new(record: RunRecord, checkpoint: DurableCheckpoint, events: Vec<LoggedEvent>) -> (r:
        Self)
        ensures
            r == (LoadedRun { record, checkpoint, events }),
    {
        LoadedRun { record, checkpoint, events }
    }

    pub fn record(&self) -> (r: &RunRecord)
        ensures
            *r == self.record,
    {
        &self.record
    }

    pub fn checkpoint(&self) -> (r: &DurableCheckpoint)
        ensures
            *r == self.checkpoint,
    {
        &self.checkpoint
    }

    pub fn events(&self) -> (r: &[LoggedEvent])
        ensures
            r@ == self.events@,
    {
        self.events.as_slice()
    }
}

/// The event after which an event with this sequence number may be appended.
pub open spec fn predecessor(sequence: EventSequence) -> Option<EventSequence> {
    if sequence.0 == 0 {
        None
    } else {
        Some(EventSequence((sequence.0 - 1) as u64))
    }
}

pub fn expected_predecessor(sequence: EventSequence) -> (r: Option<EventSequence>)
    ensures
        r == predecessor(sequence),
{
    if sequence.0 == 0 {
        None
    } else {
        Some(EventSequence(sequence.0 - 1))
    }
}

/// One event to append, with a checkpoint where one is due.
#[derive(Clone, PartialEq, Eq)]
pub struct AppendTransition {
    pub key: RunKey,
    pub expected_sequence: Option<EventSequence>,
    pub event: AgentEvent,
    pub checkpoint: Option<DurableCheckpoint>,
}

impl AppendTransition {
    pub fn new(
        key: RunKey,
        expected_sequence: Option<EventSequence>,
        event: AgentEvent,
        checkpoint: Option<DurableCheckpoint>,
    ) -> (r: Self)
        ensures
            r == (AppendTransition { key, expected_sequence, event, checkpoint }),
    {
        AppendTransition { key, expected_sequence, event, checkpoint }
    }

    pub fn key(&self) -> (r: RunKey)
        ensures
            r == self.key,
    {
        self.key
    }

    pub fn expected_sequence(&self) -> (r: Option<EventSequence>)
        ensures
            r == self.expected_sequence,
    {
        self.expected_sequence
    }

    pub fn event(&self) -> (r: &AgentEvent)
        ensures
            *r == self.event,
    {
        &self.event
    }

    pub fn checkpoint(&self) -> (r: Option<&DurableCheckpoint>)
        ensures
            r is Some <==> self.checkpoint is Some,
            r matches Some(checkpoint) ==> Some(*checkpoint) == self.checkpoint,
    {
        self.checkpoint.as_ref()
    }
}

} // verus!
