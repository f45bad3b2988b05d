//! Pages of what a durable store holds, for reading.

use vstd::prelude::*;

use crate::durable_approval::DurableApprovalStatus;
use crate::events::{AgentEvent, EventSequence};
use crate::identity::DurableRunAuthorization;
use crate::ids::{DurableApprovalWaitId, RunId};
use crate::persistence::{RecoveryContract, RunKey};

verus! {

pub const MAX_READ_PAGE_ITEMS: u16 = 256;

/// Where a listing of runs goes on.
#[derive(Clone, Copy, Debug, PartialEq, Eq, Structural)]
pub struct RunPageCursor {
    pub run_id: RunId,
}

impl RunPageCursor {
    pub fn new(run_id: RunId) -> (r: Self)
        ensures
            r == (RunPageCursor { run_id }),
    {
        RunPageCursor { run_id }
    }

    pub fn run_id(self) -> (r: RunId)
        ensures
            r == self.run_id,
    {
        self.run_id
    }
}

/// Where a listing of waiting approvals goes on.
#[derive(Clone, Copy, Debug, PartialEq, Eq, Structural)]
pub struct WaitingPageCursor {
    pub run_id: RunId,
    pub wait_id: DurableApprovalWaitId,
}

impl WaitingPageCursor {
    pub fn new(run_id: RunId, wait_id: DurableApprovalWaitId) -> (r: Self)
        ensures
            r == (WaitingPageCursor { run_id, wait_id }),
    {
        WaitingPageCursor { run_id, wait_id }
    }

    pub fn run_id(self) -> (r: RunId)
        ensures
            r == self.run_id,
    {
        self.run_id
    }

    pub fn wait_id(self) -> (r: DurableApprovalWaitId)
        ensures
            r == self.wait_id,
    {
        self.wait_id
    }
}

/// What a listing tells of a run.
#[derive(Clone, PartialEq, Eq)]
pub struct DurableRunSummary {
    pub key: RunKey,
    pub recovery_contract: RecoveryContract,
    pub last_sequence: Option<EventSequence>,
    pub terminal: bool,
    pub authorization: Option<DurableRunAuthorization>,
}

impl DurableRunSummary {
    pub fn new(
        key: RunKey,
        recovery_contract: RecoveryContract,
        last_sequence: Option<EventSequence>,
        terminal: bool,
        authorization: Option<DurableRunAuthorization>,
    ) -> (r: Self)
        ensures
            r == (DurableRunSummary { key, recovery_contract, last_sequence, terminal, authorization }),
    {
        DurableRunSummary { key, recovery_contract, last_sequence, terminal, authorization }
    }

    pub fn key(&self) -> (r: RunKey)
        ensures
            r == self.key,
    {
        self.key
    }

    pub fn recovery_contract(&self) -> (r: RecoveryContract)
        ensures
            r == self.recovery_contract,
    {
        self.recovery_contract
    }

    pub fn last_sequence(&self) -> (r: Option<EventSequence>)
        ensures
            r == self.last_sequence,
    {
        self.last_sequence
    }

    pub fn terminal(&self) -> (r: bool)
        ensures
            r == self.terminal,
    {
        self.terminal
    }

    pub fn authorization(&self) -> (r: Option<&DurableRunAuthorization>)
        ensures
            r == (match self.authorization {
                Some(value) => Some(&value),
                None => None,
            }),
    {
        self.authorization.as_ref()
    }
}

#[derive(Clone, PartialEq, Eq)]
pub struct DurableRunPage {
    pub items: Vec<DurableRunSummary>,
    pub next: Option<RunPageCursor>,
}

impl DurableRunPage {
    pub fn new(items: Vec<DurableRunSummary>, next: Option<RunPageCursor>) -> (r: Self)
        ensures
            r == (DurableRunPage { items, next }),
    {
        DurableRunPage { items, next }
    }

    pub fn items(&self) -> (r: &[DurableRunSummary])
        ensures
            r@ == self.items@,
    {
        self.items.as_slice()
    }

    pub fn next(&self) -> (r: Option<RunPageCursor>)
        ensures
            r == self.next,
    {
        self.next
    }
}

/// What a listing tells of a waiting approval.
#[derive(Clone, Copy, Debug, PartialEq, Eq, Structural)]
pub struct DurableWaitingSummary {
    pub key: RunKey,
    pub wait_id: DurableApprovalWaitId,
    pub row_version: u64,
    pub status: DurableApprovalStatus,
}

impl DurableWaitingSummary {
    pub fn new(
        key: RunKey,
        wait_id: DurableApprovalWaitId,
        row_version: u64,
        status: DurableApprovalStatus,
    ) -> (r: Self)
        ensures
            r == (DurableWaitingSummary { key, wait_id, row_version, status }),
    {
        DurableWaitingSummary { key, wait_id, row_version, status }
    }

    pub fn key(&self) -> (r: RunKey)
        ensures
            r == self.key,
    {
        self.key
    }

    pub fn wait_id(&self) -> (r: DurableApprovalWaitId)
        ensures
            r == self.wait_id,
    {
        self.wait_id
    }

    pub fn row_version(&self) -> (r: u64)
        ensures
            r == self.row_version,
    {
        self.row_version
    }

    pub fn status(&self) -> (r: DurableApprovalStatus)
        ensures
            r == self.status,
    {
        self.status
    }
}

#[derive(Clone, Debug, PartialEq, Eq)]
pub struct DurableWaitingPage {
    pub items: Vec<DurableWaitingSummary>,
    pub next: Option<WaitingPageCursor>,
}

impl DurableWaitingPage {
    pub fn new(
        items: Vec<DurableWaitingSummary>,
        next: Option<WaitingPageCursor>,
    ) -> (r: Self)
        ensures
            r == (DurableWaitingPage { items, next }),
    {
        DurableWaitingPage { items, next }
    }

    pub fn items(&self) -> (r: &[DurableWaitingSummary])
        ensures
            r@ == self.items@,
    {
        self.items.as_slice()
    }

    pub fn next(&self) -> (r: Option<WaitingPageCursor>)
        ensures
            r == self.next,
    {
        self.next
    }
}

#[derive(Clone, Debug, PartialEq, Eq)]
pub struct DurableEventPage {
    pub events: Vec<AgentEvent>,
    pub next: Option<EventSequence>,
}

impl DurableEventPage {
    pub fn new(events: Vec<AgentEvent>, next: Option<EventSequence>) -> (r: Self)
        ensures
            r == (DurableEventPage { events, next }),
    {
        DurableEventPage { events, next }
    }

    pub fn events(&self) -> (r: &[AgentEvent])
        ensures
            r@ == self.events@,
    {
        self.events.as_slice()
    }

    pub fn next(&self) -> (r: Option<EventSequence>)
        ensures
            r == self.next,
    {
        self.next
    }
}

} // verus!
