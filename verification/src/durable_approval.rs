//! Durable approvals: what is sealed, what it is bound to, and what the store keeps of it.

use vstd::prelude::*;

use crate::approval::ApprovalPreview;
use crate::digest::Digest32;
use crate::error::ActionSealError;
use crate::events::DurableApprovalOutcome;
use crate::ids::{
    ActionProposalId, ApprovalRequestId, DurableApprovalWaitId, GraphNodeAttemptId, GraphNodeId,
    PrincipalId, RunId, SessionId, ToolCallId, WorkspaceBindingId,
};
use crate::persistence::{AppendTransition, RunKey};
use crate::text::{
    byte_len, contains_control, decimal, decimal_text, has_control, id_text, quoted, quoted_text,
    utf8_len, write_id,
};

verus! {

pub const LOCAL_WRITE_CAPSULE_VERSION: u16 = 1;

pub const MAX_DURABLE_RELATIVE_PATH_BYTES: usize = 240;

pub const MAX_DURABLE_CONTENT_BYTES: usize = 4 * 1024;

pub const MAX_SEALED_CAPSULE_BYTES: usize = 8 * 1024;

pub const MAX_SEAL_KEY_ID_BYTES: usize = 64;

/// Identifies the definition of a graph program. It is not for logs.
#[derive(Clone, Copy, Eq, Hash)]
pub struct GraphDefinitionDigest {
    digest: Digest32,
}

impl View for GraphDefinitionDigest {
    type V = Digest32;

    closed spec fn view(&self) -> Digest32 {
        self.digest
    }
}

impl GraphDefinitionDigest {
    pub fn from_bytes(bytes: [u8; 32]) -> (r: Self)
        ensures
            r@@ == bytes@,
    {
        GraphDefinitionDigest { digest: Digest32::from_bytes(bytes) }
    }

    pub fn as_bytes(self) -> (r: [u8; 32])
        ensures
            r@ == self@@,
    {
        self.digest.as_bytes()
    }

    pub fn digest(self) -> (r: Digest32)
        ensures
            r == self@,
    {
        self.digest
    }

    /// What is written of a digest for debugging: nothing of it.
    pub fn redacted(&self) -> (r: String)
        ensures
            r@ == "GraphDefinitionDigest([REDACTED])"@,
    {
        "GraphDefinitionDigest([REDACTED])".to_owned()
    }
}

impl PartialEq for GraphDefinitionDigest {
    fn eq(&self, other: &GraphDefinitionDigest) -> (r: bool) {
        self.digest == other.digest
    }
}

impl vstd::std_specs::cmp::PartialEqSpecImpl for GraphDefinitionDigest {
    open spec fn obeys_eq_spec() -> bool {
        true
    }

    open spec fn eq_spec(&self, other: &GraphDefinitionDigest) -> bool {
        self@ == other@
    }
}

/// The parts of a path between its slashes.
pub open spec fn path_parts(path: Seq<char>) -> Seq<Seq<char>>
    decreases path.len(),
{
    if path.len() == 0 {
        seq![Seq::empty()]
    } else {
        let before = path_parts(path.drop_last());
        if path.last() == '/' {
            before.push(Seq::empty())
        } else {
            before.drop_last().push(before.last().push(path.last()))
        }
    }
}

/// A part that names something: neither empty nor a step in place or upwards.
pub open spec fn names_something(part: Seq<char>) -> bool {
    part.len() > 0 && part != seq!['.'] && part != seq!['.', '.']
}

/// A path that stays below the place it starts from.
pub open spec fn is_relative_path(path: Seq<char>) -> bool {
    &&& path.len() > 0
    &&& utf8_len(path) <= MAX_DURABLE_RELATIVE_PATH_BYTES
    &&& !has_control(path)
    &&& forall|i: int|
        0 <= i < path_parts(path).len() ==> names_something(#[trigger] path_parts(path)[i])
}

fn part_names_something(path: &str, from: usize, to: usize) -> (r: bool)
    requires
        from <= to <= path@.len(),
    ensures
        r == names_something(path@.subrange(from as int, to as int)),
{
    let ghost part = path@.subrange(from as int, to as int);
    let len = to - from;
    if len == 0 {
        return false;
    }
    if len == 1 && path.get_char(from) == '.' {
        assert(part =~= seq!['.']);
        return false;
    }
    if len == 2 && path.get_char(from) == '.' && path.get_char(from + 1) == '.' {
        assert(part =~= seq!['.', '.']);
        return false;
    }
    proof {
        let one = seq!['.'];
        let two = seq!['.', '.'];
        assert(one.len() == 1 && one[0] == '.');
        assert(two.len() == 2 && two[0] == '.' && two[1] == '.');
        assert(part.len() == len);
        if part == one {
            assert(part[0] == path@[from as int]);
            assert(false);
        }
        if part == two {
            assert(part[0] == path@[from as int]);
            assert(part[1] == path@[from + 1]);
            assert(false);
        }
    }
    true
}

/// Whether every part of a path names something. A path that starts with a slash has an empty
/// first part.
fn parts_name_something(path: &str) -> (r: bool)
    ensures
        r == forall|i: int|
            0 <= i < path_parts(path@).len() ==> names_something(#[trigger] path_parts(path@)[i]),
{
    let count = path.unicode_len();
    let mut start: usize = 0;
    let mut i: usize = 0;
    let mut ok = true;
    proof {
        assert(path@.take(0) =~= Seq::empty());
        assert(path@.subrange(0, 0) =~= Seq::empty());
    }
    while i < count
        invariant
            start <= i <= count == path@.len(),
            path_parts(path@.take(i as int)).len() > 0,
            path_parts(path@.take(i as int)).last() == path@.subrange(start as int, i as int),
            ok == forall|k: int|
                0 <= k < path_parts(path@.take(i as int)).len() - 1 ==> names_something(
                    #[trigger] path_parts(path@.take(i as int))[k],
                ),
        decreases count - i,
    {
        let c = path.get_char(i);
        let ghost before = path_parts(path@.take(i as int));
        let ghost after = path_parts(path@.take(i + 1));
        proof {
            assert(path@.take(i + 1).drop_last() =~= path@.take(i as int));
            assert(path@.take(i + 1).last() == c);
        }
        if c == '/' {
            let good = part_names_something(path, start, i);
            proof {
                assert(path@.subrange(i + 1, i + 1) =~= Seq::empty());
                assert(before[before.len() - 1] == before.last());
                assert forall|k: int| 0 <= k < after.len() - 1 implies #[trigger] after[k]
                    == before[k] by {}
                if ok && good {
                    assert forall|k: int| 0 <= k < after.len() - 1 implies names_something(
                        #[trigger] after[k],
                    ) by {
                        assert(after[k] == before[k]);
                    }
                } else if !good {
                    assert(!names_something(after[before.len() - 1]));
                } else {
                    let k = choose|k: int|
                        0 <= k < before.len() - 1 && !names_something(#[trigger] before[k]);
                    assert(!names_something(after[k]));
                }
            }
            ok = ok && good;
            start = i + 1;
        } else {
            proof {
                assert(path@.subrange(start as int, i as int).push(c) =~= path@.subrange(
                    start as int,
                    i + 1,
                ));
                assert forall|k: int| 0 <= k < after.len() - 1 implies #[trigger] after[k]
                    == before[k] by {}
                if ok {
                    assert forall|k: int| 0 <= k < after.len() - 1 implies names_something(
                        #[trigger] after[k],
                    ) by {
                        assert(after[k] == before[k]);
                    }
                } else {
                    let k = choose|k: int|
                        0 <= k < before.len() - 1 && !names_something(#[trigger] before[k]);
                    assert(!names_something(after[k]));
                }
            }
        }
        i = i + 1;
    }
    let last = part_names_something(path, start, count);
    proof {
        assert(path@.take(count as int) =~= path@);
        let parts = path_parts(path@);
        assert(parts[parts.len() - 1] == parts.last());
        if ok && last {
            assert forall|k: int| 0 <= k < parts.len() implies names_something(
                #[trigger] parts[k],
            ) by {}
        }
    }
    ok && last
}

/// A write to a file of the workspace, small enough to be kept. It is not for logs.
#[derive(PartialEq, Eq)]
pub struct LocalWriteActionCapsuleV1 {
    relative_path: String,
    content: String,
}

pub open spec fn capsule_fits(relative_path: Seq<char>, content: Seq<char>) -> bool {
    is_relative_path(relative_path) && utf8_len(content) <= MAX_DURABLE_CONTENT_BYTES
}

impl LocalWriteActionCapsuleV1 {
    pub closed spec fn path(self) -> Seq<char> {
        self.relative_path@
    }

    pub closed spec fn text(self) -> Seq<char> {
        self.content@
    }

    #[verifier::type_invariant]
    spec fn fits(self) -> bool {
        capsule_fits(self.relative_path@, self.content@)
    }

    pub fn new(relative_path: String, content: String) -> (r: Result<Self, ActionSealError>)
        ensures
            match r {
                Ok(capsule) => capsule_fits(relative_path@, content@) && capsule.path()
                    == relative_path@ && capsule.text() == content@,
                Err(error) => !capsule_fits(relative_path@, content@) && error
                    == ActionSealError::InvalidCapsule,
            },
    {
        let path = relative_path.as_str();
        if path.is_empty() || byte_len(path) > MAX_DURABLE_RELATIVE_PATH_BYTES || contains_control(
            path,
        ) || !parts_name_something(path) || byte_len(content.as_str()) > MAX_DURABLE_CONTENT_BYTES {
            return Err(ActionSealError::InvalidCapsule);
        }
        Ok(LocalWriteActionCapsuleV1 { relative_path, content })
    }

    pub fn relative_path(&self) -> (r: &str)
        ensures
            r@ == self.path(),
            is_relative_path(self.path()),
    {
        proof {
            use_type_invariant(self);
        }
        self.relative_path.as_str()
    }

    pub fn content(&self) -> (r: &str)
        ensures
            r@ == self.text(),
    {
        self.content.as_str()
    }

    /// What is written of a kept write for debugging: how long its content is.
    pub fn redacted(&self) -> (r: String)
        ensures
            r@
                == "LocalWriteActionCapsuleV1 { relative_path: \"[REDACTED]\", content: \"[REDACTED]\", content_bytes: "@
                + decimal_text(utf8_len(self.text())) + " }"@,
    {
        let mut out =
            "LocalWriteActionCapsuleV1 { relative_path: \"[REDACTED]\", content: \"[REDACTED]\", content_bytes: ".to_owned();
        out.append(decimal(byte_len(self.content.as_str()) as u64).as_str());
        out.append(" }");
        out
    }
}

impl Clone for LocalWriteActionCapsuleV1 {
    fn clone(&self) -> (r: Self)
        ensures
            r.path() == self.path(),
            r.text() == self.text(),
    {
        proof {
            use_type_invariant(self);
        }
        LocalWriteActionCapsuleV1 {
            relative_path: self.relative_path.clone(),
            content: self.content.clone(),
        }
    }
}

/// A path that is kept never starts at the root: its first part would be empty.
pub proof fn law_kept_path_is_relative(path: Seq<char>)
    requires
        is_relative_path(path),
    ensures
        path[0] != '/',
{
    if path[0] == '/' {
        first_part_of_rooted(path);
    }
}

proof fn first_part_of_rooted(path: Seq<char>)
    requires
        path.len() > 0,
        path[0] == '/',
    ensures
        path_parts(path).len() >= 2,
        path_parts(path)[0].len() == 0,
    decreases path.len(),
{
    reveal_with_fuel(path_parts, 2);
    if path.len() > 1 {
        first_part_of_rooted(path.drop_last());
    }
}

/// Everything that a sealed write is bound to.
#[derive(Clone, PartialEq, Eq)]
pub struct ActionSealBinding {
    pub run_id: RunId,
    pub session_id: SessionId,
    pub program_version: u32,
    pub graph_digest: GraphDefinitionDigest,
    pub node_id: GraphNodeId,
    pub attempt_id: GraphNodeAttemptId,
    pub wait_id: DurableApprovalWaitId,
    pub approval_request_id: ApprovalRequestId,
    pub action_proposal_id: ActionProposalId,
    pub tool_call_id: ToolCallId,
    pub action_digest: Digest32,
    pub workspace_binding_id: WorkspaceBindingId,
    pub tool_contract_digest: Digest32,
    pub requester: Option<PrincipalId>,
    pub capsule_version: u16,
}

impl ActionSealBinding {
    pub fn new(
        key: RunKey,
        program_version: u32,
        graph_digest: GraphDefinitionDigest,
        node_id: GraphNodeId,
        attempt_id: GraphNodeAttemptId,
        wait_id: DurableApprovalWaitId,
        approval_request_id: ApprovalRequestId,
        action_proposal_id: ActionProposalId,
        tool_call_id: ToolCallId,
        action_digest: Digest32,
        workspace_binding_id: WorkspaceBindingId,
        tool_contract_digest: Digest32,
    ) -> (r: Self)
        ensures
            r == (ActionSealBinding {
                run_id: key.run_id,
                session_id: key.session_id,
                program_version,
                graph_digest,
                node_id,
                attempt_id,
                wait_id,
                approval_request_id,
                action_proposal_id,
                tool_call_id,
                action_digest,
                workspace_binding_id,
                tool_contract_digest,
                requester: None,
                capsule_version: LOCAL_WRITE_CAPSULE_VERSION,
            }),
    {
        ActionSealBinding {
            run_id: key.run_id(),
            session_id: key.session_id(),
            program_version,
            graph_digest,
            node_id,
            attempt_id,
            wait_id,
            approval_request_id,
            action_proposal_id,
            tool_call_id,
            action_digest,
            workspace_binding_id,
            tool_contract_digest,
            requester: None,
            capsule_version: LOCAL_WRITE_CAPSULE_VERSION,
        }
    }

    pub fn with_requester(self, requester: PrincipalId) -> (r: Self)
        ensures
            r == (ActionSealBinding { requester: Some(requester), ..self }),
    {
        ActionSealBinding { requester: Some(requester), ..self }
    }

    pub open spec fn bound_key(self) -> RunKey {
        RunKey { run_id: self.run_id, session_id: self.session_id }
    }

    pub fn key(&self) -> (r: RunKey)
        ensures
            r == self.bound_key(),
    {
        RunKey::new(self.run_id, self.session_id)
    }

    pub fn program_version(&self) -> (r: u32)
        ensures
            r == self.program_version,
    {
        self.program_version
    }

    pub fn graph_digest(&self) -> (r: GraphDefinitionDigest)
        ensures
            r == self.graph_digest,
    {
        self.graph_digest
    }

    pub fn node_id(&self) -> (r: &GraphNodeId)
        ensures
            *r == self.node_id,
    {
        &self.node_id
    }

    pub fn attempt_id(&self) -> (r: GraphNodeAttemptId)
        ensures
            r == self.attempt_id,
    {
        self.attempt_id
    }

    pub fn wait_id(&self) -> (r: DurableApprovalWaitId)
        ensures
            r == self.wait_id,
    {
        self.wait_id
    }

    pub fn approval_request_id(&self) -> (r: ApprovalRequestId)
        ensures
            r == self.approval_request_id,
    {
        self.approval_request_id
    }

    pub fn action_proposal_id(&self) -> (r: ActionProposalId)
        ensures
            r == self.action_proposal_id,
    {
        self.action_proposal_id
    }

    pub fn tool_call_id(&self) -> (r: ToolCallId)
        ensures
            r == self.tool_call_id,
    {
        self.tool_call_id
    }

    pub fn action_digest(&self) -> (r: Digest32)
        ensures
            r == self.action_digest,
    {
        self.action_digest
    }

    pub fn workspace_binding_id(&self) -> (r: WorkspaceBindingId)
        ensures
            r == self.workspace_binding_id,
    {
        self.workspace_binding_id
    }

    pub fn tool_contract_digest(&self) -> (r: Digest32)
        ensures
            r == self.tool_contract_digest,
    {
        self.tool_contract_digest
    }

    pub fn requester(&self) -> (r: Option<&PrincipalId>)
        ensures
            match r {
                None => self.requester is None,
                Some(requester) => self.requester == Some(*requester),
            },
    {
        match &self.requester {
            None => None,
            Some(requester) => Some(requester),
        }
    }

    /// What is written of a binding for debugging: the run, the wait and the question.
    pub fn redacted(&self) -> (r: String)
        ensures
            r@ == binding_text(*self),
    {
        let mut out = "ActionSealBinding { run_id: RunId(".to_owned();
        out.append(write_id(self.run_id.0).as_str());
        out.append("), wait_id: DurableApprovalWaitId(");
        out.append(write_id(self.wait_id.0).as_str());
        out.append("), approval_request_id: ApprovalRequestId(");
        out.append(write_id(self.approval_request_id.0).as_str());
        out.append(
            "), action_digest: \"[REDACTED]\", tool_contract_digest: \"[REDACTED]\", .. }",
        );
        out
    }

    pub fn capsule_version(&self) -> (r: u16)
        ensures
            r == self.capsule_version,
    {
        self.capsule_version
    }
}

/// The debugging text of a binding.
pub open spec fn binding_text(binding: ActionSealBinding) -> Seq<char> {
    "ActionSealBinding { run_id: RunId("@ + id_text(binding.run_id.0)
        + "), wait_id: DurableApprovalWaitId("@ + id_text(binding.wait_id.0)
        + "), approval_request_id: ApprovalRequestId("@ + id_text(binding.approval_request_id.0)
        + "), action_digest: \"[REDACTED]\", tool_contract_digest: \"[REDACTED]\", .. }"@
}

/// A sealed write. What is in it can be read only with the key.
#[derive(Clone, PartialEq, Eq)]
pub struct SealedLocalWriteAction {
    pub version: u16,
    pub key_id: String,
    pub nonce: Vec<u8>,
    pub ciphertext: Vec<u8>,
}

pub open spec fn is_key_char(c: char) -> bool {
    ||| 'a' <= c <= 'z'
    ||| 'A' <= c <= 'Z'
    ||| '0' <= c <= '9'
    ||| c == '-'
    ||| c == '_'
}

pub open spec fn is_key_id(key_id: Seq<char>) -> bool {
    &&& 0 < key_id.len()
    &&& utf8_len(key_id) <= MAX_SEAL_KEY_ID_BYTES
    &&& forall|i: int| 0 <= i < key_id.len() ==> is_key_char(#[trigger] key_id[i])
}

pub open spec fn seal_fits(key_id: Seq<char>, nonce: Seq<u8>, ciphertext: Seq<u8>) -> bool {
    &&& is_key_id(key_id)
    &&& nonce.len() > 0
    &&& 0 < ciphertext.len() <= MAX_SEALED_CAPSULE_BYTES
}

fn names_key(key_id: &str) -> (r: bool)
    ensures
        r == is_key_id(key_id@),
{
    if key_id.is_empty() || byte_len(key_id) > MAX_SEAL_KEY_ID_BYTES {
        return false;
    }
    let mut ok = true;
    for c in it: key_id.chars()
        invariant
            it.seq() == key_id@,
            ok == forall|i: int| 0 <= i < it.index() ==> is_key_char(#[trigger] key_id@[i]),
    {
        let good = ('a' <= c && c <= 'z') || ('A' <= c && c <= 'Z') || ('0' <= c && c <= '9') || c
            == '-' || c == '_';
        if !good {
            assert(!is_key_char(key_id@[it.index() as int]));
            ok = false;
        }
    }
    ok
}

impl SealedLocalWriteAction {
    pub fn new(key_id: String, nonce: Vec<u8>, ciphertext: Vec<u8>) -> (r: Result<
        Self,
        ActionSealError,
    >)
        ensures
            r == (if seal_fits(key_id@, nonce@, ciphertext@) {
                Ok(
                    (SealedLocalWriteAction {
                        version: LOCAL_WRITE_CAPSULE_VERSION,
                        key_id,
                        nonce,
                        ciphertext,
                    }),
                )
            } else {
                Err::<SealedLocalWriteAction, ActionSealError>(ActionSealError::InvalidCapsule)
            }),
    {
        if !names_key(key_id.as_str()) || nonce.len() == 0 || ciphertext.len() == 0
            || ciphertext.len() > MAX_SEALED_CAPSULE_BYTES {
            return Err(ActionSealError::InvalidCapsule);
        }
        Ok(
            SealedLocalWriteAction {
                version: LOCAL_WRITE_CAPSULE_VERSION,
                key_id,
                nonce,
                ciphertext,
            },
        )
    }

    pub fn version(&self) -> (r: u16)
        ensures
            r == self.version,
    {
        self.version
    }

    pub fn key_id(&self) -> (r: &str)
        ensures
            r@ == self.key_id@,
    {
        self.key_id.as_str()
    }

    pub fn nonce(&self) -> (r: &[u8])
        ensures
            r@ == self.nonce@,
    {
        self.nonce.as_slice()
    }

    pub fn ciphertext(&self) -> (r: &[u8])
        ensures
            r@ == self.ciphertext@,
    {
        self.ciphertext.as_slice()
    }

    /// What is written of a seal for debugging: its key and how long what it seals is.
    pub fn redacted(&self) -> (r: String)
        ensures
            r@ == seal_text(self.version, self.key_id@, self.ciphertext@.len()),
    {
        let mut out = "SealedLocalWriteAction { version: ".to_owned();
        out.append(decimal(self.version as u64).as_str());
        out.append(", key_id: ");
        out.append(quoted(self.key_id.as_str()).as_str());
        out.append(", nonce: \"[REDACTED]\", ciphertext: \"[REDACTED]\", ciphertext_bytes: ");
        out.append(decimal(self.ciphertext.len() as u64).as_str());
        out.append(" }");
        out
    }

    /// Whether a seal that was read from a store is one that could have been made.
    pub fn validate(&self) -> (r: Result<(), ActionSealError>)
        ensures
            r == (if self.version == LOCAL_WRITE_CAPSULE_VERSION && seal_fits(
                self.key_id@,
                self.nonce@,
                self.ciphertext@,
            ) {
                Ok(())
            } else {
                Err::<(), ActionSealError>(ActionSealError::InvalidCapsule)
            }),
    {
        if self.version != LOCAL_WRITE_CAPSULE_VERSION || !names_key(self.key_id.as_str())
            || self.nonce.len() == 0 || self.ciphertext.len() == 0 || self.ciphertext.len()
            > MAX_SEALED_CAPSULE_BYTES {
            return Err(ActionSealError::InvalidCapsule);
        }
        Ok(())
    }
}

/// The debugging text of a seal.
pub open spec fn seal_text(version: u16, key_id: Seq<char>, ciphertext_bytes: nat) -> Seq<char> {
    "SealedLocalWriteAction { version: "@ + decimal_text(version as nat) + ", key_id: "@
        + quoted_text(key_id)
        + ", nonce: \"[REDACTED]\", ciphertext: \"[REDACTED]\", ciphertext_bytes: "@
        + decimal_text(ciphertext_bytes) + " }"@
}

/// How far a durable approval has come.
#[derive(Clone, Copy, Debug, PartialEq, Eq, Structural)]
pub enum DurableApprovalStatus {
    Waiting,
    DecisionRecordedApprove,
    DecisionRecordedDeny,
    ApprovedReady,
    Executing,
    Consumed,
}

impl DurableApprovalStatus {
    /// The name of a status in texts for debugging.
    pub open spec fn name(self) -> Seq<char> {
        match self {
            DurableApprovalStatus::Waiting => "Waiting"@,
            DurableApprovalStatus::DecisionRecordedApprove => "DecisionRecordedApprove"@,
            DurableApprovalStatus::DecisionRecordedDeny => "DecisionRecordedDeny"@,
            DurableApprovalStatus::ApprovedReady => "ApprovedReady"@,
            DurableApprovalStatus::Executing => "Executing"@,
            DurableApprovalStatus::Consumed => "Consumed"@,
        }
    }

    pub fn write_name(self) -> (r: &'static str)
        ensures
            r@ == self.name(),
    {
        match self {
            DurableApprovalStatus::Waiting => "Waiting",
            DurableApprovalStatus::DecisionRecordedApprove => "DecisionRecordedApprove",
            DurableApprovalStatus::DecisionRecordedDeny => "DecisionRecordedDeny",
            DurableApprovalStatus::ApprovedReady => "ApprovedReady",
            DurableApprovalStatus::Executing => "Executing",
            DurableApprovalStatus::Consumed => "Consumed",
        }
    }
}

/// What the store keeps of a durable approval.
#[derive(Clone)]
pub struct DurableApprovalRecord {
    pub binding: ActionSealBinding,
    pub sealed_action: SealedLocalWriteAction,
    pub status: DurableApprovalStatus,
    pub row_version: u64,
    pub decision_actor: Option<PrincipalId>,
    pub decision_timestamp_unix_millis: Option<u64>,
}

impl DurableApprovalRecord {
    pub fn new(binding: ActionSealBinding, sealed_action: SealedLocalWriteAction) -> (r: Self)
        ensures
            r == (DurableApprovalRecord {
                binding,
                sealed_action,
                status: DurableApprovalStatus::Waiting,
                row_version: 0,
                decision_actor: None,
                decision_timestamp_unix_millis: None,
            }),
    {
        DurableApprovalRecord {
            binding,
            sealed_action,
            status: DurableApprovalStatus::Waiting,
            row_version: 0,
            decision_actor: None,
            decision_timestamp_unix_millis: None,
        }
    }

    pub fn binding(&self) -> (r: &ActionSealBinding)
        ensures
            *r == self.binding,
    {
        &self.binding
    }

    pub fn sealed_action(&self) -> (r: &SealedLocalWriteAction)
        ensures
            *r == self.sealed_action,
    {
        &self.sealed_action
    }

    pub fn status(&self) -> (r: DurableApprovalStatus)
        ensures
            r == self.status,
    {
        self.status
    }

    pub fn row_version(&self) -> (r: u64)
        ensures
            r == self.row_version,
    {
        self.row_version
    }

    pub fn decision_actor(&self) -> (r: Option<&PrincipalId>)
        ensures
            match r {
                None => self.decision_actor is None,
                Some(actor) => self.decision_actor == Some(*actor),
            },
    {
        match &self.decision_actor {
            None => None,
            Some(actor) => Some(actor),
        }
    }

    pub fn decision_timestamp_unix_millis(&self) -> (r: Option<u64>)
        ensures
            r == self.decision_timestamp_unix_millis,
    {
        self.decision_timestamp_unix_millis
    }

    /// What is written of a record for debugging.
    pub fn redacted(&self) -> (r: String)
        ensures
            r@ == "DurableApprovalRecord { binding: "@ + binding_text(self.binding)
                + ", sealed_action: "@ + seal_text(
                self.sealed_action.version,
                self.sealed_action.key_id@,
                self.sealed_action.ciphertext@.len(),
            ) + ", status: "@ + self.status.name() + ", row_version: "@ + decimal_text(
                self.row_version as nat,
            ) + " }"@,
    {
        let mut out = "DurableApprovalRecord { binding: ".to_owned();
        out.append(self.binding.redacted().as_str());
        out.append(", sealed_action: ");
        out.append(self.sealed_action.redacted().as_str());
        out.append(", status: ");
        out.append(self.status.write_name());
        out.append(", row_version: ");
        out.append(decimal(self.row_version).as_str());
        out.append(" }");
        out
    }

    pub fn restore_store_state(self, status: DurableApprovalStatus, row_version: u64) -> (r: Self)
        ensures
            r == (DurableApprovalRecord { status, row_version, ..self }),
    {
        DurableApprovalRecord { status, row_version, ..self }
    }

    pub fn restore_decision_identity(
        self,
        actor: Option<PrincipalId>,
        timestamp_unix_millis: Option<u64>,
    ) -> (r: Self)
        ensures
            r == (DurableApprovalRecord {
                decision_actor: actor,
                decision_timestamp_unix_millis: timestamp_unix_millis,
                ..self
            }),
    {
        DurableApprovalRecord {
            decision_actor: actor,
            decision_timestamp_unix_millis: timestamp_unix_millis,
            ..self
        }
    }
}

/// What someone who decides is shown of a durable approval.
pub struct DurableApprovalView {
    pub wait_id: DurableApprovalWaitId,
    pub request_id: ApprovalRequestId,
    pub row_version: u64,
    pub preview: ApprovalPreview,
}

impl DurableApprovalView {
    pub fn new(
        wait_id: DurableApprovalWaitId,
        request_id: ApprovalRequestId,
        row_version: u64,
        preview: ApprovalPreview,
    ) -> (r: Self)
        ensures
            r == (DurableApprovalView { wait_id, request_id, row_version, preview }),
    {
        DurableApprovalView { wait_id, request_id, row_version, preview }
    }

    pub fn wait_id(&self) -> (r: DurableApprovalWaitId)
        ensures
            r == self.wait_id,
    {
        self.wait_id
    }

    pub fn request_id(&self) -> (r: ApprovalRequestId)
        ensures
            r == self.request_id,
    {
        self.request_id
    }

    pub fn row_version(&self) -> (r: u64)
        ensures
            r == self.row_version,
    {
        self.row_version
    }

    pub fn preview(&self) -> (r: &ApprovalPreview)
        ensures
            *r == self.preview,
    {
        &self.preview
    }
}

/// A decision on a durable approval, for exactly what it was shown.
#[derive(Clone, PartialEq, Eq)]
pub struct DurableApprovalDecisionCommand {
    pub key: RunKey,
    pub wait_id: DurableApprovalWaitId,
    pub approval_request_id: ApprovalRequestId,
    pub action_proposal_id: ActionProposalId,
    pub tool_call_id: ToolCallId,
    pub action_digest: Digest32,
    pub expected_row_version: u64,
    pub outcome: DurableApprovalOutcome,
    pub actor: Option<PrincipalId>,
    pub decided_at_unix_millis: Option<u64>,
}

/// The place in a graph program from which a write is suspended.
#[derive(Clone, PartialEq, Eq)]
pub struct DurableActionContext {
    pub program_version: u32,
    pub graph_digest: GraphDefinitionDigest,
    pub node_id: GraphNodeId,
    pub attempt_id: GraphNodeAttemptId,
}

/// A wait for a decision.
#[derive(Clone, Copy, Debug, PartialEq, Eq)]
pub struct DurableApprovalWait {
    pub wait_id: DurableApprovalWaitId,
    pub approval_request_id: ApprovalRequestId,
    pub action_proposal_id: ActionProposalId,
    pub tool_call_id: ToolCallId,
    pub action_digest: Digest32,
}

impl DurableApprovalWait {
    pub open spec fn bound(binding: ActionSealBinding) -> DurableApprovalWait {
        DurableApprovalWait {
            wait_id: binding.wait_id,
            approval_request_id: binding.approval_request_id,
            action_proposal_id: binding.action_proposal_id,
            tool_call_id: binding.tool_call_id,
            action_digest: binding.action_digest,
        }
    }

    pub fn new(binding: &ActionSealBinding) -> (r: Self)
        ensures
            r == DurableApprovalWait::bound(*binding),
    {
        DurableApprovalWait {
            wait_id: binding.wait_id(),
            approval_request_id: binding.approval_request_id(),
            action_proposal_id: binding.action_proposal_id(),
            tool_call_id: binding.tool_call_id(),
            action_digest: binding.action_digest(),
        }
    }

    pub fn wait_id(self) -> (r: DurableApprovalWaitId)
        ensures
            r == self.wait_id,
    {
        self.wait_id
    }

    pub fn approval_request_id(self) -> (r: ApprovalRequestId)
        ensures
            r == self.approval_request_id,
    {
        self.approval_request_id
    }

    pub fn action_proposal_id(self) -> (r: ActionProposalId)
        ensures
            r == self.action_proposal_id,
    {
        self.action_proposal_id
    }

    pub fn tool_call_id(self) -> (r: ToolCallId)
        ensures
            r == self.tool_call_id,
    {
        self.tool_call_id
    }

    pub fn action_digest(self) -> (r: Digest32)
        ensures
            r == self.action_digest,
    {
        self.action_digest
    }
}

/// Asks a store for a new wait.
#[derive(Clone)]
pub struct CreateDurableApprovalWait {
    pub transition: AppendTransition,
    pub record: DurableApprovalRecord,
}

impl CreateDurableApprovalWait {
    pub fn new(transition: AppendTransition, record: DurableApprovalRecord) -> (r: Self)
        ensures
            r == (CreateDurableApprovalWait { transition, record }),
    {
        CreateDurableApprovalWait { transition, record }
    }

    pub fn transition(&self) -> (r: &AppendTransition)
        ensures
            *r == self.transition,
    {
        &self.transition
    }

    pub fn record(&self) -> (r: &DurableApprovalRecord)
        ensures
            *r == self.record,
    {
        &self.record
    }
}

/// Asks a store to keep a decision.
#[derive(Clone)]
pub struct RecordDurableApprovalDecision {
    pub transition: AppendTransition,
    pub command: DurableApprovalDecisionCommand,
}

impl RecordDurableApprovalDecision {
    pub fn new(transition: AppendTransition, command: DurableApprovalDecisionCommand) -> (r: Self)
        ensures
            r == (RecordDurableApprovalDecision { transition, command }),
    {
        RecordDurableApprovalDecision { transition, command }
    }

    pub fn transition(&self) -> (r: &AppendTransition)
        ensures
            *r == self.transition,
    {
        &self.transition
    }

    pub fn command(&self) -> (r: &DurableApprovalDecisionCommand)
        ensures
            *r == self.command,
    {
        &self.command
    }
}

/// Asks a store to move a wait on, if it still stands where it is expected to.
#[derive(Clone)]
pub struct DurableApprovalStatusTransition {
    pub transition: Option<AppendTransition>,
    pub key: RunKey,
    pub wait_id: DurableApprovalWaitId,
    pub expected_row_version: u64,
    pub expected_status: DurableApprovalStatus,
    pub next_status: DurableApprovalStatus,
}

impl DurableApprovalStatusTransition {
    pub fn new(
        transition: Option<AppendTransition>,
        key: RunKey,
        wait_id: DurableApprovalWaitId,
        expected_row_version: u64,
        expected_status: DurableApprovalStatus,
        next_status: DurableApprovalStatus,
    ) -> (r: Self)
        ensures
            r == (DurableApprovalStatusTransition {
                transition,
                key,
                wait_id,
                expected_row_version,
                expected_status,
                next_status,
            }),
    {
        DurableApprovalStatusTransition {
            transition,
            key,
            wait_id,
            expected_row_version,
            expected_status,
            next_status,
        }
    }

    pub fn transition(&self) -> (r: Option<&AppendTransition>)
        ensures
            match r {
                None => self.transition is None,
                Some(transition) => self.transition == Some(*transition),
            },
    {
        match &self.transition {
            None => None,
            Some(transition) => Some(transition),
        }
    }

    pub fn key(&self) -> (r: RunKey)
        ensures
            r == self.key,
    {
        self.key
    }

    pub fn wait_id(&self) -> (r: DurableApprovalWaitId)
        ensures
            r == self.wait_id,
    {
        self.wait_id
    }

    pub fn expected_row_version(&self) -> (r: u64)
        ensures
            r == self.expected_row_version,
    {
        self.expected_row_version
    }

    pub fn expected_status(&self) -> (r: DurableApprovalStatus)
        ensures
            r == self.expected_status,
    {
        self.expected_status
    }

    pub fn next_status(&self) -> (r: DurableApprovalStatus)
        ensures
            r == self.next_status,
    {
        self.next_status
    }
}

} // verus!
