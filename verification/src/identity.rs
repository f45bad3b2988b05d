//! Authenticated principals and the default-deny policy for the service around the runtime.

use vstd::prelude::*;

use crate::digest::Digest32;
use crate::ids::{DurableApprovalWaitId, PrincipalId, RunId, SessionId};
use crate::text::{byte_len, decimal, decimal_text, str_equal, texts, utf8_len};

verus! {

pub const MAX_PRINCIPAL_ROLES: usize = 3;

pub const MAX_WORKFLOW_ID_BYTES: usize = 96;

pub const MAX_POLICY_WORKFLOWS: usize = 32;

pub const MAX_SESSION_PAGE_ITEMS: u16 = 256;

pub const AUTHORIZATION_POLICY_SCHEMA_VERSION: u16 = 1;

#[derive(Clone, Copy, Debug, PartialEq, Eq, PartialOrd, Ord, Structural)]
pub enum PrincipalKind {
    Human,
    Service,
    LocalProcess,
}

#[derive(Clone, Copy, Debug, PartialEq, Eq, PartialOrd, Ord, Structural)]
pub enum PrincipalRole {
    User,
    Approver,
    Operator,
}

#[derive(Clone, Copy, Debug, PartialEq, Eq, Structural)]
pub enum AuthenticationClass {
    UnixPeer,
    LoopbackBearer,
}

#[derive(Clone, Copy, Debug, PartialEq, Eq, Structural)]
pub enum IdentityError {
    InvalidPrincipal,
    InvalidPolicy,
}

#[derive(Clone, Copy, Debug, PartialEq, Eq, Structural)]
pub enum IdentityStoreError {
    Unavailable,
    Conflict,
    Corrupt,
}

#[derive(Clone, Copy, Debug, PartialEq, Eq, Structural)]
pub struct SecurityAuditError;

/// A principal whose authentication has succeeded, with at least one role.
#[derive(PartialEq, Eq)]
pub struct VerifiedPrincipal {
    id: PrincipalId,
    kind: PrincipalKind,
    user: bool,
    approver: bool,
    operator: bool,
    authentication_class: AuthenticationClass,
}

impl VerifiedPrincipal {
    pub closed spec fn holds(&self, role: PrincipalRole) -> bool {
        match role {
            PrincipalRole::User => self.user,
            PrincipalRole::Approver => self.approver,
            PrincipalRole::Operator => self.operator,
        }
    }

    pub closed spec fn subject(&self) -> Seq<char> {
        self.id@
    }

    pub closed spec fn described(&self) -> (PrincipalKind, AuthenticationClass) {
        (self.kind, self.authentication_class)
    }

    #[verifier::type_invariant]
    spec fn has_some_role(&self) -> bool {
        self.user || self.approver || self.operator
    }

    /// A role named twice is one role. A principal without any role is refused.
    pub fn new(
        id: PrincipalId,
        kind: PrincipalKind,
        roles: Vec<PrincipalRole>,
        authentication_class: AuthenticationClass,
    ) -> (r: Result<Self, IdentityError>)
        ensures
            r is Ok <==> roles@.len() > 0,
            r matches Err(error) ==> error == IdentityError::InvalidPrincipal,
            r matches Ok(principal) ==> {
                &&& principal.subject() == id@
                &&& principal.described() == (kind, authentication_class)
                &&& forall|role: PrincipalRole| principal.holds(role) <==> roles@.contains(role)
            },
    {
        if roles.len() == 0 {
            return Err(IdentityError::InvalidPrincipal);
        }
        let user = contains_role(&roles, PrincipalRole::User);
        let approver = contains_role(&roles, PrincipalRole::Approver);
        let operator = contains_role(&roles, PrincipalRole::Operator);
        proof {
            assert(roles@.contains(roles@[0]));
        }
        Ok(VerifiedPrincipal { id, kind, user, approver, operator, authentication_class })
    }

    pub fn id(&self) -> (r: &PrincipalId)
        ensures
            r@ == self.subject(),
    {
        &self.id
    }

    pub fn kind(&self) -> (r: PrincipalKind)
        ensures
            r == self.described().0,
    {
        self.kind
    }

    pub fn authentication_class(&self) -> (r: AuthenticationClass)
        ensures
            r == self.described().1,
    {
        self.authentication_class
    }

    pub fn has_role(&self, role: PrincipalRole) -> (r: bool)
        ensures
            r == self.holds(role),
    {
        match role {
            PrincipalRole::User => self.user,
            PrincipalRole::Approver => self.approver,
            PrincipalRole::Operator => self.operator,
        }
    }

    /// How many distinct roles the principal holds.
    pub open spec fn roles_held(&self) -> nat {
        (if self.holds(PrincipalRole::User) {
            1nat
        } else {
            0
        }) + (if self.holds(PrincipalRole::Approver) {
            1nat
        } else {
            0
        }) + (if self.holds(PrincipalRole::Operator) {
            1nat
        } else {
            0
        })
    }

    pub fn role_count(&self) -> (r: usize)
        ensures
            r == self.roles_held(),
            0 < r <= MAX_PRINCIPAL_ROLES,
    {
        proof {
            use_type_invariant(self);
        }
        let mut count: usize = 0;
        if self.user {
            count = count + 1;
        }
        if self.approver {
            count = count + 1;
        }
        if self.operator {
            count = count + 1;
        }
        count
    }

    /// What is written of a principal for debugging: what it is and how it came in, not who it is.
    pub fn redacted(&self) -> (r: String)
        ensures
            r@ == "VerifiedPrincipal { id: PrincipalId([REDACTED]), kind: "@ + kind_text(
                self.described().0,
            ) + ", role_count: "@ + decimal_text(self.roles_held()) + ", authentication_class: "@
                + class_text(self.described().1) + " }"@,
    {
        let mut out = "VerifiedPrincipal { id: PrincipalId([REDACTED]), kind: ".to_owned();
        out.append(
            match self.kind {
                PrincipalKind::Human => "Human",
                PrincipalKind::Service => "Service",
                PrincipalKind::LocalProcess => "LocalProcess",
            },
        );
        out.append(", role_count: ");
        out.append(decimal(self.role_count() as u64).as_str());
        out.append(", authentication_class: ");
        out.append(
            match self.authentication_class {
                AuthenticationClass::UnixPeer => "UnixPeer",
                AuthenticationClass::LoopbackBearer => "LoopbackBearer",
            },
        );
        out.append(" }");
        out
    }
}

impl Clone for VerifiedPrincipal {
    fn clone(&self) -> (r: Self)
        ensures
            r.subject() == self.subject(),
            r.described() == self.described(),
            forall|role: PrincipalRole| r.holds(role) == self.holds(role),
    {
        proof {
            use_type_invariant(self);
        }
        VerifiedPrincipal {
            id: self.id.clone(),
            kind: self.kind,
            user: self.user,
            approver: self.approver,
            operator: self.operator,
            authentication_class: self.authentication_class,
        }
    }
}

pub open spec fn kind_text(kind: PrincipalKind) -> Seq<char> {
    match kind {
        PrincipalKind::Human => "Human"@,
        PrincipalKind::Service => "Service"@,
        PrincipalKind::LocalProcess => "LocalProcess"@,
    }
}

pub open spec fn class_text(class: AuthenticationClass) -> Seq<char> {
    match class {
        AuthenticationClass::UnixPeer => "UnixPeer"@,
        AuthenticationClass::LoopbackBearer => "LoopbackBearer"@,
    }
}

fn contains_role(roles: &Vec<PrincipalRole>, role: PrincipalRole) -> (r: bool)
    ensures
        r == roles@.contains(role),
{
    let mut i: usize = 0;
    while i < roles.len()
        invariant
            i <= roles.len(),
            forall|j: int| 0 <= j < i ==> roles@[j] != role,
        decreases roles.len() - i,
    {
        if roles[i] == role {
            return true;
        }
        i = i + 1;
    }
    false
}

#[derive(Clone, Copy, Debug, PartialEq, Eq, Structural)]
pub enum ApprovalSeparation {
    RequesterMayApprove,
    RequesterMustDiffer,
}

#[derive(Clone, Copy, Debug, PartialEq, Eq, Structural)]
pub enum AuthorizationAction {
    CreateSession,
    ListSessions,
    ReadSessionHistory,
    StartWorkflow,
    ReadRun,
    ReadEvents,
    CancelRun,
    ListWaiting,
    ReadApprovalPreview,
    DecideApproval,
    ResumeRun,
    AbortWaiting,
    ReadRuntimeStatus,
    ReadOperations,
    InspectReconciliation,
}

/// What an action is asked for on.
#[derive(Clone, PartialEq, Eq)]
pub enum AuthorizationResource<'a> {
    Global,
    OwnedSession { owner: &'a PrincipalId },
    Workflow { workflow_id: &'a str },
    OwnedRun { workflow_id: &'a str, owner: &'a PrincipalId },
    Approval { workflow_id: &'a str, owner: &'a PrincipalId, requester: &'a PrincipalId },
    LegacyUnowned,
}

#[derive(Clone, Copy, Debug, PartialEq, Eq, Structural)]
pub enum AuthorizationDecision {
    Granted,
    Denied,
}

/// The identity of a policy's text.
#[derive(Clone, Copy, Eq)]
pub struct AuthorizationPolicyFingerprint {
    pub digest: Digest32,
}

impl AuthorizationPolicyFingerprint {
    pub fn from_bytes(bytes: [u8; 32]) -> (r: Self)
        ensures
            r.digest@ == bytes@,
    {
        AuthorizationPolicyFingerprint { digest: Digest32::from_bytes(bytes) }
    }

    pub fn as_bytes(self) -> (r: [u8; 32])
        ensures
            r@ == self.digest@,
    {
        self.digest.as_bytes()
    }

    /// What is written of a fingerprint for debugging: nothing of it.
    pub fn redacted(&self) -> (r: String)
        ensures
            r@ == "AuthorizationPolicyFingerprint([REDACTED])"@,
    {
        "AuthorizationPolicyFingerprint([REDACTED])".to_owned()
    }
}

impl PartialEq for AuthorizationPolicyFingerprint {
    fn eq(&self, other: &AuthorizationPolicyFingerprint) -> (r: bool) {
        self.digest == other.digest
    }
}

impl vstd::std_specs::cmp::PartialEqSpecImpl for AuthorizationPolicyFingerprint {
    open spec fn obeys_eq_spec() -> bool {
        true
    }

    open spec fn eq_spec(&self, other: &AuthorizationPolicyFingerprint) -> bool {
        *self == *other
    }
}

/// A character of a workflow id: an ASCII letter or digit, `-`, `_` or `.`.
pub open spec fn workflow_char(c: char) -> bool {
    ||| 'a' <= c <= 'z'
    ||| 'A' <= c <= 'Z'
    ||| '0' <= c <= '9'
    ||| c == '-'
    ||| c == '_'
    ||| c == '.'
}

pub open spec fn workflow_id_ok(id: Seq<char>) -> bool {
    &&& 0 < id.len()
    &&& utf8_len(id) <= MAX_WORKFLOW_ID_BYTES
    &&& forall|i: int| 0 <= i < id.len() ==> workflow_char(#[trigger] id[i])
}

pub fn valid_workflow_id(value: &str) -> (r: bool)
    ensures
        r == workflow_id_ok(value@),
{
    if value.is_empty() || byte_len(value) > MAX_WORKFLOW_ID_BYTES {
        return false;
    }
    let mut all_allowed = true;
    for c in it: value.chars()
        invariant
            all_allowed == forall|i: int| 0 <= i < it.index() ==> workflow_char(
                #[trigger] value@[i],
            ),
            it.seq() == value@,
    {
        let allowed = ('a' <= c && c <= 'z') || ('A' <= c && c <= 'Z') || ('0' <= c && c <= '9')
            || c == '-' || c == '_' || c == '.';
        all_allowed = all_allowed && allowed;
    }
    all_allowed
}

/// Decides what a principal may ask of the service.
pub trait ServiceAuthorizationPolicy {
    fn authorize(
        &self,
        principal: &VerifiedPrincipal,
        action: AuthorizationAction,
        resource: AuthorizationResource<'_>,
    ) -> AuthorizationDecision;

    fn policy_version(&self) -> u32;

    fn fingerprint(&self) -> AuthorizationPolicyFingerprint;
}

/// Grants what is listed and denies the rest.
#[derive(Clone, PartialEq, Eq)]
pub struct DefaultDenyServiceAuthorizationPolicy {
    policy_version: u32,
    fingerprint: AuthorizationPolicyFingerprint,
    workflows: Vec<String>,
    approval_separation: ApprovalSeparation,
}

pub struct PolicyView {
    pub policy_version: u32,
    pub fingerprint: AuthorizationPolicyFingerprint,
    pub workflows: Set<Seq<char>>,
    pub approval_separation: ApprovalSeparation,
}

impl View for DefaultDenyServiceAuthorizationPolicy {
    type V = PolicyView;

    closed spec fn view(&self) -> PolicyView {
        PolicyView {
            policy_version: self.policy_version,
            fingerprint: self.fingerprint,
            workflows: texts(self.workflows@).to_set(),
            approval_separation: self.approval_separation,
        }
    }
}

impl PolicyView {
    /// The whole table of grants.
    pub open spec fn grants(
        self,
        principal: &VerifiedPrincipal,
        action: AuthorizationAction,
        resource: AuthorizationResource<'_>,
    ) -> bool {
        let user = principal.holds(PrincipalRole::User);
        let approver = principal.holds(PrincipalRole::Approver);
        let operator = principal.holds(PrincipalRole::Operator);
        match resource {
            AuthorizationResource::Global => match action {
                AuthorizationAction::CreateSession => user,
                AuthorizationAction::ListSessions => user,
                AuthorizationAction::ListWaiting => approver,
                AuthorizationAction::ReadRuntimeStatus => user || approver || operator,
                AuthorizationAction::ReadOperations => operator,
                AuthorizationAction::InspectReconciliation => operator,
                _ => false,
            },
            AuthorizationResource::OwnedSession { owner } => action
                == AuthorizationAction::ReadSessionHistory && user && principal.subject() == owner@,
            AuthorizationResource::Workflow { workflow_id } => action
                == AuthorizationAction::StartWorkflow && user && self.workflows.contains(
                workflow_id@,
            ),
            AuthorizationResource::OwnedRun { workflow_id, owner } => (action
                == AuthorizationAction::ReadRun || action == AuthorizationAction::ReadEvents
                || action == AuthorizationAction::CancelRun || action
                == AuthorizationAction::ResumeRun || action == AuthorizationAction::AbortWaiting)
                && user && principal.subject() == owner@ && self.workflows.contains(workflow_id@),
            AuthorizationResource::Approval { workflow_id, requester, .. } => (action
                == AuthorizationAction::ReadApprovalPreview || action
                == AuthorizationAction::DecideApproval) && approver && self.workflows.contains(
                workflow_id@,
            ) && (self.approval_separation == ApprovalSeparation::RequesterMayApprove
                || principal.subject() != requester@),
            AuthorizationResource::LegacyUnowned => false,
        }
    }
}

impl DefaultDenyServiceAuthorizationPolicy {
    /// A policy has a version other than zero and between one and thirty-two distinct workflow
    /// ids, each of them valid. A workflow named twice is one workflow.
    pub fn new(
        policy_version: u32,
        fingerprint: AuthorizationPolicyFingerprint,
        workflows: Vec<String>,
        approval_separation: ApprovalSeparation,
    ) -> (r: Result<Self, IdentityError>)
        ensures
            r is Ok <==> {
                &&& policy_version != 0
                &&& 0 < texts(workflows@).to_set().len() <= MAX_POLICY_WORKFLOWS
                &&& forall|i: int|
                    0 <= i < workflows@.len() ==> workflow_id_ok((#[trigger] workflows@[i])@)
            },
            r matches Err(error) ==> error == IdentityError::InvalidPolicy,
            r matches Ok(policy) ==> policy@ == (PolicyView {
                policy_version,
                fingerprint,
                workflows: texts(workflows@).to_set(),
                approval_separation,
            }),
    {
        let mut distinct: Vec<String> = Vec::new();
        let mut all_valid = true;
        let mut i: usize = 0;
        while i < workflows.len()
            invariant
                i <= workflows.len(),
                all_valid == forall|k: int|
                    0 <= k < i ==> workflow_id_ok((#[trigger] workflows@[k])@),
                texts(distinct@).no_duplicates(),
                texts(distinct@).to_set() =~= texts(workflows@.subrange(0, i as int)).to_set(),
            decreases workflows.len() - i,
        {
            let workflow = &workflows[i];
            if !valid_workflow_id(workflow.as_str()) {
                all_valid = false;
            }
            let known = contains_text(&distinct, workflow.as_str());
            let ghost before = distinct@;
            if !known {
                distinct.push(workflow.clone());
            }
            proof {
                let seen = workflows@.subrange(0, i as int);
                let now = workflows@.subrange(0, i + 1);
                assert(texts(now) =~= texts(seen).push(workflow@));
                push_to_set(texts(seen), workflow@);
                if known {
                    assert(texts(seen).to_set().contains(workflow@));
                    assert(texts(now).to_set() =~= texts(seen).to_set());
                } else {
                    assert(texts(distinct@) =~= texts(before).push(workflow@));
                    push_to_set(texts(before), workflow@);
                    assert forall|a: int, b: int|
                        0 <= a < texts(distinct@).len() && 0 <= b < texts(distinct@).len() && a
                            != b implies texts(distinct@)[a] != texts(distinct@)[b] by {
                        if a < before.len() {
                            assert(texts(before).contains(texts(before)[a]));
                        }
                        if b < before.len() {
                            assert(texts(before).contains(texts(before)[b]));
                        }
                    }
                }
            }
            i = i + 1;
        }
        proof {
            assert(workflows@.subrange(0, workflows@.len() as int) =~= workflows@);
            texts(distinct@).unique_seq_to_set();
        }
        if policy_version == 0 || distinct.len() == 0 || distinct.len() > MAX_POLICY_WORKFLOWS
            || !all_valid {
            return Err(IdentityError::InvalidPolicy);
        }
        Ok(
            DefaultDenyServiceAuthorizationPolicy {
                policy_version,
                fingerprint,
                workflows: distinct,
                approval_separation,
            },
        )
    }

    fn workflow_allowed(&self, workflow_id: &str) -> (r: bool)
        ensures
            r == self@.workflows.contains(workflow_id@),
    {
        contains_text(&self.workflows, workflow_id)
    }
}

impl ServiceAuthorizationPolicy for DefaultDenyServiceAuthorizationPolicy {
    fn authorize(
        &self,
        principal: &VerifiedPrincipal,
        action: AuthorizationAction,
        resource: AuthorizationResource<'_>,
    ) -> (r: AuthorizationDecision)
        ensures
            r == (if self@.grants(principal, action, resource) {
                AuthorizationDecision::Granted
            } else {
                AuthorizationDecision::Denied
            }),
    {
        let granted = match (action, resource) {
            (AuthorizationAction::CreateSession, AuthorizationResource::Global) => {
                principal.has_role(PrincipalRole::User)
            },
            (AuthorizationAction::ListSessions, AuthorizationResource::Global) => {
                principal.has_role(PrincipalRole::User)
            },
            (
                AuthorizationAction::ReadSessionHistory,
                AuthorizationResource::OwnedSession { owner },
            ) => principal.has_role(PrincipalRole::User) && *principal.id() == *owner,
            (AuthorizationAction::StartWorkflow, AuthorizationResource::Workflow { workflow_id })
            => principal.has_role(PrincipalRole::User) && self.workflow_allowed(workflow_id),
            (
                AuthorizationAction::ReadRun
                | AuthorizationAction::ReadEvents
                | AuthorizationAction::CancelRun
                | AuthorizationAction::ResumeRun
                | AuthorizationAction::AbortWaiting,
                AuthorizationResource::OwnedRun { workflow_id, owner },
            ) => principal.has_role(PrincipalRole::User) && *principal.id() == *owner
                && self.workflow_allowed(workflow_id),
            (AuthorizationAction::ListWaiting, AuthorizationResource::Global) => {
                principal.has_role(PrincipalRole::Approver)
            },
            (AuthorizationAction::ReadRuntimeStatus, AuthorizationResource::Global) => {
                principal.has_role(PrincipalRole::User) || principal.has_role(
                    PrincipalRole::Approver,
                ) || principal.has_role(PrincipalRole::Operator)
            },
            (
                AuthorizationAction::ReadApprovalPreview | AuthorizationAction::DecideApproval,
                AuthorizationResource::Approval { workflow_id, requester, .. },
            ) => principal.has_role(PrincipalRole::Approver) && self.workflow_allowed(workflow_id)
                && (self.approval_separation == ApprovalSeparation::RequesterMayApprove
                || !(*principal.id() == *requester)),
            (
                AuthorizationAction::ReadOperations | AuthorizationAction::InspectReconciliation,
                AuthorizationResource::Global,
            ) => principal.has_role(PrincipalRole::Operator),
            _ => false,
        };
        if granted {
            AuthorizationDecision::Granted
        } else {
            AuthorizationDecision::Denied
        }
    }

    fn policy_version(&self) -> (r: u32)
        ensures
            r == self@.policy_version,
    {
        self.policy_version
    }

    fn fingerprint(&self) -> (r: AuthorizationPolicyFingerprint)
        ensures
            r == self@.fingerprint,
    {
        self.fingerprint
    }
}

proof fn push_to_set(seq: Seq<Seq<char>>, item: Seq<char>)
    ensures
        seq.push(item).to_set() =~= seq.to_set().insert(item),
{
    assert forall|x: Seq<char>|
        seq.push(item).to_set().contains(x) <==> seq.to_set().insert(item).contains(x) by {
        if seq.push(item).contains(x) {
            let i = choose|i: int| 0 <= i < seq.push(item).len() && seq.push(item)[i] == x;
            if i < seq.len() {
                assert(seq[i] == x);
            }
        }
        if seq.contains(x) {
            let i = choose|i: int| 0 <= i < seq.len() && seq[i] == x;
            assert(seq.push(item)[i] == x);
        }
        assert(seq.push(item)[seq.len() as int] == item);
    }
}

fn contains_text(list: &Vec<String>, text: &str) -> (r: bool)
    ensures
        r == texts(list@).to_set().contains(text@),
        r == texts(list@).contains(text@),
{
    let mut i: usize = 0;
    while i < list.len()
        invariant
            i <= list.len(),
            forall|j: int| 0 <= j < i ==> (#[trigger] list@[j])@ != text@,
        decreases list.len() - i,
    {
        if str_equal(list[i].as_str(), text) {
            assert(texts(list@)[i as int] == text@);
            return true;
        }
        i = i + 1;
    }
    proof {
        if texts(list@).contains(text@) {
            let j = choose|j: int| 0 <= j < texts(list@).len() && texts(list@)[j] == text@;
            assert(list@[j]@ == text@);
        }
    }
    false
}

/// Whose a durable run is, and under which policy it was admitted.
#[derive(PartialEq, Eq)]
pub struct DurableRunAuthorization {
    owner: PrincipalId,
    requester: PrincipalId,
    workflow_id: String,
    policy_version: u32,
    policy_fingerprint: AuthorizationPolicyFingerprint,
}

pub struct RunAuthorizationView {
    pub owner: Seq<char>,
    pub requester: Seq<char>,
    pub workflow_id: Seq<char>,
    pub policy_version: u32,
    pub policy_fingerprint: AuthorizationPolicyFingerprint,
}

impl View for DurableRunAuthorization {
    type V = RunAuthorizationView;

    closed spec fn view(&self) -> RunAuthorizationView {
        RunAuthorizationView {
            owner: self.owner@,
            requester: self.requester@,
            workflow_id: self.workflow_id@,
            policy_version: self.policy_version,
            policy_fingerprint: self.policy_fingerprint,
        }
    }
}

impl DurableRunAuthorization {
    pub fn new(
        owner: PrincipalId,
        requester: PrincipalId,
        workflow_id: String,
        policy_version: u32,
        policy_fingerprint: AuthorizationPolicyFingerprint,
    ) -> (r: Result<Self, IdentityError>)
        ensures
            r is Ok <==> policy_version != 0 && workflow_id_ok(workflow_id@),
            r matches Err(error) ==> error == IdentityError::InvalidPolicy,
            r matches Ok(authorization) ==> authorization@ == (RunAuthorizationView {
                owner: owner@,
                requester: requester@,
                workflow_id: workflow_id@,
                policy_version,
                policy_fingerprint,
            }),
    {
        if policy_version == 0 || !valid_workflow_id(workflow_id.as_str()) {
            return Err(IdentityError::InvalidPolicy);
        }
        Ok(
            DurableRunAuthorization {
                owner,
                requester,
                workflow_id,
                policy_version,
                policy_fingerprint,
            },
        )
    }

    pub fn owner(&self) -> (r: &PrincipalId)
        ensures
            r@ == self@.owner,
    {
        &self.owner
    }

    pub fn requester(&self) -> (r: &PrincipalId)
        ensures
            r@ == self@.requester,
    {
        &self.requester
    }

    pub fn workflow_id(&self) -> (r: &str)
        ensures
            r@ == self@.workflow_id,
    {
        self.workflow_id.as_str()
    }

    pub fn policy_version(&self) -> (r: u32)
        ensures
            r == self@.policy_version,
    {
        self.policy_version
    }

    pub fn policy_fingerprint(&self) -> (r: AuthorizationPolicyFingerprint)
        ensures
            r == self@.policy_fingerprint,
    {
        self.policy_fingerprint
    }
}

impl Clone for DurableRunAuthorization {
    fn clone(&self) -> (r: Self)
        ensures
            r@ == self@,
    {
        DurableRunAuthorization {
            owner: self.owner.clone(),
            requester: self.requester.clone(),
            workflow_id: self.workflow_id.clone(),
            policy_version: self.policy_version,
            policy_fingerprint: self.policy_fingerprint,
        }
    }
}

/// Whose a session is.
#[derive(Clone, PartialEq, Eq)]
pub struct SessionOwnershipRecord {
    pub session_id: SessionId,
    pub owner: PrincipalId,
}

impl SessionOwnershipRecord {
    pub fn new(session_id: SessionId, owner: PrincipalId) -> (r: Self)
        ensures
            r == (SessionOwnershipRecord { session_id, owner }),
    {
        SessionOwnershipRecord { session_id, owner }
    }

    pub fn session_id(&self) -> (r: SessionId)
        ensures
            r == self.session_id,
    {
        self.session_id
    }

    pub fn owner(&self) -> (r: &PrincipalId)
        ensures
            *r == self.owner,
    {
        &self.owner
    }
}

#[derive(Clone, Copy, Debug, PartialEq, Eq, Structural)]
pub struct SessionPageCursor {
    pub session_id: SessionId,
}

impl SessionPageCursor {
    pub fn new(session_id: SessionId) -> (r: Self)
        ensures
            r.session_id == session_id,
    {
        SessionPageCursor { session_id }
    }

    pub fn session_id(self) -> (r: SessionId)
        ensures
            r == self.session_id,
    {
        self.session_id
    }
}

#[derive(Clone, PartialEq, Eq)]
pub struct SessionOwnershipPage {
    pub items: Vec<SessionOwnershipRecord>,
    pub next: Option<SessionPageCursor>,
}

impl SessionOwnershipPage {
    pub fn new(items: Vec<SessionOwnershipRecord>, next: Option<SessionPageCursor>) -> (r: Self)
        ensures
            r == (SessionOwnershipPage { items, next }),
    {
        SessionOwnershipPage { items, next }
    }

    pub fn items(&self) -> (r: &[SessionOwnershipRecord])
        ensures
            r@ == self.items@,
    {
        self.items.as_slice()
    }

    pub fn next(&self) -> (r: Option<SessionPageCursor>)
        ensures
            r == self.next,
    {
        self.next
    }
}

#[derive(Clone, Copy, Debug, PartialEq, Eq, Structural)]
pub enum SecurityAuditPhase {
    AuthorizationGranted,
    MutationRequested,
    MutationCommitted,
    MutationFailed,
}

/// One entry of the security log.
#[derive(Clone, PartialEq, Eq)]
pub struct SecurityAuditEvent {
    pub phase: SecurityAuditPhase,
    pub actor: PrincipalId,
    pub action: AuthorizationAction,
    pub session_id: Option<SessionId>,
    pub run_id: Option<RunId>,
    pub wait_id: Option<DurableApprovalWaitId>,
}

/// Nothing is granted on a resource that nobody owns, whatever the principal and the action.
pub proof fn law_unowned_is_denied(
    policy: PolicyView,
    principal: &VerifiedPrincipal,
    action: AuthorizationAction,
)
    ensures
        !policy.grants(principal, action, AuthorizationResource::LegacyUnowned),
{
}

/// Where requesters must differ, nobody decides or previews the approval of what they asked for
/// themselves.
pub proof fn law_requester_must_differ(
    policy: PolicyView,
    principal: &VerifiedPrincipal,
    action: AuthorizationAction,
    workflow_id: &str,
    owner: &PrincipalId,
    requester: &PrincipalId,
)
    requires
        policy.approval_separation == ApprovalSeparation::RequesterMustDiffer,
        principal.subject() == requester@,
    ensures
        !policy.grants(
            principal,
            action,
            AuthorizationResource::Approval { workflow_id, owner, requester },
        ),
{
}

/// A session or a run is open to its owner alone.
pub proof fn law_only_the_owner(
    policy: PolicyView,
    principal: &VerifiedPrincipal,
    action: AuthorizationAction,
    workflow_id: &str,
    owner: &PrincipalId,
)
    requires
        principal.subject() != owner@,
    ensures
        !policy.grants(principal, action, AuthorizationResource::OwnedSession { owner }),
        !policy.grants(principal, action, AuthorizationResource::OwnedRun { workflow_id, owner }),
{
}

/// What a user, an approver and an operator may do does not overlap, apart from reading the
/// runtime's status: a principal with one role is never granted what another role is for.
pub proof fn law_roles_are_separate(
    policy: PolicyView,
    first: &VerifiedPrincipal,
    second: &VerifiedPrincipal,
    action: AuthorizationAction,
    first_resource: AuthorizationResource<'_>,
    second_resource: AuthorizationResource<'_>,
)
    requires
        forall|role: PrincipalRole| !(first.holds(role) && second.holds(role)),
        policy.grants(first, action, first_resource),
        policy.grants(second, action, second_resource),
    ensures
        action == AuthorizationAction::ReadRuntimeStatus,
{
    assert(!(first.holds(PrincipalRole::User) && second.holds(PrincipalRole::User)));
    assert(!(first.holds(PrincipalRole::Approver) && second.holds(PrincipalRole::Approver)));
    assert(!(first.holds(PrincipalRole::Operator) && second.holds(PrincipalRole::Operator)));
}

/// A workflow that the policy does not list is neither started, read nor approved.
pub proof fn law_unlisted_workflow_is_denied(
    policy: PolicyView,
    principal: &VerifiedPrincipal,
    action: AuthorizationAction,
    workflow_id: &str,
    owner: &PrincipalId,
    requester: &PrincipalId,
)
    requires
        !policy.workflows.contains(workflow_id@),
    ensures
        !policy.grants(principal, action, AuthorizationResource::Workflow { workflow_id }),
        !policy.grants(principal, action, AuthorizationResource::OwnedRun { workflow_id, owner }),
        !policy.grants(
            principal,
            action,
            AuthorizationResource::Approval { workflow_id, owner, requester },
        ),
{
}

/// A user is granted what a user is for: to open and list sessions, to read the history of a
/// session they own, to start a workflow that the policy lists, and, of a run of such a workflow
/// that they own, to read it and its events, to cancel it, to resume it and to abort its wait.
pub proof fn law_user_is_granted(
    policy: PolicyView,
    principal: &VerifiedPrincipal,
    action: AuthorizationAction,
    workflow_id: &str,
    owner: &PrincipalId,
)
    requires
        principal.holds(PrincipalRole::User),
        principal.subject() == owner@,
        policy.workflows.contains(workflow_id@),
    ensures
        policy.grants(
            principal,
            AuthorizationAction::CreateSession,
            AuthorizationResource::Global,
        ),
        policy.grants(principal, AuthorizationAction::ListSessions, AuthorizationResource::Global),
        policy.grants(
            principal,
            AuthorizationAction::ReadSessionHistory,
            AuthorizationResource::OwnedSession { owner },
        ),
        policy.grants(
            principal,
            AuthorizationAction::StartWorkflow,
            AuthorizationResource::Workflow { workflow_id },
        ),
        action == AuthorizationAction::ReadRun || action == AuthorizationAction::ReadEvents
            || action == AuthorizationAction::CancelRun || action
            == AuthorizationAction::ResumeRun || action == AuthorizationAction::AbortWaiting
            ==> policy.grants(
            principal,
            action,
            AuthorizationResource::OwnedRun { workflow_id, owner },
        ),
{
}

/// An approver is granted what an approver is for: to list what waits, and to preview and decide
/// the approvals of a workflow that the policy lists. Where requesters must differ, that leaves
/// out what the approver asked for.
pub proof fn law_approver_is_granted(
    policy: PolicyView,
    principal: &VerifiedPrincipal,
    workflow_id: &str,
    owner: &PrincipalId,
    requester: &PrincipalId,
)
    requires
        principal.holds(PrincipalRole::Approver),
        policy.workflows.contains(workflow_id@),
    ensures
        policy.grants(principal, AuthorizationAction::ListWaiting, AuthorizationResource::Global),
        policy.approval_separation == ApprovalSeparation::RequesterMayApprove
            || principal.subject() != requester@ ==> policy.grants(
            principal,
            AuthorizationAction::ReadApprovalPreview,
            AuthorizationResource::Approval { workflow_id, owner, requester },
        ) && policy.grants(
            principal,
            AuthorizationAction::DecideApproval,
            AuthorizationResource::Approval { workflow_id, owner, requester },
        ),
{
}

/// An operator is granted what an operator is for, and whoever has a role reads the runtime's
/// status.
pub proof fn law_operator_is_granted(
    policy: PolicyView,
    principal: &VerifiedPrincipal,
    role: PrincipalRole,
)
    requires
        principal.holds(role),
    ensures
        policy.grants(
            principal,
            AuthorizationAction::ReadRuntimeStatus,
            AuthorizationResource::Global,
        ),
        role == PrincipalRole::Operator ==> policy.grants(
            principal,
            AuthorizationAction::ReadOperations,
            AuthorizationResource::Global,
        ) && policy.grants(
            principal,
            AuthorizationAction::InspectReconciliation,
            AuthorizationResource::Global,
        ),
{
}

/// Whatever is granted is granted to the role that it is for: a user's actions to a user, an
/// approver's to an approver, an operator's to an operator.
pub proof fn law_role_is_needed(
    policy: PolicyView,
    principal: &VerifiedPrincipal,
    action: AuthorizationAction,
    resource: AuthorizationResource<'_>,
)
    requires
        policy.grants(principal, action, resource),
    ensures
        !principal.holds(PrincipalRole::User) ==> action == AuthorizationAction::ListWaiting
            || action == AuthorizationAction::ReadApprovalPreview || action
            == AuthorizationAction::DecideApproval || action == AuthorizationAction::ReadOperations
            || action == AuthorizationAction::InspectReconciliation || action
            == AuthorizationAction::ReadRuntimeStatus,
        !principal.holds(PrincipalRole::Approver) ==> action != AuthorizationAction::ListWaiting
            && action != AuthorizationAction::ReadApprovalPreview && action
            != AuthorizationAction::DecideApproval,
        !principal.holds(PrincipalRole::Operator) ==> action != AuthorizationAction::ReadOperations
            && action != AuthorizationAction::InspectReconciliation,
        exists|role: PrincipalRole| principal.holds(role),
{
}

/// An action is granted only on the kind of resource that it acts on.
pub proof fn law_action_fits_resource(
    policy: PolicyView,
    principal: &VerifiedPrincipal,
    action: AuthorizationAction,
    resource: AuthorizationResource<'_>,
)
    requires
        policy.grants(principal, action, resource),
    ensures
        resource is OwnedSession <==> action == AuthorizationAction::ReadSessionHistory,
        resource is Workflow <==> action == AuthorizationAction::StartWorkflow,
        resource is OwnedRun <==> action == AuthorizationAction::ReadRun || action
            == AuthorizationAction::ReadEvents || action == AuthorizationAction::CancelRun || action
            == AuthorizationAction::ResumeRun || action == AuthorizationAction::AbortWaiting,
        resource is Approval <==> action == AuthorizationAction::ReadApprovalPreview || action
            == AuthorizationAction::DecideApproval,
{
}

/// Who owns a run, and what else the policy holds, makes no difference to an approval: two
/// policies that list the same workflows and separate requesters alike grant the same.
pub proof fn law_grant_rests_on_listing_and_separation(
    first: PolicyView,
    second: PolicyView,
    principal: &VerifiedPrincipal,
    action: AuthorizationAction,
    resource: AuthorizationResource<'_>,
    workflow_id: &str,
    owner: &PrincipalId,
    other_owner: &PrincipalId,
    requester: &PrincipalId,
)
    requires
        first.workflows == second.workflows,
        first.approval_separation == second.approval_separation,
    ensures
        first.grants(principal, action, resource) == second.grants(principal, action, resource),
        first.grants(
            principal,
            action,
            AuthorizationResource::Approval { workflow_id, owner, requester },
        ) == first.grants(
            principal,
            action,
            AuthorizationResource::Approval { workflow_id, owner: other_owner, requester },
        ),
{
}

/// A workflow id has one to 96 bytes, and every character of it is a letter or a digit of ASCII, a
/// hyphen, an underscore or a dot.
pub proof fn law_workflow_id_is_plain(id: Seq<char>)
    ensures
        workflow_id_ok(id) <==> {
            &&& 0 < id.len()
            &&& vstd::utf8::encode_utf8(id).len() <= 96
            &&& forall|i: int|
                0 <= i < id.len() ==> {
                    ||| 'a' <= #[trigger] id[i] <= 'z'
                    ||| 'A' <= id[i] <= 'Z'
                    ||| '0' <= id[i] <= '9'
                    ||| id[i] == '-'
                    ||| id[i] == '_'
                    ||| id[i] == '.'
                }
        },
{
    if workflow_id_ok(id) {
        assert forall|i: int| 0 <= i < id.len() implies {
            ||| 'a' <= #[trigger] id[i] <= 'z'
            ||| 'A' <= id[i] <= 'Z'
            ||| '0' <= id[i] <= '9'
            ||| id[i] == '-'
            ||| id[i] == '_'
            ||| id[i] == '.'
        } by {
            assert(workflow_char(id[i]));
        }
    }
}

} // verus!
