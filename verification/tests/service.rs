use agent_runtime::events::CapabilityKind;
use agent_runtime::error::{PolicyDenial, PolicyDenialReason};
use agent_runtime::identity::{
    valid_workflow_id, ApprovalSeparation, AuthenticationClass, AuthorizationAction,
    AuthorizationDecision, AuthorizationPolicyFingerprint, AuthorizationResource,
    DefaultDenyServiceAuthorizationPolicy, IdentityError, PrincipalKind, PrincipalRole,
    ServiceAuthorizationPolicy, SessionOwnershipPage, SessionOwnershipRecord, SessionPageCursor,
    VerifiedPrincipal, MAX_POLICY_WORKFLOWS, MAX_WORKFLOW_ID_BYTES,
};
use agent_runtime::ids::{PrincipalId, SessionId, ToolName};
use agent_runtime::policy::{
    AuthorizationDecision as CapabilityDecision, CapabilityPolicy, M0ReadOnlyPolicy,
    M6ApprovalPolicy,
};
use agent_runtime::tools::{ExecutionKind, ToolDefinition, ToolRegistry, ToolRegistryError, ToolSchema};

fn principal(id: &str, roles: &[PrincipalRole]) -> VerifiedPrincipal {
    match VerifiedPrincipal::new(
        PrincipalId::new(id.to_owned()).unwrap_or_else(|_| panic!("principal id")),
        PrincipalKind::Human,
        roles.to_vec(),
        AuthenticationClass::UnixPeer,
    ) {
        Ok(principal) => principal,
        Err(_) => panic!("principal"),
    }
}

fn policy(separation: ApprovalSeparation) -> DefaultDenyServiceAuthorizationPolicy {
    match DefaultDenyServiceAuthorizationPolicy::new(
        1,
        AuthorizationPolicyFingerprint::from_bytes([7; 32]),
        vec!["workflow-v1".to_owned()],
        separation,
    ) {
        Ok(policy) => policy,
        Err(_) => panic!("policy"),
    }
}

#[test]
fn default_deny_separates_user_approver_and_operator() {
    let policy = policy(ApprovalSeparation::RequesterMustDiffer);
    let requester = principal("requester", &[PrincipalRole::User]);
    let approver = principal("approver", &[PrincipalRole::Approver]);
    let operator = principal("operator", &[PrincipalRole::Operator]);

    assert_eq!(
        policy.authorize(
            &requester,
            AuthorizationAction::StartWorkflow,
            AuthorizationResource::Workflow {
                workflow_id: "workflow-v1"
            }
        ),
        AuthorizationDecision::Granted
    );
    assert_eq!(
        policy.authorize(
            &operator,
            AuthorizationAction::StartWorkflow,
            AuthorizationResource::Workflow {
                workflow_id: "workflow-v1"
            }
        ),
        AuthorizationDecision::Denied
    );
    assert_eq!(
        policy.authorize(
            &approver,
            AuthorizationAction::DecideApproval,
            AuthorizationResource::Approval {
                workflow_id: "workflow-v1",
                owner: requester.id(),
                requester: requester.id(),
            }
        ),
        AuthorizationDecision::Granted
    );
}

#[test]
fn requester_must_differ_is_enforced() {
    let policy = policy(ApprovalSeparation::RequesterMustDiffer);
    let both = principal("both", &[PrincipalRole::User, PrincipalRole::Approver]);
    assert_eq!(
        policy.authorize(
            &both,
            AuthorizationAction::DecideApproval,
            AuthorizationResource::Approval {
                workflow_id: "workflow-v1",
                owner: both.id(),
                requester: both.id(),
            }
        ),
        AuthorizationDecision::Denied
    );
}

#[test]
fn runtime_status_is_available_to_authenticated_roles_only() {
    let policy = policy(ApprovalSeparation::RequesterMayApprove);
    for role in [
        PrincipalRole::User,
        PrincipalRole::Approver,
        PrincipalRole::Operator,
    ] {
        let actor = principal("status-reader", &[role]);
        assert_eq!(
            policy.authorize(
                &actor,
                AuthorizationAction::ReadRuntimeStatus,
                AuthorizationResource::Global,
            ),
            AuthorizationDecision::Granted
        );
    }
}

#[test]
fn verified_principal_debug_is_bounded() {
    let principal = principal("secret-subject", &[PrincipalRole::User]);
    let debug = principal.redacted();
    assert!(!debug.contains("secret-subject"));
    assert!(!debug.contains("token"));
    assert_eq!(
        debug,
        "VerifiedPrincipal { id: PrincipalId([REDACTED]), kind: Human, role_count: 1, \
         authentication_class: UnixPeer }"
    );
    assert!(principal.clone() == principal);
    assert_eq!(
        AuthorizationPolicyFingerprint::from_bytes([7; 32]).redacted(),
        "AuthorizationPolicyFingerprint([REDACTED])"
    );
}

#[test]
fn sessions_are_copied_and_compared_by_what_they_say() {
    let owner = |id: &str| PrincipalId::new(id.to_owned()).unwrap_or_else(|_| panic!("id"));
    let record = SessionOwnershipRecord::new(SessionId(1), owner("someone"));
    assert!(record.clone() == record);
    assert!(record != SessionOwnershipRecord::new(SessionId(1), owner("someone else")));
    let page = SessionOwnershipPage::new(vec![record], Some(SessionPageCursor::new(SessionId(1))));
    assert!(page.clone() == page);
    assert!(page != SessionOwnershipPage::new(Vec::new(), None));
}

#[test]
fn the_same_principal_may_approve_where_the_policy_says_so() {
    let policy = policy(ApprovalSeparation::RequesterMayApprove);
    let both = principal("both", &[PrincipalRole::User, PrincipalRole::Approver]);
    assert_eq!(
        policy.authorize(
            &both,
            AuthorizationAction::DecideApproval,
            AuthorizationResource::Approval {
                workflow_id: "workflow-v1",
                owner: both.id(),
                requester: both.id(),
            }
        ),
        AuthorizationDecision::Granted
    );
}

#[test]
fn another_workflow_and_an_unowned_resource_are_denied() {
    let policy = policy(ApprovalSeparation::RequesterMayApprove);
    let user = principal("user", &[PrincipalRole::User]);
    assert_eq!(
        policy.authorize(
            &user,
            AuthorizationAction::StartWorkflow,
            AuthorizationResource::Workflow {
                workflow_id: "workflow-v2"
            }
        ),
        AuthorizationDecision::Denied
    );
    assert_eq!(
        policy.authorize(
            &user,
            AuthorizationAction::ReadRun,
            AuthorizationResource::LegacyUnowned,
        ),
        AuthorizationDecision::Denied
    );
}

#[test]
fn a_principal_has_some_role_and_counts_each_once() {
    assert!(matches!(
        VerifiedPrincipal::new(
            PrincipalId::new("nobody".to_owned()).unwrap_or_else(|_| panic!("principal id")),
            PrincipalKind::Service,
            Vec::new(),
            AuthenticationClass::LoopbackBearer,
        ),
        Err(IdentityError::InvalidPrincipal)
    ));
    let twice = principal("twice", &[PrincipalRole::User, PrincipalRole::User]);
    assert_eq!(twice.role_count(), 1);
    assert!(twice.has_role(PrincipalRole::User));
    assert!(!twice.has_role(PrincipalRole::Operator));
    assert_eq!(twice.kind(), PrincipalKind::Human);
    assert_eq!(twice.authentication_class(), AuthenticationClass::UnixPeer);
    assert!(PrincipalId::new(String::new()).is_err());
    assert!(PrincipalId::new("a\nb".to_owned()).is_err());
}

#[test]
fn a_policy_names_a_version_and_valid_workflows() {
    let fingerprint = || AuthorizationPolicyFingerprint::from_bytes([1; 32]);
    let made = |version: u32, workflows: Vec<String>| {
        DefaultDenyServiceAuthorizationPolicy::new(
            version,
            fingerprint(),
            workflows,
            ApprovalSeparation::RequesterMayApprove,
        )
    };
    assert!(matches!(
        made(0, vec!["w".to_owned()]),
        Err(IdentityError::InvalidPolicy)
    ));
    assert!(matches!(
        made(1, Vec::new()),
        Err(IdentityError::InvalidPolicy)
    ));
    assert!(matches!(
        made(1, vec!["not valid".to_owned()]),
        Err(IdentityError::InvalidPolicy)
    ));
    let many = |count: usize| (0..count).map(|i| format!("w{i}")).collect::<Vec<_>>();
    assert!(made(1, many(MAX_POLICY_WORKFLOWS)).is_ok());
    assert!(made(1, many(MAX_POLICY_WORKFLOWS + 1)).is_err());
    assert!(made(1, vec!["w".to_owned(), "w".to_owned()]).is_ok());
    assert_eq!(fingerprint().as_bytes(), [1; 32]);
}

#[test]
fn workflow_ids_are_short_and_plain() {
    assert!(valid_workflow_id("workflow-v1"));
    assert!(!valid_workflow_id(""));
    assert!(!valid_workflow_id("with space"));
    assert!(valid_workflow_id(&"a".repeat(MAX_WORKFLOW_ID_BYTES)));
    assert!(!valid_workflow_id(&"a".repeat(MAX_WORKFLOW_ID_BYTES + 1)));
}

#[test]
fn m0_policy_allows_only_read_only_capabilities() {
    let policy = M0ReadOnlyPolicy;

    assert_eq!(
        policy.authorize(CapabilityKind::ReadOnly),
        CapabilityDecision::Allowed
    );
    for capability in [
        CapabilityKind::LocalWrite,
        CapabilityKind::ExternalWrite,
        CapabilityKind::Privileged,
    ] {
        assert!(matches!(
            policy.authorize(capability),
            CapabilityDecision::Denied(PolicyDenial { .. })
        ));
    }
}

#[test]
fn m6_policy_asks_for_approval_of_local_writes() {
    let policy = M6ApprovalPolicy;
    assert_eq!(
        policy.authorize(CapabilityKind::ReadOnly),
        CapabilityDecision::Allowed
    );
    assert_eq!(
        policy.authorize(CapabilityKind::LocalWrite),
        CapabilityDecision::RequiresApproval
    );
    assert!(matches!(
        policy.authorize(CapabilityKind::ExternalWrite),
        CapabilityDecision::Denied(_)
    ));
}

fn tool(name: &str, capability: CapabilityKind) -> ToolDefinition {
    let schema = match ToolSchema::new(
        serde_json::from_str(r#"{"type": "object"}"#).expect("schema is JSON"),
    ) {
        Ok(schema) => schema,
        Err(_) => panic!("schema must be valid"),
    };
    match ToolDefinition::new(
        ToolName::new(name.to_owned()).expect("name must be valid"),
        "fake tool".to_owned(),
        capability,
        schema,
    ) {
        Ok(definition) => definition,
        Err(_) => panic!("definition must be valid"),
    }
}

#[test]
fn registry_enforces_uniqueness_but_not_authorization() {
    let mut registry = ToolRegistry::new();

    if registry
        .register(
            tool("admin_lookup", CapabilityKind::Privileged),
            ExecutionKind::Direct,
        )
        .is_err()
    {
        panic!("registry must accept valid metadata regardless of policy");
    }
    let duplicate = registry.register(
        tool("admin_lookup", CapabilityKind::Privileged),
        ExecutionKind::Direct,
    );

    assert!(matches!(
        duplicate,
        Err(ToolRegistryError::DuplicateName { .. })
    ));
    assert_eq!(registry.len(), 1);
    let registered = registry
        .get(&ToolName::new("admin_lookup".to_owned()).expect("name must be valid"))
        .expect("tool must be registered");
    assert_eq!(
        M0ReadOnlyPolicy.authorize(registered.definition().capability()),
        CapabilityDecision::Denied(PolicyDenial::new(
            CapabilityKind::Privileged,
            PolicyDenialReason::CapabilityNotAllowedInM0,
        ))
    );
}
