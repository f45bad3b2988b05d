use agent_runtime::persistence::RecoveryContract;

#[test]
fn recovery_contract_is_explicitly_distinct() {
    assert_ne!(
        RecoveryContract::Restartable { version: 1 },
        RecoveryContract::RestartableRetrieval { version: 1 }
    );
}
