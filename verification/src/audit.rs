//! How the runtime treats a failing audit sink.

use vstd::prelude::*;

use crate::budget::TimeSpan;

verus! {

#[derive(Clone, Copy, Debug, PartialEq, Eq, Structural)]
pub enum AuditFailurePolicy {
    FailClosed,
    FailOpen,
}

#[derive(Clone, Copy, Debug, PartialEq, Eq, Structural)]
pub enum HarnessConfigError {
    ZeroAuditTimeout,
}

#[derive(Clone, Copy, Debug, PartialEq, Eq, Structural)]
pub struct HarnessConfig {
    pub audit_failure_policy: AuditFailurePolicy,
    pub audit_timeout: TimeSpan,
}

impl HarnessConfig {
    pub fn new(audit_failure_policy: AuditFailurePolicy, audit_timeout: TimeSpan) -> (r: Result<
        Self,
        HarnessConfigError,
    >)
        ensures
            r == (if audit_timeout.nanos == 0 {
                Err::<HarnessConfig, HarnessConfigError>(HarnessConfigError::ZeroAuditTimeout)
            } else {
                Ok((HarnessConfig { audit_failure_policy, audit_timeout }))
            }),
    {
        if audit_timeout.is_zero() {
            return Err(HarnessConfigError::ZeroAuditTimeout);
        }
        Ok(HarnessConfig { audit_failure_policy, audit_timeout })
    }

    pub fn audit_failure_policy(self) -> (r: AuditFailurePolicy)
        ensures
            r == self.audit_failure_policy,
    {
        self.audit_failure_policy
    }

    pub fn audit_timeout(self) -> (r: TimeSpan)
        ensures
            r == self.audit_timeout,
    {
        self.audit_timeout
    }
}

} // verus!
