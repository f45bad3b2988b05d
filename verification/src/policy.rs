//! Which capabilities may be executed, and on what condition.

use vstd::prelude::*;

use crate::error::{PolicyDenial, PolicyDenialReason};
use crate::events::CapabilityKind;

verus! {

#[derive(Clone, Copy, Debug, PartialEq, Eq, Structural)]
pub enum AuthorizationDecision {
    Allowed,
    RequiresApproval,
    Denied(PolicyDenial),
}

/// Decides which capabilities may be executed.
pub trait CapabilityPolicy {
    fn authorize(&self, capability: CapabilityKind) -> AuthorizationDecision;
}

/// Allows reading and nothing else.
#[derive(Clone, Copy, Debug, Default)]
pub struct M0ReadOnlyPolicy;

/// Allows reading, and writing within the workspace once it is approved.
#[derive(Clone, Copy, Debug)]
pub struct M6ApprovalPolicy;

pub open spec fn denied(capability: CapabilityKind, reason: PolicyDenialReason)
    -> AuthorizationDecision {
    AuthorizationDecision::Denied(PolicyDenial { capability, reason })
}

impl CapabilityPolicy for M0ReadOnlyPolicy {
    fn authorize(&self, capability: CapabilityKind) -> (r: AuthorizationDecision)
        ensures
            r == (if capability == CapabilityKind::ReadOnly {
                AuthorizationDecision::Allowed
            } else {
                denied(capability, PolicyDenialReason::CapabilityNotAllowedInM0)
            }),
    {
        match capability {
            CapabilityKind::ReadOnly => AuthorizationDecision::Allowed,
            _ => AuthorizationDecision::Denied(
                PolicyDenial::new(capability, PolicyDenialReason::CapabilityNotAllowedInM0),
            ),
        }
    }
}

impl CapabilityPolicy for M6ApprovalPolicy {
    fn authorize(&self, capability: CapabilityKind) -> (r: AuthorizationDecision)
        ensures
            r == (match capability {
                CapabilityKind::ReadOnly => AuthorizationDecision::Allowed,
                CapabilityKind::LocalWrite => AuthorizationDecision::RequiresApproval,
                _ => denied(capability, PolicyDenialReason::CapabilityNotExecutableInM6),
            }),
    {
        match capability {
            CapabilityKind::ReadOnly => AuthorizationDecision::Allowed,
            CapabilityKind::LocalWrite => AuthorizationDecision::RequiresApproval,
            _ => AuthorizationDecision::Denied(
                PolicyDenial::new(capability, PolicyDenialReason::CapabilityNotExecutableInM6),
            ),
        }
    }
}

} // verus!
