//! Asking for approval, and the answer.

use vstd::prelude::*;

use crate::digest::Digest32;
use crate::error::ContainmentPortError;
use crate::events::CapabilityKind;
use crate::ids::{ActionProposalId, ApprovalRequestId, ToolCallId, ToolName};
use crate::text::{byte_len, contains_control, has_control, trim_text, trimmed, utf8_len};

verus! {

pub const MAX_APPROVAL_PREVIEW_BYTES: usize = 256;

#[derive(Clone, Copy, Debug, PartialEq, Eq, Structural)]
pub enum ApprovalPreviewError {
    Empty,
    TooLarge,
    ControlCharacter,
}

impl ApprovalPreviewError {
    /// A preview that cannot be shown is a containment that rejects the preview.
    pub fn to_containment_error(self) -> (r: ContainmentPortError)
        ensures
            r == ContainmentPortError::PreviewRejected,
    {
        ContainmentPortError::PreviewRejected
    }
}

/// What one line of a preview becomes, or why it cannot be shown.
pub open spec fn preview_part(text: Seq<char>) -> Result<Seq<char>, ApprovalPreviewError> {
    let part = trimmed(text);
    if part.len() == 0 {
        Err(ApprovalPreviewError::Empty)
    } else if utf8_len(part) > MAX_APPROVAL_PREVIEW_BYTES {
        Err(ApprovalPreviewError::TooLarge)
    } else if has_control(part) {
        Err(ApprovalPreviewError::ControlCharacter)
    } else {
        Ok(part)
    }
}

pub fn validate_preview_part(value: String) -> (r: Result<String, ApprovalPreviewError>)
    ensures
        match r {
            Ok(part) => preview_part(value@) == Ok::<Seq<char>, ApprovalPreviewError>(part@),
            Err(error) => preview_part(value@) == Err::<Seq<char>, ApprovalPreviewError>(error),
        },
{
    let part = trim_text(value.as_str());
    if part.as_str().is_empty() {
        return Err(ApprovalPreviewError::Empty);
    }
    if byte_len(part.as_str()) > MAX_APPROVAL_PREVIEW_BYTES {
        return Err(ApprovalPreviewError::TooLarge);
    }
    if contains_control(part.as_str()) {
        return Err(ApprovalPreviewError::ControlCharacter);
    }
    Ok(part)
}

/// What an approver is shown of an action. Its text is not for logs.
pub struct ApprovalPreview {
    summary: String,
    target_label: String,
}

impl ApprovalPreview {
    pub closed spec fn texts(self) -> (Seq<char>, Seq<char>) {
        (self.summary@, self.target_label@)
    }

    pub fn new(summary: String, target_label: String) -> (r: Result<Self, ApprovalPreviewError>)
        ensures
            match r {
                Ok(preview) => preview_part(summary@) == Ok::<Seq<char>, ApprovalPreviewError>(
                    preview.texts().0,
                ) && preview_part(target_label@) == Ok::<Seq<char>, ApprovalPreviewError>(
                    preview.texts().1,
                ),
                Err(error) => error == (if preview_part(summary@) is Err {
                    preview_part(summary@)->Err_0
                } else {
                    preview_part(target_label@)->Err_0
                }) && (preview_part(summary@) is Err || preview_part(target_label@) is Err),
            },
    {
        let summary = match validate_preview_part(summary) {
            Ok(part) => part,
            Err(error) => {
                return Err(error);
            },
        };
        let target_label = match validate_preview_part(target_label) {
            Ok(part) => part,
            Err(error) => {
                return Err(error);
            },
        };
        Ok(ApprovalPreview { summary, target_label })
    }

    pub fn summary(&self) -> (r: &str)
        ensures
            r@ == self.texts().0,
    {
        self.summary.as_str()
    }

    pub fn target_label(&self) -> (r: &str)
        ensures
            r@ == self.texts().1,
    {
        self.target_label.as_str()
    }

    /// What is written of a preview for debugging: nothing of its text.
    pub fn redacted(&self) -> (r: String)
        ensures
            r@ == "ApprovalPreview { summary: \"[REDACTED]\", target_label: \"[REDACTED]\" }"@,
    {
        "ApprovalPreview { summary: \"[REDACTED]\", target_label: \"[REDACTED]\" }".to_owned()
    }
}

#[derive(Clone, Copy, Debug, PartialEq, Eq, Structural)]
pub enum ApprovalOutcome {
    Granted,
    Denied,
}

/// What an approver decided, for which request and which action.
#[derive(Clone, Copy, Debug, PartialEq, Eq)]
pub struct ApprovalDecision {
    pub request_id: ApprovalRequestId,
    pub action_digest: Digest32,
    pub outcome: ApprovalOutcome,
}

impl ApprovalDecision {
    pub fn approved(request_id: ApprovalRequestId, action_digest: Digest32) -> (r: Self)
        ensures
            r == (ApprovalDecision { request_id, action_digest, outcome: ApprovalOutcome::Granted }),
    {
        ApprovalDecision { request_id, action_digest, outcome: ApprovalOutcome::Granted }
    }

    pub fn denied(request_id: ApprovalRequestId, action_digest: Digest32) -> (r: Self)
        ensures
            r == (ApprovalDecision { request_id, action_digest, outcome: ApprovalOutcome::Denied }),
    {
        ApprovalDecision { request_id, action_digest, outcome: ApprovalOutcome::Denied }
    }

    pub fn request_id(self) -> (r: ApprovalRequestId)
        ensures
            r == self.request_id,
    {
        self.request_id
    }

    pub fn action_digest(self) -> (r: Digest32)
        ensures
            r == self.action_digest,
    {
        self.action_digest
    }

    pub fn outcome(self) -> (r: ApprovalOutcome)
        ensures
            r == self.outcome,
    {
        self.outcome
    }
}

/// The question that is put to an approver.
pub struct ApprovalRequest {
    pub id: ApprovalRequestId,
    pub action_proposal_id: ActionProposalId,
    pub tool_call_id: ToolCallId,
    pub tool_name: ToolName,
    pub capability: CapabilityKind,
    pub action_digest: Digest32,
    pub preview: ApprovalPreview,
}

impl ApprovalRequest {
    pub fn new(
        id: ApprovalRequestId,
        action_proposal_id: ActionProposalId,
        tool_call_id: ToolCallId,
        tool_name: ToolName,
        capability: CapabilityKind,
        action_digest: Digest32,
        preview: ApprovalPreview,
    ) -> (r: Self)
        ensures
            r == (ApprovalRequest {
                id,
                action_proposal_id,
                tool_call_id,
                tool_name,
                capability,
                action_digest,
                preview,
            }),
    {
        ApprovalRequest {
            id,
            action_proposal_id,
            tool_call_id,
            tool_name,
            capability,
            action_digest,
            preview,
        }
    }

    pub fn id(&self) -> (r: ApprovalRequestId)
        ensures
            r == self.id,
    {
        self.id
    }

    pub fn action_proposal_id(&self) -> (r: ActionProposalId)
        ensures
            r == self.action_proposal_id,
    {
        self.action_proposal_id
    }

    pub fn tool_call_id(&self) -> (r: ToolCallId)
        ensures
            r == self.tool_call_id,
    {
        self.tool_call_id
    }

    pub fn tool_name(&self) -> (r: &ToolName)
        ensures
            *r == self.tool_name,
    {
        &self.tool_name
    }

    pub fn capability(&self) -> (r: CapabilityKind)
        ensures
            r == self.capability,
    {
        self.capability
    }

    pub fn action_digest(&self) -> (r: Digest32)
        ensures
            r == self.action_digest,
    {
        self.action_digest
    }

    pub fn preview(&self) -> (r: &ApprovalPreview)
        ensures
            *r == self.preview,
    {
        &self.preview
    }

    /// The grant of exactly this request.
    pub fn approve(&self) -> (r: ApprovalDecision)
        ensures
            r == (ApprovalDecision {
                request_id: self.id,
                action_digest: self.action_digest,
                outcome: ApprovalOutcome::Granted,
            }),
    {
        ApprovalDecision::approved(self.id, self.action_digest)
    }

    /// The refusal of exactly this request.
    pub fn deny(&self) -> (r: ApprovalDecision)
        ensures
            r == (ApprovalDecision {
                request_id: self.id,
                action_digest: self.action_digest,
                outcome: ApprovalOutcome::Denied,
            }),
    {
        ApprovalDecision::denied(self.id, self.action_digest)
    }
}

} // verus!
