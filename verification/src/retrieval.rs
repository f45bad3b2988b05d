//! Retrieving knowledge: a recorded start, the retrieval, a recorded end.
//!
//! The log keeps which question was asked, by its digest, and which evidence came back, by
//! reference; never the text of either.

use vstd::prelude::*;
use vstd::utf8::encode_utf8;

use crate::context::{ContextView, Observation, RunContext, RunContextError};
use crate::digest::{sha256, Digest32};
use crate::error::{HarnessError, HarnessOperation, KnowledgeError};
use crate::events::{AgentEventKind, KnowledgeFailureKind};
use crate::evidence_set::{manifest_content, EvidenceSet};
use crate::ids::KnowledgeRetrievalId;
use crate::knowledge::KnowledgeRequest;
use crate::metadata::{
    KnowledgeBackendId, KnowledgeEvidenceReference, KnowledgeRouteMetadata,
    KnowledgeSnapshotMetadata,
};
use crate::model_call::{
    after_invocation, after_invocation_step, before_invocation, before_invocation_step,
};
use crate::record::{
    begin_recording, closed_gate, preflight, recording, terminalize_safety, terminalized, AuditMode,
    Purpose, RecordTurn,
};
use crate::text::{byte_len, utf8_len};
use crate::tool_call::Interruption;

verus! {

/// What the log keeps of a question.
#[derive(Debug)]
pub struct Question {
    pub route: KnowledgeRouteMetadata,
    pub query_digest: Digest32,
    pub query_bytes: u16,
}

impl Question {
    /// What the log keeps of a request.
    pub fn of(request: &KnowledgeRequest) -> (r: Self)
        ensures
            r.route@ == request@.route,
            r.query_digest@ == sha256(encode_utf8(request@.query)),
            r.query_bytes == utf8_len(request@.query),
    {
        let query = request.query();
        let text = query.as_str();
        Question {
            route: request.route().metadata(),
            query_digest: query.digest(),
            query_bytes: byte_len(text) as u16,
        }
    }
}

/// What the log keeps of the evidence that came back.
#[derive(Debug)]
pub struct RetrievedEvidence {
    pub snapshots: Vec<KnowledgeSnapshotMetadata>,
    pub references: Vec<KnowledgeEvidenceReference>,
    pub evidence_count: u8,
    pub truncated: bool,
    pub degraded: bool,
    pub manifest_digest: Digest32,
}

impl RetrievedEvidence {
    /// What the log keeps of a set of evidence.
    pub fn of(evidence: &EvidenceSet) -> (r: Self)
        ensures
            r.snapshots@ == evidence@.snapshots,
            r.references@.len() == evidence@.evidence.len(),
            forall|i: int|
                0 <= i < r.references@.len() ==> {
                    &&& (#[trigger] r.references@[i]).backend == evidence@.evidence[i].backend
                    &&& r.references@[i].reference@ == evidence@.evidence[i].reference_id
                    &&& r.references@[i].valid()
                },
            r.evidence_count == evidence@.evidence.len(),
            r.truncated == evidence@.truncated,
            r.degraded == evidence@.degraded,
            r.manifest_digest@ == sha256(manifest_content(evidence@)),
    {
        let mut snapshots: Vec<KnowledgeSnapshotMetadata> = Vec::new();
        let given = evidence.snapshots();
        let mut i: usize = 0;
        while i < given.len()
            invariant
                i <= given.len(),
                snapshots@ =~= given@.take(i as int),
            decreases given.len() - i,
        {
            snapshots.push(given[i].clone());
            i = i + 1;
        }
        assert(snapshots@ =~= given@);
        let items = evidence.evidence();
        let mut references: Vec<KnowledgeEvidenceReference> = Vec::new();
        let mut k: usize = 0;
        while k < items.len()
            invariant
                k <= items.len(),
                references@.len() == k,
                forall|j: int|
                    0 <= j < k ==> {
                        &&& (#[trigger] references@[j]).backend == items@[j]@.backend
                        &&& references@[j].reference@ == items@[j]@.reference_id
                        &&& references@[j].valid()
                    },
            decreases items.len() - k,
        {
            match items[k].durable_reference() {
                Some(reference) => {
                    references.push(reference);
                },
                None => {},
            }
            k = k + 1;
        }
        proof {
            assert forall|j: int| 0 <= j < references@.len() implies {
                &&& (#[trigger] references@[j]).backend == evidence@.evidence[j].backend
                &&& references@[j].reference@ == evidence@.evidence[j].reference_id
                &&& references@[j].valid()
            } by {
                assert(crate::evidence::evidence_views(items@)[j] == items@[j]@);
            }
        }
        RetrievedEvidence {
            snapshots,
            references,
            evidence_count: items.len() as u8,
            truncated: evidence.truncated(),
            degraded: evidence.degraded(),
            manifest_digest: evidence.manifest_digest(),
        }
    }
}

pub open spec fn failure_kind(error: KnowledgeError) -> KnowledgeFailureKind {
    match error {
        KnowledgeError::Unavailable(_) => KnowledgeFailureKind::Unavailable,
        KnowledgeError::Rejected(_) => KnowledgeFailureKind::Rejected,
        KnowledgeError::MalformedResponse => KnowledgeFailureKind::MalformedResponse,
        KnowledgeError::SnapshotMismatch => KnowledgeFailureKind::SnapshotMismatch,
        _ => KnowledgeFailureKind::Failed,
    }
}

pub fn knowledge_failure_kind(error: KnowledgeError) -> (r: KnowledgeFailureKind)
    ensures
        r == failure_kind(error),
{
    match error {
        KnowledgeError::Unavailable(_) => KnowledgeFailureKind::Unavailable,
        KnowledgeError::Rejected(_) => KnowledgeFailureKind::Rejected,
        KnowledgeError::MalformedResponse => KnowledgeFailureKind::MalformedResponse,
        KnowledgeError::SnapshotMismatch => KnowledgeFailureKind::SnapshotMismatch,
        _ => KnowledgeFailureKind::Failed,
    }
}

#[derive(Clone, Copy, Debug)]
pub enum RetrievalStage {
    /// The retrieval may not go on; what is being recorded reports why.
    Stopping,
    /// The start is being recorded.
    Starting { retrieval_id: KnowledgeRetrievalId },
    /// The evidence that came back is being recorded.
    Completing,
    /// A failure is being recorded; then it is reported.
    Failing { error: KnowledgeError },
    /// An interruption is being recorded; then the run is ended.
    Interrupting { by: Interruption },
}

#[derive(Debug)]
pub enum RetrievalTurn {
    Record(RecordTurn, RetrievalStage),
    /// Retrieve, within the run's bounds.
    Retrieve { retrieval_id: KnowledgeRetrievalId },
    Finished(Result<(), HarnessError>),
}

pub type RetrievalStep = (ContextView, RetrievalTurn);

pub open spec fn retrieval_failed(context: ContextView, error: HarnessError) -> RetrievalStep {
    (context, RetrievalTurn::Finished(Err(error)))
}

/// The event that starts a retrieval: the same question that is still pending is asked anew, and
/// no other question may be asked before it is answered.
pub open spec fn start_event(
    context: ContextView,
    retrieval_id: KnowledgeRetrievalId,
    question: Question,
) -> Option<AgentEventKind> {
    match context.durable.pending_knowledge_retrieval {
        None => Some(
            AgentEventKind::KnowledgeRetrievalStarted {
                retrieval_id,
                route: question.route,
                query_digest: question.query_digest,
                query_bytes: question.query_bytes,
            },
        ),
        Some(previous) => if previous.same_request(
            question.route@,
            question.query_digest,
            question.query_bytes,
        ) {
            Some(
                AgentEventKind::KnowledgeRetrievalRestarted {
                    previous_retrieval_id: previous.retrieval_id,
                    retrieval_id,
                    route: question.route,
                    query_digest: question.query_digest,
                    query_bytes: question.query_bytes,
                },
            )
        } else {
            None
        },
    }
}

/// What begins with a question whose first backend is `first`.
pub open spec fn retrieval_begun(
    context: ContextView,
    seen: Observation,
    has_port: bool,
    retrieval_id: KnowledgeRetrievalId,
    first: KnowledgeBackendId,
    question: Question,
) -> RetrievalStep {
    match closed_gate(context, HarnessOperation::RetrieveKnowledge, seen) {
        Some((after, turn)) => (after, RetrievalTurn::Record(turn, RetrievalStage::Stopping)),
        None => if !has_port {
            retrieval_failed(
                context,
                HarnessError::KnowledgePort(KnowledgeError::Unavailable(first)),
            )
        } else {
            match start_event(context, retrieval_id, question) {
                None => retrieval_failed(
                    context,
                    HarnessError::KnowledgePort(KnowledgeError::Rejected(first)),
                ),
                Some(kind) => {
                    let (after, turn) = recording(
                        context,
                        kind,
                        before_invocation(
                            HarnessOperation::RetrieveKnowledge,
                            AuditMode::Configured,
                        ),
                        None,
                    );
                    (
                        after,
                        RetrievalTurn::Record(turn, RetrievalStage::Starting { retrieval_id }),
                    )
                },
            }
        },
    }
}

/// Begins a retrieval with what the log keeps of the question.
pub fn begin_question(
    context: &mut RunContext,
    seen: Observation,
    has_port: bool,
    retrieval_id: KnowledgeRetrievalId,
    first: KnowledgeBackendId,
    question: Question,
) -> (r: RetrievalTurn)
    ensures
        (final(context)@, r) == retrieval_begun(
            old(context)@,
            seen,
            has_port,
            retrieval_id,
            first,
            question,
        ),
{
    match preflight(context, HarnessOperation::RetrieveKnowledge, seen) {
        Some(turn) => {
            return RetrievalTurn::Record(turn, RetrievalStage::Stopping);
        },
        None => {},
    }
    if !has_port {
        return RetrievalTurn::Finished(
            Err(HarnessError::KnowledgePort(KnowledgeError::Unavailable(first))),
        );
    }
    let restarted = match context.durable_state().pending_knowledge_retrieval() {
        None => None,
        Some(previous) => {
            if !previous.matches_request(
                &question.route,
                question.query_digest,
                question.query_bytes,
            ) {
                return RetrievalTurn::Finished(
                    Err(HarnessError::KnowledgePort(KnowledgeError::Rejected(first))),
                );
            }
            Some(previous.retrieval_id())
        },
    };
    let kind = match restarted {
        None => AgentEventKind::KnowledgeRetrievalStarted {
            retrieval_id,
            route: question.route,
            query_digest: question.query_digest,
            query_bytes: question.query_bytes,
        },
        Some(previous_retrieval_id) => AgentEventKind::KnowledgeRetrievalRestarted {
            previous_retrieval_id,
            retrieval_id,
            route: question.route,
            query_digest: question.query_digest,
            query_bytes: question.query_bytes,
        },
    };
    let turn = begin_recording(
        context,
        kind,
        before_invocation_step(HarnessOperation::RetrieveKnowledge, AuditMode::Configured),
        None,
    );
    RetrievalTurn::Record(turn, RetrievalStage::Starting { retrieval_id })
}

/// Begins a retrieval. A route without a backend leads nowhere.
pub fn begin_retrieval(
    context: &mut RunContext,
    seen: Observation,
    has_port: bool,
    retrieval_id: KnowledgeRetrievalId,
    request: &KnowledgeRequest,
) -> (r: RetrievalTurn)
    requires
        request@.route.backends().len() > 0,
    ensures
        exists|question: Question|
            {
                &&& question.route@ == request@.route
                &&& question.query_digest@ == sha256(encode_utf8(request@.query))
                &&& question.query_bytes == utf8_len(request@.query)
                &&& (final(context)@, r) == #[trigger] retrieval_begun(
                    old(context)@,
                    seen,
                    has_port,
                    retrieval_id,
                    request@.route.backends()[0],
                    question,
                )
            },
{
    let backends = request.route().backends();
    let question = Question::of(request);
    begin_question(context, seen, has_port, retrieval_id, backends[0], question)
}

/// What follows once an event of the retrieval is recorded, or could not be.
pub open spec fn retrieval_settled(
    context: ContextView,
    stage: RetrievalStage,
    result: Result<(), HarnessError>,
) -> RetrievalStep {
    match result {
        Err(error) => retrieval_failed(context, error),
        Ok(_) => match stage {
            RetrievalStage::Stopping => retrieval_failed(
                context,
                HarnessError::Context(RunContextError::RuntimeUnavailable),
            ),
            RetrievalStage::Starting { retrieval_id } => if context.deadline_at is None {
                retrieval_failed(
                    context,
                    HarnessError::Context(RunContextError::RuntimeUnavailable),
                )
            } else {
                (context, RetrievalTurn::Retrieve { retrieval_id })
            },
            RetrievalStage::Completing => (context, RetrievalTurn::Finished(Ok(()))),
            RetrievalStage::Failing { error } => retrieval_failed(
                context,
                HarnessError::KnowledgePort(error),
            ),
            RetrievalStage::Interrupting { by } => {
                let (after, turn) = terminalized(context, by.safety().outcome(), by.reported());
                (after, RetrievalTurn::Record(turn, RetrievalStage::Stopping))
            },
        },
    }
}

pub fn retrieval_recorded(
    context: &mut RunContext,
    stage: RetrievalStage,
    result: Result<(), HarnessError>,
) -> (r: RetrievalTurn)
    ensures
        (final(context)@, r) == retrieval_settled(old(context)@, stage, result),
{
    match result {
        Err(error) => {
            return RetrievalTurn::Finished(Err(error));
        },
        Ok(()) => {},
    }
    match stage {
        RetrievalStage::Stopping => RetrievalTurn::Finished(
            Err(HarnessError::Context(RunContextError::RuntimeUnavailable)),
        ),
        RetrievalStage::Starting { retrieval_id } => match context.deadline_at() {
            Err(error) => RetrievalTurn::Finished(Err(HarnessError::Context(error))),
            Ok(_) => RetrievalTurn::Retrieve { retrieval_id },
        },
        RetrievalStage::Completing => RetrievalTurn::Finished(Ok(())),
        RetrievalStage::Failing { error } => RetrievalTurn::Finished(
            Err(HarnessError::KnowledgePort(error)),
        ),
        RetrievalStage::Interrupting { by } => {
            let turn = terminalize_safety(context, by.terminalization(), by.error());
            RetrievalTurn::Record(turn, RetrievalStage::Stopping)
        },
    }
}

/// What came of the retrieval.
#[derive(Debug)]
pub enum RetrievalReply {
    Retrieved(RetrievedEvidence),
    Failed(KnowledgeError),
    Interrupted(Interruption),
}

/// How an interruption is recorded.
pub open spec fn interruption_kind(by: Interruption) -> KnowledgeFailureKind {
    match by {
        Interruption::Cancelled => KnowledgeFailureKind::Cancelled,
        Interruption::DeadlineExceeded => KnowledgeFailureKind::DeadlineExceeded,
    }
}

/// What follows the answer.
pub open spec fn retrieval_answered(
    context: ContextView,
    retrieval_id: KnowledgeRetrievalId,
    reply: RetrievalReply,
) -> RetrievalStep {
    let purpose = after_invocation(HarnessOperation::RetrieveKnowledge, AuditMode::Configured);
    let (turned, stage) = match reply {
        RetrievalReply::Retrieved(evidence) => (
            recording(
                context,
                AgentEventKind::KnowledgeRetrievalCompleted {
                    retrieval_id,
                    snapshots: evidence.snapshots,
                    evidence_references: evidence.references,
                    evidence_count: evidence.evidence_count,
                    truncated: evidence.truncated,
                    degraded: evidence.degraded,
                    manifest_digest: evidence.manifest_digest,
                },
                purpose,
                None,
            ),
            RetrievalStage::Completing,
        ),
        RetrievalReply::Failed(error) => (
            recording(
                context,
                AgentEventKind::KnowledgeRetrievalFailed {
                    retrieval_id,
                    kind: failure_kind(error),
                },
                purpose,
                None,
            ),
            RetrievalStage::Failing { error },
        ),
        RetrievalReply::Interrupted(by) => (
            recording(
                context,
                AgentEventKind::KnowledgeRetrievalFailed {
                    retrieval_id,
                    kind: interruption_kind(by),
                },
                Purpose::Interruption,
                None,
            ),
            RetrievalStage::Interrupting { by },
        ),
    };
    (turned.0, RetrievalTurn::Record(turned.1, stage))
}

pub fn retrieval_replied(
    context: &mut RunContext,
    retrieval_id: KnowledgeRetrievalId,
    reply: RetrievalReply,
) -> (r: RetrievalTurn)
    ensures
        (final(context)@, r) == retrieval_answered(old(context)@, retrieval_id, reply),
{
    let purpose = after_invocation_step(
        HarnessOperation::RetrieveKnowledge,
        AuditMode::Configured,
    );
    match reply {
        RetrievalReply::Retrieved(evidence) => {
            let turn = begin_recording(
                context,
                AgentEventKind::KnowledgeRetrievalCompleted {
                    retrieval_id,
                    snapshots: evidence.snapshots,
                    evidence_references: evidence.references,
                    evidence_count: evidence.evidence_count,
                    truncated: evidence.truncated,
                    degraded: evidence.degraded,
                    manifest_digest: evidence.manifest_digest,
                },
                purpose,
                None,
            );
            RetrievalTurn::Record(turn, RetrievalStage::Completing)
        },
        RetrievalReply::Failed(error) => {
            let turn = begin_recording(
                context,
                AgentEventKind::KnowledgeRetrievalFailed {
                    retrieval_id,
                    kind: knowledge_failure_kind(error),
                },
                purpose,
                None,
            );
            RetrievalTurn::Record(turn, RetrievalStage::Failing { error })
        },
        RetrievalReply::Interrupted(by) => {
            let kind = match by {
                Interruption::Cancelled => KnowledgeFailureKind::Cancelled,
                Interruption::DeadlineExceeded => KnowledgeFailureKind::DeadlineExceeded,
            };
            let turn = begin_recording(
                context,
                AgentEventKind::KnowledgeRetrievalFailed { retrieval_id, kind },
                Purpose::Interruption,
                None,
            );
            RetrievalTurn::Record(turn, RetrievalStage::Interrupting { by })
        },
    }
}

} // verus!
