//! Positions, effects and retrievals as the durable state of a run holds them.

use vstd::prelude::*;

use crate::digest::Digest32;
use crate::events::{CapabilityKind, GraphNodeKind, GraphRecoveryMode};
use crate::ids::{
    ActionProposalId, ApprovalRequestId, DurableApprovalWaitId, GraphNodeAttemptId, GraphNodeId,
    KnowledgeRetrievalId, ModelCallId, ToolCallId,
};
use crate::metadata::{KnowledgeRouteMetadata, RouteView};
use crate::status::{LoopDecisionKind, LoopPhase};

verus! {

#[derive(Clone, Copy, Debug, PartialEq, Eq, Structural)]
pub enum DurableLoopPosition {
    NotStarted,
    Ready,
    PhaseReady(LoopPhase),
    PhaseRunning(LoopPhase),
    ReflectCompleted,
    ReflectDecided(LoopDecisionKind),
    Finished,
}

#[derive(Clone, Copy, Debug, PartialEq, Eq, Structural)]
pub enum ContinuationState {
    InitialBoundary,
    RestartableBoundary,
    TransientStateRequired,
}

/// An effect whose start is recorded and whose end is not.
#[derive(Clone, Copy, Debug, PartialEq, Eq, Structural)]
pub enum PendingEffect {
    Model { model_call_id: ModelCallId },
    Approval { approval_request_id: ApprovalRequestId },
    Tool { tool_call_id: ToolCallId, capability: CapabilityKind },
}

/// What the end of an effect names.
#[derive(Clone, Copy, Debug, PartialEq, Eq, Structural)]
pub enum PendingEffectKey {
    Model(ModelCallId),
    Approval(ApprovalRequestId),
    Tool(ToolCallId),
}

impl PendingEffectKey {
    pub open spec fn names(self, effect: PendingEffect) -> bool {
        match effect {
            PendingEffect::Model { model_call_id } => self == PendingEffectKey::Model(
                model_call_id,
            ),
            PendingEffect::Approval { approval_request_id } => self == PendingEffectKey::Approval(
                approval_request_id,
            ),
            PendingEffect::Tool { tool_call_id, .. } => self == PendingEffectKey::Tool(
                tool_call_id,
            ),
        }
    }

    pub fn matches(self, effect: PendingEffect) -> (r: bool)
        ensures
            r == self.names(effect),
    {
        match effect {
            PendingEffect::Model { model_call_id } => self == PendingEffectKey::Model(
                model_call_id,
            ),
            PendingEffect::Approval { approval_request_id } => self == PendingEffectKey::Approval(
                approval_request_id,
            ),
            PendingEffect::Tool { tool_call_id, .. } => self == PendingEffectKey::Tool(
                tool_call_id,
            ),
        }
    }
}

/// `i` is the first position at which `key` names an effect.
pub open spec fn first_named(effects: Seq<PendingEffect>, key: PendingEffectKey, i: int) -> bool {
    &&& 0 <= i < effects.len()
    &&& key.names(effects[i])
    &&& forall|j: int| 0 <= j < i ==> !key.names(#[trigger] effects[j])
}

pub open spec fn is_pending(effects: Seq<PendingEffect>, key: PendingEffectKey) -> bool {
    exists|i: int| first_named(effects, key, i)
}

/// The effects without the first one that `key` names.
pub open spec fn without(effects: Seq<PendingEffect>, key: PendingEffectKey) -> Seq<PendingEffect> {
    effects.remove(choose|i: int| first_named(effects, key, i))
}

#[derive(Debug, PartialEq, Eq)]
pub struct PendingKnowledgeRetrieval {
    pub retrieval_id: KnowledgeRetrievalId,
    pub route: KnowledgeRouteMetadata,
    pub query_digest: Digest32,
    pub query_bytes: u16,
}

pub struct RetrievalView {
    pub retrieval_id: KnowledgeRetrievalId,
    pub route: RouteView,
    pub query_digest: Digest32,
    pub query_bytes: u16,
}

impl View for PendingKnowledgeRetrieval {
    type V = RetrievalView;

    open spec fn view(&self) -> RetrievalView {
        RetrievalView {
            retrieval_id: self.retrieval_id,
            route: self.route@,
            query_digest: self.query_digest,
            query_bytes: self.query_bytes,
        }
    }
}

impl RetrievalView {
    /// The retrieval asks the same question on the same route.
    pub open spec fn same_request(
        self,
        route: RouteView,
        query_digest: Digest32,
        query_bytes: u16,
    ) -> bool {
        self.route == route && self.query_digest == query_digest && self.query_bytes == query_bytes
    }
}

impl PendingKnowledgeRetrieval {
    pub fn retrieval_id(&self) -> (r: KnowledgeRetrievalId)
        ensures
            r == self@.retrieval_id,
    {
        self.retrieval_id
    }

    pub fn route(&self) -> (r: &KnowledgeRouteMetadata)
        ensures
            r@ == self@.route,
    {
        &self.route
    }

    pub fn query_digest(&self) -> (r: Digest32)
        ensures
            r == self@.query_digest,
    {
        self.query_digest
    }

    pub fn query_bytes(&self) -> (r: u16)
        ensures
            r == self@.query_bytes,
    {
        self.query_bytes
    }

    pub fn matches_request(
        &self,
        route: &KnowledgeRouteMetadata,
        query_digest: Digest32,
        query_bytes: u16,
    ) -> (r: bool)
        ensures
            r == self@.same_request(route@, query_digest, query_bytes),
    {
        self.route == *route && self.query_digest == query_digest && self.query_bytes == query_bytes
    }
}

impl Clone for PendingKnowledgeRetrieval {
    fn clone(&self) -> (r: Self)
        ensures
            r@ == self@,
    {
        PendingKnowledgeRetrieval {
            retrieval_id: self.retrieval_id,
            route: self.route.clone(),
            query_digest: self.query_digest,
            query_bytes: self.query_bytes,
        }
    }
}

pub fn retrieval_equal(a: &Option<PendingKnowledgeRetrieval>, b: &Option<PendingKnowledgeRetrieval>)
    -> (r: bool)
    ensures
        r == (option_retrieval(*a) == option_retrieval(*b)),
{
    match (a, b) {
        (None, None) => true,
        (Some(x), Some(y)) => x.retrieval_id == y.retrieval_id && x.matches_request(
            &y.route,
            y.query_digest,
            y.query_bytes,
        ),
        _ => false,
    }
}

pub open spec fn option_retrieval(value: Option<PendingKnowledgeRetrieval>) -> Option<
    RetrievalView,
> {
    match value {
        Some(retrieval) => Some(retrieval@),
        None => None,
    }
}

pub fn clone_retrieval(value: &Option<PendingKnowledgeRetrieval>) -> (r: Option<
    PendingKnowledgeRetrieval,
>)
    ensures
        option_retrieval(r) == option_retrieval(*value),
{
    match value {
        Some(retrieval) => Some(retrieval.clone()),
        None => None,
    }
}

/// What the latest completed retrieval brought.
#[derive(Clone, Copy, Debug, PartialEq, Eq)]
pub struct DurableKnowledgeManifest {
    pub retrieval_id: KnowledgeRetrievalId,
    pub evidence_count: u8,
    pub manifest_digest: Digest32,
}

pub fn manifest_equal(a: Option<DurableKnowledgeManifest>, b: Option<DurableKnowledgeManifest>) -> (r:
    bool)
    ensures
        r == (a == b),
{
    match (a, b) {
        (None, None) => true,
        (Some(x), Some(y)) => x.retrieval_id == y.retrieval_id && x.evidence_count
            == y.evidence_count && x.manifest_digest == y.manifest_digest,
        _ => false,
    }
}

#[derive(Debug, Eq)]
pub enum DurableGraphPosition {
    NotStarted,
    Ready { node_id: GraphNodeId, node_kind: GraphNodeKind, recovery: GraphRecoveryMode },
    Running {
        attempt_id: GraphNodeAttemptId,
        node_id: GraphNodeId,
        node_kind: GraphNodeKind,
        recovery: GraphRecoveryMode,
    },
    Waiting {
        attempt_id: GraphNodeAttemptId,
        node_id: GraphNodeId,
        wait_id: DurableApprovalWaitId,
        approval_request_id: ApprovalRequestId,
        action_proposal_id: ActionProposalId,
        tool_call_id: ToolCallId,
        action_digest: Digest32,
    },
    Finished,
}

pub enum GraphPositionView {
    NotStarted,
    Ready { node_id: Seq<char>, node_kind: GraphNodeKind, recovery: GraphRecoveryMode },
    Running {
        attempt_id: GraphNodeAttemptId,
        node_id: Seq<char>,
        node_kind: GraphNodeKind,
        recovery: GraphRecoveryMode,
    },
    Waiting {
        attempt_id: GraphNodeAttemptId,
        node_id: Seq<char>,
        wait_id: DurableApprovalWaitId,
        approval_request_id: ApprovalRequestId,
        action_proposal_id: ActionProposalId,
        tool_call_id: ToolCallId,
        action_digest: Digest32,
    },
    Finished,
}

impl View for DurableGraphPosition {
    type V = GraphPositionView;

    open spec fn view(&self) -> GraphPositionView {
        match *self {
            DurableGraphPosition::NotStarted => GraphPositionView::NotStarted,
            DurableGraphPosition::Ready { node_id, node_kind, recovery } => {
                GraphPositionView::Ready { node_id: node_id@, node_kind, recovery }
            },
            DurableGraphPosition::Running { attempt_id, node_id, node_kind, recovery } => {
                GraphPositionView::Running { attempt_id, node_id: node_id@, node_kind, recovery }
            },
            DurableGraphPosition::Waiting {
                attempt_id,
                node_id,
                wait_id,
                approval_request_id,
                action_proposal_id,
                tool_call_id,
                action_digest,
            } => GraphPositionView::Waiting {
                attempt_id,
                node_id: node_id@,
                wait_id,
                approval_request_id,
                action_proposal_id,
                tool_call_id,
                action_digest,
            },
            DurableGraphPosition::Finished => GraphPositionView::Finished,
        }
    }
}

impl Clone for DurableGraphPosition {
    fn clone(&self) -> (r: Self)
        ensures
            r@ == self@,
    {
        match self {
            DurableGraphPosition::NotStarted => DurableGraphPosition::NotStarted,
            DurableGraphPosition::Ready { node_id, node_kind, recovery } => {
                DurableGraphPosition::Ready {
                    node_id: node_id.clone(),
                    node_kind: *node_kind,
                    recovery: *recovery,
                }
            },
            DurableGraphPosition::Running { attempt_id, node_id, node_kind, recovery } => {
                DurableGraphPosition::Running {
                    attempt_id: *attempt_id,
                    node_id: node_id.clone(),
                    node_kind: *node_kind,
                    recovery: *recovery,
                }
            },
            DurableGraphPosition::Waiting {
                attempt_id,
                node_id,
                wait_id,
                approval_request_id,
                action_proposal_id,
                tool_call_id,
                action_digest,
            } => DurableGraphPosition::Waiting {
                attempt_id: *attempt_id,
                node_id: node_id.clone(),
                wait_id: *wait_id,
                approval_request_id: *approval_request_id,
                action_proposal_id: *action_proposal_id,
                tool_call_id: *tool_call_id,
                action_digest: *action_digest,
            },
            DurableGraphPosition::Finished => DurableGraphPosition::Finished,
        }
    }
}

impl PartialEq for DurableGraphPosition {
    fn eq(&self, other: &DurableGraphPosition) -> (r: bool) {
        match (self, other) {
            (DurableGraphPosition::NotStarted, DurableGraphPosition::NotStarted) => true,
            (DurableGraphPosition::Finished, DurableGraphPosition::Finished) => true,
            (
                DurableGraphPosition::Ready { node_id, node_kind, recovery },
                DurableGraphPosition::Ready {
                    node_id: other_node,
                    node_kind: other_kind,
                    recovery: other_recovery,
                },
            ) => *node_id == *other_node && *node_kind == *other_kind && *recovery
                == *other_recovery,
            (
                DurableGraphPosition::Running { attempt_id, node_id, node_kind, recovery },
                DurableGraphPosition::Running {
                    attempt_id: other_attempt,
                    node_id: other_node,
                    node_kind: other_kind,
                    recovery: other_recovery,
                },
            ) => *attempt_id == *other_attempt && *node_id == *other_node && *node_kind
                == *other_kind && *recovery == *other_recovery,
            (
                DurableGraphPosition::Waiting {
                    attempt_id,
                    node_id,
                    wait_id,
                    approval_request_id,
                    action_proposal_id,
                    tool_call_id,
                    action_digest,
                },
                DurableGraphPosition::Waiting {
                    attempt_id: other_attempt,
                    node_id: other_node,
                    wait_id: other_wait,
                    approval_request_id: other_request,
                    action_proposal_id: other_proposal,
                    tool_call_id: other_call,
                    action_digest: other_digest,
                },
            ) => *attempt_id == *other_attempt && *node_id == *other_node && *wait_id == *other_wait
                && *approval_request_id == *other_request && *action_proposal_id == *other_proposal
                && *tool_call_id == *other_call && *action_digest == *other_digest,
            _ => false,
        }
    }
}

impl vstd::std_specs::cmp::PartialEqSpecImpl for DurableGraphPosition {
    open spec fn obeys_eq_spec() -> bool {
        true
    }

    open spec fn eq_spec(&self, other: &DurableGraphPosition) -> bool {
        self@ == other@
    }
}

/// The node from which a graph run may start afresh.
#[derive(Clone, Debug, PartialEq, Eq)]
pub struct GraphRestartAnchor {
    pub node_id: GraphNodeId,
    pub attempt_id: GraphNodeAttemptId,
}

pub struct AnchorView {
    pub node_id: Seq<char>,
    pub attempt_id: GraphNodeAttemptId,
}

impl View for GraphRestartAnchor {
    type V = AnchorView;

    open spec fn view(&self) -> AnchorView {
        AnchorView { node_id: self.node_id@, attempt_id: self.attempt_id }
    }
}

impl GraphRestartAnchor {
    pub fn node_id(&self) -> (r: &GraphNodeId)
        ensures
            r@ == self@.node_id,
    {
        &self.node_id
    }

    pub fn attempt_id(&self) -> (r: GraphNodeAttemptId)
        ensures
            r == self@.attempt_id,
    {
        self.attempt_id
    }
}

pub open spec fn option_anchor(value: Option<GraphRestartAnchor>) -> Option<AnchorView> {
    match value {
        Some(anchor) => Some(anchor@),
        None => None,
    }
}

#[derive(Clone, Debug, PartialEq, Eq)]
pub struct DurableGraphState {
    pub definition_digest: Digest32,
    pub position: DurableGraphPosition,
    pub steps: u32,
    pub restart_anchor: Option<GraphRestartAnchor>,
}

pub struct GraphView {
    pub definition_digest: Digest32,
    pub position: GraphPositionView,
    pub steps: u32,
    pub restart_anchor: Option<AnchorView>,
}

impl View for DurableGraphState {
    type V = GraphView;

    open spec fn view(&self) -> GraphView {
        GraphView {
            definition_digest: self.definition_digest,
            position: self.position@,
            steps: self.steps,
            restart_anchor: option_anchor(self.restart_anchor),
        }
    }
}

pub open spec fn option_graph(value: Option<DurableGraphState>) -> Option<GraphView> {
    match value {
        Some(graph) => Some(graph@),
        None => None,
    }
}

impl GraphView {
    /// The graph stands where it can be continued from its log alone.
    pub open spec fn resumable(self) -> bool {
        ||| self.restart_anchor is Some
        ||| (self.position matches GraphPositionView::Ready { recovery, .. } && recovery
            != GraphRecoveryMode::Never)
        ||| (self.position matches GraphPositionView::Running { recovery, .. } && recovery
            != GraphRecoveryMode::Never)
    }
}

impl DurableGraphState {
    pub fn definition_digest(&self) -> (r: Digest32)
        ensures
            r == self@.definition_digest,
    {
        self.definition_digest
    }

    pub fn position(&self) -> (r: &DurableGraphPosition)
        ensures
            r@ == self@.position,
    {
        &self.position
    }

    pub fn steps(&self) -> (r: u32)
        ensures
            r == self@.steps,
    {
        self.steps
    }

    pub fn restart_anchor(&self) -> (r: Option<&GraphRestartAnchor>)
        ensures
            r is Some <==> self@.restart_anchor is Some,
            r matches Some(anchor) ==> Some(anchor@) == self@.restart_anchor,
    {
        self.restart_anchor.as_ref()
    }

    pub fn can_resume(&self) -> (r: bool)
        ensures
            r == self@.resumable(),
    {
        if self.restart_anchor.is_some() {
            return true;
        }
        match &self.position {
            DurableGraphPosition::Ready { recovery, .. } => *recovery != GraphRecoveryMode::Never,
            DurableGraphPosition::Running { recovery, .. } => *recovery
                != GraphRecoveryMode::Never,
            _ => false,
        }
    }
}

pub fn clone_graph(value: &Option<DurableGraphState>) -> (r: Option<DurableGraphState>)
    ensures
        option_graph(r) == option_graph(*value),
{
    match value {
        Some(graph) => {
            let restart_anchor = match &graph.restart_anchor {
                Some(anchor) => Some(
                    GraphRestartAnchor {
                        node_id: anchor.node_id.clone(),
                        attempt_id: anchor.attempt_id,
                    },
                ),
                None => None,
            };
            Some(
                DurableGraphState {
                    definition_digest: graph.definition_digest,
                    position: graph.position.clone(),
                    steps: graph.steps,
                    restart_anchor,
                },
            )
        },
        None => None,
    }
}

pub fn graph_equal(a: &Option<DurableGraphState>, b: &Option<DurableGraphState>) -> (r: bool)
    ensures
        r == (option_graph(*a) == option_graph(*b)),
{
    match (a, b) {
        (None, None) => true,
        (Some(x), Some(y)) => {
            let anchors_equal = match (&x.restart_anchor, &y.restart_anchor) {
                (None, None) => true,
                (Some(left), Some(right)) => left.node_id == right.node_id && left.attempt_id
                    == right.attempt_id,
                _ => false,
            };
            anchors_equal && x.definition_digest == y.definition_digest && x.position == y.position
                && x.steps == y.steps
        },
        _ => false,
    }
}

} // verus!
