//! Identifiers of runs, calls and waits.
//!
//! An identifier is a 128-bit number that its creator drew. Names of tools, graph nodes and
//! principals are texts with a rule.

use vstd::prelude::*;

use crate::text::{bounded_text, byte_len, contains_control, edge_is_space, is_space};

verus! {

/// One run of the runtime.
#[derive(Clone, Copy, Debug, PartialEq, Eq, Hash, Structural)]
pub struct RunId(pub u128);

/// The session that a run belongs to.
#[derive(Clone, Copy, Debug, PartialEq, Eq, Hash, Structural)]
pub struct SessionId(pub u128);

/// One invocation of the model.
#[derive(Clone, Copy, Debug, PartialEq, Eq, Hash, Structural)]
pub struct ModelCallId(pub u128);

/// One invocation of a tool.
#[derive(Clone, Copy, Debug, PartialEq, Eq, Hash, Structural)]
pub struct ToolCallId(pub u128);

/// One action that the model proposed.
#[derive(Clone, Copy, Debug, PartialEq, Eq, Hash, Structural)]
pub struct ActionProposalId(pub u128);

/// One question put to an approver.
#[derive(Clone, Copy, Debug, PartialEq, Eq, Hash, Structural)]
pub struct ApprovalRequestId(pub u128);

/// One attempt at a knowledge retrieval.
#[derive(Clone, Copy, Debug, PartialEq, Eq, Hash, Structural)]
pub struct KnowledgeRetrievalId(pub u128);

/// One attempt at running a graph node.
#[derive(Clone, Copy, Debug, PartialEq, Eq, Hash, Structural)]
pub struct GraphNodeAttemptId(pub u128);

/// One durable wait for an approval.
#[derive(Clone, Copy, Debug, PartialEq, Eq, Hash, Structural)]
pub struct DurableApprovalWaitId(pub u128);

/// The workspace that a sealed action may write to.
#[derive(Clone, Copy, Debug, PartialEq, Eq, Hash, Structural)]
pub struct WorkspaceBindingId(pub u128);

pub const MAX_GRAPH_NODE_ID_BYTES: usize = 128;

pub const MAX_PRINCIPAL_ID_BYTES: usize = 256;

/// A text that was refused as a name.
#[derive(Clone, Copy, Debug, PartialEq, Eq, Structural)]
pub struct InvalidName;

/// A tool name keeps its spelling: it is compared exactly, and it may neither be empty nor start
/// or end with white space.
pub open spec fn valid_tool_name(text: Seq<char>) -> bool {
    text.len() > 0 && !is_space(text.first()) && !is_space(text.last())
}

#[derive(Debug, Eq, Hash)]
pub struct ToolName {
    value: String,
}

impl View for ToolName {
    type V = Seq<char>;

    closed spec fn view(&self) -> Seq<char> {
        self.value@
    }
}

impl ToolName {
    pub fn new(value: String) -> (r: Result<Self, InvalidName>)
        ensures
            r is Ok <==> valid_tool_name(value@),
            r matches Ok(name) ==> name@ == value@,
    {
        if value.as_str().is_empty() || edge_is_space(value.as_str()) {
            return Err(InvalidName);
        }
        Ok(ToolName { value })
    }

    pub fn as_str(&self) -> (r: &str)
        ensures
            r@ == self@,
    {
        self.value.as_str()
    }
}

impl Clone for ToolName {
    fn clone(&self) -> (r: Self)
        ensures
            r == *self,
    {
        ToolName { value: self.value.clone() }
    }
}

impl PartialEq for ToolName {
    fn eq(&self, other: &ToolName) -> (r: bool) {
        self.value == other.value
    }
}

impl vstd::std_specs::cmp::PartialEqSpecImpl for ToolName {
    open spec fn obeys_eq_spec() -> bool {
        true
    }

    open spec fn eq_spec(&self, other: &ToolName) -> bool {
        self@ == other@
    }
}

/// A node of a graph program.
#[derive(Debug, Eq, Hash)]
pub struct GraphNodeId {
    value: String,
}

impl View for GraphNodeId {
    type V = Seq<char>;

    closed spec fn view(&self) -> Seq<char> {
        self.value@
    }
}

impl GraphNodeId {
    pub fn new(value: String) -> (r: Result<Self, InvalidName>)
        ensures
            r is Ok <==> bounded_text(value@, MAX_GRAPH_NODE_ID_BYTES as int),
            r matches Ok(id) ==> id@ == value@,
    {
        if value.as_str().is_empty() || byte_len(value.as_str()) > MAX_GRAPH_NODE_ID_BYTES
            || contains_control(value.as_str()) {
            return Err(InvalidName);
        }
        Ok(GraphNodeId { value })
    }

    pub fn as_str(&self) -> (r: &str)
        ensures
            r@ == self@,
    {
        self.value.as_str()
    }
}

impl Clone for GraphNodeId {
    fn clone(&self) -> (r: Self)
        ensures
            r == *self,
    {
        GraphNodeId { value: self.value.clone() }
    }
}

impl PartialEq for GraphNodeId {
    fn eq(&self, other: &GraphNodeId) -> (r: bool) {
        self.value == other.value
    }
}

impl vstd::std_specs::cmp::PartialEqSpecImpl for GraphNodeId {
    open spec fn obeys_eq_spec() -> bool {
        true
    }

    open spec fn eq_spec(&self, other: &GraphNodeId) -> bool {
        self@ == other@
    }
}

/// An authenticated subject. Its text is not for display.
#[derive(Eq, Hash)]
pub struct PrincipalId {
    value: String,
}

impl View for PrincipalId {
    type V = Seq<char>;

    closed spec fn view(&self) -> Seq<char> {
        self.value@
    }
}

impl PrincipalId {
    pub fn new(value: String) -> (r: Result<Self, InvalidName>)
        ensures
            r is Ok <==> bounded_text(value@, MAX_PRINCIPAL_ID_BYTES as int),
            r matches Ok(id) ==> id@ == value@,
    {
        if value.as_str().is_empty() || byte_len(value.as_str()) > MAX_PRINCIPAL_ID_BYTES
            || contains_control(value.as_str()) {
            return Err(InvalidName);
        }
        Ok(PrincipalId { value })
    }

    pub fn as_str(&self) -> (r: &str)
        ensures
            r@ == self@,
    {
        self.value.as_str()
    }
}

impl Clone for PrincipalId {
    fn clone(&self) -> (r: Self)
        ensures
            r == *self,
    {
        PrincipalId { value: self.value.clone() }
    }
}

impl PartialEq for PrincipalId {
    fn eq(&self, other: &PrincipalId) -> (r: bool) {
        self.value == other.value
    }
}

impl vstd::std_specs::cmp::PartialEqSpecImpl for PrincipalId {
    open spec fn obeys_eq_spec() -> bool {
        true
    }

    open spec fn eq_spec(&self, other: &PrincipalId) -> bool {
        self@ == other@
    }
}

} // verus!
