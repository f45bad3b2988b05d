//! Actions: what a model proposes as text, decoded, bounded and held to the tool's schema.

use vstd::prelude::*;

use crate::digest::{sha256, Digest32};
use crate::error::HarnessError;
use crate::events::{ActionRejectionReason, CapabilityKind};
use crate::ids::{valid_tool_name, ActionProposalId, ModelCallId, ToolCallId, ToolName};
use crate::json::{
    copy_value, count_keys, counts, find_member, is_object, member_of, open_value, parse_json, parsed_json, stays_within,
    value_json, within_limits, write_json, written_json, JsonLimits, JsonModel, JsonNode,
};
use crate::model::{ModelOutputPart, ModelResponse};
use crate::schema::schema_accepts;
use crate::text::{
    byte_len, id_text, quoted, quoted_text, trim_text, trimmed, utf8_len, write_id,
};
use crate::tools::{
    action_content, compute_action_digest, tool_named, BindingView, ToolCall, ToolInput,
    ToolRegistry,
};

verus! {

pub const MAX_PLANNING_RESPONSE_BYTES: usize = 16 * 1024;

pub const MAX_ACTION_TOOL_NAME_BYTES: usize = 128;

pub const MAX_ACTION_ARGUMENT_BYTES: usize = 8 * 1024;

pub const MAX_ACTION_ARGUMENT_DEPTH: usize = 8;

pub const MAX_ACTION_ARGUMENT_KEYS: usize = 64;

pub const MAX_ACTION_ARGUMENT_ARRAY_ELEMENTS: usize = 128;

pub const MAX_ACTION_ARGUMENT_NODES: usize = 256;

/// What a model proposes to do.
pub struct ActionProposal {
    pub id: ActionProposalId,
    pub source_model_call_id: ModelCallId,
    pub tool_name: ToolName,
    pub arguments: ToolInput,
}

impl ActionProposal {
    pub fn new(
        id: ActionProposalId,
        source_model_call_id: ModelCallId,
        tool_name: ToolName,
        arguments: ToolInput,
    ) -> (r: Self)
        ensures
            r == (ActionProposal { id, source_model_call_id, tool_name, arguments }),
    {
        ActionProposal { id, source_model_call_id, tool_name, arguments }
    }

    pub fn id(&self) -> (r: ActionProposalId)
        ensures
            r == self.id,
    {
        self.id
    }

    pub fn source_model_call_id(&self) -> (r: ModelCallId)
        ensures
            r == self.source_model_call_id,
    {
        self.source_model_call_id
    }

    pub fn tool_name(&self) -> (r: &ToolName)
        ensures
            *r == self.tool_name,
    {
        &self.tool_name
    }

    pub fn arguments(&self) -> (r: &ToolInput)
        ensures
            *r == self.arguments,
    {
        &self.arguments
    }
}

#[derive(Clone, Copy, Debug, PartialEq, Eq, Structural)]
pub struct ActionValidationError {
    pub proposal_id: ActionProposalId,
    pub model_call_id: ModelCallId,
    pub reason: ActionRejectionReason,
}

impl ActionValidationError {
    pub fn new(
        proposal_id: ActionProposalId,
        model_call_id: ModelCallId,
        reason: ActionRejectionReason,
    ) -> (r: Self)
        ensures
            r == (ActionValidationError { proposal_id, model_call_id, reason }),
    {
        ActionValidationError { proposal_id, model_call_id, reason }
    }

    pub fn proposal_id(&self) -> (r: ActionProposalId)
        ensures
            r == self.proposal_id,
    {
        self.proposal_id
    }

    pub fn model_call_id(&self) -> (r: ModelCallId)
        ensures
            r == self.model_call_id,
    {
        self.model_call_id
    }

    pub fn reason(&self) -> (r: ActionRejectionReason)
        ensures
            r == self.reason,
    {
        self.reason
    }
}

#[derive(Clone, Debug, PartialEq, Eq)]
pub enum ActionPreparationError {
    Validation(ActionValidationError),
    Harness(HarnessError),
}

pub open spec fn argument_limits() -> JsonLimits {
    JsonLimits {
        depth: Some(MAX_ACTION_ARGUMENT_DEPTH),
        keys: MAX_ACTION_ARGUMENT_KEYS,
        elements: Some(MAX_ACTION_ARGUMENT_ARRAY_ELEMENTS),
        nodes: Some(MAX_ACTION_ARGUMENT_NODES),
    }
}

/// Whether arguments that are written as `written` are small and simple enough.
pub open spec fn arguments_fit(arguments: JsonModel, written: Option<Seq<u8>>) -> bool {
    &&& written matches Some(bytes) && bytes.len() <= MAX_ACTION_ARGUMENT_BYTES
    &&& within_limits(arguments, argument_limits())
}

/// Whether arguments are small and simple enough, given the bytes that they are written as.
pub fn check_arguments(arguments: &serde_json::Value, written: &Option<Vec<u8>>) -> (r: Result<
    (),
    ActionRejectionReason,
>)
    ensures
        r == (if arguments_fit(
            value_json(*arguments),
            match *written {
                None => None,
                Some(bytes) => Some(bytes@),
            },
        ) {
            Ok(())
        } else {
            Err::<(), ActionRejectionReason>(ActionRejectionReason::SecurityLimitExceeded)
        }),
{
    let small = match written {
        None => false,
        Some(bytes) => bytes.len() <= MAX_ACTION_ARGUMENT_BYTES,
    };
    let limits = JsonLimits {
        depth: Some(MAX_ACTION_ARGUMENT_DEPTH),
        keys: MAX_ACTION_ARGUMENT_KEYS,
        elements: Some(MAX_ACTION_ARGUMENT_ARRAY_ELEMENTS),
        nodes: Some(MAX_ACTION_ARGUMENT_NODES),
    };
    if small && stays_within(arguments, limits) {
        Ok(())
    } else {
        Err(ActionRejectionReason::SecurityLimitExceeded)
    }
}

/// Whether arguments are small and simple enough.
pub fn validate_argument_limits(arguments: &serde_json::Value) -> (r: Result<
    (),
    ActionRejectionReason,
>)
    ensures
        r == (if arguments_fit(value_json(*arguments), written_json(value_json(*arguments))) {
            Ok(())
        } else {
            Err::<(), ActionRejectionReason>(ActionRejectionReason::SecurityLimitExceeded)
        }),
{
    let written = write_json(arguments);
    check_arguments(arguments, &written)
}

/// Where a place in a JSON text lies.
#[derive(Clone, Copy, PartialEq, Eq, Structural)]
pub enum Lexis {
    Outside,
    InText,
    Escaped,
}

/// Where the place after this character lies.
pub open spec fn stepped(lexis: Lexis, c: char) -> Lexis {
    match lexis {
        Lexis::Outside => if c == '"' {
            Lexis::InText
        } else {
            Lexis::Outside
        },
        Lexis::InText => if c == '\\' {
            Lexis::Escaped
        } else if c == '"' {
            Lexis::Outside
        } else {
            Lexis::InText
        },
        Lexis::Escaped => Lexis::InText,
    }
}

/// Where the end of a JSON text lies.
pub open spec fn lexis_at_end(text: Seq<char>) -> Lexis
    decreases text.len(),
{
    if text.len() == 0 {
        Lexis::Outside
    } else {
        stepped(lexis_at_end(text.drop_last()), text.last())
    }
}

/// How many members a JSON text writes: each has one colon that is not part of a text.
pub open spec fn members_written(text: Seq<char>) -> nat
    decreases text.len(),
{
    if text.len() == 0 {
        0
    } else {
        members_written(text.drop_last()) + if text.last() == ':' && lexis_at_end(
            text.drop_last(),
        ) == Lexis::Outside {
            1nat
        } else {
            0nat
        }
    }
}

fn count_members_written(text: &str) -> (r: usize)
    ensures
        r == members_written(text@),
{
    let count = text.unicode_len();
    let mut written: usize = 0;
    let mut lexis = Lexis::Outside;
    let mut i: usize = 0;
    while i < count
        invariant
            i <= count == text@.len(),
            written <= i,
            written == members_written(text@.take(i as int)),
            lexis == lexis_at_end(text@.take(i as int)),
        decreases count - i,
    {
        let c = text.get_char(i);
        proof {
            assert(text@.take(i + 1).drop_last() =~= text@.take(i as int));
            assert(text@.take(i + 1).last() == c);
        }
        if c == ':' && lexis == Lexis::Outside {
            written = written + 1;
        }
        lexis = match lexis {
            Lexis::Outside => if c == '"' {
                Lexis::InText
            } else {
                Lexis::Outside
            },
            Lexis::InText => if c == '\\' {
                Lexis::Escaped
            } else if c == '"' {
                Lexis::Outside
            } else {
                Lexis::InText
            },
            Lexis::Escaped => Lexis::InText,
        };
        i = i + 1;
    }
    assert(text@.take(i as int) =~= text@);
    written
}

/// Whether the value read from a text has a member for each one written. A key that is written
/// twice leaves one member less, for the value keeps the last of them only.
pub open spec fn keys_are_unique(text: Seq<char>, json: JsonModel) -> bool {
    counts(json).keys == members_written(text)
}

/// The action in an envelope: `{"action": {"tool": name, "arguments": {..}}}` and nothing else.
pub open spec fn opened_envelope(json: JsonModel) -> Result<
    (Seq<char>, JsonModel),
    ActionRejectionReason,
> {
    match json {
        JsonModel::Object(root) => match member_of(root, "action"@) {
            Some(JsonModel::Object(action)) => match (
                member_of(action, "tool"@),
                member_of(action, "arguments"@),
            ) {
                (Some(JsonModel::Text(name)), Some(arguments)) => if root.len() != 1
                    || action.len() != 2 || !(arguments is Object) {
                    Err(ActionRejectionReason::MalformedEnvelope)
                } else if utf8_len(name) > MAX_ACTION_TOOL_NAME_BYTES {
                    Err(ActionRejectionReason::SecurityLimitExceeded)
                } else if !valid_tool_name(name) {
                    Err(ActionRejectionReason::InvalidToolName)
                } else {
                    Ok((name, arguments))
                },
                _ => Err(ActionRejectionReason::MalformedEnvelope),
            },
            _ => Err(ActionRejectionReason::MalformedEnvelope),
        },
        _ => Err(ActionRejectionReason::MalformedEnvelope),
    }
}

/// Opens the envelope of an action.
pub fn decode_envelope(value: &serde_json::Value) -> (r: Result<
    (ToolName, serde_json::Value),
    ActionRejectionReason,
>)
    ensures
        match r {
            Ok((name, arguments)) => opened_envelope(value_json(*value)) == Ok::<
                (Seq<char>, JsonModel),
                ActionRejectionReason,
            >((name@, value_json(arguments))),
            Err(reason) => opened_envelope(value_json(*value)) == Err::<
                (Seq<char>, JsonModel),
                ActionRejectionReason,
            >(reason),
        },
{
    let root = match open_value(value) {
        JsonNode::Object(root) => root,
        _ => {
            return Err(ActionRejectionReason::MalformedEnvelope);
        },
    };
    let action = match find_member(&root, "action") {
        Some(inner) => match open_value(inner) {
            JsonNode::Object(action) => action,
            _ => {
                return Err(ActionRejectionReason::MalformedEnvelope);
            },
        },
        None => {
            return Err(ActionRejectionReason::MalformedEnvelope);
        },
    };
    let name = match find_member(&action, "tool") {
        Some(tool) => match open_value(tool) {
            JsonNode::Text(name) => name,
            _ => {
                return Err(ActionRejectionReason::MalformedEnvelope);
            },
        },
        None => {
            return Err(ActionRejectionReason::MalformedEnvelope);
        },
    };
    let arguments = match find_member(&action, "arguments") {
        Some(arguments) => arguments,
        None => {
            return Err(ActionRejectionReason::MalformedEnvelope);
        },
    };
    if root.len() != 1 || action.len() != 2 || !is_object(arguments) {
        return Err(ActionRejectionReason::MalformedEnvelope);
    }
    if byte_len(name.as_str()) > MAX_ACTION_TOOL_NAME_BYTES {
        return Err(ActionRejectionReason::SecurityLimitExceeded);
    }
    match ToolName::new(name.clone()) {
        Ok(tool_name) => Ok((tool_name, copy_value(arguments))),
        Err(_) => Err(ActionRejectionReason::InvalidToolName),
    }
}

/// What the value read from a text proposes, before its arguments are bounded.
pub open spec fn proposed(text: Seq<char>, parsed: Option<JsonModel>) -> Result<
    (Seq<char>, JsonModel),
    ActionRejectionReason,
> {
    match parsed {
        None => Err(ActionRejectionReason::MalformedEnvelope),
        Some(json) => if keys_are_unique(text, json) {
            opened_envelope(json)
        } else {
            Err(ActionRejectionReason::MalformedEnvelope)
        },
    }
}

/// Takes the action out of the value that was read from a text, if one was.
pub fn decode_parsed(text: &str, parsed: &Option<serde_json::Value>) -> (r: Result<
    (ToolName, serde_json::Value),
    ActionRejectionReason,
>)
    ensures
        ({
            let expected = proposed(
                text@,
                match *parsed {
                    None => None,
                    Some(value) => Some(value_json(value)),
                },
            );
            match r {
                Ok((name, arguments)) => expected == Ok::<
                    (Seq<char>, JsonModel),
                    ActionRejectionReason,
                >((name@, value_json(arguments))),
                Err(reason) => expected == Err::<(Seq<char>, JsonModel), ActionRejectionReason>(
                    reason,
                ),
            }
        }),
{
    let value = match parsed {
        None => {
            return Err(ActionRejectionReason::MalformedEnvelope);
        },
        Some(value) => value,
    };
    let written = count_members_written(text);
    let unique = match count_keys(value, written) {
        None => false,
        Some(count) => count == written,
    };
    if !unique {
        return Err(ActionRejectionReason::MalformedEnvelope);
    }
    decode_envelope(value)
}

/// Why an output is not read at all, if it is not: only one text that is neither blank nor too
/// long is read.
pub open spec fn unreadable(output: Seq<ModelOutputPart>) -> Option<ActionRejectionReason> {
    if output.len() == 0 {
        Some(ActionRejectionReason::EmptyOutput)
    } else if output.len() > 1 {
        Some(ActionRejectionReason::UnsupportedOutputShape)
    } else if trimmed(output[0].text()).len() == 0 {
        Some(ActionRejectionReason::EmptyOutput)
    } else if utf8_len(output[0].text()) > MAX_PLANNING_RESPONSE_BYTES {
        Some(ActionRejectionReason::ResponseTooLarge)
    } else {
        None
    }
}

/// What a model's output proposes.
pub open spec fn decoded(output: Seq<ModelOutputPart>) -> Result<
    (Seq<char>, JsonModel),
    ActionRejectionReason,
> {
    match unreadable(output) {
        Some(reason) => Err(reason),
        None => match proposed(output[0].text(), parsed_json(output[0].text())) {
            Err(reason) => Err(reason),
            Ok((name, arguments)) => if arguments_fit(arguments, written_json(arguments)) {
                Ok((name, arguments))
            } else {
                Err(ActionRejectionReason::SecurityLimitExceeded)
            },
        },
    }
}

pub struct TextActionDecoder;

impl TextActionDecoder {
    fn decode_output(response: &ModelResponse) -> (r: Result<
        (ToolName, serde_json::Value),
        ActionRejectionReason,
    >)
        ensures
            match r {
                Ok((name, arguments)) => decoded(response.output@) == Ok::<
                    (Seq<char>, JsonModel),
                    ActionRejectionReason,
                >((name@, value_json(arguments))),
                Err(reason) => decoded(response.output@) == Err::<
                    (Seq<char>, JsonModel),
                    ActionRejectionReason,
                >(reason),
            },
    {
        if response.output.len() == 0 {
            return Err(ActionRejectionReason::EmptyOutput);
        }
        if response.output.len() > 1 {
            return Err(ActionRejectionReason::UnsupportedOutputShape);
        }
        let text = match &response.output[0] {
            ModelOutputPart::Text(text) => text.as_str(),
        };
        if trim_text(text).as_str().is_empty() {
            return Err(ActionRejectionReason::EmptyOutput);
        }
        if byte_len(text) > MAX_PLANNING_RESPONSE_BYTES {
            return Err(ActionRejectionReason::ResponseTooLarge);
        }
        let parsed = parse_json(text);
        let (name, arguments) = match decode_parsed(text, &parsed) {
            Ok(action) => action,
            Err(reason) => {
                return Err(reason);
            },
        };
        match validate_argument_limits(&arguments) {
            Ok(()) => Ok((name, arguments)),
            Err(reason) => Err(reason),
        }
    }

    /// Takes the proposed action out of a response.
    pub fn decode(
        response: &ModelResponse,
        proposal_id: ActionProposalId,
        model_call_id: ModelCallId,
    ) -> (r: Result<ActionProposal, ActionValidationError>)
        ensures
            match r {
                Ok(proposal) => {
                    &&& decoded(response.output@) == Ok::<
                        (Seq<char>, JsonModel),
                        ActionRejectionReason,
                    >((proposal.tool_name@, proposal.arguments.json()))
                    &&& proposal.id == proposal_id
                    &&& proposal.source_model_call_id == model_call_id
                },
                Err(error) => {
                    &&& decoded(response.output@) == Err::<
                        (Seq<char>, JsonModel),
                        ActionRejectionReason,
                    >(error.reason)
                    &&& error.proposal_id == proposal_id
                    &&& error.model_call_id == model_call_id
                },
            },
    {
        match TextActionDecoder::decode_output(response) {
            Ok((tool_name, arguments)) => Ok(
                ActionProposal::new(
                    proposal_id,
                    model_call_id,
                    tool_name,
                    ToolInput::new(arguments),
                ),
            ),
            Err(reason) => Err(ActionValidationError::new(proposal_id, model_call_id, reason)),
        }
    }
}

/// An action that is well formed, within the limits and accepted by its tool's schema. It can be
/// used once, and only where it was validated; whether it may be executed is decided later.
pub struct ValidatedAction {
    proposal_id: ActionProposalId,
    tool_name: ToolName,
    arguments: ToolInput,
    capability: CapabilityKind,
    digest: Digest32,
}

/// What a validated action says.
pub struct ActionView {
    pub proposal_id: ActionProposalId,
    pub tool_name: Seq<char>,
    pub arguments: JsonModel,
    pub capability: CapabilityKind,
}

impl View for ValidatedAction {
    type V = ActionView;

    closed spec fn view(&self) -> ActionView {
        ActionView {
            proposal_id: self.proposal_id,
            tool_name: self.tool_name@,
            arguments: self.arguments.json(),
            capability: self.capability,
        }
    }
}

/// The bytes that identify an action.
pub open spec fn action_digest(action: ActionView) -> Seq<u8> {
    sha256(action_content(action.tool_name, action.capability, action.arguments))
}

impl ValidatedAction {
    pub closed spec fn name(self) -> ToolName {
        self.tool_name
    }

    pub closed spec fn identity(self) -> Digest32 {
        self.digest
    }

    #[verifier::type_invariant]
    spec fn identified(self) -> bool {
        self.digest@ == action_digest(self@)
    }

    pub fn proposal_id(&self) -> (r: ActionProposalId)
        ensures
            r == self@.proposal_id,
    {
        self.proposal_id
    }

    pub fn tool_name(&self) -> (r: &ToolName)
        ensures
            *r == self.name(),
            r@ == self@.tool_name,
    {
        &self.tool_name
    }

    pub fn arguments(&self) -> (r: &ToolInput)
        ensures
            r.json() == self@.arguments,
    {
        &self.arguments
    }

    pub fn capability(&self) -> (r: CapabilityKind)
        ensures
            r == self@.capability,
    {
        self.capability
    }

    /// Identifies the tool, its capability and the arguments.
    pub fn digest(&self) -> (r: Digest32)
        ensures
            r == self.identity(),
            r@ == action_digest(self@),
    {
        proof {
            use_type_invariant(self);
        }
        self.digest
    }

    /// What is written of an action for debugging: its proposal and its tool, not its arguments.
    pub fn redacted(&self) -> (r: String)
        ensures
            r@ == "ValidatedAction { proposal_id: ActionProposalId("@ + id_text(
                self@.proposal_id.0,
            ) + "), tool_name: ToolName("@ + quoted_text(self@.tool_name)
                + "), arguments: \"[REDACTED]\" }"@,
    {
        let mut out = "ValidatedAction { proposal_id: ActionProposalId(".to_owned();
        out.append(write_id(self.proposal_id.0).as_str());
        out.append("), tool_name: ToolName(");
        out.append(quoted(self.tool_name.as_str()).as_str());
        out.append("), arguments: \"[REDACTED]\" }");
        out
    }

    pub fn into_tool_call(self, tool_call_id: ToolCallId) -> (r: ToolCall)
        ensures
            r.id == tool_call_id,
            r.tool_name@ == self@.tool_name,
            r.arguments.json() == self@.arguments,
    {
        ToolCall::new(tool_call_id, self.tool_name, self.arguments)
    }

    /// An action whose arguments were opened from a seal and checked again.
    pub(crate) fn from_durable_parts(
        proposal_id: ActionProposalId,
        tool_name: ToolName,
        arguments: ToolInput,
        capability: CapabilityKind,
    ) -> (r: Self)
        ensures
            r@ == (ActionView {
                proposal_id,
                tool_name: tool_name@,
                arguments: arguments.json(),
                capability,
            }),
    {
        let digest = compute_action_digest(&tool_name, capability, arguments.as_value());
        ValidatedAction { proposal_id, tool_name, arguments, capability, digest }
    }
}

/// Why a proposal is refused, if it is.
pub open spec fn proposal_fault(
    tool_name: Seq<char>,
    arguments: JsonModel,
    tools: Seq<BindingView>,
) -> Option<ActionRejectionReason> {
    if utf8_len(tool_name) > MAX_ACTION_TOOL_NAME_BYTES {
        Some(ActionRejectionReason::SecurityLimitExceeded)
    } else if !(arguments is Object) {
        Some(ActionRejectionReason::ArgumentsSchemaMismatch)
    } else if !arguments_fit(arguments, written_json(arguments)) {
        Some(ActionRejectionReason::SecurityLimitExceeded)
    } else {
        match tool_named(tools, tool_name) {
            None => Some(ActionRejectionReason::UnknownTool),
            Some(tool) => if schema_accepts(tool.definition.schema, arguments) {
                None
            } else {
                Some(ActionRejectionReason::ArgumentsSchemaMismatch)
            },
        }
    }
}

pub struct ActionValidator;

impl ActionValidator {
    /// Holds a proposal, wherever it came from, to the limits and to its tool's schema.
    pub fn validate(proposal: ActionProposal, registry: &ToolRegistry) -> (r: Result<
        ValidatedAction,
        ActionValidationError,
    >)
        ensures
            match r {
                Ok(action) => {
                    &&& proposal_fault(proposal.tool_name@, proposal.arguments.json(), registry@)
                        is None
                    &&& action@ == (ActionView {
                        proposal_id: proposal.id,
                        tool_name: proposal.tool_name@,
                        arguments: proposal.arguments.json(),
                        capability: tool_named(
                            registry@,
                            proposal.tool_name@,
                        )->0.definition.capability,
                    })
                },
                Err(error) => {
                    &&& proposal_fault(proposal.tool_name@, proposal.arguments.json(), registry@)
                        == Some(error.reason)
                    &&& error.proposal_id == proposal.id
                    &&& error.model_call_id == proposal.source_model_call_id
                },
            },
    {
        let proposal_id = proposal.id();
        let model_call_id = proposal.source_model_call_id();
        if byte_len(proposal.tool_name.as_str()) > MAX_ACTION_TOOL_NAME_BYTES {
            return Err(
                ActionValidationError::new(
                    proposal_id,
                    model_call_id,
                    ActionRejectionReason::SecurityLimitExceeded,
                ),
            );
        }
        let arguments = proposal.arguments.as_value();
        if !is_object(arguments) {
            return Err(
                ActionValidationError::new(
                    proposal_id,
                    model_call_id,
                    ActionRejectionReason::ArgumentsSchemaMismatch,
                ),
            );
        }
        match validate_argument_limits(arguments) {
            Ok(()) => {},
            Err(reason) => {
                return Err(ActionValidationError::new(proposal_id, model_call_id, reason));
            },
        }
        let binding = match registry.get(&proposal.tool_name) {
            Some(binding) => binding,
            None => {
                return Err(
                    ActionValidationError::new(
                        proposal_id,
                        model_call_id,
                        ActionRejectionReason::UnknownTool,
                    ),
                );
            },
        };
        if !binding.accepts(arguments) {
            return Err(
                ActionValidationError::new(
                    proposal_id,
                    model_call_id,
                    ActionRejectionReason::ArgumentsSchemaMismatch,
                ),
            );
        }
        let capability = binding.definition().capability();
        let digest = compute_action_digest(&proposal.tool_name, capability, arguments);
        Ok(
            ValidatedAction {
                proposal_id,
                tool_name: proposal.tool_name,
                arguments: proposal.arguments,
                capability,
                digest,
            },
        )
    }
}

} // verus!
