//! Tools: what they are called with, how they are described, and the registry of them.

use vstd::prelude::*;

use crate::digest::{append_framed, framed, sha256, Digest32};
use crate::events::CapabilityKind;
use crate::ids::{ToolCallId, ToolName};
use crate::json::{is_object, value_json, write_json, written_json, JsonModel};
use crate::schema::{
    compile_tool_schema, schema_accepts, schema_fault, validator_accepts, validator_schema,
    ToolSchemaRegistrationError,
};
use crate::text::{trim_text, trimmed};

verus! {

/// The arguments of a tool call. They are not for logs.
pub struct ToolInput {
    value: serde_json::Value,
}

impl ToolInput {
    pub closed spec fn json(self) -> JsonModel {
        value_json(self.value)
    }

    pub fn new(value: serde_json::Value) -> (r: Self)
        ensures
            r.json() == value_json(value),
    {
        ToolInput { value }
    }

    pub fn as_value(&self) -> (r: &serde_json::Value)
        ensures
            value_json(*r) == self.json(),
    {
        &self.value
    }
}

pub struct ToolCall {
    pub id: ToolCallId,
    pub tool_name: ToolName,
    pub arguments: ToolInput,
}

impl ToolCall {
    pub fn new(id: ToolCallId, tool_name: ToolName, arguments: ToolInput) -> (r: Self)
        ensures
            r == (ToolCall { id, tool_name, arguments }),
    {
        ToolCall { id, tool_name, arguments }
    }
}

#[derive(Clone, Copy, Debug, PartialEq, Eq, Structural)]
pub enum ToolDefinitionError {
    SchemaNotAnObject,
    EmptyDescription,
}

/// The schema of a tool's arguments.
pub struct ToolSchema {
    value: serde_json::Value,
}

impl ToolSchema {
    pub closed spec fn json(self) -> JsonModel {
        value_json(self.value)
    }

    pub fn new(value: serde_json::Value) -> (r: Result<Self, ToolDefinitionError>)
        ensures
            match r {
                Ok(schema) => value_json(value) is Object && schema.json() == value_json(value),
                Err(error) => !(value_json(value) is Object) && error
                    == ToolDefinitionError::SchemaNotAnObject,
            },
    {
        if is_object(&value) {
            Ok(ToolSchema { value })
        } else {
            Err(ToolDefinitionError::SchemaNotAnObject)
        }
    }

    pub fn as_value(&self) -> (r: &serde_json::Value)
        ensures
            value_json(*r) == self.json(),
    {
        &self.value
    }
}

/// What a tool says of itself.
pub struct ToolDefinition {
    name: ToolName,
    description: String,
    capability: CapabilityKind,
    schema: ToolSchema,
}

/// What a definition says.
#[verifier::ext_equal]
pub struct DefinitionView {
    pub name: Seq<char>,
    pub description: Seq<char>,
    pub capability: CapabilityKind,
    pub schema: JsonModel,
}

impl View for ToolDefinition {
    type V = DefinitionView;

    closed spec fn view(&self) -> DefinitionView {
        DefinitionView {
            name: self.name@,
            description: self.description@,
            capability: self.capability,
            schema: self.schema.json(),
        }
    }
}

impl ToolDefinition {
    pub fn new(
        name: ToolName,
        description: String,
        capability: CapabilityKind,
        schema: ToolSchema,
    ) -> (r: Result<Self, ToolDefinitionError>)
        ensures
            match r {
                Ok(definition) => trimmed(description@).len() > 0 && definition@ == (
                DefinitionView {
                    name: name@,
                    description: description@,
                    capability,
                    schema: schema.json(),
                }),
                Err(error) => trimmed(description@).len() == 0 && error
                    == ToolDefinitionError::EmptyDescription,
            },
    {
        if trim_text(description.as_str()).as_str().is_empty() {
            return Err(ToolDefinitionError::EmptyDescription);
        }
        Ok(ToolDefinition { name, description, capability, schema })
    }

    pub fn name(&self) -> (r: &ToolName)
        ensures
            r@ == self@.name,
    {
        &self.name
    }

    pub fn description(&self) -> (r: &str)
        ensures
            r@ == self@.description,
    {
        self.description.as_str()
    }

    pub fn capability(&self) -> (r: CapabilityKind)
        ensures
            r == self@.capability,
    {
        self.capability
    }

    pub fn schema(&self) -> (r: &ToolSchema)
        ensures
            r.json() == self@.schema,
    {
        &self.schema
    }
}

/// How a registered tool is executed.
#[derive(Clone, Copy, Debug, PartialEq, Eq, Structural)]
pub enum ExecutionKind {
    Direct,
    ManagedDirect,
    Contained,
}

/// The byte that stands for a capability in a digest.
pub open spec fn capability_code(capability: CapabilityKind) -> u8 {
    match capability {
        CapabilityKind::ReadOnly => 0,
        CapabilityKind::LocalWrite => 1,
        CapabilityKind::ExternalWrite => 2,
        CapabilityKind::Privileged => 3,
    }
}

pub fn code_of_capability(capability: CapabilityKind) -> (r: u8)
    ensures
        r == capability_code(capability),
{
    match capability {
        CapabilityKind::ReadOnly => 0,
        CapabilityKind::LocalWrite => 1,
        CapabilityKind::ExternalWrite => 2,
        CapabilityKind::Privileged => 3,
    }
}

/// The bytes that stand for a JSON value in a digest.
pub open spec fn digested_json(json: JsonModel) -> Seq<u8> {
    match written_json(json) {
        Some(bytes) => bytes,
        None => Seq::empty(),
    }
}

fn bytes_for_digest(value: &serde_json::Value) -> (r: Vec<u8>)
    ensures
        r@ == digested_json(value_json(*value)),
{
    match write_json(value) {
        Some(bytes) => bytes,
        None => Vec::new(),
    }
}

/// What is hashed to identify an action: the tool, its capability and the arguments.
pub open spec fn action_content(
    tool_name: Seq<char>,
    capability: CapabilityKind,
    arguments: JsonModel,
) -> Seq<u8> {
    framed(vstd::utf8::encode_utf8(tool_name)) + seq![capability_code(capability)] + framed(
        digested_json(arguments),
    )
}

/// Identifies an action.
pub fn compute_action_digest(
    tool_name: &ToolName,
    capability: CapabilityKind,
    arguments: &serde_json::Value,
) -> (r: Digest32)
    ensures
        r@ == sha256(action_content(tool_name@, capability, value_json(*arguments))),
{
    let mut content: Vec<u8> = Vec::new();
    append_framed(tool_name.as_str().as_bytes(), &mut content);
    content.push(code_of_capability(capability));
    let written = bytes_for_digest(arguments);
    append_framed(written.as_slice(), &mut content);
    assert(content@ =~= action_content(tool_name@, capability, value_json(*arguments)));
    Digest32::of(content.as_slice())
}

/// What is hashed to identify what a tool promises.
pub open spec fn contract_content(definition: DefinitionView) -> Seq<u8> {
    framed(vstd::utf8::encode_utf8(definition.name)) + framed(
        vstd::utf8::encode_utf8(definition.description),
    ) + seq![capability_code(definition.capability)] + framed(digested_json(definition.schema))
}

/// Identifies what a tool promises.
pub fn compute_tool_contract_digest(definition: &ToolDefinition) -> (r: Digest32)
    ensures
        r@ == sha256(contract_content(definition@)),
{
    let mut content: Vec<u8> = Vec::new();
    append_framed(definition.name.as_str().as_bytes(), &mut content);
    append_framed(definition.description.as_str().as_bytes(), &mut content);
    content.push(code_of_capability(definition.capability));
    let written = bytes_for_digest(definition.schema.as_value());
    append_framed(written.as_slice(), &mut content);
    assert(content@ =~= contract_content(definition@));
    Digest32::of(content.as_slice())
}

/// A registered tool.
pub struct ToolBinding {
    definition: ToolDefinition,
    validator: jsonschema::Validator,
    execution: ExecutionKind,
}

/// What a registered tool says of itself and how it is executed.
#[verifier::ext_equal]
pub struct BindingView {
    pub definition: DefinitionView,
    pub execution: ExecutionKind,
}

impl View for ToolBinding {
    type V = BindingView;

    closed spec fn view(&self) -> BindingView {
        BindingView { definition: self.definition@, execution: self.execution }
    }
}

impl ToolBinding {
    /// The validator is one for the schema of the definition.
    #[verifier::type_invariant]
    spec fn fits(self) -> bool {
        validator_schema(self.validator) == self.definition@.schema
    }

    pub fn definition(&self) -> (r: &ToolDefinition)
        ensures
            r@ == self@.definition,
    {
        &self.definition
    }

    pub fn execution(&self) -> (r: ExecutionKind)
        ensures
            r == self@.execution,
    {
        self.execution
    }

    pub fn validator(&self) -> (r: &jsonschema::Validator)
        ensures
            validator_schema(*r) == self@.definition.schema,
    {
        proof {
            use_type_invariant(self);
        }
        &self.validator
    }

    /// Whether the tool's schema accepts the arguments.
    pub fn accepts(&self, arguments: &serde_json::Value) -> (r: bool)
        ensures
            r == schema_accepts(self@.definition.schema, value_json(*arguments)),
    {
        proof {
            use_type_invariant(self);
        }
        validator_accepts(&self.validator, arguments)
    }
}

#[derive(Clone, Debug, PartialEq, Eq)]
pub enum ToolRegistryError {
    DuplicateName { name: ToolName },
    InvalidInputSchema { name: ToolName, reason: ToolSchemaRegistrationError },
}

/// The tools that are registered, each under its own name.
pub struct ToolRegistry {
    tools: Vec<ToolBinding>,
}

/// The tool of a name among tools.
pub open spec fn tool_named(tools: Seq<BindingView>, name: Seq<char>) -> Option<BindingView>
    decreases tools.len(),
{
    if tools.len() == 0 {
        None
    } else if tools.last().definition.name == name {
        Some(tools.last())
    } else {
        tool_named(tools.drop_last(), name)
    }
}

impl View for ToolRegistry {
    type V = Seq<BindingView>;

    closed spec fn view(&self) -> Seq<BindingView> {
        Seq::new(self.tools@.len(), |i: int| self.tools@[i]@)
    }
}

/// No two tools have the same name.
pub open spec fn names_differ(tools: Seq<BindingView>) -> bool {
    forall|i: int, j: int|
        0 <= i < j < tools.len() ==> (#[trigger] tools[i]).definition.name != (
        #[trigger] tools[j]).definition.name
}

proof fn unnamed(tools: Seq<BindingView>, name: Seq<char>)
    requires
        tool_named(tools, name) is None,
    ensures
        forall|i: int| 0 <= i < tools.len() ==> (#[trigger] tools[i]).definition.name != name,
    decreases tools.len(),
{
    if tools.len() > 0 {
        unnamed(tools.drop_last(), name);
        assert forall|i: int| 0 <= i < tools.len() implies (#[trigger] tools[i]).definition.name
            != name by {
            if i < tools.len() - 1 {
                assert(tools.drop_last()[i] == tools[i]);
            }
        }
    }
}

impl ToolRegistry {
    #[verifier::type_invariant]
    spec fn distinct(self) -> bool {
        names_differ(self@)
    }

    pub fn new() -> (r: Self)
        ensures
            r@ == Seq::<BindingView>::empty(),
    {
        let r = ToolRegistry { tools: Vec::new() };
        assert(r@ =~= Seq::empty());
        r
    }

    /// Registers a tool whose name is free and whose schema is accepted.
    pub fn register(&mut self, definition: ToolDefinition, execution: ExecutionKind) -> (r: Result<
        (),
        ToolRegistryError,
    >)
        ensures
            names_differ(final(self)@),
            match r {
                Ok(_) => {
                    &&& tool_named(old(self)@, definition@.name) is None
                    &&& schema_fault(definition@.schema) is None
                    &&& final(self)@ == old(self)@.push(
                        BindingView { definition: definition@, execution },
                    )
                },
                Err(ToolRegistryError::DuplicateName { name }) => {
                    &&& tool_named(old(self)@, definition@.name) is Some
                    &&& name@ == definition@.name
                    &&& final(self)@ == old(self)@
                },
                Err(ToolRegistryError::InvalidInputSchema { name, reason }) => {
                    &&& tool_named(old(self)@, definition@.name) is None
                    &&& schema_fault(definition@.schema) == Some(reason)
                    &&& name@ == definition@.name
                    &&& final(self)@ == old(self)@
                },
            },
    {
        proof {
            use_type_invariant(&*self);
        }
        let name = definition.name.clone();
        if self.get(&name).is_some() {
            return Err(ToolRegistryError::DuplicateName { name });
        }
        let validator = match compile_tool_schema(definition.schema.as_value()) {
            Ok(validator) => validator,
            Err(reason) => {
                return Err(ToolRegistryError::InvalidInputSchema { name, reason });
            },
        };
        let ghost before = self@;
        proof {
            unnamed(before, definition@.name);
        }
        let binding = ToolBinding { definition, validator, execution };
        let mut tools: Vec<ToolBinding> = Vec::new();
        std::mem::swap(&mut tools, &mut self.tools);
        tools.push(binding);
        let ghost after = Seq::new(tools@.len(), |i: int| tools@[i]@);
        assert(after =~= before.push(binding@));
        self.tools = tools;
        Ok(())
    }

    /// The tool of exactly this name.
    pub fn get(&self, name: &ToolName) -> (r: Option<&ToolBinding>)
        ensures
            match r {
                Some(binding) => tool_named(self@, name@) == Some(binding@),
                None => tool_named(self@, name@) is None,
            },
    {
        let mut i: usize = self.tools.len();
        assert(self@.take(i as int) =~= self@);
        while i > 0
            invariant
                i <= self.tools@.len() == self@.len(),
                tool_named(self@, name@) == tool_named(self@.take(i as int), name@),
            decreases i,
        {
            proof {
                assert(self@.take(i as int).last() == self.tools@[i - 1]@);
                assert(self@.take(i as int).drop_last() =~= self@.take(i - 1));
            }
            if self.tools[i - 1].definition.name == *name {
                return Some(&self.tools[i - 1]);
            }
            i = i - 1;
        }
        None
    }

    pub fn len(&self) -> (r: usize)
        ensures
            r == self@.len(),
    {
        self.tools.len()
    }

    pub fn is_empty(&self) -> (r: bool)
        ensures
            r == (self@.len() == 0),
    {
        self.tools.len() == 0
    }
}

impl Default for ToolRegistry {
    fn default() -> (r: Self)
        ensures
            r@ == Seq::<BindingView>::empty(),
    {
        ToolRegistry::new()
    }
}

} // verus!
