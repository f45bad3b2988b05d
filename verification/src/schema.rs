//! Input schemas of tools: the profile that is accepted, and compiling them.

use vstd::prelude::*;

use crate::json::{
    find_member, member_of, members_json, open_value, stays_within, value_json, values_json,
    within_limits, write_json, written_json, JsonLimits, JsonModel, JsonNode,
};
use crate::text::str_equal;

verus! {

pub const MAX_TOOL_SCHEMA_BYTES: usize = 32 * 1024;

pub const MAX_TOOL_SCHEMA_DEPTH: usize = 16;

pub const MAX_TOOL_SCHEMA_KEYS: usize = 256;

#[derive(Clone, Copy, Debug, PartialEq, Eq, Structural)]
pub enum ToolSchemaRegistrationError {
    TooLarge,
    TooComplex,
    UnsupportedProfile,
    CompilationFailed,
}

/// A compiled schema of `jsonschema`.
#[verifier::external_type_specification]
#[verifier::external_body]
pub struct ExValidator(jsonschema::Validator);

/// The schema that a validator was compiled from.
pub uninterp spec fn validator_schema(validator: jsonschema::Validator) -> JsonModel;

/// Whether `jsonschema` compiles a schema under the rules of draft 2020-12.
pub uninterp spec fn schema_compiles(schema: JsonModel) -> bool;

/// Whether the validator that `jsonschema` compiles from a schema accepts an instance.
pub uninterp spec fn schema_accepts(schema: JsonModel, instance: JsonModel) -> bool;

/// Compiles a schema with `jsonschema::draft202012::options().build`. Claimed: whether it
/// compiles depends on the schema alone, and the validator is one for this schema.
#[verifier::external_body]
fn build_validator(schema: &serde_json::Value) -> (r: Option<jsonschema::Validator>)
    ensures
        r is Some <==> schema_compiles(value_json(*schema)),
        r matches Some(validator) ==> validator_schema(validator) == value_json(*schema),
{
    jsonschema::draft202012::options().build(schema).ok()
}

/// Asks `jsonschema::Validator::is_valid`. Claimed: the answer depends on the schema that the
/// validator was compiled from and on the instance alone.
#[verifier::external_body]
pub(crate) fn validator_accepts(
    validator: &jsonschema::Validator,
    instance: &serde_json::Value,
) -> (r: bool)
    ensures
        r == schema_accepts(validator_schema(*validator), value_json(*instance)),
{
    validator.is_valid(instance)
}

pub open spec fn draft_uri() -> Seq<char> {
    "https://json-schema.org/draft/2020-12/schema"@
}

/// The names of the JSON types that a schema may speak of.
pub open spec fn is_type_name(name: Seq<char>) -> bool {
    ||| name == "object"@
    ||| name == "array"@
    ||| name == "string"@
    ||| name == "number"@
    ||| name == "integer"@
    ||| name == "boolean"@
    ||| name == "null"@
}

fn names_type(name: &str) -> (r: bool)
    ensures
        r == is_type_name(name@),
{
    str_equal(name, "object") || str_equal(name, "array") || str_equal(name, "string")
        || str_equal(name, "number") || str_equal(name, "integer") || str_equal(name, "boolean")
        || str_equal(name, "null")
}

/// The keywords whose value is a count.
pub open spec fn is_count_keyword(keyword: Seq<char>) -> bool {
    ||| keyword == "minProperties"@
    ||| keyword == "maxProperties"@
    ||| keyword == "minItems"@
    ||| keyword == "maxItems"@
    ||| keyword == "minLength"@
    ||| keyword == "maxLength"@
}

fn keyword_counts(keyword: &str) -> (r: bool)
    ensures
        r == is_count_keyword(keyword@),
{
    str_equal(keyword, "minProperties") || str_equal(keyword, "maxProperties") || str_equal(
        keyword,
        "minItems",
    ) || str_equal(keyword, "maxItems") || str_equal(keyword, "minLength") || str_equal(
        keyword,
        "maxLength",
    )
}

pub open spec fn unless(ok: bool) -> Option<ToolSchemaRegistrationError> {
    if ok {
        None
    } else {
        Some(ToolSchemaRegistrationError::UnsupportedProfile)
    }
}

fn unsupported_unless(ok: bool) -> (r: Option<ToolSchemaRegistrationError>)
    ensures
        r == unless(ok),
{
    if ok {
        None
    } else {
        Some(ToolSchemaRegistrationError::UnsupportedProfile)
    }
}

/// The root says that it describes an object, and names no other draft; nothing below it names a
/// draft at all.
pub open spec fn head_is_supported(members: Seq<(Seq<char>, JsonModel)>, root: bool) -> bool {
    let draft = member_of(members, "$schema"@);
    if root {
        &&& draft is None || draft == Some(JsonModel::Text(draft_uri()))
        &&& member_of(members, "type"@) == Some(JsonModel::Text("object"@))
    } else {
        draft is None
    }
}

/// Why a schema at this depth is outside the profile, if it is: the first reason in the order in
/// which its members are walked.
pub open spec fn profile_fault(json: JsonModel, root: bool, depth: int) -> Option<
    ToolSchemaRegistrationError,
>
    decreases json, 1int,
{
    if depth > MAX_TOOL_SCHEMA_DEPTH {
        Some(ToolSchemaRegistrationError::TooComplex)
    } else {
        match json {
            JsonModel::Object(members) => if head_is_supported(members, root) {
                members_fault(members, root, depth)
            } else {
                Some(ToolSchemaRegistrationError::UnsupportedProfile)
            },
            _ => Some(ToolSchemaRegistrationError::UnsupportedProfile),
        }
    }
}

pub open spec fn members_fault(members: Seq<(Seq<char>, JsonModel)>, root: bool, depth: int)
    -> Option<ToolSchemaRegistrationError>
    decreases members, 0int,
{
    if members.len() == 0 {
        None
    } else {
        match members_fault(members.drop_last(), root, depth) {
            Some(fault) => Some(fault),
            None => keyword_fault(members.last().0, members.last().1, root, depth),
        }
    }
}

/// Why a keyword with this value is outside the profile, if it is.
pub open spec fn keyword_fault(keyword: Seq<char>, value: JsonModel, root: bool, depth: int)
    -> Option<ToolSchemaRegistrationError>
    decreases value, 2int,
{
    if keyword == "$schema"@ && root {
        None
    } else if keyword == "title"@ || keyword == "description"@ {
        unless(value is Text)
    } else if keyword == "type"@ {
        unless(value matches JsonModel::Text(name) && is_type_name(name))
    } else if keyword == "enum"@ {
        unless(value matches JsonModel::Array(values) && values.len() > 0)
    } else if keyword == "const"@ {
        None
    } else if keyword == "properties"@ {
        match value {
            JsonModel::Object(properties) => properties_fault(properties, depth + 1),
            _ => Some(ToolSchemaRegistrationError::UnsupportedProfile),
        }
    } else if keyword == "required"@ {
        unless(
            value matches JsonModel::Array(values) && forall|i: int|
                0 <= i < values.len() ==> #[trigger] values[i] is Text,
        )
    } else if keyword == "additionalProperties"@ {
        unless(value is Bool)
    } else if is_count_keyword(keyword) {
        unless(value matches JsonModel::Number(_, unsigned) && unsigned is Some)
    } else if keyword == "items"@ {
        profile_fault(value, false, depth + 1)
    } else {
        unless((keyword == "minimum"@ || keyword == "maximum"@) && value is Number)
    }
}

/// The first fault among the schemas of properties.
pub open spec fn properties_fault(properties: Seq<(Seq<char>, JsonModel)>, depth: int) -> Option<
    ToolSchemaRegistrationError,
>
    decreases properties, 0int,
{
    if properties.len() == 0 {
        None
    } else {
        match properties_fault(properties.drop_last(), depth) {
            Some(fault) => Some(fault),
            None => profile_fault(properties.last().1, false, depth),
        }
    }
}

proof fn first_member_fault(
    members: Seq<(Seq<char>, JsonModel)>,
    root: bool,
    depth: int,
    i: int,
)
    requires
        0 <= i < members.len(),
        members_fault(members.take(i), root, depth) is None,
    ensures
        ({
            let fault = keyword_fault(members[i].0, members[i].1, root, depth);
            &&& members_fault(members.take(i + 1), root, depth) == fault
            &&& fault is Some ==> members_fault(members, root, depth) == fault
        }),
    decreases members.len(),
{
    assert(members.take(i + 1).drop_last() =~= members.take(i));
    if i + 1 < members.len() {
        let rest = members.drop_last();
        assert(rest.take(i) =~= members.take(i));
        assert(rest.take(i + 1) =~= members.take(i + 1));
        first_member_fault(rest, root, depth, i);
    } else {
        assert(members.take(i + 1) =~= members);
    }
}

proof fn first_property_fault(properties: Seq<(Seq<char>, JsonModel)>, depth: int, i: int)
    requires
        0 <= i < properties.len(),
        properties_fault(properties.take(i), depth) is None,
    ensures
        ({
            let fault = profile_fault(properties[i].1, false, depth);
            &&& properties_fault(properties.take(i + 1), depth) == fault
            &&& fault is Some ==> properties_fault(properties, depth) == fault
        }),
    decreases properties.len(),
{
    assert(properties.take(i + 1).drop_last() =~= properties.take(i));
    if i + 1 < properties.len() {
        let rest = properties.drop_last();
        assert(rest.take(i) =~= properties.take(i));
        assert(rest.take(i + 1) =~= properties.take(i + 1));
        first_property_fault(rest, depth, i);
    } else {
        assert(properties.take(i + 1) =~= properties);
    }
}

fn is_text(value: &serde_json::Value, expected: &str) -> (r: bool)
    ensures
        r == (value_json(*value) == JsonModel::Text(expected@)),
{
    match open_value(value) {
        JsonNode::Text(text) => str_equal(text.as_str(), expected),
        _ => false,
    }
}

fn check_head(members: &Vec<(&String, &serde_json::Value)>, root: bool) -> (r: bool)
    ensures
        r == head_is_supported(members_json(members@), root),
{
    let draft = find_member(members, "$schema");
    if !root {
        return draft.is_none();
    }
    match draft {
        None => {},
        Some(uri) => {
            if !is_text(uri, "https://json-schema.org/draft/2020-12/schema") {
                return false;
            }
        },
    }
    match find_member(members, "type") {
        None => false,
        Some(kind) => is_text(kind, "object"),
    }
}

fn all_texts(values: &Vec<serde_json::Value>) -> (r: bool)
    ensures
        r == forall|i: int| 0 <= i < values@.len() ==> #[trigger] values_json(values@)[i] is Text,
{
    let ghost all = values_json(values@);
    let mut i: usize = 0;
    while i < values.len()
        invariant
            i <= values.len(),
            all == values_json(values@),
            forall|j: int| 0 <= j < i ==> #[trigger] all[j] is Text,
        decreases values.len() - i,
    {
        if !matches!(open_value(&values[i]), JsonNode::Text(_)) {
            assert(!(all[i as int] is Text));
            return false;
        }
        i = i + 1;
    }
    true
}

fn check_properties(properties: &Vec<(&String, &serde_json::Value)>, depth: usize) -> (r: Option<
    ToolSchemaRegistrationError,
>)
    requires
        depth <= MAX_TOOL_SCHEMA_DEPTH + 1,
    ensures
        r == properties_fault(members_json(properties@), depth as int),
    decreases members_json(properties@), 0int,
{
    let ghost all = members_json(properties@);
    let mut i: usize = 0;
    assert(all.take(0) =~= Seq::empty());
    while i < properties.len()
        invariant
            i <= properties.len() == all.len(),
            depth <= MAX_TOOL_SCHEMA_DEPTH + 1,
            all == members_json(properties@),
            properties_fault(all.take(i as int), depth as int) is None,
        decreases properties.len() - i,
    {
        proof {
            first_property_fault(all, depth as int, i as int);
            assert(decreases_to!(all => all[i as int]));
            assert(decreases_to!(all[i as int] => all[i as int].1));
        }
        let fault = validate_schema_profile(properties[i].1, false, depth);
        if fault.is_some() {
            return fault;
        }
        i = i + 1;
    }
    assert(all.take(i as int) =~= all);
    None
}

fn check_keyword(keyword: &str, value: &serde_json::Value, root: bool, depth: usize) -> (r: Option<
    ToolSchemaRegistrationError,
>)
    requires
        depth <= MAX_TOOL_SCHEMA_DEPTH,
    ensures
        r == keyword_fault(keyword@, value_json(*value), root, depth as int),
    decreases value_json(*value), 2int,
{
    let ghost json = value_json(*value);
    if str_equal(keyword, "$schema") && root {
        return None;
    }
    if str_equal(keyword, "title") || str_equal(keyword, "description") {
        return unsupported_unless(matches!(open_value(value), JsonNode::Text(_)));
    }
    if str_equal(keyword, "type") {
        return match open_value(value) {
            JsonNode::Text(name) => unsupported_unless(names_type(name.as_str())),
            _ => Some(ToolSchemaRegistrationError::UnsupportedProfile),
        };
    }
    if str_equal(keyword, "enum") {
        return match open_value(value) {
            JsonNode::Array(values) => unsupported_unless(values.len() > 0),
            _ => Some(ToolSchemaRegistrationError::UnsupportedProfile),
        };
    }
    if str_equal(keyword, "const") {
        return None;
    }
    if str_equal(keyword, "properties") {
        return match open_value(value) {
            JsonNode::Object(properties) => {
                assert(decreases_to!(json => json->Object_0));
                check_properties(&properties, depth + 1)
            },
            _ => Some(ToolSchemaRegistrationError::UnsupportedProfile),
        };
    }
    if str_equal(keyword, "required") {
        return match open_value(value) {
            JsonNode::Array(values) => unsupported_unless(all_texts(values)),
            _ => Some(ToolSchemaRegistrationError::UnsupportedProfile),
        };
    }
    if str_equal(keyword, "additionalProperties") {
        return unsupported_unless(matches!(open_value(value), JsonNode::Bool(_)));
    }
    if keyword_counts(keyword) {
        return match open_value(value) {
            JsonNode::Number { text: _, unsigned } => unsupported_unless(unsigned.is_some()),
            _ => Some(ToolSchemaRegistrationError::UnsupportedProfile),
        };
    }
    if str_equal(keyword, "items") {
        return validate_schema_profile(value, false, depth + 1);
    }
    if str_equal(keyword, "minimum") || str_equal(keyword, "maximum") {
        return unsupported_unless(matches!(open_value(value), JsonNode::Number { .. }));
    }
    Some(ToolSchemaRegistrationError::UnsupportedProfile)
}

/// Why a schema at this depth is outside the profile, if it is.
fn validate_schema_profile(schema: &serde_json::Value, root: bool, depth: usize) -> (r: Option<
    ToolSchemaRegistrationError,
>)
    requires
        depth <= MAX_TOOL_SCHEMA_DEPTH + 1,
    ensures
        r == profile_fault(value_json(*schema), root, depth as int),
    decreases value_json(*schema), 1int,
{
    if depth > MAX_TOOL_SCHEMA_DEPTH {
        return Some(ToolSchemaRegistrationError::TooComplex);
    }
    let ghost json = value_json(*schema);
    let members = match open_value(schema) {
        JsonNode::Object(members) => members,
        _ => {
            return Some(ToolSchemaRegistrationError::UnsupportedProfile);
        },
    };
    let ghost all = members_json(members@);
    if !check_head(&members, root) {
        return Some(ToolSchemaRegistrationError::UnsupportedProfile);
    }
    let mut i: usize = 0;
    assert(all.take(0) =~= Seq::empty());
    while i < members.len()
        invariant
            i <= members.len() == all.len(),
            depth <= MAX_TOOL_SCHEMA_DEPTH,
            all == members_json(members@),
            json == value_json(*schema),
            json == JsonModel::Object(all),
            head_is_supported(all, root),
            members_fault(all.take(i as int), root, depth as int) is None,
        decreases members.len() - i,
    {
        proof {
            first_member_fault(all, root, depth as int, i as int);
            let member = json->Object_0[i as int];
            assert(decreases_to!(json => json->Object_0));
            assert(decreases_to!(json->Object_0 => member));
            assert(decreases_to!(member => member.1));
        }
        let fault = check_keyword(members[i].0.as_str(), members[i].1, root, depth);
        if fault.is_some() {
            return fault;
        }
        i = i + 1;
    }
    assert(all.take(i as int) =~= all);
    None
}

pub open spec fn schema_limits() -> JsonLimits {
    JsonLimits {
        depth: Some(MAX_TOOL_SCHEMA_DEPTH),
        keys: MAX_TOOL_SCHEMA_KEYS,
        elements: None,
        nodes: None,
    }
}

/// Why a schema is refused, if it is.
pub open spec fn schema_fault(schema: JsonModel) -> Option<ToolSchemaRegistrationError> {
    match written_json(schema) {
        None => Some(ToolSchemaRegistrationError::CompilationFailed),
        Some(bytes) => if bytes.len() > MAX_TOOL_SCHEMA_BYTES {
            Some(ToolSchemaRegistrationError::TooLarge)
        } else if !within_limits(schema, schema_limits()) {
            Some(ToolSchemaRegistrationError::TooComplex)
        } else {
            match profile_fault(schema, true, 1) {
                Some(fault) => Some(fault),
                None => if schema_compiles(schema) {
                    None
                } else {
                    Some(ToolSchemaRegistrationError::CompilationFailed)
                },
            }
        },
    }
}

/// Why a schema is refused before it is compiled, given the bytes that it is written as.
pub fn check_schema(schema: &serde_json::Value, written: &Option<Vec<u8>>) -> (r: Option<
    ToolSchemaRegistrationError,
>)
    ensures
        r == (match *written {
            None => Some(ToolSchemaRegistrationError::CompilationFailed),
            Some(bytes) => if bytes@.len() > MAX_TOOL_SCHEMA_BYTES {
                Some(ToolSchemaRegistrationError::TooLarge)
            } else if !within_limits(value_json(*schema), schema_limits()) {
                Some(ToolSchemaRegistrationError::TooComplex)
            } else {
                profile_fault(value_json(*schema), true, 1)
            },
        }),
{
    let bytes = match written {
        None => {
            return Some(ToolSchemaRegistrationError::CompilationFailed);
        },
        Some(bytes) => bytes,
    };
    if bytes.len() > MAX_TOOL_SCHEMA_BYTES {
        return Some(ToolSchemaRegistrationError::TooLarge);
    }
    let limits = JsonLimits {
        depth: Some(MAX_TOOL_SCHEMA_DEPTH),
        keys: MAX_TOOL_SCHEMA_KEYS,
        elements: None,
        nodes: None,
    };
    if !stays_within(schema, limits) {
        return Some(ToolSchemaRegistrationError::TooComplex);
    }
    validate_schema_profile(schema, true, 1)
}

/// Compiles a schema that is within the limits and the profile.
pub fn compile_tool_schema(schema: &serde_json::Value) -> (r: Result<
    jsonschema::Validator,
    ToolSchemaRegistrationError,
>)
    ensures
        match r {
            Ok(validator) => schema_fault(value_json(*schema)) is None && validator_schema(
                validator,
            ) == value_json(*schema),
            Err(error) => schema_fault(value_json(*schema)) == Some(error),
        },
{
    let written = write_json(schema);
    match check_schema(schema, &written) {
        Some(error) => {
            return Err(error);
        },
        None => {},
    }
    match build_validator(schema) {
        Some(validator) => Ok(validator),
        None => Err(ToolSchemaRegistrationError::CompilationFailed),
    }
}

} // verus!
