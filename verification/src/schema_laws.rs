//! Which schemas a tool may be registered with.

use vstd::prelude::*;

use crate::json::{counts, depth, member_of, written_json, JsonModel};
use crate::schema::{
    keyword_fault, members_fault, profile_fault, properties_fault, schema_compiles, schema_fault,
    ToolSchemaRegistrationError,
};

verus! {

/// The members of a schema are within the profile exactly where each of them is.
pub proof fn law_every_member_is_looked_at(
    members: Seq<(Seq<char>, JsonModel)>,
    root: bool,
    level: int,
)
    ensures
        members_fault(members, root, level) is None <==> forall|i: int|
            0 <= i < members.len() ==> keyword_fault(
                (#[trigger] members[i]).0,
                members[i].1,
                root,
                level,
            ) is None,
    decreases members.len(),
{
    if members.len() > 0 {
        let init = members.drop_last();
        law_every_member_is_looked_at(init, root, level);
        assert(members[members.len() - 1] == members.last());
        if members_fault(init, root, level) is None {
            assert forall|i: int| 0 <= i < members.len() - 1 implies keyword_fault(
                (#[trigger] members[i]).0,
                members[i].1,
                root,
                level,
            ) is None by {
                assert(init[i] == members[i]);
            }
        } else {
            let i = choose|i: int|
                0 <= i < init.len() && keyword_fault(
                    (#[trigger] init[i]).0,
                    init[i].1,
                    root,
                    level,
                ) is Some;
            assert(init[i] == members[i]);
        }
    }
}

/// The schemas of properties are within the profile exactly where each of them is.
pub proof fn law_every_property_is_looked_at(properties: Seq<(Seq<char>, JsonModel)>, level: int)
    ensures
        properties_fault(properties, level) is None <==> forall|i: int|
            0 <= i < properties.len() ==> profile_fault(
                (#[trigger] properties[i]).1,
                false,
                level,
            ) is None,
    decreases properties.len(),
{
    if properties.len() > 0 {
        let init = properties.drop_last();
        law_every_property_is_looked_at(init, level);
        assert(properties[properties.len() - 1] == properties.last());
        if properties_fault(init, level) is None {
            assert forall|i: int| 0 <= i < properties.len() - 1 implies profile_fault(
                (#[trigger] properties[i]).1,
                false,
                level,
            ) is None by {
                assert(init[i] == properties[i]);
            }
        } else {
            let i = choose|i: int|
                0 <= i < init.len() && profile_fault((#[trigger] init[i]).1, false, level) is Some;
            assert(init[i] == properties[i]);
        }
    }
}

/// A schema within the profile is an object, no deeper than sixteen levels, each of whose members
/// is within the profile. At the root it says that it describes an object and names draft 2020-12
/// or none; below the root it names no draft.
pub proof fn law_schema_in_profile(json: JsonModel, root: bool, level: int)
    ensures
        profile_fault(json, root, level) is None <==> {
            &&& level <= 16
            &&& json matches JsonModel::Object(members) && {
                &&& root ==> member_of(members, "type"@) == Some(JsonModel::Text("object"@))
                &&& root ==> (member_of(members, "$schema"@) is None || member_of(
                    members,
                    "$schema"@,
                ) == Some(JsonModel::Text("https://json-schema.org/draft/2020-12/schema"@)))
                &&& !root ==> member_of(members, "$schema"@) is None
                &&& forall|i: int|
                    0 <= i < members.len() ==> keyword_fault(
                        (#[trigger] members[i]).0,
                        members[i].1,
                        root,
                        level,
                    ) is None
            }
        },
        level > 16 ==> profile_fault(json, root, level) == Some(
            ToolSchemaRegistrationError::TooComplex,
        ),
        level <= 16 && !(json is Object) ==> profile_fault(json, root, level) == Some(
            ToolSchemaRegistrationError::UnsupportedProfile,
        ),
{
    if let JsonModel::Object(members) = json {
        law_every_member_is_looked_at(members, root, level);
    }
}

/// The keywords of the profile, all different.
proof fn keywords_differ()
    ensures
        "type"@ != "$schema"@ && "type"@ != "title"@ && "type"@ != "description"@,
        "enum"@ != "$schema"@ && "enum"@ != "title"@ && "enum"@ != "description"@ && "enum"@
            != "type"@,
        "title"@ != "$schema"@,
        "description"@ != "$schema"@,
        "const"@ != "$schema"@ && "const"@ != "title"@ && "const"@ != "description"@ && "const"@
            != "type"@ && "const"@ != "enum"@,
        "items"@ != "$schema"@ && "items"@ != "title"@ && "items"@ != "description"@ && "items"@
            != "type"@ && "items"@ != "enum"@ && "items"@ != "const"@,
        "properties"@ != "$schema"@ && "properties"@ != "title"@ && "properties"@
            != "description"@ && "properties"@ != "type"@ && "properties"@ != "enum"@
            && "properties"@ != "const"@,
        "required"@ != "$schema"@ && "required"@ != "title"@ && "required"@ != "description"@
            && "required"@ != "type"@ && "required"@ != "enum"@ && "required"@ != "const"@
            && "required"@ != "properties"@,
        "additionalProperties"@ != "$schema"@ && "additionalProperties"@ != "title"@
            && "additionalProperties"@ != "description"@ && "additionalProperties"@ != "type"@
            && "additionalProperties"@ != "enum"@ && "additionalProperties"@ != "const"@
            && "additionalProperties"@ != "properties"@ && "additionalProperties"@
            != "required"@,
        "items"@ != "properties"@ && "items"@ != "required"@ && "items"@
            != "additionalProperties"@,
{
    reveal_strlit("type");
    reveal_strlit("$schema");
    reveal_strlit("title");
    reveal_strlit("description");
    reveal_strlit("enum");
    reveal_strlit("const");
    reveal_strlit("items");
    reveal_strlit("properties");
    reveal_strlit("required");
    reveal_strlit("additionalProperties");
    assert("$schema"@[0] == '$');
    assert("type"@[0] == 't' && "type"@[1] == 'y');
    assert("title"@[0] == 't' && "title"@[1] == 'i');
    assert("description"@[0] == 'd');
    assert("enum"@[0] == 'e');
    assert("const"@[0] == 'c');
    assert("items"@[0] == 'i');
    assert("properties"@[0] == 'p');
    assert("required"@[0] == 'r');
    assert("additionalProperties"@[0] == 'a');
}

/// The keywords that describe: a type is one of the seven that JSON has, a title and a description
/// are texts, an enumeration is not empty, a constant is anything.
pub proof fn law_describing_keywords(value: JsonModel, root: bool, level: int)
    ensures
        keyword_fault("type"@, value, root, level) is None <==> (value == JsonModel::Text("object"@)
            || value == JsonModel::Text("array"@) || value == JsonModel::Text("string"@) || value
            == JsonModel::Text("number"@) || value == JsonModel::Text("integer"@) || value
            == JsonModel::Text("boolean"@) || value == JsonModel::Text("null"@)),
        keyword_fault("title"@, value, root, level) is None <==> value is Text,
        keyword_fault("description"@, value, root, level) is None <==> value is Text,
        keyword_fault("enum"@, value, root, level) is None <==> (value matches JsonModel::Array(
            values,
        ) && values.len() > 0),
        keyword_fault("const"@, value, root, level) is None,
        keyword_fault("$schema"@, value, true, level) is None,
{
    keywords_differ();
}

/// The keywords that structure: the schemas of properties and of items lie one level deeper and
/// are within the profile themselves; what is required is a list of texts; whether there may be
/// other properties is said by yes or no.
pub proof fn law_structuring_keywords(value: JsonModel, root: bool, level: int)
    ensures
        keyword_fault("properties"@, value, root, level) is None <==> (
        value matches JsonModel::Object(properties) && forall|i: int|
            0 <= i < properties.len() ==> profile_fault(
                (#[trigger] properties[i]).1,
                false,
                level + 1,
            ) is None),
        keyword_fault("items"@, value, root, level) == profile_fault(value, false, level + 1),
        keyword_fault("required"@, value, root, level) is None <==> (
        value matches JsonModel::Array(values) && forall|i: int|
            0 <= i < values.len() ==> #[trigger] values[i] is Text),
        keyword_fault("additionalProperties"@, value, root, level) is None <==> value is Bool,
{
    keywords_differ();
    if let JsonModel::Object(properties) = value {
        law_every_property_is_looked_at(properties, level + 1);
    }
    reveal_strlit("items");
    reveal_strlit("minProperties");
    reveal_strlit("maxProperties");
    reveal_strlit("minItems");
    reveal_strlit("maxItems");
    reveal_strlit("minLength");
    reveal_strlit("maxLength");
    assert("items"@.len() == 5);
}

/// The keywords that bound: counts are whole numbers that are not negative, and the bounds of a
/// value are numbers.
pub proof fn law_bounding_keywords(keyword: Seq<char>, value: JsonModel, root: bool, level: int)
    ensures
        keyword == "minProperties"@ || keyword == "maxProperties"@ || keyword == "minItems"@
            || keyword == "maxItems"@ || keyword == "minLength"@ || keyword == "maxLength"@ ==> (
        keyword_fault(keyword, value, root, level) is None <==> (value matches JsonModel::Number(
            _,
            unsigned,
        ) && unsigned is Some)),
        keyword == "minimum"@ || keyword == "maximum"@ ==> (keyword_fault(
            keyword,
            value,
            root,
            level,
        ) is None <==> value is Number),
{
    reveal_strlit("type");
    reveal_strlit("$schema");
    reveal_strlit("title");
    reveal_strlit("description");
    reveal_strlit("enum");
    reveal_strlit("const");
    reveal_strlit("items");
    reveal_strlit("properties");
    reveal_strlit("required");
    reveal_strlit("additionalProperties");
    reveal_strlit("minProperties");
    reveal_strlit("maxProperties");
    reveal_strlit("minItems");
    reveal_strlit("maxItems");
    reveal_strlit("minLength");
    reveal_strlit("maxLength");
    reveal_strlit("minimum");
    reveal_strlit("maximum");
    assert("$schema"@[0] == '$' && "type"@[0] == 't' && "title"@[0] == 't' && "enum"@[0] == 'e');
    assert("description"@[0] == 'd' && "const"@[0] == 'c' && "items"@[0] == 'i');
    assert("properties"@[0] == 'p' && "required"@[0] == 'r');
    assert("additionalProperties"@[0] == 'a');
    assert("minProperties"@[0] == 'm' && "maxProperties"@[0] == 'm' && "minItems"@[0] == 'm');
    assert("maxItems"@[0] == 'm' && "minLength"@[0] == 'm' && "maxLength"@[0] == 'm');
    assert("minimum"@[0] == 'm' && "maximum"@[0] == 'm');
    assert("minimum"@.len() == 7 && "maximum"@.len() == 7);
    assert("minItems"@.len() == 8 && "maxItems"@.len() == 8);
}

/// A keyword that the profile does not know is refused, and so is a draft below the root.
pub proof fn law_unknown_keyword_is_refused(
    keyword: Seq<char>,
    value: JsonModel,
    root: bool,
    level: int,
)
    requires
        keyword == "$schema"@ ==> !root,
        keyword != "type"@ && keyword != "title"@ && keyword != "description"@,
        keyword != "enum"@ && keyword != "const"@ && keyword != "properties"@,
        keyword != "required"@ && keyword != "additionalProperties"@ && keyword != "items"@,
        keyword != "minProperties"@ && keyword != "maxProperties"@ && keyword != "minItems"@,
        keyword != "maxItems"@ && keyword != "minLength"@ && keyword != "maxLength"@,
        keyword != "minimum"@ && keyword != "maximum"@,
    ensures
        keyword_fault(keyword, value, root, level) == Some(
            ToolSchemaRegistrationError::UnsupportedProfile,
        ),
{
}

/// A tool's schema is accepted exactly where it is written in 32768 bytes at most, nests sixteen
/// deep at most, has 256 members at most, is within the profile, and compiles; and each refusal
/// says which of these is missing.
pub proof fn law_schema_is_accepted(schema: JsonModel)
    ensures
        ({
            let small = written_json(schema) matches Some(bytes) && bytes.len() <= 32768;
            let simple = depth(schema) <= 16 && counts(schema).keys <= 256;
            let known = profile_fault(schema, true, 1) is None;
            &&& schema_fault(schema) is None <==> small && simple && known && schema_compiles(
                schema,
            )
            &&& (written_json(schema) matches Some(bytes) && bytes.len() > 32768) ==> schema_fault(
                schema,
            ) == Some(ToolSchemaRegistrationError::TooLarge)
            &&& small && !simple ==> schema_fault(schema) == Some(
                ToolSchemaRegistrationError::TooComplex,
            )
            &&& small && simple && !known ==> schema_fault(schema) == profile_fault(schema, true, 1)
            &&& small && simple && known && !schema_compiles(schema) ==> schema_fault(schema)
                == Some(ToolSchemaRegistrationError::CompilationFailed)
        }),
{
}

} // verus!
