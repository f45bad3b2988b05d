//! What a model's output proposes, and which proposals become actions.

use vstd::prelude::*;
use vstd::utf8::encode_utf8;

use crate::action::{
    arguments_fit, decoded, keys_are_unique, lexis_at_end, members_written, opened_envelope,
    proposal_fault, unreadable, Lexis,
};
use crate::events::ActionRejectionReason;
use crate::ids::valid_tool_name;
use crate::json::{
    counts, depth, larger, member_counts, member_depth, member_of, parsed_json, value_counts,
    value_depth, written_json, JsonModel,
};
use crate::model::ModelOutputPart;
use crate::schema::schema_accepts;
use crate::text::trimmed;
use crate::tools::{names_differ, tool_named, BindingView};

verus! {

/// What is under a key of an object is the value of the first member with that key, and nothing is
/// under a key that no member has.
pub proof fn law_member_is_the_first_of_its_key(
    members: Seq<(Seq<char>, JsonModel)>,
    key: Seq<char>,
    at: int,
)
    requires
        0 <= at <= members.len(),
        forall|i: int| 0 <= i < at ==> (#[trigger] members[i]).0 != key,
    ensures
        at < members.len() && members[at].0 == key ==> member_of(members, key) == Some(
            members[at].1,
        ),
        at == members.len() ==> member_of(members, key) is None,
    decreases members.len(),
{
    if members.len() > 0 && at > 0 {
        assert(members[0].0 != key);
        let rest = members.drop_first();
        assert forall|i: int| 0 <= i < at - 1 implies (#[trigger] rest[i]).0 != key by {
            assert(rest[i] == members[i + 1]);
        }
        law_member_is_the_first_of_its_key(rest, key, at - 1);
        if at < members.len() {
            assert(rest[at - 1] == members[at]);
        }
    }
}

/// An envelope of an action: one member, which names the tool and gives the arguments.
pub open spec fn envelope(name: Seq<char>, arguments: JsonModel, tool_first: bool) -> JsonModel {
    let tool = ("tool"@, JsonModel::Text(name));
    let given = ("arguments"@, arguments);
    JsonModel::Object(
        seq![
            (
                "action"@,
                JsonModel::Object(
                    if tool_first {
                        seq![tool, given]
                    } else {
                        seq![given, tool]
                    },
                ),
            ),
        ],
    )
}

/// What is put into an envelope is what is taken out of it, whichever member comes first: the tool
/// by its name, where that is a name of 128 bytes at most, and arguments that are an object.
pub proof fn law_envelope_gives_back_what_it_holds(
    name: Seq<char>,
    arguments: JsonModel,
    tool_first: bool,
)
    ensures
        ({
            let opened = opened_envelope(envelope(name, arguments, tool_first));
            &&& !(arguments is Object) ==> opened == Err::<
                (Seq<char>, JsonModel),
                ActionRejectionReason,
            >(ActionRejectionReason::MalformedEnvelope)
            &&& arguments is Object && encode_utf8(name).len() > 128 ==> opened == Err::<
                (Seq<char>, JsonModel),
                ActionRejectionReason,
            >(ActionRejectionReason::SecurityLimitExceeded)
            &&& arguments is Object && encode_utf8(name).len() <= 128 && !valid_tool_name(name)
                ==> opened == Err::<(Seq<char>, JsonModel), ActionRejectionReason>(
                ActionRejectionReason::InvalidToolName,
            )
            &&& arguments is Object && encode_utf8(name).len() <= 128 && valid_tool_name(name)
                ==> opened == Ok::<(Seq<char>, JsonModel), ActionRejectionReason>(
                (name, arguments),
            )
        }),
{
    reveal_strlit("tool");
    reveal_strlit("arguments");
    let tool = ("tool"@, JsonModel::Text(name));
    let given = ("arguments"@, arguments);
    let inner = if tool_first {
        seq![tool, given]
    } else {
        seq![given, tool]
    };
    assert("tool"@.len() != "arguments"@.len());
    let outer = seq![("action"@, JsonModel::Object(inner))];
    law_member_is_the_first_of_its_key(outer, "action"@, 0);
    if tool_first {
        law_member_is_the_first_of_its_key(inner, "tool"@, 0);
        law_member_is_the_first_of_its_key(inner, "arguments"@, 1);
    } else {
        law_member_is_the_first_of_its_key(inner, "arguments"@, 0);
        law_member_is_the_first_of_its_key(inner, "tool"@, 1);
    }
}

/// Nothing but an envelope is opened: a value that is, is an object with one member, `action`, which
/// has two members, the tool's name and the arguments. A value that is not, is malformed.
pub proof fn law_only_envelopes_are_opened(json: JsonModel)
    ensures
        opened_envelope(json) matches Ok((name, arguments)) ==> {
            &&& json matches JsonModel::Object(root) && root.len() == 1 && root[0].0 == "action"@
                && (root[0].1 matches JsonModel::Object(action) && action.len() == 2 && member_of(
                action,
                "tool"@,
            ) == Some(JsonModel::Text(name)) && member_of(action, "arguments"@) == Some(
                arguments,
            ))
            &&& arguments is Object
            &&& valid_tool_name(name)
            &&& encode_utf8(name).len() <= 128
        },
        opened_envelope(json) matches Err(reason) ==> reason
            == ActionRejectionReason::MalformedEnvelope || reason
            == ActionRejectionReason::SecurityLimitExceeded || reason
            == ActionRejectionReason::InvalidToolName,
        !(json is Object) ==> opened_envelope(json) == Err::<
            (Seq<char>, JsonModel),
            ActionRejectionReason,
        >(ActionRejectionReason::MalformedEnvelope),
        json matches JsonModel::Object(root) && (root.len() != 1 || !(member_of(root, "action"@)
            matches Some(JsonModel::Object(_)))) ==> opened_envelope(json) == Err::<
            (Seq<char>, JsonModel),
            ActionRejectionReason,
        >(ActionRejectionReason::MalformedEnvelope),
        json matches JsonModel::Object(root) && (member_of(root, "action"@) matches Some(
            JsonModel::Object(action),
        ) && action.len() != 2) ==> opened_envelope(json) == Err::<
            (Seq<char>, JsonModel),
            ActionRejectionReason,
        >(ActionRejectionReason::MalformedEnvelope),
{
    if let JsonModel::Object(root) = json {
        if root.len() == 1 && root[0].0 != "action"@ {
            law_member_is_the_first_of_its_key(root, "action"@, 1);
        }
        if root.len() == 1 && root[0].0 == "action"@ {
            law_member_is_the_first_of_its_key(root, "action"@, 0);
        }
    }
}

/// An output is read where it is one text that is not blank and has 16384 bytes at most. Otherwise
/// it is rejected: as empty, for its shape, or for its size.
pub proof fn law_one_text_is_read(output: Seq<ModelOutputPart>)
    ensures
        unreadable(output) is None <==> output.len() == 1 && trimmed(output[0].text()).len() > 0
            && encode_utf8(output[0].text()).len() <= 16384,
        output.len() == 0 ==> decoded(output) == Err::<
            (Seq<char>, JsonModel),
            ActionRejectionReason,
        >(ActionRejectionReason::EmptyOutput),
        output.len() > 1 ==> decoded(output) == Err::<
            (Seq<char>, JsonModel),
            ActionRejectionReason,
        >(ActionRejectionReason::UnsupportedOutputShape),
        output.len() == 1 && trimmed(output[0].text()).len() == 0 ==> decoded(output) == Err::<
            (Seq<char>, JsonModel),
            ActionRejectionReason,
        >(ActionRejectionReason::EmptyOutput),
        output.len() == 1 && trimmed(output[0].text()).len() > 0 && encode_utf8(
            output[0].text(),
        ).len() > 16384 ==> decoded(output) == Err::<
            (Seq<char>, JsonModel),
            ActionRejectionReason,
        >(ActionRejectionReason::ResponseTooLarge),
{
}

/// A text that is read proposes what its envelope holds, and nothing else: it must be JSON, write
/// each key once, hold an envelope, and have arguments within the limits.
pub proof fn law_text_proposes_what_it_holds(output: Seq<ModelOutputPart>)
    requires
        unreadable(output) is None,
    ensures
        ({
            let text = output[0].text();
            match parsed_json(text) {
                None => decoded(output) == Err::<(Seq<char>, JsonModel), ActionRejectionReason>(
                    ActionRejectionReason::MalformedEnvelope,
                ),
                Some(json) => {
                    &&& !keys_are_unique(text, json) ==> decoded(output) == Err::<
                        (Seq<char>, JsonModel),
                        ActionRejectionReason,
                    >(ActionRejectionReason::MalformedEnvelope)
                    &&& keys_are_unique(text, json) && opened_envelope(json) is Err ==> decoded(
                        output,
                    ) == opened_envelope(json)
                    &&& keys_are_unique(text, json) ==> (opened_envelope(json) matches Ok(
                        (name, arguments),
                    ) ==> decoded(output) == (if arguments_fit(
                        arguments,
                        written_json(arguments),
                    ) {
                        Ok::<(Seq<char>, JsonModel), ActionRejectionReason>((name, arguments))
                    } else {
                        Err(ActionRejectionReason::SecurityLimitExceeded)
                    }))
                },
            }
        }),
{
}

/// Arguments are within the limits where they are written in 8192 bytes at most, nest 8 deep at
/// most, and hold 64 members, 128 array elements and 256 values at most.
pub proof fn law_argument_limits(arguments: JsonModel, written: Option<Seq<u8>>)
    ensures
        arguments_fit(arguments, written) <==> {
            &&& written matches Some(bytes) && bytes.len() <= 8192
            &&& depth(arguments) <= 8
            &&& counts(arguments).keys <= 64
            &&& counts(arguments).elements <= 128
            &&& counts(arguments).nodes <= 256
        },
{
}

/// Every value counts as one; an array counts its elements and an object its members beside what
/// they hold.
pub proof fn law_values_are_counted(
    first: Seq<JsonModel>,
    second: Seq<JsonModel>,
    value: JsonModel,
)
    ensures
        !(value is Array) && !(value is Object) ==> counts(value).nodes == 1 && counts(value).keys
            == 0 && counts(value).elements == 0 && depth(value) == 1,
        counts(JsonModel::Array(first)).nodes == 1 + value_counts(first).nodes,
        counts(JsonModel::Array(first)).keys == value_counts(first).keys,
        counts(JsonModel::Array(first)).elements == first.len() + value_counts(first).elements,
        depth(JsonModel::Array(first)) == 1 + value_depth(first),
        value_counts(seq![value]) == counts(value),
        value_depth(seq![value]) == depth(value),
        value_counts(first + second) == value_counts(first).plus(value_counts(second)),
        value_depth(first + second) == larger(value_depth(first), value_depth(second)),
        value_depth(first) <= value_depth(first + second),
        value_depth(second) <= value_depth(first + second),
    decreases second.len(),
{
    let one = seq![value];
    assert(one.drop_last() =~= Seq::empty());
    assert(value_counts(one.drop_last()).nodes == 0);
    assert(value_depth(one.drop_last()) == 0);
    assert(one.last() == value);
    if second.len() == 0 {
        assert(first + second =~= first);
    } else {
        law_values_are_counted(first, second.drop_last(), value);
        assert((first + second).drop_last() =~= first + second.drop_last());
        assert((first + second).last() == second.last());
    }
}

/// The same of the members of an object.
pub proof fn law_members_are_counted(
    first: Seq<(Seq<char>, JsonModel)>,
    second: Seq<(Seq<char>, JsonModel)>,
    key: Seq<char>,
    value: JsonModel,
)
    ensures
        counts(JsonModel::Object(first)).nodes == 1 + member_counts(first).nodes,
        counts(JsonModel::Object(first)).keys == first.len() + member_counts(first).keys,
        counts(JsonModel::Object(first)).elements == member_counts(first).elements,
        depth(JsonModel::Object(first)) == 1 + member_depth(first),
        member_counts(seq![(key, value)]) == counts(value),
        member_depth(seq![(key, value)]) == depth(value),
        member_counts(first + second) == member_counts(first).plus(member_counts(second)),
        member_depth(first + second) == larger(member_depth(first), member_depth(second)),
        member_depth(first) <= member_depth(first + second),
        member_depth(second) <= member_depth(first + second),
    decreases second.len(),
{
    let one = seq![(key, value)];
    assert(one.drop_last() =~= Seq::empty());
    assert(member_counts(one.drop_last()).nodes == 0);
    assert(member_depth(one.drop_last()) == 0);
    assert(one.last() == (key, value));
    if second.len() == 0 {
        assert(first + second =~= first);
    } else {
        law_members_are_counted(first, second.drop_last(), key, value);
        assert((first + second).drop_last() =~= first + second.drop_last());
        assert((first + second).last() == second.last());
    }
}

/// A colon counts as a member where it is not part of a text, and nothing else does. A text between
/// quotation marks, whatever colons it holds, counts as none and leaves the place outside of texts;
/// so does one with an escaped character in it.
pub proof fn law_members_are_told_from_texts(before: Seq<char>, inner: Seq<char>, c: char)
    requires
        lexis_at_end(before) == Lexis::Outside,
        forall|i: int| 0 <= i < inner.len() ==> #[trigger] inner[i] != '"' && inner[i] != '\\',
    ensures
        members_written(Seq::empty()) == 0,
        members_written(before.push(':')) == members_written(before) + 1,
        c != ':' ==> members_written(before.push(c)) == members_written(before),
        ({
            let opened = before.push('"') + inner;
            let closed = opened.push('"');
            let escaped = opened.push('\\').push(c);
            &&& members_written(closed) == members_written(before)
            &&& lexis_at_end(closed) == Lexis::Outside
            &&& lexis_at_end(escaped) == Lexis::InText
            &&& members_written(escaped) == members_written(before)
        }),
        c != '"' ==> lexis_at_end(before.push(c)) == Lexis::Outside,
{
    assert(before.push(':').drop_last() =~= before);
    assert(before.push(c).drop_last() =~= before);
    inside_a_text(before, inner);
    let opened = before.push('"') + inner;
    assert(opened.push('"').drop_last() =~= opened);
    assert(opened.push('\\').drop_last() =~= opened);
    assert(opened.push('\\').push(c).drop_last() =~= opened.push('\\'));
    assert(lexis_at_end(opened.push('\\')) == Lexis::Escaped);
    assert(members_written(opened.push('\\')) == members_written(opened));
    assert(members_written(opened.push('\\').push(c)) == members_written(opened.push('\\')));
    assert(members_written(opened.push('"')) == members_written(opened));
}

proof fn inside_a_text(before: Seq<char>, inner: Seq<char>)
    requires
        lexis_at_end(before) == Lexis::Outside,
        forall|i: int| 0 <= i < inner.len() ==> #[trigger] inner[i] != '"' && inner[i] != '\\',
    ensures
        lexis_at_end(before.push('"') + inner) == Lexis::InText,
        members_written(before.push('"') + inner) == members_written(before),
    decreases inner.len(),
{
    let open = before.push('"');
    assert(open.drop_last() =~= before);
    if inner.len() == 0 {
        assert(open + inner =~= open);
    } else {
        let init = inner.drop_last();
        assert forall|i: int| 0 <= i < init.len() implies #[trigger] init[i] != '"' && init[i]
            != '\\' by {
            assert(init[i] == inner[i]);
        }
        inside_a_text(before, init);
        assert((open + inner).drop_last() =~= open + init);
        assert((open + inner).last() == inner.last());
        assert(inner[inner.len() - 1] == inner.last());
    }
}

/// A tool is found under its own name, and under no other.
pub proof fn law_tool_is_found_by_name(tools: Seq<BindingView>, name: Seq<char>, at: int)
    requires
        names_differ(tools),
    ensures
        0 <= at < tools.len() && tools[at].definition.name == name ==> tool_named(tools, name)
            == Some(tools[at]),
        tool_named(tools, name) matches Some(tool) ==> tool.definition.name == name
            && tools.contains(tool),
        tool_named(tools, name) is None <==> forall|i: int|
            0 <= i < tools.len() ==> (#[trigger] tools[i]).definition.name != name,
    decreases tools.len(),
{
    if tools.len() > 0 {
        let init = tools.drop_last();
        assert forall|i: int, j: int| 0 <= i < j < init.len() implies (
        #[trigger] init[i]).definition.name != (#[trigger] init[j]).definition.name by {
            assert(init[i] == tools[i] && init[j] == tools[j]);
        }
        law_tool_is_found_by_name(init, name, at);
        assert(tools[tools.len() - 1] == tools.last());
        if 0 <= at < init.len() {
            assert(init[at] == tools[at]);
        }
        if tool_named(init, name) is Some {
            let tool = tool_named(init, name)->0;
            let k = choose|k: int| 0 <= k < init.len() && init[k] == tool;
            assert(tools[k] == tool);
        }
        if forall|i: int| 0 <= i < init.len() ==> (#[trigger] init[i]).definition.name != name {
            assert forall|i: int| 0 <= i < tools.len() - 1 implies (
            #[trigger] tools[i]).definition.name != name by {
                assert(init[i] == tools[i]);
            }
        }
        if forall|i: int| 0 <= i < tools.len() ==> (#[trigger] tools[i]).definition.name != name {
            assert forall|i: int| 0 <= i < init.len() implies (
            #[trigger] init[i]).definition.name != name by {
                assert(init[i] == tools[i]);
            }
        }
    }
}

/// A proposal becomes an action exactly where its name and its arguments are within the limits, its
/// arguments are an object, a tool of that name is registered, and the tool's schema accepts the
/// arguments.
pub proof fn law_proposal_is_validated(
    name: Seq<char>,
    arguments: JsonModel,
    tools: Seq<BindingView>,
)
    requires
        names_differ(tools),
    ensures
        proposal_fault(name, arguments, tools) is None <==> {
            &&& encode_utf8(name).len() <= 128
            &&& arguments is Object
            &&& arguments_fit(arguments, written_json(arguments))
            &&& exists|i: int|
                0 <= i < tools.len() && (#[trigger] tools[i]).definition.name == name
                    && schema_accepts(tools[i].definition.schema, arguments)
        },
        proposal_fault(name, arguments, tools) == Some(ActionRejectionReason::UnknownTool) ==> (
        forall|i: int| 0 <= i < tools.len() ==> (#[trigger] tools[i]).definition.name != name),
        encode_utf8(name).len() <= 128 && arguments is Object && arguments_fit(
            arguments,
            written_json(arguments),
        ) && (forall|i: int|
            0 <= i < tools.len() ==> (#[trigger] tools[i]).definition.name != name)
            ==> proposal_fault(name, arguments, tools) == Some(ActionRejectionReason::UnknownTool),
        encode_utf8(name).len() > 128 ==> proposal_fault(name, arguments, tools) == Some(
            ActionRejectionReason::SecurityLimitExceeded,
        ),
        encode_utf8(name).len() <= 128 && !(arguments is Object) ==> proposal_fault(
            name,
            arguments,
            tools,
        ) == Some(ActionRejectionReason::ArgumentsSchemaMismatch),
        encode_utf8(name).len() <= 128 && arguments is Object && !arguments_fit(
            arguments,
            written_json(arguments),
        ) ==> proposal_fault(name, arguments, tools) == Some(
            ActionRejectionReason::SecurityLimitExceeded,
        ),
{
    law_tool_is_found_by_name(tools, name, 0);
    if tool_named(tools, name) is Some {
        let tool = tool_named(tools, name)->0;
        let k = choose|k: int| 0 <= k < tools.len() && tools[k] == tool;
        assert(tools[k].definition.name == name);
        assert forall|i: int| 0 <= i < tools.len() && (#[trigger] tools[i]).definition.name
            == name implies tools[i] == tool by {
            law_tool_is_found_by_name(tools, name, i);
        }
    }
}

} // verus!
