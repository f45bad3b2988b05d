//! JSON values, and how much a value holds.

use vstd::prelude::*;

use crate::text::{decimal_text, str_equal, text_before};

verus! {

/// A JSON value of `serde_json`.
#[verifier::external_type_specification]
#[verifier::external_body]
pub struct ExValue(serde_json::Value);

/// What a JSON value says. An object's members stand in the order in which they are walked.
pub enum JsonModel {
    Null,
    Bool(bool),
    /// A number, by the text that it is written as, and its value where that is a `u64`.
    Number(Seq<char>, Option<u64>),
    Text(Seq<char>),
    Array(Seq<JsonModel>),
    Object(Seq<(Seq<char>, JsonModel)>),
}

/// What a value of `serde_json` says.
pub uninterp spec fn value_json(value: serde_json::Value) -> JsonModel;

/// What `serde_json::from_str` reads in a text, if the text is JSON at all.
pub uninterp spec fn parsed_json(text: Seq<char>) -> Option<JsonModel>;

/// The bytes that `serde_json::to_vec` writes for a value, if it writes it.
pub uninterp spec fn written_json(json: JsonModel) -> Option<Seq<u8>>;

/// One level of a JSON value.
pub enum JsonNode<'a> {
    Null,
    Bool(bool),
    Number { text: String, unsigned: Option<u64> },
    Text(&'a String),
    Array(&'a Vec<serde_json::Value>),
    Object(Vec<(&'a String, &'a serde_json::Value)>),
}

pub open spec fn values_json(values: Seq<serde_json::Value>) -> Seq<JsonModel> {
    Seq::new(values.len(), |i: int| value_json(values[i]))
}

pub open spec fn members_json(members: Seq<(&String, &serde_json::Value)>) -> Seq<
    (Seq<char>, JsonModel),
> {
    Seq::new(members.len(), |i: int| (members[i].0@, value_json(*members[i].1)))
}

impl<'a> JsonNode<'a> {
    pub open spec fn json(self) -> JsonModel {
        match self {
            JsonNode::Null => JsonModel::Null,
            JsonNode::Bool(flag) => JsonModel::Bool(flag),
            JsonNode::Number { text, unsigned } => JsonModel::Number(text@, unsigned),
            JsonNode::Text(text) => JsonModel::Text(text@),
            JsonNode::Array(values) => JsonModel::Array(values_json(values@)),
            JsonNode::Object(members) => JsonModel::Object(members_json(members@)),
        }
    }
}

/// Tells the variants of `serde_json::Value` apart. Claimed: the node has the variant of the
/// value and what is in it, the members of an object in the order of `serde_json::Map::iter`, and
/// of a number the text of its `Display` and `Number::as_u64`.
#[verifier::external_body]
pub(crate) fn open_value<'a>(value: &'a serde_json::Value) -> (r: JsonNode<'a>)
    ensures
        r.json() == value_json(*value),
{
    match value {
        serde_json::Value::Null => JsonNode::Null,
        serde_json::Value::Bool(flag) => JsonNode::Bool(*flag),
        serde_json::Value::Number(number) => JsonNode::Number {
            text: number.to_string(),
            unsigned: number.as_u64(),
        },
        serde_json::Value::String(text) => JsonNode::Text(text),
        serde_json::Value::Array(values) => JsonNode::Array(values),
        serde_json::Value::Object(members) => JsonNode::Object(members.iter().collect()),
    }
}

/// Reads JSON text with `serde_json::from_str`. Claimed: what is read, and whether anything is,
/// depends on the text alone.
#[verifier::external_body]
pub(crate) fn parse_json(text: &str) -> (r: Option<serde_json::Value>)
    ensures
        match r {
            Some(value) => parsed_json(text@) == Some(value_json(value)),
            None => parsed_json(text@) is None,
        },
{
    serde_json::from_str(text).ok()
}

/// Writes a value with `serde_json::to_vec`. Claimed: the bytes, and whether there are any,
/// depend on what the value says alone.
#[verifier::external_body]
pub(crate) fn write_json(value: &serde_json::Value) -> (r: Option<Vec<u8>>)
    ensures
        match r {
            Some(bytes) => written_json(value_json(*value)) == Some(bytes@),
            None => written_json(value_json(*value)) is None,
        },
{
    serde_json::to_vec(value).ok()
}

/// A value without parts.
pub enum JsonLeaf {
    Null,
    Bool(bool),
    Unsigned(u64),
    Text(String),
}

impl JsonLeaf {
    pub open spec fn json(self) -> JsonModel {
        match self {
            JsonLeaf::Null => JsonModel::Null,
            JsonLeaf::Bool(flag) => JsonModel::Bool(flag),
            JsonLeaf::Unsigned(number) => JsonModel::Number(
                decimal_text(number as nat),
                Some(number),
            ),
            JsonLeaf::Text(text) => JsonModel::Text(text@),
        }
    }
}

/// Makes a value with a variant of `serde_json::Value`, a number with `Number::from`. Claimed: it
/// says what the leaf says, and a number is written in decimal digits.
#[verifier::external_body]
pub(crate) fn make_leaf(leaf: JsonLeaf) -> (r: serde_json::Value)
    ensures
        value_json(r) == leaf.json(),
{
    match leaf {
        JsonLeaf::Null => serde_json::Value::Null,
        JsonLeaf::Bool(flag) => serde_json::Value::Bool(flag),
        JsonLeaf::Unsigned(number) => serde_json::Value::Number(number.into()),
        JsonLeaf::Text(text) => serde_json::Value::String(text),
    }
}

pub open spec fn given_members(members: Seq<(String, serde_json::Value)>) -> Seq<
    (Seq<char>, JsonModel),
> {
    Seq::new(members.len(), |i: int| (members[i].0@, value_json(members[i].1)))
}

/// No key stands twice.
pub open spec fn keys_differ(members: Seq<(Seq<char>, JsonModel)>) -> bool {
    forall|i: int, j: int|
        0 <= i < j < members.len() ==> (#[trigger] members[i]).0 != (#[trigger] members[j]).0
}

/// Whether a value is an object with these members and no others, in whatever order.
pub open spec fn is_object_of(json: JsonModel, members: Seq<(Seq<char>, JsonModel)>) -> bool {
    json matches JsonModel::Object(held) && held.len() == members.len() && forall|key: Seq<char>|
        #[trigger] member_of(held, key) == member_of(members, key)
}

/// Each key stands before those that follow it.
pub open spec fn keys_ascend(members: Seq<(Seq<char>, JsonModel)>) -> bool {
    forall|i: int, j: int|
        0 <= i < j < members.len() ==> text_before(
            (#[trigger] members[i]).0,
            (#[trigger] members[j]).0,
        )
}

/// Makes an object with `serde_json::Map::from_iter`. Claimed: of members with different keys it
/// holds each under its key, and nothing else; and members that are given in the order of their
/// keys, which is that of `str`, are walked in that order. In which order it walks others is left
/// open.
#[verifier::external_body]
pub(crate) fn make_object(members: Vec<(String, serde_json::Value)>) -> (r: serde_json::Value)
    requires
        keys_differ(given_members(members@)),
    ensures
        is_object_of(value_json(r), given_members(members@)),
        keys_ascend(given_members(members@)) ==> value_json(r) == JsonModel::Object(
            given_members(members@),
        ),
{
    serde_json::Value::Object(serde_json::Map::from_iter(members))
}

/// What `serde_json::from_slice` reads in bytes, if they are JSON at all.
pub uninterp spec fn parsed_json_bytes(bytes: Seq<u8>) -> Option<JsonModel>;

/// Reads JSON bytes with `serde_json::from_slice`. Claimed: what is read, and whether anything
/// is, depends on the bytes alone.
#[verifier::external_body]
pub(crate) fn parse_json_bytes(bytes: &[u8]) -> (r: Option<serde_json::Value>)
    ensures
        match r {
            Some(value) => parsed_json_bytes(bytes@) == Some(value_json(value)),
            None => parsed_json_bytes(bytes@) is None,
        },
{
    serde_json::from_slice(bytes).ok()
}

/// Whether a value is an object.
pub fn is_object(value: &serde_json::Value) -> (r: bool)
    ensures
        r == (value_json(*value) is Object),
{
    matches!(open_value(value), JsonNode::Object(_))
}

/// How many values, members and array elements there are.
pub struct Counts {
    pub nodes: nat,
    pub keys: nat,
    pub elements: nat,
}

impl Counts {
    pub open spec fn plus(self, other: Counts) -> Counts {
        Counts {
            nodes: self.nodes + other.nodes,
            keys: self.keys + other.keys,
            elements: self.elements + other.elements,
        }
    }
}

/// All values, all members and all array elements in a value, itself included.
pub open spec fn counts(json: JsonModel) -> Counts
    decreases json,
{
    match json {
        JsonModel::Array(values) => Counts { nodes: 1, keys: 0, elements: values.len() }.plus(
            value_counts(values),
        ),
        JsonModel::Object(members) => Counts { nodes: 1, keys: members.len(), elements: 0 }.plus(
            member_counts(members),
        ),
        _ => Counts { nodes: 1, keys: 0, elements: 0 },
    }
}

pub open spec fn value_counts(values: Seq<JsonModel>) -> Counts
    decreases values,
{
    if values.len() == 0 {
        Counts { nodes: 0, keys: 0, elements: 0 }
    } else {
        value_counts(values.drop_last()).plus(counts(values.last()))
    }
}

pub open spec fn member_counts(members: Seq<(Seq<char>, JsonModel)>) -> Counts
    decreases members,
{
    if members.len() == 0 {
        Counts { nodes: 0, keys: 0, elements: 0 }
    } else {
        member_counts(members.drop_last()).plus(counts(members.last().1))
    }
}

pub open spec fn larger(a: nat, b: nat) -> nat {
    if a < b {
        b
    } else {
        a
    }
}

/// How many values lie within one another at the deepest place.
pub open spec fn depth(json: JsonModel) -> nat
    decreases json,
{
    match json {
        JsonModel::Array(values) => 1 + value_depth(values),
        JsonModel::Object(members) => 1 + member_depth(members),
        _ => 1,
    }
}

pub open spec fn value_depth(values: Seq<JsonModel>) -> nat
    decreases values,
{
    if values.len() == 0 {
        0
    } else {
        larger(value_depth(values.drop_last()), depth(values.last()))
    }
}

pub open spec fn member_depth(members: Seq<(Seq<char>, JsonModel)>) -> nat
    decreases members,
{
    if members.len() == 0 {
        0
    } else {
        larger(member_depth(members.drop_last()), depth(members.last().1))
    }
}

/// The most that a value may hold.
#[derive(Clone, Copy, Debug, PartialEq, Eq, Structural)]
pub struct JsonLimits {
    pub depth: Option<usize>,
    pub keys: usize,
    pub elements: Option<usize>,
    pub nodes: Option<usize>,
}

impl JsonLimits {
    pub open spec fn admits(self, held: Counts) -> bool {
        &&& held.keys <= self.keys
        &&& match self.elements {
            None => true,
            Some(most) => held.elements <= most,
        }
        &&& match self.nodes {
            None => true,
            Some(most) => held.nodes <= most,
        }
    }
}

/// Whether a value goes no deeper than there is room, where room is limited.
pub open spec fn has_depth_within(json: JsonModel, room: Option<usize>) -> bool {
    room matches Some(most) ==> depth(json) <= most
}

/// Whether a value stays within the limits.
pub open spec fn within_limits(json: JsonModel, limits: JsonLimits) -> bool {
    limits.admits(counts(json)) && has_depth_within(json, limits.depth)
}

proof fn value_prefix(values: Seq<JsonModel>, i: int)
    requires
        0 <= i < values.len(),
    ensures
        value_counts(values.take(i + 1)) == value_counts(values.take(i)).plus(counts(values[i])),
        value_counts(values.take(i + 1)).nodes <= value_counts(values).nodes,
        value_counts(values.take(i + 1)).keys <= value_counts(values).keys,
        value_counts(values.take(i + 1)).elements <= value_counts(values).elements,
        value_depth(values.take(i + 1)) == larger(value_depth(values.take(i)), depth(values[i])),
        value_depth(values.take(i + 1)) <= value_depth(values),
    decreases values.len(),
{
    assert(values.take(i + 1).drop_last() =~= values.take(i));
    if i + 1 < values.len() {
        let rest = values.drop_last();
        value_prefix(rest, i);
        assert(rest.take(i + 1) =~= values.take(i + 1));
        assert(rest.take(i) =~= values.take(i));
    } else {
        assert(values.take(i + 1) =~= values);
    }
}

proof fn member_prefix(members: Seq<(Seq<char>, JsonModel)>, i: int)
    requires
        0 <= i < members.len(),
    ensures
        member_counts(members.take(i + 1)) == member_counts(members.take(i)).plus(
            counts(members[i].1),
        ),
        member_counts(members.take(i + 1)).nodes <= member_counts(members).nodes,
        member_counts(members.take(i + 1)).keys <= member_counts(members).keys,
        member_counts(members.take(i + 1)).elements <= member_counts(members).elements,
        member_depth(members.take(i + 1)) == larger(
            member_depth(members.take(i)),
            depth(members[i].1),
        ),
        member_depth(members.take(i + 1)) <= member_depth(members),
    decreases members.len(),
{
    assert(members.take(i + 1).drop_last() =~= members.take(i));
    if i + 1 < members.len() {
        let rest = members.drop_last();
        member_prefix(rest, i);
        assert(rest.take(i + 1) =~= members.take(i + 1));
        assert(rest.take(i) =~= members.take(i));
    } else {
        assert(members.take(i + 1) =~= members);
    }
}

/// What has been counted so far, in the dimensions that are limited.
#[derive(Clone, Copy)]
struct Tally {
    nodes: usize,
    keys: usize,
    elements: usize,
}

impl Tally {
    /// Whether this counts `held`, as far as the limits look at it, and is within them.
    spec fn tells(self, held: Counts, limits: JsonLimits) -> bool {
        &&& self.keys == held.keys <= limits.keys
        &&& limits.elements matches Some(most) ==> self.elements == held.elements <= most
        &&& limits.nodes matches Some(most) ==> self.nodes == held.nodes <= most
    }
}

/// Adds to a counter, if it is limited. Says whether it is still within its limit.
fn raise(counter: &mut usize, by: usize, limit: Option<usize>) -> (r: bool)
    requires
        limit matches Some(most) ==> *old(counter) <= most,
    ensures
        limit is None ==> r,
        limit matches Some(most) ==> r == (*old(counter) + by <= most) && (r ==> *final(counter)
            == *old(counter) + by),
{
    match limit {
        None => true,
        Some(most) => {
            if by <= most - *counter {
                *counter = *counter + by;
                true
            } else {
                false
            }
        },
    }
}

/// Counts a value on top of what has been counted, as long as it stays within the limits.
fn measure(
    value: &serde_json::Value,
    room: Option<usize>,
    limits: JsonLimits,
    used: &mut Tally,
    Ghost(before): Ghost<Counts>,
) -> (r: bool)
    requires
        old(used).tells(before, limits),
    ensures
        r == (limits.admits(before.plus(counts(value_json(*value)))) && has_depth_within(
            value_json(*value),
            room,
        )),
        r ==> final(used).tells(before.plus(counts(value_json(*value))), limits),
    decreases value_json(*value),
{
    let ghost json = value_json(*value);
    let below = match room {
        None => None,
        Some(0) => {
            return false;
        },
        Some(levels) => Some((levels - 1) as usize),
    };
    if !raise(&mut used.nodes, 1, limits.nodes) {
        return false;
    }
    match open_value(value) {
        JsonNode::Object(members) => {
            if !raise(&mut used.keys, members.len(), Some(limits.keys)) {
                return false;
            }
            let ghost all = members_json(members@);
            let ghost start = before.plus(Counts { nodes: 1, keys: all.len(), elements: 0 });
            let mut i: usize = 0;
            assert(all.take(0) =~= Seq::empty());
            while i < members.len()
                invariant
                    i <= members.len() == all.len(),
                    match room {
                        None => below is None,
                        Some(levels) => levels > 0 && below == Some((levels - 1) as usize),
                    },
                    all == members_json(members@),
                    json == JsonModel::Object(all),
                    json == value_json(*value),
                    start == before.plus(Counts { nodes: 1, keys: all.len(), elements: 0 }),
                    used.tells(start.plus(member_counts(all.take(i as int))), limits),
                    below matches Some(levels) ==> member_depth(all.take(i as int)) <= levels,
                decreases members.len() - i,
            {
                let ghost so_far = start.plus(member_counts(all.take(i as int)));
                proof {
                    member_prefix(all, i as int);
                    assert(all[i as int].1 == value_json(*members@[i as int].1));
                    let member = json->Object_0[i as int];
                    assert(decreases_to!(json => json->Object_0));
                    assert(decreases_to!(json->Object_0 => member));
                    assert(decreases_to!(member => member.1));
                }
                if !measure(members[i].1, below, limits, used, Ghost(so_far)) {
                    return false;
                }
                i = i + 1;
            }
            assert(all.take(i as int) =~= all);
        },
        JsonNode::Array(values) => {
            if !raise(&mut used.elements, values.len(), limits.elements) {
                return false;
            }
            let ghost all = values_json(values@);
            let ghost start = before.plus(Counts { nodes: 1, keys: 0, elements: all.len() });
            let mut i: usize = 0;
            assert(all.take(0) =~= Seq::empty());
            while i < values.len()
                invariant
                    i <= values.len() == all.len(),
                    match room {
                        None => below is None,
                        Some(levels) => levels > 0 && below == Some((levels - 1) as usize),
                    },
                    all == values_json(values@),
                    json == JsonModel::Array(all),
                    json == value_json(*value),
                    start == before.plus(Counts { nodes: 1, keys: 0, elements: all.len() }),
                    used.tells(start.plus(value_counts(all.take(i as int))), limits),
                    below matches Some(levels) ==> value_depth(all.take(i as int)) <= levels,
                decreases values.len() - i,
            {
                let ghost so_far = start.plus(value_counts(all.take(i as int)));
                proof {
                    value_prefix(all, i as int);
                    assert(all[i as int] == value_json(values@[i as int]));
                    assert(decreases_to!(json => json->Array_0));
                    assert(decreases_to!(json->Array_0 => json->Array_0[i as int]));
                }
                if !measure(&values[i], below, limits, used, Ghost(so_far)) {
                    return false;
                }
                i = i + 1;
            }
            assert(all.take(i as int) =~= all);
        },
        _ => {},
    }
    true
}

/// Whether a value stays within the limits. It looks no deeper than they allow.
pub fn stays_within(value: &serde_json::Value, limits: JsonLimits) -> (r: bool)
    ensures
        r == within_limits(value_json(*value), limits),
{
    let mut used = Tally { nodes: 0, keys: 0, elements: 0 };
    measure(
        value,
        limits.depth,
        limits,
        &mut used,
        Ghost(Counts { nodes: 0, keys: 0, elements: 0 }),
    )
}

/// How many members there are in a value, if there are at most `most`.
pub fn count_keys(value: &serde_json::Value, most: usize) -> (r: Option<usize>)
    ensures
        match r {
            Some(count) => count == counts(value_json(*value)).keys && count <= most,
            None => counts(value_json(*value)).keys > most,
        },
{
    let limits = JsonLimits { depth: None, keys: most, elements: None, nodes: None };
    let mut used = Tally { nodes: 0, keys: 0, elements: 0 };
    if measure(
        value,
        None,
        limits,
        &mut used,
        Ghost(Counts { nodes: 0, keys: 0, elements: 0 }),
    ) {
        Some(used.keys)
    } else {
        None
    }
}

/// Copies a value with `serde_json::Value::clone`. Claimed: the copy says the same.
#[verifier::external_body]
pub(crate) fn copy_value(value: &serde_json::Value) -> (r: serde_json::Value)
    ensures
        value_json(r) == value_json(*value),
{
    value.clone()
}

/// The value under a key of an object.
pub open spec fn member_of(members: Seq<(Seq<char>, JsonModel)>, key: Seq<char>) -> Option<
    JsonModel,
>
    decreases members.len(),
{
    if members.len() == 0 {
        None
    } else if members.first().0 == key {
        Some(members.first().1)
    } else {
        member_of(members.drop_first(), key)
    }
}

/// The value under a key of an object, if it is there.
pub fn find_member<'a>(members: &Vec<(&'a String, &'a serde_json::Value)>, key: &str) -> (r:
    Option<&'a serde_json::Value>)
    ensures
        match r {
            Some(value) => member_of(members_json(members@), key@) == Some(value_json(*value)),
            None => member_of(members_json(members@), key@) is None,
        },
{
    let ghost all = members_json(members@);
    let mut i: usize = 0;
    assert(all.skip(0) =~= all);
    while i < members.len()
        invariant
            i <= members.len(),
            all == members_json(members@),
            member_of(all, key@) == member_of(all.skip(i as int), key@),
        decreases members.len() - i,
    {
        proof {
            assert(all.skip(i as int).first() == all[i as int]);
            assert(all.skip(i as int).drop_first() =~= all.skip(i + 1));
        }
        if str_equal(members[i].0.as_str(), key) {
            return Some(members[i].1);
        }
        i = i + 1;
    }
    None
}

/// The value under a key, if the value is an object that has it.
pub open spec fn json_at(json: JsonModel, key: Seq<char>) -> Option<JsonModel> {
    match json {
        JsonModel::Object(members) => member_of(members, key),
        _ => None,
    }
}

/// The value under a key, if the value is an object that has it.
pub fn value_at<'a>(value: &'a serde_json::Value, key: &str) -> (r: Option<&'a serde_json::Value>)
    ensures
        match r {
            Some(found) => json_at(value_json(*value), key@) == Some(value_json(*found)),
            None => json_at(value_json(*value), key@) is None,
        },
{
    match open_value(value) {
        JsonNode::Object(members) => find_member(&members, key),
        _ => None,
    }
}

} // verus!
