//! What is hashed for a digest tells apart what the digest stands for.

use vstd::prelude::*;
use vstd::utf8::encode_utf8;

use crate::digest::{framed, length_frame, sha256};
use crate::events::CapabilityKind;
use crate::evidence::EvidenceView;
use crate::evidence_set::{
    evidence_manifest, flag, manifest_content, snapshot_manifest, EvidenceSetView,
};
use crate::json::JsonModel;
use crate::recovery::chained;
use crate::tools::{action_content, capability_code, contract_content, digested_json, DefinitionView};

verus! {

proof fn next_digit(m: nat, n: nat, unit: nat)
    requires
        unit > 0,
        m / (unit * 256) == n / (unit * 256),
        (m / unit) % 256 == (n / unit) % 256,
    ensures
        m / unit == n / unit,
{
    vstd::arithmetic::div_mod::lemma_div_denominator(m as int, unit as int, 256);
    vstd::arithmetic::div_mod::lemma_div_denominator(n as int, unit as int, 256);
}

proof fn same_digit(x: nat, y: nat)
    requires
        (x % 256) as u8 == (y % 256) as u8,
    ensures
        x % 256 == y % 256,
{
}

proof fn bytes_of_length(m: nat, n: nat)
    requires
        m < 0x1_0000_0000_0000_0000,
        n < 0x1_0000_0000_0000_0000,
        length_frame(m) == length_frame(n),
    ensures
        m == n,
{
    let a = length_frame(m);
    let b = length_frame(n);
    assert(a[0] == b[0] && a[1] == b[1] && a[2] == b[2] && a[3] == b[3]);
    assert(a[4] == b[4] && a[5] == b[5] && a[6] == b[6] && a[7] == b[7]);
    same_digit(m / 0x100_0000_0000_0000, n / 0x100_0000_0000_0000);
    same_digit(m / 0x1_0000_0000_0000, n / 0x1_0000_0000_0000);
    same_digit(m / 0x100_0000_0000, n / 0x100_0000_0000);
    same_digit(m / 0x1_0000_0000, n / 0x1_0000_0000);
    same_digit(m / 0x100_0000, n / 0x100_0000);
    same_digit(m / 0x1_0000, n / 0x1_0000);
    same_digit(m / 0x100, n / 0x100);
    same_digit(m, n);
    length_of_digits(m, n);
}

proof fn length_of_digits(m: nat, n: nat)
    requires
        m < 0x1_0000_0000_0000_0000,
        n < 0x1_0000_0000_0000_0000,
        (m / 0x100_0000_0000_0000) % 256 == (n / 0x100_0000_0000_0000) % 256,
        (m / 0x1_0000_0000_0000) % 256 == (n / 0x1_0000_0000_0000) % 256,
        (m / 0x100_0000_0000) % 256 == (n / 0x100_0000_0000) % 256,
        (m / 0x1_0000_0000) % 256 == (n / 0x1_0000_0000) % 256,
        (m / 0x100_0000) % 256 == (n / 0x100_0000) % 256,
        (m / 0x1_0000) % 256 == (n / 0x1_0000) % 256,
        (m / 0x100) % 256 == (n / 0x100) % 256,
        m % 256 == n % 256,
    ensures
        m == n,
{
    assert(m / 0x1_0000_0000_0000_0000 == 0 && n / 0x1_0000_0000_0000_0000 == 0);
    next_digit(m, n, 0x100_0000_0000_0000);
    next_digit(m, n, 0x1_0000_0000_0000);
    next_digit(m, n, 0x100_0000_0000);
    next_digit(m, n, 0x1_0000_0000);
    next_digit(m, n, 0x100_0000);
    next_digit(m, n, 0x1_0000);
    next_digit(m, n, 0x100);
}

/// Three byte strings one behind the other, taken together in either way.
proof fn one_behind_the_other(a: Seq<u8>, b: Seq<u8>, c: Seq<u8>)
    ensures
        (a + b) + c == a + (b + c),
{
    assert((a + b) + c =~= a + (b + c));
}

/// One byte, and what follows it.
proof fn byte_first(a: u8, b: u8, x: Seq<u8>, y: Seq<u8>)
    requires
        seq![a] + x == seq![b] + y,
    ensures
        a == b,
        x == y,
{
    assert((seq![a] + x)[0] == a);
    assert((seq![b] + y)[0] == b);
    assert((seq![a] + x).skip(1) =~= x);
    assert((seq![b] + y).skip(1) =~= y);
}

/// 32 bytes, and what follows them.
proof fn digest_first(a: Seq<u8>, b: Seq<u8>, x: Seq<u8>, y: Seq<u8>)
    requires
        a.len() == 32,
        b.len() == 32,
        a + x == b + y,
    ensures
        a == b,
        x == y,
{
    assert((a + x).take(32) =~= a);
    assert((b + y).take(32) =~= b);
    assert((a + x).skip(32) =~= x);
    assert((b + y).skip(32) =~= y);
}

/// Framed bytes at the end.
proof fn framed_last(a: Seq<u8>, b: Seq<u8>)
    requires
        a.len() < 0x1_0000_0000_0000_0000,
        b.len() < 0x1_0000_0000_0000_0000,
        framed(a) == framed(b),
    ensures
        a == b,
{
    let none = Seq::<u8>::empty();
    assert(framed(a) + none =~= framed(a));
    assert(framed(b) + none =~= framed(b));
    law_framing_is_faithful(a, b, none, none);
}

/// Bytes that are framed can be told from what follows them: where two framed byte strings, each
/// with something behind it, are the same, the strings are the same and so is what follows.
pub proof fn law_framing_is_faithful(a: Seq<u8>, b: Seq<u8>, x: Seq<u8>, y: Seq<u8>)
    requires
        a.len() < 0x1_0000_0000_0000_0000,
        b.len() < 0x1_0000_0000_0000_0000,
        framed(a) + x == framed(b) + y,
    ensures
        a == b,
        x == y,
{
    let left = framed(a) + x;
    let right = framed(b) + y;
    assert(left.take(8) =~= length_frame(a.len()));
    assert(right.take(8) =~= length_frame(b.len()));
    bytes_of_length(a.len(), b.len());
    let n = a.len() as int;
    assert(left.subrange(8, 8 + n) =~= a);
    assert(right.subrange(8, 8 + n) =~= b);
    assert(left.skip(8 + n) =~= x);
    assert(right.skip(8 + n) =~= y);
}

/// Capabilities have different bytes.
pub proof fn law_capability_codes_differ(a: CapabilityKind, b: CapabilityKind)
    ensures
        capability_code(a) == capability_code(b) ==> a == b,
{
}

/// What is hashed for an action tells it from every other: where it is the same, so are the tool,
/// the capability and the arguments as they are written. So an approval of one is no approval of
/// another, unless their hashes collide.
pub proof fn law_action_digest_identifies(
    first_name: Seq<char>,
    first_capability: CapabilityKind,
    first_arguments: JsonModel,
    second_name: Seq<char>,
    second_capability: CapabilityKind,
    second_arguments: JsonModel,
)
    requires
        encode_utf8(first_name).len() < 0x1_0000_0000_0000_0000,
        encode_utf8(second_name).len() < 0x1_0000_0000_0000_0000,
        digested_json(first_arguments).len() < 0x1_0000_0000_0000_0000,
        digested_json(second_arguments).len() < 0x1_0000_0000_0000_0000,
        action_content(first_name, first_capability, first_arguments) == action_content(
            second_name,
            second_capability,
            second_arguments,
        ),
    ensures
        encode_utf8(first_name) == encode_utf8(second_name),
        first_capability == second_capability,
        digested_json(first_arguments) == digested_json(second_arguments),
{
    let name_a = framed(encode_utf8(first_name));
    let name_b = framed(encode_utf8(second_name));
    let code_a = capability_code(first_capability);
    let code_b = capability_code(second_capability);
    let arguments_a = framed(digested_json(first_arguments));
    let arguments_b = framed(digested_json(second_arguments));
    one_behind_the_other(name_a, seq![code_a], arguments_a);
    one_behind_the_other(name_b, seq![code_b], arguments_b);
    law_framing_is_faithful(
        encode_utf8(first_name),
        encode_utf8(second_name),
        seq![code_a] + arguments_a,
        seq![code_b] + arguments_b,
    );
    byte_first(code_a, code_b, arguments_a, arguments_b);
    law_capability_codes_differ(first_capability, second_capability);
    framed_last(digested_json(first_arguments), digested_json(second_arguments));
}

/// What is hashed for the contract of a tool tells it from every other: name, description,
/// capability and schema as it is written.
pub proof fn law_contract_digest_identifies(first: DefinitionView, second: DefinitionView)
    requires
        encode_utf8(first.name).len() < 0x1_0000_0000_0000_0000,
        encode_utf8(second.name).len() < 0x1_0000_0000_0000_0000,
        encode_utf8(first.description).len() < 0x1_0000_0000_0000_0000,
        encode_utf8(second.description).len() < 0x1_0000_0000_0000_0000,
        digested_json(first.schema).len() < 0x1_0000_0000_0000_0000,
        digested_json(second.schema).len() < 0x1_0000_0000_0000_0000,
        contract_content(first) == contract_content(second),
    ensures
        encode_utf8(first.name) == encode_utf8(second.name),
        encode_utf8(first.description) == encode_utf8(second.description),
        first.capability == second.capability,
        digested_json(first.schema) == digested_json(second.schema),
{
    let name_a = framed(encode_utf8(first.name));
    let name_b = framed(encode_utf8(second.name));
    let text_a = framed(encode_utf8(first.description));
    let text_b = framed(encode_utf8(second.description));
    let code_a = capability_code(first.capability);
    let code_b = capability_code(second.capability);
    let schema_a = framed(digested_json(first.schema));
    let schema_b = framed(digested_json(second.schema));
    one_behind_the_other(name_a + text_a, seq![code_a], schema_a);
    one_behind_the_other(name_b + text_b, seq![code_b], schema_b);
    one_behind_the_other(name_a, text_a, seq![code_a] + schema_a);
    one_behind_the_other(name_b, text_b, seq![code_b] + schema_b);
    law_framing_is_faithful(
        encode_utf8(first.name),
        encode_utf8(second.name),
        text_a + (seq![code_a] + schema_a),
        text_b + (seq![code_b] + schema_b),
    );
    law_framing_is_faithful(
        encode_utf8(first.description),
        encode_utf8(second.description),
        seq![code_a] + schema_a,
        seq![code_b] + schema_b,
    );
    byte_first(code_a, code_b, schema_a, schema_b);
    law_capability_codes_differ(first.capability, second.capability);
    framed_last(digested_json(first.schema), digested_json(second.schema));
}

/// What is hashed for a log after one more event: the digest before it, and its encoding, framed.
/// Where that is the same for two logs, so is the digest of what came before and so is the event, as
/// it is encoded.
pub proof fn law_chain_covers_what_came_before(
    first: Seq<u8>,
    second: Seq<u8>,
    first_event: Seq<u8>,
    second_event: Seq<u8>,
)
    requires
        first.len() == 32,
        second.len() == 32,
        first_event.len() < 0x1_0000_0000_0000_0000,
        second_event.len() < 0x1_0000_0000_0000_0000,
    ensures
        chained(first, first_event) == sha256(first + framed(first_event)),
        first + framed(first_event) == second + framed(second_event) ==> first == second
            && first_event == second_event,
{
    let none = Seq::<u8>::empty();
    let a = first + framed(first_event);
    let b = second + framed(second_event);
    assert(first + length_frame(first_event.len()) + first_event =~= a);
    if a == b {
        assert(a.take(32) =~= first);
        assert(b.take(32) =~= second);
        assert(a.skip(32) =~= framed(first_event) + none);
        assert(b.skip(32) =~= framed(second_event) + none);
        law_framing_is_faithful(first_event, second_event, none, none);
    }
}

/// What a manifest keeps of one piece of evidence.
pub open spec fn manifest_entry(item: EvidenceView) -> Seq<u8> {
    seq![item.backend.number()] + framed(encode_utf8(item.reference_id)) + sha256(
        encode_utf8(item.content),
    )
}

/// A manifest keeps every piece of evidence, in its order: what it keeps of some and then more is
/// what it keeps of both.
pub proof fn law_manifest_keeps_every_piece(
    first: Seq<EvidenceView>,
    second: Seq<EvidenceView>,
    item: EvidenceView,
)
    ensures
        evidence_manifest(Seq::empty()) == Seq::<u8>::empty(),
        evidence_manifest(seq![item]) == manifest_entry(item),
        evidence_manifest(first + second) == evidence_manifest(first) + evidence_manifest(second),
    decreases second.len(),
{
    let one = seq![item];
    assert(one.drop_last() =~= Seq::empty());
    assert(evidence_manifest(one.drop_last()).len() == 0);
    assert(one.last() == item);
    assert(evidence_manifest(one) =~= manifest_entry(item));
    if second.len() == 0 {
        assert(first + second =~= first);
        assert(evidence_manifest(first) + Seq::<u8>::empty() =~= evidence_manifest(first));
    } else {
        law_manifest_keeps_every_piece(first, second.drop_last(), item);
        assert((first + second).drop_last() =~= first + second.drop_last());
        assert((first + second).last() == second.last());
        assert(evidence_manifest(first + second) =~= evidence_manifest(first)
            + evidence_manifest(second));
    }
}

/// The same pieces of evidence, by backend, reference and digest of the content.
pub open spec fn same_pieces(a: Seq<EvidenceView>, b: Seq<EvidenceView>) -> bool {
    &&& a.len() == b.len()
    &&& forall|i: int|
        0 <= i < a.len() ==> (#[trigger] a[i]).backend == b[i].backend && encode_utf8(
            a[i].reference_id,
        ) == encode_utf8(b[i].reference_id) && sha256(encode_utf8(a[i].content)) == sha256(
            encode_utf8(b[i].content),
        )
}

/// The digests of the contents have 32 bytes each, and the references a length that can be framed.
pub open spec fn can_be_kept(items: Seq<EvidenceView>) -> bool {
    forall|i: int|
        0 <= i < items.len() ==> encode_utf8((#[trigger] items[i]).reference_id).len()
            < 0x1_0000_0000_0000_0000 && sha256(encode_utf8(items[i].content)).len() == 32
}

proof fn manifest_tells_apart(a: Seq<EvidenceView>, b: Seq<EvidenceView>)
    requires
        evidence_manifest(a) == evidence_manifest(b),
        can_be_kept(a),
        can_be_kept(b),
    ensures
        same_pieces(a, b),
    decreases a.len(),
{
    if a.len() > 0 {
        law_manifest_keeps_every_piece(seq![a[0]], a.skip(1), a[0]);
        assert(a =~= seq![a[0]] + a.skip(1));
    }
    if b.len() > 0 {
        law_manifest_keeps_every_piece(seq![b[0]], b.skip(1), b[0]);
        assert(b =~= seq![b[0]] + b.skip(1));
    }
    if a.len() == 0 && b.len() > 0 {
        assert(evidence_manifest(b).len() > 0);
        assert(evidence_manifest(a).len() == 0);
    }
    if a.len() > 0 && b.len() == 0 {
        assert(evidence_manifest(a).len() > 0);
        assert(evidence_manifest(b).len() == 0);
    }
    if a.len() > 0 && b.len() > 0 {
        let x = a[0];
        let y = b[0];
        let rest_a = evidence_manifest(a.skip(1));
        let rest_b = evidence_manifest(b.skip(1));
        let tail_a = sha256(encode_utf8(x.content)) + rest_a;
        let tail_b = sha256(encode_utf8(y.content)) + rest_b;
        let name_a = framed(encode_utf8(x.reference_id));
        let name_b = framed(encode_utf8(y.reference_id));
        let code_a = x.backend.number();
        let code_b = y.backend.number();
        one_behind_the_other(seq![code_a] + name_a, sha256(encode_utf8(x.content)), rest_a);
        one_behind_the_other(seq![code_b] + name_b, sha256(encode_utf8(y.content)), rest_b);
        one_behind_the_other(seq![code_a], name_a, tail_a);
        one_behind_the_other(seq![code_b], name_b, tail_b);
        byte_first(code_a, code_b, name_a + tail_a, name_b + tail_b);
        assert(x.backend == y.backend);
        law_framing_is_faithful(
            encode_utf8(x.reference_id),
            encode_utf8(y.reference_id),
            tail_a,
            tail_b,
        );
        digest_first(
            sha256(encode_utf8(x.content)),
            sha256(encode_utf8(y.content)),
            rest_a,
            rest_b,
        );
        assert(a[0] == x && b[0] == y);
        assert forall|i: int| 0 <= i < a.skip(1).len() implies encode_utf8(
            (#[trigger] a.skip(1)[i]).reference_id,
        ).len() < 0x1_0000_0000_0000_0000 && sha256(encode_utf8(a.skip(1)[i].content)).len()
            == 32 by {
            assert(a.skip(1)[i] == a[i + 1]);
        }
        assert forall|i: int| 0 <= i < b.skip(1).len() implies encode_utf8(
            (#[trigger] b.skip(1)[i]).reference_id,
        ).len() < 0x1_0000_0000_0000_0000 && sha256(encode_utf8(b.skip(1)[i].content)).len()
            == 32 by {
            assert(b.skip(1)[i] == b[i + 1]);
        }
        manifest_tells_apart(a.skip(1), b.skip(1));
        assert forall|i: int| 0 <= i < a.len() implies (#[trigger] a[i]).backend == b[i].backend
            && encode_utf8(a[i].reference_id) == encode_utf8(b[i].reference_id) && sha256(
            encode_utf8(a[i].content),
        ) == sha256(encode_utf8(b[i].content)) by {
            if i > 0 {
                assert(a[i] == a.skip(1)[i - 1]);
                assert(b[i] == b.skip(1)[i - 1]);
            }
        }
    }
}

/// What is hashed for a set of evidence tells it from every other set with the same snapshots: where
/// it is the same, so are the flags, and so are the pieces, by backend, reference and digest of the
/// content, in their order. So a model request that is bound to one set shows that one, unless
/// hashes collide.
pub proof fn law_manifest_digest_identifies(first: EvidenceSetView, second: EvidenceSetView)
    requires
        manifest_content(first) == manifest_content(second),
        first.snapshots == second.snapshots,
        can_be_kept(first.evidence),
        can_be_kept(second.evidence),
    ensures
        first.truncated == second.truncated,
        first.degraded == second.degraded,
        same_pieces(first.evidence, second.evidence),
{
    let a = manifest_content(first);
    let b = manifest_content(second);
    let tail = snapshot_manifest(first.snapshots);
    let kept_a = evidence_manifest(first.evidence);
    let kept_b = evidence_manifest(second.evidence);
    let head_a = seq![flag(first.truncated), flag(first.degraded)];
    let head_b = seq![flag(second.truncated), flag(second.degraded)];
    assert(a == head_a + kept_a + tail);
    assert(b == head_b + kept_b + tail);
    assert(a.len() == 2 + kept_a.len() + tail.len());
    assert(b.len() == 2 + kept_b.len() + tail.len());
    assert(a[0] == head_a[0] && a[1] == head_a[1]);
    assert(b[0] == head_b[0] && b[1] == head_b[1]);
    let n = kept_a.len() as int;
    assert(a.subrange(2, 2 + n) =~= kept_a);
    assert(b.subrange(2, 2 + n) =~= kept_b);
    manifest_tells_apart(first.evidence, second.evidence);
}

/// A manifest keeps the snapshots behind the evidence, each with its backend, in their order.
pub proof fn law_manifest_keeps_the_snapshots(set: EvidenceSetView)
    ensures
        ({
            let content = manifest_content(set);
            let kept = evidence_manifest(set.evidence);
            &&& content.skip(2 + kept.len() as int) == snapshot_manifest(set.snapshots)
            &&& content[0] == (if set.truncated {
                1u8
            } else {
                0u8
            })
            &&& content[1] == (if set.degraded {
                1u8
            } else {
                0u8
            })
            &&& set.snapshots.len() > 0 ==> snapshot_manifest(set.snapshots) == snapshot_manifest(
                set.snapshots.drop_last(),
            ) + seq![set.snapshots.last().backend.number()] + encode_utf8(
                set.snapshots.last().version@,
            )
        }),
{
    assert(manifest_content(set).skip(2 + evidence_manifest(set.evidence).len() as int)
        =~= snapshot_manifest(set.snapshots));
}

} // verus!
