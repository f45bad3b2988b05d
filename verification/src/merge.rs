//! One set of evidence out of the answers of several backends.

use vstd::prelude::*;
use vstd::utf8::encode_utf8;

use crate::digest::{sha256, Digest32};
use crate::error::KnowledgeError;
use crate::evidence::{evidence_views, BackendEvidenceSet, BackendSetView, Evidence, EvidenceView};
use crate::evidence_set::{content_bytes, item_fits, EvidenceSet, EvidenceSetView, Selection};
use crate::knowledge::{
    allows_partial, FederatedFailurePolicy, KnowledgeRequest, RequestView, RetrievalLimits,
    MAX_RESULTS, MAX_TOTAL_EVIDENCE_BYTES,
};
use crate::metadata::{KnowledgeBackendId, KnowledgeSnapshotMetadata};
use crate::text::{byte_len, comes_before, hex, hex_text, str_equal, text_before, utf8_len};

verus! {

/// By what two pieces of evidence are taken for the same: the canonical reference, or the content
/// where there is none.
pub open spec fn identity_key(item: EvidenceView) -> Seq<char> {
    match item.canonical_reference {
        Some(reference) => reference,
        None => "content:"@ + hex_text(sha256(encode_utf8(item.content))),
    }
}

pub open spec fn key_seen(items: Seq<EvidenceView>, key: Seq<char>) -> bool {
    exists|i: int| 0 <= i < items.len() && identity_key(#[trigger] items[i]) == key
}

/// The items that fit, one after another, and of the same items only the first.
pub open spec fn deduplicated(items: Seq<EvidenceView>, limits: RetrievalLimits, truncated: bool)
    -> Selection
    decreases items.len(),
{
    if items.len() == 0 {
        Selection { selected: Seq::empty(), truncated }
    } else {
        let before = deduplicated(items.drop_last(), limits, truncated);
        if !key_seen(items.drop_last(), identity_key(items.last())) && item_fits(
            before.selected,
            items.last(),
            limits,
        ) {
            Selection { selected: before.selected.push(items.last()), ..before }
        } else {
            Selection { truncated: true, ..before }
        }
    }
}

/// The place of a backend in the order of priority: the last place at which the route names it.
/// One that is not named comes last of all.
pub open spec fn priority(backends: Seq<KnowledgeBackendId>, backend: KnowledgeBackendId) -> int
    decreases backends.len(),
{
    if backends.len() == 0 {
        usize::MAX as int
    } else if backends.last() == backend {
        backends.len() - 1
    } else {
        priority(backends.drop_last(), backend)
    }
}

fn priority_of(backends: &Vec<KnowledgeBackendId>, backend: KnowledgeBackendId) -> (r: usize)
    ensures
        r == priority(backends@, backend),
{
    let mut found: usize = usize::MAX;
    let mut i: usize = 0;
    while i < backends.len()
        invariant
            i <= backends.len(),
            found == priority(backends@.take(i as int), backend),
        decreases backends.len() - i,
    {
        proof {
            let next = backends@.take(i + 1);
            assert(next.drop_last() =~= backends@.take(i as int));
            assert(next.last() == backends@[i as int]);
        }
        if backends[i] == backend {
            found = i;
        }
        i = i + 1;
    }
    assert(backends@.take(i as int) =~= backends@);
    found
}

/// Whether one piece of evidence comes before another: by its rank at its backend, then by the
/// priority of the backend, then by its name. No score is looked at.
pub open spec fn ordered_before(
    a: EvidenceView,
    b: EvidenceView,
    backends: Seq<KnowledgeBackendId>,
) -> bool {
    if a.rank != b.rank {
        a.rank < b.rank
    } else if priority(backends, a.backend) != priority(backends, b.backend) {
        priority(backends, a.backend) < priority(backends, b.backend)
    } else {
        text_before(a.id, b.id)
    }
}

fn is_before(a: &Evidence, b: &Evidence, backends: &Vec<KnowledgeBackendId>) -> (r: bool)
    ensures
        r == ordered_before(a@, b@, backends@),
{
    if a.backend_rank() != b.backend_rank() {
        return a.backend_rank() < b.backend_rank();
    }
    let of_a = priority_of(backends, a.source().backend());
    let of_b = priority_of(backends, b.source().backend());
    if of_a != of_b {
        return of_a < of_b;
    }
    comes_before(a.id().as_str(), b.id().as_str())
}

/// A sorted sequence with one more item in it, behind all that it does not come before.
pub open spec fn inserted(
    items: Seq<EvidenceView>,
    item: EvidenceView,
    backends: Seq<KnowledgeBackendId>,
) -> Seq<EvidenceView>
    decreases items.len(),
{
    if items.len() > 0 && ordered_before(item, items.last(), backends) {
        inserted(items.drop_last(), item, backends).push(items.last())
    } else {
        items.push(item)
    }
}

/// The items in order; those that neither comes before the other stay as they stood.
pub open spec fn sorted(items: Seq<EvidenceView>, backends: Seq<KnowledgeBackendId>) -> Seq<
    EvidenceView,
>
    decreases items.len(),
{
    if items.len() == 0 {
        items
    } else {
        inserted(sorted(items.drop_last(), backends), items.last(), backends)
    }
}

proof fn inserted_at(
    items: Seq<EvidenceView>,
    item: EvidenceView,
    backends: Seq<KnowledgeBackendId>,
    at: int,
)
    requires
        0 <= at <= items.len(),
        at > 0 ==> !ordered_before(item, items[at - 1], backends),
        forall|i: int| at <= i < items.len() ==> ordered_before(item, #[trigger] items[i], backends),
    ensures
        inserted(items, item, backends) == items.insert(at, item),
    decreases items.len(),
{
    if at < items.len() {
        let init = items.drop_last();
        assert forall|i: int| at <= i < init.len() implies ordered_before(
            item,
            #[trigger] init[i],
            backends,
        ) by {
            assert(init[i] == items[i]);
        }
        assert(items[items.len() - 1] == items.last());
        inserted_at(init, item, backends, at);
        assert(init.insert(at, item).push(items.last()) =~= items.insert(at, item));
    } else {
        assert(items.push(item) =~= items.insert(at, item));
        if items.len() > 0 {
            assert(items.last() == items[at - 1]);
        }
    }
}

fn sort_evidence(items: Vec<Evidence>, backends: &Vec<KnowledgeBackendId>) -> (r: Vec<Evidence>)
    ensures
        evidence_views(r@) == sorted(evidence_views(items@), backends@),
{
    let ghost all = evidence_views(items@);
    let ghost count = items@.len() as int;
    let mut rest = items;
    let mut out: Vec<Evidence> = Vec::new();
    assert(evidence_views(out@) =~= sorted(all.take(0), backends@));
    assert(all.skip(0) =~= all);
    while rest.len() > 0
        invariant
            rest@.len() <= count == all.len(),
            evidence_views(rest@) == all.skip(count - rest@.len()),
            evidence_views(out@) == sorted(all.take(count - rest@.len()), backends@),
        decreases rest@.len(),
    {
        let ghost at = count - rest@.len();
        let ghost rest_before = rest@;
        let item = rest.remove(0);
        proof {
            assert(evidence_views(rest_before)[0] == item@);
            assert(all.skip(at)[0] == all[at]);
            assert(all.take(at + 1).drop_last() =~= all.take(at));
            assert(all.take(at + 1).last() == item@);
            assert(evidence_views(rest@) =~= all.skip(at + 1)) by {
                assert forall|i: int| 0 <= i < rest@.len() implies evidence_views(rest@)[i]
                    == all.skip(at + 1)[i] by {
                    assert(evidence_views(rest_before)[i + 1] == all.skip(at)[i + 1]);
                }
            }
        }
        let ghost before = out@;
        let ghost views = evidence_views(out@);
        let mut place: usize = out.len();
        while place > 0 && is_before(&item, &out[place - 1], backends)
            invariant
                place <= out@.len(),
                out@ == before,
                views == evidence_views(before),
                forall|i: int|
                    place <= i < views.len() ==> ordered_before(
                        item@,
                        #[trigger] views[i],
                        backends@,
                    ),
            ensures
                place <= out@.len(),
                place > 0 ==> !ordered_before(item@, views[place - 1], backends@),
                forall|i: int|
                    place <= i < views.len() ==> ordered_before(
                        item@,
                        #[trigger] views[i],
                        backends@,
                    ),
            decreases place,
        {
            assert(views[place - 1] == out@[place - 1]@);
            place = place - 1;
        }
        proof {
            inserted_at(views, item@, backends@, place as int);
        }
        out.insert(place, item);
        assert(evidence_views(out@) =~= views.insert(place as int, item@));
    }
    assert(all.take(count) =~= all);
    out
}

fn evidence_key(item: &Evidence) -> (r: String)
    ensures
        r@ == identity_key(item@),
{
    match item.canonical_reference() {
        Some(reference) => reference.to_owned(),
        None => {
            let digest = Digest32::of(item.content().as_bytes());
            let mut key = "content:".to_owned();
            key.append(hex(digest.as_bytes().as_slice()).as_str());
            key
        },
    }
}

fn contains_key(keys: &Vec<String>, key: &String) -> (r: bool)
    ensures
        r == exists|i: int| 0 <= i < keys@.len() && (#[trigger] keys@[i])@ == key@,
{
    let mut i: usize = 0;
    while i < keys.len()
        invariant
            i <= keys.len(),
            forall|j: int| 0 <= j < i ==> (#[trigger] keys@[j])@ != key@,
        decreases keys.len() - i,
    {
        if str_equal(keys[i].as_str(), key.as_str()) {
            return true;
        }
        i = i + 1;
    }
    false
}

/// Takes the items that fit, and of the same items only the first.
fn take_distinct(items: Vec<Evidence>, limits: RetrievalLimits, truncated: bool) -> (r: (
    Vec<Evidence>,
    bool,
))
    ensures
        (Selection { selected: evidence_views(r.0@), truncated: r.1 }) == deduplicated(
            evidence_views(items@),
            limits,
            truncated,
        ),
        r.0@.len() <= MAX_RESULTS,
        content_bytes(evidence_views(r.0@)) <= MAX_TOTAL_EVIDENCE_BYTES,
{
    let ghost all = evidence_views(items@);
    let ghost count = items@.len() as int;
    let max_results = limits.max_results();
    let max_item_bytes = limits.max_item_bytes();
    let max_total_bytes = limits.max_total_bytes();
    let mut rest = items;
    let mut selected: Vec<Evidence> = Vec::new();
    let mut keys: Vec<String> = Vec::new();
    let mut total: usize = 0;
    let mut cut = truncated;
    assert(evidence_views(selected@) =~= deduplicated(all.take(0), limits, truncated).selected);
    assert(all.skip(0) =~= all);
    while rest.len() > 0
        invariant
            rest@.len() <= count == all.len(),
            evidence_views(rest@) == all.skip(count - rest@.len()),
            (Selection { selected: evidence_views(selected@), truncated: cut }) == deduplicated(
                all.take(count - rest@.len()),
                limits,
                truncated,
            ),
            forall|i: int|
                0 <= i < keys@.len() ==> key_seen(
                    all.take(count - rest@.len()),
                    (#[trigger] keys@[i])@,
                ),
            forall|j: int|
                0 <= j < count - rest@.len() ==> exists|i: int|
                    0 <= i < keys@.len() && (#[trigger] keys@[i])@ == identity_key(
                        #[trigger] all[j],
                    ),
            total == content_bytes(evidence_views(selected@)),
            total <= max_total_bytes,
            selected@.len() <= max_results <= MAX_RESULTS,
            max_results == limits.results(),
            max_item_bytes == limits.item_bytes(),
            max_total_bytes == limits.total_bytes(),
            max_total_bytes <= MAX_TOTAL_EVIDENCE_BYTES,
        decreases rest@.len(),
    {
        let ghost at = count - rest@.len();
        let ghost rest_before = rest@;
        let item = rest.remove(0);
        proof {
            assert(evidence_views(rest_before)[0] == item@);
            assert(all.skip(at)[0] == all[at]);
            assert(all.take(at + 1).drop_last() =~= all.take(at));
            assert(all.take(at + 1).last() == item@);
            assert(evidence_views(rest@) =~= all.skip(at + 1)) by {
                assert forall|i: int| 0 <= i < rest@.len() implies evidence_views(rest@)[i]
                    == all.skip(at + 1)[i] by {
                    assert(evidence_views(rest_before)[i + 1] == all.skip(at)[i + 1]);
                }
            }
        }
        let key = evidence_key(&item);
        let seen = contains_key(&keys, &key);
        let ghost keys_before = keys@;
        proof {
            assert(seen == key_seen(all.take(at), identity_key(item@))) by {
                if key_seen(all.take(at), identity_key(item@)) {
                    let j = choose|j: int|
                        0 <= j < at && identity_key(#[trigger] all.take(at)[j]) == identity_key(
                            item@,
                        );
                    assert(all.take(at)[j] == all[j]);
                }
            }
        }
        let size = byte_len(item.content());
        if seen {
            cut = true;
        } else {
            keys.push(key);
            if selected.len() >= max_results || size > max_item_bytes || size > max_total_bytes
                - total {
                cut = true;
            } else {
                let ghost before = selected@;
                total = total + size;
                selected.push(item);
                proof {
                    assert(evidence_views(selected@) =~= evidence_views(before).push(item@));
                    assert(evidence_views(selected@).drop_last() =~= evidence_views(before));
                }
            }
        }
        proof {
            assert forall|i: int| 0 <= i < keys@.len() implies key_seen(
                all.take(at + 1),
                (#[trigger] keys@[i])@,
            ) by {
                if i < keys_before.len() {
                    assert(keys@[i] == keys_before[i]);
                    let j = choose|j: int|
                        0 <= j < at && identity_key(#[trigger] all.take(at)[j]) == keys@[i]@;
                    assert(all.take(at + 1)[j] == all.take(at)[j]);
                } else {
                    assert(all.take(at + 1)[at] == item@);
                }
            }
            assert forall|j: int| 0 <= j < at + 1 implies exists|i: int|
                0 <= i < keys@.len() && (#[trigger] keys@[i])@ == identity_key(
                    #[trigger] all[j],
                ) by {
                if j < at {
                    let i = choose|i: int|
                        0 <= i < keys_before.len() && (#[trigger] keys_before[i])@ == identity_key(
                            all[j],
                        );
                    assert(keys@[i] == keys_before[i]);
                } else if seen {
                    let k = choose|k: int|
                        0 <= k < keys_before.len() && (#[trigger] keys_before[k])@ == key@;
                    assert(keys@[k]@ == identity_key(all[j]));
                } else {
                    assert(keys@[keys_before.len() as int]@ == identity_key(all[j]));
                }
            }
        }
    }
    assert(all.take(count) =~= all);
    (selected, cut)
}

/// What each backend of a route answered.
pub type BackendResult = (KnowledgeBackendId, Result<BackendEvidenceSet, KnowledgeError>);

#[verifier::ext_equal]
pub struct AnswerView {
    pub backend: KnowledgeBackendId,
    pub answer: Result<BackendSetView, KnowledgeError>,
}

pub open spec fn answer_view(result: BackendResult) -> AnswerView {
    AnswerView {
        backend: result.0,
        answer: match result.1 {
            Ok(set) => Ok(set@),
            Err(error) => Err(error),
        },
    }
}

pub open spec fn answer_views(results: Seq<BackendResult>) -> Seq<AnswerView> {
    Seq::new(results.len(), |i: int| answer_view(results[i]))
}

/// The first failure among the answers.
pub open spec fn first_failure(answers: Seq<AnswerView>) -> Option<KnowledgeError>
    decreases answers.len(),
{
    if answers.len() == 0 {
        None
    } else {
        match first_failure(answers.drop_last()) {
            Some(error) => Some(error),
            None => match answers.last().answer {
                Ok(_) => None,
                Err(error) => Some(error),
            },
        }
    }
}

/// What the answers amount to, before anything is sorted or left out.
#[verifier::ext_equal]
pub struct Gathered {
    /// Whether any backend answered.
    pub succeeded: bool,
    pub candidates: Seq<EvidenceView>,
    pub snapshots: Seq<KnowledgeSnapshotMetadata>,
    pub failed: Seq<KnowledgeBackendId>,
    pub truncated: bool,
}

pub open spec fn gathered(answers: Seq<AnswerView>) -> Gathered
    decreases answers.len(),
{
    if answers.len() == 0 {
        Gathered {
            succeeded: false,
            candidates: Seq::empty(),
            snapshots: Seq::empty(),
            failed: Seq::empty(),
            truncated: false,
        }
    } else {
        let before = gathered(answers.drop_last());
        match answers.last().answer {
            Err(_) => Gathered { failed: before.failed.push(answers.last().backend), ..before },
            Ok(set) => Gathered {
                succeeded: true,
                candidates: before.candidates + set.evidence,
                snapshots: match set.snapshot {
                    None => before.snapshots,
                    Some(snapshot) => before.snapshots.push(snapshot),
                },
                failed: before.failed,
                truncated: before.truncated || set.truncated,
            },
        }
    }
}

/// The set that the answers to a request merge to.
pub open spec fn merged(request: RequestView, answers: Seq<AnswerView>) -> Result<
    EvidenceSetView,
    KnowledgeError,
> {
    let all = gathered(answers);
    if !allows_partial(request.route) && first_failure(answers) is Some {
        Err(first_failure(answers)->0)
    } else if !all.succeeded && all.failed.len() > 0 {
        Err(KnowledgeError::AllBackendsFailed)
    } else {
        let selection = deduplicated(
            sorted(all.candidates, request.route.backends()),
            request.limits,
            all.truncated,
        );
        Ok(
            EvidenceSetView {
                evidence: selection.selected,
                snapshots: all.snapshots,
                failed_backends: all.failed,
                truncated: selection.truncated,
                degraded: all.failed.len() > 0,
            },
        )
    }
}

proof fn first_failure_of_beginning(answers: Seq<AnswerView>, n: int)
    requires
        0 <= n <= answers.len(),
        first_failure(answers.take(n)) is Some,
    ensures
        first_failure(answers) == first_failure(answers.take(n)),
    decreases answers.len(),
{
    if n < answers.len() {
        assert(answers.drop_last().take(n) =~= answers.take(n));
        first_failure_of_beginning(answers.drop_last(), n);
    } else {
        assert(answers.take(n) =~= answers);
    }
}

/// Merges what the backends of a request's route answered.
pub fn merge_backend_results(request: &KnowledgeRequest, results: Vec<BackendResult>) -> (r: Result<
    EvidenceSet,
    KnowledgeError,
>)
    ensures
        match r {
            Ok(set) => merged(request@, answer_views(results@)) == Ok::<
                EvidenceSetView,
                KnowledgeError,
            >(set@),
            Err(error) => merged(request@, answer_views(results@)) == Err::<
                EvidenceSetView,
                KnowledgeError,
            >(error),
        },
{
    let ghost all = answer_views(results@);
    let ghost count = results@.len() as int;
    let require_all = request.route().failure_policy() == FederatedFailurePolicy::RequireAll;
    let mut rest = results;
    let mut succeeded = false;
    let mut candidates: Vec<Evidence> = Vec::new();
    let mut snapshots: Vec<KnowledgeSnapshotMetadata> = Vec::new();
    let mut failed: Vec<KnowledgeBackendId> = Vec::new();
    let mut truncated = false;
    assert(all.skip(0) =~= all);
    proof {
        let none = gathered(all.take(0));
        assert(evidence_views(candidates@) =~= none.candidates);
        assert(snapshots@ =~= none.snapshots);
        assert(failed@ =~= none.failed);
    }
    while rest.len() > 0
        invariant
            rest@.len() <= count == all.len(),
            answer_views(rest@) == all.skip(count - rest@.len()),
            require_all == !allows_partial(request@.route),
            require_all ==> first_failure(all.take(count - rest@.len())) is None,
            gathered(all.take(count - rest@.len())) == (Gathered {
                succeeded,
                candidates: evidence_views(candidates@),
                snapshots: snapshots@,
                failed: failed@,
                truncated,
            }),
            all == answer_views(results@),
        decreases rest@.len(),
    {
        let ghost at = count - rest@.len();
        let ghost rest_before = rest@;
        let ghost before = gathered(all.take(at));
        let (backend, result) = rest.remove(0);
        proof {
            assert(answer_views(rest_before)[0] == answer_view((backend, result)));
            assert(all.skip(at)[0] == all[at]);
            assert(all.take(at + 1).drop_last() =~= all.take(at));
            assert(all.take(at + 1).last() == answer_view((backend, result)));
            assert(answer_views(rest@) =~= all.skip(at + 1)) by {
                assert forall|i: int| 0 <= i < rest@.len() implies answer_views(rest@)[i]
                    == all.skip(at + 1)[i] by {
                    assert(answer_views(rest_before)[i + 1] == all.skip(at)[i + 1]);
                }
            }
        }
        match result {
            Ok(set) => {
                let (mut items, snapshot, cut) = set.into_parts();
                let ghost held = candidates@;
                let ghost added = items@;
                candidates.append(&mut items);
                proof {
                    assert(evidence_views(candidates@) =~= evidence_views(held) + evidence_views(
                        added,
                    ));
                }
                match snapshot {
                    None => {},
                    Some(snapshot) => {
                        snapshots.push(snapshot);
                    },
                }
                truncated = truncated || cut;
                succeeded = true;
            },
            Err(error) => {
                if require_all {
                    proof {
                        first_failure_of_beginning(all, at + 1);
                    }
                    return Err(error);
                }
                failed.push(backend);
            },
        }
    }
    assert(all.take(count) =~= all);
    if !succeeded && failed.len() > 0 {
        return Err(KnowledgeError::AllBackendsFailed);
    }
    let backends = request.route().backends();
    let ordered = sort_evidence(candidates, &backends);
    let (selected, cut) = take_distinct(ordered, request.limits(), truncated);
    let degraded = failed.len() > 0;
    match EvidenceSet::build(selected, snapshots, failed, cut, degraded) {
        Ok(set) => Ok(set),
        Err(_) => Err(KnowledgeError::MalformedResponse),
    }
}

/// What a piece of evidence says beside its score.
pub open spec fn without_score(item: EvidenceView) -> EvidenceView {
    EvidenceView { score: None, ..item }
}

pub open spec fn without_scores(items: Seq<EvidenceView>) -> Seq<EvidenceView> {
    Seq::new(items.len(), |i: int| without_score(items[i]))
}

proof fn scores_do_not_place(
    items: Seq<EvidenceView>,
    item: EvidenceView,
    backends: Seq<KnowledgeBackendId>,
)
    ensures
        without_scores(inserted(items, item, backends)) == inserted(
            without_scores(items),
            without_score(item),
            backends,
        ),
    decreases items.len(),
{
    let bare = without_scores(items);
    if items.len() > 0 && ordered_before(item, items.last(), backends) {
        scores_do_not_place(items.drop_last(), item, backends);
        assert(without_scores(items.drop_last()) =~= bare.drop_last());
        assert(without_scores(inserted(items, item, backends)) =~= without_scores(
            inserted(items.drop_last(), item, backends),
        ).push(without_score(items.last())));
    } else {
        assert(without_scores(items.push(item)) =~= bare.push(without_score(item)));
    }
}

/// The order of evidence never depends on a score, whichever backend gave it.
pub proof fn law_scores_do_not_order(items: Seq<EvidenceView>, backends: Seq<KnowledgeBackendId>)
    ensures
        without_scores(sorted(items, backends)) == sorted(without_scores(items), backends),
    decreases items.len(),
{
    let bare = without_scores(items);
    if items.len() > 0 {
        law_scores_do_not_order(items.drop_last(), backends);
        scores_do_not_place(sorted(items.drop_last(), backends), items.last(), backends);
        assert(without_scores(items.drop_last()) =~= bare.drop_last());
    } else {
        assert(without_scores(items) =~= items);
    }
}

proof fn scores_do_not_total(items: Seq<EvidenceView>)
    ensures
        content_bytes(without_scores(items)) == content_bytes(items),
    decreases items.len(),
{
    if items.len() > 0 {
        scores_do_not_total(items.drop_last());
        assert(without_scores(items).drop_last() =~= without_scores(items.drop_last()));
    }
}

/// Which evidence is taken never depends on a score.
pub proof fn law_scores_do_not_select(
    items: Seq<EvidenceView>,
    limits: RetrievalLimits,
    truncated: bool,
)
    ensures
        ({
            let with = deduplicated(items, limits, truncated);
            let without = deduplicated(without_scores(items), limits, truncated);
            without.selected == without_scores(with.selected) && without.truncated
                == with.truncated
        }),
    decreases items.len(),
{
    let bare = without_scores(items);
    if items.len() > 0 {
        let init = items.drop_last();
        law_scores_do_not_select(init, limits, truncated);
        assert(bare.drop_last() =~= without_scores(init));
        let before = deduplicated(init, limits, truncated);
        scores_do_not_total(before.selected);
        let key = identity_key(items.last());
        assert(identity_key(bare.last()) == key);
        assert(key_seen(without_scores(init), key) == key_seen(init, key)) by {
            if key_seen(init, key) {
                let i = choose|i: int|
                    0 <= i < init.len() && identity_key(#[trigger] init[i]) == key;
                assert(identity_key(without_scores(init)[i]) == key);
            }
            if key_seen(without_scores(init), key) {
                let i = choose|i: int|
                    0 <= i < init.len() && identity_key(#[trigger] without_scores(init)[i])
                        == key;
                assert(identity_key(init[i]) == key);
            }
        }
        assert(without_scores(before.selected.push(items.last())) =~= without_scores(
            before.selected,
        ).push(without_score(items.last())));
    } else {
        assert(without_scores(deduplicated(items, limits, truncated).selected) =~= Seq::empty());
    }
}

/// What is taken stays within the limits, no two of it are the same, and all of it was offered.
pub proof fn law_selection_is_bounded_and_distinct(
    items: Seq<EvidenceView>,
    limits: RetrievalLimits,
    truncated: bool,
)
    ensures
        ({
            let taken = deduplicated(items, limits, truncated).selected;
            &&& taken.len() <= limits.results()
            &&& content_bytes(taken) <= limits.total_bytes()
            &&& forall|i: int|
                0 <= i < taken.len() ==> utf8_len((#[trigger] taken[i]).content)
                    <= limits.item_bytes() && items.contains(taken[i])
            &&& forall|i: int, j: int|
                0 <= i < j < taken.len() ==> identity_key(#[trigger] taken[i]) != identity_key(
                    #[trigger] taken[j],
                )
        }),
    decreases items.len(),
{
    if items.len() > 0 {
        let init = items.drop_last();
        law_selection_is_bounded_and_distinct(init, limits, truncated);
        let before = deduplicated(init, limits, truncated).selected;
        let taken = deduplicated(items, limits, truncated).selected;
        assert forall|i: int| 0 <= i < taken.len() implies utf8_len((#[trigger] taken[i]).content)
            <= limits.item_bytes() && items.contains(taken[i]) by {
            if i < before.len() {
                assert(taken[i] == before[i]);
                let k = choose|k: int| 0 <= k < init.len() && init[k] == before[i];
                assert(items[k] == taken[i]);
            } else {
                assert(items[items.len() - 1] == taken[i]);
            }
        }
        if taken.len() > before.len() {
            assert(taken.drop_last() =~= before);
            assert forall|i: int, j: int| 0 <= i < j < taken.len() implies identity_key(
                #[trigger] taken[i],
            ) != identity_key(#[trigger] taken[j]) by {
                assert(taken[i] == before[i]);
                if j < before.len() {
                    assert(taken[j] == before[j]);
                } else {
                    let k = choose|k: int| 0 <= k < init.len() && init[k] == before[i];
                    assert(identity_key(init[k]) == identity_key(taken[i]));
                }
            }
        }
    }
}

/// Whatever is left out of what was offered shows in the `truncated` flag.
pub proof fn law_omission_shows(
    items: Seq<EvidenceView>,
    limits: RetrievalLimits,
    truncated: bool,
)
    ensures
        ({
            let selection = deduplicated(items, limits, truncated);
            &&& !selection.truncated ==> selection.selected == items && !truncated
            &&& selection.truncated ==> truncated || selection.selected.len() < items.len()
            &&& selection.selected.len() <= items.len()
        }),
    decreases items.len(),
{
    if items.len() > 0 {
        law_omission_shows(items.drop_last(), limits, truncated);
        assert(items.drop_last().push(items.last()) =~= items);
    }
}

/// Of three pieces, none comes before itself, and the order carries over.
proof fn order_is_strict(
    a: EvidenceView,
    b: EvidenceView,
    c: EvidenceView,
    backends: Seq<KnowledgeBackendId>,
)
    ensures
        !ordered_before(a, a, backends),
        ordered_before(a, b, backends) && ordered_before(b, c, backends) ==> ordered_before(
            a,
            c,
            backends,
        ),
        !ordered_before(b, a, backends) && !ordered_before(c, b, backends) ==> !ordered_before(
            c,
            a,
            backends,
        ),
{
    texts_are_ordered(a.id, a.id, a.id);
    texts_are_ordered(a.id, b.id, c.id);
    texts_are_ordered(c.id, b.id, a.id);
}

proof fn texts_are_ordered(a: Seq<char>, b: Seq<char>, c: Seq<char>)
    ensures
        !text_before(a, a),
        text_before(a, b) && text_before(b, c) ==> text_before(a, c),
        !text_before(b, a) && !text_before(c, b) ==> !text_before(c, a),
    decreases a.len() + b.len() + c.len(),
{
    if a.len() > 0 {
        texts_are_ordered(a.drop_first(), seq![], seq![]);
    }
    if a.len() > 0 && b.len() > 0 && c.len() > 0 {
        texts_are_ordered(a.drop_first(), b.drop_first(), c.drop_first());
    }
}

pub open spec fn is_sorted(items: Seq<EvidenceView>, backends: Seq<KnowledgeBackendId>) -> bool {
    forall|i: int, j: int|
        0 <= i < j < items.len() ==> !ordered_before(
            #[trigger] items[j],
            #[trigger] items[i],
            backends,
        )
}

proof fn insertion_keeps_order(
    items: Seq<EvidenceView>,
    item: EvidenceView,
    backends: Seq<KnowledgeBackendId>,
)
    requires
        is_sorted(items, backends),
    ensures
        is_sorted(inserted(items, item, backends), backends),
        inserted(items, item, backends).to_multiset() == items.to_multiset().insert(item),
        forall|i: int|
            0 <= i < inserted(items, item, backends).len() ==> (#[trigger] inserted(
                items,
                item,
                backends,
            )[i]) == item || items.contains(inserted(items, item, backends)[i]),
    decreases items.len(),
{
    broadcast use vstd::seq_lib::group_to_multiset_ensures;

    let out = inserted(items, item, backends);
    if items.len() > 0 && ordered_before(item, items.last(), backends) {
        let init = items.drop_last();
        insertion_keeps_order(init, item, backends);
        let inner = inserted(init, item, backends);
        assert(init.push(items.last()) =~= items);
        assert forall|i: int| 0 <= i < out.len() implies (#[trigger] out[i]) == item
            || items.contains(out[i]) by {
            if i < inner.len() {
                assert(out[i] == inner[i]);
                if inner[i] != item {
                    let k = choose|k: int| 0 <= k < init.len() && init[k] == inner[i];
                    assert(items[k] == out[i]);
                }
            } else {
                assert(items[items.len() - 1] == out[i]);
            }
        }
        assert forall|i: int, j: int| 0 <= i < j < out.len() implies !ordered_before(
            #[trigger] out[j],
            #[trigger] out[i],
            backends,
        ) by {
            assert(out[i] == inner[i]);
            if j < inner.len() {
                assert(out[j] == inner[j]);
            } else {
                assert(out[j] == items.last());
                if inner[i] == item {
                    order_is_strict(item, items.last(), item, backends);
                } else {
                    let k = choose|k: int| 0 <= k < init.len() && init[k] == inner[i];
                    assert(items[k] == out[i]);
                    assert(items[items.len() - 1] == out[j]);
                }
            }
        }
    } else {
        assert forall|i: int, j: int| 0 <= i < j < out.len() implies !ordered_before(
            #[trigger] out[j],
            #[trigger] out[i],
            backends,
        ) by {
            assert(out[i] == items[i]);
            if j < items.len() {
                assert(out[j] == items[j]);
            } else {
                let last = items.last();
                assert(items[items.len() - 1] == last);
                if i < items.len() - 1 {
                    assert(!ordered_before(last, items[i], backends));
                    order_is_strict(items[i], last, item, backends);
                }
            }
        }
        assert forall|i: int| 0 <= i < out.len() implies (#[trigger] out[i]) == item
            || items.contains(out[i]) by {
            if i < items.len() {
                assert(items[i] == out[i]);
            }
        }
    }
}

/// Sorting brings evidence in order, and neither loses nor adds any.
pub proof fn law_sorting_orders_and_keeps(
    items: Seq<EvidenceView>,
    backends: Seq<KnowledgeBackendId>,
)
    ensures
        is_sorted(sorted(items, backends), backends),
        sorted(items, backends).to_multiset() == items.to_multiset(),
    decreases items.len(),
{
    broadcast use vstd::seq_lib::group_to_multiset_ensures;

    if items.len() > 0 {
        let init = items.drop_last();
        law_sorting_orders_and_keeps(init, backends);
        insertion_keeps_order(sorted(init, backends), items.last(), backends);
        assert(init.push(items.last()) =~= items);
    }
}

/// What is taken of sorted evidence is sorted.
proof fn selection_keeps_order(
    items: Seq<EvidenceView>,
    limits: RetrievalLimits,
    truncated: bool,
    backends: Seq<KnowledgeBackendId>,
)
    requires
        is_sorted(items, backends),
    ensures
        is_sorted(deduplicated(items, limits, truncated).selected, backends),
    decreases items.len(),
{
    if items.len() > 0 {
        let init = items.drop_last();
        assert forall|i: int, j: int| 0 <= i < j < init.len() implies !ordered_before(
            #[trigger] init[j],
            #[trigger] init[i],
            backends,
        ) by {
            assert(init[i] == items[i] && init[j] == items[j]);
        }
        selection_keeps_order(init, limits, truncated, backends);
        law_selection_is_bounded_and_distinct(init, limits, truncated);
        let before = deduplicated(init, limits, truncated).selected;
        let taken = deduplicated(items, limits, truncated).selected;
        assert forall|i: int, j: int| 0 <= i < j < taken.len() implies !ordered_before(
            #[trigger] taken[j],
            #[trigger] taken[i],
            backends,
        ) by {
            assert(taken[i] == before[i]);
            if j < before.len() {
                assert(taken[j] == before[j]);
            } else {
                let k = choose|k: int| 0 <= k < init.len() && init[k] == before[i];
                assert(items[k] == taken[i]);
                assert(items[items.len() - 1] == taken[j]);
            }
        }
    }
}

/// Merged evidence is in order: by its rank at its backend, then by the backend's place in the
/// route, then by its name. It is within the limits of the request, no two pieces of it are the
/// same, and every piece was in an answer.
pub proof fn law_merged_evidence_is_ordered(request: RequestView, answers: Seq<AnswerView>)
    ensures
        merged(request, answers) matches Ok(set) ==> {
            &&& is_sorted(set.evidence, request.route.backends())
            &&& set.evidence.len() <= request.limits.results()
            &&& content_bytes(set.evidence) <= request.limits.total_bytes()
            &&& forall|i: int, j: int|
                0 <= i < j < set.evidence.len() ==> identity_key(#[trigger] set.evidence[i])
                    != identity_key(#[trigger] set.evidence[j])
            &&& forall|i: int|
                0 <= i < set.evidence.len() ==> gathered(answers).candidates.contains(
                    #[trigger] set.evidence[i],
                )
        },
{
    broadcast use vstd::seq_lib::group_to_multiset_ensures;

    if merged(request, answers) is Ok {
        let all = gathered(answers);
        let backends = request.route.backends();
        let ordered = sorted(all.candidates, backends);
        law_sorting_orders_and_keeps(all.candidates, backends);
        selection_keeps_order(ordered, request.limits, all.truncated, backends);
        law_selection_is_bounded_and_distinct(ordered, request.limits, all.truncated);
        let taken = deduplicated(ordered, request.limits, all.truncated).selected;
        assert forall|i: int| 0 <= i < taken.len() implies all.candidates.contains(
            #[trigger] taken[i],
        ) by {
            assert(ordered.contains(taken[i]));
            assert(ordered.to_multiset().contains(taken[i]));
        }
    }
}

/// A set is degraded exactly where a backend failed, and then only where the route allows it.
pub proof fn law_degraded_means_failed(request: RequestView, answers: Seq<AnswerView>)
    ensures
        merged(request, answers) matches Ok(set) ==> {
            &&& set.degraded == (first_failure(answers) is Some)
            &&& set.degraded ==> allows_partial(request.route)
            &&& set.degraded == (set.failed_backends.len() > 0)
        },
{
    failures_are_gathered(answers);
}

proof fn failures_are_gathered(answers: Seq<AnswerView>)
    ensures
        gathered(answers).failed.len() > 0 <==> first_failure(answers) is Some,
    decreases answers.len(),
{
    if answers.len() > 0 {
        failures_are_gathered(answers.drop_last());
    }
}

} // verus!
