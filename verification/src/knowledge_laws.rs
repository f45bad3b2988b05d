//! What may be asked of a backend, what its answers may hold, and what becomes of them.

use vstd::prelude::*;
use vstd::utf8::encode_utf8;

use crate::error::KnowledgeError;
use crate::evidence::{
    bits_are_finite, content_fits, is_optional_bounded, BackendSetView, EvidenceMetadata,
    EvidenceView, NativeScore, NativeScoreSystem,
};
use crate::json::{json_at, parsed_json, value_json, JsonModel};
use crate::knowledge::{
    limits_valid, query_fault, required_version, requirements_on, KnowledgeRequestError,
    RequestView,
};
use crate::metadata::{KnowledgeBackendId, RouteView};
use crate::ocpp::{base_fits, head_fault, search_params, ScoredChunk, SearchResponse, UrlModel};
use crate::routing::{backend_request, first_missing};
use crate::standards::{
    answered_search, answered_version, is_initialize_call, is_initialized_notice, is_search_call,
    line_part, process_fits, Exchange, MessageStep, StandardsResponse, StandardsResult,
};
use crate::text::{bounded_text, decimal_text, is_control, truncated};
use crate::text_laws::law_cut_keeps_the_longest_beginning;

verus! {

/// No character of the text is a control character: none below space, and none from delete to the
/// end of the second block of controls.
pub open spec fn is_plain(text: Seq<char>) -> bool {
    forall|i: int|
        0 <= i < text.len() ==> 0x20 <= (#[trigger] text[i]) as u32 && !(0x7f <= text[i] as u32
            <= 0x9f)
}

proof fn plain_holds_no_control(text: Seq<char>)
    ensures
        crate::text::has_control(text) <==> !is_plain(text),
{
    if !crate::text::has_control(text) {
        assert forall|i: int| 0 <= i < text.len() implies 0x20 <= (#[trigger] text[i]) as u32 && !(
        0x7f <= text[i] as u32 <= 0x9f) by {
            assert(!is_control(text[i]));
        }
    } else {
        let i = choose|i: int| 0 <= i < text.len() && is_control(#[trigger] text[i]);
        assert(!(0x20 <= text[i] as u32 && !(0x7f <= text[i] as u32 <= 0x9f)));
    }
}

/// A text is bounded where it is there, has so many bytes at most, and holds no control character.
pub proof fn law_bounded_text_is_plain(text: Seq<char>, max: int)
    ensures
        bounded_text(text, max) <==> 0 < text.len() && encode_utf8(text).len() <= max && is_plain(
            text,
        ),
{
    plain_holds_no_control(text);
}

/// A query has one to 1024 bytes and no control character. One that is not there is told apart from
/// one that may not be asked.
pub proof fn law_query_is_bounded(text: Seq<char>)
    ensures
        query_fault(text) is None <==> 0 < text.len() && encode_utf8(text).len() <= 1024
            && is_plain(text),
        text.len() == 0 ==> query_fault(text) == Some(KnowledgeRequestError::EmptyQuery),
        text.len() > 0 && query_fault(text) is Some ==> query_fault(text) == Some(
            KnowledgeRequestError::InvalidQuery,
        ),
{
    plain_holds_no_control(text);
}

/// Limits are positive: eight results, 4096 bytes an item and 16384 bytes in all at most. So are
/// the bounds of evidence itself.
pub proof fn law_limits_are_bounded(
    results: int,
    item_bytes: int,
    total_bytes: int,
    content: Seq<char>,
)
    ensures
        limits_valid(results, item_bytes, total_bytes) <==> 1 <= results <= 8 && 1 <= item_bytes
            <= 4096 && 1 <= total_bytes <= 16384,
        content_fits(content) <==> 0 < content.len() && encode_utf8(content).len() <= 4096,
{
}

/// A single route has one backend. A federated route has one or two, none twice.
pub proof fn law_route_names_backends_once(route: RouteView)
    ensures
        route.valid() <==> (route is Single || (1 <= route.backends().len() <= 2 && forall|
            i: int,
            j: int,
        |
            0 <= i < j < route.backends().len() ==> route.backends()[i] != route.backends()[j])),
        route matches RouteView::Single { backend } ==> route.backends() == seq![backend],
        route matches RouteView::Federated { backends, .. } ==> route.backends() == backends,
{
}

/// An answer holds eight pieces at most, all of the backend that answered, and a snapshot only of
/// that backend.
pub proof fn law_answer_is_the_backends_own(set: BackendSetView)
    ensures
        set.valid() <==> {
            &&& set.evidence.len() <= 8
            &&& forall|i: int|
                0 <= i < set.evidence.len() ==> (#[trigger] set.evidence[i]).backend == set.backend
            &&& set.snapshot matches Some(snapshot) ==> snapshot.backend == set.backend && 0
                < snapshot.version@.len() && encode_utf8(snapshot.version@).len() <= 128
                && is_plain(snapshot.version@)
        },
{
    if set.snapshot is Some {
        plain_holds_no_control(set.snapshot->0.version@);
    }
}

/// The version that is required of a backend is that of the first requirement on it; none is
/// required where no requirement names it.
pub proof fn law_required_version_is_the_first(
    snapshots: Seq<(KnowledgeBackendId, Seq<char>)>,
    backend: KnowledgeBackendId,
    at: int,
)
    requires
        0 <= at <= snapshots.len(),
        forall|i: int| 0 <= i < at ==> (#[trigger] snapshots[i]).0 != backend,
    ensures
        at < snapshots.len() && snapshots[at].0 == backend ==> required_version(snapshots, backend)
            == Some(snapshots[at].1),
        at == snapshots.len() ==> required_version(snapshots, backend) is None,
    decreases snapshots.len(),
{
    if snapshots.len() > 0 && at > 0 {
        assert(snapshots[0].0 != backend);
        let rest = snapshots.drop_first();
        assert forall|i: int| 0 <= i < at - 1 implies (#[trigger] rest[i]).0 != backend by {
            assert(rest[i] == snapshots[i + 1]);
        }
        law_required_version_is_the_first(rest, backend, at - 1);
        if at < snapshots.len() {
            assert(rest[at - 1] == snapshots[at]);
        }
    }
}

/// A backend is asked the same question within the same limits, alone, and with the requirements
/// that name it, in their order, and no others.
pub proof fn law_backend_is_asked_its_part(
    request: RequestView,
    backend: KnowledgeBackendId,
    requirement: (KnowledgeBackendId, Seq<char>),
)
    ensures
        ({
            let asked = backend_request(request, backend);
            &&& asked.query == request.query
            &&& asked.limits == request.limits
            &&& asked.route == (RouteView::Single { backend })
            &&& asked.snapshots.contains(requirement) <==> requirement.0 == backend
                && request.snapshots.contains(requirement)
        }),
        requirements_on(request.snapshots.push(requirement), backend) == (if requirement.0
            == backend {
            requirements_on(request.snapshots, backend).push(requirement)
        } else {
            requirements_on(request.snapshots, backend)
        }),
        requirements_on(Seq::empty(), backend) == Seq::<(KnowledgeBackendId, Seq<char>)>::empty(),
{
    requirement_is_kept(request.snapshots, backend, requirement);
    assert(request.snapshots.push(requirement).drop_last() =~= request.snapshots);
}

proof fn requirement_is_kept(
    snapshots: Seq<(KnowledgeBackendId, Seq<char>)>,
    backend: KnowledgeBackendId,
    requirement: (KnowledgeBackendId, Seq<char>),
)
    ensures
        requirements_on(snapshots, backend).contains(requirement) <==> requirement.0 == backend
            && snapshots.contains(requirement),
    decreases snapshots.len(),
{
    if snapshots.len() > 0 {
        let init = snapshots.drop_last();
        let last = snapshots.last();
        requirement_is_kept(init, backend, requirement);
        let kept = requirements_on(init, backend);
        assert(init.push(last) =~= snapshots);
        assert(snapshots.contains(requirement) <==> init.contains(requirement) || requirement
            == last) by {
            if init.contains(requirement) {
                let i = choose|i: int| 0 <= i < init.len() && init[i] == requirement;
                assert(snapshots[i] == requirement);
            }
            assert(snapshots[snapshots.len() - 1] == last);
            if snapshots.contains(requirement) {
                let i = choose|i: int| 0 <= i < snapshots.len() && snapshots[i] == requirement;
                if i < init.len() {
                    assert(init[i] == requirement);
                }
            }
        }
        assert(kept.push(last).contains(requirement) <==> kept.contains(requirement) || requirement
            == last) by {
            if kept.contains(requirement) {
                let i = choose|i: int| 0 <= i < kept.len() && kept[i] == requirement;
                assert(kept.push(last)[i] == requirement);
            }
            assert(kept.push(last)[kept.len() as int] == last);
            if kept.push(last).contains(requirement) {
                let i = choose|i: int|
                    0 <= i < kept.push(last).len() && kept.push(last)[i] == requirement;
                if i < kept.len() {
                    assert(kept[i] == requirement);
                }
            }
        }
    }
}

/// The first backend of a route that is not registered is the first: every backend before it is
/// registered. None is missing where all are registered.
pub proof fn law_missing_backend_is_the_first(
    route: Seq<KnowledgeBackendId>,
    registered: Seq<KnowledgeBackendId>,
    at: int,
)
    requires
        0 <= at <= route.len(),
        forall|i: int| 0 <= i < at ==> registered.contains(#[trigger] route[i]),
    ensures
        at < route.len() && !registered.contains(route[at]) ==> first_missing(route, registered)
            == Some(route[at]),
        at == route.len() ==> first_missing(route, registered) is None,
    decreases route.len(),
{
    if route.len() > 0 {
        let init = route.drop_last();
        if at == route.len() {
            assert(registered.contains(route[at - 1]));
            assert forall|i: int| 0 <= i < at - 1 implies registered.contains(
                #[trigger] init[i],
            ) by {
                assert(init[i] == route[i]);
            }
            law_missing_backend_is_the_first(init, registered, at - 1);
        } else {
            assert forall|i: int| 0 <= i < at implies registered.contains(#[trigger] init[i]) by {
                assert(init[i] == route[i]);
            }
            law_missing_backend_is_the_first(init, registered, at);
            if at < init.len() {
                assert(init[at] == route[at]);
            }
        }
    }
}

/// A score of this sign, exponent and fraction is a finite number exactly where the exponent is not
/// the highest.
pub proof fn law_finite_scores_are_told_by_the_exponent(
    bits: u64,
    sign: int,
    exponent: int,
    fraction: int,
)
    requires
        0 <= sign < 2,
        0 <= exponent < 2048,
        0 <= fraction < 0x10_0000_0000_0000,
        bits == sign * 0x8000_0000_0000_0000 + exponent * 0x10_0000_0000_0000 + fraction,
    ensures
        bits_are_finite(bits) <==> exponent != 2047,
{
    let unit = 0x10_0000_0000_0000int;
    let high = sign * 2048 + exponent;
    assert(bits == high * unit + fraction);
    assert(bits as int / unit == high) by (nonlinear_arith)
        requires
            bits == high * unit + fraction,
            0 <= fraction < unit,
            unit == 0x10_0000_0000_0000,
    ;
    assert(high % 2048 == exponent);
}

/// A text that is there, has so many bytes at most and holds no control character.
pub open spec fn fits_within(text: Seq<char>, max: int) -> bool {
    0 < text.len() && encode_utf8(text).len() <= max && is_plain(text)
}

/// The same of a text that need not be there.
pub open spec fn absent_or_fits(text: Option<String>) -> bool {
    match text {
        None => true,
        Some(there) => fits_within(there@, 512),
    }
}

proof fn absent_or_bounded(text: Option<String>)
    ensures
        is_optional_bounded(text) <==> absent_or_fits(text),
{
    if text is Some {
        plain_holds_no_control(text->0@);
    }
}

/// A result of the OCPP search is taken exactly where it has content of which something is left
/// once it is cut, a finite score, names of 256 bytes at most, and other texts of 512 bytes at most,
/// where it has them.
pub proof fn law_ocpp_result_is_taken(result: ScoredChunk, max: int)
    ensures
        result.usable(max) <==> {
            &&& result.content matches Some(content) && 0 < truncated(content@, max).len()
                && encode_utf8(truncated(content@, max)).len() <= 4096
            &&& bits_are_finite(result.score_bits)
            &&& fits_within("ocpp:"@ + result.chunk_id@, 256)
            &&& fits_within(result.document_id@ + ":"@ + result.chunk_id@, 256)
            &&& fits_within(result.chunk_id@, 512)
            &&& fits_within(result.document_id@, 512)
            &&& fits_within(result.strategy@, 512)
            &&& absent_or_fits(result.section_title)
            &&& absent_or_fits(result.evidence_layer)
            &&& absent_or_fits(result.source_type)
            &&& absent_or_fits(result.content_hash)
        },
{
    plain_holds_no_control("ocpp:"@ + result.chunk_id@);
    plain_holds_no_control(result.document_id@ + ":"@ + result.chunk_id@);
    plain_holds_no_control(result.chunk_id@);
    plain_holds_no_control(result.document_id@);
    plain_holds_no_control(result.strategy@);
    absent_or_bounded(result.section_title);
    absent_or_bounded(result.evidence_layer);
    absent_or_bounded(result.source_type);
    absent_or_bounded(result.content_hash);
}

/// A result of the standards search is taken exactly where it has content of which something is
/// left once it is cut, a finite score, names of 256 bytes at most, and other texts of 512 bytes at
/// most, where it has them.
pub proof fn law_standards_result_is_taken(result: StandardsResult, max: int)
    ensures
        result.usable(max) <==> {
            &&& result.content_preview matches Some(content) && 0 < truncated(content@, max).len()
                && encode_utf8(truncated(content@, max)).len() <= 4096
            &&& bits_are_finite(result.combined_score_bits)
            &&& fits_within("standards:"@ + result.chunk_id@, 256)
            &&& fits_within(result.source_id@ + ":"@ + result.chunk_id@, 256)
            &&& fits_within(result.chunk_id@, 512)
            &&& fits_within(result.source_id@, 512)
            &&& fits_within(result.source_title@, 512)
            &&& fits_within(result.chunk_type@, 512)
            &&& absent_or_fits(result.section)
            &&& absent_or_fits(result.heading)
            &&& result.page_range.text() matches Some(pages) ==> fits_within(pages, 512)
        },
        result.page_range.text() is None <==> result.page_range.start is None
            && result.page_range.end is None,
{
    plain_holds_no_control("standards:"@ + result.chunk_id@);
    plain_holds_no_control(result.source_id@ + ":"@ + result.chunk_id@);
    plain_holds_no_control(result.chunk_id@);
    plain_holds_no_control(result.source_id@);
    plain_holds_no_control(result.source_title@);
    plain_holds_no_control(result.chunk_type@);
    absent_or_bounded(result.section);
    absent_or_bounded(result.heading);
    if result.page_range.text() is Some {
        plain_holds_no_control(result.page_range.text()->0);
    }
}

/// A result of the OCPP search becomes evidence that says what the result says: its own content, cut
/// to the longest beginning that fits, at its own place, under its own document and chunk.
pub proof fn law_ocpp_result_becomes_its_evidence(result: ScoredChunk, max: int, index: int)
    requires
        result.usable(max),
        max >= 0,
        0 <= index < 8,
    ensures
        ({
            let evidence = result.evidence(max, index);
            let whole = result.content->0@;
            let kept = evidence.content;
            &&& evidence.backend == KnowledgeBackendId::OcppRagKag
            &&& evidence.rank == index + 1
            &&& evidence.source_id == result.document_id@
            &&& evidence.document_id == Some(result.document_id@)
            &&& evidence.chunk_id == Some(result.chunk_id@)
            &&& evidence.id == "ocpp:"@ + result.chunk_id@
            &&& evidence.reference_id == result.document_id@ + ":"@ + result.chunk_id@
            &&& evidence.canonical_reference is None
            &&& evidence.version_reference == (match result.content_hash {
                Some(hash) => Some(hash@),
                None => None,
            })
            &&& evidence.score matches Some(score) && score == NativeScore::of(
                result.score_bits,
                NativeScoreSystem::OcppHybridRetrieval,
            )
            &&& evidence.metadata == (EvidenceMetadata::Ocpp {
                strategy: result.strategy,
                section_title: result.section_title,
                page_start: result.page_start,
                page_end: result.page_end,
                evidence_layer: result.evidence_layer,
                source_type: result.source_type,
            })
            &&& 0 < kept.len() <= whole.len()
            &&& kept == whole.take(kept.len() as int)
            &&& encode_utf8(kept).len() <= max
            &&& kept.len() < whole.len() ==> encode_utf8(
                whole.take(kept.len() as int + 1),
            ).len() > max
            &&& result.cut(max) <==> kept != whole
        }),
{
    law_cut_keeps_the_longest_beginning(result.content->0@, max);
}

/// An answer of the OCPP search is taken where it has eight results at most, names its correlation,
/// and every result in it can be taken.
pub proof fn law_ocpp_answer_is_taken(response: SearchResponse, max: int)
    ensures
        crate::ocpp::response_usable(response, max) <==> {
            &&& response.results@.len() <= 8
            &&& response.correlation_id@.len() > 0
            &&& forall|i: int|
                0 <= i < response.results@.len() ==> (#[trigger] response.results@[i]).usable(max)
        },
{
}

/// An answer of the OCPP service is read where its status is 200 and it announces no more than
/// 262144 bytes. A fault of the client's is a rejection, any other status an outage.
pub proof fn law_answer_head_decides(status: u16, length: Option<u64>)
    ensures
        head_fault(status, length) is None <==> status == 200 && (length matches Some(bytes)
            ==> bytes <= 262144),
        status == 200 && head_fault(status, length) is Some ==> head_fault(status, length) == Some(
            KnowledgeError::MalformedResponse,
        ),
        400 <= status <= 499 ==> head_fault(status, length) == Some(
            KnowledgeError::Rejected(KnowledgeBackendId::OcppRagKag),
        ),
        status != 200 && !(400 <= status <= 499) ==> head_fault(status, length) == Some(
            KnowledgeError::Unavailable(KnowledgeBackendId::OcppRagKag),
        ),
{
}

/// A search asks the query itself, within the limits of the request.
pub proof fn law_search_asks_the_query(request: RequestView)
    ensures
        ({
            let params = search_params(request);
            &&& params.len() == 5
            &&& params[0] == ("q"@, request.query)
            &&& params[1] == ("top_k"@, decimal_text(request.limits.results() as nat))
            &&& params[2] == ("max_chars"@, decimal_text(request.limits.item_bytes() as nat))
            &&& params[3] == ("include_content"@, "true"@)
            &&& params[4] == ("include_query"@, "false"@)
        }),
{
}

/// A base address carries nothing but scheme, host and path: plain HTTP, no user, no password, no
/// query, no fragment.
pub proof fn law_base_carries_no_secret(url: UrlModel)
    ensures
        base_fits(url) ==> url.scheme == "http"@ && url.username.len() == 0 && !url.has_password
            && !url.has_query && !url.has_fragment && !url.cannot_be_a_base,
        url.scheme == "http"@ && url.username == ""@ && !url.has_password && !url.has_query
            && !url.has_fragment && !url.cannot_be_a_base ==> base_fits(url),
{
    reveal_strlit("");
}

/// A result of the standards search becomes evidence that says what the result says.
pub proof fn law_standards_result_becomes_its_evidence(
    result: StandardsResult,
    max: int,
    index: int,
    evidence: EvidenceView,
)
    requires
        result.usable(max),
        max >= 0,
        0 <= index < 8,
        result.amounts_to(max, index, evidence),
    ensures
        ({
            let whole = result.content_preview->0@;
            let kept = evidence.content;
            &&& evidence.backend == KnowledgeBackendId::StandardsMcp
            &&& evidence.rank == index + 1
            &&& evidence.source_id == result.source_id@
            &&& evidence.document_id == Some(result.source_id@)
            &&& evidence.chunk_id == Some(result.chunk_id@)
            &&& evidence.id == "standards:"@ + result.chunk_id@
            &&& evidence.reference_id == result.source_id@ + ":"@ + result.chunk_id@
            &&& evidence.canonical_reference is None
            &&& evidence.version_reference is None
            &&& evidence.score matches Some(score) && score == NativeScore::of(
                result.combined_score_bits,
                NativeScoreSystem::StandardsKagCombined,
            )
            &&& evidence.metadata matches EvidenceMetadata::Standards {
                source_title,
                section,
                heading,
                page_range,
                chunk_type,
            } && source_title == result.source_title && section == result.section && heading
                == result.heading && chunk_type == result.chunk_type && (page_range is None <==> (
            result.page_range.start is None && result.page_range.end is None)) && (
            page_range matches Some(pages) ==> pages@ == (match result.page_range.start {
                Some(page) => decimal_text(page as nat),
                None => Seq::empty(),
            }) + "-"@ + (match result.page_range.end {
                Some(page) => decimal_text(page as nat),
                None => Seq::empty(),
            }))
            &&& 0 < kept.len() <= whole.len()
            &&& kept == whole.take(kept.len() as int)
            &&& encode_utf8(kept).len() <= max
            &&& kept.len() < whole.len() ==> encode_utf8(
                whole.take(kept.len() as int + 1),
            ).len() > max
            &&& result.cut(max) <==> kept != whole
        }),
{
    law_cut_keeps_the_longest_beginning(result.content_preview->0@, max);
}

/// What a standards search found is taken where it was found in the one mode that is known, there
/// are eight results at most, and every one of them can be taken.
pub proof fn law_standards_answer_is_taken(response: StandardsResponse, max: int)
    ensures
        crate::standards::response_usable(response, max) <==> {
            &&& response.retrieval_mode@ == "hybrid_rrf_light_kag"@
            &&& response.results@.len() <= 8
            &&& forall|i: int|
                0 <= i < response.results@.len() ==> (#[trigger] response.results@[i]).usable(max)
        },
{
}

/// A message that answers the call is the answer, unless it reports an error. A message that
/// answers something else is passed over, up to the thirty-second; what is no JSON ends the exchange.
pub proof fn law_answer_is_waited_for(exchange: Exchange, json: JsonModel, step: MessageStep)
    ensures
        ({
            let ours = json_at(json, "id"@) matches Some(JsonModel::Number(_, Some(number)))
                && number == exchange.id;
            &&& exchange.judged(Some(json), step) && ours && json_at(json, "error"@) is None ==> (
            step matches MessageStep::Answer(value) && value_json(value) == json)
            &&& exchange.judged(Some(json), step) && ours && json_at(json, "error"@) is Some ==> step
                == MessageStep::Failed(KnowledgeError::Failed(KnowledgeBackendId::StandardsMcp))
            &&& exchange.judged(Some(json), step) && !ours && exchange.seen < 31 ==> step
                == MessageStep::Wait
            &&& exchange.judged(Some(json), step) && !ours && exchange.seen >= 31 ==> step
                == MessageStep::Failed(KnowledgeError::MalformedResponse)
            &&& exchange.judged(None, step) ==> step == MessageStep::Failed(
                KnowledgeError::MalformedResponse,
            )
        }),
{
}

/// A line ends with its first newline: what is taken of the bytes is all up to it, or everything
/// where there is none.
pub proof fn law_line_ends_at_the_first_newline(available: Seq<u8>, at: int)
    requires
        0 <= at <= available.len(),
        forall|i: int| 0 <= i < at ==> #[trigger] available[i] != 10,
    ensures
        at < available.len() && available[at] == 10 ==> line_part(available) == at + 1,
        at == available.len() ==> line_part(available) == at,
    decreases available.len(),
{
    if available.len() > 0 && at > 0 {
        assert(available[0] != 10);
        let rest = available.drop_first();
        assert forall|i: int| 0 <= i < at - 1 implies #[trigger] rest[i] != 10 by {
            assert(rest[i] == available[i + 1]);
        }
        law_line_ends_at_the_first_newline(rest, at - 1);
        if at < available.len() {
            assert(rest[at - 1] == available[at]);
        }
    }
}

/// The answer to a search is its structured content, unless the search reports an error; the answer
/// to a greeting is the version that it names.
pub proof fn law_answer_holds_its_content(json: JsonModel, result: JsonModel, content: JsonModel)
    requires
        json_at(json, "result"@) == Some(result),
    ensures
        json_at(result, "isError"@) == Some(JsonModel::Bool(true)) ==> answered_search(json) == Err::<
            JsonModel,
            KnowledgeError,
        >(KnowledgeError::Failed(KnowledgeBackendId::StandardsMcp)),
        json_at(result, "isError"@) != Some(JsonModel::Bool(true)) && json_at(
            result,
            "structuredContent"@,
        ) == Some(content) ==> answered_search(json) == Ok::<JsonModel, KnowledgeError>(content),
        json_at(result, "isError"@) != Some(JsonModel::Bool(true)) && json_at(
            result,
            "structuredContent"@,
        ) is None ==> answered_search(json) == Err::<JsonModel, KnowledgeError>(
            KnowledgeError::MalformedResponse,
        ),
        answered_version(json) matches Some(version) <==> (json_at(result, "protocolVersion"@)
            matches Some(JsonModel::Text(_))),
        answered_version(json) matches Some(version) ==> json_at(result, "protocolVersion"@) == Some(
            JsonModel::Text(version),
        ),
{
}

/// A search call asks one question within one limit: there is one call that says both, and it says
/// nothing else. It goes to the one tool, of the local provider and model, with previews, and
/// whatever the state of review.
pub proof fn law_search_call_asks_one_question(
    json: JsonModel,
    query: Seq<char>,
    limit: nat,
    other_query: Seq<char>,
    other_limit: nat,
)
    requires
        is_search_call(json, query, limit),
    ensures
        is_search_call(json, other_query, other_limit) ==> query == other_query && limit
            == other_limit,
        json->Object_0.len() == 4,
        json_at(json, "jsonrpc"@) == Some(JsonModel::Text("2.0"@)),
        json_at(json, "id"@) matches Some(JsonModel::Number(_, Some(2))),
        json_at(json, "method"@) == Some(JsonModel::Text("tools/call"@)),
        json_at(json, "params"@) matches Some(params) && params->Object_0.len() == 2 && json_at(
            params,
            "name"@,
        ) == Some(JsonModel::Text("search_standards_kag"@)) && (json_at(params, "arguments"@)
            matches Some(arguments) && {
            &&& arguments->Object_0.len() == 8
            &&& json_at(arguments, "query"@) == Some(JsonModel::Text(query))
            &&& json_at(arguments, "limit"@) matches Some(JsonModel::Number(_, Some(number)))
                && number == limit
            &&& json_at(arguments, "include_preview"@) == Some(JsonModel::Bool(true))
            &&& json_at(arguments, "provider"@) == Some(JsonModel::Text("local"@))
            &&& json_at(arguments, "model"@) == Some(JsonModel::Text("BAAI/bge-m3"@))
            &&& json_at(arguments, "pool_limit"@) matches Some(JsonModel::Number(_, Some(20)))
            &&& json_at(arguments, "graph_weight"@) == parsed_json("0.001"@)
            &&& json_at(arguments, "review_status"@) == Some(JsonModel::Null)
        }),
{
}

/// A greeting names the version of the protocol and the client, and claims no capability. The notice
/// behind it says that the session is open, and nothing more.
pub proof fn law_greeting_names_the_protocol(json: JsonModel, notice: JsonModel)
    requires
        is_initialize_call(json),
        is_initialized_notice(notice),
    ensures
        json->Object_0.len() == 4,
        json_at(json, "jsonrpc"@) == Some(JsonModel::Text("2.0"@)),
        json_at(json, "id"@) matches Some(JsonModel::Number(_, Some(1))),
        json_at(json, "method"@) == Some(JsonModel::Text("initialize"@)),
        json_at(json, "params"@) matches Some(params) && {
            &&& params->Object_0.len() == 3
            &&& json_at(params, "protocolVersion"@) == Some(JsonModel::Text("2025-06-18"@))
            &&& json_at(params, "capabilities"@) matches Some(JsonModel::Object(claimed))
                && claimed.len() == 0
            &&& json_at(params, "clientInfo"@) matches Some(client) && client->Object_0.len() == 2
                && json_at(client, "name"@) == Some(JsonModel::Text("enterprise-local-agent"@))
                && json_at(client, "version"@) == Some(JsonModel::Text("0.1.0"@))
        },
        notice matches JsonModel::Object(members) && members.len() == 3,
        json_at(notice, "jsonrpc"@) == Some(JsonModel::Text("2.0"@)),
        json_at(notice, "method"@) == Some(JsonModel::Text("notifications/initialized"@)),
        json_at(notice, "params"@) matches Some(JsonModel::Object(given)) && given.len() == 0,
{
}

/// A process is named by an absolute path, with sixteen arguments and sixteen variables at most,
/// each text of 4096 bytes at most.
pub proof fn law_process_is_bounded(
    executable: Seq<char>,
    arguments: Seq<String>,
    environment: Seq<(String, String)>,
)
    ensures
        process_fits(executable, arguments, environment) <==> {
            &&& executable.len() > 0 && executable.first() == '/'
            &&& arguments.len() <= 16
            &&& environment.len() <= 16
            &&& forall|i: int|
                0 <= i < arguments.len() ==> encode_utf8((#[trigger] arguments[i])@).len() <= 4096
            &&& forall|i: int|
                0 <= i < environment.len() ==> encode_utf8(
                    (#[trigger] environment[i]).0@,
                ).len() <= 4096 && encode_utf8(environment[i].1@).len() <= 4096
        },
{
}

} // verus!
