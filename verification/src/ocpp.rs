//! The HTTP search backend: its address, what it is asked and how its answers are taken.

use vstd::prelude::*;

use crate::error::KnowledgeError;
use crate::evidence::{
    bits_are_finite, content_fits, evidence_views, is_optional_bounded, BackendEvidenceSet,
    Evidence, EvidenceId, EvidenceMetadata, EvidenceSource, EvidenceView, NativeScore,
    NativeScoreSystem, MAX_EVIDENCE_ID_BYTES,
};
use crate::knowledge::{
    required_version, KnowledgeRequest, RequestView, MAX_MCP_RESPONSE_BYTES, MAX_RESULTS,
    MAX_SAFE_METADATA_BYTES,
};
use crate::metadata::KnowledgeBackendId;
use crate::text::{
    bounded_text, decimal, decimal_text, str_equal, truncate_utf8, truncated, utf8_len,
};

verus! {

/// The backend that this module speaks to.
pub open spec fn ocpp_backend() -> KnowledgeBackendId {
    KnowledgeBackendId::OcppRagKag
}

#[derive(Clone, Copy, Debug, PartialEq, Eq, Structural)]
pub enum OcppApiConfigError {
    InvalidBaseUrl,
    ClientBuild,
}

/// What an address is made of, as far as it matters here.
#[derive(Debug)]
pub struct UrlParts {
    pub scheme: String,
    pub cannot_be_a_base: bool,
    pub username: String,
    pub has_password: bool,
    pub has_query: bool,
    pub has_fragment: bool,
}

/// What `url::Url` finds an address to be made of.
pub struct UrlModel {
    pub scheme: Seq<char>,
    pub cannot_be_a_base: bool,
    pub username: Seq<char>,
    pub has_password: bool,
    pub has_query: bool,
    pub has_fragment: bool,
}

impl View for UrlParts {
    type V = UrlModel;

    open spec fn view(&self) -> UrlModel {
        UrlModel {
            scheme: self.scheme@,
            cannot_be_a_base: self.cannot_be_a_base,
            username: self.username@,
            has_password: self.has_password,
            has_query: self.has_query,
            has_fragment: self.has_fragment,
        }
    }
}

/// What `url::Url::parse` finds in a text, if it is an address.
pub uninterp spec fn parsed_url(text: Seq<char>) -> Option<UrlModel>;

/// The address that `url::Url::join` makes of a base and a reference, if it makes one.
pub uninterp spec fn joined_url(base: Seq<char>, reference: Seq<char>) -> Option<Seq<char>>;

/// The address that `url::Url::parse_with_params` makes of an address and query parameters.
pub uninterp spec fn url_with_params(
    address: Seq<char>,
    params: Seq<(Seq<char>, Seq<char>)>,
) -> Option<Seq<char>>;

/// Reads an address with `url::Url::parse` and its getters `scheme`, `cannot_be_a_base`,
/// `username`, `password`, `query` and `fragment`. Claimed: what they find depends on the text
/// alone.
#[verifier::external_body]
fn parse_url(text: &str) -> (r: Option<UrlParts>)
    ensures
        match r {
            Some(parts) => parsed_url(text@) == Some(parts@),
            None => parsed_url(text@) is None,
        },
{
    let url = url::Url::parse(text).ok()?;
    Some(
        UrlParts {
            scheme: url.scheme().to_owned(),
            cannot_be_a_base: url.cannot_be_a_base(),
            username: url.username().to_owned(),
            has_password: url.password().is_some(),
            has_query: url.query().is_some(),
            has_fragment: url.fragment().is_some(),
        },
    )
}

/// Joins a base and a reference with `url::Url::join`. Claimed: what comes of it depends on the
/// two texts alone.
#[verifier::external_body]
fn join_url(base: &str, reference: &str) -> (r: Option<String>)
    ensures
        match r {
            Some(joined) => joined_url(base@, reference@) == Some(joined@),
            None => joined_url(base@, reference@) is None,
        },
{
    Some(url::Url::parse(base).ok()?.join(reference).ok()?.into())
}

pub open spec fn param_views(params: Seq<(String, String)>) -> Seq<(Seq<char>, Seq<char>)> {
    Seq::new(params.len(), |i: int| (params[i].0@, params[i].1@))
}

/// Adds query parameters with `url::Url::parse_with_params`. Claimed: what comes of it depends on
/// the address and the parameters alone.
#[verifier::external_body]
fn add_params(address: &str, params: &Vec<(String, String)>) -> (r: Option<String>)
    ensures
        match r {
            Some(full) => url_with_params(address@, param_views(params@)) == Some(full@),
            None => url_with_params(address@, param_views(params@)) is None,
        },
{
    Some(url::Url::parse_with_params(address, params).ok()?.into())
}

/// A base address is plain HTTP, names no user, and ends with its path.
pub open spec fn base_fits(url: UrlModel) -> bool {
    &&& url.scheme == "http"@
    &&& !url.cannot_be_a_base
    &&& url.username == ""@
    &&& !url.has_password
    &&& !url.has_query
    &&& !url.has_fragment
}

/// Whether a base address is one that may be used.
pub fn check_base(parts: &UrlParts) -> (r: bool)
    ensures
        r == base_fits(parts@),
{
    str_equal(parts.scheme.as_str(), "http") && !parts.cannot_be_a_base && str_equal(
        parts.username.as_str(),
        "",
    ) && !parts.has_password && !parts.has_query && !parts.has_fragment
}

/// Where the backend is searched.
#[derive(Clone, Debug)]
pub struct OcppApiConfig {
    search_endpoint: String,
}

/// The search address under a base address, if the base may be used.
pub open spec fn search_endpoint_of(base: Seq<char>) -> Option<Seq<char>> {
    match parsed_url(base) {
        Some(url) => if base_fits(url) {
            joined_url(base, "search"@)
        } else {
            None
        },
        None => None,
    }
}

impl OcppApiConfig {
    pub closed spec fn endpoint(self) -> Seq<char> {
        self.search_endpoint@
    }

    pub fn new(base_url: &str) -> (r: Result<Self, OcppApiConfigError>)
        ensures
            match r {
                Ok(config) => search_endpoint_of(base_url@) == Some(config.endpoint()),
                Err(error) => search_endpoint_of(base_url@) is None && error
                    == OcppApiConfigError::InvalidBaseUrl,
            },
    {
        let parts = match parse_url(base_url) {
            Some(parts) => parts,
            None => {
                return Err(OcppApiConfigError::InvalidBaseUrl);
            },
        };
        if !check_base(&parts) {
            return Err(OcppApiConfigError::InvalidBaseUrl);
        }
        match join_url(base_url, "search") {
            Some(search_endpoint) => Ok(OcppApiConfig { search_endpoint }),
            None => Err(OcppApiConfigError::InvalidBaseUrl),
        }
    }
}

/// The parameters of a search: what is asked, within which limits, with content and without an
/// echo of the query.
pub open spec fn search_params(request: RequestView) -> Seq<(Seq<char>, Seq<char>)> {
    seq![
        ("q"@, request.query),
        ("top_k"@, decimal_text(request.limits.results() as nat)),
        ("max_chars"@, decimal_text(request.limits.item_bytes() as nat)),
        ("include_content"@, "true"@),
        ("include_query"@, "false"@),
    ]
}

/// The parameters of a search.
pub fn search_parameters(request: &KnowledgeRequest) -> (r: Vec<(String, String)>)
    ensures
        param_views(r@) == search_params(request@),
{
    let mut params: Vec<(String, String)> = Vec::new();
    params.push(("q".to_owned(), request.query().as_str().to_owned()));
    params.push(("top_k".to_owned(), decimal(request.limits().max_results() as u64)));
    params.push(("max_chars".to_owned(), decimal(request.limits().max_item_bytes() as u64)));
    params.push(("include_content".to_owned(), "true".to_owned()));
    params.push(("include_query".to_owned(), "false".to_owned()));
    assert(param_views(params@) =~= search_params(request@));
    params
}

/// The address of a search. A request that insists on a snapshot is refused before anything is
/// sent, for this backend keeps none.
pub fn search_url(config: &OcppApiConfig, request: &KnowledgeRequest) -> (r: Result<
    String,
    KnowledgeError,
>)
    ensures
        ({
            let address = url_with_params(config.endpoint(), search_params(request@));
            match r {
                Ok(url) => required_version(request@.snapshots, ocpp_backend()) is None && address
                    == Some(url@),
                Err(error) => if required_version(request@.snapshots, ocpp_backend()) is Some {
                    error == KnowledgeError::SnapshotMismatch
                } else {
                    address is None && error == KnowledgeError::Unavailable(ocpp_backend())
                },
            }
        }),
{
    if request.snapshot_for(KnowledgeBackendId::OcppRagKag).is_some() {
        return Err(KnowledgeError::SnapshotMismatch);
    }
    let params = search_parameters(request);
    match add_params(config.search_endpoint.as_str(), &params) {
        Some(url) => Ok(url),
        None => Err(KnowledgeError::Unavailable(KnowledgeBackendId::OcppRagKag)),
    }
}

/// Why an answer with this status and announced length is not read, if it is not.
pub open spec fn head_fault(status: u16, content_length: Option<u64>) -> Option<KnowledgeError> {
    if status != 200 {
        if 400 <= status < 500 {
            Some(KnowledgeError::Rejected(ocpp_backend()))
        } else {
            Some(KnowledgeError::Unavailable(ocpp_backend()))
        }
    } else if content_length matches Some(length) && length > MAX_MCP_RESPONSE_BYTES {
        Some(KnowledgeError::MalformedResponse)
    } else {
        None
    }
}

pub fn check_response_head(status: u16, content_length: Option<u64>) -> (r: Result<
    (),
    KnowledgeError,
>)
    ensures
        r == (match head_fault(status, content_length) {
            None => Ok(()),
            Some(error) => Err::<(), KnowledgeError>(error),
        }),
{
    if status != 200 {
        return if 400 <= status && status < 500 {
            Err(KnowledgeError::Rejected(KnowledgeBackendId::OcppRagKag))
        } else {
            Err(KnowledgeError::Unavailable(KnowledgeBackendId::OcppRagKag))
        };
    }
    match content_length {
        Some(length) => if length > MAX_MCP_RESPONSE_BYTES as u64 {
            Err(KnowledgeError::MalformedResponse)
        } else {
            Ok(())
        },
        None => Ok(()),
    }
}

/// The part of an answer's body that has come so far.
#[derive(Debug)]
pub struct BoundedBody {
    bytes: Vec<u8>,
}

impl View for BoundedBody {
    type V = Seq<u8>;

    closed spec fn view(&self) -> Seq<u8> {
        self.bytes@
    }
}

impl BoundedBody {
    #[verifier::type_invariant]
    spec fn bounded(self) -> bool {
        self.bytes@.len() <= MAX_MCP_RESPONSE_BYTES
    }

    pub fn new() -> (r: Self)
        ensures
            r@ == Seq::<u8>::empty(),
    {
        BoundedBody { bytes: Vec::new() }
    }

    /// Takes the next chunk, unless the body would grow too long with it.
    pub fn push_chunk(&mut self, chunk: &[u8]) -> (r: Result<(), KnowledgeError>)
        ensures
            if old(self)@.len() + chunk@.len() <= MAX_MCP_RESPONSE_BYTES {
                r is Ok && final(self)@ == old(self)@ + chunk@
            } else {
                r == Err::<(), KnowledgeError>(KnowledgeError::MalformedResponse) && final(self)@
                    == old(self)@
            },
    {
        proof {
            use_type_invariant(&*self);
        }
        if chunk.len() > MAX_MCP_RESPONSE_BYTES - self.bytes.len() {
            return Err(KnowledgeError::MalformedResponse);
        }
        let mut bytes: Vec<u8> = Vec::new();
        std::mem::swap(&mut bytes, &mut self.bytes);
        bytes.extend_from_slice(chunk);
        assert(bytes@ =~= old(self)@ + chunk@);
        self.bytes = bytes;
        Ok(())
    }

    pub fn into_bytes(self) -> (r: Vec<u8>)
        ensures
            r@ == self@,
            r@.len() <= MAX_MCP_RESPONSE_BYTES,
    {
        proof {
            use_type_invariant(&self);
        }
        self.bytes
    }
}

/// The answer to a search.
pub struct SearchResponse {
    pub correlation_id: String,
    pub results: Vec<ScoredChunk>,
}

/// One result of a search. The score is given by the bits of a 64-bit floating-point number.
pub struct ScoredChunk {
    pub chunk_id: String,
    pub document_id: String,
    pub content: Option<String>,
    pub score_bits: u64,
    pub strategy: String,
    pub section_title: Option<String>,
    pub page_start: Option<u32>,
    pub page_end: Option<u32>,
    pub evidence_layer: Option<String>,
    pub source_type: Option<String>,
    pub content_hash: Option<String>,
}

impl ScoredChunk {
    pub open spec fn metadata(self) -> EvidenceMetadata {
        EvidenceMetadata::Ocpp {
            strategy: self.strategy,
            section_title: self.section_title,
            page_start: self.page_start,
            page_end: self.page_end,
            evidence_layer: self.evidence_layer,
            source_type: self.source_type,
        }
    }

    /// A document and a chunk of it.
    pub open spec fn reference(self) -> Seq<char> {
        self.document_id@ + ":"@ + self.chunk_id@
    }

    /// Whether a result can be taken as evidence, once its content is cut to `max` bytes.
    pub open spec fn usable(self, max: int) -> bool {
        &&& self.content matches Some(content) && content_fits(truncated(content@, max))
        &&& bounded_text("ocpp:"@ + self.chunk_id@, MAX_EVIDENCE_ID_BYTES as int)
        &&& bounded_text(self.document_id@, MAX_SAFE_METADATA_BYTES as int)
        &&& bits_are_finite(self.score_bits)
        &&& self.metadata().bounded()
        &&& bounded_text(self.chunk_id@, MAX_SAFE_METADATA_BYTES as int)
        &&& is_optional_bounded(self.content_hash)
        &&& bounded_text(self.reference(), MAX_EVIDENCE_ID_BYTES as int)
    }

    /// The evidence that a result amounts to, at its place among the results.
    pub open spec fn evidence(self, max: int, index: int) -> EvidenceView {
        EvidenceView {
            id: "ocpp:"@ + self.chunk_id@,
            backend: ocpp_backend(),
            source_id: self.document_id@,
            content: truncated(self.content->0@, max),
            rank: (index + 1) as u8,
            score: Some(
                NativeScore::of(self.score_bits, NativeScoreSystem::OcppHybridRetrieval),
            ),
            document_id: Some(self.document_id@),
            chunk_id: Some(self.chunk_id@),
            reference_id: self.reference(),
            canonical_reference: None,
            version_reference: match self.content_hash {
                None => None,
                Some(hash) => Some(hash@),
            },
            metadata: self.metadata(),
        }
    }

    /// Whether content is cut off.
    pub open spec fn cut(self, max: int) -> bool {
        self.content matches Some(content) && utf8_len(content@) > max
    }
}

/// Whether an answer can be taken.
pub open spec fn response_usable(response: SearchResponse, max: int) -> bool {
    &&& response.results@.len() <= MAX_RESULTS
    &&& response.correlation_id@.len() > 0
    &&& forall|i: int|
        0 <= i < response.results@.len() ==> (#[trigger] response.results@[i]).usable(max)
}

fn chunk_evidence(item: ScoredChunk, max_item_bytes: usize, index: usize) -> (r: Option<
    (Evidence, bool),
>)
    requires
        index < MAX_RESULTS,
    ensures
        match r {
            Some((evidence, cut)) => {
                &&& item.usable(max_item_bytes as int)
                &&& evidence@ == item.evidence(max_item_bytes as int, index as int)
                &&& cut == item.cut(max_item_bytes as int)
            },
            None => !item.usable(max_item_bytes as int),
        },
{
    let content = match item.content {
        Some(content) => content,
        None => {
            return None;
        },
    };
    let (content, cut) = truncate_utf8(content, max_item_bytes);
    let mut reference_id = item.document_id.clone();
    reference_id.append(":");
    reference_id.append(item.chunk_id.as_str());
    let mut name = "ocpp:".to_owned();
    name.append(item.chunk_id.as_str());
    let metadata = EvidenceMetadata::Ocpp {
        strategy: item.strategy,
        section_title: item.section_title,
        page_start: item.page_start,
        page_end: item.page_end,
        evidence_layer: item.evidence_layer,
        source_type: item.source_type,
    };
    let id = match EvidenceId::new(name) {
        Ok(id) => id,
        Err(_) => {
            return None;
        },
    };
    let source = match EvidenceSource::new(
        KnowledgeBackendId::OcppRagKag,
        item.document_id.clone(),
    ) {
        Ok(source) => source,
        Err(_) => {
            return None;
        },
    };
    let score = match NativeScore::new(item.score_bits, NativeScoreSystem::OcppHybridRetrieval) {
        Ok(score) => score,
        Err(_) => {
            return None;
        },
    };
    match Evidence::new(
        id,
        source,
        content,
        index + 1,
        Some(score),
        Some(item.document_id),
        Some(item.chunk_id),
        reference_id,
        None,
        item.content_hash,
        metadata,
    ) {
        Ok(evidence) => Some((evidence, cut)),
        Err(_) => None,
    }
}

/// Takes the answer to a search as evidence: all of it, or none.
pub fn normalize(payload: SearchResponse, max_item_bytes: usize) -> (r: Result<
    BackendEvidenceSet,
    KnowledgeError,
>)
    ensures
        match r {
            Ok(set) => {
                let results = payload.results@;
                let max = max_item_bytes as int;
                &&& response_usable(payload, max)
                &&& set@.backend == ocpp_backend()
                &&& set@.snapshot is None
                &&& set@.evidence.len() == results.len()
                &&& forall|i: int|
                    0 <= i < results.len() ==> #[trigger] set@.evidence[i] == results[i].evidence(
                        max,
                        i,
                    )
                &&& set@.truncated == exists|i: int|
                    0 <= i < results.len() && (#[trigger] results[i]).cut(max)
            },
            Err(error) => error == KnowledgeError::MalformedResponse && !response_usable(
                payload,
                max_item_bytes as int,
            ),
        },
{
    if payload.results.len() > MAX_RESULTS || payload.correlation_id.as_str().is_empty() {
        return Err(KnowledgeError::MalformedResponse);
    }
    let ghost all = payload.results@;
    let ghost max = max_item_bytes as int;
    let count = payload.results.len();
    let mut rest = payload.results;
    let mut evidence: Vec<Evidence> = Vec::new();
    let mut any_cut = false;
    let mut index: usize = 0;
    assert(all.skip(0) =~= all);
    while index < count
        invariant
            index <= count == all.len(),
            count <= MAX_RESULTS,
            all == payload.results@,
            max == max_item_bytes,
            rest@ == all.skip(index as int),
            evidence@.len() == index,
            forall|i: int| 0 <= i < index ==> (#[trigger] all[i]).usable(max),
            forall|i: int| 0 <= i < index ==> (#[trigger] evidence@[i])@ == all[i].evidence(max, i),
            any_cut == exists|i: int| 0 <= i < index && (#[trigger] all[i]).cut(max),
        decreases count - index,
    {
        let item = rest.remove(0);
        proof {
            assert(item == all[index as int]);
            assert(all.skip(index as int).remove(0) =~= all.skip(index + 1));
        }
        match chunk_evidence(item, max_item_bytes, index) {
            Some((piece, cut)) => {
                evidence.push(piece);
                any_cut = any_cut || cut;
            },
            None => {
                assert(!all[index as int].usable(max));
                return Err(KnowledgeError::MalformedResponse);
            },
        }
        index = index + 1;
    }
    proof {
        let views = evidence_views(evidence@);
        assert forall|i: int| 0 <= i < views.len() implies (#[trigger] views[i]).backend
            == ocpp_backend() by {
            assert(views[i] == evidence@[i]@);
        }
    }
    match BackendEvidenceSet::new(KnowledgeBackendId::OcppRagKag, evidence, None, any_cut) {
        Ok(set) => Ok(set),
        Err(_) => Err(KnowledgeError::MalformedResponse),
    }
}

} // verus!
