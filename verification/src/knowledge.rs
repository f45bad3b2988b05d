//! Asking for knowledge: queries, limits, routes and requests.

use vstd::prelude::*;
use vstd::utf8::encode_utf8;

use crate::digest::{sha256, Digest32};
use crate::metadata::{
    backends_contain, backends_copy, KnowledgeBackendId, KnowledgeRouteMetadata, KnowledgeSnapshotMetadata,
    RouteView, MAX_DURABLE_KNOWLEDGE_BACKENDS, MAX_SNAPSHOT_VERSION_BYTES,
};
use crate::recovery::MAX_QUERY_BYTES;
use crate::text::{
    bounded_text, byte_len, contains_control, decimal, decimal_text, has_control, join, joined,
    quoted, quoted_text, texts, utf8_len,
};

verus! {

pub const MAX_RESULTS: usize = 8;

pub const MAX_MCP_RESPONSE_BYTES: usize = 256 * 1024;

pub const MAX_EVIDENCE_ITEM_BYTES: usize = 4 * 1024;

pub const MAX_TOTAL_EVIDENCE_BYTES: usize = 16 * 1024;

pub const MAX_SAFE_METADATA_BYTES: usize = 512;

#[derive(Clone, Copy, Debug, PartialEq, Eq, Structural)]
pub enum KnowledgeRequestError {
    EmptyQuery,
    InvalidQuery,
    InvalidLimits,
    InvalidRoute,
    InvalidSnapshot,
}

/// What is asked. Its text is not for logs.
#[derive(PartialEq, Eq)]
pub struct KnowledgeQuery {
    text: String,
}

impl View for KnowledgeQuery {
    type V = Seq<char>;

    closed spec fn view(&self) -> Seq<char> {
        self.text@
    }
}

/// Why a text is no query, if it is not.
pub open spec fn query_fault(text: Seq<char>) -> Option<KnowledgeRequestError> {
    if text.len() == 0 {
        Some(KnowledgeRequestError::EmptyQuery)
    } else if utf8_len(text) > MAX_QUERY_BYTES || has_control(text) {
        Some(KnowledgeRequestError::InvalidQuery)
    } else {
        None
    }
}

impl KnowledgeQuery {
    #[verifier::type_invariant]
    spec fn valid(self) -> bool {
        query_fault(self@) is None
    }

    pub fn new(value: String) -> (r: Result<Self, KnowledgeRequestError>)
        ensures
            match r {
                Ok(query) => query_fault(value@) is None && query@ == value@,
                Err(error) => query_fault(value@) == Some(error),
            },
    {
        if value.as_str().is_empty() {
            return Err(KnowledgeRequestError::EmptyQuery);
        }
        if byte_len(value.as_str()) > MAX_QUERY_BYTES || contains_control(value.as_str()) {
            return Err(KnowledgeRequestError::InvalidQuery);
        }
        Ok(KnowledgeQuery { text: value })
    }

    pub fn as_str(&self) -> (r: &str)
        ensures
            r@ == self@,
            query_fault(self@) is None,
    {
        proof {
            use_type_invariant(self);
        }
        self.text.as_str()
    }

    pub fn digest(&self) -> (r: Digest32)
        ensures
            r@ == sha256(encode_utf8(self@)),
    {
        Digest32::of(self.text.as_str().as_bytes())
    }

    /// What is written of a query for debugging: how long it is.
    pub fn redacted(&self) -> (r: String)
        ensures
            r@ == query_text(self@),
    {
        let mut out = "KnowledgeQuery { bytes: ".to_owned();
        out.append(decimal(byte_len(self.text.as_str()) as u64).as_str());
        out.append(", content: \"[REDACTED]\" }");
        out
    }
}

/// The debugging text of a query.
pub open spec fn query_text(query: Seq<char>) -> Seq<char> {
    "KnowledgeQuery { bytes: "@ + decimal_text(utf8_len(query)) + ", content: \"[REDACTED]\" }"@
}

impl Clone for KnowledgeQuery {
    fn clone(&self) -> (r: Self)
        ensures
            r@ == self@,
    {
        proof {
            use_type_invariant(self);
        }
        KnowledgeQuery { text: self.text.clone() }
    }
}

/// How much a retrieval may bring back.
#[derive(Clone, Copy, Debug, PartialEq, Eq, Structural)]
pub struct RetrievalLimits {
    max_results: usize,
    max_item_bytes: usize,
    max_total_bytes: usize,
}

pub open spec fn limits_valid(max_results: int, max_item_bytes: int, max_total_bytes: int) -> bool {
    &&& 0 < max_results <= MAX_RESULTS
    &&& 0 < max_item_bytes <= MAX_EVIDENCE_ITEM_BYTES
    &&& 0 < max_total_bytes <= MAX_TOTAL_EVIDENCE_BYTES
}

impl RetrievalLimits {
    #[verifier::type_invariant]
    pub closed spec fn valid(self) -> bool {
        limits_valid(
            self.max_results as int,
            self.max_item_bytes as int,
            self.max_total_bytes as int,
        )
    }

    pub closed spec fn results(self) -> usize {
        self.max_results
    }

    pub closed spec fn item_bytes(self) -> usize {
        self.max_item_bytes
    }

    pub closed spec fn total_bytes(self) -> usize {
        self.max_total_bytes
    }

    pub fn new(max_results: usize, max_item_bytes: usize, max_total_bytes: usize) -> (r: Result<
        Self,
        KnowledgeRequestError,
    >)
        ensures
            match r {
                Ok(limits) => {
                    &&& limits_valid(
                        max_results as int,
                        max_item_bytes as int,
                        max_total_bytes as int,
                    )
                    &&& limits.results() == max_results
                    &&& limits.item_bytes() == max_item_bytes
                    &&& limits.total_bytes() == max_total_bytes
                },
                Err(error) => {
                    &&& error == KnowledgeRequestError::InvalidLimits
                    &&& !limits_valid(
                        max_results as int,
                        max_item_bytes as int,
                        max_total_bytes as int,
                    )
                },
            },
    {
        if max_results == 0 || max_results > MAX_RESULTS || max_item_bytes == 0 || max_item_bytes
            > MAX_EVIDENCE_ITEM_BYTES || max_total_bytes == 0 || max_total_bytes
            > MAX_TOTAL_EVIDENCE_BYTES {
            return Err(KnowledgeRequestError::InvalidLimits);
        }
        Ok(RetrievalLimits { max_results, max_item_bytes, max_total_bytes })
    }

    pub fn max_results(self) -> (r: usize)
        ensures
            r == self.results(),
            0 < r <= MAX_RESULTS,
    {
        proof {
            use_type_invariant(&self);
        }
        self.max_results
    }

    pub fn max_item_bytes(self) -> (r: usize)
        ensures
            r == self.item_bytes(),
            0 < r <= MAX_EVIDENCE_ITEM_BYTES,
    {
        proof {
            use_type_invariant(&self);
        }
        self.max_item_bytes
    }

    pub fn max_total_bytes(self) -> (r: usize)
        ensures
            r == self.total_bytes(),
            0 < r <= MAX_TOTAL_EVIDENCE_BYTES,
    {
        proof {
            use_type_invariant(&self);
        }
        self.max_total_bytes
    }
}

impl Default for RetrievalLimits {
    fn default() -> (r: Self)
        ensures
            r.results() == MAX_RESULTS,
            r.item_bytes() == MAX_EVIDENCE_ITEM_BYTES,
            r.total_bytes() == MAX_TOTAL_EVIDENCE_BYTES,
    {
        RetrievalLimits {
            max_results: MAX_RESULTS,
            max_item_bytes: MAX_EVIDENCE_ITEM_BYTES,
            max_total_bytes: MAX_TOTAL_EVIDENCE_BYTES,
        }
    }
}

/// What a federated retrieval does about a backend that fails.
#[derive(Clone, Copy, Debug, PartialEq, Eq, Structural)]
pub enum FederatedFailurePolicy {
    RequireAll,
    AllowPartial,
}

/// Where a request is sent.
#[derive(Clone, Debug, PartialEq, Eq)]
pub enum KnowledgeRoute {
    Single(KnowledgeBackendId),
    Federated { backends: Vec<KnowledgeBackendId>, failure_policy: FederatedFailurePolicy },
}

impl View for KnowledgeRoute {
    type V = RouteView;

    open spec fn view(&self) -> RouteView {
        match *self {
            KnowledgeRoute::Single(backend) => RouteView::Single { backend },
            KnowledgeRoute::Federated { backends, failure_policy } => RouteView::Federated {
                backends: backends@,
                allow_partial: failure_policy == FederatedFailurePolicy::AllowPartial,
            },
        }
    }
}

/// Whether a route goes on without a backend that fails.
pub open spec fn allows_partial(route: RouteView) -> bool {
    match route {
        RouteView::Single { .. } => false,
        RouteView::Federated { allow_partial, .. } => allow_partial,
    }
}

impl KnowledgeRoute {
    pub fn single(backend: KnowledgeBackendId) -> (r: Self)
        ensures
            r == KnowledgeRoute::Single(backend),
    {
        KnowledgeRoute::Single(backend)
    }

    pub fn federated(backends: Vec<KnowledgeBackendId>, failure_policy: FederatedFailurePolicy)
        -> (r: Result<Self, KnowledgeRequestError>)
        ensures
            r == (if 0 < backends@.len() <= MAX_DURABLE_KNOWLEDGE_BACKENDS
                && backends@.no_duplicates() {
                Ok((KnowledgeRoute::Federated { backends, failure_policy }))
            } else {
                Err::<KnowledgeRoute, KnowledgeRequestError>(KnowledgeRequestError::InvalidRoute)
            }),
    {
        let route = KnowledgeRoute::Federated { backends, failure_policy };
        if !route.metadata().is_valid() {
            return Err(KnowledgeRequestError::InvalidRoute);
        }
        Ok(route)
    }

    /// The backends of the route, in the order of their priority.
    pub fn backends(&self) -> (r: Vec<KnowledgeBackendId>)
        ensures
            r@ == self@.backends(),
    {
        match self {
            KnowledgeRoute::Single(backend) => {
                let mut only: Vec<KnowledgeBackendId> = Vec::new();
                only.push(*backend);
                assert(only@ =~= seq![*backend]);
                only
            },
            KnowledgeRoute::Federated { backends, .. } => backends_copy(backends),
        }
    }

    pub fn metadata(&self) -> (r: KnowledgeRouteMetadata)
        ensures
            r@ == self@,
    {
        match self {
            KnowledgeRoute::Single(backend) => KnowledgeRouteMetadata::Single {
                backend: *backend,
            },
            KnowledgeRoute::Federated { backends, failure_policy } => {
                KnowledgeRouteMetadata::Federated {
                    backends: backends_copy(backends),
                    allow_partial: *failure_policy == FederatedFailurePolicy::AllowPartial,
                }
            },
        }
    }

    pub fn failure_policy(&self) -> (r: FederatedFailurePolicy)
        ensures
            r == (if allows_partial(self@) {
                FederatedFailurePolicy::AllowPartial
            } else {
                FederatedFailurePolicy::RequireAll
            }),
    {
        match self {
            KnowledgeRoute::Single(_) => FederatedFailurePolicy::RequireAll,
            KnowledgeRoute::Federated { failure_policy, .. } => *failure_policy,
        }
    }
}

/// The version of a backend's knowledge that a request insists on.
#[derive(Debug, PartialEq, Eq)]
pub struct SnapshotRequirement {
    backend: KnowledgeBackendId,
    version: String,
}

impl View for SnapshotRequirement {
    type V = (KnowledgeBackendId, Seq<char>);

    closed spec fn view(&self) -> (KnowledgeBackendId, Seq<char>) {
        (self.backend, self.version@)
    }
}

impl SnapshotRequirement {
    pub fn new(backend: KnowledgeBackendId, version: String) -> (r: Result<
        Self,
        KnowledgeRequestError,
    >)
        ensures
            match r {
                Ok(requirement) => bounded_text(version@, MAX_SNAPSHOT_VERSION_BYTES as int)
                    && requirement@ == (backend, version@),
                Err(error) => error == KnowledgeRequestError::InvalidSnapshot && !bounded_text(
                    version@,
                    MAX_SNAPSHOT_VERSION_BYTES as int,
                ),
            },
    {
        match KnowledgeSnapshotMetadata::new(backend, version) {
            None => Err(KnowledgeRequestError::InvalidSnapshot),
            Some(metadata) => Ok(SnapshotRequirement { backend, version: metadata.version }),
        }
    }

    pub fn backend(&self) -> (r: KnowledgeBackendId)
        ensures
            r == self@.0,
    {
        self.backend
    }

    pub fn version(&self) -> (r: &str)
        ensures
            r@ == self@.1,
    {
        self.version.as_str()
    }
}

impl Clone for SnapshotRequirement {
    fn clone(&self) -> (r: Self)
        ensures
            r@ == self@,
    {
        SnapshotRequirement { backend: self.backend, version: self.version.clone() }
    }
}

/// A request for knowledge.
#[derive(Clone, PartialEq, Eq)]
pub struct KnowledgeRequest {
    query: KnowledgeQuery,
    route: KnowledgeRoute,
    limits: RetrievalLimits,
    snapshots: Vec<SnapshotRequirement>,
}

/// What a request says.
#[verifier::ext_equal]
pub struct RequestView {
    pub query: Seq<char>,
    pub route: RouteView,
    pub limits: RetrievalLimits,
    pub snapshots: Seq<(KnowledgeBackendId, Seq<char>)>,
}

pub open spec fn requirement_views(snapshots: Seq<SnapshotRequirement>) -> Seq<
    (KnowledgeBackendId, Seq<char>),
> {
    Seq::new(snapshots.len(), |i: int| snapshots[i]@)
}

impl View for KnowledgeRequest {
    type V = RequestView;

    closed spec fn view(&self) -> RequestView {
        RequestView {
            query: self.query@,
            route: self.route@,
            limits: self.limits,
            snapshots: requirement_views(self.snapshots@),
        }
    }
}

/// Whether snapshots may be required of a route: at most one of each of its backends.
pub open spec fn requirements_fit(
    snapshots: Seq<(KnowledgeBackendId, Seq<char>)>,
    backends: Seq<KnowledgeBackendId>,
) -> bool {
    &&& snapshots.len() <= backends.len()
    &&& forall|i: int| 0 <= i < snapshots.len() ==> backends.contains((#[trigger] snapshots[i]).0)
    &&& forall|i: int, j: int|
        0 <= i < j < snapshots.len() ==> (#[trigger] snapshots[i]).0 != (#[trigger] snapshots[j]).0
}

/// The version that is required of a backend, if one is.
pub open spec fn required_version(
    snapshots: Seq<(KnowledgeBackendId, Seq<char>)>,
    backend: KnowledgeBackendId,
) -> Option<Seq<char>>
    decreases snapshots.len(),
{
    if snapshots.len() == 0 {
        None
    } else if snapshots.first().0 == backend {
        Some(snapshots.first().1)
    } else {
        required_version(snapshots.drop_first(), backend)
    }
}

/// The requirements on one backend.
pub open spec fn requirements_on(
    snapshots: Seq<(KnowledgeBackendId, Seq<char>)>,
    backend: KnowledgeBackendId,
) -> Seq<(KnowledgeBackendId, Seq<char>)>
    decreases snapshots.len(),
{
    if snapshots.len() == 0 {
        Seq::empty()
    } else if snapshots.last().0 == backend {
        requirements_on(snapshots.drop_last(), backend).push(snapshots.last())
    } else {
        requirements_on(snapshots.drop_last(), backend)
    }
}

impl KnowledgeRequest {
    pub fn new(query: KnowledgeQuery, route: KnowledgeRoute, limits: RetrievalLimits) -> (r: Self)
        ensures
            r@ == (RequestView {
                query: query@,
                route: route@,
                limits,
                snapshots: Seq::empty(),
            }),
    {
        let r = KnowledgeRequest { query, route, limits, snapshots: Vec::new() };
        assert(r@.snapshots =~= Seq::empty());
        r
    }

    /// The same request, insisting on these snapshots.
    pub fn with_snapshot_requirements(self, snapshots: Vec<SnapshotRequirement>) -> (r: Result<
        Self,
        KnowledgeRequestError,
    >)
        ensures
            match r {
                Ok(request) => {
                    &&& requirements_fit(requirement_views(snapshots@), self@.route.backends())
                    &&& request@ == (RequestView {
                        snapshots: requirement_views(snapshots@),
                        ..self@
                    })
                },
                Err(error) => {
                    &&& error == KnowledgeRequestError::InvalidSnapshot
                    &&& !requirements_fit(requirement_views(snapshots@), self@.route.backends())
                },
            },
    {
        let backends = self.route.backends();
        let ghost views = requirement_views(snapshots@);
        if snapshots.len() > backends.len() {
            return Err(KnowledgeRequestError::InvalidSnapshot);
        }
        let mut i: usize = 0;
        while i < snapshots.len()
            invariant
                i <= snapshots.len() <= backends.len(),
                views == requirement_views(snapshots@),
                backends@ == self@.route.backends(),
                forall|k: int| 0 <= k < i ==> backends@.contains((#[trigger] views[k]).0),
                forall|k: int, l: int|
                    0 <= k < l < i ==> (#[trigger] views[k]).0 != (#[trigger] views[l]).0,
            decreases snapshots.len() - i,
        {
            let backend = snapshots[i].backend();
            assert(views[i as int].0 == backend);
            if !backends_contain(&backends, backend) {
                return Err(KnowledgeRequestError::InvalidSnapshot);
            }
            let mut j: usize = 0;
            while j < i
                invariant
                    j <= i < snapshots.len(),
                    views == requirement_views(snapshots@),
                    backends@ == self@.route.backends(),
                    views[i as int].0 == backend,
                    forall|k: int| 0 <= k < j ==> (#[trigger] views[k]).0 != backend,
                decreases i - j,
            {
                if snapshots[j].backend() == backend {
                    assert(views[j as int].0 == views[i as int].0);
                    return Err(KnowledgeRequestError::InvalidSnapshot);
                }
                j = j + 1;
            }
            i = i + 1;
        }
        Ok(
            KnowledgeRequest {
                query: self.query,
                route: self.route,
                limits: self.limits,
                snapshots,
            },
        )
    }

    pub fn query(&self) -> (r: &KnowledgeQuery)
        ensures
            r@ == self@.query,
    {
        &self.query
    }

    pub fn route(&self) -> (r: &KnowledgeRoute)
        ensures
            r@ == self@.route,
    {
        &self.route
    }

    pub fn limits(&self) -> (r: RetrievalLimits)
        ensures
            r == self@.limits,
    {
        self.limits
    }

    pub fn snapshot_for(&self, backend: KnowledgeBackendId) -> (r: Option<&str>)
        ensures
            match r {
                Some(version) => required_version(self@.snapshots, backend) == Some(version@),
                None => required_version(self@.snapshots, backend) is None,
            },
    {
        let ghost all = self@.snapshots;
        let mut i: usize = 0;
        assert(all.skip(0) =~= all);
        while i < self.snapshots.len()
            invariant
                i <= self.snapshots.len(),
                all == requirement_views(self.snapshots@),
                required_version(all, backend) == required_version(all.skip(i as int), backend),
            decreases self.snapshots.len() - i,
        {
            proof {
                assert(all.skip(i as int).first() == all[i as int]);
                assert(all.skip(i as int).drop_first() =~= all.skip(i + 1));
            }
            if self.snapshots[i].backend() == backend {
                return Some(self.snapshots[i].version());
            }
            i = i + 1;
        }
        None
    }

    /// The part of a request that one backend is sent.
    pub fn for_backend(&self, backend: KnowledgeBackendId) -> (r: Self)
        ensures
            r@ == (RequestView {
                query: self@.query,
                route: RouteView::Single { backend },
                limits: self@.limits,
                snapshots: requirements_on(self@.snapshots, backend),
            }),
    {
        let ghost all = self@.snapshots;
        let mut snapshots: Vec<SnapshotRequirement> = Vec::new();
        let mut i: usize = 0;
        assert(requirement_views(snapshots@) =~= requirements_on(all.take(0), backend));
        while i < self.snapshots.len()
            invariant
                i <= self.snapshots.len(),
                all == requirement_views(self.snapshots@),
                requirement_views(snapshots@) == requirements_on(all.take(i as int), backend),
            decreases self.snapshots.len() - i,
        {
            proof {
                assert(all.take(i + 1).drop_last() =~= all.take(i as int));
                assert(all.take(i + 1).last() == all[i as int]);
            }
            if self.snapshots[i].backend() == backend {
                let ghost before = snapshots@;
                snapshots.push(self.snapshots[i].clone());
                assert(requirement_views(snapshots@) =~= requirement_views(before).push(
                    all[i as int],
                ));
            }
            i = i + 1;
        }
        assert(all.take(i as int) =~= all);
        KnowledgeRequest {
            query: self.query.clone(),
            route: KnowledgeRoute::Single(backend),
            limits: self.limits,
            snapshots,
        }
    }

    /// What is written of a request for debugging: everything but the text of its query.
    pub fn redacted(&self) -> (r: String)
        ensures
            r@ == "KnowledgeRequest { query: "@ + query_text(self@.query) + ", route: "@
                + route_text(self@.route) + ", limits: "@ + limits_text(self@.limits)
                + ", snapshots: ["@ + joined(requirement_texts(self@.snapshots)) + "] }"@,
    {
        let mut snapshots: Vec<String> = Vec::new();
        let mut i: usize = 0;
        while i < self.snapshots.len()
            invariant
                i <= self.snapshots.len(),
                snapshots@.len() == i,
                forall|j: int|
                    0 <= j < i ==> (#[trigger] snapshots@[j])@ == requirement_text(
                        self.snapshots@[j]@,
                    ),
            decreases self.snapshots.len() - i,
        {
            snapshots.push(self.snapshots[i].write_text());
            i = i + 1;
        }
        assert(texts(snapshots@) =~= requirement_texts(self@.snapshots));
        let mut out = "KnowledgeRequest { query: ".to_owned();
        out.append(self.query.redacted().as_str());
        out.append(", route: ");
        out.append(self.route.write_text().as_str());
        out.append(", limits: ");
        out.append(self.limits.write_text().as_str());
        out.append(", snapshots: [");
        out.append(join(&snapshots).as_str());
        out.append("] }");
        out
    }
}

/// The debugging text of a route.
pub open spec fn route_text(route: RouteView) -> Seq<char> {
    match route {
        RouteView::Single { backend } => "Single("@ + backend.name() + ")"@,
        RouteView::Federated { backends, allow_partial } => "Federated { backends: ["@ + joined(
            backends.map_values(|backend: KnowledgeBackendId| backend.name()),
        ) + "], failure_policy: "@ + (if allow_partial {
            "AllowPartial"@
        } else {
            "RequireAll"@
        }) + " }"@,
    }
}

/// The debugging text of limits.
pub open spec fn limits_text(limits: RetrievalLimits) -> Seq<char> {
    "RetrievalLimits { max_results: "@ + decimal_text(limits.results() as nat) + ", max_item_bytes: "@
        + decimal_text(limits.item_bytes() as nat) + ", max_total_bytes: "@ + decimal_text(
        limits.total_bytes() as nat,
    ) + " }"@
}

/// The debugging text of a required snapshot.
pub open spec fn requirement_text(requirement: (KnowledgeBackendId, Seq<char>)) -> Seq<char> {
    "SnapshotRequirement { backend: "@ + requirement.0.name() + ", version: "@ + quoted_text(
        requirement.1,
    ) + " }"@
}

pub open spec fn requirement_texts(snapshots: Seq<(KnowledgeBackendId, Seq<char>)>) -> Seq<
    Seq<char>,
> {
    Seq::new(snapshots.len(), |i: int| requirement_text(snapshots[i]))
}

impl SnapshotRequirement {
    fn write_text(&self) -> (r: String)
        ensures
            r@ == requirement_text(self@),
    {
        let mut out = "SnapshotRequirement { backend: ".to_owned();
        out.append(self.backend.write_name());
        out.append(", version: ");
        out.append(quoted(self.version.as_str()).as_str());
        out.append(" }");
        out
    }
}

impl RetrievalLimits {
    fn write_text(&self) -> (r: String)
        ensures
            r@ == limits_text(*self),
    {
        let mut out = "RetrievalLimits { max_results: ".to_owned();
        out.append(decimal(self.max_results as u64).as_str());
        out.append(", max_item_bytes: ");
        out.append(decimal(self.max_item_bytes as u64).as_str());
        out.append(", max_total_bytes: ");
        out.append(decimal(self.max_total_bytes as u64).as_str());
        out.append(" }");
        out
    }
}

impl KnowledgeRoute {
    fn write_text(&self) -> (r: String)
        ensures
            r@ == route_text(self@),
    {
        match self {
            KnowledgeRoute::Single(backend) => {
                let mut out = "Single(".to_owned();
                out.append(backend.write_name());
                out.append(")");
                out
            },
            KnowledgeRoute::Federated { backends, failure_policy } => {
                let mut names: Vec<String> = Vec::new();
                let mut i: usize = 0;
                while i < backends.len()
                    invariant
                        i <= backends.len(),
                        names@.len() == i,
                        forall|j: int| 0 <= j < i ==> (#[trigger] names@[j])@ == backends@[j].name(),
                    decreases backends.len() - i,
                {
                    names.push(backends[i].write_name().to_owned());
                    i = i + 1;
                }
                assert(texts(names@) =~= backends@.map_values(
                    |backend: KnowledgeBackendId| backend.name(),
                ));
                let mut out = "Federated { backends: [".to_owned();
                out.append(join(&names).as_str());
                out.append("], failure_policy: ");
                out.append(
                    match failure_policy {
                        FederatedFailurePolicy::AllowPartial => "AllowPartial",
                        FederatedFailurePolicy::RequireAll => "RequireAll",
                    },
                );
                out.append(" }");
                out
            },
        }
    }
}

/// The part of a request for one backend insists on exactly what the request insists on there.
pub proof fn law_backend_requirement_is_kept(
    snapshots: Seq<(KnowledgeBackendId, Seq<char>)>,
    backend: KnowledgeBackendId,
)
    ensures
        required_version(requirements_on(snapshots, backend), backend) == required_version(
            snapshots,
            backend,
        ),
        forall|i: int|
            0 <= i < requirements_on(snapshots, backend).len() ==> (
            #[trigger] requirements_on(snapshots, backend)[i]).0 == backend,
    decreases snapshots.len(),
{
    if snapshots.len() > 0 {
        let init = snapshots.drop_last();
        law_backend_requirement_is_kept(init, backend);
        let kept = requirements_on(init, backend);
        assert(init.push(snapshots.last()) =~= snapshots);
        required_version_of_push(init, snapshots.last(), backend);
        if snapshots.last().0 == backend {
            required_version_of_push(kept, snapshots.last(), backend);
        }
    }
}

proof fn required_version_of_push(
    snapshots: Seq<(KnowledgeBackendId, Seq<char>)>,
    last: (KnowledgeBackendId, Seq<char>),
    backend: KnowledgeBackendId,
)
    ensures
        required_version(snapshots.push(last), backend) == (match required_version(
            snapshots,
            backend,
        ) {
            Some(version) => Some(version),
            None => if last.0 == backend {
                Some(last.1)
            } else {
                None
            },
        }),
    decreases snapshots.len(),
{
    reveal_with_fuel(required_version, 2);
    if snapshots.len() > 0 {
        assert(snapshots.push(last).drop_first() =~= snapshots.drop_first().push(last));
        required_version_of_push(snapshots.drop_first(), last, backend);
    }
}

} // verus!
