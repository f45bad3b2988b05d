//! Knowledge metadata that may stand in a run's log: backends, routes, snapshots, references.

use vstd::prelude::*;

use crate::text::{bounded_text, byte_len, contains_control};

verus! {

pub const MAX_DURABLE_KNOWLEDGE_BACKENDS: usize = 2;

pub const MAX_DURABLE_EVIDENCE_REFERENCES: usize = 8;

pub const MAX_SNAPSHOT_VERSION_BYTES: usize = 128;

pub const MAX_EVIDENCE_REFERENCE_BYTES: usize = 256;

#[derive(Clone, Copy, Debug, PartialEq, Eq, Hash, Structural)]
pub enum KnowledgeBackendId {
    OcppRagKag,
    StandardsMcp,
}

impl KnowledgeBackendId {
    /// The number of a backend in hashed bytes.
    pub open spec fn number(self) -> u8 {
        match self {
            KnowledgeBackendId::OcppRagKag => 0,
            KnowledgeBackendId::StandardsMcp => 1,
        }
    }

    pub fn code(self) -> (r: u8)
        ensures
            r == self.number(),
    {
        match self {
            KnowledgeBackendId::OcppRagKag => 0,
            KnowledgeBackendId::StandardsMcp => 1,
        }
    }

    /// The name of a backend in texts for debugging.
    pub open spec fn name(self) -> Seq<char> {
        match self {
            KnowledgeBackendId::OcppRagKag => "OcppRagKag"@,
            KnowledgeBackendId::StandardsMcp => "StandardsMcp"@,
        }
    }

    pub fn write_name(self) -> (r: &'static str)
        ensures
            r@ == self.name(),
    {
        match self {
            KnowledgeBackendId::OcppRagKag => "OcppRagKag",
            KnowledgeBackendId::StandardsMcp => "StandardsMcp",
        }
    }
}

pub fn backends_contain(backends: &Vec<KnowledgeBackendId>, backend: KnowledgeBackendId) -> (r:
    bool)
    ensures
        r == backends@.contains(backend),
{
    let mut i: usize = 0;
    while i < backends.len()
        invariant
            i <= backends.len(),
            forall|j: int| 0 <= j < i ==> backends@[j] != backend,
        decreases backends.len() - i,
    {
        if backends[i] == backend {
            return true;
        }
        i = i + 1;
    }
    false
}

pub fn backends_distinct(backends: &Vec<KnowledgeBackendId>) -> (r: bool)
    ensures
        r == backends@.no_duplicates(),
{
    let mut i: usize = 0;
    while i < backends.len()
        invariant
            i <= backends.len(),
            forall|a: int, b: int| 0 <= a < b < i ==> backends@[a] != backends@[b],
        decreases backends.len() - i,
    {
        let mut j: usize = 0;
        while j < i
            invariant
                j <= i < backends.len(),
                forall|a: int| 0 <= a < j ==> backends@[a] != backends@[i as int],
            decreases i - j,
        {
            if backends[j] == backends[i] {
                return false;
            }
            j = j + 1;
        }
        i = i + 1;
    }
    true
}

pub fn backends_equal(a: &Vec<KnowledgeBackendId>, b: &Vec<KnowledgeBackendId>) -> (r: bool)
    ensures
        r == (a@ == b@),
{
    if a.len() != b.len() {
        return false;
    }
    let mut i: usize = 0;
    while i < a.len()
        invariant
            i <= a.len() == b.len(),
            forall|j: int| 0 <= j < i ==> a@[j] == b@[j],
        decreases a.len() - i,
    {
        if a[i] != b[i] {
            return false;
        }
        i = i + 1;
    }
    assert(a@ =~= b@);
    true
}

pub fn backends_copy(backends: &Vec<KnowledgeBackendId>) -> (r: Vec<KnowledgeBackendId>)
    ensures
        r@ == backends@,
{
    let mut out: Vec<KnowledgeBackendId> = Vec::new();
    let mut i: usize = 0;
    while i < backends.len()
        invariant
            i <= backends.len(),
            out@ =~= backends@.subrange(0, i as int),
        decreases backends.len() - i,
    {
        out.push(backends[i]);
        i = i + 1;
    }
    assert(out@ =~= backends@);
    out
}

/// Where a retrieval was sent.
#[derive(Debug, Eq)]
pub enum KnowledgeRouteMetadata {
    Single { backend: KnowledgeBackendId },
    Federated { backends: Vec<KnowledgeBackendId>, allow_partial: bool },
}

pub enum RouteView {
    Single { backend: KnowledgeBackendId },
    Federated { backends: Seq<KnowledgeBackendId>, allow_partial: bool },
}

impl RouteView {
    pub open spec fn backends(self) -> Seq<KnowledgeBackendId> {
        match self {
            RouteView::Single { backend } => seq![backend],
            RouteView::Federated { backends, .. } => backends,
        }
    }

    /// A federated route names at least one backend and none twice.
    pub open spec fn valid(self) -> bool {
        match self {
            RouteView::Single { .. } => true,
            RouteView::Federated { backends, .. } => 0 < backends.len()
                <= MAX_DURABLE_KNOWLEDGE_BACKENDS && backends.no_duplicates(),
        }
    }
}

impl View for KnowledgeRouteMetadata {
    type V = RouteView;

    open spec fn view(&self) -> RouteView {
        match *self {
            KnowledgeRouteMetadata::Single { backend } => RouteView::Single { backend },
            KnowledgeRouteMetadata::Federated { backends, allow_partial } => RouteView::Federated {
                backends: backends@,
                allow_partial,
            },
        }
    }
}

impl KnowledgeRouteMetadata {
    pub fn is_valid(&self) -> (r: bool)
        ensures
            r == self@.valid(),
    {
        match self {
            KnowledgeRouteMetadata::Single { .. } => true,
            KnowledgeRouteMetadata::Federated { backends, .. } => backends.len() > 0
                && backends.len() <= MAX_DURABLE_KNOWLEDGE_BACKENDS && backends_distinct(backends),
        }
    }

    pub fn has_backend(&self, backend: KnowledgeBackendId) -> (r: bool)
        ensures
            r == self@.backends().contains(backend),
    {
        match self {
            KnowledgeRouteMetadata::Single { backend: only } => {
                proof {
                    assert(seq![*only].contains(backend) <==> *only == backend) by {
                        if *only == backend {
                            assert(seq![*only][0] == backend);
                        }
                    }
                }
                *only == backend
            },
            KnowledgeRouteMetadata::Federated { backends, .. } => backends_contain(
                backends,
                backend,
            ),
        }
    }
}

impl Clone for KnowledgeRouteMetadata {
    fn clone(&self) -> (r: Self)
        ensures
            r@ == self@,
    {
        match self {
            KnowledgeRouteMetadata::Single { backend } => KnowledgeRouteMetadata::Single {
                backend: *backend,
            },
            KnowledgeRouteMetadata::Federated { backends, allow_partial } => {
                KnowledgeRouteMetadata::Federated {
                    backends: backends_copy(backends),
                    allow_partial: *allow_partial,
                }
            },
        }
    }
}

impl PartialEq for KnowledgeRouteMetadata {
    fn eq(&self, other: &KnowledgeRouteMetadata) -> (r: bool) {
        match (self, other) {
            (
                KnowledgeRouteMetadata::Single { backend },
                KnowledgeRouteMetadata::Single { backend: other_backend },
            ) => *backend == *other_backend,
            (
                KnowledgeRouteMetadata::Federated { backends, allow_partial },
                KnowledgeRouteMetadata::Federated {
                    backends: other_backends,
                    allow_partial: other_partial,
                },
            ) => *allow_partial == *other_partial && backends_equal(backends, other_backends),
            _ => false,
        }
    }
}

impl vstd::std_specs::cmp::PartialEqSpecImpl for KnowledgeRouteMetadata {
    open spec fn obeys_eq_spec() -> bool {
        true
    }

    open spec fn eq_spec(&self, other: &KnowledgeRouteMetadata) -> bool {
        self@ == other@
    }
}

/// A version of one backend's knowledge.
#[derive(Debug, PartialEq, Eq)]
pub struct KnowledgeSnapshotMetadata {
    pub backend: KnowledgeBackendId,
    pub version: String,
}

impl KnowledgeSnapshotMetadata {
    pub open spec fn valid(self) -> bool {
        bounded_text(self.version@, MAX_SNAPSHOT_VERSION_BYTES as int)
    }

    pub fn new(backend: KnowledgeBackendId, version: String) -> (r: Option<Self>)
        ensures
            r == (if bounded_text(version@, MAX_SNAPSHOT_VERSION_BYTES as int) {
                Some((KnowledgeSnapshotMetadata { backend, version }))
            } else {
                None
            }),
    {
        let metadata = KnowledgeSnapshotMetadata { backend, version };
        if metadata.is_valid() {
            Some(metadata)
        } else {
            None
        }
    }

    pub fn is_valid(&self) -> (r: bool)
        ensures
            r == self.valid(),
    {
        let version = self.version.as_str();
        !version.is_empty() && byte_len(version) <= MAX_SNAPSHOT_VERSION_BYTES
            && !contains_control(version)
    }

    pub fn backend(&self) -> (r: KnowledgeBackendId)
        ensures
            r == self.backend,
    {
        self.backend
    }

    pub fn version(&self) -> (r: &str)
        ensures
            r@ == self.version@,
    {
        self.version.as_str()
    }
}

impl Clone for KnowledgeSnapshotMetadata {
    fn clone(&self) -> (r: Self)
        ensures
            r == *self,
    {
        KnowledgeSnapshotMetadata { backend: self.backend, version: self.version.clone() }
    }
}

/// A piece of evidence by reference, without its content.
#[derive(Debug, PartialEq, Eq)]
pub struct KnowledgeEvidenceReference {
    pub backend: KnowledgeBackendId,
    pub reference: String,
}

impl KnowledgeEvidenceReference {
    pub open spec fn valid(self) -> bool {
        bounded_text(self.reference@, MAX_EVIDENCE_REFERENCE_BYTES as int)
    }

    pub fn new(backend: KnowledgeBackendId, reference: String) -> (r: Option<Self>)
        ensures
            r == (if bounded_text(reference@, MAX_EVIDENCE_REFERENCE_BYTES as int) {
                Some((KnowledgeEvidenceReference { backend, reference }))
            } else {
                None
            }),
    {
        let item = KnowledgeEvidenceReference { backend, reference };
        if item.is_valid() {
            Some(item)
        } else {
            None
        }
    }

    pub fn is_valid(&self) -> (r: bool)
        ensures
            r == self.valid(),
    {
        let reference = self.reference.as_str();
        !reference.is_empty() && byte_len(reference) <= MAX_EVIDENCE_REFERENCE_BYTES
            && !contains_control(reference)
    }

    pub fn backend(&self) -> (r: KnowledgeBackendId)
        ensures
            r == self.backend,
    {
        self.backend
    }
}

impl Clone for KnowledgeEvidenceReference {
    fn clone(&self) -> (r: Self)
        ensures
            r == *self,
    {
        KnowledgeEvidenceReference { backend: self.backend, reference: self.reference.clone() }
    }
}

} // verus!
