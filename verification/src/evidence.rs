//! Evidence: what a backend brings back.

use vstd::prelude::*;

use crate::knowledge::{MAX_EVIDENCE_ITEM_BYTES, MAX_RESULTS, MAX_SAFE_METADATA_BYTES};
use crate::metadata::{
    KnowledgeBackendId, KnowledgeEvidenceReference, KnowledgeSnapshotMetadata,
};
use crate::text::{
    bounded_text, byte_len, contains_control, decimal, decimal_text, hex_number, quoted,
    quoted_text, utf8_len, write_hex,
};

verus! {

pub const MAX_EVIDENCE_ID_BYTES: usize = 256;

#[derive(Clone, Copy, Debug, PartialEq, Eq, Structural)]
pub enum EvidenceError {
    InvalidContent,
    InvalidRank,
    InvalidScore,
    InvalidMetadata,
    InvalidSet,
}

/// The text itself, if it is not empty, fits in `max` bytes and holds no control character.
pub fn bounded_safe(value: String, max: usize) -> (r: Option<String>)
    ensures
        r == (if bounded_text(value@, max as int) {
            Some(value)
        } else {
            None
        }),
{
    if is_bounded_text(value.as_str(), max) {
        Some(value)
    } else {
        None
    }
}

fn is_bounded_text(value: &str, max: usize) -> (r: bool)
    ensures
        r == bounded_text(value@, max as int),
{
    !value.is_empty() && byte_len(value) <= max && !contains_control(value)
}

/// Whether a text that need not be there is bounded where it is.
pub open spec fn is_optional_bounded(value: Option<String>) -> bool {
    value matches Some(text) ==> bounded_text(text@, MAX_SAFE_METADATA_BYTES as int)
}

pub fn optional_bounded(value: &Option<String>) -> (r: bool)
    ensures
        r == is_optional_bounded(*value),
{
    match value {
        None => true,
        Some(text) => is_bounded_text(text.as_str(), MAX_SAFE_METADATA_BYTES),
    }
}

#[derive(Debug, Eq, Hash)]
pub struct EvidenceId(String);

impl View for EvidenceId {
    type V = Seq<char>;

    closed spec fn view(&self) -> Seq<char> {
        self.0@
    }
}

impl EvidenceId {
    pub fn new(value: String) -> (r: Result<Self, EvidenceError>)
        ensures
            match r {
                Ok(id) => bounded_text(value@, MAX_EVIDENCE_ID_BYTES as int) && id@ == value@,
                Err(error) => !bounded_text(value@, MAX_EVIDENCE_ID_BYTES as int) && error
                    == EvidenceError::InvalidMetadata,
            },
    {
        match bounded_safe(value, MAX_EVIDENCE_ID_BYTES) {
            Some(value) => Ok(EvidenceId(value)),
            None => Err(EvidenceError::InvalidMetadata),
        }
    }

    pub fn as_str(&self) -> (r: &str)
        ensures
            r@ == self@,
    {
        self.0.as_str()
    }
}

impl Clone for EvidenceId {
    fn clone(&self) -> (r: Self)
        ensures
            r@ == self@,
    {
        EvidenceId(self.0.clone())
    }
}

impl PartialEq for EvidenceId {
    fn eq(&self, other: &EvidenceId) -> (r: bool) {
        self.0 == other.0
    }
}

impl vstd::std_specs::cmp::PartialEqSpecImpl for EvidenceId {
    open spec fn obeys_eq_spec() -> bool {
        true
    }

    open spec fn eq_spec(&self, other: &EvidenceId) -> bool {
        self@ == other@
    }
}

/// Where a piece of evidence comes from.
#[derive(Debug, PartialEq, Eq)]
pub struct EvidenceSource {
    backend: KnowledgeBackendId,
    source_id: String,
}

impl View for EvidenceSource {
    type V = (KnowledgeBackendId, Seq<char>);

    closed spec fn view(&self) -> (KnowledgeBackendId, Seq<char>) {
        (self.backend, self.source_id@)
    }
}

impl Clone for EvidenceSource {
    fn clone(&self) -> (r: Self)
        ensures
            r@ == self@,
    {
        EvidenceSource { backend: self.backend, source_id: self.source_id.clone() }
    }
}

impl EvidenceSource {
    pub fn new(backend: KnowledgeBackendId, source_id: String) -> (r: Result<Self, EvidenceError>)
        ensures
            match r {
                Ok(source) => bounded_text(source_id@, MAX_SAFE_METADATA_BYTES as int) && source@
                    == (backend, source_id@),
                Err(error) => !bounded_text(source_id@, MAX_SAFE_METADATA_BYTES as int) && error
                    == EvidenceError::InvalidMetadata,
            },
    {
        match bounded_safe(source_id, MAX_SAFE_METADATA_BYTES) {
            Some(source_id) => Ok(EvidenceSource { backend, source_id }),
            None => Err(EvidenceError::InvalidMetadata),
        }
    }

    pub fn backend(&self) -> (r: KnowledgeBackendId)
        ensures
            r == self@.0,
    {
        self.backend
    }

    pub fn source_id(&self) -> (r: &str)
        ensures
            r@ == self@.1,
    {
        self.source_id.as_str()
    }
}

/// Whose scale a score is on.
#[derive(Clone, Copy, Debug, PartialEq, Eq, Structural)]
pub enum NativeScoreSystem {
    OcppHybridRetrieval,
    StandardsKagCombined,
}

/// A backend's own score, as the bits of a finite 64-bit binary floating-point number. Scores of
/// different backends are on different scales: nothing here compares them.
#[derive(Clone, Copy, Debug)]
pub struct NativeScore {
    bits: u64,
    system: NativeScoreSystem,
}

/// Whether bits stand for a finite number: the exponent is not all ones.
pub open spec fn bits_are_finite(bits: u64) -> bool {
    bits as int / 0x10_0000_0000_0000 % 2048 != 2047
}

impl NativeScore {
    pub closed spec fn of(bits: u64, system: NativeScoreSystem) -> NativeScore {
        NativeScore { bits, system }
    }

    pub closed spec fn score_bits(self) -> u64 {
        self.bits
    }

    pub closed spec fn scale(self) -> NativeScoreSystem {
        self.system
    }

    pub fn new(bits: u64, system: NativeScoreSystem) -> (r: Result<Self, EvidenceError>)
        ensures
            match r {
                Ok(score) => bits_are_finite(bits) && score == NativeScore::of(bits, system)
                    && score.score_bits() == bits && score.scale() == system,
                Err(error) => !bits_are_finite(bits) && error == EvidenceError::InvalidScore,
            },
    {
        if bits / 0x10_0000_0000_0000 % 2048 == 2047 {
            return Err(EvidenceError::InvalidScore);
        }
        Ok(NativeScore { bits, system })
    }

    /// The bits of the score.
    pub fn value(self) -> (r: u64)
        ensures
            r == self.score_bits(),
    {
        self.bits
    }

    pub fn system(self) -> (r: NativeScoreSystem)
        ensures
            r == self.scale(),
    {
        self.system
    }
}

/// Whether bits stand for zero, with either sign.
pub open spec fn bits_are_zero(bits: u64) -> bool {
    bits == 0 || bits == 0x8000_0000_0000_0000
}

impl PartialEq for NativeScore {
    fn eq(&self, other: &NativeScore) -> (r: bool) {
        let zeros = (self.bits == 0 || self.bits == 0x8000_0000_0000_0000) && (other.bits == 0
            || other.bits == 0x8000_0000_0000_0000);
        (self.bits == other.bits || zeros) && self.system == other.system
    }
}

impl vstd::std_specs::cmp::PartialEqSpecImpl for NativeScore {
    open spec fn obeys_eq_spec() -> bool {
        true
    }

    /// Two scores are equal as numbers: zero is zero, whatever its sign.
    open spec fn eq_spec(&self, other: &NativeScore) -> bool {
        (self.score_bits() == other.score_bits() || bits_are_zero(self.score_bits())
            && bits_are_zero(other.score_bits())) && self.scale() == other.scale()
    }
}

#[derive(Debug, PartialEq, Eq)]
pub enum EvidenceMetadata {
    Ocpp {
        strategy: String,
        section_title: Option<String>,
        page_start: Option<u32>,
        page_end: Option<u32>,
        evidence_layer: Option<String>,
        source_type: Option<String>,
    },
    Standards {
        source_title: String,
        section: Option<String>,
        heading: Option<String>,
        page_range: Option<String>,
        chunk_type: String,
    },
}

fn clone_option(value: &Option<String>) -> (r: Option<String>)
    ensures
        r == *value,
{
    match value {
        None => None,
        Some(text) => Some(text.clone()),
    }
}

impl Clone for EvidenceMetadata {
    fn clone(&self) -> (r: Self)
        ensures
            r == *self,
    {
        match self {
            EvidenceMetadata::Ocpp {
                strategy,
                section_title,
                page_start,
                page_end,
                evidence_layer,
                source_type,
            } => EvidenceMetadata::Ocpp {
                strategy: strategy.clone(),
                section_title: clone_option(section_title),
                page_start: *page_start,
                page_end: *page_end,
                evidence_layer: clone_option(evidence_layer),
                source_type: clone_option(source_type),
            },
            EvidenceMetadata::Standards {
                source_title,
                section,
                heading,
                page_range,
                chunk_type,
            } => EvidenceMetadata::Standards {
                source_title: source_title.clone(),
                section: clone_option(section),
                heading: clone_option(heading),
                page_range: clone_option(page_range),
                chunk_type: chunk_type.clone(),
            },
        }
    }
}

impl EvidenceMetadata {
    /// Every text in it is bounded.
    pub open spec fn bounded(self) -> bool {
        match self {
            EvidenceMetadata::Ocpp {
                strategy,
                section_title,
                page_start: _,
                page_end: _,
                evidence_layer,
                source_type,
            } => {
                &&& bounded_text(strategy@, MAX_SAFE_METADATA_BYTES as int)
                &&& is_optional_bounded(section_title)
                &&& is_optional_bounded(evidence_layer)
                &&& is_optional_bounded(source_type)
            },
            EvidenceMetadata::Standards {
                source_title,
                section,
                heading,
                page_range,
                chunk_type,
            } => {
                &&& bounded_text(source_title@, MAX_SAFE_METADATA_BYTES as int)
                &&& is_optional_bounded(section)
                &&& is_optional_bounded(heading)
                &&& is_optional_bounded(page_range)
                &&& bounded_text(chunk_type@, MAX_SAFE_METADATA_BYTES as int)
            },
        }
    }

    pub fn is_bounded(&self) -> (r: bool)
        ensures
            r == self.bounded(),
    {
        match self {
            EvidenceMetadata::Ocpp {
                strategy,
                section_title,
                page_start: _,
                page_end: _,
                evidence_layer,
                source_type,
            } => is_bounded_text(strategy.as_str(), MAX_SAFE_METADATA_BYTES) && optional_bounded(
                section_title,
            ) && optional_bounded(evidence_layer) && optional_bounded(source_type),
            EvidenceMetadata::Standards {
                source_title,
                section,
                heading,
                page_range,
                chunk_type,
            } => is_bounded_text(source_title.as_str(), MAX_SAFE_METADATA_BYTES)
                && optional_bounded(section) && optional_bounded(heading) && optional_bounded(
                page_range,
            ) && is_bounded_text(chunk_type.as_str(), MAX_SAFE_METADATA_BYTES),
        }
    }
}

/// One piece of evidence. Its content is untrusted and not for logs.
#[derive(PartialEq)]
pub struct Evidence {
    id: EvidenceId,
    source: EvidenceSource,
    content: String,
    backend_rank: u8,
    native_score: Option<NativeScore>,
    document_id: Option<String>,
    chunk_id: Option<String>,
    reference_id: String,
    canonical_reference: Option<String>,
    version_reference: Option<String>,
    metadata: EvidenceMetadata,
}

/// What a piece of evidence says.
#[verifier::ext_equal]
pub struct EvidenceView {
    pub id: Seq<char>,
    pub backend: KnowledgeBackendId,
    pub source_id: Seq<char>,
    pub content: Seq<char>,
    pub rank: u8,
    pub score: Option<NativeScore>,
    pub document_id: Option<Seq<char>>,
    pub chunk_id: Option<Seq<char>>,
    pub reference_id: Seq<char>,
    pub canonical_reference: Option<Seq<char>>,
    pub version_reference: Option<Seq<char>>,
    pub metadata: EvidenceMetadata,
}

pub open spec fn option_text(value: Option<String>) -> Option<Seq<char>> {
    match value {
        None => None,
        Some(text) => Some(text@),
    }
}

impl View for Evidence {
    type V = EvidenceView;

    closed spec fn view(&self) -> EvidenceView {
        EvidenceView {
            id: self.id@,
            backend: self.source@.0,
            source_id: self.source@.1,
            content: self.content@,
            rank: self.backend_rank,
            score: self.native_score,
            document_id: option_text(self.document_id),
            chunk_id: option_text(self.chunk_id),
            reference_id: self.reference_id@,
            canonical_reference: option_text(self.canonical_reference),
            version_reference: option_text(self.version_reference),
            metadata: self.metadata,
        }
    }
}

pub open spec fn content_fits(content: Seq<char>) -> bool {
    content.len() > 0 && utf8_len(content) <= MAX_EVIDENCE_ITEM_BYTES
}

fn as_text(value: &Option<String>) -> (r: Option<&str>)
    ensures
        match r {
            None => *value is None,
            Some(text) => option_text(*value) == Some(text@),
        },
{
    match value {
        None => None,
        Some(text) => Some(text.as_str()),
    }
}

impl Evidence {
    #[verifier::type_invariant]
    spec fn valid(self) -> bool {
        &&& content_fits(self.content@)
        &&& 0 < self.backend_rank <= MAX_RESULTS
        &&& bounded_text(self.reference_id@, MAX_EVIDENCE_ID_BYTES as int)
        &&& self.metadata.bounded()
    }

    pub fn new(
        id: EvidenceId,
        source: EvidenceSource,
        content: String,
        backend_rank: usize,
        native_score: Option<NativeScore>,
        document_id: Option<String>,
        chunk_id: Option<String>,
        reference_id: String,
        canonical_reference: Option<String>,
        version_reference: Option<String>,
        metadata: EvidenceMetadata,
    ) -> (r: Result<Self, EvidenceError>)
        ensures
            ({
                let rank_fits = 0 < backend_rank <= MAX_RESULTS;
                let metadata_fits = metadata.bounded() && is_optional_bounded(document_id)
                    && is_optional_bounded(chunk_id) && is_optional_bounded(canonical_reference)
                    && is_optional_bounded(version_reference) && bounded_text(
                    reference_id@,
                    MAX_EVIDENCE_ID_BYTES as int,
                );
                match r {
                    Ok(evidence) => {
                        &&& content_fits(content@)
                        &&& rank_fits
                        &&& metadata_fits
                        &&& evidence@ == (EvidenceView {
                            id: id@,
                            backend: source@.0,
                            source_id: source@.1,
                            content: content@,
                            rank: backend_rank as u8,
                            score: native_score,
                            document_id: option_text(document_id),
                            chunk_id: option_text(chunk_id),
                            reference_id: reference_id@,
                            canonical_reference: option_text(canonical_reference),
                            version_reference: option_text(version_reference),
                            metadata,
                        })
                    },
                    Err(error) => error == (if !content_fits(content@) {
                        EvidenceError::InvalidContent
                    } else if !rank_fits {
                        EvidenceError::InvalidRank
                    } else {
                        EvidenceError::InvalidMetadata
                    }) && !(content_fits(content@) && rank_fits && metadata_fits),
                }
            }),
    {
        if content.as_str().is_empty() || byte_len(content.as_str()) > MAX_EVIDENCE_ITEM_BYTES {
            return Err(EvidenceError::InvalidContent);
        }
        if backend_rank == 0 || backend_rank > MAX_RESULTS {
            return Err(EvidenceError::InvalidRank);
        }
        if !metadata.is_bounded() || !optional_bounded(&document_id) || !optional_bounded(&chunk_id)
            || !optional_bounded(&canonical_reference) || !optional_bounded(&version_reference)
            || !is_bounded_text(reference_id.as_str(), MAX_EVIDENCE_ID_BYTES) {
            return Err(EvidenceError::InvalidMetadata);
        }
        Ok(
            Evidence {
                id,
                source,
                content,
                backend_rank: backend_rank as u8,
                native_score,
                document_id,
                chunk_id,
                reference_id,
                canonical_reference,
                version_reference,
                metadata,
            },
        )
    }

    pub fn id(&self) -> (r: &EvidenceId)
        ensures
            r@ == self@.id,
    {
        &self.id
    }

    pub fn source(&self) -> (r: &EvidenceSource)
        ensures
            r@ == (self@.backend, self@.source_id),
    {
        &self.source
    }

    pub fn content(&self) -> (r: &str)
        ensures
            r@ == self@.content,
            content_fits(self@.content),
    {
        proof {
            use_type_invariant(self);
        }
        self.content.as_str()
    }

    pub fn backend_rank(&self) -> (r: u8)
        ensures
            r == self@.rank,
            0 < r <= MAX_RESULTS,
    {
        proof {
            use_type_invariant(self);
        }
        self.backend_rank
    }

    pub fn native_score(&self) -> (r: Option<NativeScore>)
        ensures
            r == self@.score,
    {
        self.native_score
    }

    pub fn document_id(&self) -> (r: Option<&str>)
        ensures
            match r {
                None => self@.document_id is None,
                Some(text) => self@.document_id == Some(text@),
            },
    {
        as_text(&self.document_id)
    }

    pub fn chunk_id(&self) -> (r: Option<&str>)
        ensures
            match r {
                None => self@.chunk_id is None,
                Some(text) => self@.chunk_id == Some(text@),
            },
    {
        as_text(&self.chunk_id)
    }

    pub fn reference_id(&self) -> (r: &str)
        ensures
            r@ == self@.reference_id,
            bounded_text(self@.reference_id, MAX_EVIDENCE_ID_BYTES as int),
    {
        proof {
            use_type_invariant(self);
        }
        self.reference_id.as_str()
    }

    pub fn canonical_reference(&self) -> (r: Option<&str>)
        ensures
            match r {
                None => self@.canonical_reference is None,
                Some(text) => self@.canonical_reference == Some(text@),
            },
    {
        as_text(&self.canonical_reference)
    }

    pub fn version_reference(&self) -> (r: Option<&str>)
        ensures
            match r {
                None => self@.version_reference is None,
                Some(text) => self@.version_reference == Some(text@),
            },
    {
        as_text(&self.version_reference)
    }

    pub fn metadata(&self) -> (r: &EvidenceMetadata)
        ensures
            *r == self@.metadata,
            self@.metadata.bounded(),
    {
        proof {
            use_type_invariant(self);
        }
        &self.metadata
    }

    /// The reference to this piece that a log may keep. There is always one.
    pub fn durable_reference(&self) -> (r: Option<KnowledgeEvidenceReference>)
        ensures
            r matches Some(reference) && reference.backend == self@.backend
                && reference.reference@ == self@.reference_id && reference.valid(),
    {
        proof {
            use_type_invariant(self);
        }
        KnowledgeEvidenceReference::new(self.source.backend, self.reference_id.clone())
    }

    /// What is written of a piece of evidence for debugging: where it comes from and how long its
    /// content is. A score is written by its bits.
    pub fn redacted(&self) -> (r: String)
        ensures
            r@ == "Evidence { id: EvidenceId("@ + quoted_text(self@.id)
                + "), source: EvidenceSource { backend: "@ + self@.backend.name() + ", source_id: "@
                + quoted_text(self@.source_id) + " }, content_bytes: "@ + decimal_text(
                utf8_len(self@.content),
            ) + ", content: \"[REDACTED]\", backend_rank: "@ + decimal_text(self@.rank as nat)
                + ", native_score: "@ + score_text(self@.score) + ", reference_id: "@ + quoted_text(
                self@.reference_id,
            ) + ", .. }"@,
    {
        let mut out = "Evidence { id: EvidenceId(".to_owned();
        out.append(quoted(self.id.as_str()).as_str());
        out.append("), source: EvidenceSource { backend: ");
        out.append(self.source.backend.write_name());
        out.append(", source_id: ");
        out.append(quoted(self.source.source_id.as_str()).as_str());
        out.append(" }, content_bytes: ");
        out.append(decimal(byte_len(self.content.as_str()) as u64).as_str());
        out.append(", content: \"[REDACTED]\", backend_rank: ");
        out.append(decimal(self.backend_rank as u64).as_str());
        out.append(", native_score: ");
        out.append(write_score(self.native_score).as_str());
        out.append(", reference_id: ");
        out.append(quoted(self.reference_id.as_str()).as_str());
        out.append(", .. }");
        out
    }
}

impl Clone for Evidence {
    fn clone(&self) -> (r: Self)
        ensures
            r@ == self@,
    {
        proof {
            use_type_invariant(self);
        }
        Evidence {
            id: self.id.clone(),
            source: self.source.clone(),
            content: self.content.clone(),
            backend_rank: self.backend_rank,
            native_score: self.native_score,
            document_id: clone_option(&self.document_id),
            chunk_id: clone_option(&self.chunk_id),
            reference_id: self.reference_id.clone(),
            canonical_reference: clone_option(&self.canonical_reference),
            version_reference: clone_option(&self.version_reference),
            metadata: self.metadata.clone(),
        }
    }
}

/// The debugging text of a score, with the sixteen hexadecimal digits of its bits.
pub open spec fn score_text(score: Option<NativeScore>) -> Seq<char> {
    match score {
        None => "None"@,
        Some(score) => "Some(NativeScore { bits: 0x"@ + hex_number(score.score_bits() as nat, 16)
            + ", system: "@ + system_text(score.scale()) + " })"@,
    }
}

pub open spec fn system_text(system: NativeScoreSystem) -> Seq<char> {
    match system {
        NativeScoreSystem::OcppHybridRetrieval => "OcppHybridRetrieval"@,
        NativeScoreSystem::StandardsKagCombined => "StandardsKagCombined"@,
    }
}

fn write_score(score: Option<NativeScore>) -> (r: String)
    ensures
        r@ == score_text(score),
{
    match score {
        None => "None".to_owned(),
        Some(score) => {
            let mut out = "Some(NativeScore { bits: 0x".to_owned();
            out.append(write_hex(score.bits as u128, 16).as_str());
            out.append(", system: ");
            out.append(
                match score.system {
                    NativeScoreSystem::OcppHybridRetrieval => "OcppHybridRetrieval",
                    NativeScoreSystem::StandardsKagCombined => "StandardsKagCombined",
                },
            );
            out.append(" })");
            out
        },
    }
}

pub open spec fn evidence_views(evidence: Seq<Evidence>) -> Seq<EvidenceView> {
    Seq::new(evidence.len(), |i: int| evidence[i]@)
}

/// Copies evidence.
pub fn copy_evidence(items: &Vec<Evidence>) -> (r: Vec<Evidence>)
    ensures
        evidence_views(r@) == evidence_views(items@),
{
    let mut out: Vec<Evidence> = Vec::new();
    let mut i: usize = 0;
    while i < items.len()
        invariant
            i <= items.len(),
            out@.len() == i,
            forall|j: int| 0 <= j < i ==> (#[trigger] out@[j])@ == items@[j]@,
        decreases items.len() - i,
    {
        out.push(items[i].clone());
        i = i + 1;
    }
    assert(evidence_views(out@) =~= evidence_views(items@));
    out
}

/// What one backend answered.
#[derive(PartialEq)]
pub struct BackendEvidenceSet {
    backend: KnowledgeBackendId,
    evidence: Vec<Evidence>,
    snapshot: Option<KnowledgeSnapshotMetadata>,
    truncated: bool,
}

#[verifier::ext_equal]
pub struct BackendSetView {
    pub backend: KnowledgeBackendId,
    pub evidence: Seq<EvidenceView>,
    pub snapshot: Option<KnowledgeSnapshotMetadata>,
    pub truncated: bool,
}

impl View for BackendEvidenceSet {
    type V = BackendSetView;

    closed spec fn view(&self) -> BackendSetView {
        BackendSetView {
            backend: self.backend,
            evidence: evidence_views(self.evidence@),
            snapshot: self.snapshot,
            truncated: self.truncated,
        }
    }
}

impl BackendSetView {
    /// All of it is this backend's own, and there is not too much of it.
    pub open spec fn valid(self) -> bool {
        &&& self.evidence.len() <= MAX_RESULTS
        &&& forall|i: int|
            0 <= i < self.evidence.len() ==> (#[trigger] self.evidence[i]).backend == self.backend
        &&& self.snapshot matches Some(snapshot) ==> snapshot.backend == self.backend
            && snapshot.valid()
    }
}

impl BackendEvidenceSet {
    #[verifier::type_invariant]
    spec fn own(self) -> bool {
        self@.valid()
    }

    pub fn new(
        backend: KnowledgeBackendId,
        evidence: Vec<Evidence>,
        snapshot: Option<KnowledgeSnapshotMetadata>,
        truncated: bool,
    ) -> (r: Result<Self, EvidenceError>)
        ensures
            ({
                let view = BackendSetView {
                    backend,
                    evidence: evidence_views(evidence@),
                    snapshot,
                    truncated,
                };
                match r {
                    Ok(set) => view.valid() && set@ == view,
                    Err(error) => !view.valid() && error == EvidenceError::InvalidSet,
                }
            }),
    {
        let ghost views = evidence_views(evidence@);
        if evidence.len() > MAX_RESULTS {
            return Err(EvidenceError::InvalidSet);
        }
        let mut i: usize = 0;
        while i < evidence.len()
            invariant
                i <= evidence.len(),
                views == evidence_views(evidence@),
                forall|j: int| 0 <= j < i ==> (#[trigger] views[j]).backend == backend,
            decreases evidence.len() - i,
        {
            if evidence[i].source.backend != backend {
                assert(views[i as int].backend != backend);
                return Err(EvidenceError::InvalidSet);
            }
            i = i + 1;
        }
        let snapshot_fits = match &snapshot {
            None => true,
            Some(value) => value.backend() == backend && value.is_valid(),
        };
        if !snapshot_fits {
            return Err(EvidenceError::InvalidSet);
        }
        Ok(BackendEvidenceSet { backend, evidence, snapshot, truncated })
    }

    pub fn backend(&self) -> (r: KnowledgeBackendId)
        ensures
            r == self@.backend,
            self@.valid(),
    {
        proof {
            use_type_invariant(self);
        }
        self.backend
    }

    pub fn evidence(&self) -> (r: &Vec<Evidence>)
        ensures
            evidence_views(r@) == self@.evidence,
    {
        &self.evidence
    }

    pub fn snapshot(&self) -> (r: Option<&KnowledgeSnapshotMetadata>)
        ensures
            match r {
                None => self@.snapshot is None,
                Some(snapshot) => self@.snapshot == Some(*snapshot),
            },
    {
        match &self.snapshot {
            None => None,
            Some(snapshot) => Some(snapshot),
        }
    }

    pub fn truncated(&self) -> (r: bool)
        ensures
            r == self@.truncated,
    {
        self.truncated
    }

    pub fn into_parts(self) -> (r: (Vec<Evidence>, Option<KnowledgeSnapshotMetadata>, bool))
        ensures
            evidence_views(r.0@) == self@.evidence,
            r.1 == self@.snapshot,
            r.2 == self@.truncated,
            self@.valid(),
    {
        proof {
            use_type_invariant(&self);
        }
        (self.evidence, self.snapshot, self.truncated)
    }
}

impl Clone for BackendEvidenceSet {
    fn clone(&self) -> (r: Self)
        ensures
            r@ == self@,
    {
        proof {
            use_type_invariant(self);
        }
        let snapshot = match &self.snapshot {
            None => None,
            Some(snapshot) => Some(snapshot.clone()),
        };
        BackendEvidenceSet {
            backend: self.backend,
            evidence: copy_evidence(&self.evidence),
            snapshot,
            truncated: self.truncated,
        }
    }
}

} // verus!
