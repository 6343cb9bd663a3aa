//! Identity and fixed metadata of renderer-neutral page scenes.

use vstd::prelude::*;

use crate::identity::DocumentVersion;

verus! {

/// Nonzero, strictly increasing identity of one compiled page scene.
#[derive(Clone, Copy, Debug, PartialEq, Eq, PartialOrd, Ord, Hash, Structural)]
pub struct PresentationSceneRevision {
    raw: u64,
}

impl PresentationSceneRevision {
    #[verifier::type_invariant]
    spec fn is_nonzero(self) -> bool {
        self.raw != 0
    }

    /// Numeric value, in specifications.
    pub closed spec fn value(self) -> u64 {
        self.raw
    }

    /// Creates a nonzero revision.
    pub fn new(raw: u64) -> (revision: Option<Self>)
        ensures
            revision is Some <==> raw != 0,
            revision matches Some(revision) ==> revision.value() == raw,
    {
        if raw == 0 {
            None
        } else {
            Some(PresentationSceneRevision { raw })
        }
    }

    /// Returns the numeric representation, which is never zero.
    pub fn get(self) -> (raw: u64)
        ensures
            raw == self.value(),
            raw != 0,
    {
        proof {
            use_type_invariant(&self);
        }
        self.raw
    }
}

/// Renderer-independent page pipeline that a scene was compiled for.
#[derive(Clone, Copy, Debug, PartialEq, Eq, Structural)]
pub struct PipelineKey {
    /// Owner of the pipeline.
    pub namespace: u32,
    /// Pipeline within its owner.
    pub index: u32,
}

/// Fixed metadata of one compiled page scene.
#[derive(Clone, Copy, Debug, PartialEq, Eq, Structural)]
pub struct PresentationSceneMetadata {
    /// Engine-local scene identity.
    pub revision: PresentationSceneRevision,
    /// Exact document identity and revision represented by the scene.
    pub document_version: DocumentVersion,
    /// Renderer-independent page pipeline compiled into the scene.
    pub pipeline: PipelineKey,
    /// Validated immutable scene-item count.
    pub scene_items: usize,
    /// Exact number of canonical shaped page-text entries.
    pub shaped_runs: usize,
    /// Serialized pending-text display-list bytes owned by the scene.
    pub display_list_bytes: usize,
    /// Deterministic conservative retained-resource charge.
    pub retained_charge_bytes: usize,
}

impl PresentationSceneMetadata {
    /// Engine-local scene identity.
    pub fn revision(self) -> (revision: PresentationSceneRevision)
        ensures
            revision == self.revision,
    {
        self.revision
    }

    /// Exact document identity and revision represented by the scene.
    pub fn document_version(self) -> (version: DocumentVersion)
        ensures
            version == self.document_version,
    {
        self.document_version
    }

    /// Renderer-independent page pipeline compiled into the scene.
    pub fn pipeline(self) -> (pipeline: PipelineKey)
        ensures
            pipeline == self.pipeline,
    {
        self.pipeline
    }

    /// Validated immutable scene-item count.
    pub fn scene_items(self) -> (items: usize)
        ensures
            items == self.scene_items,
    {
        self.scene_items
    }

    /// Exact number of canonical shaped page-text entries.
    pub fn shaped_runs(self) -> (runs: usize)
        ensures
            runs == self.shaped_runs,
    {
        self.shaped_runs
    }

    /// Serialized pending-text display-list bytes owned by the scene.
    pub fn display_list_bytes(self) -> (bytes: usize)
        ensures
            bytes == self.display_list_bytes,
    {
        self.display_list_bytes
    }

    /// Deterministic conservative retained-resource charge.
    pub fn retained_charge_bytes(self) -> (bytes: usize)
        ensures
            bytes == self.retained_charge_bytes,
    {
        self.retained_charge_bytes
    }
}

/// One exact renderer-neutral page scene prepared for native presentation.
///
/// The compiled display list and its shaped text live with the renderer that
/// made them; `content` is the key under which they are found again.
#[derive(Debug)]
pub struct PresentationScene {
    /// Fixed metadata which remains comparable without graphics authority.
    pub metadata: PresentationSceneMetadata,
    /// Key of the compiled scene and its shaped text.
    pub content: u64,
}

impl PresentationScene {
    /// Fixed metadata which remains comparable without graphics authority.
    pub fn metadata(&self) -> (metadata: PresentationSceneMetadata)
        ensures
            metadata == self.metadata,
    {
        self.metadata
    }
}

} // verus!
