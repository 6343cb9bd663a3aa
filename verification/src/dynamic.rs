//! A live document, and what came of updating or rerendering it.

use vstd::prelude::*;

use crate::document_policy::{CapturedDocumentResponseMetadata, DocumentPolicyError};
use crate::event::node_for_token;
use crate::executor::DocumentMutationCommit;
use crate::failure::DocumentOperationFailure;
use crate::frame::RgbaFrame;
use crate::identity::{DocumentVersion, NodeId};
use crate::pipeline_error::{map_document_pipeline_error, PipelineError};
use crate::script::CreatedNodeToken;

verus! {

/// Downstream evidence for one exact live-document rendering. It carries no
/// HTTP or parser counts: a mutation batch fetches and parses nothing.
#[derive(Clone, Copy, Debug, PartialEq, Eq, Structural)]
pub struct DynamicRenderEvidence {
    /// Exact document identity and revision consumed by every downstream stage.
    pub document_version: DocumentVersion,
    /// Immutable nodes in the committed DOM snapshot.
    pub dom_nodes: usize,
    /// Computed-style entries.
    pub stylo_style_entries: usize,
    /// Recoverable CSS diagnostics retained.
    pub style_diagnostics: usize,
    /// CSS diagnostics dropped at the configured bound.
    pub dropped_style_diagnostics: usize,
    /// Layout boxes published for the exact style revision.
    pub layout_boxes: usize,
    /// Recoverable layout warnings.
    pub layout_warnings: usize,
    /// Validated renderer-independent scene items.
    pub scene_items: usize,
    /// Serialized bytes in the pending-text display list before composition.
    pub pre_composition_display_list_bytes: usize,
}

/// Aggregate evidence from shaping every finalized scene text record.
#[derive(Clone, Copy, Debug, PartialEq, Eq, Structural)]
pub struct TextEvidence {
    /// Measurement requests served by the shaper during layout.
    pub layout_measurement_requests: usize,
    /// Pending page text runs shaped after scene compilation.
    pub shaped_runs: usize,
    /// Aggregate exact glyph count across those shaped runs.
    pub glyphs: usize,
    /// Aggregate Unicode cluster count across those shaped runs.
    pub clusters: usize,
}

/// The live document of an engine. Its node arena lives with the DOM;
/// `document` is the key under which it is found again.
pub struct LiveDocumentPage {
    document: u64,
    live_version: DocumentVersion,
    last_returned_frame_version: DocumentVersion,
    response_metadata: CapturedDocumentResponseMetadata,
}

impl LiveDocumentPage {
    /// Key of the node arena, in specifications.
    pub closed spec fn document_of(self) -> u64 {
        self.document
    }

    /// Live revision, in specifications.
    pub closed spec fn live_of(self) -> DocumentVersion {
        self.live_version
    }

    /// Revision of the last returned frame, in specifications.
    pub closed spec fn shown_of(self) -> DocumentVersion {
        self.last_returned_frame_version
    }

    /// Metadata of the response, in specifications.
    pub closed spec fn response_of(self) -> CapturedDocumentResponseMetadata {
        self.response_metadata
    }

    /// The same page after a mutation or a returned frame.
    pub open spec fn is_advanced(
        self,
        next: Self,
        live: DocumentVersion,
        shown: DocumentVersion,
    ) -> bool {
        &&& next.document_of() == self.document_of()
        &&& next.response_of() == self.response_of()
        &&& next.live_of() == live
        &&& next.shown_of() == shown
    }

    /// Retains a freshly rendered document with the metadata of its response.
    /// `live_version` is what the document says of itself.
    pub fn new(
        document: u64,
        live_version: DocumentVersion,
        last_returned_frame_version: DocumentVersion,
        response_metadata: CapturedDocumentResponseMetadata,
    ) -> (result: Result<Self, DocumentPolicyError>)
        ensures
            if live_version == last_returned_frame_version && response_metadata.version_of()
                == last_returned_frame_version {
                &&& result matches Ok(page)
                &&& page.document_of() == document
                &&& page.live_of() == live_version
                &&& page.shown_of() == last_returned_frame_version
                &&& page.response_of() == response_metadata
            } else {
                result == Err::<Self, _>(DocumentPolicyError::BindingMismatch)
            },
    {
        if live_version != last_returned_frame_version {
            return Err(DocumentPolicyError::BindingMismatch);
        }
        if response_metadata.response_document_version() != last_returned_frame_version {
            return Err(DocumentPolicyError::BindingMismatch);
        }
        Ok(
            LiveDocumentPage {
                document,
                live_version,
                last_returned_frame_version,
                response_metadata,
            },
        )
    }

    /// Key of the node arena.
    pub fn document(&self) -> (document: u64)
        ensures
            document == self.document_of(),
    {
        self.document
    }

    /// Exact identity and revision of the mutable DOM.
    pub fn live_version(&self) -> (version: DocumentVersion)
        ensures
            version == self.live_of(),
    {
        self.live_version
    }

    /// Exact DOM revision represented by the last successfully returned frame.
    pub fn last_returned_frame_version(&self) -> (version: DocumentVersion)
        ensures
            version == self.shown_of(),
    {
        self.last_returned_frame_version
    }

    /// Metadata of the response that the document was parsed from.
    pub fn captured_response_metadata(&self) -> (metadata: &CapturedDocumentResponseMetadata)
        ensures
            *metadata == self.response_of(),
    {
        &self.response_metadata
    }

    /// Records that the DOM committed a batch.
    pub fn record_commit(&mut self, committed: DocumentVersion)
        ensures
            old(self).is_advanced(*final(self), committed, old(self).shown_of()),
    {
        self.live_version = committed;
    }

    /// Records that a frame of the live revision was returned.
    pub fn record_frame_returned(&mut self)
        ensures
            old(self).is_advanced(*final(self), old(self).live_of(), old(self).live_of()),
    {
        self.last_returned_frame_version = self.live_version;
    }
}

/// Successful mutation, full recomputation, and composed rendering.
#[derive(Debug)]
pub struct RenderedDocumentUpdate {
    /// Live DOM revision before the committed batch.
    pub previous_live_version: DocumentVersion,
    /// Exact revision represented by the frame returned before this update.
    pub previous_last_returned_frame_version: DocumentVersion,
    /// Downstream evidence for the newly live revision and returned frame.
    pub evidence: DynamicRenderEvidence,
    /// Text measurement and shaping evidence for the new revision.
    pub text: TextEvidence,
    /// One complete composed frame for the new revision.
    pub frame: RgbaFrame,
    /// The committed batch.
    pub commit: DocumentMutationCommit,
}

impl RenderedDocumentUpdate {
    /// Resolves one dense created-node token from this exact committed batch.
    pub fn created_node(&self, token: CreatedNodeToken) -> (node: Option<NodeId>)
        ensures
            node == crate::event::mapped_node(self.commit.created_nodes@, token),
    {
        node_for_token(self.commit.created_nodes(), token)
    }

    /// Dense created-node mapping in token-index order.
    pub fn created_nodes(&self) -> (nodes: &[NodeId])
        ensures
            nodes@ == self.commit.created_nodes@,
    {
        self.commit.created_nodes()
    }
}

/// Successful recomputation of the current exact live DOM revision.
#[derive(Debug)]
pub struct RenderedLiveDocument {
    /// Exact revision represented by the frame returned before this rerender.
    pub previous_last_returned_frame_version: DocumentVersion,
    /// Downstream evidence for the unchanged live DOM revision.
    pub evidence: DynamicRenderEvidence,
    /// Text measurement and shaping evidence for the unchanged revision.
    pub text: TextEvidence,
    /// One fresh complete composed frame for the unchanged revision.
    pub frame: RgbaFrame,
}

/// Why a dynamic update was rejected before changing the live DOM.
#[derive(Debug)]
pub enum DocumentUpdateRejection {
    /// No successfully loaded document is currently retained.
    NoLiveDocument,
    /// The renderer was already terminally unusable before this operation.
    RendererUnavailable,
    /// The caller did not name the exact current live revision for a rerender.
    LiveVersionMismatch {
        /// Version required by the caller.
        expected: DocumentVersion,
        /// Version currently retained by the engine.
        actual: DocumentVersion,
    },
    /// A pre-commit control check or no-mutation rerender pipeline stage failed.
    Pipeline(PipelineError),
    /// The exact-version bounded mutation batch was rejected atomically; what
    /// the DOM said of it.
    Mutation(String),
}

/// What the worker reports of a rejected update.
pub open spec fn rejection_failure(reason: DocumentUpdateRejection) -> DocumentOperationFailure {
    match reason {
        DocumentUpdateRejection::NoLiveDocument => DocumentOperationFailure::NoLiveDocument,
        DocumentUpdateRejection::RendererUnavailable =>
            DocumentOperationFailure::RendererUnavailable,
        DocumentUpdateRejection::LiveVersionMismatch { .. } =>
            DocumentOperationFailure::VersionMismatch,
        DocumentUpdateRejection::Mutation(_) => DocumentOperationFailure::MutationRejected,
        DocumentUpdateRejection::Pipeline(error) => crate::pipeline_error::operation_failure(error),
    }
}

/// Reports a rejected update.
pub fn map_document_rejection(reason: &DocumentUpdateRejection) -> (failure:
    DocumentOperationFailure)
    ensures
        failure == rejection_failure(*reason),
{
    match reason {
        DocumentUpdateRejection::NoLiveDocument => DocumentOperationFailure::NoLiveDocument,
        DocumentUpdateRejection::RendererUnavailable => {
            DocumentOperationFailure::RendererUnavailable
        },
        DocumentUpdateRejection::LiveVersionMismatch { .. } => {
            DocumentOperationFailure::VersionMismatch
        },
        DocumentUpdateRejection::Mutation(_) => DocumentOperationFailure::MutationRejected,
        DocumentUpdateRejection::Pipeline(error) => map_document_pipeline_error(error),
    }
}

/// Two-phase dynamic update failure: either the call committed no DOM
/// mutation, or a batch advanced the live document once and no replacement
/// frame was returned.
#[allow(inconsistent_fields)]
#[derive(Debug)]
pub enum DocumentUpdateError {
    /// This call committed no DOM mutation.
    Rejected {
        /// Current live version, absent only when no document was loaded.
        live_version: Option<DocumentVersion>,
        /// Revision of the last returned frame, absent only when no document
        /// was loaded.
        last_returned_frame_version: Option<DocumentVersion>,
        /// Exact rejection reason.
        reason: DocumentUpdateRejection,
    },
    /// DOM committed, but this call returned no replacement frame.
    Committed {
        /// Live version before the batch.
        previous_live_version: DocumentVersion,
        /// Revision represented by the frame returned before this failed call.
        last_returned_frame_version: DocumentVersion,
        /// The committed batch.
        commit: DocumentMutationCommit,
        /// Failure after the irreversible DOM commit point.
        source: PipelineError,
    },
}

impl DocumentUpdateError {
    /// Nodes that the failed update created, in specifications.
    pub open spec fn created(self) -> Seq<NodeId> {
        match self {
            DocumentUpdateError::Rejected { .. } => seq![],
            DocumentUpdateError::Committed { commit, .. } => commit.created_nodes@,
        }
    }

    /// Resolves a created token when the DOM committed before frame return
    /// failed. Rejected updates never create nodes.
    pub fn created_node(&self, token: CreatedNodeToken) -> (node: Option<NodeId>)
        ensures
            node == crate::event::mapped_node(self.created(), token),
    {
        match self {
            DocumentUpdateError::Rejected { .. } => None,
            DocumentUpdateError::Committed { commit, .. } => node_for_token(
                commit.created_nodes(),
                token,
            ),
        }
    }

    /// Dense created-node map retained after a post-commit failure.
    pub fn created_nodes(&self) -> (nodes: &[NodeId])
        ensures
            nodes@ == self.created(),
    {
        match self {
            DocumentUpdateError::Rejected { .. } => &[],
            DocumentUpdateError::Committed { commit, .. } => commit.created_nodes(),
        }
    }
}

/// A rejection that names the versions of the live document, if there is one.
pub open spec fn rejected_for(
    versions: Option<(DocumentVersion, DocumentVersion)>,
    reason: DocumentUpdateRejection,
) -> DocumentUpdateError {
    DocumentUpdateError::Rejected {
        live_version: match versions {
            Some((live, _)) => Some(live),
            None => None,
        },
        last_returned_frame_version: match versions {
            Some((_, shown)) => Some(shown),
            None => None,
        },
        reason,
    }
}

/// Rejects an update, naming the versions of the live document, if there is
/// one.
pub fn rejected_update_for_versions(
    versions: Option<(DocumentVersion, DocumentVersion)>,
    reason: DocumentUpdateRejection,
) -> (error: DocumentUpdateError)
    ensures
        error == rejected_for(versions, reason),
{
    let (live_version, last_returned_frame_version) = match versions {
        Some((live, last_returned)) => (Some(live), Some(last_returned)),
        None => (None, None),
    };
    DocumentUpdateError::Rejected { live_version, last_returned_frame_version, reason }
}

/// Why no update can start, if none can: without a live document nothing is
/// said of the renderer.
pub open spec fn owner_rejection(
    versions: Option<(DocumentVersion, DocumentVersion)>,
    renderer_is_usable: bool,
) -> Option<DocumentUpdateRejection> {
    if versions is None {
        Some(DocumentUpdateRejection::NoLiveDocument)
    } else if !renderer_is_usable {
        Some(DocumentUpdateRejection::RendererUnavailable)
    } else {
        None
    }
}

/// Accepts an update of a live document while the renderer is usable.
pub fn validate_dynamic_owner(
    versions: Option<(DocumentVersion, DocumentVersion)>,
    renderer_is_usable: bool,
) -> (result: Result<(DocumentVersion, DocumentVersion), DocumentUpdateError>)
    ensures
        result == match owner_rejection(versions, renderer_is_usable) {
            Some(reason) => Err(rejected_for(versions, reason)),
            None => Ok(versions->0),
        },
{
    let versions = match versions {
        Some(versions) => versions,
        None => return Err(
            rejected_update_for_versions(None, DocumentUpdateRejection::NoLiveDocument),
        ),
    };
    if !renderer_is_usable {
        return Err(
            rejected_update_for_versions(
                Some(versions),
                DocumentUpdateRejection::RendererUnavailable,
            ),
        );
    }
    Ok(versions)
}

} // verus!
