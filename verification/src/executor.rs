//! What an executor hands back to the worker.

use vstd::prelude::*;

use crate::commit::NavigationCommitMetadata;
use crate::failure::{
    DocumentOperationFailure, ExecutionFailure, ExecutionFailureKind, NavigationStage,
};
use crate::frame::EngineFrame;
use crate::identity::{DocumentVersion, NodeId};

verus! {

/// Allocation proof for the node mapping of one committed DOM batch.
#[derive(Debug)]
pub struct DocumentMutationCommit {
    /// Exact committed document version.
    pub version: DocumentVersion,
    /// Dense transaction-created mapping in token-index order.
    pub created_nodes: Vec<NodeId>,
}

impl DocumentMutationCommit {
    /// Takes over what a DOM transaction committed.
    pub fn from_script_commit(version: DocumentVersion, created_nodes: Vec<NodeId>) -> (commit: Self)
        ensures
            commit == (DocumentMutationCommit { version, created_nodes }),
    {
        DocumentMutationCommit { version, created_nodes }
    }

    /// Exact committed document version.
    pub fn version(&self) -> (version: DocumentVersion)
        ensures
            version == self.version,
    {
        self.version
    }

    /// Dense transaction-created mapping in token-index order.
    pub fn created_nodes(&self) -> (nodes: &[NodeId])
        ensures
            nodes@ == self.created_nodes@,
    {
        self.created_nodes.as_slice()
    }
}

/// Admission evidence of one executor-owned document.
#[derive(Clone, Copy, Debug, PartialEq, Eq, Structural)]
pub struct DocumentLoadProof {
    /// Exact document version proved by the snapshot.
    pub version: DocumentVersion,
    /// Conservative connected-node charge proved by the snapshot.
    pub node_charge: usize,
}

impl DocumentLoadProof {
    /// Evidence of a snapshot with so many nodes.
    pub fn from_snapshot(version: DocumentVersion, node_charge: usize) -> (evidence: Self)
        ensures
            evidence == (DocumentLoadProof { version, node_charge }),
    {
        DocumentLoadProof { version, node_charge }
    }

    /// Exact document version proved by the snapshot.
    pub fn version(&self) -> (version: DocumentVersion)
        ensures
            version == self.version,
    {
        self.version
    }

    /// Conservative connected-node charge proved by the snapshot.
    pub fn node_charge(&self) -> (charge: usize)
        ensures
            charge == self.node_charge,
    {
        self.node_charge
    }
}

/// Worker-private execution outcome for one exact-version mutation.
#[allow(inconsistent_fields)]
pub enum ExecutorDocumentMutation {
    /// DOM committed and a replacement frame was produced.
    Rendered {
        /// Live version before the batch.
        previous_live_version: DocumentVersion,
        /// Frame version before the batch.
        previous_frame_version: DocumentVersion,
        /// The committed batch.
        commit: DocumentMutationCommit,
        /// The replacement frame.
        frame: EngineFrame,
    },
    /// No DOM mutation committed.
    Rejected {
        /// Unchanged live version.
        live_version: Option<DocumentVersion>,
        /// Unchanged frame version.
        frame_version: Option<DocumentVersion>,
        /// Why it was rejected.
        failure: DocumentOperationFailure,
    },
    /// DOM committed, but no replacement frame was returned.
    CommittedWithoutFrame {
        /// Live version before the batch.
        previous_live_version: DocumentVersion,
        /// Version of the frame that stays current.
        frame_version: DocumentVersion,
        /// The committed batch.
        commit: DocumentMutationCommit,
        /// Why no frame was returned.
        failure: DocumentOperationFailure,
    },
    /// Hidden executor state changed but cannot be represented by a valid
    /// publishable outcome.
    Invalidated,
}

impl ExecutorDocumentMutation {
    /// Whether executor state changed, in specifications.
    pub open spec fn changed_state(self) -> bool {
        !(self is Rejected)
    }

    /// Whether the renderer became unusable, in specifications.
    pub open spec fn lost_renderer(self) -> bool {
        match self {
            ExecutorDocumentMutation::Rejected { failure, .. } => failure is RendererUnavailable,
            ExecutorDocumentMutation::CommittedWithoutFrame { failure, .. } =>
                failure is RendererUnavailable,
            _ => false,
        }
    }

    /// Whether executor state changed.
    pub fn changed_hidden_state(&self) -> (changed: bool)
        ensures
            changed == self.changed_state(),
    {
        match self {
            ExecutorDocumentMutation::Rejected { .. } => false,
            _ => true,
        }
    }

    /// Whether the renderer became unusable.
    pub fn renderer_unusable(&self) -> (unusable: bool)
        ensures
            unusable == self.lost_renderer(),
    {
        match self {
            ExecutorDocumentMutation::Rejected { failure, .. } => *failure
                == DocumentOperationFailure::RendererUnavailable,
            ExecutorDocumentMutation::CommittedWithoutFrame { failure, .. } => *failure
                == DocumentOperationFailure::RendererUnavailable,
            _ => false,
        }
    }
}

/// Worker-private execution outcome for one exact-version rerender.
#[allow(inconsistent_fields)]
pub enum ExecutorDocumentRerender {
    /// The unchanged live revision produced a replacement frame.
    Rendered {
        /// Unchanged live version.
        live_version: DocumentVersion,
        /// Frame version before the operation.
        previous_frame_version: DocumentVersion,
        /// The replacement frame.
        frame: EngineFrame,
    },
    /// No frame was returned and neither tracked document version advanced.
    Rejected {
        /// Unchanged live version.
        live_version: Option<DocumentVersion>,
        /// Unchanged frame version.
        frame_version: Option<DocumentVersion>,
        /// Why it was rejected.
        failure: DocumentOperationFailure,
    },
    /// Hidden frame state changed but no valid frame can be published.
    Invalidated,
}

impl ExecutorDocumentRerender {
    /// Whether executor state changed, in specifications.
    pub open spec fn changed_state(self) -> bool {
        !(self is Rejected)
    }

    /// Whether the renderer became unusable, in specifications.
    pub open spec fn lost_renderer(self) -> bool {
        match self {
            ExecutorDocumentRerender::Rejected { failure, .. } => failure is RendererUnavailable,
            _ => false,
        }
    }

    /// Whether executor state changed.
    pub fn changed_hidden_state(&self) -> (changed: bool)
        ensures
            changed == self.changed_state(),
    {
        match self {
            ExecutorDocumentRerender::Rejected { .. } => false,
            _ => true,
        }
    }

    /// Whether the renderer became unusable.
    pub fn renderer_unusable(&self) -> (unusable: bool)
        ensures
            unusable == self.lost_renderer(),
    {
        match self {
            ExecutorDocumentRerender::Rejected { failure, .. } => *failure
                == DocumentOperationFailure::RendererUnavailable,
            _ => false,
        }
    }
}

/// Successful executor output before generation-gated publication.
pub struct ExecutorOutput {
    /// Successful HTTP status.
    pub http_status: u16,
    /// The produced frame.
    pub frame: EngineFrame,
    /// Conservative node charge of a produced document.
    pub document_node_charge: Option<usize>,
    /// Final identity of the response.
    pub navigation_commit: Option<NavigationCommitMetadata>,
}

impl ExecutorOutput {
    /// Creates a success result with a 2xx HTTP status.
    pub fn new(http_status: u16, frame: EngineFrame) -> (result: Result<Self, ExecutionFailure>)
        ensures
            result == if 200 <= http_status <= 299 {
                Ok(
                    ExecutorOutput {
                        http_status,
                        frame,
                        document_node_charge: None,
                        navigation_commit: None,
                    },
                )
            } else {
                Err(
                    ExecutionFailure::of(ExecutionFailureKind::Rejected, NavigationStage::Fetch),
                )
            },
    {
        if http_status < 200 || http_status > 299 {
            return Err(
                ExecutionFailure::new(ExecutionFailureKind::Rejected, NavigationStage::Fetch),
            );
        }
        Ok(
            ExecutorOutput {
                http_status,
                frame,
                document_node_charge: None,
                navigation_commit: None,
            },
        )
    }

    /// Creates a document load result whose frame shows exactly the proved
    /// document.
    pub fn new_document(http_status: u16, frame: EngineFrame, proof_of_load: DocumentLoadProof) -> (result:
        Result<Self, ExecutionFailure>)
        ensures
            result == if frame.metadata_of().document_version != Some(proof_of_load.version) {
                Err(
                    ExecutionFailure::of(ExecutionFailureKind::Internal, NavigationStage::Document),
                )
            } else if 200 <= http_status <= 299 {
                Ok(
                    ExecutorOutput {
                        http_status,
                        frame,
                        document_node_charge: Some(proof_of_load.node_charge),
                        navigation_commit: None,
                    },
                )
            } else {
                Err(
                    ExecutionFailure::of(ExecutionFailureKind::Rejected, NavigationStage::Fetch),
                )
            },
    {
        let shown = match frame.document_version() {
            Some(version) => version == proof_of_load.version,
            None => false,
        };
        if !shown {
            return Err(
                ExecutionFailure::new(ExecutionFailureKind::Internal, NavigationStage::Document),
            );
        }
        match Self::new(http_status, frame) {
            Ok(output) => Ok(
                ExecutorOutput {
                    document_node_charge: Some(proof_of_load.node_charge),
                    ..output
                },
            ),
            Err(failure) => Err(failure),
        }
    }

    /// Attaches the final identity of the response.
    pub fn with_navigation_commit(self, commit: NavigationCommitMetadata) -> (output: Self)
        ensures
            output == (ExecutorOutput { navigation_commit: Some(commit), ..self }),
    {
        ExecutorOutput { navigation_commit: Some(commit), ..self }
    }
}

} // verus!
