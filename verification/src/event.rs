//! Sequenced worker events, their order within one navigation, and one-shot
//! transfers.

use vstd::prelude::*;

use crate::commit::NavigationCommitMetadata;
use crate::failure::{
    DocumentOperationFailure, EngineShutdownStatus, ExecutionFailure, WorkerStopReason,
};
use crate::frame::{EngineFrame, EngineFrameError, FrameMetadata};
use crate::identity::{
    DocumentOperationId, DocumentVersion, EventSequence, FrameLeaseId, MutationResultLeaseId,
    NavigationId, NodeId,
};
use crate::scene::PresentationScene;
use crate::script::CreatedNodeToken;

verus! {

/// Fixed-size event payload.
#[allow(inconsistent_fields)]
#[derive(Clone, Copy, Debug, PartialEq, Eq, Structural)]
pub enum EngineEventKind {
    /// The worker began executing a navigation.
    NavigationStarted {
        /// Navigation that began.
        navigation: NavigationId,
    },
    /// The synchronous pipeline committed a successful response.
    NavigationCommitted {
        /// Navigation that committed.
        navigation: NavigationId,
        /// Status of the committed response.
        http_status: u16,
    },
    /// A current frame was published behind a one-shot lease.
    FrameReady {
        /// Navigation that produced the frame.
        navigation: NavigationId,
        /// Lease of the frame.
        lease: FrameLeaseId,
        /// Metadata of the frame.
        metadata: FrameMetadata,
    },
    /// Cancellation or supersession prevented publication.
    NavigationCancelled {
        /// Navigation that was cancelled.
        navigation: NavigationId,
    },
    /// Navigation failed before publication.
    NavigationFailed {
        /// Navigation that failed.
        navigation: NavigationId,
        /// Why it failed.
        failure: ExecutionFailure,
    },
    /// A DOM batch committed and its exact replacement frame was published.
    DocumentMutationRendered {
        /// Owning navigation.
        navigation: NavigationId,
        /// Operation that committed.
        operation: DocumentOperationId,
        /// Live version before the batch.
        previous_live_version: DocumentVersion,
        /// Frame version before the batch.
        previous_frame_version: DocumentVersion,
        /// Live version after the batch.
        live_version: DocumentVersion,
        /// Lease of the created-node mapping.
        result: MutationResultLeaseId,
        /// Number of created nodes.
        created_nodes: usize,
        /// Lease of the replacement frame.
        frame: FrameLeaseId,
        /// Metadata of the replacement frame.
        metadata: FrameMetadata,
    },
    /// A DOM batch committed, but downstream work returned no replacement frame.
    DocumentMutationCommittedWithoutFrame {
        /// Owning navigation.
        navigation: NavigationId,
        /// Operation that committed.
        operation: DocumentOperationId,
        /// Live version before the batch.
        previous_live_version: DocumentVersion,
        /// Live version after the batch.
        live_version: DocumentVersion,
        /// Version of the frame that stays current.
        frame_version: DocumentVersion,
        /// Lease of the created-node mapping.
        result: MutationResultLeaseId,
        /// Number of created nodes.
        created_nodes: usize,
        /// Why no frame was returned.
        failure: DocumentOperationFailure,
    },
    /// A mutation committed no DOM state.
    DocumentMutationRejected {
        /// Owning navigation.
        navigation: NavigationId,
        /// Operation that was rejected.
        operation: DocumentOperationId,
        /// Unchanged live version.
        live_version: Option<DocumentVersion>,
        /// Unchanged frame version.
        frame_version: Option<DocumentVersion>,
        /// Why it was rejected.
        failure: DocumentOperationFailure,
    },
    /// The unchanged exact live revision was recomputed and published.
    DocumentRerendered {
        /// Owning navigation.
        navigation: NavigationId,
        /// Operation that rendered.
        operation: DocumentOperationId,
        /// Unchanged live version.
        live_version: DocumentVersion,
        /// Frame version before the operation.
        previous_frame_version: DocumentVersion,
        /// Lease of the replacement frame.
        frame: FrameLeaseId,
        /// Metadata of the replacement frame.
        metadata: FrameMetadata,
    },
    /// An exact rerender returned no frame and changed no DOM revision.
    DocumentRerenderRejected {
        /// Owning navigation.
        navigation: NavigationId,
        /// Operation that was rejected.
        operation: DocumentOperationId,
        /// Unchanged live version.
        live_version: Option<DocumentVersion>,
        /// Unchanged frame version.
        frame_version: Option<DocumentVersion>,
        /// Why it was rejected.
        failure: DocumentOperationFailure,
    },
    /// Executor-owned state for the context was destroyed on its owner thread.
    ContextClosed {
        /// Navigation whose context closed.
        navigation: NavigationId,
    },
    /// Reserved terminal event; it does not consume ordinary queue capacity.
    ShutdownComplete {
        /// Final status of the worker.
        status: EngineShutdownStatus,
    },
}

/// Sequenced event from the dedicated worker.
#[derive(Clone, Copy, Debug, PartialEq, Eq, Structural)]
pub struct EngineEvent {
    /// Monotonic worker-assigned event sequence.
    pub sequence: EventSequence,
    /// Typed event payload.
    pub kind: EngineEventKind,
}

impl EngineEvent {
    /// Monotonic worker-assigned event sequence.
    pub fn sequence(self) -> (sequence: EventSequence)
        ensures
            sequence == self.sequence,
    {
        self.sequence
    }

    /// Typed event payload.
    pub fn kind(self) -> (kind: EngineEventKind)
        ensures
            kind == self.kind,
    {
        self.kind
    }
}

/// Event queue state when no event was returned.
#[derive(Clone, Copy, Debug, PartialEq, Eq, Structural)]
pub enum EventReceiveError {
    /// No event is currently queued, but the worker can still make progress.
    Empty,
    /// The worker stopped and no further events remain.
    Closed(EngineShutdownStatus),
}

/// Progress of one navigation's events.
#[derive(Clone, Copy, Debug, PartialEq, Eq, Structural)]
pub enum NavigationEventPhase {
    /// No event yet.
    Queued,
    /// Execution began.
    Started,
    /// The response committed; its frame must follow.
    Committed,
    /// No further event is allowed.
    Terminal,
}

/// Phase that an event leads to, if the phase allows it.
pub open spec fn next_phase(phase: NavigationEventPhase, kind: EngineEventKind) -> Option<
    NavigationEventPhase,
> {
    match (phase, kind) {
        (NavigationEventPhase::Queued, EngineEventKind::NavigationStarted { .. }) => Some(
            NavigationEventPhase::Started,
        ),
        (NavigationEventPhase::Queued, EngineEventKind::NavigationCancelled { .. }) => Some(
            NavigationEventPhase::Terminal,
        ),
        (NavigationEventPhase::Started, EngineEventKind::NavigationCancelled { .. }) => Some(
            NavigationEventPhase::Terminal,
        ),
        (NavigationEventPhase::Started, EngineEventKind::NavigationFailed { .. }) => Some(
            NavigationEventPhase::Terminal,
        ),
        (NavigationEventPhase::Started, EngineEventKind::NavigationCommitted { .. }) => Some(
            NavigationEventPhase::Committed,
        ),
        (NavigationEventPhase::Committed, EngineEventKind::FrameReady { .. }) => Some(
            NavigationEventPhase::Terminal,
        ),
        _ => None,
    }
}

/// Moves on to the phase that `kind` leads to.
pub fn transition_event(phase: NavigationEventPhase, kind: EngineEventKind) -> (result: Result<
    NavigationEventPhase,
    WorkerStopReason,
>)
    ensures
        result == match next_phase(phase, kind) {
            Some(next) => Ok(next),
            None => Err(WorkerStopReason::EventOrderViolation),
        },
{
    match (phase, kind) {
        (NavigationEventPhase::Queued, EngineEventKind::NavigationStarted { .. }) => {
            Ok(NavigationEventPhase::Started)
        },
        (
            NavigationEventPhase::Queued | NavigationEventPhase::Started,
            EngineEventKind::NavigationCancelled { .. },
        )
        | (NavigationEventPhase::Started, EngineEventKind::NavigationFailed { .. })
        | (NavigationEventPhase::Committed, EngineEventKind::FrameReady { .. }) => {
            Ok(NavigationEventPhase::Terminal)
        },
        (NavigationEventPhase::Started, EngineEventKind::NavigationCommitted { .. }) => {
            Ok(NavigationEventPhase::Committed)
        },
        _ => Err(WorkerStopReason::EventOrderViolation),
    }
}

/// Phase after a whole sequence of events, if every one of them is allowed.
pub open spec fn phase_after(kinds: Seq<EngineEventKind>) -> Option<NavigationEventPhase>
    decreases kinds.len(),
{
    if kinds.len() == 0 {
        Some(NavigationEventPhase::Queued)
    } else {
        match phase_after(kinds.drop_last()) {
            Some(phase) => next_phase(phase, kinds.last()),
            None => None,
        }
    }
}

/// The events of one navigation form exactly one of four histories that have
/// ended, or a prefix of one: cancelled before it began, or begun and then
/// cancelled, failed, or committed and followed by its frame.
pub proof fn navigation_histories(kinds: Seq<EngineEventKind>)
    requires
        phase_after(kinds) is Some,
    ensures
        kinds.len() <= 3,
        kinds.len() >= 1 ==> kinds[0] is NavigationStarted || (kinds.len() == 1
            && kinds[0] is NavigationCancelled),
        kinds.len() >= 2 ==> kinds[1] is NavigationCommitted || (kinds.len() == 2 && (
        kinds[1] is NavigationCancelled || kinds[1] is NavigationFailed)),
        kinds.len() == 3 ==> kinds[2] is FrameReady,
        phase_after(kinds) == Some(NavigationEventPhase::Terminal) <==> {
            ||| kinds.len() == 1 && kinds[0] is NavigationCancelled
            ||| kinds.len() == 2 && !(kinds[1] is NavigationCommitted)
            ||| kinds.len() == 3
        },
{
    reveal_with_fuel(phase_after, 5);
    let count = kinds.len() as int;
    if count >= 4 {
        phase_after_prefix(kinds, 4);
        let four = kinds.take(4);
        let three = four.drop_last();
        let two = three.drop_last();
        let one = two.drop_last();
        assert(one.drop_last() =~= Seq::<EngineEventKind>::empty());
        assert(phase_after(one) is Some && phase_after(two) is Some);
        assert(false);
    }
    if count == 3 {
        assert(kinds.drop_last().drop_last().drop_last() =~= Seq::<EngineEventKind>::empty());
    }
    if count == 2 {
        assert(kinds.drop_last().drop_last() =~= Seq::<EngineEventKind>::empty());
    }
    if count == 1 {
        assert(kinds.drop_last() =~= Seq::<EngineEventKind>::empty());
    }
}

proof fn phase_after_prefix(kinds: Seq<EngineEventKind>, count: int)
    requires
        phase_after(kinds) is Some,
        0 <= count <= kinds.len(),
    ensures
        phase_after(kinds.take(count)) is Some,
    decreases kinds.len() - count,
{
    if count == kinds.len() {
        assert(kinds.take(count) =~= kinds);
    } else {
        phase_after_prefix(kinds, count + 1);
        assert(kinds.take(count + 1).drop_last() =~= kinds.take(count));
    }
}

/// Exact final identity transferred in response to `NavigationCommitted`.
pub struct NavigationCommit {
    /// Navigation whose successful response installed this identity.
    pub navigation: NavigationId,
    /// Bounded final URL, redirect, downgrade, and transport evidence.
    pub metadata: NavigationCommitMetadata,
}

impl NavigationCommit {
    /// Navigation whose successful response installed this identity.
    pub fn navigation(&self) -> (navigation: NavigationId)
        ensures
            navigation == self.navigation,
    {
        self.navigation
    }

    /// Bounded final URL, redirect, downgrade, and transport evidence.
    pub fn metadata(&self) -> (metadata: &NavigationCommitMetadata)
        ensures
            *metadata == self.metadata,
    {
        &self.metadata
    }

    /// Consumes the transfer into its bounded metadata.
    pub fn into_metadata(self) -> (metadata: NavigationCommitMetadata)
        ensures
            metadata == self.metadata,
    {
        self.metadata
    }
}

/// A frame transferred out of the current-lease store exactly once.
pub struct FrameLease {
    /// Navigation which produced the frame.
    pub navigation: NavigationId,
    /// Lease identity consumed by this transfer.
    pub lease: FrameLeaseId,
    /// The frame itself.
    pub frame: EngineFrame,
}

impl FrameLease {
    /// Navigation which produced the frame.
    pub fn navigation(&self) -> (navigation: NavigationId)
        ensures
            navigation == self.navigation,
    {
        self.navigation
    }

    /// Lease identity consumed by this transfer.
    pub fn lease_id(&self) -> (lease: FrameLeaseId)
        ensures
            lease == self.lease,
    {
        self.lease
    }

    /// Fixed metadata announced in `FrameReady`.
    pub fn metadata(&self) -> (metadata: FrameMetadata)
        ensures
            metadata == self.frame.metadata_of(),
    {
        self.frame.metadata()
    }

    /// Composed RGBA8 bytes in top-left row order, absent for a scene.
    pub fn rgba8_pixels(&self) -> (pixels: Option<&[u8]>)
        ensures
            match pixels {
                Some(pixels) => self.frame.pixels_of() == Some(pixels@),
                None => self.frame.pixels_of() is None,
            },
    {
        self.frame.rgba8_pixels()
    }

    /// Exact document revision represented by this frame, if any.
    pub fn document_version(&self) -> (version: Option<DocumentVersion>)
        ensures
            version == self.frame.metadata_of().document_version,
    {
        self.frame.document_version()
    }

    /// Consumes this exact one-shot lease into its renderer-neutral scene.
    pub fn into_presentation(self) -> (result: Result<PresentationScene, EngineFrameError>)
        ensures
            result == match self.frame.scene_of() {
                Some(scene) => Ok(scene),
                None => Err::<PresentationScene, _>(EngineFrameError::WrongOutputKind),
            },
    {
        self.frame.into_presentation()
    }
}

/// Node under a dense batch-local token, if there is one.
pub open spec fn mapped_node(created_nodes: Seq<NodeId>, token: CreatedNodeToken) -> Option<NodeId> {
    if token.index < created_nodes.len() {
        Some(created_nodes[token.index as int])
    } else {
        None
    }
}

/// Node under a dense batch-local token, if there is one.
pub fn node_for_token(created_nodes: &[NodeId], token: CreatedNodeToken) -> (node: Option<NodeId>)
    ensures
        node == mapped_node(created_nodes@, token),
{
    let index: usize = token.index as usize;
    if index < created_nodes.len() {
        Some(created_nodes[index])
    } else {
        None
    }
}

/// One bounded created-node mapping transferred exactly once.
#[derive(Debug)]
pub struct MutationResultLease {
    /// Navigation which owns the committed mutation.
    pub navigation: NavigationId,
    /// Exact mutation operation which produced this mapping.
    pub operation: DocumentOperationId,
    /// Newly committed live document version.
    pub live_version: DocumentVersion,
    /// One-shot lease consumed by this transfer.
    pub lease: MutationResultLeaseId,
    /// Dense created-node mapping in token-index order.
    pub created_nodes: Vec<NodeId>,
}

impl MutationResultLease {
    /// Navigation which owns the committed mutation.
    pub fn navigation(&self) -> (navigation: NavigationId)
        ensures
            navigation == self.navigation,
    {
        self.navigation
    }

    /// Exact mutation operation which produced this mapping.
    pub fn operation(&self) -> (operation: DocumentOperationId)
        ensures
            operation == self.operation,
    {
        self.operation
    }

    /// Newly committed live document version.
    pub fn live_version(&self) -> (version: DocumentVersion)
        ensures
            version == self.live_version,
    {
        self.live_version
    }

    /// One-shot lease consumed by this transfer.
    pub fn lease_id(&self) -> (lease: MutationResultLeaseId)
        ensures
            lease == self.lease,
    {
        self.lease
    }

    /// Dense created-node mapping in token-index order.
    pub fn created_nodes(&self) -> (nodes: &[NodeId])
        ensures
            nodes@ == self.created_nodes@,
    {
        self.created_nodes.as_slice()
    }

    /// Resolves one dense batch-local created token.
    pub fn created_node(&self, token: CreatedNodeToken) -> (node: Option<NodeId>)
        ensures
            node == if token.index < self.created_nodes@.len() {
                Some(self.created_nodes@[token.index as int])
            } else {
                None
            },
    {
        node_for_token(self.created_nodes.as_slice(), token)
    }
}

/// Failed one-shot lease transfer.
#[derive(Clone, Copy, Debug, PartialEq, Eq, Structural)]
pub enum FrameLeaseError {
    /// A lower, already-replaced or already-consumed lease cannot affect the current frame.
    Stale,
    /// The lease has never been issued by this worker.
    Unknown,
    /// The event receiver has already been detached.
    ReceiverClosed,
}

/// Failed exact-navigation commitment transfer.
#[derive(Clone, Copy, Debug, PartialEq, Eq, Structural)]
pub enum NavigationCommitError {
    /// The commitment of the navigation was published, and was replaced,
    /// consumed or declined since.
    Stale,
    /// No commitment has ever been published for that navigation identity.
    Unknown,
    /// The event receiver has already been detached.
    ReceiverClosed,
}

/// Failed mutation-result lease transfer.
#[derive(Clone, Copy, Debug, PartialEq, Eq, Structural)]
pub enum MutationResultLeaseError {
    /// A lower, replaced, or already-consumed lease is stale.
    Stale,
    /// The lease has never been issued by this worker.
    Unknown,
    /// The event receiver has already been detached.
    ReceiverClosed,
}

} // verus!
