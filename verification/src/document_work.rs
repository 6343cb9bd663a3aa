//! Mutations and rerenders of live documents: what they reserve, when they are
//! still wanted, and what an executor outcome does to the shared state.

use vstd::prelude::*;

use crate::collections::{map_contains, map_get, map_insert, map_remove};
use crate::control::{
    clear_document_cancellation_if_current, invalidate_shared_document, release_work, request_stop,
};
use crate::engine::{
    ContextState, DocumentMutationWork, DocumentRerenderWork, EngineEffect, EngineModel, Lifecycle,
    RetainedDocumentState, SharedState, StoredFrame, StoredMutationResult,
};
use crate::event::{EngineEvent, EngineEventKind};
use crate::executor::{DocumentMutationCommit, ExecutorDocumentMutation, ExecutorDocumentRerender};
use crate::failure::{DocumentOperationFailure, WorkerStopReason};
use crate::frame::{EngineFrame, FrameMetadata};
use crate::identity::{
    DocumentOperationId, DocumentVersion, EventSequence, FrameLeaseId, MutationResultLeaseId,
    NavigationId, NodeId,
};
use crate::limits::{EngineLimits, LimitValues};
use crate::publication::retained_after_replacement;
use crate::script::{created_nodes_are_distinct, mutation_batch_has_valid_node_topology};

verus! {

/// Identities set aside for publishing one document operation.
#[derive(Clone, Copy, Debug, PartialEq, Eq, Structural)]
pub struct DocumentPublicationReservation {
    /// Sequence of the event.
    pub sequence: EventSequence,
    /// Lease of the frame.
    pub frame: FrameLeaseId,
    /// Lease of the created-node mapping, for a mutation.
    pub result: Option<MutationResultLeaseId>,
}

/// Whether an identity can be handed out and followed by another.
pub open spec fn issuable(raw: u64) -> bool {
    0 < raw < u64::MAX
}

impl EngineModel {
    /// Live and frame version of a navigation's document.
    pub open spec fn versions(self, navigation: NavigationId) -> Option<
        (DocumentVersion, DocumentVersion),
    > {
        match self.context(navigation) {
            Some(context) => match context.document {
                Some(document) => if document.navigation == navigation {
                    Some((document.live_version, document.frame_version))
                } else {
                    None
                },
                None => None,
            },
            None => None,
        }
    }

    /// Live version of a navigation's document.
    pub open spec fn live_version(self, navigation: NavigationId) -> DocumentVersion {
        let versions = self.versions(navigation)->0;
        versions.0
    }

    /// Frame version of a navigation's document.
    pub open spec fn frame_version(self, navigation: NavigationId) -> DocumentVersion {
        let versions = self.versions(navigation)->0;
        versions.1
    }

    /// Whether a document operation is still what its context runs, on exactly
    /// the version that it was admitted for.
    pub open spec fn operation_is_current(
        self,
        navigation: NavigationId,
        expected_live_version: DocumentVersion,
        operation: DocumentOperationId,
    ) -> bool {
        &&& self.versions(navigation) matches Some((live, _))
        &&& live == expected_live_version
        &&& self.contexts[crate::engine::context_key(navigation)].active_cancellation matches Some(
            active,
        )
        &&& active.names_document(navigation, operation)
    }

    /// Identities for publishing one document operation.
    pub open spec fn publication_reservation(self, limits: LimitValues, needs_result: bool) -> Result<
        DocumentPublicationReservation,
        WorkerStopReason,
    > {
        if self.events.len() >= limits.event_capacity {
            Err(WorkerStopReason::EventQueueSaturated)
        } else if !issuable(self.next_event_sequence) || !issuable(self.next_frame_lease) || (
        needs_result && !issuable(self.next_mutation_result_lease)) {
            Err(WorkerStopReason::IdentityExhausted)
        } else {
            Ok(
                DocumentPublicationReservation {
                    sequence: EventSequence::of(self.next_event_sequence),
                    frame: FrameLeaseId::of(self.next_frame_lease),
                    result: if needs_result {
                        Some(MutationResultLeaseId::of(self.next_mutation_result_lease))
                    } else {
                        None
                    },
                },
            )
        }
    }

    /// Whether the retained and reserved nodes fit their budget.
    pub open spec fn node_budget_valid(self, limits: LimitValues) -> bool {
        self.retained_document_nodes + self.pending_document_nodes
            <= limits.max_retained_document_nodes
    }

    /// Whether a frame of the greatest size could replace a navigation's frame.
    pub open spec fn frame_replaceable(self, limits: LimitValues, navigation: NavigationId) -> bool {
        let replaced = match self.context(navigation) {
            Some(context) => crate::engine::frame_charge(context),
            None => 0,
        };
        &&& replaced <= self.retained_frame_bytes
        &&& self.retained_frame_bytes - replaced + limits.max_frame_bytes
            <= limits.max_retained_frame_bytes
    }

    /// Outcome of queueing an event under a sequence set aside earlier.
    pub open spec fn reserved_event(
        self,
        limits: LimitValues,
        sequence: EventSequence,
        kind: EngineEventKind,
    ) -> (Self, Result<(), WorkerStopReason>) {
        if self.events.len() >= limits.event_capacity || self.next_event_sequence
            != sequence.value() {
            (self, Err(WorkerStopReason::ExecutorContractViolation))
        } else if sequence.value() == u64::MAX {
            (self, Err(WorkerStopReason::IdentityExhausted))
        } else {
            (
                EngineModel {
                    events: self.events.push(EngineEvent { sequence, kind }),
                    next_event_sequence: (self.next_event_sequence + 1) as u64,
                    ..self
                },
                Ok(()),
            )
        }
    }

    /// Outcome of beginning a mutation; an answer of nothing means that there
    /// is nothing to execute.
    pub open spec fn mutation_begun(
        self,
        limits: LimitValues,
        work: DocumentMutationWork,
        cancelled: bool,
    ) -> (Self, Result<Option<DocumentPublicationReservation>, WorkerStopReason>) {
        let given_back = self.released(work.reservation()).operation_settled(
            work.navigation,
            work.operation,
        );
        if let Lifecycle::Stopping(reason) = self.lifecycle {
            (self, Err(reason))
        } else if !self.operation_is_current(
            work.navigation,
            work.batch.expected_version,
            work.operation,
        ) {
            (given_back, Ok(None))
        } else {
            match self.publication_reservation(limits, true) {
                Err(reason) => (self, Err(reason)),
                Ok(reservation) => {
                    let failure = if cancelled {
                        Some(DocumentOperationFailure::Cancelled)
                    } else if !self.node_budget_valid(limits) || !self.frame_replaceable(
                        limits,
                        work.navigation,
                    ) {
                        Some(DocumentOperationFailure::ResourceLimit)
                    } else {
                        None
                    };
                    match failure {
                        None => (self, Ok(Some(reservation))),
                        Some(failure) => {
                            let (state, queued) = given_back.reserved_event(
                                limits,
                                reservation.sequence,
                                EngineEventKind::DocumentMutationRejected {
                                    navigation: work.navigation,
                                    operation: work.operation,
                                    live_version: Some(self.live_version(work.navigation)),
                                    frame_version: Some(self.frame_version(work.navigation)),
                                    failure,
                                },
                            );
                            (
                                state,
                                match queued {
                                    Ok(_) => Ok(None),
                                    Err(reason) => Err(reason),
                                },
                            )
                        },
                    }
                },
            }
        }
    }

    /// Outcome of beginning a rerender; an answer of nothing means that there
    /// is nothing to execute.
    pub open spec fn rerender_begun(
        self,
        limits: LimitValues,
        work: DocumentRerenderWork,
        cancelled: bool,
    ) -> (Self, Result<Option<DocumentPublicationReservation>, WorkerStopReason>) {
        let settled = self.operation_settled(work.navigation, work.operation);
        if let Lifecycle::Stopping(reason) = self.lifecycle {
            (self, Err(reason))
        } else if !self.operation_is_current(
            work.navigation,
            work.expected_live_version,
            work.operation,
        ) {
            (settled, Ok(None))
        } else {
            match self.publication_reservation(limits, false) {
                Err(reason) => (self, Err(reason)),
                Ok(reservation) => {
                    let failure = if cancelled {
                        Some(DocumentOperationFailure::Cancelled)
                    } else if !self.frame_replaceable(limits, work.navigation) {
                        Some(DocumentOperationFailure::ResourceLimit)
                    } else {
                        None
                    };
                    match failure {
                        None => (self, Ok(Some(reservation))),
                        Some(failure) => {
                            let (state, queued) = settled.reserved_event(
                                limits,
                                reservation.sequence,
                                EngineEventKind::DocumentRerenderRejected {
                                    navigation: work.navigation,
                                    operation: work.operation,
                                    live_version: Some(self.live_version(work.navigation)),
                                    frame_version: Some(self.frame_version(work.navigation)),
                                    failure,
                                },
                            );
                            (
                                state,
                                match queued {
                                    Ok(_) => Ok(None),
                                    Err(reason) => Err(reason),
                                },
                            )
                        },
                    }
                },
            }
        }
    }

    /// Whether an executor committed exactly the mutation that it was given:
    /// one revision further, with one distinct node of the document for each
    /// node that the batch creates.
    pub open spec fn commit_is_valid(
        self,
        work: DocumentMutationWork,
        previous_live_version: DocumentVersion,
        frame_version: DocumentVersion,
        live_version: DocumentVersion,
        created_nodes: Seq<NodeId>,
        max_created_nodes: usize,
    ) -> bool {
        &&& self.versions(work.navigation) == Some((previous_live_version, frame_version))
        &&& live_version.document_id == previous_live_version.document_id
        &&& live_version.revision == previous_live_version.revision + 1
        &&& created_nodes.len() == work.reserved_created_nodes
        &&& crate::script::valid_topology(work.batch, max_created_nodes)
        &&& forall|i: int|
            0 <= i < created_nodes.len() ==> (#[trigger] created_nodes[i]).document_id
                == live_version.document_id
        &&& created_nodes.no_duplicates()
    }

    /// Outcome of replacing a navigation's frame under a lease set aside
    /// earlier.
    pub open spec fn frame_published(
        self,
        limits: LimitValues,
        navigation: NavigationId,
        lease: FrameLeaseId,
        frame: EngineFrame,
    ) -> (Self, Result<FrameMetadata, WorkerStopReason>) {
        if self.next_frame_lease != lease.value() {
            (self, Err(WorkerStopReason::ExecutorContractViolation))
        } else {
            match self.frame_replacement(limits, navigation, frame) {
                Err(reason) => (self, Err(reason)),
                Ok(None) => (self, Err(WorkerStopReason::ExecutorContractViolation)),
                Ok(Some(retained)) => match self.context(navigation) {
                    None => (self, Err(WorkerStopReason::ExecutorContractViolation)),
                    Some(context) => {
                        let replaced = EngineModel {
                            retained_frame_bytes: retained,
                            ..self
                        }.with_context(
                            navigation,
                            ContextState {
                                current_frame: Some(StoredFrame { lease, navigation, frame }),
                                ..context
                            },
                        );
                        if lease.value() == u64::MAX {
                            (replaced, Err(WorkerStopReason::IdentityExhausted))
                        } else {
                            (
                                EngineModel {
                                    next_frame_lease: (lease.value() + 1) as u64,
                                    ..replaced
                                },
                                Ok(frame.metadata_of()),
                            )
                        }
                    },
                },
            }
        }
    }

    /// Whether a committed mutation can be recorded within its reservations and
    /// the budgets.
    pub open spec fn result_recordable(
        self,
        limits: LimitValues,
        work: DocumentMutationWork,
        lease: Option<MutationResultLeaseId>,
        created_nodes: Seq<NodeId>,
    ) -> bool {
        let units = crate::engine::result_units(created_nodes);
        &&& lease matches Some(lease)
        &&& self.next_mutation_result_lease == lease.value()
        &&& units == work.reserved_result_units
        &&& !self.mutation_results.contains_key(lease.value())
        &&& self.holds(work.reservation())
        &&& self.retained_mutation_result_nodes + self.pending_mutation_result_nodes
            <= limits.max_retained_mutation_result_nodes
        &&& self.node_budget_valid(limits)
        &&& self.versions(work.navigation) is Some
        &&& self.contexts[crate::engine::context_key(work.navigation)].document->0.node_charge
            + work.reserved_created_nodes <= usize::MAX
    }

    /// The state after a committed mutation was recorded: its reservations
    /// became retained nodes and a retained mapping.
    pub open spec fn result_recorded(
        self,
        work: DocumentMutationWork,
        lease: MutationResultLeaseId,
        live_version: DocumentVersion,
        created_nodes: Vec<NodeId>,
        rendered: bool,
    ) -> Self {
        let context = self.contexts[crate::engine::context_key(work.navigation)];
        let document = context.document->0;
        EngineModel {
            retained_document_nodes: (self.retained_document_nodes
                + work.reserved_created_nodes) as usize,
            retained_mutation_result_nodes: (self.retained_mutation_result_nodes
                + work.reserved_result_units) as usize,
            mutation_results: self.mutation_results.insert(
                lease.value(),
                StoredMutationResult {
                    lease,
                    navigation: work.navigation,
                    operation: work.operation,
                    live_version,
                    created_nodes,
                },
            ),
            next_mutation_result_lease: (lease.value() + 1) as u64,
            ..self.released(work.reservation()).with_context(
                work.navigation,
                ContextState {
                    document: Some(
                        RetainedDocumentState {
                            navigation: document.navigation,
                            live_version,
                            frame_version: if rendered {
                                live_version
                            } else {
                                document.frame_version
                            },
                            node_charge: (document.node_charge
                                + work.reserved_created_nodes) as usize,
                        },
                    ),
                    ..context
                },
            )
        }
    }

    /// The state after an executor broke its contract: its page is thrown away
    /// and the worker stops.
    pub open spec fn contract_broken(self, navigation: NavigationId) -> Self {
        self.owing(
            seq![EngineEffect::InvalidateDocument { context: navigation.context_of() }],
        ).document_invalidated(navigation).stopping(WorkerStopReason::ExecutorContractViolation)
    }
}

/// Whether a navigation's document and operation are exactly the ones named.
pub fn document_work_is_current(
    state: &SharedState,
    navigation: NavigationId,
    expected_live_version: DocumentVersion,
    operation: DocumentOperationId,
) -> (current: bool)
    ensures
        current == state@.operation_is_current(navigation, expected_live_version, operation),
{
    match map_get(&state.contexts, navigation.context().get()) {
        Some(context) => {
            let document_matches = match context.document {
                Some(document) => document.navigation == navigation && document.live_version
                    == expected_live_version,
                None => false,
            };
            let operation_matches = match context.active_cancellation {
                Some(active) => active.is_document(navigation, operation),
                None => false,
            };
            document_matches && operation_matches
        },
        None => false,
    }
}

/// Live and frame version of a navigation's document.
pub fn current_document_versions(state: &SharedState, navigation: NavigationId) -> (versions: Option<
    (DocumentVersion, DocumentVersion),
>)
    ensures
        versions == state@.versions(navigation),
{
    match map_get(&state.contexts, navigation.context().get()) {
        Some(context) => match context.document {
            Some(document) => {
                if document.navigation == navigation {
                    Some((document.live_version, document.frame_version))
                } else {
                    None
                }
            },
            None => None,
        },
        None => None,
    }
}

/// Sets identities aside for publishing one document operation.
pub fn reserve_document_publication(state: &SharedState, limits: EngineLimits, needs_result: bool) -> (result:
    Result<DocumentPublicationReservation, WorkerStopReason>)
    ensures
        result == state@.publication_reservation(limits@, needs_result),
{
    if state.events.len() >= limits.event_capacity() {
        return Err(WorkerStopReason::EventQueueSaturated);
    }
    if state.next_event_sequence == u64::MAX || state.next_frame_lease == u64::MAX {
        return Err(WorkerStopReason::IdentityExhausted);
    }
    if needs_result && state.next_mutation_result_lease == u64::MAX {
        return Err(WorkerStopReason::IdentityExhausted);
    }
    let sequence = match EventSequence::new(state.next_event_sequence) {
        Some(sequence) => sequence,
        None => return Err(WorkerStopReason::IdentityExhausted),
    };
    let frame = match FrameLeaseId::new(state.next_frame_lease) {
        Some(frame) => frame,
        None => return Err(WorkerStopReason::IdentityExhausted),
    };
    let result = if needs_result {
        match MutationResultLeaseId::new(state.next_mutation_result_lease) {
            Some(result) => Some(result),
            None => return Err(WorkerStopReason::IdentityExhausted),
        }
    } else {
        None
    };
    Ok(DocumentPublicationReservation { sequence, frame, result })
}

/// Whether the retained and reserved nodes fit their budget.
pub fn document_node_budget_is_valid(state: &SharedState, limits: EngineLimits) -> (valid: bool)
    ensures
        valid == state@.node_budget_valid(limits@),
{
    let maximum: usize = limits.max_retained_document_nodes();
    match state.retained_document_nodes.checked_add(state.pending_document_nodes) {
        Some(total) => total <= maximum,
        None => false,
    }
}

/// Whether a frame of the greatest size could replace a navigation's frame.
pub fn reservation_can_replace_frame(
    state: &SharedState,
    limits: EngineLimits,
    navigation: NavigationId,
) -> (replaceable: bool)
    ensures
        replaceable == state@.frame_replaceable(limits@, navigation),
{
    let old_bytes: usize = match map_get(&state.contexts, navigation.context().get()) {
        Some(context) => match &context.current_frame {
            Some(stored) => stored.frame.metadata().total_bytes(),
            None => 0,
        },
        None => 0,
    };
    let maximum: usize = limits.max_retained_frame_bytes();
    let largest: usize = limits.max_frame_bytes();
    match state.retained_frame_bytes.checked_sub(old_bytes) {
        Some(without_old) => match without_old.checked_add(largest) {
            Some(retained) => retained <= maximum,
            None => false,
        },
        None => false,
    }
}

/// Queues an event under a sequence set aside earlier.
pub fn push_reserved_event(
    state: &mut SharedState,
    limits: EngineLimits,
    sequence: EventSequence,
    kind: EngineEventKind,
) -> (result: Result<(), WorkerStopReason>)
    ensures
        (final(state)@, result) == old(state)@.reserved_event(limits@, sequence, kind),
{
    if state.events.len() >= limits.event_capacity() {
        return Err(WorkerStopReason::ExecutorContractViolation);
    }
    let raw: u64 = sequence.get();
    if state.next_event_sequence != raw {
        return Err(WorkerStopReason::ExecutorContractViolation);
    }
    if raw == u64::MAX {
        return Err(WorkerStopReason::IdentityExhausted);
    }
    state.next_event_sequence = raw + 1;
    state.events.push_back(EngineEvent { sequence, kind });
    Ok(())
}

/// Begins a dequeued mutation, or gives its reservations back where it is no
/// longer wanted. `cancelled` is its flag.
pub fn begin_document_mutation(
    state: &mut SharedState,
    limits: EngineLimits,
    work: &DocumentMutationWork,
    cancelled: bool,
) -> (result: Result<Option<DocumentPublicationReservation>, WorkerStopReason>)
    requires
        old(state)@.lifecycle is Stopping || old(state)@.holds(work.reservation()),
    ensures
        (final(state)@, result) == old(state)@.mutation_begun(limits@, *work, cancelled),
{
    if let Lifecycle::Stopping(reason) = state.lifecycle {
        return Err(reason);
    }
    if !document_work_is_current(
        state,
        work.navigation,
        work.batch.expected_version,
        work.operation,
    ) {
        release_work(state, work);
        clear_document_cancellation_if_current(state, work.navigation, work.operation);
        return Ok(None);
    }
    let reservation = match reserve_document_publication(state, limits, true) {
        Ok(reservation) => reservation,
        Err(reason) => return Err(reason),
    };
    let (live_version, frame_version) = match current_document_versions(state, work.navigation) {
        Some(versions) => versions,
        None => return Err(WorkerStopReason::ExecutorContractViolation),
    };
    let failure = if cancelled {
        DocumentOperationFailure::Cancelled
    } else if !document_node_budget_is_valid(state, limits) || !reservation_can_replace_frame(
        state,
        limits,
        work.navigation,
    ) {
        DocumentOperationFailure::ResourceLimit
    } else {
        return Ok(Some(reservation));
    };
    release_work(state, work);
    clear_document_cancellation_if_current(state, work.navigation, work.operation);
    match push_reserved_event(
        state,
        limits,
        reservation.sequence,
        EngineEventKind::DocumentMutationRejected {
            navigation: work.navigation,
            operation: work.operation,
            live_version: Some(live_version),
            frame_version: Some(frame_version),
            failure,
        },
    ) {
        Ok(()) => Ok(None),
        Err(reason) => Err(reason),
    }
}

/// Begins a dequeued rerender, or drops it where it is no longer wanted.
/// `cancelled` is its flag.
pub fn begin_document_rerender(
    state: &mut SharedState,
    limits: EngineLimits,
    work: &DocumentRerenderWork,
    cancelled: bool,
) -> (result: Result<Option<DocumentPublicationReservation>, WorkerStopReason>)
    ensures
        (final(state)@, result) == old(state)@.rerender_begun(limits@, *work, cancelled),
{
    if let Lifecycle::Stopping(reason) = state.lifecycle {
        return Err(reason);
    }
    if !document_work_is_current(
        state,
        work.navigation,
        work.expected_live_version,
        work.operation,
    ) {
        clear_document_cancellation_if_current(state, work.navigation, work.operation);
        return Ok(None);
    }
    let reservation = match reserve_document_publication(state, limits, false) {
        Ok(reservation) => reservation,
        Err(reason) => return Err(reason),
    };
    let (live_version, frame_version) = match current_document_versions(state, work.navigation) {
        Some(versions) => versions,
        None => return Err(WorkerStopReason::ExecutorContractViolation),
    };
    let failure = if cancelled {
        DocumentOperationFailure::Cancelled
    } else if !reservation_can_replace_frame(state, limits, work.navigation) {
        DocumentOperationFailure::ResourceLimit
    } else {
        return Ok(Some(reservation));
    };
    clear_document_cancellation_if_current(state, work.navigation, work.operation);
    match push_reserved_event(
        state,
        limits,
        reservation.sequence,
        EngineEventKind::DocumentRerenderRejected {
            navigation: work.navigation,
            operation: work.operation,
            live_version: Some(live_version),
            frame_version: Some(frame_version),
            failure,
        },
    ) {
        Ok(()) => Ok(None),
        Err(reason) => Err(reason),
    }
}

impl EngineModel {
    /// Outcome of recording a committed mutation.
    pub open spec fn result_outcome_recorded(
        self,
        limits: LimitValues,
        work: DocumentMutationWork,
        lease: Option<MutationResultLeaseId>,
        live_version: DocumentVersion,
        created_nodes: Vec<NodeId>,
        rendered: bool,
    ) -> (Self, Result<(), WorkerStopReason>) {
        if !self.result_recordable(limits, work, lease, created_nodes@) {
            (self, Err(WorkerStopReason::ExecutorContractViolation))
        } else if lease->0.value() == u64::MAX {
            (self, Err(WorkerStopReason::IdentityExhausted))
        } else {
            (
                self.result_recorded(work, lease->0, live_version, created_nodes, rendered),
                Ok(()),
            )
        }
    }

    /// Outcome of refusing an executor outcome that broke its contract.
    pub open spec fn mutation_refused(self, work: DocumentMutationWork) -> (
        Self,
        Result<(), WorkerStopReason>,
    ) {
        (
            self.released(work.reservation()).contract_broken(work.navigation),
            Err(WorkerStopReason::ExecutorContractViolation),
        )
    }

    /// Outcome of a finished document operation whose event was queued: it can
    /// no longer be cancelled, and a lost renderer stops the worker.
    pub open spec fn operation_concluded(
        queued: (Self, Result<(), WorkerStopReason>),
        navigation: NavigationId,
        operation: DocumentOperationId,
        lost_renderer: bool,
    ) -> (Self, Result<(), WorkerStopReason>) {
        match queued.1 {
            Err(reason) => (queued.0, Err(reason)),
            Ok(_) => {
                let settled = queued.0.operation_settled(navigation, operation);
                (
                    if lost_renderer {
                        settled.stopping(WorkerStopReason::RendererUnavailable)
                    } else {
                        settled
                    },
                    Ok(()),
                )
            },
        }
    }

    /// Outcome of an operation that nobody waits for any more: whatever the
    /// executor changed is thrown away.
    pub open spec fn stale_operation(
        self,
        navigation: NavigationId,
        operation: DocumentOperationId,
        changed_state: bool,
        lost_renderer: bool,
    ) -> (Self, Result<(), WorkerStopReason>) {
        let settled = self.operation_settled(navigation, operation);
        let cleared = if changed_state {
            settled.owing(
                seq![EngineEffect::InvalidateDocument { context: navigation.context_of() }],
            ).document_invalidated(navigation)
        } else {
            settled
        };
        if lost_renderer {
            (
                cleared.stopping(WorkerStopReason::RendererUnavailable),
                Err(WorkerStopReason::RendererUnavailable),
            )
        } else {
            (cleared, Ok(()))
        }
    }

    /// Outcome of publishing a mutation that committed and rendered.
    pub open spec fn mutation_rendered(
        self,
        limits: LimitValues,
        work: DocumentMutationWork,
        reservation: DocumentPublicationReservation,
        previous_live_version: DocumentVersion,
        previous_frame_version: DocumentVersion,
        commit: DocumentMutationCommit,
        frame: EngineFrame,
        max_created_nodes: usize,
    ) -> (Self, Result<(), WorkerStopReason>) {
        if !self.commit_is_valid(
            work,
            previous_live_version,
            previous_frame_version,
            commit.version,
            commit.created_nodes@,
            max_created_nodes,
        ) || frame.metadata_of().document_version != Some(commit.version) {
            self.mutation_refused(work)
        } else {
            let (framed, published) = self.frame_published(
                limits,
                work.navigation,
                reservation.frame,
                frame,
            );
            let (recorded, result) = framed.result_outcome_recorded(
                limits,
                work,
                reservation.result,
                commit.version,
                commit.created_nodes,
                true,
            );
            if published is Err {
                framed.mutation_refused(work)
            } else if result is Err {
                recorded.mutation_refused(work)
            } else {
                Self::operation_concluded(
                    recorded.reserved_event(
                        limits,
                        reservation.sequence,
                        EngineEventKind::DocumentMutationRendered {
                            navigation: work.navigation,
                            operation: work.operation,
                            previous_live_version,
                            previous_frame_version,
                            live_version: commit.version,
                            result: reservation.result->0,
                            created_nodes: work.reserved_created_nodes,
                            frame: reservation.frame,
                            metadata: frame.metadata_of(),
                        },
                    ),
                    work.navigation,
                    work.operation,
                    false,
                )
            }
        }
    }

    /// Outcome of publishing a mutation that committed without a frame.
    pub open spec fn mutation_committed(
        self,
        limits: LimitValues,
        work: DocumentMutationWork,
        reservation: DocumentPublicationReservation,
        previous_live_version: DocumentVersion,
        frame_version: DocumentVersion,
        commit: DocumentMutationCommit,
        failure: DocumentOperationFailure,
        max_created_nodes: usize,
    ) -> (Self, Result<(), WorkerStopReason>) {
        if !self.commit_is_valid(
            work,
            previous_live_version,
            frame_version,
            commit.version,
            commit.created_nodes@,
            max_created_nodes,
        ) {
            self.mutation_refused(work)
        } else {
            let (recorded, result) = self.result_outcome_recorded(
                limits,
                work,
                reservation.result,
                commit.version,
                commit.created_nodes,
                false,
            );
            if result is Err {
                recorded.mutation_refused(work)
            } else {
                Self::operation_concluded(
                    recorded.reserved_event(
                        limits,
                        reservation.sequence,
                        EngineEventKind::DocumentMutationCommittedWithoutFrame {
                            navigation: work.navigation,
                            operation: work.operation,
                            previous_live_version,
                            live_version: commit.version,
                            frame_version,
                            result: reservation.result->0,
                            created_nodes: work.reserved_created_nodes,
                            failure,
                        },
                    ),
                    work.navigation,
                    work.operation,
                    failure is RendererUnavailable,
                )
            }
        }
    }

    /// Outcome of finishing a mutation that the executor returned.
    pub open spec fn mutation_finished(
        self,
        limits: LimitValues,
        work: DocumentMutationWork,
        reservation: DocumentPublicationReservation,
        outcome: ExecutorDocumentMutation,
        max_created_nodes: usize,
    ) -> (Self, Result<(), WorkerStopReason>) {
        if let Lifecycle::Stopping(reason) = self.lifecycle {
            (self, Err(reason))
        } else if !self.operation_is_current(
            work.navigation,
            work.batch.expected_version,
            work.operation,
        ) {
            self.released(work.reservation()).stale_operation(
                work.navigation,
                work.operation,
                outcome.changed_state(),
                outcome.lost_renderer(),
            )
        } else {
            match outcome {
                ExecutorDocumentMutation::Rendered {
                    previous_live_version,
                    previous_frame_version,
                    commit,
                    frame,
                } => self.mutation_rendered(
                    limits,
                    work,
                    reservation,
                    previous_live_version,
                    previous_frame_version,
                    commit,
                    frame,
                    max_created_nodes,
                ),
                ExecutorDocumentMutation::Invalidated => self.mutation_refused(work),
                ExecutorDocumentMutation::CommittedWithoutFrame {
                    previous_live_version,
                    frame_version,
                    commit,
                    failure,
                } => self.mutation_committed(
                    limits,
                    work,
                    reservation,
                    previous_live_version,
                    frame_version,
                    commit,
                    failure,
                    max_created_nodes,
                ),
                ExecutorDocumentMutation::Rejected { live_version, frame_version, failure } => if (
                live_version, frame_version) != (
                    Some(self.live_version(work.navigation)),
                    Some(self.frame_version(work.navigation)),
                ) {
                    self.mutation_refused(work)
                } else {
                    Self::operation_concluded(
                        self.released(work.reservation()).reserved_event(
                            limits,
                            reservation.sequence,
                            EngineEventKind::DocumentMutationRejected {
                                navigation: work.navigation,
                                operation: work.operation,
                                live_version,
                                frame_version,
                                failure,
                            },
                        ),
                        work.navigation,
                        work.operation,
                        failure is RendererUnavailable,
                    )
                },
            }
        }
    }

    /// The state after a rendered revision became the shown one.
    pub open spec fn frame_version_advanced(
        self,
        navigation: NavigationId,
        live_version: DocumentVersion,
    ) -> Self {
        let context = self.contexts[crate::engine::context_key(navigation)];
        self.with_context(
            navigation,
            ContextState {
                document: Some(
                    RetainedDocumentState {
                        frame_version: live_version,
                        ..context.document->0
                    },
                ),
                ..context
            },
        )
    }

    /// Outcome of finishing a rerender that the executor returned.
    pub open spec fn rerender_finished(
        self,
        limits: LimitValues,
        work: DocumentRerenderWork,
        reservation: DocumentPublicationReservation,
        outcome: ExecutorDocumentRerender,
    ) -> (Self, Result<(), WorkerStopReason>) {
        let refused = Err::<(), WorkerStopReason>(WorkerStopReason::ExecutorContractViolation);
        if let Lifecycle::Stopping(reason) = self.lifecycle {
            (self, Err(reason))
        } else if !self.operation_is_current(
            work.navigation,
            work.expected_live_version,
            work.operation,
        ) {
            self.stale_operation(
                work.navigation,
                work.operation,
                outcome.changed_state(),
                outcome.lost_renderer(),
            )
        } else {
            match outcome {
                ExecutorDocumentRerender::Rendered {
                    live_version,
                    previous_frame_version,
                    frame,
                } => {
                    let (framed, published) = self.frame_published(
                        limits,
                        work.navigation,
                        reservation.frame,
                        frame,
                    );
                    if live_version != work.expected_live_version || previous_frame_version
                        != self.frame_version(work.navigation)
                        || frame.metadata_of().document_version != Some(live_version) {
                        (self.contract_broken(work.navigation), refused)
                    } else if published is Err {
                        (framed.contract_broken(work.navigation), refused)
                    } else {
                        Self::operation_concluded(
                            framed.frame_version_advanced(
                                work.navigation,
                                live_version,
                            ).reserved_event(
                                limits,
                                reservation.sequence,
                                EngineEventKind::DocumentRerendered {
                                    navigation: work.navigation,
                                    operation: work.operation,
                                    live_version,
                                    previous_frame_version,
                                    frame: reservation.frame,
                                    metadata: frame.metadata_of(),
                                },
                            ),
                            work.navigation,
                            work.operation,
                            false,
                        )
                    }
                },
                ExecutorDocumentRerender::Rejected { live_version, frame_version, failure } => if (
                live_version, frame_version) != (
                    Some(self.live_version(work.navigation)),
                    Some(self.frame_version(work.navigation)),
                ) {
                    (self.contract_broken(work.navigation), refused)
                } else {
                    Self::operation_concluded(
                        self.reserved_event(
                            limits,
                            reservation.sequence,
                            EngineEventKind::DocumentRerenderRejected {
                                navigation: work.navigation,
                                operation: work.operation,
                                live_version,
                                frame_version,
                                failure,
                            },
                        ),
                        work.navigation,
                        work.operation,
                        failure is RendererUnavailable,
                    )
                },
                ExecutorDocumentRerender::Invalidated => (
                    self.contract_broken(work.navigation),
                    refused,
                ),
            }
        }
    }
}

/// Accepts exactly the mutation that the executor was given.
pub fn validate_committed_mutation(
    state: &SharedState,
    work: &DocumentMutationWork,
    previous_live_version: DocumentVersion,
    live_version: DocumentVersion,
    frame_version: DocumentVersion,
    created_nodes: &[NodeId],
    max_created_nodes: usize,
) -> (result: Result<(), WorkerStopReason>)
    ensures
        result == if state@.commit_is_valid(
            *work,
            previous_live_version,
            frame_version,
            live_version,
            created_nodes@,
            max_created_nodes,
        ) {
            Ok(())
        } else {
            Err(WorkerStopReason::ExecutorContractViolation)
        },
{
    let current = match current_document_versions(state, work.navigation) {
        Some(current) => current,
        None => return Err(WorkerStopReason::ExecutorContractViolation),
    };
    if previous_live_version != current.0 || frame_version != current.1 || live_version.document_id
        != previous_live_version.document_id {
        return Err(WorkerStopReason::ExecutorContractViolation);
    }
    let next_revision: u64 = match previous_live_version.revision.checked_add(1) {
        Some(next) => next,
        None => return Err(WorkerStopReason::ExecutorContractViolation),
    };
    if live_version.revision != next_revision || created_nodes.len() != work.reserved_created_nodes
        || !mutation_batch_has_valid_node_topology(&work.batch, max_created_nodes) {
        return Err(WorkerStopReason::ExecutorContractViolation);
    }
    let mut index: usize = 0;
    while index < created_nodes.len()
        invariant
            index <= created_nodes@.len(),
            forall|i: int|
                0 <= i < index ==> (#[trigger] created_nodes@[i]).document_id
                    == live_version.document_id,
        decreases created_nodes@.len() - index,
    {
        if created_nodes[index].document_id != live_version.document_id {
            assert(created_nodes@[index as int].document_id != live_version.document_id);
            return Err(WorkerStopReason::ExecutorContractViolation);
        }
        index = index + 1;
    }
    if !created_nodes_are_distinct(created_nodes) {
        return Err(WorkerStopReason::ExecutorContractViolation);
    }
    Ok(())
}

/// Accepts exactly the mutation that the executor was given, shown by exactly
/// its frame.
pub fn validate_mutation_transition(
    state: &SharedState,
    work: &DocumentMutationWork,
    previous_live_version: DocumentVersion,
    previous_frame_version: DocumentVersion,
    live_version: DocumentVersion,
    frame: &EngineFrame,
    created_nodes: &[NodeId],
    max_created_nodes: usize,
) -> (result: Result<(), WorkerStopReason>)
    ensures
        result == if state@.commit_is_valid(
            *work,
            previous_live_version,
            previous_frame_version,
            live_version,
            created_nodes@,
            max_created_nodes,
        ) && frame.metadata_of().document_version == Some(live_version) {
            Ok(())
        } else {
            Err(WorkerStopReason::ExecutorContractViolation)
        },
{
    match validate_committed_mutation(
        state,
        work,
        previous_live_version,
        live_version,
        previous_frame_version,
        created_nodes,
        max_created_nodes,
    ) {
        Ok(()) => {},
        Err(reason) => return Err(reason),
    }
    match frame.document_version() {
        Some(shown) if shown == live_version => Ok(()),
        _ => Err(WorkerStopReason::ExecutorContractViolation),
    }
}

/// Replaces a navigation's frame under a lease set aside earlier.
pub fn publish_reserved_frame(
    state: &mut SharedState,
    limits: EngineLimits,
    navigation: NavigationId,
    lease: FrameLeaseId,
    frame: EngineFrame,
) -> (result: Result<FrameMetadata, WorkerStopReason>)
    ensures
        (final(state)@, result) == old(state)@.frame_published(limits@, navigation, lease, frame),
        old(state)@.retained_exactly() ==> final(state)@.retained_exactly(),
{
    let ghost before = state@;
    let raw: u64 = lease.get();
    if state.next_frame_lease != raw {
        return Err(WorkerStopReason::ExecutorContractViolation);
    }
    let retained_after: usize = match retained_after_replacement(
        state,
        limits,
        navigation,
        &frame,
    ) {
        Ok(Some(retained_after)) => retained_after,
        Ok(None) => return Err(WorkerStopReason::ExecutorContractViolation),
        Err(reason) => return Err(reason),
    };
    let metadata = frame.metadata();
    let key: u64 = navigation.context().get();
    match map_remove(&mut state.contexts, key) {
        Some(context) => {
            let mut context = context;
            context.current_frame = Some(StoredFrame { lease, navigation, frame });
            proof {
                crate::accounting::map_total_insert(
                    before.contexts,
                    crate::engine::frame_charges(),
                    key,
                    context,
                );
                crate::accounting::map_total_insert(
                    before.contexts,
                    crate::engine::document_charges(),
                    key,
                    context,
                );
            }
            let _ = map_insert(&mut state.contexts, key, context);
            assert(state@.contexts =~= before.contexts.insert(key, context));
        },
        None => {
            assert(state@.contexts =~= before.contexts);
            return Err(WorkerStopReason::ExecutorContractViolation);
        },
    }
    state.retained_frame_bytes = retained_after;
    if raw == u64::MAX {
        return Err(WorkerStopReason::IdentityExhausted);
    }
    state.next_frame_lease = raw + 1;
    Ok(metadata)
}

/// Whether the checks of [`commit_mutation_result`] pass.
fn mutation_result_is_recordable(
    state: &SharedState,
    limits: EngineLimits,
    work: &DocumentMutationWork,
    lease: Option<MutationResultLeaseId>,
    created_nodes: &Vec<NodeId>,
) -> (recordable: bool)
    ensures
        recordable == state@.result_recordable(limits@, *work, lease, created_nodes@),
{
    let lease = match lease {
        Some(lease) => lease,
        None => return false,
    };
    let raw: u64 = lease.get();
    if state.next_mutation_result_lease != raw {
        return false;
    }
    let units: usize = if created_nodes.len() == 0 {
        1
    } else {
        created_nodes.len()
    };
    if units != work.reserved_result_units || map_contains(&state.mutation_results, raw) {
        return false;
    }
    if state.pending_document_nodes < work.reserved_created_nodes
        || state.pending_mutation_result_nodes < work.reserved_result_units
        || state.pending_mutation_payload_bytes < work.reserved_payload_bytes {
        return false;
    }
    let result_maximum: usize = limits.max_retained_mutation_result_nodes();
    let results_fit = match state.retained_mutation_result_nodes.checked_add(
        state.pending_mutation_result_nodes,
    ) {
        Some(total) => total <= result_maximum,
        None => false,
    };
    if !results_fit || !document_node_budget_is_valid(state, limits) {
        return false;
    }
    match map_get(&state.contexts, work.navigation.context().get()) {
        Some(context) => match context.document {
            Some(document) => {
                document.navigation == work.navigation && document.node_charge.checked_add(
                    work.reserved_created_nodes,
                ).is_some()
            },
            None => false,
        },
        None => false,
    }
}

/// Records a committed mutation: its reservations become retained nodes and a
/// retained mapping, or nothing changes.
pub fn commit_mutation_result(
    state: &mut SharedState,
    limits: EngineLimits,
    work: &DocumentMutationWork,
    reservation: DocumentPublicationReservation,
    live_version: DocumentVersion,
    created_nodes: Vec<NodeId>,
    rendered: bool,
) -> (result: Result<(), WorkerStopReason>)
    ensures
        (final(state)@, result) == old(state)@.result_outcome_recorded(
            limits@,
            *work,
            reservation.result,
            live_version,
            created_nodes,
            rendered,
        ),
{
    let ghost before = state@;
    if !mutation_result_is_recordable(state, limits, work, reservation.result, &created_nodes) {
        return Err(WorkerStopReason::ExecutorContractViolation);
    }
    let lease = match reservation.result {
        Some(lease) => lease,
        None => return Err(WorkerStopReason::ExecutorContractViolation),
    };
    let raw: u64 = lease.get();
    if raw == u64::MAX {
        return Err(WorkerStopReason::IdentityExhausted);
    }
    let key: u64 = work.navigation.context().get();
    release_work(state, work);
    state.retained_document_nodes = state.retained_document_nodes + work.reserved_created_nodes;
    state.retained_mutation_result_nodes = state.retained_mutation_result_nodes
        + work.reserved_result_units;
    if let Some(context) = map_remove(&mut state.contexts, key) {
        let mut context = context;
        if let Some(document) = context.document {
            context.document = Some(
                RetainedDocumentState {
                    navigation: document.navigation,
                    live_version,
                    frame_version: if rendered {
                        live_version
                    } else {
                        document.frame_version
                    },
                    node_charge: document.node_charge + work.reserved_created_nodes,
                },
            );
        }
        let _ = map_insert(&mut state.contexts, key, context);
        assert(state@.contexts =~= before.contexts.insert(key, context));
    }
    let _ = map_insert(
        &mut state.mutation_results,
        raw,
        StoredMutationResult {
            lease,
            navigation: work.navigation,
            operation: work.operation,
            live_version,
            created_nodes,
        },
    );
    state.next_mutation_result_lease = raw + 1;
    assert(state@ =~= before.result_recorded(*work, lease, live_version, created_nodes, rendered));
    Ok(())
}

/// Throws the page of an executor that broke its contract away and stops the
/// worker.
pub fn invalidate_executor_and_shared_document(state: &mut SharedState, navigation: NavigationId)
    requires
        old(state)@.retained_exactly(),
    ensures
        final(state)@ == old(state)@.contract_broken(navigation),
{
    state.owe(EngineEffect::InvalidateDocument { context: navigation.context() });
    invalidate_shared_document(state, navigation);
    request_stop(state, WorkerStopReason::ExecutorContractViolation);
}

/// Gives a mutation's reservations back and stops a worker whose executor
/// broke its contract.
fn refuse_mutation(state: &mut SharedState, work: &DocumentMutationWork) -> (result: Result<
    (),
    WorkerStopReason,
>)
    requires
        old(state)@.retained_exactly(),
        old(state)@.holds(work.reservation()),
    ensures
        (final(state)@, result) == old(state)@.mutation_refused(*work),
{
    release_work(state, work);
    invalidate_executor_and_shared_document(state, work.navigation);
    Err(WorkerStopReason::ExecutorContractViolation)
}

/// Throws away whatever the executor changed for an operation that nobody
/// waits for any more.
fn finish_stale_operation(
    state: &mut SharedState,
    navigation: NavigationId,
    operation: DocumentOperationId,
    changed_hidden_state: bool,
    renderer_unusable: bool,
) -> (result: Result<(), WorkerStopReason>)
    requires
        old(state)@.retained_exactly(),
    ensures
        (final(state)@, result) == old(state)@.stale_operation(
            navigation,
            operation,
            changed_hidden_state,
            renderer_unusable,
        ),
{
    let ghost before = state@;
    clear_document_cancellation_if_current(state, navigation, operation);
    proof {
        before.settled_retains(navigation, operation);
    }
    if changed_hidden_state {
        state.owe(EngineEffect::InvalidateDocument { context: navigation.context() });
        invalidate_shared_document(state, navigation);
    }
    if renderer_unusable {
        request_stop(state, WorkerStopReason::RendererUnavailable);
        return Err(WorkerStopReason::RendererUnavailable);
    }
    Ok(())
}

impl EngineModel {
    /// Settling an operation retains and reserves exactly what was.
    pub proof fn settled_retains(self, navigation: NavigationId, operation: DocumentOperationId)
        requires
            self.retained_exactly(),
        ensures
            self.operation_settled(navigation, operation).retained_exactly(),
    {
        let settled = self.operation_settled(navigation, operation);
        let key = crate::engine::context_key(navigation);
        if settled != self {
            crate::accounting::map_total_insert(
                self.contexts,
                crate::engine::frame_charges(),
                key,
                settled.contexts[key],
            );
            crate::accounting::map_total_insert(
                self.contexts,
                crate::engine::document_charges(),
                key,
                settled.contexts[key],
            );
        }
    }
}

/// Ends a document operation whose event was queued.
fn conclude_operation(
    state: &mut SharedState,
    queued: Result<(), WorkerStopReason>,
    navigation: NavigationId,
    operation: DocumentOperationId,
    renderer_unusable: bool,
) -> (result: Result<(), WorkerStopReason>)
    ensures
        (final(state)@, result) == EngineModel::operation_concluded(
            (old(state)@, queued),
            navigation,
            operation,
            renderer_unusable,
        ),
{
    match queued {
        Ok(()) => {},
        Err(reason) => return Err(reason),
    }
    clear_document_cancellation_if_current(state, navigation, operation);
    if renderer_unusable {
        request_stop(state, WorkerStopReason::RendererUnavailable);
    }
    Ok(())
}

/// Publishes a mutation that committed and rendered.
fn finish_rendered_mutation(
    state: &mut SharedState,
    limits: EngineLimits,
    work: &DocumentMutationWork,
    reservation: DocumentPublicationReservation,
    previous_live_version: DocumentVersion,
    previous_frame_version: DocumentVersion,
    commit: DocumentMutationCommit,
    frame: EngineFrame,
    max_created_nodes: usize,
) -> (result: Result<(), WorkerStopReason>)
    requires
        old(state)@.retained_exactly(),
        old(state)@.holds(work.reservation()),
    ensures
        (final(state)@, result) == old(state)@.mutation_rendered(
            limits@,
            *work,
            reservation,
            previous_live_version,
            previous_frame_version,
            commit,
            frame,
            max_created_nodes,
        ),
{
    let live_version = commit.version;
    if validate_mutation_transition(
        state,
        work,
        previous_live_version,
        previous_frame_version,
        live_version,
        &frame,
        commit.created_nodes.as_slice(),
        max_created_nodes,
    ).is_err() {
        return refuse_mutation(state, work);
    }
    let metadata = match publish_reserved_frame(
        state,
        limits,
        work.navigation,
        reservation.frame,
        frame,
    ) {
        Ok(metadata) => metadata,
        Err(_) => return refuse_mutation(state, work),
    };
    if commit_mutation_result(
        state,
        limits,
        work,
        reservation,
        live_version,
        commit.created_nodes,
        true,
    ).is_err() {
        return refuse_mutation(state, work);
    }
    let result_lease = match reservation.result {
        Some(result_lease) => result_lease,
        None => return Err(WorkerStopReason::ExecutorContractViolation),
    };
    let queued = push_reserved_event(
        state,
        limits,
        reservation.sequence,
        EngineEventKind::DocumentMutationRendered {
            navigation: work.navigation,
            operation: work.operation,
            previous_live_version,
            previous_frame_version,
            live_version,
            result: result_lease,
            created_nodes: work.reserved_created_nodes,
            frame: reservation.frame,
            metadata,
        },
    );
    conclude_operation(state, queued, work.navigation, work.operation, false)
}

/// Publishes a mutation that committed without a frame.
fn finish_committed_mutation(
    state: &mut SharedState,
    limits: EngineLimits,
    work: &DocumentMutationWork,
    reservation: DocumentPublicationReservation,
    previous_live_version: DocumentVersion,
    frame_version: DocumentVersion,
    commit: DocumentMutationCommit,
    failure: DocumentOperationFailure,
    max_created_nodes: usize,
) -> (result: Result<(), WorkerStopReason>)
    requires
        old(state)@.retained_exactly(),
        old(state)@.holds(work.reservation()),
    ensures
        (final(state)@, result) == old(state)@.mutation_committed(
            limits@,
            *work,
            reservation,
            previous_live_version,
            frame_version,
            commit,
            failure,
            max_created_nodes,
        ),
{
    let live_version = commit.version;
    if validate_committed_mutation(
        state,
        work,
        previous_live_version,
        live_version,
        frame_version,
        commit.created_nodes.as_slice(),
        max_created_nodes,
    ).is_err() {
        return refuse_mutation(state, work);
    }
    if commit_mutation_result(
        state,
        limits,
        work,
        reservation,
        live_version,
        commit.created_nodes,
        false,
    ).is_err() {
        return refuse_mutation(state, work);
    }
    let result_lease = match reservation.result {
        Some(result_lease) => result_lease,
        None => return Err(WorkerStopReason::ExecutorContractViolation),
    };
    let queued = push_reserved_event(
        state,
        limits,
        reservation.sequence,
        EngineEventKind::DocumentMutationCommittedWithoutFrame {
            navigation: work.navigation,
            operation: work.operation,
            previous_live_version,
            live_version,
            frame_version,
            result: result_lease,
            created_nodes: work.reserved_created_nodes,
            failure,
        },
    );
    let renderer_unusable = failure == DocumentOperationFailure::RendererUnavailable;
    conclude_operation(state, queued, work.navigation, work.operation, renderer_unusable)
}

/// Whether an executor that rejected an operation reports exactly the current
/// versions.
fn rejection_is_exact(
    state: &SharedState,
    navigation: NavigationId,
    live_version: Option<DocumentVersion>,
    frame_version: Option<DocumentVersion>,
) -> (exact: bool)
    requires
        state@.versions(navigation) is Some,
    ensures
        exact == ((live_version, frame_version) == (
            Some(state@.live_version(navigation)),
            Some(state@.frame_version(navigation)),
        )),
{
    match (current_document_versions(state, navigation), live_version, frame_version) {
        (Some(current), Some(live), Some(frame)) => live == current.0 && frame == current.1,
        _ => false,
    }
}

/// Finishes a mutation that the executor returned: publishes it, rejects it, or
/// stops a worker whose executor broke its contract.
pub fn finish_document_mutation(
    state: &mut SharedState,
    limits: EngineLimits,
    work: &DocumentMutationWork,
    reservation: DocumentPublicationReservation,
    outcome: ExecutorDocumentMutation,
    max_created_nodes: usize,
) -> (result: Result<(), WorkerStopReason>)
    requires
        old(state)@.retained_exactly(),
        old(state)@.lifecycle is Stopping || old(state)@.holds(work.reservation()),
    ensures
        (final(state)@, result) == old(state)@.mutation_finished(
            limits@,
            *work,
            reservation,
            outcome,
            max_created_nodes,
        ),
{
    if let Lifecycle::Stopping(reason) = state.lifecycle {
        return Err(reason);
    }
    if !document_work_is_current(
        state,
        work.navigation,
        work.batch.expected_version,
        work.operation,
    ) {
        let changed = outcome.changed_hidden_state();
        let renderer_unusable = outcome.renderer_unusable();
        release_work(state, work);
        return finish_stale_operation(
            state,
            work.navigation,
            work.operation,
            changed,
            renderer_unusable,
        );
    }
    match outcome {
        ExecutorDocumentMutation::Rendered {
            previous_live_version,
            previous_frame_version,
            commit,
            frame,
        } => finish_rendered_mutation(
            state,
            limits,
            work,
            reservation,
            previous_live_version,
            previous_frame_version,
            commit,
            frame,
            max_created_nodes,
        ),
        ExecutorDocumentMutation::Invalidated => refuse_mutation(state, work),
        ExecutorDocumentMutation::CommittedWithoutFrame {
            previous_live_version,
            frame_version,
            commit,
            failure,
        } => finish_committed_mutation(
            state,
            limits,
            work,
            reservation,
            previous_live_version,
            frame_version,
            commit,
            failure,
            max_created_nodes,
        ),
        ExecutorDocumentMutation::Rejected { live_version, frame_version, failure } => {
            if !rejection_is_exact(state, work.navigation, live_version, frame_version) {
                return refuse_mutation(state, work);
            }
            release_work(state, work);
            let queued = push_reserved_event(
                state,
                limits,
                reservation.sequence,
                EngineEventKind::DocumentMutationRejected {
                    navigation: work.navigation,
                    operation: work.operation,
                    live_version,
                    frame_version,
                    failure,
                },
            );
            let renderer_unusable = failure == DocumentOperationFailure::RendererUnavailable;
            conclude_operation(state, queued, work.navigation, work.operation, renderer_unusable)
        },
    }
}

/// Stops a worker whose executor broke its contract during a rerender.
fn refuse_rerender(state: &mut SharedState, navigation: NavigationId) -> (result: Result<
    (),
    WorkerStopReason,
>)
    requires
        old(state)@.retained_exactly(),
    ensures
        result == Err::<(), _>(WorkerStopReason::ExecutorContractViolation),
        final(state)@ == old(state)@.contract_broken(navigation),
{
    invalidate_executor_and_shared_document(state, navigation);
    Err(WorkerStopReason::ExecutorContractViolation)
}

/// Finishes a rerender that the executor returned: publishes it, rejects it, or
/// stops a worker whose executor broke its contract.
pub fn finish_document_rerender(
    state: &mut SharedState,
    limits: EngineLimits,
    work: &DocumentRerenderWork,
    reservation: DocumentPublicationReservation,
    outcome: ExecutorDocumentRerender,
) -> (result: Result<(), WorkerStopReason>)
    requires
        old(state)@.retained_exactly(),
    ensures
        (final(state)@, result) == old(state)@.rerender_finished(
            limits@,
            *work,
            reservation,
            outcome,
        ),
{
    if let Lifecycle::Stopping(reason) = state.lifecycle {
        return Err(reason);
    }
    let navigation = work.navigation;
    if !document_work_is_current(
        state,
        navigation,
        work.expected_live_version,
        work.operation,
    ) {
        let changed = outcome.changed_hidden_state();
        let renderer_unusable = outcome.renderer_unusable();
        return finish_stale_operation(
            state,
            navigation,
            work.operation,
            changed,
            renderer_unusable,
        );
    }
    match outcome {
        ExecutorDocumentRerender::Rendered { live_version, previous_frame_version, frame } => {
            let current = match current_document_versions(state, navigation) {
                Some(current) => current,
                None => return Err(WorkerStopReason::ExecutorContractViolation),
            };
            let shown = match frame.document_version() {
                Some(version) => version == live_version,
                None => false,
            };
            if live_version != work.expected_live_version || previous_frame_version != current.1
                || !shown {
                return refuse_rerender(state, navigation);
            }
            let metadata = match publish_reserved_frame(
                state,
                limits,
                navigation,
                reservation.frame,
                frame,
            ) {
                Ok(metadata) => metadata,
                Err(_) => return refuse_rerender(state, navigation),
            };
            advance_frame_version(state, navigation, live_version);
            let queued = push_reserved_event(
                state,
                limits,
                reservation.sequence,
                EngineEventKind::DocumentRerendered {
                    navigation,
                    operation: work.operation,
                    live_version,
                    previous_frame_version,
                    frame: reservation.frame,
                    metadata,
                },
            );
            conclude_operation(state, queued, navigation, work.operation, false)
        },
        ExecutorDocumentRerender::Rejected { live_version, frame_version, failure } => {
            if !rejection_is_exact(state, navigation, live_version, frame_version) {
                return refuse_rerender(state, navigation);
            }
            let queued = push_reserved_event(
                state,
                limits,
                reservation.sequence,
                EngineEventKind::DocumentRerenderRejected {
                    navigation,
                    operation: work.operation,
                    live_version,
                    frame_version,
                    failure,
                },
            );
            let renderer_unusable = failure == DocumentOperationFailure::RendererUnavailable;
            conclude_operation(state, queued, navigation, work.operation, renderer_unusable)
        },
        ExecutorDocumentRerender::Invalidated => refuse_rerender(state, navigation),
    }
}

/// Makes a rendered revision the shown one.
fn advance_frame_version(
    state: &mut SharedState,
    navigation: NavigationId,
    live_version: DocumentVersion,
)
    requires
        old(state)@.versions(navigation) is Some,
    ensures
        final(state)@ == old(state)@.frame_version_advanced(navigation, live_version),
{
    let key: u64 = navigation.context().get();
    if let Some(context) = map_remove(&mut state.contexts, key) {
        let mut context = context;
        if let Some(document) = context.document {
            context.document = Some(
                RetainedDocumentState { frame_version: live_version, ..document },
            );
        }
        let _ = map_insert(&mut state.contexts, key, context);
    }
    assert(state@ =~= old(state)@.frame_version_advanced(navigation, live_version));
}

} // verus!
