//! State that a navigation worker and its controller share under one lock.
//!
//! Every locked operation is a function on [`SharedState`] whose contract is a
//! function on [`EngineModel`]. What an operation asks of the world outside the
//! lock, it leaves in `effects`.

use std::collections::{BTreeMap, BTreeSet, VecDeque};
use vstd::prelude::*;

use crate::commit::{CommitModel, NavigationCommitMetadata, NavigationRequest};
use crate::event::EngineEvent;
use crate::failure::{EngineShutdownStatus, WorkerStopReason};
use crate::frame::EngineFrame;
use crate::identity::{
    DocumentOperationId, DocumentVersion, FrameLeaseId, MutationResultLeaseId,
    NavigationGeneration, NavigationId, NodeId, TopLevelContextId,
};
use crate::limits::{EngineLimits, LimitValues};
use crate::script::ScriptMutationBatch;

verus! {

/// Whether the worker runs.
#[derive(Clone, Copy, Debug, PartialEq, Eq, Structural)]
pub enum Lifecycle {
    /// Commands are accepted.
    Running,
    /// The worker was told to stop.
    Stopping(WorkerStopReason),
    /// The worker ended.
    Stopped(EngineShutdownStatus),
}

/// Controlling end of one operation's cancellation.
#[derive(Clone, Copy, Debug, PartialEq, Eq, Structural)]
pub struct CancellationSource {
    /// Key of the shared cancellation flag.
    pub ticket: u64,
    /// Whether the flag was raised.
    pub cancelled: bool,
}

/// Cancellable operation of one context.
#[derive(Clone, Copy, Debug, PartialEq, Eq, Structural)]
pub enum ActiveCancellation {
    /// A navigation.
    Navigation {
        /// The navigation.
        navigation: NavigationId,
        /// Its cancellation.
        source: CancellationSource,
    },
    /// A mutation or rerender.
    Document {
        /// Navigation that the operation is bound to.
        navigation: NavigationId,
        /// The operation.
        operation: DocumentOperationId,
        /// Its cancellation.
        source: CancellationSource,
    },
}

impl ActiveCancellation {
    /// Cancellation of the operation.
    pub open spec fn source_of(self) -> CancellationSource {
        match self {
            ActiveCancellation::Navigation { source, .. } => source,
            ActiveCancellation::Document { source, .. } => source,
        }
    }

    /// The operation with its flag raised.
    pub open spec fn raised(self) -> Self {
        match self {
            ActiveCancellation::Navigation { navigation, source } =>
                ActiveCancellation::Navigation {
                    navigation,
                    source: CancellationSource { cancelled: true, ..source },
                },
            ActiveCancellation::Document { navigation, operation, source } =>
                ActiveCancellation::Document {
                    navigation,
                    operation,
                    source: CancellationSource { cancelled: true, ..source },
                },
        }
    }

    /// Whether the operation is exactly this navigation.
    pub open spec fn names_navigation(self, navigation: NavigationId) -> bool {
        self matches ActiveCancellation::Navigation { navigation: active, .. } && active
            == navigation
    }

    /// Whether the operation is exactly this document operation.
    pub open spec fn names_document(
        self,
        navigation: NavigationId,
        operation: DocumentOperationId,
    ) -> bool {
        self matches ActiveCancellation::Document {
            navigation: active_navigation,
            operation: active_operation,
            ..
        } && active_navigation == navigation && active_operation == operation
    }

    /// The operation with its flag raised.
    pub fn cancel(self) -> (raised: Self)
        ensures
            raised == self.raised(),
    {
        match self {
            ActiveCancellation::Navigation { navigation, source } => {
                ActiveCancellation::Navigation {
                    navigation,
                    source: CancellationSource { ticket: source.ticket, cancelled: true },
                }
            },
            ActiveCancellation::Document { navigation, operation, source } => {
                ActiveCancellation::Document {
                    navigation,
                    operation,
                    source: CancellationSource { ticket: source.ticket, cancelled: true },
                }
            },
        }
    }

    /// Cancellation of the operation.
    pub fn source(self) -> (source: CancellationSource)
        ensures
            source == self.source_of(),
    {
        match self {
            ActiveCancellation::Navigation { source, .. } => source,
            ActiveCancellation::Document { source, .. } => source,
        }
    }

    /// Whether the operation is exactly this navigation.
    pub fn is_navigation(self, navigation: NavigationId) -> (same: bool)
        ensures
            same == self.names_navigation(navigation),
    {
        match self {
            ActiveCancellation::Navigation { navigation: active, .. } => active == navigation,
            ActiveCancellation::Document { .. } => false,
        }
    }

    /// Whether the operation is exactly this document operation.
    pub fn is_document(self, navigation: NavigationId, operation: DocumentOperationId) -> (same: bool)
        ensures
            same == self.names_document(navigation, operation),
    {
        match self {
            ActiveCancellation::Document {
                navigation: active_navigation,
                operation: active_operation,
                ..
            } => active_navigation == navigation && active_operation == operation,
            ActiveCancellation::Navigation { .. } => false,
        }
    }
}

/// Current frame of one context.
pub struct StoredFrame {
    /// One-shot lease of the frame.
    pub lease: FrameLeaseId,
    /// Navigation that produced it.
    pub navigation: NavigationId,
    /// The frame.
    pub frame: EngineFrame,
}

/// Created-node mapping that nobody took yet.
#[derive(Debug)]
pub struct StoredMutationResult {
    /// One-shot lease of the mapping.
    pub lease: MutationResultLeaseId,
    /// Navigation that owns the mutation.
    pub navigation: NavigationId,
    /// Operation that produced the mapping.
    pub operation: DocumentOperationId,
    /// Version that the mutation committed.
    pub live_version: DocumentVersion,
    /// The mapping.
    pub created_nodes: Vec<NodeId>,
}

/// Live document of one context.
#[derive(Clone, Copy, Debug, PartialEq, Eq, Structural)]
pub struct RetainedDocumentState {
    /// Navigation that owns the document.
    pub navigation: NavigationId,
    /// Version of the live document.
    pub live_version: DocumentVersion,
    /// Version that the current frame shows.
    pub frame_version: DocumentVersion,
    /// Conservative node charge.
    pub node_charge: usize,
}

/// One admitted top-level context.
pub struct ContextState {
    /// Last accepted generation.
    pub latest_generation: NavigationGeneration,
    /// Operation that can be cancelled, if any.
    pub active_cancellation: Option<ActiveCancellation>,
    /// Current frame, if nobody took it yet.
    pub current_frame: Option<StoredFrame>,
    /// Live document, if any.
    pub document: Option<RetainedDocumentState>,
}

/// One queued navigation.
#[derive(Debug)]
pub struct NavigationWork {
    /// The navigation.
    pub navigation: NavigationId,
    /// Its request.
    pub request: NavigationRequest,
    /// Key of its cancellation flag.
    pub cancellation: u64,
}

/// One queued mutation and what it reserved.
#[derive(Debug)]
pub struct DocumentMutationWork {
    /// Navigation that owns the document.
    pub navigation: NavigationId,
    /// The operation.
    pub operation: DocumentOperationId,
    /// The batch.
    pub batch: ScriptMutationBatch,
    /// Key of its cancellation flag.
    pub cancellation: u64,
    /// Reserved document nodes.
    pub reserved_created_nodes: usize,
    /// Reserved result units.
    pub reserved_result_units: usize,
    /// Reserved payload bytes.
    pub reserved_payload_bytes: usize,
}

/// One queued rerender.
#[derive(Debug)]
pub struct DocumentRerenderWork {
    /// Navigation that owns the document.
    pub navigation: NavigationId,
    /// The operation.
    pub operation: DocumentOperationId,
    /// Live version to render.
    pub expected_live_version: DocumentVersion,
    /// Key of its cancellation flag.
    pub cancellation: u64,
}

/// What the worker holds back for mutations that are not finished.
pub struct Reservation {
    /// Document nodes.
    pub created_nodes: nat,
    /// Result units.
    pub result_units: nat,
    /// Payload bytes.
    pub payload_bytes: nat,
}

impl Reservation {
    /// Nothing held back.
    pub open spec fn nothing() -> Self {
        Reservation { created_nodes: 0, result_units: 0, payload_bytes: 0 }
    }
}

impl DocumentMutationWork {
    /// What the mutation reserved.
    pub open spec fn reservation(self) -> Reservation {
        Reservation {
            created_nodes: self.reserved_created_nodes as nat,
            result_units: self.reserved_result_units as nat,
            payload_bytes: self.reserved_payload_bytes as nat,
        }
    }
}

/// One unit of queued work.
#[derive(Debug)]
pub enum EngineWork {
    /// A navigation.
    Navigate(NavigationWork),
    /// A mutation.
    Mutate(DocumentMutationWork),
    /// A rerender.
    Rerender(DocumentRerenderWork),
}

impl EngineWork {
    /// Navigation that the work belongs to.
    pub open spec fn navigation_of(self) -> NavigationId {
        match self {
            EngineWork::Navigate(work) => work.navigation,
            EngineWork::Mutate(work) => work.navigation,
            EngineWork::Rerender(work) => work.navigation,
        }
    }

    /// What the work reserved.
    pub open spec fn reservation(self) -> Reservation {
        match self {
            EngineWork::Mutate(work) => work.reservation(),
            _ => Reservation::nothing(),
        }
    }

    /// Context that the work belongs to.
    pub fn context(&self) -> (context: TopLevelContextId)
        ensures
            context == self.navigation_of().context_of(),
    {
        match self {
            EngineWork::Navigate(work) => work.navigation.context(),
            EngineWork::Mutate(work) => work.navigation.context(),
            EngineWork::Rerender(work) => work.navigation.context(),
        }
    }

    /// Reserved document nodes.
    pub fn reserved_created_nodes(&self) -> (nodes: usize)
        ensures
            nodes == self.reservation().created_nodes,
    {
        match self {
            EngineWork::Mutate(work) => work.reserved_created_nodes,
            EngineWork::Navigate(_) | EngineWork::Rerender(_) => 0,
        }
    }

    /// Reserved result units.
    pub fn reserved_result_units(&self) -> (units: usize)
        ensures
            units == self.reservation().result_units,
    {
        match self {
            EngineWork::Mutate(work) => work.reserved_result_units,
            EngineWork::Navigate(_) | EngineWork::Rerender(_) => 0,
        }
    }

    /// Reserved payload bytes.
    pub fn reserved_payload_bytes(&self) -> (bytes: usize)
        ensures
            bytes == self.reservation().payload_bytes,
    {
        match self {
            EngineWork::Mutate(work) => work.reserved_payload_bytes,
            EngineWork::Navigate(_) | EngineWork::Rerender(_) => 0,
        }
    }
}

/// What a locked operation asks of the world outside the lock.
#[derive(Clone, Copy, Debug, PartialEq, Eq, Structural)]
pub enum EngineEffect {
    /// Raise one cancellation flag.
    Cancel {
        /// Key of the flag.
        ticket: u64,
    },
    /// Retire one document ledger.
    RetireStyleDocument {
        /// Key of the ledger.
        ledger: u64,
    },
    /// Make the executor discard the page of a context.
    InvalidateDocument {
        /// The context.
        context: TopLevelContextId,
    },
    /// Tell the executor what became of a navigation result.
    AcknowledgeNavigation {
        /// The navigation.
        navigation: NavigationId,
        /// Whether its result was published.
        published: bool,
    },
}

/// State behind the worker's lock.
pub struct SharedState {
    /// Whether the worker runs.
    pub lifecycle: Lifecycle,
    /// Whether the event receiver is attached.
    pub receiver_open: bool,
    /// Queued work, oldest first.
    pub commands: VecDeque<EngineWork>,
    /// Contexts whose close the worker has not seen yet, oldest first.
    pub context_closures: VecDeque<NavigationId>,
    /// Contexts that are closing.
    pub closing_contexts: BTreeSet<u64>,
    /// Queued events, oldest first.
    pub events: VecDeque<EngineEvent>,
    /// Terminal event, outside the queue's capacity.
    pub terminal_event: Option<EngineEvent>,
    /// Admitted contexts.
    pub contexts: BTreeMap<u64, ContextState>,
    /// Latest context identity that was ever admitted.
    pub latest_new_context: Option<TopLevelContextId>,
    /// Commitments that nobody took yet, by context and generation.
    pub navigation_commits: BTreeMap<(u64, u64), NavigationCommitMetadata>,
    /// Navigations whose commitment was ever published, by context and
    /// generation: one pair of integers for each.
    pub published_navigations: BTreeSet<(u64, u64)>,
    /// Commitments of the current documents, by context.
    pub current_style_documents: BTreeMap<u64, NavigationCommitMetadata>,
    /// Created-node mappings that nobody took yet, by lease.
    pub mutation_results: BTreeMap<u64, StoredMutationResult>,
    /// Bytes of all current frames.
    pub retained_frame_bytes: usize,
    /// Node charges of all live documents.
    pub retained_document_nodes: usize,
    /// Nodes reserved by unfinished mutations.
    pub pending_document_nodes: usize,
    /// Units of all untaken mappings.
    pub retained_mutation_result_nodes: usize,
    /// Result units reserved by unfinished mutations.
    pub pending_mutation_result_nodes: usize,
    /// Payload bytes reserved by unfinished mutations.
    pub pending_mutation_payload_bytes: usize,
    /// Next event sequence.
    pub next_event_sequence: u64,
    /// Next frame lease.
    pub next_frame_lease: u64,
    /// Next mutation-result lease.
    pub next_mutation_result_lease: u64,
    /// Owner of the operations that this worker issues.
    pub document_operation_owner: u64,
    /// Next operation sequence.
    pub next_document_operation_sequence: u64,
    /// Effects that the holder of the lock still owes, oldest first.
    pub effects: Vec<EngineEffect>,
}

/// What the shared state is.
#[verifier::ext_equal]
pub struct EngineModel {
    /// Whether the worker runs.
    pub lifecycle: Lifecycle,
    /// Whether the event receiver is attached.
    pub receiver_open: bool,
    /// Queued work, oldest first.
    pub commands: Seq<EngineWork>,
    /// Contexts whose close the worker has not seen yet, oldest first.
    pub context_closures: Seq<NavigationId>,
    /// Contexts that are closing.
    pub closing_contexts: Set<u64>,
    /// Queued events, oldest first.
    pub events: Seq<EngineEvent>,
    /// Terminal event, outside the queue's capacity.
    pub terminal_event: Option<EngineEvent>,
    /// Admitted contexts.
    pub contexts: Map<u64, ContextState>,
    /// Latest context identity that was ever admitted.
    pub latest_new_context: Option<TopLevelContextId>,
    /// Commitments that nobody took yet, by context and generation.
    pub navigation_commits: Map<(u64, u64), CommitModel>,
    /// Navigations whose commitment was ever published, by context and
    /// generation.
    pub published_navigations: Set<(u64, u64)>,
    /// Commitments of the current documents, by context.
    pub current_style_documents: Map<u64, CommitModel>,
    /// Created-node mappings that nobody took yet, by lease.
    pub mutation_results: Map<u64, StoredMutationResult>,
    /// Bytes of all current frames.
    pub retained_frame_bytes: usize,
    /// Node charges of all live documents.
    pub retained_document_nodes: usize,
    /// Nodes reserved by unfinished mutations.
    pub pending_document_nodes: usize,
    /// Units of all untaken mappings.
    pub retained_mutation_result_nodes: usize,
    /// Result units reserved by unfinished mutations.
    pub pending_mutation_result_nodes: usize,
    /// Payload bytes reserved by unfinished mutations.
    pub pending_mutation_payload_bytes: usize,
    /// Next event sequence.
    pub next_event_sequence: u64,
    /// Next frame lease.
    pub next_frame_lease: u64,
    /// Next mutation-result lease.
    pub next_mutation_result_lease: u64,
    /// Owner of the operations that this worker issues.
    pub document_operation_owner: u64,
    /// Next operation sequence.
    pub next_document_operation_sequence: u64,
    /// Effects that the holder of the lock still owes, oldest first.
    pub effects: Seq<EngineEffect>,
}

impl View for SharedState {
    type V = EngineModel;

    open spec fn view(&self) -> EngineModel {
        EngineModel {
            lifecycle: self.lifecycle,
            receiver_open: self.receiver_open,
            commands: self.commands@,
            context_closures: self.context_closures@,
            closing_contexts: self.closing_contexts@,
            events: self.events@,
            terminal_event: self.terminal_event,
            contexts: self.contexts@,
            latest_new_context: self.latest_new_context,
            navigation_commits: commit_models(self.navigation_commits@),
            published_navigations: self.published_navigations@,
            current_style_documents: commit_models(self.current_style_documents@),
            mutation_results: self.mutation_results@,
            retained_frame_bytes: self.retained_frame_bytes,
            retained_document_nodes: self.retained_document_nodes,
            pending_document_nodes: self.pending_document_nodes,
            retained_mutation_result_nodes: self.retained_mutation_result_nodes,
            pending_mutation_result_nodes: self.pending_mutation_result_nodes,
            pending_mutation_payload_bytes: self.pending_mutation_payload_bytes,
            next_event_sequence: self.next_event_sequence,
            next_frame_lease: self.next_frame_lease,
            next_mutation_result_lease: self.next_mutation_result_lease,
            document_operation_owner: self.document_operation_owner,
            next_document_operation_sequence: self.next_document_operation_sequence,
            effects: self.effects@,
        }
    }
}

/// What stored commitments say.
pub open spec fn commit_models<K>(commitments: Map<K, NavigationCommitMetadata>) -> Map<
    K,
    CommitModel,
> {
    commitments.map_values(|commitment: NavigationCommitMetadata| commitment@)
}

/// Key of a navigation's context.
pub open spec fn context_key(navigation: NavigationId) -> u64 {
    navigation.context_of().value()
}

/// Key of a navigation.
pub open spec fn navigation_key(navigation: NavigationId) -> (u64, u64) {
    (navigation.context_of().value(), navigation.generation_of().value())
}

/// Units that a created-node mapping is charged with: one per node, at least one.
pub open spec fn result_units(created_nodes: Seq<NodeId>) -> nat {
    if created_nodes.len() == 0 {
        1
    } else {
        created_nodes.len()
    }
}

/// Bytes that a context's current frame is charged with.
pub open spec fn frame_charge(context: ContextState) -> nat {
    match context.current_frame {
        Some(stored) => stored.frame.charge() as nat,
        None => 0,
    }
}

/// Nodes that a context's live document is charged with.
pub open spec fn document_charge(context: ContextState) -> nat {
    match context.document {
        Some(document) => document.node_charge as nat,
        None => 0,
    }
}

/// [`frame_charge`] as a value.
pub open spec fn frame_charges() -> spec_fn(ContextState) -> nat {
    |context: ContextState| frame_charge(context)
}

/// [`document_charge`] as a value.
pub open spec fn document_charges() -> spec_fn(ContextState) -> nat {
    |context: ContextState| document_charge(context)
}

/// [`result_units`] of a stored mapping as a value.
pub open spec fn result_charges() -> spec_fn(StoredMutationResult) -> nat {
    |result: StoredMutationResult| result_units(result.created_nodes@)
}

/// Reserved nodes of a unit of work as a value.
pub open spec fn created_reservations() -> spec_fn(EngineWork) -> nat {
    |work: EngineWork| work.reservation().created_nodes
}

/// Reserved result units of a unit of work as a value.
pub open spec fn unit_reservations() -> spec_fn(EngineWork) -> nat {
    |work: EngineWork| work.reservation().result_units
}

/// Reserved payload bytes of a unit of work as a value.
pub open spec fn payload_reservations() -> spec_fn(EngineWork) -> nat {
    |work: EngineWork| work.reservation().payload_bytes
}

/// Bytes of the current frames of all contexts.
pub open spec fn frames_total(contexts: Map<u64, ContextState>) -> nat {
    crate::accounting::map_total(contexts, frame_charges())
}

/// Node charges of the live documents of all contexts.
pub open spec fn documents_total(contexts: Map<u64, ContextState>) -> nat {
    crate::accounting::map_total(contexts, document_charges())
}

/// Units of all untaken mappings.
pub open spec fn results_total(results: Map<u64, StoredMutationResult>) -> nat {
    crate::accounting::map_total(results, result_charges())
}

/// What queued work reserved together.
pub open spec fn queue_reservation(commands: Seq<EngineWork>) -> Reservation {
    Reservation {
        created_nodes: crate::accounting::seq_total(commands, created_reservations()),
        result_units: crate::accounting::seq_total(commands, unit_reservations()),
        payload_bytes: crate::accounting::seq_total(commands, payload_reservations()),
    }
}

/// Effect of cancelling an operation, if there is one.
pub open spec fn cancel_effects(active: Option<ActiveCancellation>) -> Seq<EngineEffect> {
    match active {
        Some(active) => seq![EngineEffect::Cancel { ticket: active.source_of().ticket }],
        None => seq![],
    }
}

/// Effect of retiring a commitment's document, if it has one.
pub open spec fn retire_effects(commitment: CommitModel) -> Seq<EngineEffect> {
    match commitment.ledger_key() {
        Some(ledger) => seq![EngineEffect::RetireStyleDocument { ledger }],
        None => seq![],
    }
}

/// Effects of visiting `keys` in order.
pub open spec fn effects_over(keys: Seq<u64>, effects: spec_fn(u64) -> Seq<EngineEffect>) -> Seq<
    EngineEffect,
>
    decreases keys.len(),
{
    if keys.len() == 0 {
        Seq::empty()
    } else {
        effects_over(keys.drop_last(), effects) + effects(keys.last())
    }
}

/// Effect of cancelling the operation of the context under a key.
pub open spec fn cancel_effects_at(contexts: Map<u64, ContextState>) -> spec_fn(u64) -> Seq<
    EngineEffect,
> {
    |key: u64| cancel_effects(contexts[key].active_cancellation)
}

/// Effect of retiring the document of the commitment under a key.
pub open spec fn retire_effects_at(commitments: Map<u64, CommitModel>) -> spec_fn(u64) -> Seq<
    EngineEffect,
> {
    |key: u64| retire_effects(commitments[key])
}

/// Effects of cancelling the operations of all contexts, in the order of their
/// identities.
pub open spec fn cancel_all_effects(contexts: Map<u64, ContextState>) -> Seq<EngineEffect> {
    effects_over(crate::accounting::in_order(contexts.dom()), cancel_effects_at(contexts))
}

/// Effects of retiring the documents of all commitments, in the order of their
/// contexts.
pub open spec fn retire_all_effects(commitments: Map<u64, CommitModel>) -> Seq<EngineEffect> {
    effects_over(crate::accounting::in_order(commitments.dom()), retire_effects_at(commitments))
}

/// All contexts with their operations cancelled.
pub open spec fn cancel_all(contexts: Map<u64, ContextState>) -> Map<u64, ContextState> {
    contexts.map_values(
        |context: ContextState|
            ContextState {
                active_cancellation: match context.active_cancellation {
                    Some(active) => Some(active.raised()),
                    None => None,
                },
                ..context
            },
    )
}

/// Whether the context under a key has a current frame.
pub open spec fn has_frame(contexts: Map<u64, ContextState>, key: u64) -> bool {
    contexts.contains_key(key) && contexts[key].current_frame is Some
}

/// Lease of the current frame of the context under a key.
pub open spec fn frame_lease(contexts: Map<u64, ContextState>, key: u64) -> u64 {
    contexts[key].current_frame->0.lease.value()
}

/// No two current frames share a lease.
pub open spec fn distinct_leases(contexts: Map<u64, ContextState>) -> bool {
    forall|key: u64, other: u64|
        #![trigger has_frame(contexts, key), has_frame(contexts, other)]
        key != other && has_frame(contexts, key) && has_frame(contexts, other) ==> frame_lease(
            contexts,
            key,
        ) != frame_lease(contexts, other)
}

impl EngineModel {
    /// Context of a navigation, if it is admitted.
    pub open spec fn context(self, navigation: NavigationId) -> Option<ContextState> {
        if self.contexts.contains_key(context_key(navigation)) {
            Some(self.contexts[context_key(navigation)])
        } else {
            None
        }
    }

    /// Whether a navigation is the latest of its context.
    pub open spec fn is_current(self, navigation: NavigationId) -> bool {
        match self.context(navigation) {
            Some(context) => context.latest_generation == navigation.generation_of(),
            None => false,
        }
    }

    /// The state with one context replaced.
    pub open spec fn with_context(self, navigation: NavigationId, context: ContextState) -> Self {
        EngineModel { contexts: self.contexts.insert(context_key(navigation), context), ..self }
    }

    /// The state with more effects owed.
    pub open spec fn owing(self, effects: Seq<EngineEffect>) -> Self {
        EngineModel { effects: self.effects + effects, ..self }
    }

    /// The state after a stop was requested; the first reason stays.
    pub open spec fn stopping(self, reason: WorkerStopReason) -> Self {
        if self.lifecycle is Running {
            EngineModel {
                lifecycle: Lifecycle::Stopping(reason),
                current_style_documents: Map::empty(),
                contexts: cancel_all(self.contexts),
                ..self
            }.owing(
                retire_all_effects(self.current_style_documents) + cancel_all_effects(
                    self.contexts,
                ),
            )
        } else {
            self
        }
    }

    /// The state after the current document of a context was retired.
    pub open spec fn style_retired(self, navigation: NavigationId) -> Self {
        let key = context_key(navigation);
        if self.current_style_documents.contains_key(key) {
            EngineModel {
                current_style_documents: self.current_style_documents.remove(key),
                ..self
            }.owing(retire_effects(self.current_style_documents[key]))
        } else {
            self
        }
    }

    /// Created-node mappings of every other context.
    pub open spec fn results_elsewhere(self, context: TopLevelContextId) -> Map<
        u64,
        StoredMutationResult,
    > {
        Map::new(
            |key: u64|
                self.mutation_results.contains_key(key)
                    && self.mutation_results[key].navigation.context_of() != context,
            |key: u64| self.mutation_results[key],
        )
    }

    /// The state without the created-node mappings of a context.
    pub open spec fn without_results(self, context: TopLevelContextId) -> Self {
        EngineModel {
            mutation_results: self.results_elsewhere(context),
            retained_mutation_result_nodes: results_total(
                self.results_elsewhere(context),
            ) as usize,
            ..self
        }
    }

    /// The state with one mutation's reservations given back.
    pub open spec fn released(self, reservation: Reservation) -> Self {
        EngineModel {
            pending_document_nodes: (self.pending_document_nodes
                - reservation.created_nodes) as usize,
            pending_mutation_result_nodes: (self.pending_mutation_result_nodes
                - reservation.result_units) as usize,
            pending_mutation_payload_bytes: (self.pending_mutation_payload_bytes
                - reservation.payload_bytes) as usize,
            ..self
        }
    }

    /// Whether at least this much is reserved.
    pub open spec fn holds(self, reservation: Reservation) -> bool {
        &&& reservation.created_nodes <= self.pending_document_nodes
        &&& reservation.result_units <= self.pending_mutation_result_nodes
        &&& reservation.payload_bytes <= self.pending_mutation_payload_bytes
    }

    /// The state in which a navigation can no longer be cancelled.
    pub open spec fn navigation_settled(self, navigation: NavigationId) -> Self {
        match self.context(navigation) {
            Some(context) => if context.active_cancellation matches Some(active)
                && active.names_navigation(navigation) {
                self.with_context(
                    navigation,
                    ContextState { active_cancellation: None, ..context },
                )
            } else {
                self
            },
            None => self,
        }
    }

    /// The state in which a document operation can no longer be cancelled.
    pub open spec fn operation_settled(
        self,
        navigation: NavigationId,
        operation: DocumentOperationId,
    ) -> Self {
        match self.context(navigation) {
            Some(context) => if context.active_cancellation matches Some(active)
                && active.names_document(navigation, operation) {
                self.with_context(
                    navigation,
                    ContextState { active_cancellation: None, ..context },
                )
            } else {
                self
            },
            None => self,
        }
    }

    /// The state after a navigation's live document was thrown away.
    pub open spec fn document_invalidated(self, navigation: NavigationId) -> Self {
        let retired = self.style_retired(navigation);
        match self.context(navigation) {
            Some(context) => if context.document matches Some(document) && document.navigation
                == navigation {
                EngineModel {
                    retained_frame_bytes: (self.retained_frame_bytes - frame_charge(
                        context,
                    )) as usize,
                    retained_document_nodes: (self.retained_document_nodes - document_charge(
                        context,
                    )) as usize,
                    ..retired
                }.with_context(
                    navigation,
                    ContextState { current_frame: None, document: None, ..context },
                ).without_results(navigation.context_of())
            } else {
                retired
            },
            None => retired,
        }
    }

    /// Aggregates of what is retained agree with what is retained.
    pub open spec fn retained_exactly(self) -> bool {
        &&& self.contexts.dom().finite()
        &&& self.mutation_results.dom().finite()
        &&& self.retained_frame_bytes == frames_total(self.contexts)
        &&& self.retained_document_nodes == documents_total(self.contexts)
        &&& self.retained_mutation_result_nodes == results_total(self.mutation_results)
    }

    /// Aggregates of what is reserved agree with the queue and with one
    /// mutation that is executing.
    pub open spec fn reserved_exactly(self, executing: Reservation) -> bool {
        let queued = queue_reservation(self.commands);
        &&& self.pending_document_nodes == queued.created_nodes + executing.created_nodes
        &&& self.pending_mutation_result_nodes == queued.result_units + executing.result_units
        &&& self.pending_mutation_payload_bytes == queued.payload_bytes + executing.payload_bytes
    }

    /// Nothing exceeds its bound.
    pub open spec fn bounded(self, limits: LimitValues) -> bool {
        &&& self.commands.len() <= limits.command_capacity
        &&& self.events.len() <= limits.event_capacity
        &&& self.closing_contexts.finite()
        &&& self.contexts.len() + self.closing_contexts.len() <= limits.max_contexts
        &&& self.retained_frame_bytes <= limits.max_retained_frame_bytes
        &&& self.retained_document_nodes + self.pending_document_nodes
            <= limits.max_retained_document_nodes
        &&& self.retained_mutation_result_nodes + self.pending_mutation_result_nodes
            <= limits.max_retained_mutation_result_nodes
        &&& self.pending_mutation_payload_bytes <= limits.max_pending_mutation_payload_bytes
    }

    /// Whether a context identity is not beyond the latest admitted one.
    pub open spec fn was_admitted(self, key: u64) -> bool {
        self.latest_new_context matches Some(latest) && key <= latest.value()
    }

    /// Whether an event waits for the receiver.
    pub open spec fn pending_event(self, event: EngineEvent) -> bool {
        self.events.contains(event) || self.terminal_event == Some(event)
    }

    /// Every event that waits in `next` waited before or is newer than all that
    /// were queued before.
    pub open spec fn events_follow(self, next: Self) -> bool {
        &&& self.next_event_sequence <= next.next_event_sequence
        &&& forall|event: EngineEvent| #[trigger]
            next.pending_event(event) ==> self.pending_event(event) || self.next_event_sequence
                <= event.sequence.value()
    }

    /// Identities are never handed out twice: everything that is stored or
    /// queued lies below the next identity, no two current frames share a lease,
    /// and queued events are in order. Only a worker that ended has a terminal
    /// event, and it comes last.
    pub open spec fn identities_below_next(self) -> bool {
        &&& 0 < self.next_event_sequence
        &&& forall|i: int|
            0 <= i < self.events.len() ==> 0 < (#[trigger] self.events[i]).sequence.value()
                < self.next_event_sequence
        &&& self.terminal_event matches Some(last) ==> {
            &&& self.lifecycle is Stopped
            &&& 0 < last.sequence.value() < self.next_event_sequence
            &&& forall|i: int|
                0 <= i < self.events.len() ==> (#[trigger] self.events[i]).sequence.value()
                    < last.sequence.value()
        }
        &&& self.navigation_commits.dom().subset_of(self.published_navigations)
        &&& forall|i: int, j: int|
            0 <= i < j < self.events.len() ==> (#[trigger] self.events[i]).sequence.value() < (
            #[trigger] self.events[j]).sequence.value()
        &&& forall|key: u64| #[trigger]
            self.contexts.contains_key(key) ==> (self.contexts[key].current_frame matches Some(
                stored,
            ) ==> stored.lease.value() < self.next_frame_lease)
        &&& distinct_leases(self.contexts)
        &&& forall|key: u64| #[trigger]
            self.mutation_results.contains_key(key) ==> key < self.next_mutation_result_lease
        &&& forall|key: u64| #[trigger] self.contexts.contains_key(key) ==> self.was_admitted(key)
        &&& forall|key: u64| #[trigger] self.closing_contexts.contains(key) ==> self.was_admitted(key)
    }

    /// What every locked operation keeps, while a mutation that reserved
    /// `executing` is with the executor.
    ///
    /// Reservations are only kept as long as the worker runs: a worker that
    /// stops gives them up.
    pub open spec fn inv(self, limits: LimitValues, executing: Reservation) -> bool {
        &&& self.retained_exactly()
        &&& self.lifecycle is Running ==> self.reserved_exactly(executing)
        &&& self.lifecycle is Running ==> self.bounded(limits)
        &&& self.identities_below_next()
    }
}

impl SharedState {
    /// State of a worker that just started.
    pub fn new(limits: EngineLimits, document_operation_owner: u64) -> (state: Self)
        ensures
            state@ == (EngineModel {
                lifecycle: Lifecycle::Running,
                receiver_open: true,
                commands: Seq::empty(),
                context_closures: Seq::empty(),
                closing_contexts: Set::empty(),
                events: Seq::empty(),
                terminal_event: None,
                contexts: Map::empty(),
                latest_new_context: None,
                navigation_commits: Map::empty(),
                published_navigations: Set::empty(),
                current_style_documents: Map::empty(),
                mutation_results: Map::empty(),
                retained_frame_bytes: 0,
                retained_document_nodes: 0,
                pending_document_nodes: 0,
                retained_mutation_result_nodes: 0,
                pending_mutation_result_nodes: 0,
                pending_mutation_payload_bytes: 0,
                next_event_sequence: 1,
                next_frame_lease: 1,
                next_mutation_result_lease: 1,
                document_operation_owner,
                next_document_operation_sequence: 1,
                effects: Seq::empty(),
            }),
            state@.inv(limits@, Reservation::nothing()),
    {
        let command_capacity: usize = limits.command_capacity();
        let event_capacity: usize = limits.event_capacity();
        let state = SharedState {
            lifecycle: Lifecycle::Running,
            receiver_open: true,
            commands: VecDeque::with_capacity(command_capacity),
            context_closures: VecDeque::new(),
            closing_contexts: BTreeSet::new(),
            events: VecDeque::with_capacity(event_capacity),
            terminal_event: None,
            contexts: BTreeMap::new(),
            latest_new_context: None,
            navigation_commits: BTreeMap::new(),
            published_navigations: BTreeSet::new(),
            current_style_documents: BTreeMap::new(),
            mutation_results: BTreeMap::new(),
            retained_frame_bytes: 0,
            retained_document_nodes: 0,
            pending_document_nodes: 0,
            retained_mutation_result_nodes: 0,
            pending_mutation_result_nodes: 0,
            pending_mutation_payload_bytes: 0,
            next_event_sequence: 1,
            next_frame_lease: 1,
            next_mutation_result_lease: 1,
            document_operation_owner,
            next_document_operation_sequence: 1,
            effects: Vec::new(),
        };
        assert(state@.navigation_commits =~= Map::empty());
        assert(state@.current_style_documents =~= Map::empty());
        state
    }

    /// Owes one more effect.
    pub(crate) fn owe(&mut self, effect: EngineEffect)
        ensures
            final(self)@ == old(self)@.owing(seq![effect]),
    {
        self.effects.push(effect);
        assert(self@.effects =~= old(self)@.effects + seq![effect]);
    }

    /// Hands the owed effects over, oldest first.
    pub fn take_effects(&mut self) -> (effects: Vec<EngineEffect>)
        ensures
            effects@ == old(self)@.effects,
            final(self)@ == (EngineModel { effects: Seq::empty(), ..old(self)@ }),
    {
        let mut effects: Vec<EngineEffect> = Vec::new();
        std::mem::swap(&mut effects, &mut self.effects);
        effects
    }
}

} // verus!
