//! Publication of navigation results: indivisible, in order, and only for the
//! latest navigation of a context.

use vstd::prelude::*;

use crate::collections::{
    map_get, map_insert, map_remove, pair_map_contains, pair_map_insert, pair_map_len,
    pair_set_insert,
};
use crate::commit::{NavigationCommitMetadata, NavigationRequest};
use crate::control::{
    clear_navigation_cancellation_if_current, is_current, remove_context_mutation_results,
    request_stop, retire_current_style_document,
};
use crate::engine::{
    ContextState, EngineEffect, EngineModel, Lifecycle, NavigationWork, RetainedDocumentState,
    SharedState, StoredFrame,
};
use crate::event::{transition_event, EngineEvent, EngineEventKind, NavigationEventPhase};
use crate::executor::ExecutorOutput;
use crate::failure::{
    ExecutionFailure, ExecutionFailureKind, NavigationStage, WorkerStopReason,
};
use crate::frame::EngineFrame;
use crate::identity::{EventSequence, FrameLeaseId, NavigationId};
use crate::limits::{EngineLimits, LimitValues};

verus! {

impl EngineModel {
    /// The state after `kind` was queued under the next sequence.
    pub open spec fn event_queued(self, kind: EngineEventKind) -> Self {
        EngineModel {
            events: self.events.push(
                EngineEvent { sequence: EventSequence::of(self.next_event_sequence), kind },
            ),
            next_event_sequence: (self.next_event_sequence + 1) as u64,
            ..self
        }
    }

    /// Whether `count` further event sequences can be handed out.
    pub open spec fn sequences_available(self, count: int) -> bool {
        0 < self.next_event_sequence && self.next_event_sequence + count <= u64::MAX
    }

    /// Why one event of a navigation cannot be queued.
    pub open spec fn event_error(
        self,
        limits: LimitValues,
        phase: NavigationEventPhase,
        kind: EngineEventKind,
    ) -> Option<WorkerStopReason> {
        if crate::event::next_phase(phase, kind) is None {
            Some(WorkerStopReason::EventOrderViolation)
        } else if self.events.len() >= limits.event_capacity {
            Some(WorkerStopReason::EventQueueSaturated)
        } else if !self.sequences_available(1) {
            Some(WorkerStopReason::IdentityExhausted)
        } else {
            None
        }
    }

    /// Bytes retained once `frame` replaced the frame of a navigation's
    /// context; nothing where the bounds refuse the frame.
    pub open spec fn frame_replacement(
        self,
        limits: LimitValues,
        navigation: NavigationId,
        frame: EngineFrame,
    ) -> Result<Option<usize>, WorkerStopReason> {
        let replaced = match self.context(navigation) {
            Some(context) => crate::engine::frame_charge(context),
            None => 0,
        };
        if frame.charge() > limits.max_frame_bytes {
            Ok(None)
        } else if replaced > self.retained_frame_bytes {
            Err(WorkerStopReason::IdentityExhausted)
        } else if self.retained_frame_bytes - replaced + frame.charge() > usize::MAX {
            Err(WorkerStopReason::IdentityExhausted)
        } else if self.retained_frame_bytes - replaced + frame.charge()
            > limits.max_retained_frame_bytes {
            Ok(None)
        } else {
            Ok(Some((self.retained_frame_bytes - replaced + frame.charge()) as usize))
        }
    }

    /// Outcome of failing a navigation whose result exceeds a bound.
    pub open spec fn navigation_rejected(
        self,
        limits: LimitValues,
        phase: NavigationEventPhase,
        navigation: NavigationId,
        stage: NavigationStage,
    ) -> (Self, NavigationEventPhase, Result<(), WorkerStopReason>) {
        let kind = EngineEventKind::NavigationFailed {
            navigation,
            failure: ExecutionFailure::of(ExecutionFailureKind::ResourceLimit, stage),
        };
        match self.event_error(limits, phase, kind) {
            Some(reason) => (self, phase, Err(reason)),
            None => (
                self.event_queued(kind).navigation_settled(navigation),
                NavigationEventPhase::Terminal,
                Ok(()),
            ),
        }
    }

    /// Node charge retained once the document of a navigation's context was
    /// replaced by one that is charged with `node_charge`.
    pub open spec fn nodes_after_replacement(
        self,
        navigation: NavigationId,
        node_charge: Option<usize>,
    ) -> int {
        let replaced = match self.context(navigation) {
            Some(context) => crate::engine::document_charge(context),
            None => 0,
        };
        self.retained_document_nodes - replaced + match node_charge {
            Some(charge) => charge as int,
            None => 0,
        }
    }

    /// Why an executor output cannot be published, though it exceeds no bound.
    pub open spec fn success_error(
        self,
        limits: LimitValues,
        phase: NavigationEventPhase,
        navigation: NavigationId,
        output: ExecutorOutput,
    ) -> Option<WorkerStopReason> {
        if crate::event::next_phase(
            phase,
            EngineEventKind::NavigationCommitted { navigation, http_status: output.http_status },
        ) is None {
            Some(WorkerStopReason::EventOrderViolation)
        } else if self.next_frame_lease == u64::MAX || self.next_frame_lease == 0 {
            Some(WorkerStopReason::IdentityExhausted)
        } else if self.navigation_commits.contains_key(crate::engine::navigation_key(navigation))
            || self.navigation_commits.len() >= limits.event_capacity {
            Some(WorkerStopReason::ExecutorContractViolation)
        } else if !self.sequences_available(2) {
            Some(WorkerStopReason::IdentityExhausted)
        } else {
            None
        }
    }

    /// The state after an executor output was published: frame, document,
    /// commitment and both events appear together.
    pub open spec fn success_published(
        self,
        navigation: NavigationId,
        request: NavigationRequest,
        output: ExecutorOutput,
        retained_frame_bytes: usize,
    ) -> Self {
        let key = crate::engine::context_key(navigation);
        let context = self.contexts[key];
        let commitment = match output.navigation_commit {
            Some(commitment) => commitment@,
            None => NavigationCommitMetadata::unverified_model(request),
        };
        let document = match output.frame.metadata_of().document_version {
            Some(version) => Some(
                RetainedDocumentState {
                    navigation,
                    live_version: version,
                    frame_version: version,
                    node_charge: output.document_node_charge->0,
                },
            ),
            None => None,
        };
        let lease = FrameLeaseId::of(self.next_frame_lease);
        let retired = self.style_retired(navigation);
        EngineModel {
            current_style_documents: if document is Some {
                retired.current_style_documents.insert(key, commitment)
            } else {
                retired.current_style_documents
            },
            retained_frame_bytes,
            retained_document_nodes: self.nodes_after_replacement(
                navigation,
                output.document_node_charge,
            ) as usize,
            next_frame_lease: (self.next_frame_lease + 1) as u64,
            navigation_commits: self.navigation_commits.insert(
                crate::engine::navigation_key(navigation),
                commitment,
            ),
            published_navigations: self.published_navigations.insert(
                crate::engine::navigation_key(navigation),
            ),
            ..retired.without_results(navigation.context_of()).with_context(
                navigation,
                ContextState {
                    latest_generation: context.latest_generation,
                    active_cancellation: if context.active_cancellation matches Some(active)
                        && active.names_navigation(navigation) {
                        None
                    } else {
                        context.active_cancellation
                    },
                    current_frame: Some(StoredFrame { lease, navigation, frame: output.frame }),
                    document,
                },
            ).event_queued(
                EngineEventKind::NavigationCommitted {
                    navigation,
                    http_status: output.http_status,
                },
            ).event_queued(
                EngineEventKind::FrameReady {
                    navigation,
                    lease,
                    metadata: output.frame.metadata_of(),
                },
            )
        }
    }

    /// Outcome of publishing an executor output; the flag tells whether it was
    /// published.
    pub open spec fn success_outcome(
        self,
        limits: LimitValues,
        phase: NavigationEventPhase,
        navigation: NavigationId,
        request: NavigationRequest,
        output: ExecutorOutput,
    ) -> (Self, NavigationEventPhase, Result<bool, WorkerStopReason>) {
        let version = output.frame.metadata_of().document_version;
        let nodes = self.nodes_after_replacement(navigation, output.document_node_charge);
        if !self.is_current(navigation) {
            (self, phase, Err(WorkerStopReason::EventOrderViolation))
        } else {
            match self.frame_replacement(limits, navigation, output.frame) {
                Err(reason) => (self, phase, Err(reason)),
                Ok(None) => unpublished(
                    self.navigation_rejected(limits, phase, navigation, NavigationStage::Render),
                ),
                Ok(Some(retained)) => if limits.event_capacity - self.events.len() < 2 {
                    (self, phase, Err(WorkerStopReason::EventQueueSaturated))
                } else if self.retained_document_nodes < crate::engine::document_charge(
                    self.contexts[crate::engine::context_key(navigation)],
                ) || nodes > usize::MAX || (version is Some)
                    != (output.document_node_charge is Some) {
                    (self, phase, Err(WorkerStopReason::ExecutorContractViolation))
                } else if nodes + self.pending_document_nodes
                    > limits.max_retained_document_nodes {
                    unpublished(
                        self.navigation_rejected(
                            limits,
                            phase,
                            navigation,
                            NavigationStage::Document,
                        ),
                    )
                } else {
                    match self.success_error(limits, phase, navigation, output) {
                        Some(reason) => (self, phase, Err(reason)),
                        None => (
                            self.success_published(navigation, request, output, retained),
                            NavigationEventPhase::Terminal,
                            Ok(true),
                        ),
                    }
                },
            }
        }
    }

    /// Outcome of publishing whatever an executor handed back.
    pub open spec fn result_outcome(
        self,
        limits: LimitValues,
        phase: NavigationEventPhase,
        navigation: NavigationId,
        request: NavigationRequest,
        result: Result<ExecutorOutput, ExecutionFailure>,
    ) -> (Self, NavigationEventPhase, Result<bool, WorkerStopReason>) {
        match result {
            Ok(output) => self.success_outcome(limits, phase, navigation, request, output),
            Err(failure) => {
                let kind = if failure.kind is Cancelled {
                    EngineEventKind::NavigationCancelled { navigation }
                } else {
                    EngineEventKind::NavigationFailed { navigation, failure }
                };
                match self.event_error(limits, phase, kind) {
                    Some(reason) => (self, phase, Err(reason)),
                    None => (
                        self.event_queued(kind).navigation_settled(navigation),
                        NavigationEventPhase::Terminal,
                        Ok(false),
                    ),
                }
            },
        }
    }

    /// Outcome of beginning a navigation; the flag tells whether to execute it.
    pub open spec fn navigation_begun(
        self,
        limits: LimitValues,
        navigation: NavigationId,
        cancelled: bool,
        phase: NavigationEventPhase,
    ) -> (Self, NavigationEventPhase, Result<bool, WorkerStopReason>) {
        let execute = self.is_current(navigation) && !cancelled;
        let kind = if execute {
            EngineEventKind::NavigationStarted { navigation }
        } else {
            EngineEventKind::NavigationCancelled { navigation }
        };
        if let Lifecycle::Stopping(reason) = self.lifecycle {
            (self, phase, Err(reason))
        } else {
            match self.event_error(limits, phase, kind) {
                Some(reason) => (self.stopping(reason), phase, Err(reason)),
                None => (
                    if execute {
                        self.event_queued(kind)
                    } else {
                        self.event_queued(kind).navigation_settled(navigation)
                    },
                    crate::event::next_phase(phase, kind)->0,
                    Ok(execute),
                ),
            }
        }
    }

    /// Outcome of finishing a navigation, before the worker decides whether to
    /// stop: the state, the phase, the stop reason and whether it published.
    pub open spec fn navigation_result(
        self,
        limits: LimitValues,
        navigation: NavigationId,
        request: NavigationRequest,
        cancelled: bool,
        phase: NavigationEventPhase,
        result: Result<ExecutorOutput, ExecutionFailure>,
    ) -> (Self, NavigationEventPhase, Result<bool, WorkerStopReason>) {
        if !self.is_current(navigation) || cancelled {
            let kind = EngineEventKind::NavigationCancelled { navigation };
            match self.event_error(limits, phase, kind) {
                Some(reason) => (self.navigation_settled(navigation), phase, Err(reason)),
                None => (
                    self.event_queued(kind).navigation_settled(navigation),
                    NavigationEventPhase::Terminal,
                    Ok(false),
                ),
            }
        } else {
            self.result_outcome(limits, phase, navigation, request, result)
        }
    }

    /// Outcome of finishing a navigation: the executor is always told what
    /// became of its result, and a reason to stop stops the worker.
    pub open spec fn navigation_finished(
        self,
        limits: LimitValues,
        navigation: NavigationId,
        request: NavigationRequest,
        cancelled: bool,
        phase: NavigationEventPhase,
        result: Result<ExecutorOutput, ExecutionFailure>,
    ) -> (Self, NavigationEventPhase, Result<(), WorkerStopReason>) {
        if let Lifecycle::Stopping(reason) = self.lifecycle {
            (self, phase, Err(reason))
        } else {
            let (state, next, outcome) = self.navigation_result(
                limits,
                navigation,
                request,
                cancelled,
                phase,
                result,
            );
            let published = outcome == Ok::<bool, WorkerStopReason>(true);
            let told = state.owing(
                seq![EngineEffect::AcknowledgeNavigation { navigation, published }],
            );
            match outcome {
                Err(reason) => (told.stopping(reason), next, Err(reason)),
                Ok(_) => if result matches Err(failure) && failure.renderer_unusable {
                    (told.stopping(WorkerStopReason::RendererUnavailable), next, Ok(()))
                } else {
                    (told, next, Ok(()))
                },
            }
        }
    }
}

/// A rejection seen as a publication that did not happen.
pub open spec fn unpublished(
    rejection: (EngineModel, NavigationEventPhase, Result<(), WorkerStopReason>),
) -> (EngineModel, NavigationEventPhase, Result<bool, WorkerStopReason>) {
    (
        rejection.0,
        rejection.1,
        match rejection.2 {
            Ok(_) => Ok(false),
            Err(reason) => Err(reason),
        },
    )
}

/// Hands out the next event sequence.
pub fn reserve_event_sequence(state: &mut SharedState) -> (result: Result<
    EventSequence,
    WorkerStopReason,
>)
    ensures
        if old(state)@.sequences_available(1) {
            &&& result == Ok::<_, WorkerStopReason>(
                EventSequence::of(old(state)@.next_event_sequence),
            )
            &&& final(state)@ == (EngineModel {
                next_event_sequence: (old(state)@.next_event_sequence + 1) as u64,
                ..old(state)@
            })
        } else {
            &&& result == Err::<EventSequence, _>(WorkerStopReason::IdentityExhausted)
            &&& final(state)@ == old(state)@
        },
{
    let raw: u64 = state.next_event_sequence;
    if raw == u64::MAX {
        return Err(WorkerStopReason::IdentityExhausted);
    }
    match EventSequence::new(raw) {
        Some(sequence) => {
            state.next_event_sequence = raw + 1;
            Ok(sequence)
        },
        None => Err(WorkerStopReason::IdentityExhausted),
    }
}

/// Hands out the next two event sequences, or none.
pub fn reserve_event_pair(state: &mut SharedState) -> (result: Result<
    (EventSequence, EventSequence),
    WorkerStopReason,
>)
    ensures
        if old(state)@.sequences_available(2) {
            &&& result == Ok::<_, WorkerStopReason>(
                (
                    EventSequence::of(old(state)@.next_event_sequence),
                    EventSequence::of((old(state)@.next_event_sequence + 1) as u64),
                ),
            )
            &&& final(state)@ == (EngineModel {
                next_event_sequence: (old(state)@.next_event_sequence + 2) as u64,
                ..old(state)@
            })
        } else {
            &&& result == Err::<(EventSequence, EventSequence), _>(
                WorkerStopReason::IdentityExhausted,
            )
            &&& final(state)@ == old(state)@
        },
{
    let first_raw: u64 = state.next_event_sequence;
    if first_raw > u64::MAX - 2 {
        return Err(WorkerStopReason::IdentityExhausted);
    }
    let first = match EventSequence::new(first_raw) {
        Some(first) => first,
        None => return Err(WorkerStopReason::IdentityExhausted),
    };
    let second = match EventSequence::new(first_raw + 1) {
        Some(second) => second,
        None => return Err(WorkerStopReason::IdentityExhausted),
    };
    state.next_event_sequence = first_raw + 2;
    Ok((first, second))
}

/// Queues one event of a navigation, in order.
pub fn enqueue_one(
    state: &mut SharedState,
    limits: EngineLimits,
    phase: &mut NavigationEventPhase,
    kind: EngineEventKind,
) -> (result: Result<(), WorkerStopReason>)
    ensures
        match old(state)@.event_error(limits@, *old(phase), kind) {
            Some(reason) => result == Err::<(), _>(reason) && final(state)@ == old(state)@
                && *final(phase) == *old(phase),
            None => result == Ok::<(), WorkerStopReason>(()) && final(state)@
                == old(state)@.event_queued(kind) && Some(*final(phase))
                == crate::event::next_phase(*old(phase), kind),
        },
{
    let next = match transition_event(*phase, kind) {
        Ok(next) => next,
        Err(reason) => return Err(reason),
    };
    if state.events.len() >= limits.event_capacity() {
        return Err(WorkerStopReason::EventQueueSaturated);
    }
    let sequence = match reserve_event_sequence(state) {
        Ok(sequence) => sequence,
        Err(reason) => return Err(reason),
    };
    state.events.push_back(EngineEvent { sequence, kind });
    *phase = next;
    assert(state@ =~= old(state)@.event_queued(kind));
    Ok(())
}

/// Bytes retained once `frame` replaced the frame of a navigation's context.
pub fn retained_after_replacement(
    state: &SharedState,
    limits: EngineLimits,
    navigation: NavigationId,
    frame: &EngineFrame,
) -> (result: Result<Option<usize>, WorkerStopReason>)
    ensures
        result == state@.frame_replacement(limits@, navigation, *frame),
{
    let frame_bytes: usize = frame.metadata().total_bytes();
    if frame_bytes > limits.max_frame_bytes() {
        return Ok(None);
    }
    let old_bytes: usize = match map_get(&state.contexts, navigation.context().get()) {
        Some(context) => match &context.current_frame {
            Some(stored) => stored.frame.metadata().total_bytes(),
            None => 0,
        },
        None => 0,
    };
    let retained_without_old: usize = match state.retained_frame_bytes.checked_sub(old_bytes) {
        Some(retained) => retained,
        None => return Err(WorkerStopReason::IdentityExhausted),
    };
    let retained_after: usize = match retained_without_old.checked_add(frame_bytes) {
        Some(retained) => retained,
        None => return Err(WorkerStopReason::IdentityExhausted),
    };
    if retained_after > limits.max_retained_frame_bytes() {
        return Ok(None);
    }
    Ok(Some(retained_after))
}

/// Fails a navigation whose result exceeds a bound.
pub fn reject_navigation_resource_limit(
    state: &mut SharedState,
    limits: EngineLimits,
    phase: &mut NavigationEventPhase,
    navigation: NavigationId,
    failure_stage: NavigationStage,
) -> (result: Result<(), WorkerStopReason>)
    ensures
        (final(state)@, *final(phase), result) == old(state)@.navigation_rejected(
            limits@,
            *old(phase),
            navigation,
            failure_stage,
        ),
{
    match enqueue_one(
        state,
        limits,
        phase,
        EngineEventKind::NavigationFailed {
            navigation,
            failure: ExecutionFailure::new(ExecutionFailureKind::ResourceLimit, failure_stage),
        },
    ) {
        Ok(()) => {},
        Err(reason) => return Err(reason),
    }
    clear_navigation_cancellation_if_current(state, navigation);
    Ok(())
}

/// Installs a published frame and document in a navigation's context.
fn install_in_context(
    state: &mut SharedState,
    navigation: NavigationId,
    stored: StoredFrame,
    document: Option<RetainedDocumentState>,
)
    requires
        old(state)@.context(navigation) is Some,
    ensures
        ({
            let context = old(state)@.contexts[crate::engine::context_key(navigation)];
            final(state)@ == old(state)@.with_context(
                navigation,
                ContextState {
                    latest_generation: context.latest_generation,
                    active_cancellation: if context.active_cancellation matches Some(active)
                        && active.names_navigation(navigation) {
                        None
                    } else {
                        context.active_cancellation
                    },
                    current_frame: Some(stored),
                    document,
                },
            )
        }),
{
    let key: u64 = navigation.context().get();
    if let Some(context) = map_remove(&mut state.contexts, key) {
        let active = match context.active_cancellation {
            Some(active) => {
                if active.is_navigation(navigation) {
                    None
                } else {
                    Some(active)
                }
            },
            None => None,
        };
        let installed = ContextState {
            latest_generation: context.latest_generation,
            active_cancellation: active,
            current_frame: Some(stored),
            document,
        };
        let _ = map_insert(&mut state.contexts, key, installed);
        assert(state@.contexts =~= old(state)@.contexts.insert(key, installed));
    }
}

/// Publishes an executor output that passed every check.
fn install_success(
    state: &mut SharedState,
    navigation: NavigationId,
    request: &NavigationRequest,
    output: ExecutorOutput,
    retained_after: usize,
    retained_document_nodes: usize,
) -> (result: Result<bool, WorkerStopReason>)
    requires
        old(state)@.is_current(navigation),
        old(state)@.sequences_available(2),
        0 < old(state)@.next_frame_lease < u64::MAX,
        !old(state)@.navigation_commits.contains_key(crate::engine::navigation_key(navigation)),
        old(state)@.retained_mutation_result_nodes == crate::engine::results_total(
            old(state)@.mutation_results,
        ),
        (output.frame.metadata_of().document_version is Some) == (
        output.document_node_charge is Some),
        retained_document_nodes == old(state)@.nodes_after_replacement(
            navigation,
            output.document_node_charge,
        ),
    ensures
        result == Ok::<bool, WorkerStopReason>(true),
        final(state)@ == old(state)@.success_published(
            navigation,
            *request,
            output,
            retained_after,
        ),
{
    let ghost before = state@;
    let key: u64 = navigation.context().get();
    let ExecutorOutput { http_status, frame, document_node_charge, navigation_commit } = output;
    let document = match (frame.document_version(), document_node_charge) {
        (Some(version), Some(node_charge)) => Some(
            RetainedDocumentState {
                navigation,
                live_version: version,
                frame_version: version,
                node_charge,
            },
        ),
        _ => None,
    };
    let commitment = match navigation_commit {
        Some(commitment) => commitment,
        None => NavigationCommitMetadata::unverified_requested(request),
    };
    let metadata = frame.metadata();
    let lease = match FrameLeaseId::new(state.next_frame_lease) {
        Some(lease) => lease,
        None => return Err(WorkerStopReason::IdentityExhausted),
    };
    let sequences = match reserve_event_pair(state) {
        Ok(sequences) => sequences,
        Err(reason) => return Err(reason),
    };
    retire_current_style_document(state, navigation);
    assert(!state@.current_style_documents.contains_key(key));
    if document.is_some() {
        let copy = commitment.clone();
        let ghost documents = state.current_style_documents@;
        let _ = map_insert(&mut state.current_style_documents, key, copy);
        assert(crate::engine::commit_models(documents.insert(key, copy))
            =~= crate::engine::commit_models(documents).insert(key, copy@));
    }
    remove_context_mutation_results(state, navigation.context());
    install_in_context(state, navigation, StoredFrame { lease, navigation, frame }, document);
    state.retained_frame_bytes = retained_after;
    state.retained_document_nodes = retained_document_nodes;
    state.next_frame_lease = state.next_frame_lease + 1;
    let ghost commits = state.navigation_commits@;
    let generation: u64 = navigation.generation().get();
    let ghost said = commitment@;
    let ghost stored = commitment;
    let _ = pair_map_insert(&mut state.navigation_commits, (key, generation), commitment);
    assert(crate::engine::commit_models(commits.insert((key, generation), stored))
        =~= crate::engine::commit_models(commits).insert((key, generation), said));
    let _ = pair_set_insert(&mut state.published_navigations, (key, generation));
    state.events.push_back(
        EngineEvent {
            sequence: sequences.0,
            kind: EngineEventKind::NavigationCommitted { navigation, http_status },
        },
    );
    state.events.push_back(
        EngineEvent {
            sequence: sequences.1,
            kind: EngineEventKind::FrameReady { navigation, lease, metadata },
        },
    );
    proof {
        let expected = before.success_published(navigation, *request, output, retained_after);
        assert(state@.events =~= expected.events);
        assert(state@.contexts =~= expected.contexts);
        assert(state@.mutation_results =~= expected.mutation_results);
        assert(state@.effects =~= expected.effects);
        assert(state@.current_style_documents =~= expected.current_style_documents);
        assert(state@ =~= expected);
    }
    Ok(true)
}

/// Publishes an executor output: frame, document, commitment and both events
/// together, or nothing of it.
pub fn publish_success(
    state: &mut SharedState,
    limits: EngineLimits,
    phase: &mut NavigationEventPhase,
    navigation: NavigationId,
    request: &NavigationRequest,
    output: ExecutorOutput,
) -> (result: Result<bool, WorkerStopReason>)
    requires
        old(state)@.retained_mutation_result_nodes == crate::engine::results_total(
            old(state)@.mutation_results,
        ),
    ensures
        (final(state)@, *final(phase), result) == old(state)@.success_outcome(
            limits@,
            *old(phase),
            navigation,
            *request,
            output,
        ),
{
    if !is_current(state, navigation) {
        return Err(WorkerStopReason::EventOrderViolation);
    }
    let retained_after: usize = match retained_after_replacement(
        state,
        limits,
        navigation,
        &output.frame,
    ) {
        Err(reason) => return Err(reason),
        Ok(Some(retained_after)) => retained_after,
        Ok(None) => {
            return match reject_navigation_resource_limit(
                state,
                limits,
                phase,
                navigation,
                NavigationStage::Render,
            ) {
                Ok(()) => Ok(false),
                Err(reason) => Err(reason),
            };
        },
    };
    if limits.event_capacity().saturating_sub(state.events.len()) < 2 {
        return Err(WorkerStopReason::EventQueueSaturated);
    }
    let old_charge: usize = match map_get(&state.contexts, navigation.context().get()) {
        Some(context) => match context.document {
            Some(document) => document.node_charge,
            None => 0,
        },
        None => 0,
    };
    let retained_without_old: usize = match state.retained_document_nodes.checked_sub(old_charge) {
        Some(retained) => retained,
        None => return Err(WorkerStopReason::ExecutorContractViolation),
    };
    let retained_document_nodes: usize = match (
        output.frame.document_version(),
        output.document_node_charge,
    ) {
        (Some(_), Some(node_charge)) => match retained_without_old.checked_add(node_charge) {
            Some(retained) => retained,
            None => return Err(WorkerStopReason::ExecutorContractViolation),
        },
        (None, None) => retained_without_old,
        _ => return Err(WorkerStopReason::ExecutorContractViolation),
    };
    let fits = match retained_document_nodes.checked_add(state.pending_document_nodes) {
        Some(total) => total <= limits.max_retained_document_nodes(),
        None => false,
    };
    if !fits {
        return match reject_navigation_resource_limit(
            state,
            limits,
            phase,
            navigation,
            NavigationStage::Document,
        ) {
            Ok(()) => Ok(false),
            Err(reason) => Err(reason),
        };
    }
    let commit_kind = EngineEventKind::NavigationCommitted {
        navigation,
        http_status: output.http_status,
    };
    match transition_event(*phase, commit_kind) {
        Ok(_) => {},
        Err(reason) => return Err(reason),
    }
    if state.next_frame_lease == u64::MAX || state.next_frame_lease == 0 {
        return Err(WorkerStopReason::IdentityExhausted);
    }
    let pair = (navigation.context().get(), navigation.generation().get());
    assert(state@.navigation_commits.dom() =~= state.navigation_commits@.dom());
    if pair_map_contains(&state.navigation_commits, pair) || pair_map_len(
        &state.navigation_commits,
    ) >= limits.event_capacity() {
        return Err(WorkerStopReason::ExecutorContractViolation);
    }
    if state.next_event_sequence == 0 || state.next_event_sequence > u64::MAX - 2 {
        return Err(WorkerStopReason::IdentityExhausted);
    }
    let published = install_success(
        state,
        navigation,
        request,
        output,
        retained_after,
        retained_document_nodes,
    );
    *phase = NavigationEventPhase::Terminal;
    published
}

/// Publishes whatever an executor handed back; tells whether it published.
pub fn publish_execution_result(
    state: &mut SharedState,
    limits: EngineLimits,
    phase: &mut NavigationEventPhase,
    navigation: NavigationId,
    request: &NavigationRequest,
    result: Result<ExecutorOutput, ExecutionFailure>,
) -> (published: Result<bool, WorkerStopReason>)
    requires
        old(state)@.retained_mutation_result_nodes == crate::engine::results_total(
            old(state)@.mutation_results,
        ),
    ensures
        (final(state)@, *final(phase), published) == old(state)@.result_outcome(
            limits@,
            *old(phase),
            navigation,
            *request,
            result,
        ),
{
    match result {
        Ok(output) => publish_success(state, limits, phase, navigation, request, output),
        Err(failure) => {
            let kind = if failure.kind == ExecutionFailureKind::Cancelled {
                EngineEventKind::NavigationCancelled { navigation }
            } else {
                EngineEventKind::NavigationFailed { navigation, failure }
            };
            match enqueue_one(state, limits, phase, kind) {
                Ok(()) => {},
                Err(reason) => return Err(reason),
            }
            clear_navigation_cancellation_if_current(state, navigation);
            Ok(false)
        },
    }
}

/// Begins a dequeued navigation, or cancels it where it is no longer wanted;
/// tells whether to execute it. `cancelled` is its flag.
pub fn begin_navigation(
    state: &mut SharedState,
    limits: EngineLimits,
    work: &NavigationWork,
    cancelled: bool,
    phase: &mut NavigationEventPhase,
) -> (result: Result<bool, WorkerStopReason>)
    ensures
        (final(state)@, *final(phase), result) == old(state)@.navigation_begun(
            limits@,
            work.navigation,
            cancelled,
            *old(phase),
        ),
{
    if let Lifecycle::Stopping(reason) = state.lifecycle {
        return Err(reason);
    }
    let should_execute = is_current(state, work.navigation) && !cancelled;
    let kind = if should_execute {
        EngineEventKind::NavigationStarted { navigation: work.navigation }
    } else {
        EngineEventKind::NavigationCancelled { navigation: work.navigation }
    };
    match enqueue_one(state, limits, phase, kind) {
        Ok(()) => {},
        Err(reason) => {
            request_stop(state, reason);
            return Err(reason);
        },
    }
    if !should_execute {
        clear_navigation_cancellation_if_current(state, work.navigation);
    }
    Ok(should_execute)
}

/// Finishes an executed navigation. `cancelled` is its flag once the executor
/// returned.
pub fn finish_navigation(
    state: &mut SharedState,
    limits: EngineLimits,
    work: &NavigationWork,
    cancelled: bool,
    phase: &mut NavigationEventPhase,
    result: Result<ExecutorOutput, ExecutionFailure>,
) -> (finished: Result<(), WorkerStopReason>)
    requires
        old(state)@.retained_mutation_result_nodes == crate::engine::results_total(
            old(state)@.mutation_results,
        ),
    ensures
        (final(state)@, *final(phase), finished) == old(state)@.navigation_finished(
            limits@,
            work.navigation,
            work.request,
            cancelled,
            *old(phase),
            result,
        ),
{
    let renderer_unusable = match &result {
        Ok(_) => false,
        Err(failure) => failure.renderer_unusable,
    };
    if let Lifecycle::Stopping(reason) = state.lifecycle {
        return Err(reason);
    }
    let navigation = work.navigation;
    let publication = if !is_current(state, navigation) || cancelled {
        let queued = enqueue_one(
            state,
            limits,
            phase,
            EngineEventKind::NavigationCancelled { navigation },
        );
        clear_navigation_cancellation_if_current(state, navigation);
        match queued {
            Ok(()) => Ok(false),
            Err(reason) => Err(reason),
        }
    } else {
        publish_execution_result(state, limits, phase, navigation, &work.request, result)
    };
    let published = match publication {
        Ok(published) => published,
        Err(_) => false,
    };
    state.owe(EngineEffect::AcknowledgeNavigation { navigation, published });
    if let Err(reason) = publication {
        request_stop(state, reason);
        return Err(reason);
    }
    if renderer_unusable {
        request_stop(state, WorkerStopReason::RendererUnavailable);
    }
    Ok(())
}

} // verus!
