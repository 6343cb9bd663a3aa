//! Admission of commands: every refusal leaves the shared state as it was.

use std::collections::VecDeque;
use vstd::prelude::*;

use crate::collections::{
    map_get, map_insert, map_len, map_remove, set_contains, set_insert, set_len,
};
use crate::command::{CommandError, CommandErrorKind, CommandReceipt, EngineCommand};
use crate::commit::NavigationRequest;
use crate::control::{remove_context_mutation_results, request_stop, retire_current_style_document};
use crate::engine::{
    ActiveCancellation, CancellationSource, ContextState, DocumentMutationWork,
    DocumentRerenderWork, EngineEffect, EngineModel, EngineWork, Lifecycle, NavigationWork,
    Reservation, SharedState,
};
use crate::failure::WorkerStopReason;
use crate::identity::{
    DocumentOperationId, DocumentVersion, NavigationGeneration, NavigationId, TopLevelContextId,
};
use crate::limits::{EngineLimits, LimitValues, MAX_PENDING_MUTATION_PAYLOAD_BYTES};
use crate::script::{
    validate_mutation_payload, MutationPayloadReservation, PayloadError, ScriptMutationBatch,
    ScriptMutationLimits,
};

verus! {

impl EngineModel {
    /// Why no command is accepted at all.
    pub open spec fn accepting_error(self) -> Option<CommandErrorKind> {
        if !self.receiver_open {
            Some(CommandErrorKind::EventReceiverDropped)
        } else if !(self.lifecycle is Running) {
            Some(CommandErrorKind::ShuttingDown)
        } else {
            None
        }
    }

    /// Why a navigation is refused.
    pub open spec fn navigation_error(self, limits: LimitValues, navigation: NavigationId) -> Option<
        CommandErrorKind,
    > {
        let key = crate::engine::context_key(navigation);
        let generation = navigation.generation_of();
        if let Some(error) = self.accepting_error() {
            Some(error)
        } else if self.closing_contexts.contains(key) {
            Some(CommandErrorKind::ContextClosing)
        } else if !self.contexts.contains_key(key) && self.latest_new_context is Some && key
            <= self.latest_new_context->0.value() {
            Some(CommandErrorKind::ContextIdentityRetired { latest: self.latest_new_context->0 })
        } else {
            let refused = match self.context(navigation) {
                Some(existing) => if existing.latest_generation.value() == u64::MAX {
                    Some(CommandErrorKind::GenerationExhausted)
                } else if generation.value() <= existing.latest_generation.value() {
                    Some(
                        CommandErrorKind::NonMonotonicGeneration {
                            latest: existing.latest_generation,
                        },
                    )
                } else {
                    None
                },
                None => if generation.value() != 1 {
                    Some(CommandErrorKind::InitialGenerationRequired)
                } else if self.contexts.len() + self.closing_contexts.len()
                    >= limits.max_contexts {
                    Some(CommandErrorKind::ContextLimitReached { maximum: limits.max_contexts })
                } else {
                    None
                },
            };
            if refused is Some {
                refused
            } else if self.commands.len() >= limits.command_capacity {
                Some(CommandErrorKind::QueueFull { capacity: limits.command_capacity })
            } else {
                None
            }
        }
    }

    /// The state after a navigation was queued: it supersedes whatever its
    /// context was doing.
    pub open spec fn navigation_queued(
        self,
        navigation: NavigationId,
        request: NavigationRequest,
        ticket: u64,
    ) -> Self {
        let active = Some(
            ActiveCancellation::Navigation {
                navigation,
                source: CancellationSource { ticket, cancelled: false },
            },
        );
        let queued = EngineModel {
            commands: self.commands.push(
                EngineWork::Navigate(NavigationWork { navigation, request, cancellation: ticket }),
            ),
            ..self
        };
        match self.context(navigation) {
            Some(context) => queued.with_context(
                navigation,
                ContextState {
                    latest_generation: navigation.generation_of(),
                    active_cancellation: active,
                    ..context
                },
            ).owing(crate::engine::cancel_effects(context.active_cancellation)),
            None => EngineModel {
                latest_new_context: Some(navigation.context_of()),
                ..queued.with_context(
                    navigation,
                    ContextState {
                        latest_generation: navigation.generation_of(),
                        active_cancellation: active,
                        current_frame: None,
                        document: None,
                    },
                )
            },
        }
    }

    /// Why work on a live document is refused.
    pub open spec fn document_error(
        self,
        limits: LimitValues,
        navigation: NavigationId,
        expected_live_version: DocumentVersion,
    ) -> Option<CommandErrorKind> {
        if let Some(error) = self.accepting_error() {
            Some(error)
        } else if self.closing_contexts.contains(crate::engine::context_key(navigation)) {
            Some(CommandErrorKind::ContextClosing)
        } else if self.commands.len() >= limits.command_capacity {
            Some(CommandErrorKind::QueueFull { capacity: limits.command_capacity })
        } else {
            match self.context(navigation) {
                None => Some(CommandErrorKind::UnknownContext),
                Some(context) => if context.active_cancellation is Some {
                    Some(CommandErrorKind::ContextBusy)
                } else {
                    match context.document {
                        None => Some(CommandErrorKind::NoLiveDocument),
                        Some(document) => if document.navigation != navigation {
                            Some(
                                CommandErrorKind::DocumentNavigationMismatch {
                                    current: document.navigation,
                                },
                            )
                        } else if document.live_version != expected_live_version {
                            Some(
                                CommandErrorKind::DocumentVersionMismatch {
                                    live: document.live_version,
                                },
                            )
                        } else {
                            None
                        },
                    }
                },
            }
        }
    }

    /// Whether a document-operation identity can still be handed out.
    pub open spec fn operation_available(self) -> bool {
        0 < self.next_document_operation_sequence < u64::MAX
    }

    /// The next document-operation identity.
    pub open spec fn next_operation(self) -> DocumentOperationId {
        DocumentOperationId::of(
            self.document_operation_owner,
            self.next_document_operation_sequence,
        )
    }

    /// The state after the next document-operation identity was handed out.
    pub open spec fn operation_issued(self) -> Self {
        EngineModel {
            next_document_operation_sequence: (self.next_document_operation_sequence + 1) as u64,
            ..self
        }
    }

    /// The state in which a document operation of a context can be cancelled.
    pub open spec fn operation_active(
        self,
        navigation: NavigationId,
        operation: DocumentOperationId,
        ticket: u64,
    ) -> Self {
        self.with_context(
            navigation,
            ContextState {
                active_cancellation: Some(
                    ActiveCancellation::Document {
                        navigation,
                        operation,
                        source: CancellationSource { ticket, cancelled: false },
                    },
                ),
                ..self.contexts[crate::engine::context_key(navigation)]
            },
        )
    }

    /// Why a mutation is refused.
    pub open spec fn mutation_error(
        self,
        limits: LimitValues,
        navigation: NavigationId,
        batch: ScriptMutationBatch,
        command_bytes: usize,
        hard: ScriptMutationLimits,
    ) -> Option<CommandErrorKind> {
        let reservation = mutation_reservation(batch, command_bytes);
        if let Some(error) = crate::script::payload_error(batch.commands@, command_bytes, hard) {
            Some(payload_error_kind(error))
        } else if let Some(error) = self.document_error(
            limits,
            navigation,
            batch.expected_version,
        ) {
            Some(error)
        } else if self.retained_document_nodes + self.pending_document_nodes
            + reservation.created_nodes > limits.max_retained_document_nodes {
            Some(
                CommandErrorKind::RetainedDocumentNodeLimit {
                    maximum: limits.max_retained_document_nodes,
                },
            )
        } else if self.retained_mutation_result_nodes + self.pending_mutation_result_nodes
            + reservation.result_units > limits.max_retained_mutation_result_nodes {
            Some(
                CommandErrorKind::MutationResultNodeLimit {
                    maximum: limits.max_retained_mutation_result_nodes,
                },
            )
        } else if self.pending_mutation_payload_bytes + reservation.payload_bytes
            > limits.max_pending_mutation_payload_bytes {
            Some(
                CommandErrorKind::MutationPayloadBudget {
                    maximum: limits.max_pending_mutation_payload_bytes,
                },
            )
        } else if !self.operation_available() {
            Some(CommandErrorKind::DocumentOperationIdentityExhausted)
        } else {
            None
        }
    }

    /// The state after a mutation was queued and what it needs was reserved.
    pub open spec fn mutation_queued(
        self,
        navigation: NavigationId,
        batch: ScriptMutationBatch,
        command_bytes: usize,
        ticket: u64,
    ) -> Self {
        let reservation = mutation_reservation(batch, command_bytes);
        let operation = self.next_operation();
        EngineModel {
            commands: self.commands.push(
                EngineWork::Mutate(
                    DocumentMutationWork {
                        navigation,
                        operation,
                        batch,
                        cancellation: ticket,
                        reserved_created_nodes: reservation.created_nodes as usize,
                        reserved_result_units: reservation.result_units as usize,
                        reserved_payload_bytes: reservation.payload_bytes as usize,
                    },
                ),
            ),
            pending_document_nodes: (self.pending_document_nodes
                + reservation.created_nodes) as usize,
            pending_mutation_result_nodes: (self.pending_mutation_result_nodes
                + reservation.result_units) as usize,
            pending_mutation_payload_bytes: (self.pending_mutation_payload_bytes
                + reservation.payload_bytes) as usize,
            ..self.operation_issued()
        }.operation_active(navigation, operation, ticket)
    }

    /// Why a rerender is refused.
    pub open spec fn rerender_error(
        self,
        limits: LimitValues,
        navigation: NavigationId,
        expected_live_version: DocumentVersion,
    ) -> Option<CommandErrorKind> {
        if let Some(error) = self.document_error(limits, navigation, expected_live_version) {
            Some(error)
        } else if !self.operation_available() {
            Some(CommandErrorKind::DocumentOperationIdentityExhausted)
        } else {
            None
        }
    }

    /// The state after a rerender was queued.
    pub open spec fn rerender_queued(
        self,
        navigation: NavigationId,
        expected_live_version: DocumentVersion,
        ticket: u64,
    ) -> Self {
        let operation = self.next_operation();
        EngineModel {
            commands: self.commands.push(
                EngineWork::Rerender(
                    DocumentRerenderWork {
                        navigation,
                        operation,
                        expected_live_version,
                        cancellation: ticket,
                    },
                ),
            ),
            ..self.operation_issued()
        }.operation_active(navigation, operation, ticket)
    }

    /// Why a navigation cannot be cancelled.
    pub open spec fn cancel_navigation_error(self, navigation: NavigationId) -> Option<
        CommandErrorKind,
    > {
        if let Some(error) = self.accepting_error() {
            Some(error)
        } else {
            match self.context(navigation) {
                None => Some(CommandErrorKind::UnknownContext),
                Some(context) => match context.active_cancellation {
                    Some(ActiveCancellation::Navigation { navigation: active, source }) => if active
                        != navigation {
                        Some(CommandErrorKind::NotCurrentNavigation)
                    } else if source.cancelled {
                        Some(CommandErrorKind::NoActiveNavigation)
                    } else {
                        None
                    },
                    _ => if context.latest_generation != navigation.generation_of() {
                        Some(CommandErrorKind::NotCurrentNavigation)
                    } else {
                        Some(CommandErrorKind::NoActiveNavigation)
                    },
                },
            }
        }
    }

    /// Why a document operation cannot be cancelled.
    pub open spec fn cancel_operation_error(
        self,
        navigation: NavigationId,
        operation: DocumentOperationId,
    ) -> Option<CommandErrorKind> {
        if let Some(error) = self.accepting_error() {
            Some(error)
        } else {
            match self.context(navigation) {
                None => Some(CommandErrorKind::UnknownContext),
                Some(context) => match context.active_cancellation {
                    Some(
                        ActiveCancellation::Document {
                            navigation: active_navigation,
                            operation: active_operation,
                            source,
                        },
                    ) => if active_operation != operation {
                        Some(
                            CommandErrorKind::NotCurrentDocumentOperation {
                                current: active_operation,
                            },
                        )
                    } else if active_navigation != navigation {
                        Some(
                            CommandErrorKind::DocumentOperationNavigationMismatch {
                                current: active_navigation,
                            },
                        )
                    } else if source.cancelled {
                        Some(CommandErrorKind::NoActiveDocumentOperation)
                    } else {
                        None
                    },
                    _ => if context.latest_generation != navigation.generation_of() {
                        Some(CommandErrorKind::NotCurrentNavigation)
                    } else {
                        Some(CommandErrorKind::NoActiveDocumentOperation)
                    },
                },
            }
        }
    }

    /// The state after the operation of a navigation's context was cancelled.
    pub open spec fn operation_cancelled(self, navigation: NavigationId) -> Self {
        let context = self.contexts[crate::engine::context_key(navigation)];
        self.with_context(navigation, crate::control::cancelled_context(context)).owing(
            crate::engine::cancel_effects(context.active_cancellation),
        )
    }

    /// Why a context cannot be closed.
    pub open spec fn close_error(self, navigation: NavigationId) -> Option<CommandErrorKind> {
        if let Some(error) = self.accepting_error() {
            Some(error)
        } else if self.closing_contexts.contains(crate::engine::context_key(navigation)) {
            Some(CommandErrorKind::ContextClosing)
        } else {
            match self.context(navigation) {
                None => Some(CommandErrorKind::UnknownContext),
                Some(context) => if context.latest_generation != navigation.generation_of() {
                    Some(CommandErrorKind::NotCurrentNavigation)
                } else {
                    None
                },
            }
        }
    }

    /// The state after a context was closed: its work, document, frame and
    /// mappings are gone, and the worker is told.
    pub open spec fn context_closed(self, navigation: NavigationId) -> Self {
        let key = crate::engine::context_key(navigation);
        let context = self.contexts[key];
        let kept = work_elsewhere(self.commands, navigation.context_of());
        let removed = removed_reservation(self.commands, navigation.context_of());
        let emptied = EngineModel {
            contexts: self.contexts.remove(key),
            retained_frame_bytes: (self.retained_frame_bytes - crate::engine::frame_charge(
                context,
            )) as usize,
            retained_document_nodes: (self.retained_document_nodes
                - crate::engine::document_charge(context)) as usize,
            commands: kept,
            ..self.style_retired(navigation)
        }.owing(crate::engine::cancel_effects(context.active_cancellation)).released(
            removed,
        ).without_results(navigation.context_of());
        EngineModel {
            closing_contexts: emptied.closing_contexts.insert(key),
            context_closures: emptied.context_closures.push(navigation),
            ..emptied
        }
    }
}

/// Work of every other context, in order.
pub open spec fn work_elsewhere(commands: Seq<EngineWork>, context: TopLevelContextId) -> Seq<
    EngineWork,
>
    decreases commands.len(),
{
    if commands.len() == 0 {
        Seq::empty()
    } else if commands.last().navigation_of().context_of() == context {
        work_elsewhere(commands.drop_last(), context)
    } else {
        work_elsewhere(commands.drop_last(), context).push(commands.last())
    }
}

/// What the work of one context reserved together.
pub open spec fn removed_reservation(
    commands: Seq<EngineWork>,
    context: TopLevelContextId,
) -> Reservation
    decreases commands.len(),
{
    if commands.len() == 0 {
        Reservation::nothing()
    } else {
        let before = removed_reservation(commands.drop_last(), context);
        if commands.last().navigation_of().context_of() == context {
            let last = commands.last().reservation();
            Reservation {
                created_nodes: before.created_nodes + last.created_nodes,
                result_units: before.result_units + last.result_units,
                payload_bytes: before.payload_bytes + last.payload_bytes,
            }
        } else {
            before
        }
    }
}

/// Closing one context splits the queue's reservations into what is removed
/// and what stays.
pub proof fn removed_and_kept(commands: Seq<EngineWork>, context: TopLevelContextId)
    ensures
        ({
            let all = crate::engine::queue_reservation(commands);
            let kept = crate::engine::queue_reservation(work_elsewhere(commands, context));
            let removed = removed_reservation(commands, context);
            &&& all.created_nodes == kept.created_nodes + removed.created_nodes
            &&& all.result_units == kept.result_units + removed.result_units
            &&& all.payload_bytes == kept.payload_bytes + removed.payload_bytes
        }),
        work_elsewhere(commands, context).len() <= commands.len(),
    decreases commands.len(),
{
    if commands.len() > 0 {
        removed_and_kept(commands.drop_last(), context);
        let shorter = work_elsewhere(commands.drop_last(), context);
        let last = commands.last();
        crate::accounting::seq_total_push(shorter, crate::engine::created_reservations(), last);
        crate::accounting::seq_total_push(shorter, crate::engine::unit_reservations(), last);
        crate::accounting::seq_total_push(shorter, crate::engine::payload_reservations(), last);
    }
}

/// What a batch reserves: its created nodes, at least one result unit, and its
/// payload.
pub open spec fn mutation_reservation(batch: ScriptMutationBatch, command_bytes: usize) -> Reservation {
    let created = crate::script::created_count(batch.commands@);
    Reservation {
        created_nodes: created,
        result_units: if created == 0 {
            1
        } else {
            created
        },
        payload_bytes: (command_bytes + crate::script::total(
            crate::script::text_lengths(batch.commands@),
        )) as nat,
    }
}

/// How a refused payload is reported.
pub open spec fn payload_error_kind(error: PayloadError) -> CommandErrorKind {
    match error {
        PayloadError::Limit { kind, maximum, actual } => CommandErrorKind::MutationPayloadLimit {
            kind,
            maximum,
            actual,
        },
        PayloadError::Unrepresentable => CommandErrorKind::MutationPayloadBudget {
            maximum: MAX_PENDING_MUTATION_PAYLOAD_BYTES,
        },
    }
}

/// Accepts while the receiver is attached and the worker runs.
pub fn ensure_accepting(state: &SharedState) -> (result: Result<(), CommandErrorKind>)
    ensures
        result == match state@.accepting_error() {
            Some(error) => Err(error),
            None => Ok(()),
        },
{
    if !state.receiver_open {
        return Err(CommandErrorKind::EventReceiverDropped);
    }
    match state.lifecycle {
        Lifecycle::Running => Ok(()),
        _ => Err(CommandErrorKind::ShuttingDown),
    }
}

/// Hands out the next document-operation identity, which is never reused.
pub fn reserve_document_operation_id(state: &mut SharedState) -> (result: Result<
    DocumentOperationId,
    CommandErrorKind,
>)
    ensures
        if old(state)@.operation_available() {
            result == Ok::<_, CommandErrorKind>(old(state)@.next_operation()) && final(state)@
                == old(state)@.operation_issued()
        } else {
            result == Err::<DocumentOperationId, _>(
                CommandErrorKind::DocumentOperationIdentityExhausted,
            ) && final(state)@ == old(state)@
        },
{
    let raw: u64 = state.next_document_operation_sequence;
    if raw == u64::MAX || raw == 0 {
        return Err(CommandErrorKind::DocumentOperationIdentityExhausted);
    }
    let operation = DocumentOperationId::new(state.document_operation_owner, raw);
    state.next_document_operation_sequence = raw + 1;
    Ok(operation)
}

/// Accepts work on exactly the live document that it names.
pub fn ensure_document_admission(
    state: &SharedState,
    limits: EngineLimits,
    navigation: NavigationId,
    expected_live_version: DocumentVersion,
) -> (result: Result<(), CommandErrorKind>)
    ensures
        result == match state@.document_error(limits@, navigation, expected_live_version) {
            Some(error) => Err(error),
            None => Ok(()),
        },
{
    match ensure_accepting(state) {
        Ok(()) => {},
        Err(error) => return Err(error),
    }
    let key: u64 = navigation.context().get();
    if set_contains(&state.closing_contexts, key) {
        return Err(CommandErrorKind::ContextClosing);
    }
    let capacity: usize = limits.command_capacity();
    if state.commands.len() >= capacity {
        return Err(CommandErrorKind::QueueFull { capacity });
    }
    let context = match map_get(&state.contexts, key) {
        Some(context) => context,
        None => return Err(CommandErrorKind::UnknownContext),
    };
    if context.active_cancellation.is_some() {
        return Err(CommandErrorKind::ContextBusy);
    }
    let document = match context.document {
        Some(document) => document,
        None => return Err(CommandErrorKind::NoLiveDocument),
    };
    if document.navigation != navigation {
        return Err(CommandErrorKind::DocumentNavigationMismatch { current: document.navigation });
    }
    if document.live_version != expected_live_version {
        return Err(CommandErrorKind::DocumentVersionMismatch { live: document.live_version });
    }
    Ok(())
}

/// Accepts a navigation that continues its context, or opens a new one.
fn check_navigation(state: &SharedState, limits: EngineLimits, navigation: NavigationId) -> (result:
    Result<(), CommandErrorKind>)
    ensures
        result == match state@.navigation_error(limits@, navigation) {
            Some(error) => Err(error),
            None => Ok(()),
        },
{
    match ensure_accepting(state) {
        Ok(()) => {},
        Err(error) => return Err(error),
    }
    let key: u64 = navigation.context().get();
    if set_contains(&state.closing_contexts, key) {
        return Err(CommandErrorKind::ContextClosing);
    }
    let generation: u64 = navigation.generation().get();
    let maximum: usize = limits.max_contexts();
    match map_get(&state.contexts, key) {
        Some(existing) => {
            if existing.latest_generation.checked_next().is_none() {
                return Err(CommandErrorKind::GenerationExhausted);
            }
            if generation <= existing.latest_generation.get() {
                return Err(
                    CommandErrorKind::NonMonotonicGeneration { latest: existing.latest_generation },
                );
            }
        },
        None => {
            if let Some(latest) = state.latest_new_context {
                if key <= latest.get() {
                    return Err(CommandErrorKind::ContextIdentityRetired { latest });
                }
            }
            if generation != 1 {
                return Err(CommandErrorKind::InitialGenerationRequired);
            }
            let occupied: usize = map_len(&state.contexts).saturating_add(
                set_len(&state.closing_contexts),
            );
            if occupied >= maximum {
                return Err(CommandErrorKind::ContextLimitReached { maximum });
            }
        },
    }
    let capacity: usize = limits.command_capacity();
    if state.commands.len() >= capacity {
        return Err(CommandErrorKind::QueueFull { capacity });
    }
    Ok(())
}

/// Queues a navigation. Failure creates no context, advances no generation,
/// cancels nothing and consumes no queue capacity.
pub fn queue_navigation_locked(
    state: &mut SharedState,
    limits: EngineLimits,
    navigation: NavigationId,
    request: NavigationRequest,
    ticket: u64,
) -> (result: Result<CommandReceipt, CommandErrorKind>)
    ensures
        match old(state)@.navigation_error(limits@, navigation) {
            Some(error) => result == Err::<CommandReceipt, _>(error) && final(state)@
                == old(state)@,
            None => result == Ok::<_, CommandErrorKind>(
                CommandReceipt::NavigationQueued(navigation),
            ) && final(state)@ == old(state)@.navigation_queued(navigation, request, ticket),
        },
{
    match check_navigation(state, limits, navigation) {
        Ok(()) => {},
        Err(error) => return Err(error),
    }
    let ghost before = state@;
    let key: u64 = navigation.context().get();
    let generation = navigation.generation();
    let active = ActiveCancellation::Navigation {
        navigation,
        source: CancellationSource { ticket, cancelled: false },
    };
    state.commands.push_back(
        EngineWork::Navigate(NavigationWork { navigation, request, cancellation: ticket }),
    );
    match map_remove(&mut state.contexts, key) {
        Some(context) => {
            let mut context = context;
            let previous = context.active_cancellation;
            context.active_cancellation = Some(active);
            context.latest_generation = generation;
            let _ = map_insert(&mut state.contexts, key, context);
            assert(state@.contexts =~= before.contexts.insert(key, context));
            if let Some(previous) = previous {
                state.owe(EngineEffect::Cancel { ticket: previous.source().ticket });
            }
        },
        None => {
            let _ = map_insert(
                &mut state.contexts,
                key,
                ContextState {
                    latest_generation: generation,
                    active_cancellation: Some(active),
                    current_frame: None,
                    document: None,
                },
            );
            state.latest_new_context = Some(navigation.context());
        },
    }
    assert(state@ =~= before.navigation_queued(navigation, request, ticket));
    Ok(CommandReceipt::NavigationQueued(navigation))
}

/// Next generation of a context, or the first one.
pub open spec fn next_generation(state: EngineModel, context: TopLevelContextId) -> Option<
    NavigationGeneration,
> {
    if state.contexts.contains_key(context.value()) {
        let latest = state.contexts[context.value()].latest_generation.value();
        if latest == u64::MAX {
            None
        } else {
            Some(NavigationGeneration::of((latest + 1) as u64))
        }
    } else {
        Some(NavigationGeneration::of(1))
    }
}

/// Queues the exact next generation of a context.
pub fn navigate(
    state: &mut SharedState,
    limits: EngineLimits,
    context: TopLevelContextId,
    request: NavigationRequest,
    ticket: u64,
) -> (result: Result<NavigationId, CommandError>)
    ensures
        if old(state)@.closing_contexts.contains(context.value()) {
            &&& final(state)@ == old(state)@
            &&& result == Err::<NavigationId, _>(
                CommandError {
                    kind: CommandErrorKind::ContextClosing,
                    command: EngineCommand::Navigate {
                        navigation: NavigationId::of(context, NavigationGeneration::of(1)),
                        request,
                    },
                },
            )
        } else {
            match next_generation(old(state)@, context) {
                None => {
                    &&& final(state)@ == old(state)@
                    &&& result == Err::<NavigationId, _>(
                        CommandError {
                            kind: CommandErrorKind::GenerationExhausted,
                            command: EngineCommand::Navigate {
                                navigation: NavigationId::of(
                                    context,
                                    old(state)@.contexts[context.value()].latest_generation,
                                ),
                                request,
                            },
                        },
                    )
                },
                Some(generation) => {
                    let navigation = NavigationId::of(context, generation);
                    match old(state)@.navigation_error(limits@, navigation) {
                        Some(kind) => final(state)@ == old(state)@ && result == Err::<
                            NavigationId,
                            _,
                        >(
                            CommandError {
                                kind,
                                command: EngineCommand::Navigate { navigation, request },
                            },
                        ),
                        None => result == Ok::<_, CommandError>(navigation) && final(state)@
                            == old(state)@.navigation_queued(navigation, request, ticket),
                    }
                },
            }
        },
{
    let key: u64 = context.get();
    if set_contains(&state.closing_contexts, key) {
        return Err(
            CommandError {
                kind: CommandErrorKind::ContextClosing,
                command: EngineCommand::Navigate {
                    navigation: NavigationId::new(context, NavigationGeneration::initial()),
                    request,
                },
            },
        );
    }
    let generation = match map_get(&state.contexts, key) {
        Some(existing) => match existing.latest_generation.checked_next() {
            Some(generation) => generation,
            None => {
                return Err(
                    CommandError {
                        kind: CommandErrorKind::GenerationExhausted,
                        command: EngineCommand::Navigate {
                            navigation: NavigationId::new(context, existing.latest_generation),
                            request,
                        },
                    },
                );
            },
        },
        None => NavigationGeneration::initial(),
    };
    let navigation = NavigationId::new(context, generation);
    let returned = request.clone();
    match queue_navigation_locked(state, limits, navigation, request, ticket) {
        Ok(_) => Ok(navigation),
        Err(kind) => Err(
            CommandError {
                kind,
                command: EngineCommand::Navigate { navigation, request: returned },
            },
        ),
    }
}

/// Last accepted generation of a context.
pub fn latest_generation(state: &SharedState, context: TopLevelContextId) -> (generation: Option<
    NavigationGeneration,
>)
    ensures
        generation == if state@.contexts.contains_key(context.value()) {
            Some(state@.contexts[context.value()].latest_generation)
        } else {
            None
        },
{
    match map_get(&state.contexts, context.get()) {
        Some(context) => Some(context.latest_generation),
        None => None,
    }
}

/// Raises the flag of the operation that a context runs.
fn cancel_active(state: &mut SharedState, navigation: NavigationId)
    requires
        old(state)@.context(navigation) matches Some(context)
            && context.active_cancellation is Some,
    ensures
        final(state)@ == old(state)@.operation_cancelled(navigation),
{
    let key: u64 = navigation.context().get();
    if let Some(context) = map_remove(&mut state.contexts, key) {
        let mut context = context;
        if let Some(active) = context.active_cancellation {
            context.active_cancellation = Some(active.cancel());
            state.owe(EngineEffect::Cancel { ticket: active.source().ticket });
        }
        let _ = map_insert(&mut state.contexts, key, context);
    }
    assert(state@ =~= old(state)@.operation_cancelled(navigation));
}

/// Cancels one exact active navigation, never a document operation.
pub fn try_cancel_navigation(state: &mut SharedState, navigation: NavigationId) -> (result: Result<
    CommandReceipt,
    CommandErrorKind,
>)
    ensures
        match old(state)@.cancel_navigation_error(navigation) {
            Some(error) => result == Err::<CommandReceipt, _>(error) && final(state)@
                == old(state)@,
            None => result == Ok::<_, CommandErrorKind>(
                CommandReceipt::NavigationCancellationRequested(navigation),
            ) && final(state)@ == old(state)@.operation_cancelled(navigation),
        },
{
    match ensure_accepting(state) {
        Ok(()) => {},
        Err(error) => return Err(error),
    }
    let context = match map_get(&state.contexts, navigation.context().get()) {
        Some(context) => context,
        None => return Err(CommandErrorKind::UnknownContext),
    };
    match context.active_cancellation {
        Some(ActiveCancellation::Navigation { navigation: active, source }) => {
            if active != navigation {
                return Err(CommandErrorKind::NotCurrentNavigation);
            }
            if source.cancelled {
                return Err(CommandErrorKind::NoActiveNavigation);
            }
        },
        Some(ActiveCancellation::Document { .. }) | None => {
            if context.latest_generation != navigation.generation() {
                return Err(CommandErrorKind::NotCurrentNavigation);
            }
            return Err(CommandErrorKind::NoActiveNavigation);
        },
    }
    cancel_active(state, navigation);
    Ok(CommandReceipt::NavigationCancellationRequested(navigation))
}

/// Cancels one exact admitted mutation or rerender.
pub fn try_cancel_document_operation(
    state: &mut SharedState,
    navigation: NavigationId,
    operation: DocumentOperationId,
) -> (result: Result<CommandReceipt, CommandErrorKind>)
    ensures
        match old(state)@.cancel_operation_error(navigation, operation) {
            Some(error) => result == Err::<CommandReceipt, _>(error) && final(state)@
                == old(state)@,
            None => result == Ok::<_, CommandErrorKind>(
                CommandReceipt::DocumentOperationCancellationRequested { navigation, operation },
            ) && final(state)@ == old(state)@.operation_cancelled(navigation),
        },
{
    match ensure_accepting(state) {
        Ok(()) => {},
        Err(error) => return Err(error),
    }
    let context = match map_get(&state.contexts, navigation.context().get()) {
        Some(context) => context,
        None => return Err(CommandErrorKind::UnknownContext),
    };
    match context.active_cancellation {
        Some(
            ActiveCancellation::Document {
                navigation: active_navigation,
                operation: active_operation,
                source,
            },
        ) => {
            if active_operation != operation {
                return Err(
                    CommandErrorKind::NotCurrentDocumentOperation { current: active_operation },
                );
            }
            if active_navigation != navigation {
                return Err(
                    CommandErrorKind::DocumentOperationNavigationMismatch {
                        current: active_navigation,
                    },
                );
            }
            if source.cancelled {
                return Err(CommandErrorKind::NoActiveDocumentOperation);
            }
        },
        Some(ActiveCancellation::Navigation { .. }) | None => {
            if context.latest_generation != navigation.generation() {
                return Err(CommandErrorKind::NotCurrentNavigation);
            }
            return Err(CommandErrorKind::NoActiveDocumentOperation);
        },
    }
    cancel_active(state, navigation);
    Ok(CommandReceipt::DocumentOperationCancellationRequested { navigation, operation })
}

/// Makes a document operation the one that its context runs.
fn activate_operation(
    state: &mut SharedState,
    navigation: NavigationId,
    operation: DocumentOperationId,
    ticket: u64,
)
    requires
        old(state)@.context(navigation) is Some,
    ensures
        final(state)@ == old(state)@.operation_active(navigation, operation, ticket),
{
    let key: u64 = navigation.context().get();
    if let Some(context) = map_remove(&mut state.contexts, key) {
        let mut context = context;
        context.active_cancellation = Some(
            ActiveCancellation::Document {
                navigation,
                operation,
                source: CancellationSource { ticket, cancelled: false },
            },
        );
        let _ = map_insert(&mut state.contexts, key, context);
    }
    assert(state@ =~= old(state)@.operation_active(navigation, operation, ticket));
}

/// Whether `left + middle + right` stays within `maximum`.
fn sum_within(left: usize, middle: usize, right: usize, maximum: usize) -> (within: bool)
    ensures
        within == (left + middle + right <= maximum),
{
    match left.checked_add(middle) {
        Some(sum) => match sum.checked_add(right) {
            Some(total) => total <= maximum,
            None => false,
        },
        None => false,
    }
}

/// Accepts a mutation that fits the hard caps, the live document and the
/// budgets; answers what it must reserve.
fn check_document_mutation(
    state: &SharedState,
    limits: EngineLimits,
    navigation: NavigationId,
    batch: &ScriptMutationBatch,
    command_bytes: usize,
    hard: &ScriptMutationLimits,
) -> (result: Result<MutationPayloadReservation, CommandErrorKind>)
    ensures
        match state@.mutation_error(limits@, navigation, *batch, command_bytes, *hard) {
            Some(error) => result == Err::<MutationPayloadReservation, _>(error),
            None => {
                let reservation = mutation_reservation(*batch, command_bytes);
                &&& result matches Ok(payload)
                &&& payload.created_nodes == reservation.created_nodes
                &&& payload.payload_bytes == reservation.payload_bytes
            },
        },
{
    let payload = match validate_mutation_payload(batch, command_bytes, hard) {
        Ok(payload) => payload,
        Err(PayloadError::Limit { kind, maximum, actual }) => {
            return Err(CommandErrorKind::MutationPayloadLimit { kind, maximum, actual });
        },
        Err(PayloadError::Unrepresentable) => {
            return Err(
                CommandErrorKind::MutationPayloadBudget {
                    maximum: MAX_PENDING_MUTATION_PAYLOAD_BYTES,
                },
            );
        },
    };
    proof {
        crate::script::created_count_is_bounded(batch.commands@);
    }
    let units: usize = if payload.created_nodes == 0 {
        1
    } else {
        payload.created_nodes
    };
    match ensure_document_admission(state, limits, navigation, batch.expected_version) {
        Ok(()) => {},
        Err(error) => return Err(error),
    }
    let node_maximum: usize = limits.max_retained_document_nodes();
    if !sum_within(
        state.retained_document_nodes,
        state.pending_document_nodes,
        payload.created_nodes,
        node_maximum,
    ) {
        return Err(CommandErrorKind::RetainedDocumentNodeLimit { maximum: node_maximum });
    }
    let unit_maximum: usize = limits.max_retained_mutation_result_nodes();
    if !sum_within(
        state.retained_mutation_result_nodes,
        state.pending_mutation_result_nodes,
        units,
        unit_maximum,
    ) {
        return Err(CommandErrorKind::MutationResultNodeLimit { maximum: unit_maximum });
    }
    let payload_maximum: usize = limits.max_pending_mutation_payload_bytes();
    if !sum_within(
        state.pending_mutation_payload_bytes,
        payload.payload_bytes,
        0,
        payload_maximum,
    ) {
        return Err(CommandErrorKind::MutationPayloadBudget { maximum: payload_maximum });
    }
    if state.next_document_operation_sequence == u64::MAX || state.next_document_operation_sequence
        == 0 {
        return Err(CommandErrorKind::DocumentOperationIdentityExhausted);
    }
    Ok(payload)
}

/// Queues one bounded mutation of the exact retained live document and
/// reserves what it may need. `command_bytes` is what its commands occupy, and
/// `hard` the caps of the mutation owner.
pub fn try_queue_document_mutation(
    state: &mut SharedState,
    limits: EngineLimits,
    navigation: NavigationId,
    batch: ScriptMutationBatch,
    command_bytes: usize,
    hard: &ScriptMutationLimits,
    ticket: u64,
) -> (result: Result<CommandReceipt, CommandError>)
    ensures
        match old(state)@.mutation_error(limits@, navigation, batch, command_bytes, *hard) {
            Some(kind) => final(state)@ == old(state)@ && result == Err::<CommandReceipt, _>(
                CommandError { kind, command: EngineCommand::MutateDocument { navigation, batch } },
            ),
            None => {
                &&& result == Ok::<_, CommandError>(
                    CommandReceipt::DocumentMutationQueued {
                        navigation,
                        operation: old(state)@.next_operation(),
                        expected_live_version: batch.expected_version,
                    },
                )
                &&& final(state)@ == old(state)@.mutation_queued(
                    navigation,
                    batch,
                    command_bytes,
                    ticket,
                )
            },
        },
{
    let ghost before = state@;
    let payload = match check_document_mutation(
        state,
        limits,
        navigation,
        &batch,
        command_bytes,
        hard,
    ) {
        Ok(payload) => payload,
        Err(kind) => {
            return Err(
                CommandError { kind, command: EngineCommand::MutateDocument { navigation, batch } },
            );
        },
    };
    let units: usize = if payload.created_nodes == 0 {
        1
    } else {
        payload.created_nodes
    };
    let expected_live_version = batch.expected_version;
    let operation = match reserve_document_operation_id(state) {
        Ok(operation) => operation,
        Err(kind) => {
            return Err(
                CommandError { kind, command: EngineCommand::MutateDocument { navigation, batch } },
            );
        },
    };
    state.commands.push_back(
        EngineWork::Mutate(
            DocumentMutationWork {
                navigation,
                operation,
                batch,
                cancellation: ticket,
                reserved_created_nodes: payload.created_nodes,
                reserved_result_units: units,
                reserved_payload_bytes: payload.payload_bytes,
            },
        ),
    );
    state.pending_document_nodes = state.pending_document_nodes + payload.created_nodes;
    state.pending_mutation_result_nodes = state.pending_mutation_result_nodes + units;
    state.pending_mutation_payload_bytes = state.pending_mutation_payload_bytes
        + payload.payload_bytes;
    activate_operation(state, navigation, operation, ticket);
    assert(state@ =~= before.mutation_queued(navigation, batch, command_bytes, ticket));
    Ok(
        CommandReceipt::DocumentMutationQueued {
            navigation,
            operation,
            expected_live_version,
        },
    )
}

/// Queues a rerender of the exact retained live document.
pub fn try_queue_document_rerender(
    state: &mut SharedState,
    limits: EngineLimits,
    navigation: NavigationId,
    expected_live_version: DocumentVersion,
    ticket: u64,
) -> (result: Result<CommandReceipt, CommandErrorKind>)
    ensures
        match old(state)@.rerender_error(limits@, navigation, expected_live_version) {
            Some(error) => result == Err::<CommandReceipt, _>(error) && final(state)@
                == old(state)@,
            None => {
                &&& result == Ok::<_, CommandErrorKind>(
                    CommandReceipt::DocumentRerenderQueued {
                        navigation,
                        operation: old(state)@.next_operation(),
                        expected_live_version,
                    },
                )
                &&& final(state)@ == old(state)@.rerender_queued(
                    navigation,
                    expected_live_version,
                    ticket,
                )
            },
        },
{
    let ghost before = state@;
    match ensure_document_admission(state, limits, navigation, expected_live_version) {
        Ok(()) => {},
        Err(error) => return Err(error),
    }
    let operation = match reserve_document_operation_id(state) {
        Ok(operation) => operation,
        Err(error) => return Err(error),
    };
    state.commands.push_back(
        EngineWork::Rerender(
            DocumentRerenderWork {
                navigation,
                operation,
                expected_live_version,
                cancellation: ticket,
            },
        ),
    );
    activate_operation(state, navigation, operation, ticket);
    assert(state@ =~= before.rerender_queued(navigation, expected_live_version, ticket));
    Ok(CommandReceipt::DocumentRerenderQueued { navigation, operation, expected_live_version })
}

/// Drops the queued work of one context and gives its reservations back.
fn remove_context_work(state: &mut SharedState, context: TopLevelContextId)
    requires
        old(state)@.holds(crate::engine::queue_reservation(old(state)@.commands)),
    ensures
        final(state)@ == (EngineModel {
            commands: work_elsewhere(old(state)@.commands, context),
            ..old(state)@
        }).released(removed_reservation(old(state)@.commands, context)),
{
    let ghost before = state@;
    let ghost all = before.commands;
    let mut queue: VecDeque<EngineWork> = VecDeque::new();
    std::mem::swap(&mut queue, &mut state.commands);
    let count: usize = queue.len();
    let mut kept: VecDeque<EngineWork> = VecDeque::new();
    let mut created_nodes: usize = 0;
    let mut result_units: usize = 0;
    let mut payload_bytes: usize = 0;
    let mut index: usize = 0;
    while index < count
        invariant
            index <= count,
            count == all.len(),
            before.holds(crate::engine::queue_reservation(all)),
            queue@ == all.subrange(index as int, all.len() as int),
            kept@ == work_elsewhere(all.take(index as int), context),
            removed_reservation(all.take(index as int), context) == (Reservation {
                created_nodes: created_nodes as nat,
                result_units: result_units as nat,
                payload_bytes: payload_bytes as nat,
            }),
        decreases count - index,
    {
        let ghost prefix = all.take(index + 1);
        proof {
            assert(prefix.drop_last() =~= all.take(index as int));
            removed_and_kept(prefix, context);
            crate::accounting::seq_total_prefix(
                all,
                crate::engine::created_reservations(),
                index + 1,
            );
            crate::accounting::seq_total_prefix(
                all,
                crate::engine::unit_reservations(),
                index + 1,
            );
            crate::accounting::seq_total_prefix(
                all,
                crate::engine::payload_reservations(),
                index + 1,
            );
        }
        if let Some(work) = queue.pop_front() {
            assert(work == prefix.last());
            if work.context() == context {
                created_nodes = created_nodes + work.reserved_created_nodes();
                result_units = result_units + work.reserved_result_units();
                payload_bytes = payload_bytes + work.reserved_payload_bytes();
            } else {
                kept.push_back(work);
            }
        }
        assert(queue@ =~= all.subrange(index + 1, all.len() as int));
        index = index + 1;
    }
    state.commands = kept;
    proof {
        assert(all.take(index as int) =~= all);
        removed_and_kept(all, context);
    }
    state.pending_document_nodes = state.pending_document_nodes - created_nodes;
    state.pending_mutation_result_nodes = state.pending_mutation_result_nodes - result_units;
    state.pending_mutation_payload_bytes = state.pending_mutation_payload_bytes - payload_bytes;
}

/// Closes one context, whatever the queue holds.
pub fn try_close_context(state: &mut SharedState, navigation: NavigationId) -> (result: Result<
    CommandReceipt,
    CommandErrorKind,
>)
    requires
        old(state)@.retained_exactly(),
        old(state)@.holds(crate::engine::queue_reservation(old(state)@.commands)),
    ensures
        match old(state)@.close_error(navigation) {
            Some(error) => result == Err::<CommandReceipt, _>(error) && final(state)@
                == old(state)@,
            None => result == Ok::<_, CommandErrorKind>(
                CommandReceipt::ContextCloseRequested(navigation),
            ) && final(state)@ == old(state)@.context_closed(navigation),
        },
{
    let ghost before = state@;
    match ensure_accepting(state) {
        Ok(()) => {},
        Err(error) => return Err(error),
    }
    let key: u64 = navigation.context().get();
    if set_contains(&state.closing_contexts, key) {
        return Err(CommandErrorKind::ContextClosing);
    }
    match map_get(&state.contexts, key) {
        Some(context) => {
            if context.latest_generation != navigation.generation() {
                return Err(CommandErrorKind::NotCurrentNavigation);
            }
        },
        None => return Err(CommandErrorKind::UnknownContext),
    }
    retire_current_style_document(state, navigation);
    if let Some(context) = map_remove(&mut state.contexts, key) {
        proof {
            crate::accounting::map_total_remove(
                before.contexts,
                crate::engine::frame_charges(),
                key,
            );
            crate::accounting::map_total_remove(
                before.contexts,
                crate::engine::document_charges(),
                key,
            );
        }
        if let Some(active) = context.active_cancellation {
            state.owe(EngineEffect::Cancel { ticket: active.source().ticket });
        }
        if let Some(stored) = context.current_frame {
            state.retained_frame_bytes = state.retained_frame_bytes
                - stored.frame.metadata().total_bytes();
        }
        if let Some(document) = context.document {
            state.retained_document_nodes = state.retained_document_nodes - document.node_charge;
        }
    }
    remove_context_work(state, navigation.context());
    remove_context_mutation_results(state, navigation.context());
    let _ = set_insert(&mut state.closing_contexts, key);
    state.context_closures.push_back(navigation);
    assert(state@ =~= before.context_closed(navigation));
    Ok(CommandReceipt::ContextCloseRequested(navigation))
}

/// Requests one-way shutdown; the first reason to stop stays.
pub fn request_shutdown(state: &mut SharedState) -> (receipt: CommandReceipt)
    ensures
        final(state)@ == old(state)@.stopping(WorkerStopReason::Requested),
        receipt == (CommandReceipt::ShutdownRequested {
            already_requested: !(old(state)@.lifecycle is Running),
        }),
{
    let already_requested = match state.lifecycle {
        Lifecycle::Running => false,
        _ => true,
    };
    request_stop(state, WorkerStopReason::Requested);
    CommandReceipt::ShutdownRequested { already_requested }
}

/// What a command brings along from outside the lock.
#[derive(Clone, Copy, Debug)]
pub struct CommandInputs {
    /// Key of a fresh cancellation flag.
    pub ticket: u64,
    /// Bytes that the commands of a mutation batch occupy.
    pub command_bytes: usize,
    /// Caps of the mutation owner.
    pub hard: ScriptMutationLimits,
}

impl EngineModel {
    /// Why a command is refused.
    pub open spec fn command_error(
        self,
        limits: LimitValues,
        command: EngineCommand,
        inputs: CommandInputs,
    ) -> Option<CommandErrorKind> {
        match command {
            EngineCommand::Navigate { navigation, .. } => self.navigation_error(limits, navigation),
            EngineCommand::Cancel { navigation } => self.cancel_navigation_error(navigation),
            EngineCommand::CancelDocumentOperation { navigation, operation } =>
                self.cancel_operation_error(navigation, operation),
            EngineCommand::MutateDocument { navigation, batch } => self.mutation_error(
                limits,
                navigation,
                batch,
                inputs.command_bytes,
                inputs.hard,
            ),
            EngineCommand::RerenderDocument { navigation, expected_live_version } =>
                self.rerender_error(limits, navigation, expected_live_version),
            EngineCommand::CloseContext { navigation } => self.close_error(navigation),
            EngineCommand::Shutdown => None,
        }
    }

    /// The state after a command was accepted.
    pub open spec fn command_accepted(self, command: EngineCommand, inputs: CommandInputs) -> Self {
        match command {
            EngineCommand::Navigate { navigation, request } => self.navigation_queued(
                navigation,
                request,
                inputs.ticket,
            ),
            EngineCommand::Cancel { navigation } => self.operation_cancelled(navigation),
            EngineCommand::CancelDocumentOperation { navigation, .. } => self.operation_cancelled(
                navigation,
            ),
            EngineCommand::MutateDocument { navigation, batch } => self.mutation_queued(
                navigation,
                batch,
                inputs.command_bytes,
                inputs.ticket,
            ),
            EngineCommand::RerenderDocument { navigation, expected_live_version } =>
                self.rerender_queued(navigation, expected_live_version, inputs.ticket),
            EngineCommand::CloseContext { navigation } => self.context_closed(navigation),
            EngineCommand::Shutdown => self.stopping(WorkerStopReason::Requested),
        }
    }

    /// What acceptance of a command is answered with.
    pub open spec fn command_receipt(self, command: EngineCommand) -> CommandReceipt {
        match command {
            EngineCommand::Navigate { navigation, .. } => CommandReceipt::NavigationQueued(
                navigation,
            ),
            EngineCommand::Cancel { navigation } =>
                CommandReceipt::NavigationCancellationRequested(navigation),
            EngineCommand::CancelDocumentOperation { navigation, operation } =>
                CommandReceipt::DocumentOperationCancellationRequested { navigation, operation },
            EngineCommand::MutateDocument { navigation, batch } =>
                CommandReceipt::DocumentMutationQueued {
                    navigation,
                    operation: self.next_operation(),
                    expected_live_version: batch.expected_version,
                },
            EngineCommand::RerenderDocument { navigation, expected_live_version } =>
                CommandReceipt::DocumentRerenderQueued {
                    navigation,
                    operation: self.next_operation(),
                    expected_live_version,
                },
            EngineCommand::CloseContext { navigation } => CommandReceipt::ContextCloseRequested(
                navigation,
            ),
            EngineCommand::Shutdown => CommandReceipt::ShutdownRequested {
                already_requested: !(self.lifecycle is Running),
            },
        }
    }
}

/// Answers a command whose refusal is already known by its reason.
fn refuse(result: Result<CommandReceipt, CommandErrorKind>, command: EngineCommand) -> (answer: Result<
    CommandReceipt,
    CommandError,
>)
    ensures
        answer == match result {
            Ok(receipt) => Ok(receipt),
            Err(kind) => Err(CommandError { kind, command }),
        },
{
    match result {
        Ok(receipt) => Ok(receipt),
        Err(kind) => Err(CommandError { kind, command }),
    }
}

/// Accepts a typed command, or hands it back with the reason and changes
/// nothing.
pub fn try_send(
    state: &mut SharedState,
    limits: EngineLimits,
    command: EngineCommand,
    inputs: &CommandInputs,
) -> (result: Result<CommandReceipt, CommandError>)
    requires
        old(state)@.retained_exactly(),
        old(state)@.holds(crate::engine::queue_reservation(old(state)@.commands)),
    ensures
        match old(state)@.command_error(limits@, command, *inputs) {
            Some(kind) => result == Err::<CommandReceipt, _>(CommandError { kind, command })
                && final(state)@ == old(state)@,
            None => {
                &&& result == Ok::<_, CommandError>(old(state)@.command_receipt(command))
                &&& final(state)@ == old(state)@.command_accepted(command, *inputs)
            },
        },
{
    match command {
        EngineCommand::Navigate { navigation, request } => {
            let returned = request.clone();
            let result = queue_navigation_locked(
                state,
                limits,
                navigation,
                request,
                inputs.ticket,
            );
            refuse(result, EngineCommand::Navigate { navigation, request: returned })
        },
        EngineCommand::Cancel { navigation } => {
            let result = try_cancel_navigation(state, navigation);
            refuse(result, EngineCommand::Cancel { navigation })
        },
        EngineCommand::CancelDocumentOperation { navigation, operation } => {
            let result = try_cancel_document_operation(state, navigation, operation);
            refuse(result, EngineCommand::CancelDocumentOperation { navigation, operation })
        },
        EngineCommand::MutateDocument { navigation, batch } => try_queue_document_mutation(
            state,
            limits,
            navigation,
            batch,
            inputs.command_bytes,
            &inputs.hard,
            inputs.ticket,
        ),
        EngineCommand::RerenderDocument { navigation, expected_live_version } => {
            let result = try_queue_document_rerender(
                state,
                limits,
                navigation,
                expected_live_version,
                inputs.ticket,
            );
            refuse(result, EngineCommand::RerenderDocument { navigation, expected_live_version })
        },
        EngineCommand::CloseContext { navigation } => {
            let result = try_close_context(state, navigation);
            refuse(result, EngineCommand::CloseContext { navigation })
        },
        EngineCommand::Shutdown => Ok(request_shutdown(state)),
    }
}

} // verus!
