//! Which commands are accepted, what each makes of the state, and what the
//! worker and the receiver get to see of it.

use vstd::prelude::*;

use crate::command::{CommandErrorKind, CommandReceipt, EngineCommand};
use crate::commit::NavigationRequest;
use crate::engine::{
    DocumentRerenderWork, EngineEffect, EngineModel, EngineWork, Lifecycle, NavigationWork,
};
use crate::event::{EngineEvent, EngineEventKind, EventReceiveError};
use crate::failure::{EngineShutdownStatus, WorkerStopReason};
use crate::identity::{
    DocumentOperationId, DocumentVersion, EventSequence, FrameLeaseId, MutationResultLeaseId,
    NavigationGeneration, NavigationId, TopLevelContextId,
};
use crate::limits::LimitValues;
use crate::script::{ScriptMutationBatch, ScriptMutationLimits};
use crate::worker::DequeuedWork;

verus! {

broadcast use {
    EventSequence::value_of,
    FrameLeaseId::value_of,
    MutationResultLeaseId::value_of,
};

/// A navigation is accepted exactly if the worker runs for an attached receiver,
/// the context is not closing, the queue has room, and it either supersedes the
/// latest generation of a known context or is the first one of a context that is
/// newer than all before and for which there is room.
pub proof fn navigations_are_accepted(
    state: EngineModel,
    limits: LimitValues,
    navigation: NavigationId,
)
    ensures
        ({
            let key = navigation.context_of().value();
            let generation = navigation.generation_of().value();
            state.navigation_error(limits, navigation) is None <==> {
                &&& state.receiver_open
                &&& state.lifecycle is Running
                &&& !state.closing_contexts.contains(key)
                &&& state.commands.len() < limits.command_capacity
                &&& if state.contexts.contains_key(key) {
                    state.contexts[key].latest_generation.value() < generation
                } else {
                    &&& generation == 1
                    &&& state.latest_new_context matches Some(latest) ==> latest.value() < key
                    &&& state.contexts.len() + state.closing_contexts.len() < limits.max_contexts
                }
            }
        }),
{
}

/// Each refusal of a navigation has its cause: generations only grow, contexts
/// never come back, and neither queue nor contexts exceed their bounds.
pub proof fn navigations_are_refused_for_their_cause(
    state: EngineModel,
    limits: LimitValues,
    navigation: NavigationId,
)
    ensures
        ({
            let key = navigation.context_of().value();
            let generation = navigation.generation_of().value();
            let known = state.contexts.contains_key(key);
            match state.navigation_error(limits, navigation) {
                None => true,
                Some(CommandErrorKind::EventReceiverDropped) => !state.receiver_open,
                Some(CommandErrorKind::ShuttingDown) => state.receiver_open && !(state.lifecycle
                    is Running),
                Some(CommandErrorKind::ContextClosing) => state.closing_contexts.contains(key),
                Some(CommandErrorKind::ContextIdentityRetired { latest }) => !known
                    && state.latest_new_context == Some(latest) && key <= latest.value(),
                Some(CommandErrorKind::GenerationExhausted) => known
                    && state.contexts[key].latest_generation.value() == u64::MAX,
                Some(CommandErrorKind::NonMonotonicGeneration { latest }) => known
                    && state.contexts[key].latest_generation == latest && generation
                    <= latest.value(),
                Some(CommandErrorKind::InitialGenerationRequired) => !known && generation != 1,
                Some(CommandErrorKind::ContextLimitReached { maximum }) => !known && maximum
                    == limits.max_contexts && state.contexts.len() + state.closing_contexts.len()
                    >= maximum,
                Some(CommandErrorKind::QueueFull { capacity }) => capacity
                    == limits.command_capacity && state.commands.len() >= capacity,
                Some(_) => false,
            }
        }),
{
}

/// An accepted navigation stands last in the queue under its own flag, is the
/// one that its context can cancel, cancels what its context was doing, and
/// leaves what the context shows and holds.
pub proof fn accepted_navigations_wait_last(
    state: EngineModel,
    limits: LimitValues,
    navigation: NavigationId,
    request: NavigationRequest,
    ticket: u64,
)
    requires
        state.navigation_error(limits, navigation) is None,
    ensures
        ({
            let next = state.navigation_queued(navigation, request, ticket);
            &&& next.commands == state.commands.push(
                EngineWork::Navigate(NavigationWork { navigation, request, cancellation: ticket }),
            )
            &&& next.is_current(navigation)
            &&& next.cancel_navigation_error(navigation) is None
            &&& next.context(navigation) matches Some(context)
            &&& match state.context(navigation) {
                Some(before) => {
                    &&& context.current_frame == before.current_frame
                    &&& context.document == before.document
                    &&& match before.active_cancellation {
                        Some(active) => next.effects == state.effects.push(
                            EngineEffect::Cancel { ticket: active.source_of().ticket },
                        ),
                        None => next.effects == state.effects,
                    }
                    &&& next.latest_new_context == state.latest_new_context
                },
                None => {
                    &&& context.current_frame is None
                    &&& context.document is None
                    &&& next.effects == state.effects
                    &&& next.latest_new_context == Some(navigation.context_of())
                },
            }
        }),
{
}

/// Work on a document is accepted exactly on the live version of the navigation
/// that the document belongs to, while its context does nothing else.
pub proof fn documents_are_worked_on_exactly(
    state: EngineModel,
    limits: LimitValues,
    navigation: NavigationId,
    expected: DocumentVersion,
)
    ensures
        state.document_error(limits, navigation, expected) is None <==> {
            &&& state.receiver_open
            &&& state.lifecycle is Running
            &&& !state.closing_contexts.contains(navigation.context_of().value())
            &&& state.commands.len() < limits.command_capacity
            &&& state.versions(navigation) matches Some((live, _))
            &&& live == expected
            &&& state.context(navigation)->0.active_cancellation is None
        },
        match state.document_error(limits, navigation, expected) {
            Some(CommandErrorKind::ContextBusy) => state.context(navigation) matches Some(context)
                && context.active_cancellation is Some,
            Some(CommandErrorKind::UnknownContext) => state.context(navigation) is None,
            Some(CommandErrorKind::NoLiveDocument) => state.context(navigation) matches Some(context)
                && context.document is None,
            Some(CommandErrorKind::DocumentNavigationMismatch { current }) => (state.context(
                navigation,
            ) matches Some(context) && (context.document matches Some(document)
                && document.navigation == current)) && current != navigation,
            Some(CommandErrorKind::DocumentVersionMismatch { live }) => (state.versions(
                navigation,
            ) matches Some((version, _)) && version == live) && live != expected,
            _ => true,
        },
        state.rerender_error(limits, navigation, expected) is None <==> state.document_error(
            limits,
            navigation,
            expected,
        ) is None && 0 < state.next_document_operation_sequence < u64::MAX,
{
}

/// An accepted mutation stands last in the queue under the next operation, which
/// its context can cancel; it reserves its created nodes, at least one result
/// unit, and its payload, and nothing else is accepted for the document until it
/// is settled.
pub proof fn accepted_mutations_reserve(
    state: EngineModel,
    limits: LimitValues,
    navigation: NavigationId,
    batch: ScriptMutationBatch,
    command_bytes: usize,
    hard: ScriptMutationLimits,
    ticket: u64,
)
    requires
        state.mutation_error(limits, navigation, batch, command_bytes, hard) is None,
        limits.max_retained_document_nodes <= usize::MAX,
    ensures
        ({
            let next = state.mutation_queued(navigation, batch, command_bytes, ticket);
            let created = crate::script::created_count(batch.commands@);
            let payload = command_bytes + crate::script::total(
                crate::script::text_lengths(batch.commands@),
            );
            let operation = DocumentOperationId::of(
                state.document_operation_owner,
                state.next_document_operation_sequence,
            );
            &&& next.commands.len() == state.commands.len() + 1
            &&& next.commands.drop_last() == state.commands
            &&& next.commands.last() matches EngineWork::Mutate(work)
            &&& work.navigation == navigation
            &&& work.operation == operation
            &&& work.batch == batch
            &&& work.cancellation == ticket
            &&& work.reserved_created_nodes == created
            &&& work.reserved_result_units >= 1
            &&& created > 0 ==> work.reserved_result_units == created
            &&& created == 0 ==> work.reserved_result_units == 1
            &&& work.reserved_payload_bytes == payload
            &&& next.pending_document_nodes == state.pending_document_nodes + created
            &&& next.pending_mutation_result_nodes == state.pending_mutation_result_nodes
                + work.reserved_result_units
            &&& next.pending_mutation_payload_bytes == state.pending_mutation_payload_bytes
                + payload
            &&& next.next_document_operation_sequence == state.next_document_operation_sequence
                + 1
            &&& next.operation_is_current(navigation, batch.expected_version, operation)
            &&& next.versions(navigation) == state.versions(navigation)
            &&& next.cancel_operation_error(navigation, operation) is None
            &&& forall|other: DocumentVersion| #[trigger]
                next.document_error(limits, navigation, other) is Some
            &&& next.retained_document_nodes + next.pending_document_nodes
                <= limits.max_retained_document_nodes
            &&& next.retained_mutation_result_nodes + next.pending_mutation_result_nodes
                <= limits.max_retained_mutation_result_nodes
            &&& next.pending_mutation_payload_bytes <= limits.max_pending_mutation_payload_bytes
        }),
{
    let next = state.mutation_queued(navigation, batch, command_bytes, ticket);
    assert(next.commands.drop_last() =~= state.commands);
}

/// A mutation beyond a budget is refused by the budget that it exceeds.
pub proof fn budgets_refuse_mutations(
    state: EngineModel,
    limits: LimitValues,
    navigation: NavigationId,
    batch: ScriptMutationBatch,
    command_bytes: usize,
    hard: ScriptMutationLimits,
)
    requires
        crate::script::payload_error(batch.commands@, command_bytes, hard) is None,
        state.document_error(limits, navigation, batch.expected_version) is None,
    ensures
        ({
            let created = crate::script::created_count(batch.commands@);
            let payload = command_bytes + crate::script::total(
                crate::script::text_lengths(batch.commands@),
            );
            let units = if created == 0 {
                1nat
            } else {
                created
            };
            let nodes = state.retained_document_nodes + state.pending_document_nodes + created
                > limits.max_retained_document_nodes;
            let results = state.retained_mutation_result_nodes
                + state.pending_mutation_result_nodes + units
                > limits.max_retained_mutation_result_nodes;
            let bytes = state.pending_mutation_payload_bytes + payload
                > limits.max_pending_mutation_payload_bytes;
            let answer = state.mutation_error(limits, navigation, batch, command_bytes, hard);
            &&& nodes ==> answer == Some(
                CommandErrorKind::RetainedDocumentNodeLimit {
                    maximum: limits.max_retained_document_nodes,
                },
            )
            &&& !nodes && results ==> answer == Some(
                CommandErrorKind::MutationResultNodeLimit {
                    maximum: limits.max_retained_mutation_result_nodes,
                },
            )
            &&& !nodes && !results && bytes ==> answer == Some(
                CommandErrorKind::MutationPayloadBudget {
                    maximum: limits.max_pending_mutation_payload_bytes,
                },
            )
            &&& !nodes && !results && !bytes ==> (answer is None <==> 0
                < state.next_document_operation_sequence < u64::MAX)
        }),
{
}

/// An accepted rerender stands last in the queue under the next operation, which
/// its context can cancel, and reserves nothing.
pub proof fn accepted_rerenders_wait_last(
    state: EngineModel,
    limits: LimitValues,
    navigation: NavigationId,
    expected: DocumentVersion,
    ticket: u64,
)
    requires
        state.rerender_error(limits, navigation, expected) is None,
    ensures
        ({
            let next = state.rerender_queued(navigation, expected, ticket);
            let operation = DocumentOperationId::of(
                state.document_operation_owner,
                state.next_document_operation_sequence,
            );
            &&& next.commands == state.commands.push(
                EngineWork::Rerender(
                    DocumentRerenderWork {
                        navigation,
                        operation,
                        expected_live_version: expected,
                        cancellation: ticket,
                    },
                ),
            )
            &&& next.next_document_operation_sequence == state.next_document_operation_sequence
                + 1
            &&& next.operation_is_current(navigation, expected, operation)
            &&& next.versions(navigation) == state.versions(navigation)
            &&& next.cancel_operation_error(navigation, operation) is None
            &&& next.pending_document_nodes == state.pending_document_nodes
            &&& next.pending_mutation_payload_bytes == state.pending_mutation_payload_bytes
            &&& forall|other: DocumentVersion| #[trigger]
                next.document_error(limits, navigation, other) is Some
        }),
{
}

/// What a context runs can be cancelled once: the flag of exactly that operation
/// is owed, and the next cancellation finds nothing to cancel.
pub proof fn operations_are_cancelled_once(
    state: EngineModel,
    navigation: NavigationId,
    operation: DocumentOperationId,
)
    ensures
        state.cancel_navigation_error(navigation) is None ==> {
            let next = state.operation_cancelled(navigation);
            let active = state.context(navigation)->0.active_cancellation->0;
            &&& active.names_navigation(navigation)
            &&& !active.source_of().cancelled
            &&& next.effects == state.effects.push(
                EngineEffect::Cancel { ticket: active.source_of().ticket },
            )
            &&& next.cancel_navigation_error(navigation) == Some(
                CommandErrorKind::NoActiveNavigation,
            )
            &&& next.context(navigation)->0.active_cancellation->0.source_of().cancelled
            &&& next.versions(navigation) == state.versions(navigation)
        },
        state.cancel_operation_error(navigation, operation) is None ==> {
            let next = state.operation_cancelled(navigation);
            let active = state.context(navigation)->0.active_cancellation->0;
            &&& active.names_document(navigation, operation)
            &&& !active.source_of().cancelled
            &&& next.effects == state.effects.push(
                EngineEffect::Cancel { ticket: active.source_of().ticket },
            )
            &&& next.cancel_operation_error(navigation, operation) == Some(
                CommandErrorKind::NoActiveDocumentOperation,
            )
            &&& next.context(navigation)->0.active_cancellation->0.source_of().cancelled
            &&& next.versions(navigation) == state.versions(navigation)
        },
        state.receiver_open && state.lifecycle is Running && (state.context(
            navigation,
        ) matches Some(context) && (context.active_cancellation matches Some(active)
            && active.names_navigation(navigation) && !active.source_of().cancelled))
            <==> state.cancel_navigation_error(navigation) is None,
        state.receiver_open && state.lifecycle is Running && (state.context(
            navigation,
        ) matches Some(context) && (context.active_cancellation matches Some(active)
            && active.names_document(navigation, operation) && !active.source_of().cancelled))
            <==> state.cancel_operation_error(navigation, operation) is None,
{
}

/// Work of other contexts stays in its order when a context closes, and none of
/// the closed context stays.
pub proof fn closing_keeps_other_work(
    left: Seq<EngineWork>,
    right: Seq<EngineWork>,
    context: TopLevelContextId,
)
    ensures
        crate::admission::work_elsewhere(left + right, context)
            == crate::admission::work_elsewhere(left, context) + crate::admission::work_elsewhere(
            right,
            context,
        ),
        forall|work: EngineWork|
            work.navigation_of().context_of() == context ==> #[trigger]
            crate::admission::work_elsewhere(seq![work], context).len() == 0,
        forall|work: EngineWork|
            work.navigation_of().context_of() != context ==> #[trigger]
            crate::admission::work_elsewhere(seq![work], context) == seq![work],
    decreases right.len(),
{
    assert forall|work: EngineWork| work.navigation_of().context_of() == context implies
        #[trigger] crate::admission::work_elsewhere(seq![work], context).len() == 0 by {
        assert(seq![work].drop_last() =~= Seq::<EngineWork>::empty());
        assert(crate::admission::work_elsewhere(Seq::<EngineWork>::empty(), context).len() == 0);
    }
    assert forall|work: EngineWork| work.navigation_of().context_of() != context implies
        #[trigger] crate::admission::work_elsewhere(seq![work], context) == seq![work] by {
        assert(seq![work].drop_last() =~= Seq::<EngineWork>::empty());
        assert(crate::admission::work_elsewhere(Seq::<EngineWork>::empty(), context).len() == 0);
        assert(crate::admission::work_elsewhere(seq![work], context) =~= seq![work]);
    }
    if right.len() == 0 {
        assert(left + right =~= left);
        assert(crate::admission::work_elsewhere(right, context) =~= Seq::empty());
        assert(crate::admission::work_elsewhere(left, context)
            + crate::admission::work_elsewhere(right, context)
            =~= crate::admission::work_elsewhere(left, context));
    } else {
        closing_keeps_other_work(left, right.drop_last(), context);
        assert((left + right).drop_last() =~= left + right.drop_last());
        assert((left + right).last() == right.last());
        assert(crate::admission::work_elsewhere(left + right, context)
            =~= crate::admission::work_elsewhere(left, context)
            + crate::admission::work_elsewhere(right, context));
    }
}

/// A closed context is gone with its frame, document, mappings and work; the
/// worker is told of it, and until then every command for it is refused.
pub proof fn closed_contexts_are_gone(
    state: EngineModel,
    limits: LimitValues,
    navigation: NavigationId,
    expected: DocumentVersion,
    key: u64,
)
    requires
        state.close_error(navigation) is None,
    ensures
        ({
            let next = state.context_closed(navigation);
            let own = navigation.context_of().value();
            &&& next.context(navigation) is None
            &&& next.versions(navigation) is None
            &&& next.closing_contexts == state.closing_contexts.insert(own)
            &&& next.context_closures == state.context_closures.push(navigation)
            &&& next.close_error(navigation) == Some(CommandErrorKind::ContextClosing)
            &&& next.navigation_error(limits, navigation) == Some(CommandErrorKind::ContextClosing)
            &&& next.document_error(limits, navigation, expected) == Some(
                CommandErrorKind::ContextClosing,
            )
            &&& next.events == state.events
            &&& next.commands == crate::admission::work_elsewhere(
                state.commands,
                navigation.context_of(),
            )
            &&& key != own ==> (next.contexts.contains_key(key) == state.contexts.contains_key(key)
                && (state.contexts.contains_key(key) ==> next.contexts[key]
                == state.contexts[key]))
            &&& next.mutation_results.contains_key(key) <==> state.mutation_results.contains_key(
                key,
            ) && state.mutation_results[key].navigation.context_of() != navigation.context_of()
            &&& state.contexts[own].active_cancellation matches Some(active)
                ==> next.effects.last() == (EngineEffect::Cancel {
                ticket: active.source_of().ticket,
            })
        }),
        state.receiver_open && state.lifecycle is Running && !state.closing_contexts.contains(
            navigation.context_of().value(),
        ) && state.is_current(navigation),
{
}

/// A context can be closed exactly by its current navigation.
pub proof fn current_navigations_close(state: EngineModel, navigation: NavigationId)
    ensures
        state.close_error(navigation) is None <==> state.receiver_open && state.lifecycle is Running
            && !state.closing_contexts.contains(navigation.context_of().value())
            && state.is_current(navigation),
        state.close_error(navigation) == Some(CommandErrorKind::NotCurrentNavigation) ==> (
        state.context(navigation) matches Some(context) && context.latest_generation
            != navigation.generation_of()),
        state.close_error(navigation) == Some(CommandErrorKind::UnknownContext) ==> state.context(
            navigation,
        ) is None,
{
}

/// The generation that is handed out next is the one that is accepted next.
pub proof fn next_generations_are_accepted(state: EngineModel, context: TopLevelContextId)
    requires
        state.contexts.contains_key(context.value()),
    ensures
        crate::admission::next_generation(state, context) is None
            <==> state.contexts[context.value()].latest_generation.value() == u64::MAX,
        crate::admission::next_generation(state, context) matches Some(generation) ==> generation
            == NavigationGeneration::of(
            (state.contexts[context.value()].latest_generation.value() + 1) as u64,
        ),
{
}

/// Receipts name what was accepted.
pub proof fn receipts_name_commands(state: EngineModel, command: EngineCommand)
    ensures
        match (command, state.command_receipt(command)) {
            (
                EngineCommand::Navigate { navigation, .. },
                CommandReceipt::NavigationQueued(told),
            ) => told == navigation,
            (
                EngineCommand::Cancel { navigation },
                CommandReceipt::NavigationCancellationRequested(told),
            ) => told == navigation,
            (
                EngineCommand::CancelDocumentOperation { navigation, operation },
                CommandReceipt::DocumentOperationCancellationRequested {
                    navigation: told,
                    operation: named,
                },
            ) => told == navigation && named == operation,
            (
                EngineCommand::MutateDocument { navigation, batch },
                CommandReceipt::DocumentMutationQueued {
                    navigation: told,
                    operation,
                    expected_live_version,
                },
            ) => told == navigation && operation == state.next_operation()
                && expected_live_version == batch.expected_version,
            (
                EngineCommand::RerenderDocument { navigation, expected_live_version },
                CommandReceipt::DocumentRerenderQueued {
                    navigation: told,
                    operation,
                    expected_live_version: version,
                },
            ) => told == navigation && operation == state.next_operation() && version
                == expected_live_version,
            (
                EngineCommand::CloseContext { navigation },
                CommandReceipt::ContextCloseRequested(told),
            ) => told == navigation,
            (EngineCommand::Shutdown, receipt) => true,
            _ => false,
        },
{
}

/// The worker takes closures before queued work, and each queue oldest first; it
/// sleeps only where both are empty, and takes nothing once it stops.
pub proof fn work_is_taken_in_order(state: EngineModel)
    ensures
        ({
            let (next, taken) = state.dequeued();
            match taken {
                Ok(DequeuedWork::CloseContext(navigation)) => {
                    &&& state.lifecycle is Running
                    &&& seq![navigation] + next.context_closures == state.context_closures
                    &&& next.commands == state.commands
                },
                Ok(DequeuedWork::Engine(work)) => {
                    &&& state.lifecycle is Running
                    &&& state.context_closures.len() == 0
                    &&& next.context_closures == state.context_closures
                    &&& seq![work] + next.commands == state.commands
                },
                Ok(DequeuedWork::Wait) => {
                    &&& state.lifecycle is Running
                    &&& state.context_closures.len() == 0
                    &&& state.commands.len() == 0
                    &&& next == state
                },
                Err(reason) => {
                    &&& next == state
                    &&& match state.lifecycle {
                        Lifecycle::Stopping(first) => reason == first,
                        Lifecycle::Stopped(status) => reason == status.reason,
                        Lifecycle::Running => false,
                    }
                },
            }
        }),
{
    let (next, taken) = state.dequeued();
    if let Ok(DequeuedWork::CloseContext(navigation)) = taken {
        assert(seq![navigation] + next.context_closures =~= state.context_closures);
    }
    if let Ok(DequeuedWork::Engine(work)) = taken {
        assert(seq![work] + next.commands =~= state.commands);
    }
}

/// Events are received oldest first, each once; the terminal event comes behind
/// all others, and only then is the end told. A frame that is announced ends the
/// time in which its commitment can be taken.
pub proof fn events_are_received_in_order(state: EngineModel)
    ensures
        ({
            let (next, received) = state.event_received();
            &&& state.events.len() > 0 ==> (received matches Ok(event) && seq![event] + next.events
                == state.events && next.terminal_event == state.terminal_event)
            &&& state.events.len() == 0 && state.terminal_event is Some ==> received == Ok::<
                _,
                EventReceiveError,
            >(state.terminal_event->0) && next.terminal_event is None && next.events.len() == 0
            &&& state.events.len() == 0 && state.terminal_event is None ==> next == state
                && received == Err::<EngineEvent, _>(
                match state.lifecycle {
                    Lifecycle::Stopped(status) => EventReceiveError::Closed(status),
                    _ => EventReceiveError::Empty,
                },
            )
            &&& forall|key: (u64, u64)| #[trigger]
                next.navigation_commits.contains_key(key) <==> state.navigation_commits.contains_key(
                    key,
                ) && !(received matches Ok(event) && (event.kind matches EngineEventKind::FrameReady {
                    navigation,
                    ..
                } && key == crate::engine::navigation_key(navigation) && state.events.len() > 0))
        }),
{
    let (next, received) = state.event_received();
    if state.events.len() > 0 {
        assert(seq![state.events[0]] + next.events =~= state.events);
    }
}

/// What is queued after everything else is received after everything else.
pub proof fn events_keep_their_order(state: EngineModel, kind: EngineEventKind)
    requires
        state.events.len() > 0,
    ensures
        state.event_queued(kind).event_received().1 == state.event_received().1,
        state.event_queued(kind).event_received().0.events == state.event_received().0.events.push(
            EngineEvent { sequence: EventSequence::of(state.next_event_sequence), kind },
        ),
{
    let queued = state.event_queued(kind);
    assert(queued.events[0] == state.events[0]);
    assert(queued.event_received().0.events =~= state.event_received().0.events.push(
        EngineEvent { sequence: EventSequence::of(state.next_event_sequence), kind },
    ));
}

/// A mapping can be taken once, and taking it gives its units back.
pub proof fn mappings_are_taken_once(state: EngineModel, key: u64, other: u64)
    requires
        state.mutation_results.contains_key(key),
        crate::engine::result_units(state.mutation_results[key].created_nodes@)
            <= state.retained_mutation_result_nodes,
    ensures
        ({
            let next = state.result_taken(key);
            let nodes = state.mutation_results[key].created_nodes@.len();
            &&& !next.mutation_results.contains_key(key)
            &&& other != key ==> next.mutation_results.contains_key(other)
                == state.mutation_results.contains_key(other)
            &&& nodes > 0 ==> next.retained_mutation_result_nodes
                == state.retained_mutation_result_nodes - nodes
            &&& nodes == 0 ==> next.retained_mutation_result_nodes
                == state.retained_mutation_result_nodes - 1
            &&& next.contexts == state.contexts
        }),
{
}

/// A frame can be taken once, and taking it gives its bytes back.
pub proof fn frames_are_taken_once(state: EngineModel, key: u64, lease: FrameLeaseId)
    requires
        state.holds_lease(key, lease),
        state.contexts[key].current_frame->0.frame.charge() <= state.retained_frame_bytes,
    ensures
        ({
            let next = state.frame_taken(key);
            &&& !next.holds_lease(key, lease)
            &&& next.retained_frame_bytes == state.retained_frame_bytes
                - state.contexts[key].current_frame->0.frame.charge()
            &&& next.contexts[key].active_cancellation == state.contexts[key].active_cancellation
            &&& next.mutation_results == state.mutation_results
        }),
        state.contexts[key].current_frame matches Some(stored) && stored.lease == lease,
{
}

/// Closing is told once, by an event behind all others, and frees the context's
/// place.
pub proof fn closures_are_told_once(
    state: EngineModel,
    limits: LimitValues,
    navigation: NavigationId,
)
    requires
        !(state.lifecycle is Stopping),
    ensures
        ({
            let (next, told) = state.closure_published(limits, navigation);
            let key = navigation.context_of().value();
            &&& told is Ok <==> state.closing_contexts.contains(key) && state.events.len()
                < limits.event_capacity && 0 < state.next_event_sequence < u64::MAX
            &&& told is Ok ==> {
                &&& next.events == state.events.push(
                    EngineEvent {
                        sequence: EventSequence::of(state.next_event_sequence),
                        kind: EngineEventKind::ContextClosed { navigation },
                    },
                )
                &&& !next.closing_contexts.contains(key)
                &&& next.closure_published(limits, navigation).1 is Err
            }
        }),
{
}

/// A worker that ended holds nothing back: no work, no reservation and no
/// operation is left, the last event is the terminal one, and it ends once.
pub proof fn workers_end_once(
    state: EngineModel,
    status: EngineShutdownStatus,
    again: EngineShutdownStatus,
)
    ensures
        state.worker_finished(status).lifecycle is Stopped,
        state.worker_finished(status).worker_finished(again) == state.worker_finished(status),
        !(state.lifecycle is Stopped) ==> {
            let next = state.worker_finished(status);
            &&& next.lifecycle == Lifecycle::Stopped(status)
            &&& next.commands.len() == 0
            &&& next.context_closures.len() == 0
            &&& next.pending_document_nodes == 0
            &&& next.pending_mutation_result_nodes == 0
            &&& next.pending_mutation_payload_bytes == 0
            &&& forall|key: u64| #[trigger]
                next.contexts.contains_key(key) ==> next.contexts[key].active_cancellation is None
            &&& next.events == state.events
            &&& state.receiver_open && 0 < state.next_event_sequence < u64::MAX ==> (
            next.terminal_event matches Some(event) && event.kind == (
            EngineEventKind::ShutdownComplete { status }) && event.sequence.value()
                == state.next_event_sequence)
            &&& !state.receiver_open ==> next.retained_frame_bytes == 0 && next.terminal_event
                == state.terminal_event
        },
{
}

/// The first reason to stop stays, and every operation is asked to end.
pub proof fn first_stop_stays(
    state: EngineModel,
    reason: WorkerStopReason,
    later: WorkerStopReason,
)
    ensures
        state.lifecycle is Running ==> {
            let next = state.stopping(reason);
            &&& next.lifecycle == Lifecycle::Stopping(reason)
            &&& next.stopping(later) == next
            &&& next.current_style_documents.dom() == Set::<u64>::empty()
            &&& forall|key: u64| #[trigger]
                next.contexts.contains_key(key) ==> (next.contexts[key].active_cancellation matches Some(
                active,
            ) ==> active.source_of().cancelled)
            &&& next.commands == state.commands
            &&& next.events == state.events
        },
        !(state.lifecycle is Running) ==> state.stopping(reason) == state,
{
}

/// A closed context gives back what its waiting work had reserved, and nothing
/// of any other context's.
pub proof fn closing_gives_back_reservations(
    commands: Seq<EngineWork>,
    work: EngineWork,
    context: TopLevelContextId,
)
    ensures
        ({
            let before = crate::admission::removed_reservation(commands, context);
            let after = crate::admission::removed_reservation(commands.push(work), context);
            let own = work.reservation();
            if work.navigation_of().context_of() == context {
                &&& after.created_nodes == before.created_nodes + own.created_nodes
                &&& after.result_units == before.result_units + own.result_units
                &&& after.payload_bytes == before.payload_bytes + own.payload_bytes
            } else {
                after == before
            }
        }),
        crate::admission::removed_reservation(Seq::empty(), context).created_nodes == 0,
        crate::admission::removed_reservation(Seq::empty(), context).result_units == 0,
        crate::admission::removed_reservation(Seq::empty(), context).payload_bytes == 0,
{
    assert(commands.push(work).drop_last() =~= commands);
}

} // verus!
