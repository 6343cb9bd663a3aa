//! What beginning, finishing and giving up an operation publishes, refuses and
//! asks for.

use vstd::prelude::*;

use crate::commit::NavigationRequest;
use crate::document_work::DocumentPublicationReservation;
use crate::engine::{
    ContextState, DocumentMutationWork, DocumentRerenderWork, EngineEffect, EngineModel, Lifecycle,
};
use crate::event::{EngineEvent, EngineEventKind, NavigationEventPhase};
use crate::executor::{ExecutorDocumentMutation, ExecutorOutput};
use crate::failure::{
    DocumentOperationFailure, ExecutionFailure, ExecutionFailureKind, NavigationStage,
    WorkerStopReason,
};
use crate::frame::EngineFrame;
use crate::identity::{
    DocumentOperationId, DocumentVersion, EventSequence, FrameLeaseId, MutationResultLeaseId,
    NavigationId,
};
use crate::limits::LimitValues;

verus! {

broadcast use {
    EventSequence::value_of,
    FrameLeaseId::value_of,
    MutationResultLeaseId::value_of,
};

/// A navigation that begins is told so and executed exactly if it is still the
/// latest of its context and nobody cancelled it; otherwise its cancellation is
/// told and it is not executed.
pub proof fn navigations_begin(
    state: EngineModel,
    limits: LimitValues,
    navigation: NavigationId,
    cancelled: bool,
)
    requires
        state.lifecycle is Running,
        state.events.len() < limits.event_capacity,
        0 < state.next_event_sequence < u64::MAX,
    ensures
        ({
            let (next, phase, answer) = state.navigation_begun(
                limits,
                navigation,
                cancelled,
                NavigationEventPhase::Queued,
            );
            let execute = state.is_current(navigation) && !cancelled;
            let kind = if execute {
                EngineEventKind::NavigationStarted { navigation }
            } else {
                EngineEventKind::NavigationCancelled { navigation }
            };
            &&& answer == Ok::<_, WorkerStopReason>(execute)
            &&& next.events == state.events.push(
                EngineEvent { sequence: EventSequence::of(state.next_event_sequence), kind },
            )
            &&& next.next_event_sequence == state.next_event_sequence + 1
            &&& execute ==> phase is Started
            &&& !execute ==> phase is Terminal
            &&& !execute ==> (next.context(navigation) matches Some(context) ==> !(
            context.active_cancellation matches Some(active) && active.names_navigation(
                navigation,
            )))
            &&& execute ==> next.contexts == state.contexts
        }),
{
}

/// A full event queue stops the worker before anything begins.
pub proof fn full_queues_stop(
    state: EngineModel,
    limits: LimitValues,
    navigation: NavigationId,
    cancelled: bool,
)
    requires
        state.lifecycle is Running,
        state.events.len() >= limits.event_capacity,
    ensures
        ({
            let (next, phase, answer) = state.navigation_begun(
                limits,
                navigation,
                cancelled,
                NavigationEventPhase::Queued,
            );
            &&& answer == Err::<bool, _>(WorkerStopReason::EventQueueSaturated)
            &&& next.lifecycle == Lifecycle::Stopping(WorkerStopReason::EventQueueSaturated)
            &&& next.events == state.events
        }),
{
}

/// A navigation that ended with a failure tells a cancellation as a cancellation
/// and any other failure as itself, shows nothing new, and tells the executor
/// that nothing was published; a lost renderer stops the worker.
pub proof fn failed_navigations_tell_their_failure(
    state: EngineModel,
    limits: LimitValues,
    navigation: NavigationId,
    request: NavigationRequest,
    failure: ExecutionFailure,
)
    requires
        state.lifecycle is Running,
        state.is_current(navigation),
        state.events.len() < limits.event_capacity,
        0 < state.next_event_sequence < u64::MAX,
    ensures
        ({
            let (next, phase, answer) = state.navigation_finished(
                limits,
                navigation,
                request,
                false,
                NavigationEventPhase::Started,
                Err(failure),
            );
            let kind = if failure.kind is Cancelled {
                EngineEventKind::NavigationCancelled { navigation }
            } else {
                EngineEventKind::NavigationFailed { navigation, failure }
            };
            let told = EngineEffect::AcknowledgeNavigation { navigation, published: false };
            &&& answer is Ok
            &&& phase is Terminal
            &&& next.events == state.events.push(
                EngineEvent { sequence: EventSequence::of(state.next_event_sequence), kind },
            )
            &&& next.versions(navigation) == state.versions(navigation)
            &&& next.effects.len() > state.effects.len()
            &&& next.effects[state.effects.len() as int] == told
            &&& failure.renderer_unusable <==> next.lifecycle == Lifecycle::Stopping(
                WorkerStopReason::RendererUnavailable,
            )
            &&& !failure.renderer_unusable ==> next.lifecycle is Running && next.effects
                == state.effects.push(told)
            &&& next.published_navigations == state.published_navigations
        }),
{
    crate::engine_laws::stopping_keeps_versions(
        state.event_queued(
            if failure.kind is Cancelled {
                EngineEventKind::NavigationCancelled { navigation }
            } else {
                EngineEventKind::NavigationFailed { navigation, failure }
            },
        ).navigation_settled(navigation).owing(
            seq![EngineEffect::AcknowledgeNavigation { navigation, published: false }],
        ),
        WorkerStopReason::RendererUnavailable,
        navigation,
    );
}

/// A navigation that was cancelled or superseded while it ran publishes nothing,
/// whatever the executor handed back.
pub proof fn superseded_navigations_publish_nothing(
    state: EngineModel,
    limits: LimitValues,
    navigation: NavigationId,
    request: NavigationRequest,
    cancelled: bool,
    output: ExecutorOutput,
)
    requires
        state.lifecycle is Running,
        !state.is_current(navigation) || cancelled,
        state.events.len() < limits.event_capacity,
        0 < state.next_event_sequence < u64::MAX,
    ensures
        ({
            let (next, phase, answer) = state.navigation_finished(
                limits,
                navigation,
                request,
                cancelled,
                NavigationEventPhase::Started,
                Ok(output),
            );
            &&& answer is Ok
            &&& phase is Terminal
            &&& next.events == state.events.push(
                EngineEvent {
                    sequence: EventSequence::of(state.next_event_sequence),
                    kind: EngineEventKind::NavigationCancelled { navigation },
                },
            )
            &&& next.versions(navigation) == state.versions(navigation)
            &&& next.retained_frame_bytes == state.retained_frame_bytes
            &&& next.effects == state.effects.push(
                EngineEffect::AcknowledgeNavigation { navigation, published: false },
            )
        }),
{
}

/// An output is published exactly if its frame fits, its nodes fit, and both
/// events fit; one beyond a bound fails with a resource limit, of the frame at
/// the rendering stage and of the nodes at the document stage.
pub proof fn outputs_are_published_within_bounds(
    state: EngineModel,
    limits: LimitValues,
    navigation: NavigationId,
    request: NavigationRequest,
    output: ExecutorOutput,
)
    requires
        state.lifecycle is Running,
        state.is_current(navigation),
        state.events.len() + 2 <= limits.event_capacity,
        0 < state.next_event_sequence < u64::MAX - 1,
        0 < state.next_frame_lease < u64::MAX,
        !state.navigation_commits.contains_key(crate::engine::navigation_key(navigation)),
        state.navigation_commits.len() < limits.event_capacity,
        (output.frame.metadata_of().document_version is Some) == (output.document_node_charge
            is Some),
        crate::engine::frame_charge(state.context(navigation)->0) <= state.retained_frame_bytes,
        crate::engine::document_charge(state.context(navigation)->0)
            <= state.retained_document_nodes,
        limits.max_frame_bytes + limits.max_retained_frame_bytes <= usize::MAX,
    ensures
        ({
            let before = state.context(navigation)->0;
            let bytes = state.retained_frame_bytes - crate::engine::frame_charge(before)
                + output.frame.charge();
            let nodes = state.retained_document_nodes - crate::engine::document_charge(before)
                + match output.document_node_charge {
                Some(charge) => charge as int,
                None => 0,
            };
            let fits = output.frame.charge() <= limits.max_frame_bytes && bytes
                <= limits.max_retained_frame_bytes;
            let (next, phase, answer) = state.navigation_finished(
                limits,
                navigation,
                request,
                false,
                NavigationEventPhase::Started,
                Ok(output),
            );
            let refused = |stage: NavigationStage|
                EngineEventKind::NavigationFailed {
                    navigation,
                    failure: ExecutionFailure {
                        kind: ExecutionFailureKind::ResourceLimit,
                        stage,
                        renderer_unusable: false,
                    },
                };
            &&& fits && nodes + state.pending_document_nodes <= limits.max_retained_document_nodes
                ==> {
                &&& answer is Ok
                &&& next.events.len() == state.events.len() + 2
                &&& next.retained_frame_bytes == bytes
                &&& next.retained_document_nodes == nodes
                &&& next.published_navigations.contains(
                    crate::engine::navigation_key(navigation),
                )
            }
            &&& !fits && bytes <= usize::MAX ==> {
                &&& answer is Ok
                &&& next.events.len() == state.events.len() + 1
                &&& next.events.last().kind == refused(NavigationStage::Render)
                &&& next.retained_frame_bytes == state.retained_frame_bytes
                &&& next.versions(navigation) == state.versions(navigation)
            }
            &&& fits && limits.max_retained_document_nodes < nodes + state.pending_document_nodes
                && nodes <= usize::MAX ==> {
                &&& answer is Ok
                &&& next.events.len() == state.events.len() + 1
                &&& next.events.last().kind == refused(NavigationStage::Document)
                &&& next.retained_document_nodes == state.retained_document_nodes
                &&& next.versions(navigation) == state.versions(navigation)
            }
        }),
{
}

/// What a published navigation leaves behind: the document before it is retired
/// with its mappings, and the new commitment becomes the context's document
/// exactly if the output brought one.
pub proof fn published_navigations_replace_documents(
    state: EngineModel,
    navigation: NavigationId,
    request: NavigationRequest,
    output: ExecutorOutput,
    bytes: usize,
    key: u64,
)
    ensures
        ({
            let next = state.success_published(navigation, request, output, bytes);
            let own = crate::engine::context_key(navigation);
            let commitment = match output.navigation_commit {
                Some(commitment) => commitment@,
                None => crate::commit::NavigationCommitMetadata::unverified_model(request),
            };
            &&& next.navigation_commits[crate::engine::navigation_key(navigation)] == commitment
            &&& output.frame.metadata_of().document_version is Some ==> (
            next.current_style_documents.contains_key(own) && next.current_style_documents[own]
                == commitment)
            &&& output.frame.metadata_of().document_version is None
                ==> !next.current_style_documents.contains_key(own)
            &&& key != own ==> next.current_style_documents.contains_key(key)
                == state.current_style_documents.contains_key(key)
            &&& state.current_style_documents.contains_key(own) ==> (
            state.current_style_documents[own].ledger_key() matches Some(ledger)
                ==> next.effects == state.effects.push(
                EngineEffect::RetireStyleDocument { ledger },
            ))
            &&& !state.current_style_documents.contains_key(own) ==> next.effects == state.effects
            &&& next.mutation_results.contains_key(key) <==> state.mutation_results.contains_key(
                key,
            ) && state.mutation_results[key].navigation.context_of() != navigation.context_of()
            &&& next.commands == state.commands
        }),
{
    let own = crate::engine::context_key(navigation);
    if state.current_style_documents.contains_key(own) {
        if let Some(ledger) = state.current_style_documents[own].ledger_key() {
            assert(state.style_retired(navigation).effects =~= state.effects.push(
                EngineEffect::RetireStyleDocument { ledger },
            ));
        }
    }
}

/// An operation that begins gets the next identities, in one piece or not at all.
pub proof fn reservations_are_the_next_identities(
    state: EngineModel,
    limits: LimitValues,
    needs_result: bool,
)
    ensures
        ({
            let answer = state.publication_reservation(limits, needs_result);
            &&& answer is Ok <==> {
                &&& state.events.len() < limits.event_capacity
                &&& 0 < state.next_event_sequence < u64::MAX
                &&& 0 < state.next_frame_lease < u64::MAX
                &&& needs_result ==> 0 < state.next_mutation_result_lease < u64::MAX
            }
            &&& answer matches Ok(reservation) ==> {
                &&& reservation.sequence.value() == state.next_event_sequence
                &&& reservation.frame.value() == state.next_frame_lease
                &&& needs_result <==> reservation.result is Some
                &&& reservation.result matches Some(lease) ==> lease.value()
                    == state.next_mutation_result_lease
            }
            &&& state.events.len() >= limits.event_capacity ==> answer == Err::<
                DocumentPublicationReservation,
                _,
            >(WorkerStopReason::EventQueueSaturated)
        }),
{
}

/// A mutation that begins and can be published is executed as it is; a cancelled
/// one, and one that no longer fits, is told so with both versions and gives back
/// what it reserved; one that nobody waits for is given up in silence.
pub proof fn mutations_begin(
    state: EngineModel,
    limits: LimitValues,
    work: DocumentMutationWork,
    cancelled: bool,
)
    requires
        state.lifecycle is Running,
        state.holds(work.reservation()),
        state.publication_reservation(limits, true) is Ok,
    ensures
        ({
            let (next, answer) = state.mutation_begun(limits, work, cancelled);
            let current = state.operation_is_current(
                work.navigation,
                work.batch.expected_version,
                work.operation,
            );
            let nodes = state.retained_document_nodes + state.pending_document_nodes
                <= limits.max_retained_document_nodes;
            let replaced = match state.context(work.navigation) {
                Some(context) => crate::engine::frame_charge(context),
                None => 0,
            };
            let frame = replaced <= state.retained_frame_bytes && state.retained_frame_bytes
                - replaced + limits.max_frame_bytes <= limits.max_retained_frame_bytes;
            let failure = if cancelled {
                DocumentOperationFailure::Cancelled
            } else {
                DocumentOperationFailure::ResourceLimit
            };
            &&& answer is Ok
            &&& answer->Ok_0 is Some <==> current && !cancelled && nodes && frame
            &&& answer->Ok_0 is Some ==> next == state
            &&& answer->Ok_0 is None ==> {
                &&& next.pending_document_nodes == state.pending_document_nodes
                    - work.reserved_created_nodes
                &&& next.pending_mutation_result_nodes == state.pending_mutation_result_nodes
                    - work.reserved_result_units
                &&& next.pending_mutation_payload_bytes == state.pending_mutation_payload_bytes
                    - work.reserved_payload_bytes
                &&& !next.operation_is_current(
                    work.navigation,
                    work.batch.expected_version,
                    work.operation,
                )
            }
            &&& !current ==> next.events == state.events
            &&& current && answer->Ok_0 is None ==> {
                let (live, shown) = state.versions(work.navigation)->0;
                next.events == state.events.push(
                    EngineEvent {
                        sequence: EventSequence::of(state.next_event_sequence),
                        kind: EngineEventKind::DocumentMutationRejected {
                            navigation: work.navigation,
                            operation: work.operation,
                            live_version: Some(live),
                            frame_version: Some(shown),
                            failure,
                        },
                    },
                )
            }
        }),
{
}

/// A rerender begins like a mutation, but needs no nodes.
pub proof fn rerenders_begin(
    state: EngineModel,
    limits: LimitValues,
    work: DocumentRerenderWork,
    cancelled: bool,
)
    requires
        state.lifecycle is Running,
        state.publication_reservation(limits, false) is Ok,
    ensures
        ({
            let (next, answer) = state.rerender_begun(limits, work, cancelled);
            let current = state.operation_is_current(
                work.navigation,
                work.expected_live_version,
                work.operation,
            );
            let replaced = match state.context(work.navigation) {
                Some(context) => crate::engine::frame_charge(context),
                None => 0,
            };
            let frame = replaced <= state.retained_frame_bytes && state.retained_frame_bytes
                - replaced + limits.max_frame_bytes <= limits.max_retained_frame_bytes;
            let failure = if cancelled {
                DocumentOperationFailure::Cancelled
            } else {
                DocumentOperationFailure::ResourceLimit
            };
            &&& answer is Ok
            &&& answer->Ok_0 is Some <==> current && !cancelled && frame
            &&& answer->Ok_0 is Some ==> next == state
            &&& answer->Ok_0 is None ==> !next.operation_is_current(
                work.navigation,
                work.expected_live_version,
                work.operation,
            )
            &&& !current ==> next.events == state.events
            &&& current && answer->Ok_0 is None ==> {
                let (live, shown) = state.versions(work.navigation)->0;
                next.events == state.events.push(
                    EngineEvent {
                        sequence: EventSequence::of(state.next_event_sequence),
                        kind: EngineEventKind::DocumentRerenderRejected {
                            navigation: work.navigation,
                            operation: work.operation,
                            live_version: Some(live),
                            frame_version: Some(shown),
                            failure,
                        },
                    },
                )
            }
        }),
{
}

/// An operation is current exactly while its context runs it on the live version
/// that it was admitted for.
pub proof fn operations_are_current(
    state: EngineModel,
    navigation: NavigationId,
    expected: DocumentVersion,
    operation: DocumentOperationId,
)
    ensures
        state.operation_is_current(navigation, expected, operation) <==> {
            &&& state.versions(navigation) matches Some((live, _))
            &&& live == expected
            &&& state.context(navigation)->0.active_cancellation matches Some(active)
            &&& active.names_document(navigation, operation)
        },
        state.versions(navigation) matches Some((live, shown)) ==> (state.context(
            navigation,
        ) matches Some(context) && (context.document matches Some(document)
            && document.navigation == navigation && document.live_version == live
            && document.frame_version == shown)),
        (state.context(navigation) matches Some(context) && (context.document matches Some(document)
            && document.navigation == navigation)) ==> state.versions(navigation) is Some,
        !state.operation_settled(navigation, operation).operation_is_current(
            navigation,
            expected,
            operation,
        ),
{
}

/// What an executor did beyond its contract throws the page away: the executor is
/// asked to discard it, the document's ledger is retired, what it held is freed,
/// and the worker stops for that reason.
pub proof fn broken_contracts_throw_pages_away(
    state: EngineModel,
    navigation: NavigationId,
    key: u64,
)
    requires
        state.lifecycle is Running,
        state.versions(navigation) is Some,
        crate::engine::frame_charge(state.context(navigation)->0) <= state.retained_frame_bytes,
        crate::engine::document_charge(state.context(navigation)->0)
            <= state.retained_document_nodes,
    ensures
        ({
            let next = state.contract_broken(navigation);
            let before = state.context(navigation)->0;
            let own = crate::engine::context_key(navigation);
            let count = state.effects.len() as int;
            &&& next.lifecycle == Lifecycle::Stopping(WorkerStopReason::ExecutorContractViolation)
            &&& next.versions(navigation) is None
            &&& next.context(navigation) matches Some(after)
            &&& after.current_frame is None && after.document is None
            &&& next.retained_frame_bytes == state.retained_frame_bytes
                - crate::engine::frame_charge(before)
            &&& next.retained_document_nodes == state.retained_document_nodes
                - crate::engine::document_charge(before)
            &&& next.effects[count] == (EngineEffect::InvalidateDocument {
                context: navigation.context_of(),
            })
            &&& state.current_style_documents.contains_key(own) ==> (
            state.current_style_documents[own].ledger_key() matches Some(ledger)
                ==> next.effects[count + 1] == (EngineEffect::RetireStyleDocument { ledger }))
            &&& next.mutation_results.contains_key(key) <==> state.mutation_results.contains_key(
                key,
            ) && state.mutation_results[key].navigation.context_of() != navigation.context_of()
            &&& next.events == state.events
        }),
{
    let owing = state.owing(
        seq![EngineEffect::InvalidateDocument { context: navigation.context_of() }],
    );
    let cleared = owing.document_invalidated(navigation);
    crate::engine_laws::stopping_keeps_versions(
        cleared,
        WorkerStopReason::ExecutorContractViolation,
        navigation,
    );
    let own = crate::engine::context_key(navigation);
    let next = state.contract_broken(navigation);
    assert(cleared.contexts.contains_key(own));
    assert(next.contexts.contains_key(own));
}

/// An operation that nobody waits for leaves no event. Where the executor changed
/// something its page is thrown away, otherwise everything stays; a lost renderer
/// stops the worker.
pub proof fn stale_operations_leave_no_event(
    state: EngineModel,
    navigation: NavigationId,
    operation: DocumentOperationId,
    changed: bool,
    lost: bool,
)
    requires
        state.lifecycle is Running,
    ensures
        ({
            let (next, answer) = state.stale_operation(navigation, operation, changed, lost);
            &&& next.events == state.events
            &&& changed ==> next.versions(navigation) is None
            &&& !changed ==> next.versions(navigation) == state.versions(navigation)
            &&& changed ==> next.effects.len() > state.effects.len() && next.effects[
            state.effects.len() as int] == (EngineEffect::InvalidateDocument {
                context: navigation.context_of(),
            })
            &&& lost <==> next.lifecycle == Lifecycle::Stopping(
                WorkerStopReason::RendererUnavailable,
            )
            &&& lost ==> answer == Err::<(), _>(WorkerStopReason::RendererUnavailable)
            &&& !lost ==> answer is Ok && next.lifecycle is Running
            &&& !changed && !lost ==> next.effects == state.effects
        }),
{
    let settled = state.operation_settled(navigation, operation);
    let cleared = if changed {
        settled.owing(
            seq![EngineEffect::InvalidateDocument { context: navigation.context_of() }],
        ).document_invalidated(navigation)
    } else {
        settled
    };
    crate::engine_laws::stopping_keeps_versions(
        cleared,
        WorkerStopReason::RendererUnavailable,
        navigation,
    );
}

/// Effects of visiting contexts hold those of each of them.
proof fn visited_effects(keys: Seq<u64>, effects: spec_fn(u64) -> Seq<EngineEffect>, key: u64)
    requires
        keys.contains(key),
    ensures
        forall|effect: EngineEffect| #[trigger]
            effects(key).contains(effect) ==> crate::engine::effects_over(keys, effects).contains(
                effect,
            ),
    decreases keys.len(),
{
    let at = choose|at: int| 0 <= at < keys.len() && keys[at] == key;
    let before = crate::engine::effects_over(keys.drop_last(), effects);
    let last = effects(keys.last());
    if at < keys.len() - 1 {
        assert(keys.drop_last()[at] == key);
        visited_effects(keys.drop_last(), effects, key);
    }
    assert forall|effect: EngineEffect| #[trigger] effects(key).contains(effect) implies (before
        + last).contains(effect) by {
        if at < keys.len() - 1 {
            let i = choose|i: int| 0 <= i < before.len() && before[i] == effect;
            assert((before + last)[i] == effect);
        } else {
            let i = choose|i: int| 0 <= i < last.len() && last[i] == effect;
            assert((before + last)[before.len() + i] == effect);
        }
    }
}

/// A worker that is asked to stop asks every running operation to end, and
/// retires every current document.
pub proof fn stopping_asks_everything_to_end(
    state: EngineModel,
    reason: WorkerStopReason,
    key: u64,
)
    requires
        state.lifecycle is Running,
        state.contexts.dom().finite(),
        state.current_style_documents.dom().finite(),
    ensures
        state.contexts.contains_key(key) ==> (state.contexts[key].active_cancellation matches Some(
            active,
        ) ==> state.stopping(reason).effects.contains(
            EngineEffect::Cancel { ticket: active.source_of().ticket },
        )),
        state.current_style_documents.contains_key(key) ==> (
        state.current_style_documents[key].ledger_key() matches Some(ledger) ==> state.stopping(
            reason,
        ).effects.contains(EngineEffect::RetireStyleDocument { ledger })),
{
    let next = state.stopping(reason);
    let cancels = crate::engine::cancel_all_effects(state.contexts);
    let retires = crate::engine::retire_all_effects(state.current_style_documents);
    if state.contexts.contains_key(key) {
        if let Some(active) = state.contexts[key].active_cancellation {
            let effect = EngineEffect::Cancel { ticket: active.source_of().ticket };
            crate::accounting::in_order_holds(state.contexts.dom(), key);
            let effects = crate::engine::cancel_effects_at(state.contexts);
            assert(effects(key)[0] == effect);
            assert(effects(key).contains(effect));
            visited_effects(crate::accounting::in_order(state.contexts.dom()), effects, key);
            let i = choose|i: int| 0 <= i < cancels.len() && cancels[i] == effect;
            assert(next.effects[state.effects.len() + retires.len() + i] == effect);
        }
    }
    if state.current_style_documents.contains_key(key) {
        if let Some(ledger) = state.current_style_documents[key].ledger_key() {
            let effect = EngineEffect::RetireStyleDocument { ledger };
            crate::accounting::in_order_holds(state.current_style_documents.dom(), key);
            let effects = crate::engine::retire_effects_at(state.current_style_documents);
            assert(effects(key)[0] == effect);
            assert(effects(key).contains(effect));
            visited_effects(
                crate::accounting::in_order(state.current_style_documents.dom()),
                effects,
                key,
            );
            let i = choose|i: int| 0 <= i < retires.len() && retires[i] == effect;
            assert(next.effects[state.effects.len() + i] == effect);
        }
    }
}

/// Closing a context retires its document, and no other one.
pub proof fn closing_retires_the_document(
    state: EngineModel,
    navigation: NavigationId,
    key: u64,
)
    requires
        state.close_error(navigation) is None,
        crate::engine::frame_charge(state.context(navigation)->0) <= state.retained_frame_bytes,
        crate::engine::document_charge(state.context(navigation)->0)
            <= state.retained_document_nodes,
    ensures
        ({
            let next = state.context_closed(navigation);
            let own = crate::engine::context_key(navigation);
            let before = state.contexts[own];
            &&& !next.current_style_documents.contains_key(own)
            &&& key != own ==> next.current_style_documents.contains_key(key)
                == state.current_style_documents.contains_key(key)
            &&& state.current_style_documents.contains_key(own) ==> (
            state.current_style_documents[own].ledger_key() matches Some(ledger)
                ==> next.effects[state.effects.len() as int] == (
            EngineEffect::RetireStyleDocument { ledger }))
            &&& next.retained_frame_bytes == state.retained_frame_bytes
                - crate::engine::frame_charge(before)
            &&& next.retained_document_nodes == state.retained_document_nodes
                - crate::engine::document_charge(before)
        }),
{
}

/// A dropped receiver leaves nothing held for it, and stops the worker.
pub proof fn dropped_receivers_leave_nothing(state: EngineModel, limits: LimitValues)
    ensures
        ({
            let next = state.receiver_dropped();
            &&& !next.receiver_open
            &&& next.events.len() == 0
            &&& next.terminal_event is None
            &&& next.commands.len() == 0
            &&& next.context_closures.len() == 0
            &&& next.mutation_results.dom() == Set::<u64>::empty()
            &&& next.navigation_commits.dom() == Set::<(u64, u64)>::empty()
            &&& next.retained_frame_bytes == 0
            &&& next.retained_document_nodes == 0
            &&& next.retained_mutation_result_nodes == 0
            &&& next.pending_document_nodes == 0
            &&& next.pending_mutation_result_nodes == 0
            &&& next.pending_mutation_payload_bytes == 0
            &&& state.lifecycle is Running ==> next.lifecycle == Lifecycle::Stopping(
                WorkerStopReason::EventReceiverDropped,
            )
            &&& !(state.lifecycle is Running) ==> next.lifecycle == state.lifecycle
        }),
{
    let next = state.receiver_dropped();
    assert(next.mutation_results.dom() =~= Set::<u64>::empty());
    assert(next.navigation_commits.dom() =~= Set::<(u64, u64)>::empty());
}

/// A context is charged with its frame's bytes and its document's nodes, and a
/// mapping with one unit for each node, at least one.
pub proof fn charges_are_what_is_held(
    context: ContextState,
    frame: EngineFrame,
    nodes: Seq<crate::identity::NodeId>,
)
    ensures
        context.current_frame is None ==> crate::engine::frame_charge(context) == 0,
        context.current_frame matches Some(stored) ==> crate::engine::frame_charge(context)
            == stored.frame.charge(),
        context.document is None ==> crate::engine::document_charge(context) == 0,
        context.document matches Some(document) ==> crate::engine::document_charge(context)
            == document.node_charge,
        nodes.len() > 0 ==> crate::engine::result_units(nodes) == nodes.len(),
        nodes.len() == 0 ==> crate::engine::result_units(nodes) == 1,
        frame.charge() == frame.metadata_of().total_bytes_of(),
{
}

/// What a mutation reserved is given back in full.
pub proof fn reservations_are_given_back(state: EngineModel, work: DocumentMutationWork)
    requires
        state.holds(work.reservation()),
    ensures
        ({
            let next = state.released(work.reservation());
            &&& next.pending_document_nodes + work.reserved_created_nodes
                == state.pending_document_nodes
            &&& next.pending_mutation_result_nodes + work.reserved_result_units
                == state.pending_mutation_result_nodes
            &&& next.pending_mutation_payload_bytes + work.reserved_payload_bytes
                == state.pending_mutation_payload_bytes
            &&& next.contexts == state.contexts
            &&& next.retained_document_nodes == state.retained_document_nodes
        }),
{
}

/// An outcome beyond its contract gives back what its mutation reserved and
/// throws the page away: one that cannot be represented, and one that rejects
/// with other versions than the live ones.
pub proof fn refused_outcomes_give_back(
    state: EngineModel,
    limits: LimitValues,
    work: DocumentMutationWork,
    reservation: DocumentPublicationReservation,
    outcome: ExecutorDocumentMutation,
    max_created_nodes: usize,
)
    requires
        state.lifecycle is Running,
        state.operation_is_current(work.navigation, work.batch.expected_version, work.operation),
        state.holds(work.reservation()),
        ({
            let (live, shown) = state.versions(work.navigation)->0;
            ||| outcome is Invalidated
            ||| outcome matches ExecutorDocumentMutation::Rejected {
                live_version,
                frame_version,
                ..
            } && (live_version != Some(live) || frame_version != Some(shown))
            ||| outcome matches ExecutorDocumentMutation::CommittedWithoutFrame { commit, .. }
                && commit.version.revision != live.revision + 1
            ||| outcome matches ExecutorDocumentMutation::CommittedWithoutFrame {
                previous_live_version,
                frame_version,
                ..
            } && (previous_live_version != live || frame_version != shown)
            ||| outcome matches ExecutorDocumentMutation::Rendered { commit, .. }
                && commit.version.document_id != live.document_id
            ||| outcome matches ExecutorDocumentMutation::Rendered { commit, frame, .. }
                && frame.metadata_of().document_version != Some(commit.version)
            ||| outcome matches ExecutorDocumentMutation::Rendered { commit, .. }
                && !commit.created_nodes@.no_duplicates()
            ||| outcome matches ExecutorDocumentMutation::Rendered { commit, .. }
                && commit.created_nodes@.len() != work.reserved_created_nodes
        }),
    ensures
        ({
            let (next, answer) = state.mutation_finished(
                limits,
                work,
                reservation,
                outcome,
                max_created_nodes,
            );
            &&& answer == Err::<(), _>(WorkerStopReason::ExecutorContractViolation)
            &&& next.lifecycle == Lifecycle::Stopping(WorkerStopReason::ExecutorContractViolation)
            &&& next.versions(work.navigation) is None
            &&& next.events == state.events
            &&& next.pending_document_nodes == state.pending_document_nodes
                - work.reserved_created_nodes
            &&& next.pending_mutation_result_nodes == state.pending_mutation_result_nodes
                - work.reserved_result_units
            &&& next.pending_mutation_payload_bytes == state.pending_mutation_payload_bytes
                - work.reserved_payload_bytes
        }),
{
    let released = state.released(work.reservation());
    let owing = released.owing(
        seq![EngineEffect::InvalidateDocument { context: work.navigation.context_of() }],
    );
    let cleared = owing.document_invalidated(work.navigation);
    crate::engine_laws::stopping_keeps_versions(
        cleared,
        WorkerStopReason::ExecutorContractViolation,
        work.navigation,
    );
}

/// A mutation that nobody waits for any more gives back what it reserved.
pub proof fn stale_mutations_give_back(
    state: EngineModel,
    limits: LimitValues,
    work: DocumentMutationWork,
    reservation: DocumentPublicationReservation,
    outcome: ExecutorDocumentMutation,
    max_created_nodes: usize,
)
    requires
        state.lifecycle is Running,
        !state.operation_is_current(work.navigation, work.batch.expected_version, work.operation),
        state.holds(work.reservation()),
    ensures
        ({
            let (next, answer) = state.mutation_finished(
                limits,
                work,
                reservation,
                outcome,
                max_created_nodes,
            );
            let lost = outcome.lost_renderer();
            &&& lost <==> answer is Err
            &&& next.events == state.events
            &&& next.mutation_results.dom().subset_of(state.mutation_results.dom())
            &&& outcome is Rejected ==> next.versions(work.navigation) == state.versions(
                work.navigation,
            )
            &&& !(outcome is Rejected) ==> next.versions(work.navigation) is None
            &&& next.pending_document_nodes == state.pending_document_nodes
                - work.reserved_created_nodes
            &&& next.pending_mutation_result_nodes == state.pending_mutation_result_nodes
                - work.reserved_result_units
        }),
{
    stale_operations_leave_no_event(
        state.released(work.reservation()),
        work.navigation,
        work.operation,
        outcome.changed_state(),
        outcome.lost_renderer(),
    );
}

} // verus!
