//! What the shared state tells of each context: the version that its frame
//! shows, and what each operation makes of it.

use vstd::prelude::*;

use crate::admission::CommandInputs;
use crate::command::EngineCommand;
use crate::commit::NavigationRequest;
use crate::control::ContextSweep;
use crate::document_work::DocumentPublicationReservation;
use crate::engine::{
    ContextState, DocumentMutationWork, DocumentRerenderWork, EngineEffect, EngineModel,
};
use crate::event::{EngineEvent, EngineEventKind, NavigationEventPhase};
use crate::executor::{ExecutorDocumentMutation, ExecutorDocumentRerender, ExecutorOutput};
use crate::failure::{EngineShutdownStatus, ExecutionFailure, WorkerStopReason};
use crate::identity::{
    DocumentOperationId, DocumentVersion, EventSequence, FrameLeaseId, MutationResultLeaseId,
    NavigationId,
};
use crate::limits::LimitValues;

verus! {

broadcast use {
    EventSequence::value_of,
    FrameLeaseId::value_of,
    MutationResultLeaseId::value_of,
};

/// A context tells which version its frame shows: the frame version of its
/// document is the version of the frame that was published last, the frame
/// belongs to the document's navigation, and it is not newer than the live
/// document. A context without a live document has no frame of one.
pub open spec fn tells_shown(context: ContextState) -> bool {
    &&& context.document matches Some(document) ==> {
        &&& document.frame_version.document_id == document.live_version.document_id
        &&& document.frame_version.revision <= document.live_version.revision
    }
    &&& context.current_frame matches Some(stored) ==> match context.document {
        Some(document) => stored.navigation == document.navigation
            && stored.frame.metadata_of().document_version == Some(document.frame_version),
        None => stored.frame.metadata_of().document_version is None,
    }
}

/// Every context tells which version its frame shows.
pub open spec fn all_tell_shown(state: EngineModel) -> bool {
    forall|key: u64| #[trigger]
        state.contexts.contains_key(key) ==> tells_shown(state.contexts[key])
}

/// What a context shows and holds either stayed or went away.
pub open spec fn fades(state: EngineModel, next: EngineModel) -> bool {
    forall|key: u64| #[trigger]
        next.contexts.contains_key(key) ==> {
            let after = next.contexts[key];
            ||| after.document is None && after.current_frame is None
            ||| {
                &&& state.contexts.contains_key(key)
                &&& after.document == state.contexts[key].document
                &&& after.current_frame is None || after.current_frame
                    == state.contexts[key].current_frame
            }
        }
}

/// What the contexts beside one show and hold did not change.
pub open spec fn others_stay(state: EngineModel, next: EngineModel, navigation: NavigationId) -> bool {
    forall|key: u64|
        key != crate::engine::context_key(navigation) ==> #[trigger] next.contexts.contains_key(key)
            == state.contexts.contains_key(key) && (next.contexts.contains_key(key) ==> {
            &&& next.contexts[key].document == state.contexts[key].document
            &&& next.contexts[key].current_frame == state.contexts[key].current_frame
            &&& next.contexts[key].latest_generation == state.contexts[key].latest_generation
        })
}

/// Fading twice is fading.
proof fn fading_goes_on(first: EngineModel, second: EngineModel, third: EngineModel)
    requires
        fades(first, second),
        fades(second, third),
    ensures
        fades(first, third),
{
    assert forall|key: u64| #[trigger] third.contexts.contains_key(key) implies ({
        let after = third.contexts[key];
        ||| after.document is None && after.current_frame is None
        ||| {
            &&& first.contexts.contains_key(key)
            &&& after.document == first.contexts[key].document
            &&& after.current_frame is None || after.current_frame
                == first.contexts[key].current_frame
        }
    }) by {
        if second.contexts.contains_key(key) {
        }
    }
}

/// What fades still tells what is shown.
proof fn fading_tells(state: EngineModel, next: EngineModel)
    requires
        all_tell_shown(state),
        fades(state, next),
    ensures
        all_tell_shown(next),
{
    assert forall|key: u64| #[trigger] next.contexts.contains_key(key) implies tells_shown(
        next.contexts[key],
    ) by {
        if state.contexts.contains_key(key) {
        }
    }
}

/// Stopping changes no frame and no document.
proof fn stopping_fades(state: EngineModel, reason: WorkerStopReason)
    ensures
        fades(state, state.stopping(reason)),
        forall|navigation: NavigationId|
            others_stay(state, #[trigger] state.stopping(reason), navigation),
        forall|navigation: NavigationId| #[trigger]
            state.stopping(reason).versions(navigation) == state.versions(navigation),
        state.stopping(reason).events == state.events,
        state.stopping(reason).mutation_results == state.mutation_results,
{
    let next = state.stopping(reason);
    assert forall|key: u64|
        #![trigger next.contexts.contains_key(key)]
        next.contexts.contains_key(key) == state.contexts.contains_key(key) && (
        next.contexts.contains_key(key) ==> next.contexts[key].document
            == state.contexts[key].document && next.contexts[key].current_frame
            == state.contexts[key].current_frame && next.contexts[key].latest_generation
            == state.contexts[key].latest_generation) by {}
}

/// Stopping changes no version, no frame and no event.
pub proof fn stopping_keeps_versions(
    state: EngineModel,
    reason: WorkerStopReason,
    navigation: NavigationId,
)
    ensures
        state.stopping(reason).versions(navigation) == state.versions(navigation),
        state.stopping(reason).context(navigation) is Some <==> state.context(navigation) is Some,
        state.context(navigation) matches Some(before) ==> {
            let after = state.stopping(reason).context(navigation)->0;
            after.current_frame == before.current_frame && after.document == before.document
        },
        state.stopping(reason).events == state.events,
        state.stopping(reason).mutation_results == state.mutation_results,
{
    stopping_fades(state, reason);
    let key = crate::engine::context_key(navigation);
    assert(state.stopping(reason).contexts.contains_key(key) == state.contexts.contains_key(key));
}

/// Every accepted command keeps the frames and documents telling: a command by
/// itself shows nothing new.
pub proof fn commands_show_nothing_new(
    state: EngineModel,
    limits: LimitValues,
    command: EngineCommand,
    inputs: CommandInputs,
)
    requires
        all_tell_shown(state),
        state.command_error(limits, command, inputs) is None,
    ensures
        fades(state, state.command_accepted(command, inputs)),
        all_tell_shown(state.command_accepted(command, inputs)),
{
    let next = state.command_accepted(command, inputs);
    if command is Shutdown {
        stopping_fades(state, WorkerStopReason::Requested);
    }
    assert(fades(state, next));
    fading_tells(state, next);
}

/// Giving back a document operation changes no frame and no document.
proof fn settling_fades(
    state: EngineModel,
    navigation: NavigationId,
    operation: DocumentOperationId,
)
    ensures
        fades(state, state.operation_settled(navigation, operation)),
        others_stay(state, state.operation_settled(navigation, operation), navigation),
        state.operation_settled(navigation, operation).versions(navigation) == state.versions(
            navigation,
        ),
        fades(state, state.navigation_settled(navigation)),
        others_stay(state, state.navigation_settled(navigation), navigation),
        state.navigation_settled(navigation).versions(navigation) == state.versions(navigation),
{
}

/// Throwing a document away takes its frame and its document.
proof fn invalidation_fades(state: EngineModel, navigation: NavigationId)
    ensures
        fades(state, state.document_invalidated(navigation)),
        others_stay(state, state.document_invalidated(navigation), navigation),
        state.document_invalidated(navigation).versions(navigation) is None,
{
}

/// A broken contract takes the frame and the document.
proof fn breaking_fades(state: EngineModel, navigation: NavigationId)
    ensures
        fades(state, state.contract_broken(navigation)),
        others_stay(state, state.contract_broken(navigation), navigation),
        state.contract_broken(navigation).versions(navigation) is None,
{
    let owing = state.owing(
        seq![EngineEffect::InvalidateDocument { context: navigation.context_of() }],
    );
    let cleared = owing.document_invalidated(navigation);
    let reason = WorkerStopReason::ExecutorContractViolation;
    invalidation_fades(owing, navigation);
    stopping_fades(cleared, reason);
    assert(fades(state, cleared));
    fading_goes_on(state, cleared, cleared.stopping(reason));
    assert(others_stay(state, cleared, navigation));
    assert(others_stay(cleared, cleared.stopping(reason), navigation));
    stays_on(state, cleared, cleared.stopping(reason), navigation);
}

/// What stays twice stays.
proof fn stays_on(
    first: EngineModel,
    second: EngineModel,
    third: EngineModel,
    navigation: NavigationId,
)
    requires
        others_stay(first, second, navigation),
        others_stay(second, third, navigation),
    ensures
        others_stay(first, third, navigation),
{
    assert forall|key: u64| key != crate::engine::context_key(navigation) implies
        #[trigger] third.contexts.contains_key(key) == first.contexts.contains_key(key) && (
    third.contexts.contains_key(key) ==> {
        &&& third.contexts[key].document == first.contexts[key].document
        &&& third.contexts[key].current_frame == first.contexts[key].current_frame
        &&& third.contexts[key].latest_generation == first.contexts[key].latest_generation
    }) by {
        assert(second.contexts.contains_key(key) == first.contexts.contains_key(key));
    }
}

/// A stale operation shows nothing new, whatever the executor made of it.
proof fn stale_fades(
    state: EngineModel,
    navigation: NavigationId,
    operation: DocumentOperationId,
    changed_state: bool,
    lost_renderer: bool,
)
    ensures
        fades(
            state,
            state.stale_operation(navigation, operation, changed_state, lost_renderer).0,
        ),
        others_stay(
            state,
            state.stale_operation(navigation, operation, changed_state, lost_renderer).0,
            navigation,
        ),
{
    let settled = state.operation_settled(navigation, operation);
    settling_fades(state, navigation, operation);
    let cleared = if changed_state {
        let owing = settled.owing(
            seq![EngineEffect::InvalidateDocument { context: navigation.context_of() }],
        );
        invalidation_fades(owing, navigation);
        assert(fades(settled, owing.document_invalidated(navigation)));
        assert(others_stay(settled, owing.document_invalidated(navigation), navigation));
        fading_goes_on(state, settled, owing.document_invalidated(navigation));
        stays_on(state, settled, owing.document_invalidated(navigation), navigation);
        owing.document_invalidated(navigation)
    } else {
        settled
    };
    if lost_renderer {
        let reason = WorkerStopReason::RendererUnavailable;
        stopping_fades(cleared, reason);
        fading_goes_on(state, cleared, cleared.stopping(reason));
        assert(others_stay(cleared, cleared.stopping(reason), navigation));
        stays_on(state, cleared, cleared.stopping(reason), navigation);
    }
}

/// Concluding an operation keeps what was shown, and what was published.
proof fn concluding_fades(
    queued: (EngineModel, Result<(), WorkerStopReason>),
    navigation: NavigationId,
    operation: DocumentOperationId,
    lost_renderer: bool,
)
    ensures
        ({
            let concluded = EngineModel::operation_concluded(
                queued,
                navigation,
                operation,
                lost_renderer,
            );
            &&& fades(queued.0, concluded.0)
            &&& others_stay(queued.0, concluded.0, navigation)
            &&& concluded.0.versions(navigation) == queued.0.versions(navigation)
            &&& concluded.0.events == queued.0.events
            &&& concluded.0.mutation_results == queued.0.mutation_results
            &&& concluded.1 is Ok <==> queued.1 is Ok
            &&& concluded.0.retained_document_nodes == queued.0.retained_document_nodes
            &&& concluded.0.pending_document_nodes == queued.0.pending_document_nodes
            &&& (match (concluded.0.context(navigation), queued.0.context(navigation)) {
                (Some(after), Some(before)) => after.current_frame == before.current_frame
                    && after.document == before.document,
                (None, None) => true,
                _ => false,
            })
        }),
{
    if queued.1 is Ok {
        let settled = queued.0.operation_settled(navigation, operation);
        let reason = WorkerStopReason::RendererUnavailable;
        settling_fades(queued.0, navigation, operation);
        stopping_fades(settled, reason);
        fading_goes_on(queued.0, settled, settled.stopping(reason));
        assert(others_stay(settled, settled.stopping(reason), navigation));
        stays_on(queued.0, settled, settled.stopping(reason), navigation);
        let key = crate::engine::context_key(navigation);
        assert(settled.stopping(reason).contexts.contains_key(key)
            == settled.contexts.contains_key(key));
    }
}

/// Beginning an operation shows nothing new.
pub proof fn beginning_shows_nothing_new(
    state: EngineModel,
    limits: LimitValues,
    mutation: DocumentMutationWork,
    rerender: DocumentRerenderWork,
    navigation: NavigationId,
    cancelled: bool,
    phase: NavigationEventPhase,
)
    requires
        all_tell_shown(state),
    ensures
        all_tell_shown(state.mutation_begun(limits, mutation, cancelled).0),
        others_stay(
            state,
            state.mutation_begun(limits, mutation, cancelled).0,
            mutation.navigation,
        ),
        state.mutation_begun(limits, mutation, cancelled).0.versions(mutation.navigation)
            == state.versions(mutation.navigation),
        all_tell_shown(state.rerender_begun(limits, rerender, cancelled).0),
        others_stay(
            state,
            state.rerender_begun(limits, rerender, cancelled).0,
            rerender.navigation,
        ),
        state.rerender_begun(limits, rerender, cancelled).0.versions(rerender.navigation)
            == state.versions(rerender.navigation),
        all_tell_shown(state.navigation_begun(limits, navigation, cancelled, phase).0),
        others_stay(
            state,
            state.navigation_begun(limits, navigation, cancelled, phase).0,
            navigation,
        ),
        state.navigation_begun(limits, navigation, cancelled, phase).0.versions(navigation)
            == state.versions(navigation),
{
    let mutated = state.mutation_begun(limits, mutation, cancelled).0;
    let released = state.released(mutation.reservation());
    settling_fades(released, mutation.navigation, mutation.operation);
    assert(fades(state, mutated));
    fading_tells(state, mutated);
    let rerendered = state.rerender_begun(limits, rerender, cancelled).0;
    settling_fades(state, rerender.navigation, rerender.operation);
    assert(fades(state, rerendered));
    fading_tells(state, rerendered);
    let kind = if state.is_current(navigation) && !cancelled {
        EngineEventKind::NavigationStarted { navigation }
    } else {
        EngineEventKind::NavigationCancelled { navigation }
    };
    let begun = state.navigation_begun(limits, navigation, cancelled, phase).0;
    if let Some(reason) = state.event_error(limits, phase, kind) {
        stopping_fades(state, reason);
        assert(others_stay(state, state.stopping(reason), navigation));
    }
    settling_fades(
        state.event_queued(kind),
        navigation,
        DocumentOperationId::of(state.document_operation_owner, 0),
    );
    assert(fades(state, begun));
    fading_tells(state, begun);
}

/// Finishing a navigation keeps every context telling which version its frame
/// shows, and touches no other context.
pub proof fn navigations_tell_shown(
    state: EngineModel,
    limits: LimitValues,
    navigation: NavigationId,
    request: NavigationRequest,
    cancelled: bool,
    phase: NavigationEventPhase,
    result: Result<ExecutorOutput, ExecutionFailure>,
)
    requires
        all_tell_shown(state),
    ensures
        ({
            let next = state.navigation_finished(
                limits,
                navigation,
                request,
                cancelled,
                phase,
                result,
            ).0;
            &&& all_tell_shown(next)
            &&& others_stay(state, next, navigation)
        }),
{
    let (reached, _, outcome) = state.navigation_result(
        limits,
        navigation,
        request,
        cancelled,
        phase,
        result,
    );
    let published = outcome == Ok::<bool, WorkerStopReason>(true);
    let told = reached.owing(seq![EngineEffect::AcknowledgeNavigation { navigation, published }]);
    assert(all_tell_shown(reached) && others_stay(state, reached, navigation));
    assert(all_tell_shown(told) && others_stay(state, told, navigation));
    let reason = match outcome {
        Err(reason) => reason,
        Ok(_) => WorkerStopReason::RendererUnavailable,
    };
    stopping_fades(told, reason);
    fading_tells(told, told.stopping(reason));
    assert(others_stay(told, told.stopping(reason), navigation));
    stays_on(state, told, told.stopping(reason), navigation);
}

/// A navigation that was published shows its frame: the frame is current under
/// the lease that its event names, its version is both versions of the new
/// document, and the two events that tell it stand last, with the status and the
/// metadata of the output.
pub proof fn published_navigations_show_their_frame(
    state: EngineModel,
    limits: LimitValues,
    navigation: NavigationId,
    request: NavigationRequest,
    cancelled: bool,
    phase: NavigationEventPhase,
    output: ExecutorOutput,
)
    requires
        state.lifecycle is Running,
        state.navigation_result(
            limits,
            navigation,
            request,
            cancelled,
            phase,
            Ok(output),
        ).2 == Ok::<bool, WorkerStopReason>(true),
    ensures
        ({
            let (next, ended, answer) = state.navigation_finished(
                limits,
                navigation,
                request,
                cancelled,
                phase,
                Ok(output),
            );
            let metadata = output.frame.metadata_of();
            let count = state.events.len() as int;
            &&& !cancelled
            &&& answer is Ok
            &&& ended is Terminal
            &&& next.context(navigation) matches Some(context)
            &&& context.latest_generation == navigation.generation_of()
            &&& context.current_frame matches Some(stored)
            &&& stored.frame == output.frame
            &&& stored.navigation == navigation
            &&& stored.lease.value() == state.next_frame_lease
            &&& next.next_frame_lease == state.next_frame_lease + 1
            &&& match metadata.document_version {
                Some(version) => next.versions(navigation) == Some((version, version)),
                None => context.document is None,
            }
            &&& context.document matches Some(document) ==> Some(document.node_charge)
                == output.document_node_charge
            &&& next.events.len() == count + 2
            &&& next.events.take(count) == state.events
            &&& next.events[count].sequence.value() == state.next_event_sequence
            &&& next.events[count + 1].sequence.value() == state.next_event_sequence + 1
            &&& next.next_event_sequence == state.next_event_sequence + 2
            &&& next.events[count].kind == (EngineEventKind::NavigationCommitted {
                navigation,
                http_status: output.http_status,
            })
            &&& next.events[count + 1].kind == (EngineEventKind::FrameReady {
                navigation,
                lease: stored.lease,
                metadata,
            })
            &&& next.published_navigations.contains(crate::engine::navigation_key(navigation))
            &&& next.navigation_commits.contains_key(crate::engine::navigation_key(navigation))
            &&& next.effects.last() == (EngineEffect::AcknowledgeNavigation {
                navigation,
                published: true,
            })
        }),
{
    let next = state.navigation_finished(
        limits,
        navigation,
        request,
        cancelled,
        phase,
        Ok(output),
    ).0;
    assert(next.events.take(state.events.len() as int) =~= state.events);
}

/// A mutation that finished as rendered makes its own version both versions of
/// the document, and shows the frame of that version: exactly one revision
/// further, under the lease and the sequence that were set aside, with the
/// created nodes held for the taker.
pub proof fn rendered_mutations_show_their_version(
    state: EngineModel,
    limits: LimitValues,
    work: DocumentMutationWork,
    reservation: DocumentPublicationReservation,
    outcome: ExecutorDocumentMutation,
    max_created_nodes: usize,
)
    requires
        state.lifecycle is Running,
        state.operation_is_current(work.navigation, work.batch.expected_version, work.operation),
        outcome is Rendered,
        state.mutation_finished(limits, work, reservation, outcome, max_created_nodes).1 is Ok,
        state.holds(work.reservation()),
    ensures
        ({
            let next = state.mutation_finished(
                limits,
                work,
                reservation,
                outcome,
                max_created_nodes,
            ).0;
            let commit = outcome->Rendered_commit;
            let frame = outcome->Rendered_frame;
            let (live, shown) = state.versions(work.navigation)->0;
            &&& state.versions(work.navigation) is Some
            &&& live == work.batch.expected_version
            &&& frame.metadata_of().document_version == Some(commit.version)
            &&& next.versions(work.navigation) == Some((commit.version, commit.version))
            &&& commit.version.document_id == live.document_id
            &&& commit.version.revision == live.revision + 1
            &&& outcome->Rendered_previous_live_version == live
            &&& outcome->Rendered_previous_frame_version == shown
            &&& next.context(work.navigation) matches Some(context)
            &&& context.current_frame matches Some(stored)
            &&& stored.frame == frame
            &&& stored.navigation == work.navigation
            &&& stored.lease == reservation.frame
            &&& context.active_cancellation is None
            &&& reservation.result matches Some(lease)
            &&& next.mutation_results.contains_key(lease.value())
            &&& next.mutation_results[lease.value()].created_nodes == commit.created_nodes
            &&& next.mutation_results[lease.value()].live_version == commit.version
            &&& next.mutation_results[lease.value()].navigation == work.navigation
            &&& commit.created_nodes@.len() == work.reserved_created_nodes
            &&& next.retained_document_nodes == state.retained_document_nodes
                + commit.created_nodes@.len()
            &&& next.pending_document_nodes == state.pending_document_nodes
                - work.reserved_created_nodes
            &&& next.events == state.events.push(
                EngineEvent {
                    sequence: reservation.sequence,
                    kind: EngineEventKind::DocumentMutationRendered {
                        navigation: work.navigation,
                        operation: work.operation,
                        previous_live_version: live,
                        previous_frame_version: shown,
                        live_version: commit.version,
                        result: lease,
                        created_nodes: work.reserved_created_nodes,
                        frame: reservation.frame,
                        metadata: frame.metadata_of(),
                    },
                },
            )
        }),
{
    let commit = outcome->Rendered_commit;
    let frame = outcome->Rendered_frame;
    let framed = state.frame_published(limits, work.navigation, reservation.frame, frame).0;
    let recorded = framed.result_outcome_recorded(
        limits,
        work,
        reservation.result,
        commit.version,
        commit.created_nodes,
        true,
    ).0;
    let queued = recorded.reserved_event(
        limits,
        reservation.sequence,
        EngineEventKind::DocumentMutationRendered {
            navigation: work.navigation,
            operation: work.operation,
            previous_live_version: outcome->Rendered_previous_live_version,
            previous_frame_version: outcome->Rendered_previous_frame_version,
            live_version: commit.version,
            result: reservation.result->0,
            created_nodes: work.reserved_created_nodes,
            frame: reservation.frame,
            metadata: frame.metadata_of(),
        },
    );
    concluding_fades(queued, work.navigation, work.operation, false);
}

/// A mutation that was committed without a frame advances the live version by
/// one revision and leaves shown what was shown.
pub proof fn frameless_mutations_keep_the_frame(
    state: EngineModel,
    limits: LimitValues,
    work: DocumentMutationWork,
    reservation: DocumentPublicationReservation,
    outcome: ExecutorDocumentMutation,
    max_created_nodes: usize,
)
    requires
        state.lifecycle is Running,
        state.operation_is_current(work.navigation, work.batch.expected_version, work.operation),
        outcome is CommittedWithoutFrame,
        state.mutation_finished(limits, work, reservation, outcome, max_created_nodes).1 is Ok,
        state.holds(work.reservation()),
    ensures
        ({
            let next = state.mutation_finished(
                limits,
                work,
                reservation,
                outcome,
                max_created_nodes,
            ).0;
            let commit = outcome->CommittedWithoutFrame_commit;
            let (live, shown) = state.versions(work.navigation)->0;
            &&& state.versions(work.navigation) is Some
            &&& next.versions(work.navigation) == Some((commit.version, shown))
            &&& commit.version.document_id == live.document_id
            &&& commit.version.revision == live.revision + 1
            &&& next.context(work.navigation) matches Some(context)
            &&& context.current_frame == state.context(work.navigation)->0.current_frame
            &&& reservation.result matches Some(lease)
            &&& next.mutation_results.contains_key(lease.value())
            &&& next.mutation_results[lease.value()].created_nodes == commit.created_nodes
            &&& next.mutation_results[lease.value()].live_version == commit.version
            &&& commit.created_nodes@.len() == work.reserved_created_nodes
            &&& next.retained_document_nodes == state.retained_document_nodes
                + commit.created_nodes@.len()
            &&& next.events == state.events.push(
                EngineEvent {
                    sequence: reservation.sequence,
                    kind: EngineEventKind::DocumentMutationCommittedWithoutFrame {
                        navigation: work.navigation,
                        operation: work.operation,
                        previous_live_version: live,
                        live_version: commit.version,
                        frame_version: shown,
                        result: lease,
                        created_nodes: work.reserved_created_nodes,
                        failure: outcome->CommittedWithoutFrame_failure,
                    },
                },
            )
            &&& outcome->CommittedWithoutFrame_failure is RendererUnavailable
                <==> !(next.lifecycle is Running)
        }),
{
    let commit = outcome->CommittedWithoutFrame_commit;
    let failure = outcome->CommittedWithoutFrame_failure;
    let recorded = state.result_outcome_recorded(
        limits,
        work,
        reservation.result,
        commit.version,
        commit.created_nodes,
        false,
    ).0;
    let queued = recorded.reserved_event(
        limits,
        reservation.sequence,
        EngineEventKind::DocumentMutationCommittedWithoutFrame {
            navigation: work.navigation,
            operation: work.operation,
            previous_live_version: outcome->CommittedWithoutFrame_previous_live_version,
            live_version: commit.version,
            frame_version: outcome->CommittedWithoutFrame_frame_version,
            result: reservation.result->0,
            created_nodes: work.reserved_created_nodes,
            failure,
        },
    );
    concluding_fades(queued, work.navigation, work.operation, failure is RendererUnavailable);
}

/// A rerender that finished as rendered shows the live version, and a rejected
/// operation leaves both versions and the frame as they were.
pub proof fn rerenders_show_the_live_version(
    state: EngineModel,
    limits: LimitValues,
    work: DocumentRerenderWork,
    reservation: DocumentPublicationReservation,
    outcome: ExecutorDocumentRerender,
)
    requires
        state.lifecycle is Running,
        state.operation_is_current(work.navigation, work.expected_live_version, work.operation),
        state.rerender_finished(limits, work, reservation, outcome).1 is Ok,
    ensures
        ({
            let next = state.rerender_finished(limits, work, reservation, outcome).0;
            let (live, shown) = state.versions(work.navigation)->0;
            let before = state.context(work.navigation)->0;
            &&& state.versions(work.navigation) is Some
            &&& live == work.expected_live_version
            &&& next.context(work.navigation) matches Some(context)
            &&& match outcome {
                ExecutorDocumentRerender::Rendered { frame, .. } => {
                    &&& next.versions(work.navigation) == Some((live, live))
                    &&& frame.metadata_of().document_version == Some(live)
                    &&& context.current_frame matches Some(stored)
                    &&& stored.frame == frame
                    &&& stored.lease == reservation.frame
                    &&& stored.navigation == work.navigation
                    &&& next.events == state.events.push(
                        EngineEvent {
                            sequence: reservation.sequence,
                            kind: EngineEventKind::DocumentRerendered {
                                navigation: work.navigation,
                                operation: work.operation,
                                live_version: live,
                                previous_frame_version: shown,
                                frame: reservation.frame,
                                metadata: frame.metadata_of(),
                            },
                        },
                    )
                },
                ExecutorDocumentRerender::Rejected { failure, .. } => {
                    &&& next.versions(work.navigation) == Some((live, shown))
                    &&& context.current_frame == before.current_frame
                    &&& next.events == state.events.push(
                        EngineEvent {
                            sequence: reservation.sequence,
                            kind: EngineEventKind::DocumentRerenderRejected {
                                navigation: work.navigation,
                                operation: work.operation,
                                live_version: Some(live),
                                frame_version: Some(shown),
                                failure,
                            },
                        },
                    )
                },
                ExecutorDocumentRerender::Invalidated => false,
            }
        }),
{
    match outcome {
        ExecutorDocumentRerender::Rendered { live_version, previous_frame_version, frame } => {
            let framed = state.frame_published(
                limits,
                work.navigation,
                reservation.frame,
                frame,
            ).0;
            let queued = framed.frame_version_advanced(
                work.navigation,
                live_version,
            ).reserved_event(
                limits,
                reservation.sequence,
                EngineEventKind::DocumentRerendered {
                    navigation: work.navigation,
                    operation: work.operation,
                    live_version,
                    previous_frame_version,
                    frame: reservation.frame,
                    metadata: frame.metadata_of(),
                },
            );
            concluding_fades(queued, work.navigation, work.operation, false);
        },
        ExecutorDocumentRerender::Rejected { live_version, frame_version, failure } => {
            let queued = state.reserved_event(
                limits,
                reservation.sequence,
                EngineEventKind::DocumentRerenderRejected {
                    navigation: work.navigation,
                    operation: work.operation,
                    live_version,
                    frame_version,
                    failure,
                },
            );
            concluding_fades(
                queued,
                work.navigation,
                work.operation,
                failure is RendererUnavailable,
            );
        },
        ExecutorDocumentRerender::Invalidated => {},
    }
}

/// A rejected mutation changes neither version, nor the frame, nor the nodes,
/// and gives back what it reserved.
pub proof fn rejected_mutations_change_nothing(
    state: EngineModel,
    limits: LimitValues,
    work: DocumentMutationWork,
    reservation: DocumentPublicationReservation,
    outcome: ExecutorDocumentMutation,
    max_created_nodes: usize,
)
    requires
        state.lifecycle is Running,
        state.operation_is_current(work.navigation, work.batch.expected_version, work.operation),
        outcome is Rejected,
        state.mutation_finished(limits, work, reservation, outcome, max_created_nodes).1 is Ok,
        state.holds(work.reservation()),
    ensures
        ({
            let next = state.mutation_finished(
                limits,
                work,
                reservation,
                outcome,
                max_created_nodes,
            ).0;
            let (live, shown) = state.versions(work.navigation)->0;
            &&& next.versions(work.navigation) == state.versions(work.navigation)
            &&& next.context(work.navigation)->0.current_frame == state.context(
                work.navigation,
            )->0.current_frame
            &&& next.mutation_results == state.mutation_results
            &&& next.retained_document_nodes == state.retained_document_nodes
            &&& next.pending_document_nodes == state.pending_document_nodes
                - work.reserved_created_nodes
            &&& next.events == state.events.push(
                EngineEvent {
                    sequence: reservation.sequence,
                    kind: EngineEventKind::DocumentMutationRejected {
                        navigation: work.navigation,
                        operation: work.operation,
                        live_version: Some(live),
                        frame_version: Some(shown),
                        failure: outcome->Rejected_failure,
                    },
                },
            )
        }),
{
    let failure = outcome->Rejected_failure;
    let queued = state.released(work.reservation()).reserved_event(
        limits,
        reservation.sequence,
        EngineEventKind::DocumentMutationRejected {
            navigation: work.navigation,
            operation: work.operation,
            live_version: outcome->Rejected_live_version,
            frame_version: outcome->Rejected_frame_version,
            failure,
        },
    );
    concluding_fades(queued, work.navigation, work.operation, failure is RendererUnavailable);
}

/// Publishing a frame replaces what a context shows, and nothing else.
proof fn publishing_replaces(
    state: EngineModel,
    limits: LimitValues,
    navigation: NavigationId,
    lease: FrameLeaseId,
    frame: crate::frame::EngineFrame,
)
    ensures
        ({
            let (framed, published) = state.frame_published(limits, navigation, lease, frame);
            &&& others_stay(state, framed, navigation)
            &&& framed.versions(navigation) == state.versions(navigation)
            &&& forall|key: u64| #[trigger]
                framed.contexts.contains_key(key) ==> state.contexts.contains_key(key)
                    && framed.contexts[key].document == state.contexts[key].document && (key
                    != crate::engine::context_key(navigation) ==> framed.contexts[key]
                    == state.contexts[key])
        }),
{
}

/// A document of a navigation that broke its contract leaves nothing that tells
/// of it, though its frame was replaced.
proof fn breaking_tells(state: EngineModel, framed: EngineModel, navigation: NavigationId)
    requires
        all_tell_shown(state),
        state.versions(navigation) is Some,
        framed.versions(navigation) is Some,
        forall|key: u64| #[trigger]
            framed.contexts.contains_key(key) ==> state.contexts.contains_key(key) && (key
                != crate::engine::context_key(navigation) ==> framed.contexts[key]
                == state.contexts[key]),
    ensures
        all_tell_shown(framed.contract_broken(navigation)),
{
    let owing = framed.owing(
        seq![EngineEffect::InvalidateDocument { context: navigation.context_of() }],
    );
    let cleared = owing.document_invalidated(navigation);
    assert(all_tell_shown(cleared));
    stopping_fades(cleared, WorkerStopReason::ExecutorContractViolation);
    fading_tells(cleared, cleared.stopping(WorkerStopReason::ExecutorContractViolation));
}

/// Finishing a mutation keeps every context telling which version its frame
/// shows, and touches no other context.
pub proof fn mutations_tell_shown(
    state: EngineModel,
    limits: LimitValues,
    work: DocumentMutationWork,
    reservation: DocumentPublicationReservation,
    outcome: ExecutorDocumentMutation,
    max_created_nodes: usize,
)
    requires
        all_tell_shown(state),
    ensures
        ({
            let next = state.mutation_finished(
                limits,
                work,
                reservation,
                outcome,
                max_created_nodes,
            ).0;
            &&& all_tell_shown(next)
            &&& others_stay(state, next, work.navigation)
        }),
{
    let navigation = work.navigation;
    let released = state.released(work.reservation());
    let next = state.mutation_finished(limits, work, reservation, outcome, max_created_nodes).0;
    assert(all_tell_shown(released) && others_stay(state, released, navigation));
    breaking_fades(released, navigation);
    fading_tells(released, released.contract_broken(navigation));
    stays_on(state, released, released.contract_broken(navigation), navigation);
    if state.lifecycle is Stopping {
    } else if !state.operation_is_current(
        navigation,
        work.batch.expected_version,
        work.operation,
    ) {
        stale_fades(
            released,
            navigation,
            work.operation,
            outcome.changed_state(),
            outcome.lost_renderer(),
        );
        fading_tells(released, next);
        stays_on(state, released, next, navigation);
    } else {
        match outcome {
            ExecutorDocumentMutation::Rendered {
                previous_live_version,
                previous_frame_version,
                commit,
                frame,
            } => {
                rendering_tells(
                    state,
                    limits,
                    work,
                    reservation,
                    previous_live_version,
                    previous_frame_version,
                    commit,
                    frame,
                    max_created_nodes,
                );
            },
            ExecutorDocumentMutation::Invalidated => {},
            ExecutorDocumentMutation::CommittedWithoutFrame {
                previous_live_version,
                frame_version,
                commit,
                failure,
            } => {
                let recorded = state.result_outcome_recorded(
                    limits,
                    work,
                    reservation.result,
                    commit.version,
                    commit.created_nodes,
                    false,
                ).0;
                if state.commit_is_valid(
                    work,
                    previous_live_version,
                    frame_version,
                    commit.version,
                    commit.created_nodes@,
                    max_created_nodes,
                ) && state.result_recordable(
                    limits,
                    work,
                    reservation.result,
                    commit.created_nodes@,
                ) && reservation.result->0.value() != u64::MAX {
                    assert(all_tell_shown(recorded) && others_stay(state, recorded, navigation));
                    let queued = recorded.reserved_event(
                        limits,
                        reservation.sequence,
                        EngineEventKind::DocumentMutationCommittedWithoutFrame {
                            navigation,
                            operation: work.operation,
                            previous_live_version,
                            live_version: commit.version,
                            frame_version,
                            result: reservation.result->0,
                            created_nodes: work.reserved_created_nodes,
                            failure,
                        },
                    );
                    concluding_fades(
                        queued,
                        navigation,
                        work.operation,
                        failure is RendererUnavailable,
                    );
                    assert(all_tell_shown(queued.0) && others_stay(state, queued.0, navigation));
                    fading_tells(queued.0, next);
                    stays_on(state, queued.0, next, navigation);
                }
            },
            ExecutorDocumentMutation::Rejected { live_version, frame_version, failure } => {
                let queued = released.reserved_event(
                    limits,
                    reservation.sequence,
                    EngineEventKind::DocumentMutationRejected {
                        navigation,
                        operation: work.operation,
                        live_version,
                        frame_version,
                        failure,
                    },
                );
                concluding_fades(
                    queued,
                    navigation,
                    work.operation,
                    failure is RendererUnavailable,
                );
                assert(all_tell_shown(queued.0) && others_stay(state, queued.0, navigation));
                let concluded = EngineModel::operation_concluded(
                    queued,
                    navigation,
                    work.operation,
                    failure is RendererUnavailable,
                ).0;
                fading_tells(queued.0, concluded);
                stays_on(state, queued.0, concluded, navigation);
            },
        }
    }
}

/// Publishing a rendered mutation keeps every context telling.
proof fn rendering_tells(
    state: EngineModel,
    limits: LimitValues,
    work: DocumentMutationWork,
    reservation: DocumentPublicationReservation,
    previous_live_version: DocumentVersion,
    previous_frame_version: DocumentVersion,
    commit: crate::executor::DocumentMutationCommit,
    frame: crate::frame::EngineFrame,
    max_created_nodes: usize,
)
    requires
        all_tell_shown(state),
        state.versions(work.navigation) is Some,
    ensures
        ({
            let next = state.mutation_rendered(
                limits,
                work,
                reservation,
                previous_live_version,
                previous_frame_version,
                commit,
                frame,
                max_created_nodes,
            ).0;
            &&& all_tell_shown(next)
            &&& others_stay(state, next, work.navigation)
        }),
{
    let navigation = work.navigation;
    let released = state.released(work.reservation());
    breaking_fades(released, navigation);
    fading_tells(released, released.contract_broken(navigation));
    assert(others_stay(state, released, navigation));
    stays_on(state, released, released.contract_broken(navigation), navigation);
    if state.commit_is_valid(
        work,
        previous_live_version,
        previous_frame_version,
        commit.version,
        commit.created_nodes@,
        max_created_nodes,
    ) && frame.metadata_of().document_version == Some(commit.version) {
        let (framed, published) = state.frame_published(
            limits,
            navigation,
            reservation.frame,
            frame,
        );
        publishing_replaces(state, limits, navigation, reservation.frame, frame);
        let given_back = framed.released(work.reservation());
        breaking_tells(state, given_back, navigation);
        breaking_fades(given_back, navigation);
        assert(others_stay(state, given_back, navigation));
        stays_on(state, given_back, given_back.contract_broken(navigation), navigation);
        let (recorded, result) = framed.result_outcome_recorded(
            limits,
            work,
            reservation.result,
            commit.version,
            commit.created_nodes,
            true,
        );
        if published is Ok && result is Ok {
            assert(all_tell_shown(recorded));
            assert(others_stay(state, recorded, navigation));
            let queued = recorded.reserved_event(
                limits,
                reservation.sequence,
                EngineEventKind::DocumentMutationRendered {
                    navigation,
                    operation: work.operation,
                    previous_live_version,
                    previous_frame_version,
                    live_version: commit.version,
                    result: reservation.result->0,
                    created_nodes: work.reserved_created_nodes,
                    frame: reservation.frame,
                    metadata: frame.metadata_of(),
                },
            );
            concluding_fades(queued, navigation, work.operation, false);
            assert(all_tell_shown(queued.0) && others_stay(state, queued.0, navigation));
            let concluded = EngineModel::operation_concluded(
                queued,
                navigation,
                work.operation,
                false,
            ).0;
            fading_tells(queued.0, concluded);
            stays_on(state, queued.0, concluded, navigation);
        }
    }
}

/// Finishing a rerender keeps every context telling which version its frame
/// shows, and touches no other context.
pub proof fn rerenders_tell_shown(
    state: EngineModel,
    limits: LimitValues,
    work: DocumentRerenderWork,
    reservation: DocumentPublicationReservation,
    outcome: ExecutorDocumentRerender,
)
    requires
        all_tell_shown(state),
    ensures
        ({
            let next = state.rerender_finished(limits, work, reservation, outcome).0;
            &&& all_tell_shown(next)
            &&& others_stay(state, next, work.navigation)
        }),
{
    let navigation = work.navigation;
    let next = state.rerender_finished(limits, work, reservation, outcome).0;
    breaking_fades(state, navigation);
    fading_tells(state, state.contract_broken(navigation));
    if state.lifecycle is Stopping {
    } else if !state.operation_is_current(
        navigation,
        work.expected_live_version,
        work.operation,
    ) {
        stale_fades(
            state,
            navigation,
            work.operation,
            outcome.changed_state(),
            outcome.lost_renderer(),
        );
        fading_tells(state, next);
    } else {
        match outcome {
            ExecutorDocumentRerender::Rendered { live_version, previous_frame_version, frame } => {
                let (framed, published) = state.frame_published(
                    limits,
                    navigation,
                    reservation.frame,
                    frame,
                );
                publishing_replaces(state, limits, navigation, reservation.frame, frame);
                breaking_tells(state, framed, navigation);
                breaking_fades(framed, navigation);
                stays_on(state, framed, framed.contract_broken(navigation), navigation);
                if published is Ok && live_version == work.expected_live_version
                    && frame.metadata_of().document_version == Some(live_version) {
                    let advanced = framed.frame_version_advanced(navigation, live_version);
                    assert(all_tell_shown(advanced));
                    assert(others_stay(state, advanced, navigation));
                    let queued = advanced.reserved_event(
                        limits,
                        reservation.sequence,
                        EngineEventKind::DocumentRerendered {
                            navigation,
                            operation: work.operation,
                            live_version,
                            previous_frame_version,
                            frame: reservation.frame,
                            metadata: frame.metadata_of(),
                        },
                    );
                    concluding_fades(queued, navigation, work.operation, false);
                    assert(all_tell_shown(queued.0) && others_stay(state, queued.0, navigation));
                    let concluded = EngineModel::operation_concluded(
                        queued,
                        navigation,
                        work.operation,
                        false,
                    ).0;
                    fading_tells(queued.0, concluded);
                    stays_on(state, queued.0, concluded, navigation);
                }
            },
            ExecutorDocumentRerender::Rejected { live_version, frame_version, failure } => {
                let queued = state.reserved_event(
                    limits,
                    reservation.sequence,
                    EngineEventKind::DocumentRerenderRejected {
                        navigation,
                        operation: work.operation,
                        live_version,
                        frame_version,
                        failure,
                    },
                );
                concluding_fades(
                    queued,
                    navigation,
                    work.operation,
                    failure is RendererUnavailable,
                );
                assert(all_tell_shown(queued.0) && others_stay(state, queued.0, navigation));
                let concluded = EngineModel::operation_concluded(
                    queued,
                    navigation,
                    work.operation,
                    failure is RendererUnavailable,
                ).0;
                fading_tells(queued.0, concluded);
                stays_on(state, queued.0, concluded, navigation);
            },
            ExecutorDocumentRerender::Invalidated => {},
        }
    }
}

/// What the worker and the receiver do between operations shows nothing new:
/// taking a frame leaves the document and its versions, dropping the receiver
/// leaves nothing.
pub proof fn receiving_shows_nothing_new(
    state: EngineModel,
    limits: LimitValues,
    navigation: NavigationId,
    status: EngineShutdownStatus,
    key: u64,
)
    requires
        all_tell_shown(state),
    ensures
        all_tell_shown(state.dequeued().0),
        all_tell_shown(state.closure_published(limits, navigation).0),
        all_tell_shown(state.worker_finished(status)),
        all_tell_shown(state.event_received().0),
        all_tell_shown(state.result_taken(key)),
        state.contexts.contains_key(key) ==> all_tell_shown(state.frame_taken(key))
            && state.frame_taken(key).contexts[key].current_frame is None
            && state.frame_taken(key).contexts[key].document == state.contexts[key].document,
        all_tell_shown(state.receiver_dropped()),
        forall|other: u64| #[trigger]
            state.receiver_dropped().contexts.contains_key(other)
                ==> state.receiver_dropped().contexts[other].current_frame is None
                && state.receiver_dropped().contexts[other].document is None,
{
    let key_of = crate::engine::context_key(navigation);
    let closed = EngineModel { closing_contexts: state.closing_contexts.remove(key_of), ..state };
    stopping_fades(closed, WorkerStopReason::EventQueueSaturated);
    let published = state.closure_published(limits, navigation).0;
    assert(fades(state, published));
    fading_tells(state, published);
    let finished = state.worker_finished(status);
    assert(fades(state, finished));
    fading_tells(state, finished);
    let dropped = state.receiver_dropped();
    assert forall|other: u64| #[trigger] dropped.contexts.contains_key(other) implies
        dropped.contexts[other].current_frame is None && dropped.contexts[other].document is None by {
        assert(crate::control::swept(ContextSweep::Clear, state.contexts).contains_key(other));
    }
    fading_tells(state, dropped);
}

/// A mutation that was begun and that the executor carried out exactly is
/// published: one revision further, with one distinct node of the document for
/// each node that the batch creates, and a frame of that revision within the
/// bounds.
pub proof fn exact_mutations_are_published(
    state: EngineModel,
    limits: LimitValues,
    work: DocumentMutationWork,
    reservation: DocumentPublicationReservation,
    outcome: ExecutorDocumentMutation,
    max_created_nodes: usize,
)
    requires
        state.lifecycle is Running,
        state.inv(limits, work.reservation()),
        state.mutation_begun(limits, work, false).1 == Ok::<_, WorkerStopReason>(Some(reservation)),
        crate::script::valid_topology(work.batch, max_created_nodes),
        work.reserved_result_units == if work.reserved_created_nodes == 0 {
            1
        } else {
            work.reserved_created_nodes
        },
        state.context(work.navigation)->0.document->0.node_charge + work.reserved_created_nodes
            <= usize::MAX,
        ({
            let (live, shown) = state.versions(work.navigation)->0;
            match outcome {
                ExecutorDocumentMutation::Rendered {
                    previous_live_version,
                    previous_frame_version,
                    commit,
                    frame,
                } => {
                    &&& previous_live_version == live
                    &&& previous_frame_version == shown
                    &&& carried_out(work, live, commit)
                    &&& frame.metadata_of().document_version == Some(commit.version)
                    &&& frame.charge() <= limits.max_frame_bytes
                },
                ExecutorDocumentMutation::CommittedWithoutFrame {
                    previous_live_version,
                    frame_version,
                    commit,
                    failure,
                } => {
                    &&& previous_live_version == live
                    &&& frame_version == shown
                    &&& carried_out(work, live, commit)
                },
                ExecutorDocumentMutation::Rejected { live_version, frame_version, failure } => {
                    &&& live_version == Some(live)
                    &&& frame_version == Some(shown)
                },
                ExecutorDocumentMutation::Invalidated => false,
            }
        }),
    ensures
        state.mutation_finished(limits, work, reservation, outcome, max_created_nodes).1 is Ok,
{
}

/// Whether a commitment carries out a batch on a live version.
pub open spec fn carried_out(
    work: DocumentMutationWork,
    live: DocumentVersion,
    commit: crate::executor::DocumentMutationCommit,
) -> bool {
    &&& commit.version.document_id == live.document_id
    &&& commit.version.revision == live.revision + 1
    &&& commit.created_nodes@.len() == work.reserved_created_nodes
    &&& commit.created_nodes@.no_duplicates()
    &&& forall|i: int|
        0 <= i < commit.created_nodes@.len() ==> (#[trigger] commit.created_nodes@[i]).document_id
            == live.document_id
}

/// A rerender that was begun and that the executor carried out exactly is
/// published.
pub proof fn exact_rerenders_are_published(
    state: EngineModel,
    limits: LimitValues,
    work: DocumentRerenderWork,
    reservation: DocumentPublicationReservation,
    outcome: ExecutorDocumentRerender,
)
    requires
        !(state.lifecycle is Stopped),
        state.rerender_begun(limits, work, false).1 == Ok::<_, WorkerStopReason>(Some(reservation)),
        ({
            let (live, shown) = state.versions(work.navigation)->0;
            match outcome {
                ExecutorDocumentRerender::Rendered {
                    live_version,
                    previous_frame_version,
                    frame,
                } => {
                    &&& live_version == live
                    &&& previous_frame_version == shown
                    &&& frame.metadata_of().document_version == Some(live)
                    &&& frame.charge() <= limits.max_frame_bytes
                },
                ExecutorDocumentRerender::Rejected { live_version, frame_version, failure } => {
                    &&& live_version == Some(live)
                    &&& frame_version == Some(shown)
                },
                ExecutorDocumentRerender::Invalidated => false,
            }
        }),
    ensures
        state.rerender_finished(limits, work, reservation, outcome).1 is Ok,
{
}

} // verus!
