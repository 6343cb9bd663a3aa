//! Why commands are refused and why the worker stops: every reason that is told
//! is true of the state.

use vstd::prelude::*;

use crate::command::CommandErrorKind;
use crate::engine::{ActiveCancellation, DocumentMutationWork, EngineModel, Lifecycle};
use crate::event::{EngineEvent, EngineEventKind, NavigationEventPhase};
use crate::executor::ExecutorOutput;
use crate::failure::WorkerStopReason;
use crate::frame::EngineFrame;
use crate::identity::{
    DocumentOperationId, DocumentVersion, EventSequence, FrameLeaseId, MutationResultLeaseId,
    NavigationId, NodeId,
};
use crate::limits::LimitValues;

verus! {

broadcast use FrameLeaseId::value_of;

/// Operation that a navigation's context works on, if it has one.
pub open spec fn active(state: EngineModel, navigation: NavigationId) -> Option<
    ActiveCancellation,
> {
    match state.context(navigation) {
        Some(context) => context.active_cancellation,
        None => None,
    }
}

/// Whether a reason to refuse a command for a navigation's context is true.
pub open spec fn grounds(
    state: EngineModel,
    limits: LimitValues,
    navigation: NavigationId,
    kind: CommandErrorKind,
) -> bool {
    match kind {
        CommandErrorKind::EventReceiverDropped => !state.receiver_open,
        CommandErrorKind::ShuttingDown => !(state.lifecycle is Running),
        CommandErrorKind::ContextClosing => state.closing_contexts.contains(
            navigation.context_of().value(),
        ),
        CommandErrorKind::QueueFull { capacity } => capacity == limits.command_capacity
            && state.commands.len() >= capacity,
        CommandErrorKind::UnknownContext => state.context(navigation) is None,
        CommandErrorKind::ContextBusy => active(state, navigation) is Some,
        CommandErrorKind::NoLiveDocument => state.context(navigation) matches Some(context)
            && context.document is None,
        CommandErrorKind::DocumentNavigationMismatch { current } => (state.context(
            navigation,
        ) matches Some(context) && (context.document matches Some(document)
            && document.navigation == current)) && current != navigation,
        CommandErrorKind::DocumentVersionMismatch { live } => state.versions(
            navigation,
        ) matches Some((version, _)) && version == live,
        CommandErrorKind::NotCurrentNavigation => !state.is_current(navigation) || (active(
            state,
            navigation,
        ) matches Some(ActiveCancellation::Navigation { navigation: current, .. }) && current
            != navigation),
        CommandErrorKind::NoActiveNavigation => state.context(navigation) is Some && (active(
            state,
            navigation,
        ) matches Some(ActiveCancellation::Navigation { navigation: current, source }) ==> current
            == navigation && source.cancelled),
        CommandErrorKind::NoActiveDocumentOperation => state.context(navigation) is Some && (active(
            state,
            navigation,
        ) matches Some(ActiveCancellation::Document { source, .. }) ==> source.cancelled),
        CommandErrorKind::NotCurrentDocumentOperation { current } => active(
            state,
            navigation,
        ) matches Some(ActiveCancellation::Document { operation, .. }) && operation == current,
        CommandErrorKind::DocumentOperationNavigationMismatch { current } => (active(
            state,
            navigation,
        ) matches Some(ActiveCancellation::Document { navigation: other, .. }) && other == current)
            && current != navigation,
        _ => false,
    }
}

/// A command for a context or its document is refused only for a reason that is
/// true of the state, and a missing receiver comes before the end of the worker,
/// which comes before everything else.
pub proof fn commands_are_refused_truthfully(
    state: EngineModel,
    limits: LimitValues,
    navigation: NavigationId,
    operation: DocumentOperationId,
    expected: DocumentVersion,
)
    ensures
        state.document_error(limits, navigation, expected) matches Some(kind) ==> grounds(
            state,
            limits,
            navigation,
            kind,
        ) && !(kind is NotCurrentNavigation) && !(kind is NoActiveNavigation) && !(
        kind is NoActiveDocumentOperation) && (kind matches
            CommandErrorKind::DocumentVersionMismatch { live } ==> live != expected),
        state.close_error(navigation) matches Some(kind) ==> grounds(
            state,
            limits,
            navigation,
            kind,
        ) && !(kind is ContextBusy) && !(kind is NoLiveDocument),
        state.cancel_navigation_error(navigation) matches Some(kind) ==> grounds(
            state,
            limits,
            navigation,
            kind,
        ) && !(kind is NoActiveDocumentOperation) && !(kind is ContextClosing) && !(
        kind is QueueFull),
        state.cancel_operation_error(navigation, operation) matches Some(kind) ==> grounds(
            state,
            limits,
            navigation,
            kind,
        ) && !(kind is NoActiveNavigation) && !(kind is ContextClosing) && !(kind is QueueFull) && (
        kind matches CommandErrorKind::NotCurrentDocumentOperation { current } ==> current
            != operation),
        !state.receiver_open ==> {
            let gone = Some(CommandErrorKind::EventReceiverDropped);
            &&& state.document_error(limits, navigation, expected) == gone
            &&& state.close_error(navigation) == gone
            &&& state.cancel_navigation_error(navigation) == gone
            &&& state.cancel_operation_error(navigation, operation) == gone
            &&& state.navigation_error(limits, navigation) == gone
        },
        state.receiver_open && !(state.lifecycle is Running) ==> {
            let ending = Some(CommandErrorKind::ShuttingDown);
            &&& state.document_error(limits, navigation, expected) == ending
            &&& state.close_error(navigation) == ending
            &&& state.cancel_navigation_error(navigation) == ending
            &&& state.cancel_operation_error(navigation, operation) == ending
            &&& state.navigation_error(limits, navigation) == ending
        },
{
}

/// Whether an identity can be given out and followed by another one.
pub open spec fn available(next: u64) -> bool {
    0 < next < u64::MAX
}

/// An event of a navigation is refused for its place in the order, for a full
/// queue or for want of a sequence, looked at in that order.
pub proof fn events_are_refused_for_their_cause(
    state: EngineModel,
    limits: LimitValues,
    phase: NavigationEventPhase,
    kind: EngineEventKind,
)
    ensures
        ({
            let misplaced = crate::event::next_phase(phase, kind) is None;
            let full = state.events.len() >= limits.event_capacity;
            let spent = !available(state.next_event_sequence);
            let answer = state.event_error(limits, phase, kind);
            &&& answer is None <==> !misplaced && !full && !spent
            &&& misplaced ==> answer == Some(WorkerStopReason::EventOrderViolation)
            &&& !misplaced && full ==> answer == Some(WorkerStopReason::EventQueueSaturated)
            &&& !misplaced && !full && spent ==> answer == Some(WorkerStopReason::IdentityExhausted)
        }),
{
}

/// Identities that ran out are told as such, behind a full queue.
pub proof fn reservations_fail_for_their_cause(
    state: EngineModel,
    limits: LimitValues,
    needs_result: bool,
)
    ensures
        ({
            let full = state.events.len() >= limits.event_capacity;
            match state.publication_reservation(limits, needs_result) {
                Ok(_) => !full,
                Err(WorkerStopReason::EventQueueSaturated) => full,
                Err(WorkerStopReason::IdentityExhausted) => !full && (!available(
                    state.next_event_sequence,
                ) || !available(state.next_frame_lease) || (needs_result && !available(
                    state.next_mutation_result_lease,
                ))),
                Err(_) => false,
            }
        }),
{
}

/// A closure that cannot be told stops for its cause: a context that was not
/// closing, a full queue, which also ends the worker, or a spent sequence.
pub proof fn closures_fail_for_their_cause(
    state: EngineModel,
    limits: LimitValues,
    navigation: NavigationId,
)
    requires
        state.lifecycle is Running,
    ensures
        ({
            let (next, told) = state.closure_published(limits, navigation);
            let closing = state.closing_contexts.contains(navigation.context_of().value());
            let full = state.events.len() >= limits.event_capacity;
            &&& !closing ==> told == Err::<(), _>(WorkerStopReason::ExecutorContractViolation)
                && next == state
            &&& closing && full ==> told == Err::<(), _>(WorkerStopReason::EventQueueSaturated)
                && next.lifecycle == Lifecycle::Stopping(WorkerStopReason::EventQueueSaturated)
            &&& closing && !full && !available(state.next_event_sequence) ==> told == Err::<(), _>(
                WorkerStopReason::IdentityExhausted,
            )
            &&& told is Err ==> next.events == state.events
        }),
{
}

/// A frame that breaks what was reserved for it is the executor's fault, and one
/// that cannot be counted any more means that identities ran out.
pub proof fn frames_fail_for_their_cause(
    state: EngineModel,
    limits: LimitValues,
    navigation: NavigationId,
    lease: FrameLeaseId,
    frame: EngineFrame,
)
    requires
        state.context(navigation) matches Some(context) && crate::engine::frame_charge(context)
            <= state.retained_frame_bytes,
        state.retained_frame_bytes + frame.charge() <= usize::MAX,
    ensures
        ({
            let (next, told) = state.frame_published(limits, navigation, lease, frame);
            let kept = state.retained_frame_bytes - crate::engine::frame_charge(
                state.context(navigation)->0,
            );
            let fits = frame.charge() <= limits.max_frame_bytes && kept + frame.charge()
                <= limits.max_retained_frame_bytes;
            let expected = state.next_frame_lease == lease.value();
            &&& !expected || !fits ==> told is Err && told->Err_0
                == WorkerStopReason::ExecutorContractViolation && next == state
            &&& expected && fits && lease.value() == u64::MAX ==> told is Err && told->Err_0
                == WorkerStopReason::IdentityExhausted
            &&& expected && fits && lease.value() < u64::MAX ==> {
                &&& told is Ok
                &&& told->Ok_0 == frame.metadata_of()
                &&& next.next_frame_lease == lease.value() + 1
                &&& next.retained_frame_bytes == kept + frame.charge()
                &&& next.context(navigation) matches Some(context)
                &&& context.current_frame matches Some(stored)
                &&& stored.lease == lease
                &&& stored.navigation == navigation
                &&& stored.frame == frame
                &&& context.document == state.context(navigation)->0.document
                &&& next.events == state.events
            }
        }),
{
}

/// A reserved event is queued under its own sequence; a broken reservation is the
/// executor's fault, and a last sequence means that they ran out.
pub proof fn reserved_events_fail_for_their_cause(
    state: EngineModel,
    limits: LimitValues,
    sequence: EventSequence,
    kind: EngineEventKind,
)
    ensures
        ({
            let (next, told) = state.reserved_event(limits, sequence, kind);
            let kept = state.events.len() < limits.event_capacity && state.next_event_sequence
                == sequence.value();
            &&& !kept ==> told == Err::<(), _>(WorkerStopReason::ExecutorContractViolation)
            &&& kept && sequence.value() == u64::MAX ==> told == Err::<(), _>(
                WorkerStopReason::IdentityExhausted,
            )
            &&& told is Err ==> next == state
            &&& kept && sequence.value() < u64::MAX ==> told is Ok && next.events
                == state.events.push(EngineEvent { sequence, kind }) && next.next_event_sequence
                == sequence.value() + 1 && next.contexts == state.contexts
        }),
{
}

/// A mutation's result is kept exactly where it is what was reserved: the next
/// lease, as many units, and a document that is still there and within bounds.
pub proof fn results_fail_for_their_cause(
    state: EngineModel,
    limits: LimitValues,
    work: DocumentMutationWork,
    lease: MutationResultLeaseId,
    live: DocumentVersion,
    created: Vec<NodeId>,
    rendered: bool,
)
    ensures
        ({
            let (next, told) = state.result_outcome_recorded(
                limits,
                work,
                Some(lease),
                live,
                created,
                rendered,
            );
            let units: int = if created@.len() == 0 {
                1
            } else {
                created@.len() as int
            };
            &&& state.result_outcome_recorded(limits, work, None, live, created, rendered).1
                == Err::<(), _>(WorkerStopReason::ExecutorContractViolation)
            &&& units != work.reserved_result_units || state.next_mutation_result_lease
                != lease.value() || state.versions(work.navigation) is None
                || state.mutation_results.contains_key(lease.value())
                || state.retained_mutation_result_nodes + state.pending_mutation_result_nodes
                > limits.max_retained_mutation_result_nodes ==> told == Err::<(), _>(
                WorkerStopReason::ExecutorContractViolation,
            )
            &&& told is Err ==> next == state
            &&& told is Ok ==> {
                &&& next.next_mutation_result_lease == lease.value() + 1
                &&& next.mutation_results.contains_key(lease.value())
                &&& next.mutation_results[lease.value()].created_nodes == created
                &&& next.mutation_results[lease.value()].live_version == live
                &&& next.mutation_results[lease.value()].operation == work.operation
                &&& next.mutation_results[lease.value()].navigation == work.navigation
                &&& next.mutation_results[lease.value()].lease == lease
                &&& next.events == state.events
            }
        }),
{
}

/// A success that cannot be told stops for its cause, looked at in this order: its
/// place among the events, a spent frame lease, a commitment that is already there
/// or finds no room, and fewer than two sequences.
pub proof fn successes_fail_for_their_cause(
    state: EngineModel,
    limits: LimitValues,
    phase: NavigationEventPhase,
    navigation: NavigationId,
    output: ExecutorOutput,
)
    ensures
        ({
            let misplaced = crate::event::next_phase(
                phase,
                EngineEventKind::NavigationCommitted { navigation, http_status: output.http_status },
            ) is None;
            let spent = !available(state.next_frame_lease);
            let taken = state.navigation_commits.contains_key(
                crate::engine::navigation_key(navigation),
            ) || state.navigation_commits.len() >= limits.event_capacity;
            let last = state.next_event_sequence == 0 || state.next_event_sequence > u64::MAX - 2;
            let answer = state.success_error(limits, phase, navigation, output);
            &&& answer is None <==> !misplaced && !spent && !taken && !last
            &&& misplaced ==> answer == Some(WorkerStopReason::EventOrderViolation)
            &&& !misplaced && spent ==> answer == Some(WorkerStopReason::IdentityExhausted)
            &&& !misplaced && !spent && taken ==> answer == Some(
                WorkerStopReason::ExecutorContractViolation,
            )
            &&& !misplaced && !spent && !taken && last ==> answer == Some(
                WorkerStopReason::IdentityExhausted,
            )
        }),
{
}

} // verus!
