//! What every operation on the shared state keeps.

use vstd::prelude::*;

use crate::admission::CommandInputs;
use crate::command::EngineCommand;
use crate::commit::NavigationRequest;
use crate::control::ContextSweep;
use crate::document_work::DocumentPublicationReservation;
use crate::engine::{
    ContextState, DocumentMutationWork, DocumentRerenderWork, EngineEffect, EngineModel,
    EngineWork, Lifecycle, Reservation,
};
use crate::event::{EngineEvent, EngineEventKind, EventReceiveError, NavigationEventPhase};
use crate::executor::{ExecutorDocumentMutation, ExecutorDocumentRerender, ExecutorOutput};
use crate::failure::{EngineShutdownStatus, ExecutionFailure, WorkerStopReason};
use crate::frame::EngineFrame;
use crate::identity::{
    DocumentOperationId, EventSequence, FrameLeaseId, MutationResultLeaseId, NavigationId,
    TopLevelContextId,
};
use crate::limits::LimitValues;
use crate::script::ScriptMutationBatch;
use crate::worker::DequeuedWork;

verus! {

broadcast use {
    EventSequence::value_of,
    FrameLeaseId::value_of,
    MutationResultLeaseId::value_of,
};

impl EngineModel {
    /// `next` can come after `self`: identities and generations never go back,
    /// a stopped worker never runs again, the first reason to stop stays, a
    /// dropped receiver never comes back, new events are newer than all before,
    /// and what was published stays known.
    pub open spec fn follows(self, next: Self) -> bool {
        &&& self.events_follow(next)
        &&& self.published_navigations.subset_of(next.published_navigations)
        &&& self.next_frame_lease <= next.next_frame_lease
        &&& self.next_mutation_result_lease <= next.next_mutation_result_lease
        &&& self.next_document_operation_sequence <= next.next_document_operation_sequence
        &&& self.document_operation_owner == next.document_operation_owner
        &&& self.latest_new_context matches Some(latest) ==> {
            &&& next.latest_new_context matches Some(later)
            &&& latest.value() <= later.value()
        }
        &&& forall|key: u64|
            #![trigger next.contexts.contains_key(key)]
            self.contexts.contains_key(key) && next.contexts.contains_key(key)
                ==> self.contexts[key].latest_generation.value()
                <= next.contexts[key].latest_generation.value()
        &&& match self.lifecycle {
            Lifecycle::Running => true,
            Lifecycle::Stopping(reason) => next.lifecycle == self.lifecycle
                || next.lifecycle is Stopped,
            Lifecycle::Stopped(_) => next.lifecycle == self.lifecycle,
        }
        &&& !self.receiver_open ==> !next.receiver_open
    }

    /// Replacing a context by one with the same frame and document retains
    /// exactly what was retained.
    proof fn same_charges(self, navigation: NavigationId, context: ContextState)
        requires
            self.retained_exactly(),
            self.context(navigation) matches Some(present) && present.current_frame
                == context.current_frame && crate::engine::document_charge(present)
                == crate::engine::document_charge(context),
        ensures
            self.with_context(navigation, context).retained_exactly(),
            self.with_context(navigation, context).contexts.dom() == self.contexts.dom(),
    {
        let key = crate::engine::context_key(navigation);
        crate::accounting::map_total_insert(
            self.contexts,
            crate::engine::frame_charges(),
            key,
            context,
        );
        crate::accounting::map_total_insert(
            self.contexts,
            crate::engine::document_charges(),
            key,
            context,
        );
        assert(self.contexts.insert(key, context).dom() =~= self.contexts.dom());
    }

    /// Contexts that keep or lose their frames keep their leases distinct.
    proof fn leases_stay_distinct(before: Map<u64, ContextState>, after: Map<u64, ContextState>)
        requires
            crate::engine::distinct_leases(before),
            forall|key: u64| #[trigger]
                crate::engine::has_frame(after, key) ==> crate::engine::has_frame(before, key)
                    && crate::engine::frame_lease(after, key) == crate::engine::frame_lease(
                    before,
                    key,
                ),
        ensures
            crate::engine::distinct_leases(after),
    {
    }

    /// Stopping keeps the invariant.
    pub proof fn stopping_keeps(
        self,
        limits: LimitValues,
        executing: Reservation,
        reason: WorkerStopReason,
    )
        requires
            self.inv(limits, executing),
        ensures
            self.stopping(reason).inv(limits, executing),
            self.follows(self.stopping(reason)),
    {
        let next = self.stopping(reason);
        if self.lifecycle is Running {
            assert(next.contexts.dom() =~= self.contexts.dom());
            crate::accounting::map_total_same(
                self.contexts,
                next.contexts,
                crate::engine::frame_charges(),
            );
            crate::accounting::map_total_same(
                self.contexts,
                next.contexts,
                crate::engine::document_charges(),
            );
            Self::leases_stay_distinct(self.contexts, next.contexts);
        }
    }
}

impl EngineModel {
    /// Touching only the operation and a later generation of a context keeps
    /// the invariant.
    proof fn touched_keeps(
        self,
        limits: LimitValues,
        executing: Reservation,
        navigation: NavigationId,
        context: ContextState,
    )
        requires
            self.inv(limits, executing),
            self.context(navigation) matches Some(present) && present.current_frame
                == context.current_frame && crate::engine::document_charge(present)
                == crate::engine::document_charge(context)
                && present.latest_generation.value() <= context.latest_generation.value(),
        ensures
            self.with_context(navigation, context).inv(limits, executing),
            self.follows(self.with_context(navigation, context)),
    {
        let next = self.with_context(navigation, context);
        self.same_charges(navigation, context);
        Self::leases_stay_distinct(self.contexts, next.contexts);
    }

    /// Without a context's mappings, what is retained is still exact.
    proof fn without_results_retains(self, context: TopLevelContextId)
        requires
            self.mutation_results.dom().finite(),
            self.retained_mutation_result_nodes == crate::engine::results_total(
                self.mutation_results,
            ),
        ensures
            self.without_results(context).mutation_results.dom().finite(),
            self.without_results(context).retained_mutation_result_nodes
                == crate::engine::results_total(self.without_results(context).mutation_results),
            self.without_results(context).retained_mutation_result_nodes
                <= self.retained_mutation_result_nodes,
    {
        let part = self.results_elsewhere(context);
        assert(part.dom().subset_of(self.mutation_results.dom()));
        crate::accounting::map_total_part(
            part,
            self.mutation_results,
            crate::engine::result_charges(),
        );
    }

    /// Queueing one more unit of work adds what it reserved.
    proof fn queue_push(commands: Seq<EngineWork>, work: EngineWork)
        ensures
            ({
                let before = crate::engine::queue_reservation(commands);
                let after = crate::engine::queue_reservation(commands.push(work));
                let added = work.reservation();
                &&& after.created_nodes == before.created_nodes + added.created_nodes
                &&& after.result_units == before.result_units + added.result_units
                &&& after.payload_bytes == before.payload_bytes + added.payload_bytes
            }),
    {
        crate::accounting::seq_total_push(commands, crate::engine::created_reservations(), work);
        crate::accounting::seq_total_push(commands, crate::engine::unit_reservations(), work);
        crate::accounting::seq_total_push(commands, crate::engine::payload_reservations(), work);
    }

    /// Taking the oldest unit of work takes what it reserved.
    proof fn queue_pop(commands: Seq<EngineWork>)
        requires
            commands.len() > 0,
        ensures
            ({
                let before = crate::engine::queue_reservation(commands);
                let after = crate::engine::queue_reservation(
                    commands.subrange(1, commands.len() as int),
                );
                let taken = commands[0].reservation();
                &&& before.created_nodes == after.created_nodes + taken.created_nodes
                &&& before.result_units == after.result_units + taken.result_units
                &&& before.payload_bytes == after.payload_bytes + taken.payload_bytes
            }),
    {
        crate::accounting::seq_total_first(commands, crate::engine::created_reservations());
        crate::accounting::seq_total_first(commands, crate::engine::unit_reservations());
        crate::accounting::seq_total_first(commands, crate::engine::payload_reservations());
    }

    /// Queueing an accepted navigation keeps the invariant.
    pub proof fn navigation_queued_keeps(
        self,
        limits: LimitValues,
        executing: Reservation,
        navigation: NavigationId,
        request: NavigationRequest,
        ticket: u64,
    )
        requires
            self.inv(limits, executing),
            self.navigation_error(limits, navigation) is None,
        ensures
            self.navigation_queued(navigation, request, ticket).inv(limits, executing),
            self.follows(self.navigation_queued(navigation, request, ticket)),
    {
        let next = self.navigation_queued(navigation, request, ticket);
        let key = crate::engine::context_key(navigation);
        let context = next.contexts[key];
        Self::queue_push(self.commands, next.commands.last());
        assert(next.commands =~= self.commands.push(next.commands.last()));
        match self.context(navigation) {
            Some(present) => {
                self.touched_keeps(limits, executing, navigation, context);
                assert(next.contexts == self.with_context(navigation, context).contexts);
                assert(next.contexts.len() == self.contexts.len()) by {
                    assert(next.contexts.dom() =~= self.contexts.dom());
                }
            },
            None => {
                crate::accounting::map_total_insert(
                    self.contexts,
                    crate::engine::frame_charges(),
                    key,
                    context,
                );
                crate::accounting::map_total_insert(
                    self.contexts,
                    crate::engine::document_charges(),
                    key,
                    context,
                );
                assert(self.contexts.remove(key) =~= self.contexts);
                assert(next.contexts.dom() =~= self.contexts.dom().insert(key));
                Self::leases_stay_distinct(self.contexts, next.contexts);
            },
        }
    }

    /// Queueing an accepted mutation keeps the invariant.
    pub proof fn mutation_queued_keeps(
        self,
        limits: LimitValues,
        executing: Reservation,
        navigation: NavigationId,
        batch: ScriptMutationBatch,
        inputs: CommandInputs,
    )
        requires
            self.inv(limits, executing),
            limits.valid(),
            self.mutation_error(
                limits,
                navigation,
                batch,
                inputs.command_bytes,
                inputs.hard,
            ) is None,
        ensures
            self.mutation_queued(navigation, batch, inputs.command_bytes, inputs.ticket).inv(
                limits,
                executing,
            ),
            self.follows(
                self.mutation_queued(navigation, batch, inputs.command_bytes, inputs.ticket),
            ),
    {
        let next = self.mutation_queued(navigation, batch, inputs.command_bytes, inputs.ticket);
        let key = crate::engine::context_key(navigation);
        Self::queue_push(self.commands, next.commands.last());
        assert(next.commands =~= self.commands.push(next.commands.last()));
        self.touched_keeps(limits, executing, navigation, next.contexts[key]);
        assert(next.contexts == self.with_context(navigation, next.contexts[key]).contexts);
    }

    /// Queueing an accepted rerender keeps the invariant.
    pub proof fn rerender_queued_keeps(
        self,
        limits: LimitValues,
        executing: Reservation,
        navigation: NavigationId,
        expected_live_version: crate::identity::DocumentVersion,
        ticket: u64,
    )
        requires
            self.inv(limits, executing),
            self.rerender_error(limits, navigation, expected_live_version) is None,
        ensures
            self.rerender_queued(navigation, expected_live_version, ticket).inv(limits, executing),
            self.follows(self.rerender_queued(navigation, expected_live_version, ticket)),
    {
        let next = self.rerender_queued(navigation, expected_live_version, ticket);
        let key = crate::engine::context_key(navigation);
        Self::queue_push(self.commands, next.commands.last());
        assert(next.commands =~= self.commands.push(next.commands.last()));
        self.touched_keeps(limits, executing, navigation, next.contexts[key]);
        assert(next.contexts == self.with_context(navigation, next.contexts[key]).contexts);
    }

    /// Cancelling an operation keeps the invariant.
    pub proof fn operation_cancelled_keeps(
        self,
        limits: LimitValues,
        executing: Reservation,
        navigation: NavigationId,
    )
        requires
            self.inv(limits, executing),
            self.context(navigation) is Some,
        ensures
            self.operation_cancelled(navigation).inv(limits, executing),
            self.follows(self.operation_cancelled(navigation)),
    {
        let next = self.operation_cancelled(navigation);
        let key = crate::engine::context_key(navigation);
        self.touched_keeps(limits, executing, navigation, next.contexts[key]);
        assert(next.contexts == self.with_context(navigation, next.contexts[key]).contexts);
    }

    /// Closing a context keeps the invariant.
    pub proof fn context_closed_keeps(
        self,
        limits: LimitValues,
        executing: Reservation,
        navigation: NavigationId,
    )
        requires
            self.inv(limits, executing),
            self.close_error(navigation) is None,
        ensures
            self.context_closed(navigation).inv(limits, executing),
            self.follows(self.context_closed(navigation)),
    {
        let next = self.context_closed(navigation);
        let key = crate::engine::context_key(navigation);
        crate::admission::removed_and_kept(self.commands, navigation.context_of());
        crate::accounting::map_total_remove(self.contexts, crate::engine::frame_charges(), key);
        crate::accounting::map_total_remove(self.contexts, crate::engine::document_charges(), key);
        self.without_results_retains(navigation.context_of());
        assert(next.mutation_results =~= self.results_elsewhere(navigation.context_of()));
        assert(next.contexts =~= self.contexts.remove(key));
        assert(next.closing_contexts =~= self.closing_contexts.insert(key));
        assert(next.contexts.dom() =~= self.contexts.dom().remove(key));
        Self::leases_stay_distinct(self.contexts, next.contexts);
    }

    /// Every accepted command keeps the invariant, and a refused one changes
    /// nothing.
    pub proof fn command_keeps(
        self,
        limits: LimitValues,
        executing: Reservation,
        command: EngineCommand,
        inputs: CommandInputs,
    )
        requires
            self.inv(limits, executing),
            limits.valid(),
            self.command_error(limits, command, inputs) is None,
        ensures
            self.command_accepted(command, inputs).inv(limits, executing),
            self.follows(self.command_accepted(command, inputs)),
    {
        match command {
            EngineCommand::Navigate { navigation, request } => self.navigation_queued_keeps(
                limits,
                executing,
                navigation,
                request,
                inputs.ticket,
            ),
            EngineCommand::Cancel { navigation } => self.operation_cancelled_keeps(
                limits,
                executing,
                navigation,
            ),
            EngineCommand::CancelDocumentOperation { navigation, .. } =>
                self.operation_cancelled_keeps(limits, executing, navigation),
            EngineCommand::MutateDocument { navigation, batch } => self.mutation_queued_keeps(
                limits,
                executing,
                navigation,
                batch,
                inputs,
            ),
            EngineCommand::RerenderDocument { navigation, expected_live_version } =>
                self.rerender_queued_keeps(
                    limits,
                    executing,
                    navigation,
                    expected_live_version,
                    inputs.ticket,
                ),
            EngineCommand::CloseContext { navigation } => self.context_closed_keeps(
                limits,
                executing,
                navigation,
            ),
            EngineCommand::Shutdown => self.stopping_keeps(
                limits,
                executing,
                WorkerStopReason::Requested,
            ),
        }
    }
}

impl EngineModel {
    /// Queueing one event within capacity keeps the invariant.
    proof fn event_queued_keeps(
        self,
        limits: LimitValues,
        executing: Reservation,
        kind: EngineEventKind,
    )
        requires
            !(self.lifecycle is Stopped),
            self.inv(limits, executing),
            self.events.len() < limits.event_capacity,
            self.sequences_available(1),
        ensures
            self.event_queued(kind).inv(limits, executing),
            self.follows(self.event_queued(kind)),
    {
        let next = self.event_queued(kind);
        assert(next.events.last().sequence.value() == self.next_event_sequence);
    }

    /// Queueing an event under a sequence set aside earlier keeps the invariant.
    proof fn reserved_event_keeps(
        self,
        limits: LimitValues,
        executing: Reservation,
        sequence: EventSequence,
        kind: EngineEventKind,
    )
        requires
            !(self.lifecycle is Stopped),
            self.inv(limits, executing),
        ensures
            self.reserved_event(limits, sequence, kind).0.inv(limits, executing),
            self.follows(self.reserved_event(limits, sequence, kind).0),
    {
    }

    /// Settling a navigation keeps the invariant.
    proof fn navigation_settled_keeps(
        self,
        limits: LimitValues,
        executing: Reservation,
        navigation: NavigationId,
    )
        requires
            self.inv(limits, executing),
        ensures
            self.navigation_settled(navigation).inv(limits, executing),
            self.follows(self.navigation_settled(navigation)),
    {
        let next = self.navigation_settled(navigation);
        if next != self {
            let context = next.contexts[crate::engine::context_key(navigation)];
            self.touched_keeps(limits, executing, navigation, context);
        }
    }

    /// Settling a document operation keeps the invariant.
    proof fn operation_settled_keeps(
        self,
        limits: LimitValues,
        executing: Reservation,
        navigation: NavigationId,
        operation: DocumentOperationId,
    )
        requires
            self.inv(limits, executing),
        ensures
            self.operation_settled(navigation, operation).inv(limits, executing),
            self.follows(self.operation_settled(navigation, operation)),
    {
        let next = self.operation_settled(navigation, operation);
        if next != self {
            let context = next.contexts[crate::engine::context_key(navigation)];
            self.touched_keeps(limits, executing, navigation, context);
        }
    }

    /// Giving back what an executing mutation reserved keeps the invariant.
    proof fn released_keeps(self, limits: LimitValues, executing: Reservation)
        requires
            self.inv(limits, executing),
            self.lifecycle is Running,
        ensures
            self.released(executing).inv(limits, Reservation::nothing()),
            self.follows(self.released(executing)),
            self.holds(executing),
    {
    }

    /// Throwing a live document away keeps the invariant.
    proof fn document_invalidated_keeps(
        self,
        limits: LimitValues,
        executing: Reservation,
        navigation: NavigationId,
    )
        requires
            self.inv(limits, executing),
        ensures
            self.document_invalidated(navigation).inv(limits, executing),
            self.follows(self.document_invalidated(navigation)),
    {
        let next = self.document_invalidated(navigation);
        let key = crate::engine::context_key(navigation);
        if self.contexts.contains_key(key) && self.contexts[key].document is Some
            && self.contexts[key].document->0.navigation == navigation {
            let context = next.contexts[key];
            crate::accounting::map_total_insert(
                self.contexts,
                crate::engine::frame_charges(),
                key,
                context,
            );
            crate::accounting::map_total_insert(
                self.contexts,
                crate::engine::document_charges(),
                key,
                context,
            );
            self.without_results_retains(navigation.context_of());
            assert(next.mutation_results =~= self.results_elsewhere(navigation.context_of()));
            assert(next.contexts.dom() =~= self.contexts.dom());
            Self::leases_stay_distinct(self.contexts, next.contexts);
        }
    }

    /// Stopping a worker whose executor broke its contract keeps the invariant.
    proof fn contract_broken_keeps(
        self,
        limits: LimitValues,
        executing: Reservation,
        navigation: NavigationId,
    )
        requires
            self.inv(limits, executing),
        ensures
            self.contract_broken(navigation).inv(limits, executing),
            self.follows(self.contract_broken(navigation)),
    {
        let told = self.owing(
            seq![EngineEffect::InvalidateDocument { context: navigation.context_of() }],
        );
        told.document_invalidated_keeps(limits, executing, navigation);
        told.document_invalidated(navigation).stopping_keeps(
            limits,
            executing,
            WorkerStopReason::ExecutorContractViolation,
        );
    }

    /// Dropping an operation that nobody waits for keeps the invariant.
    proof fn stale_operation_keeps(
        self,
        limits: LimitValues,
        executing: Reservation,
        navigation: NavigationId,
        operation: DocumentOperationId,
        changed_state: bool,
        lost_renderer: bool,
    )
        requires
            self.inv(limits, executing),
        ensures
            self.stale_operation(navigation, operation, changed_state, lost_renderer).0.inv(
                limits,
                executing,
            ),
            self.follows(
                self.stale_operation(navigation, operation, changed_state, lost_renderer).0,
            ),
    {
        let settled = self.operation_settled(navigation, operation);
        self.operation_settled_keeps(limits, executing, navigation, operation);
        let told = settled.owing(
            seq![EngineEffect::InvalidateDocument { context: navigation.context_of() }],
        );
        told.document_invalidated_keeps(limits, executing, navigation);
        let cleared = if changed_state {
            told.document_invalidated(navigation)
        } else {
            settled
        };
        cleared.stopping_keeps(limits, executing, WorkerStopReason::RendererUnavailable);
    }

    /// Concluding a document operation keeps the invariant.
    proof fn concluded_keeps(
        queued: (Self, Result<(), WorkerStopReason>),
        limits: LimitValues,
        executing: Reservation,
        navigation: NavigationId,
        operation: DocumentOperationId,
        lost_renderer: bool,
    )
        requires
            queued.0.inv(limits, executing),
        ensures
            Self::operation_concluded(queued, navigation, operation, lost_renderer).0.inv(
                limits,
                executing,
            ),
            queued.0.follows(
                Self::operation_concluded(queued, navigation, operation, lost_renderer).0,
            ),
    {
        queued.0.operation_settled_keeps(limits, executing, navigation, operation);
        queued.0.operation_settled(navigation, operation).stopping_keeps(
            limits,
            executing,
            WorkerStopReason::RendererUnavailable,
        );
    }

    /// Replacing a frame under a lease set aside earlier keeps the invariant.
    proof fn frame_published_keeps(
        self,
        limits: LimitValues,
        executing: Reservation,
        navigation: NavigationId,
        lease: FrameLeaseId,
        frame: EngineFrame,
    )
        requires
            !(self.lifecycle is Stopped),
            self.inv(limits, executing),
            lease.value() < u64::MAX,
        ensures
            self.frame_published(limits, navigation, lease, frame).0.inv(limits, executing),
            self.follows(self.frame_published(limits, navigation, lease, frame).0),
    {
        let next = self.frame_published(limits, navigation, lease, frame).0;
        let key = crate::engine::context_key(navigation);
        if next != self {
            let context = next.contexts[key];
            crate::accounting::map_total_insert(
                self.contexts,
                crate::engine::frame_charges(),
                key,
                context,
            );
            crate::accounting::map_total_insert(
                self.contexts,
                crate::engine::document_charges(),
                key,
                context,
            );
            assert(next.contexts.dom() =~= self.contexts.dom());
            Self::new_lease_is_distinct(self.contexts, next.contexts, key, self.next_frame_lease);
        }
    }

    /// One frame under a fresh lease keeps the leases distinct.
    proof fn new_lease_is_distinct(
        before: Map<u64, ContextState>,
        after: Map<u64, ContextState>,
        key: u64,
        fresh: u64,
    )
        requires
            crate::engine::distinct_leases(before),
            forall|other: u64| #[trigger]
                before.contains_key(other) ==> (before[other].current_frame matches Some(stored)
                    ==> stored.lease.value() < fresh),
            crate::engine::has_frame(after, key),
            crate::engine::frame_lease(after, key) == fresh,
            forall|other: u64| #[trigger]
                crate::engine::has_frame(after, other) && other != key
                    ==> crate::engine::has_frame(before, other) && crate::engine::frame_lease(
                    after,
                    other,
                ) == crate::engine::frame_lease(before, other),
        ensures
            crate::engine::distinct_leases(after),
    {
        assert forall|one: u64, other: u64|
            #![trigger crate::engine::has_frame(after, one), crate::engine::has_frame(after, other)]
            one != other && crate::engine::has_frame(after, one) && crate::engine::has_frame(
                after,
                other,
            ) implies crate::engine::frame_lease(after, one) != crate::engine::frame_lease(
            after,
            other,
        ) by {
            if one != key {
                assert(crate::engine::has_frame(before, one));
                assert(before.contains_key(one));
            }
            if other != key {
                assert(crate::engine::has_frame(before, other));
                assert(before.contains_key(other));
            }
        }
    }

    /// Recording a committed mutation turns its reservations into what is
    /// retained, and keeps the invariant.
    proof fn result_recorded_keeps(
        self,
        limits: LimitValues,
        work: DocumentMutationWork,
        lease: MutationResultLeaseId,
        live_version: crate::identity::DocumentVersion,
        created_nodes: Vec<crate::identity::NodeId>,
        rendered: bool,
    )
        requires
            !(self.lifecycle is Stopped),
            self.inv(limits, work.reservation()),
            self.lifecycle is Running,
            self.result_recordable(limits, work, Some(lease), created_nodes@),
            lease.value() < u64::MAX,
        ensures
            self.result_recorded(work, lease, live_version, created_nodes, rendered).inv(
                limits,
                Reservation::nothing(),
            ),
            self.follows(
                self.result_recorded(work, lease, live_version, created_nodes, rendered),
            ),
    {
        let next = self.result_recorded(work, lease, live_version, created_nodes, rendered);
        let key = crate::engine::context_key(work.navigation);
        let context = next.contexts[key];
        crate::accounting::map_total_insert(
            self.contexts,
            crate::engine::frame_charges(),
            key,
            context,
        );
        crate::accounting::map_total_insert(
            self.contexts,
            crate::engine::document_charges(),
            key,
            context,
        );
        let stored = next.mutation_results[lease.value()];
        crate::accounting::map_total_insert(
            self.mutation_results,
            crate::engine::result_charges(),
            lease.value(),
            stored,
        );
        assert(next.contexts.dom() =~= self.contexts.dom());
        Self::leases_stay_distinct(self.contexts, next.contexts);
        assert(next.retained_exactly());
    }
}

impl EngineModel {
    /// What comes after what comes after a state comes after it, as long as no
    /// context left in between came back with an earlier generation.
    proof fn follows_on(self, middle: Self, last: Self)
        requires
            self.follows(middle),
            middle.follows(last),
            middle.contexts.dom() == self.contexts.dom(),
        ensures
            self.follows(last),
    {
        assert forall|key: u64|
            #![trigger last.contexts.contains_key(key)]
            self.contexts.contains_key(key) && last.contexts.contains_key(key) implies
            self.contexts[key].latest_generation.value()
                <= last.contexts[key].latest_generation.value() by {
            assert(middle.contexts.dom().contains(key));
            assert(middle.contexts.contains_key(key));
        }
    }

    /// Failing a navigation over a bound keeps the invariant.
    proof fn rejected_keeps(
        self,
        limits: LimitValues,
        executing: Reservation,
        phase: NavigationEventPhase,
        navigation: NavigationId,
        stage: crate::failure::NavigationStage,
    )
        requires
            !(self.lifecycle is Stopped),
            self.inv(limits, executing),
        ensures
            self.navigation_rejected(limits, phase, navigation, stage).0.inv(limits, executing),
            self.follows(self.navigation_rejected(limits, phase, navigation, stage).0),
    {
        let kind = EngineEventKind::NavigationFailed {
            navigation,
            failure: ExecutionFailure::of(
                crate::failure::ExecutionFailureKind::ResourceLimit,
                stage,
            ),
        };
        if self.event_error(limits, phase, kind) is None {
            self.settled_event_keeps(limits, executing, navigation, kind);
        }
    }

    /// Queueing the last event of a navigation keeps the invariant.
    proof fn settled_event_keeps(
        self,
        limits: LimitValues,
        executing: Reservation,
        navigation: NavigationId,
        kind: EngineEventKind,
    )
        requires
            !(self.lifecycle is Stopped),
            self.inv(limits, executing),
            self.events.len() < limits.event_capacity,
            self.sequences_available(1),
        ensures
            self.event_queued(kind).navigation_settled(navigation).inv(limits, executing),
            self.follows(self.event_queued(kind).navigation_settled(navigation)),
    {
        self.event_queued_keeps(limits, executing, kind);
        self.event_queued(kind).navigation_settled_keeps(limits, executing, navigation);
        self.follows_on(
            self.event_queued(kind),
            self.event_queued(kind).navigation_settled(navigation),
        );
    }

    /// Publishing an executor output keeps the invariant.
    proof fn success_published_keeps(
        self,
        limits: LimitValues,
        executing: Reservation,
        phase: NavigationEventPhase,
        navigation: NavigationId,
        request: NavigationRequest,
        output: ExecutorOutput,
    )
        requires
            !(self.lifecycle is Stopped),
            self.inv(limits, executing),
            self.success_outcome(limits, phase, navigation, request, output).2 == Ok::<
                bool,
                WorkerStopReason,
            >(true),
        ensures
            self.success_outcome(limits, phase, navigation, request, output).0.inv(
                limits,
                executing,
            ),
            self.follows(self.success_outcome(limits, phase, navigation, request, output).0),
    {
        let next = self.success_outcome(limits, phase, navigation, request, output).0;
        let key = crate::engine::context_key(navigation);
        let context = next.contexts[key];
        let retained = self.frame_replacement(limits, navigation, output.frame)->Ok_0->0;
        assert(next == self.success_published(navigation, request, output, retained));
        crate::accounting::map_total_insert(
            self.contexts,
            crate::engine::frame_charges(),
            key,
            context,
        );
        crate::accounting::map_total_insert(
            self.contexts,
            crate::engine::document_charges(),
            key,
            context,
        );
        self.without_results_retains(navigation.context_of());
        assert(next.mutation_results =~= self.results_elsewhere(navigation.context_of()));
        assert(next.contexts =~= self.contexts.insert(key, context));
        assert(next.contexts.dom() =~= self.contexts.dom());
        Self::new_lease_is_distinct(self.contexts, next.contexts, key, self.next_frame_lease);
        assert(next.events.len() == self.events.len() + 2);
        assert(next.events[self.events.len() as int].sequence.value()
            == self.next_event_sequence);
        assert(next.events[self.events.len() as int + 1].sequence.value() == self.next_event_sequence + 1);
        assert(next.retained_exactly());
        assert(next.identities_below_next());
    }

    /// Publishing whatever an executor handed back keeps the invariant.
    proof fn result_outcome_keeps(
        self,
        limits: LimitValues,
        executing: Reservation,
        phase: NavigationEventPhase,
        navigation: NavigationId,
        request: NavigationRequest,
        result: Result<ExecutorOutput, ExecutionFailure>,
    )
        requires
            !(self.lifecycle is Stopped),
            self.inv(limits, executing),
        ensures
            self.result_outcome(limits, phase, navigation, request, result).0.inv(
                limits,
                executing,
            ),
            self.follows(self.result_outcome(limits, phase, navigation, request, result).0),
    {
        match result {
            Ok(output) => {
                self.rejected_keeps(
                    limits,
                    executing,
                    phase,
                    navigation,
                    crate::failure::NavigationStage::Render,
                );
                self.rejected_keeps(
                    limits,
                    executing,
                    phase,
                    navigation,
                    crate::failure::NavigationStage::Document,
                );
                if self.success_outcome(limits, phase, navigation, request, output).2 == Ok::<
                    bool,
                    WorkerStopReason,
                >(true) {
                    self.success_published_keeps(
                        limits,
                        executing,
                        phase,
                        navigation,
                        request,
                        output,
                    );
                }
            },
            Err(failure) => {
                let kind = if failure.kind is Cancelled {
                    EngineEventKind::NavigationCancelled { navigation }
                } else {
                    EngineEventKind::NavigationFailed { navigation, failure }
                };
                if self.event_error(limits, phase, kind) is None {
                    self.settled_event_keeps(limits, executing, navigation, kind);
                }
            },
        }
    }

    /// Beginning a navigation keeps the invariant.
    pub proof fn navigation_begun_keeps(
        self,
        limits: LimitValues,
        navigation: NavigationId,
        cancelled: bool,
        phase: NavigationEventPhase,
    )
        requires
            !(self.lifecycle is Stopped),
            self.inv(limits, Reservation::nothing()),
        ensures
            self.navigation_begun(limits, navigation, cancelled, phase).0.inv(
                limits,
                Reservation::nothing(),
            ),
            self.follows(self.navigation_begun(limits, navigation, cancelled, phase).0),
    {
        let idle = Reservation::nothing();
        let execute = self.is_current(navigation) && !cancelled;
        let kind = if execute {
            EngineEventKind::NavigationStarted { navigation }
        } else {
            EngineEventKind::NavigationCancelled { navigation }
        };
        match self.event_error(limits, phase, kind) {
            Some(reason) => self.stopping_keeps(limits, idle, reason),
            None => {
                self.event_queued_keeps(limits, idle, kind);
                self.settled_event_keeps(limits, idle, navigation, kind);
            },
        }
    }

    /// Finishing a navigation keeps the invariant.
    pub proof fn navigation_finished_keeps(
        self,
        limits: LimitValues,
        navigation: NavigationId,
        request: NavigationRequest,
        cancelled: bool,
        phase: NavigationEventPhase,
        result: Result<ExecutorOutput, ExecutionFailure>,
    )
        requires
            !(self.lifecycle is Stopped),
            self.inv(limits, Reservation::nothing()),
        ensures
            self.navigation_finished(
                limits,
                navigation,
                request,
                cancelled,
                phase,
                result,
            ).0.inv(limits, Reservation::nothing()),
    {
        let idle = Reservation::nothing();
        if !(self.lifecycle is Stopping) {
            let (state, next, outcome) = self.navigation_result(
                limits,
                navigation,
                request,
                cancelled,
                phase,
                result,
            );
            if !self.is_current(navigation) || cancelled {
                let kind = EngineEventKind::NavigationCancelled { navigation };
                self.navigation_settled_keeps(limits, idle, navigation);
                if self.event_error(limits, phase, kind) is None {
                    self.settled_event_keeps(limits, idle, navigation, kind);
                }
            } else {
                self.result_outcome_keeps(limits, idle, phase, navigation, request, result);
            }
            assert(state.inv(limits, idle));
            let published = outcome == Ok::<bool, WorkerStopReason>(true);
            let told = state.owing(
                seq![EngineEffect::AcknowledgeNavigation { navigation, published }],
            );
            assert(told.inv(limits, idle));
            if let Err(reason) = outcome {
                told.stopping_keeps(limits, idle, reason);
            }
            told.stopping_keeps(limits, idle, WorkerStopReason::RendererUnavailable);
        }
    }

    /// Beginning a mutation keeps the invariant: what it reserved stays
    /// reserved exactly as long as it is to be executed.
    pub proof fn mutation_begun_keeps(
        self,
        limits: LimitValues,
        work: DocumentMutationWork,
        cancelled: bool,
    )
        requires
            !(self.lifecycle is Stopped),
            self.inv(limits, work.reservation()),
            self.lifecycle is Running,
        ensures
            self.mutation_begun(limits, work, cancelled).0.inv(
                limits,
                if self.mutation_begun(limits, work, cancelled).1 == Ok::<
                    Option<DocumentPublicationReservation>,
                    WorkerStopReason,
                >(None) {
                    Reservation::nothing()
                } else {
                    work.reservation()
                },
            ),
    {
        let idle = Reservation::nothing();
        self.released_keeps(limits, work.reservation());
        let released = self.released(work.reservation());
        released.operation_settled_keeps(limits, idle, work.navigation, work.operation);
        let given_back = released.operation_settled(work.navigation, work.operation);
        if let Ok(reservation) = self.publication_reservation(limits, true) {
            let failure = if cancelled {
                crate::failure::DocumentOperationFailure::Cancelled
            } else {
                crate::failure::DocumentOperationFailure::ResourceLimit
            };
            let kind = EngineEventKind::DocumentMutationRejected {
                navigation: work.navigation,
                operation: work.operation,
                live_version: Some(self.live_version(work.navigation)),
                frame_version: Some(self.frame_version(work.navigation)),
                failure,
            };
            given_back.reserved_event_keeps(limits, idle, reservation.sequence, kind);
            assert(given_back.reserved_event(limits, reservation.sequence, kind).1 is Ok);
        }
    }

    /// Finishing a mutation keeps the invariant and leaves nothing reserved
    /// for it.
    pub proof fn mutation_finished_keeps(
        self,
        limits: LimitValues,
        work: DocumentMutationWork,
        reservation: DocumentPublicationReservation,
        outcome: ExecutorDocumentMutation,
        max_created_nodes: usize,
    )
        requires
            !(self.lifecycle is Stopped),
            self.inv(limits, work.reservation()),
            !(self.lifecycle is Stopped),
            reservation.frame.value() < u64::MAX,
        ensures
            self.mutation_finished(
                limits,
                work,
                reservation,
                outcome,
                max_created_nodes,
            ).0.inv(limits, Reservation::nothing()),
    {
        let idle = Reservation::nothing();
        if self.lifecycle is Running {
            self.refused_keeps(limits, work);
            self.released_keeps(limits, work.reservation());
            let released = self.released(work.reservation());
            if !self.operation_is_current(
                work.navigation,
                work.batch.expected_version,
                work.operation,
            ) {
                released.stale_operation_keeps(
                    limits,
                    idle,
                    work.navigation,
                    work.operation,
                    outcome.changed_state(),
                    outcome.lost_renderer(),
                );
            } else {
                match outcome {
                    ExecutorDocumentMutation::Rendered {
                        previous_live_version,
                        previous_frame_version,
                        commit,
                        frame,
                    } => {
                        self.rendered_keeps(
                            limits,
                            work,
                            reservation,
                            previous_live_version,
                            previous_frame_version,
                            commit,
                            frame,
                            max_created_nodes,
                        );
                    },
                    ExecutorDocumentMutation::Invalidated => {},
                    ExecutorDocumentMutation::CommittedWithoutFrame {
                        previous_live_version,
                        frame_version,
                        commit,
                        failure,
                    } => {
                        self.committed_keeps(
                            limits,
                            work,
                            reservation,
                            previous_live_version,
                            frame_version,
                            commit,
                            failure,
                            max_created_nodes,
                        );
                    },
                    ExecutorDocumentMutation::Rejected { live_version, frame_version, failure } => {
                        let kind = EngineEventKind::DocumentMutationRejected {
                            navigation: work.navigation,
                            operation: work.operation,
                            live_version,
                            frame_version,
                            failure,
                        };
                        released.reserved_event_keeps(limits, idle, reservation.sequence, kind);
                        Self::concluded_keeps(
                            released.reserved_event(limits, reservation.sequence, kind),
                            limits,
                            idle,
                            work.navigation,
                            work.operation,
                            failure is RendererUnavailable,
                        );
                    },
                }
            }
        }
    }

    /// Refusing an executor outcome keeps the invariant.
    proof fn refused_keeps(self, limits: LimitValues, work: DocumentMutationWork)
        requires
            !(self.lifecycle is Stopped),
            self.inv(limits, work.reservation()),
            self.lifecycle is Running,
        ensures
            self.mutation_refused(work).0.inv(limits, Reservation::nothing()),
    {
        self.released_keeps(limits, work.reservation());
        self.released(work.reservation()).contract_broken_keeps(
            limits,
            Reservation::nothing(),
            work.navigation,
        );
    }

    proof fn rendered_keeps(
        self,
        limits: LimitValues,
        work: DocumentMutationWork,
        reservation: DocumentPublicationReservation,
        previous_live_version: crate::identity::DocumentVersion,
        previous_frame_version: crate::identity::DocumentVersion,
        commit: crate::executor::DocumentMutationCommit,
        frame: EngineFrame,
        max_created_nodes: usize,
    )
        requires
            !(self.lifecycle is Stopped),
            self.inv(limits, work.reservation()),
            self.lifecycle is Running,
            reservation.frame.value() < u64::MAX,
        ensures
            self.mutation_rendered(
                limits,
                work,
                reservation,
                previous_live_version,
                previous_frame_version,
                commit,
                frame,
                max_created_nodes,
            ).0.inv(limits, Reservation::nothing()),
    {
        let idle = Reservation::nothing();
        self.refused_keeps(limits, work);
        self.frame_published_keeps(
            limits,
            work.reservation(),
            work.navigation,
            reservation.frame,
            frame,
        );
        let framed = self.frame_published(limits, work.navigation, reservation.frame, frame).0;
        framed.refused_keeps(limits, work);
        let (recorded, result) = framed.result_outcome_recorded(
            limits,
            work,
            reservation.result,
            commit.version,
            commit.created_nodes,
            true,
        );
        if result is Ok {
            framed.result_recorded_keeps(
                limits,
                work,
                reservation.result->0,
                commit.version,
                commit.created_nodes,
                true,
            );
            let kind = EngineEventKind::DocumentMutationRendered {
                navigation: work.navigation,
                operation: work.operation,
                previous_live_version,
                previous_frame_version,
                live_version: commit.version,
                result: reservation.result->0,
                created_nodes: work.reserved_created_nodes,
                frame: reservation.frame,
                metadata: frame.metadata_of(),
            };
            recorded.reserved_event_keeps(limits, idle, reservation.sequence, kind);
            Self::concluded_keeps(
                recorded.reserved_event(limits, reservation.sequence, kind),
                limits,
                idle,
                work.navigation,
                work.operation,
                false,
            );
        } else {
            recorded.refused_keeps(limits, work);
        }
    }

    proof fn committed_keeps(
        self,
        limits: LimitValues,
        work: DocumentMutationWork,
        reservation: DocumentPublicationReservation,
        previous_live_version: crate::identity::DocumentVersion,
        frame_version: crate::identity::DocumentVersion,
        commit: crate::executor::DocumentMutationCommit,
        failure: crate::failure::DocumentOperationFailure,
        max_created_nodes: usize,
    )
        requires
            !(self.lifecycle is Stopped),
            self.inv(limits, work.reservation()),
            self.lifecycle is Running,
        ensures
            self.mutation_committed(
                limits,
                work,
                reservation,
                previous_live_version,
                frame_version,
                commit,
                failure,
                max_created_nodes,
            ).0.inv(limits, Reservation::nothing()),
    {
        let idle = Reservation::nothing();
        self.refused_keeps(limits, work);
        let (recorded, result) = self.result_outcome_recorded(
            limits,
            work,
            reservation.result,
            commit.version,
            commit.created_nodes,
            false,
        );
        if result is Ok {
            self.result_recorded_keeps(
                limits,
                work,
                reservation.result->0,
                commit.version,
                commit.created_nodes,
                false,
            );
            let kind = EngineEventKind::DocumentMutationCommittedWithoutFrame {
                navigation: work.navigation,
                operation: work.operation,
                previous_live_version,
                live_version: commit.version,
                frame_version,
                result: reservation.result->0,
                created_nodes: work.reserved_created_nodes,
                failure,
            };
            recorded.reserved_event_keeps(limits, idle, reservation.sequence, kind);
            Self::concluded_keeps(
                recorded.reserved_event(limits, reservation.sequence, kind),
                limits,
                idle,
                work.navigation,
                work.operation,
                failure is RendererUnavailable,
            );
        }
    }

    /// Beginning a rerender keeps the invariant.
    pub proof fn rerender_begun_keeps(
        self,
        limits: LimitValues,
        work: DocumentRerenderWork,
        cancelled: bool,
    )
        requires
            !(self.lifecycle is Stopped),
            self.inv(limits, Reservation::nothing()),
        ensures
            self.rerender_begun(limits, work, cancelled).0.inv(limits, Reservation::nothing()),
    {
        let idle = Reservation::nothing();
        self.operation_settled_keeps(limits, idle, work.navigation, work.operation);
        let settled = self.operation_settled(work.navigation, work.operation);
        if let Ok(reservation) = self.publication_reservation(limits, false) {
            let failure = if cancelled {
                crate::failure::DocumentOperationFailure::Cancelled
            } else {
                crate::failure::DocumentOperationFailure::ResourceLimit
            };
            let kind = EngineEventKind::DocumentRerenderRejected {
                navigation: work.navigation,
                operation: work.operation,
                live_version: Some(self.live_version(work.navigation)),
                frame_version: Some(self.frame_version(work.navigation)),
                failure,
            };
            settled.reserved_event_keeps(limits, idle, reservation.sequence, kind);
        }
    }

    /// Finishing a rerender keeps the invariant.
    pub proof fn rerender_finished_keeps(
        self,
        limits: LimitValues,
        work: DocumentRerenderWork,
        reservation: DocumentPublicationReservation,
        outcome: ExecutorDocumentRerender,
    )
        requires
            !(self.lifecycle is Stopped),
            self.inv(limits, Reservation::nothing()),
            reservation.frame.value() < u64::MAX,
        ensures
            self.rerender_finished(limits, work, reservation, outcome).0.inv(
                limits,
                Reservation::nothing(),
            ),
    {
        let idle = Reservation::nothing();
        self.contract_broken_keeps(limits, idle, work.navigation);
        self.stale_operation_keeps(
            limits,
            idle,
            work.navigation,
            work.operation,
            outcome.changed_state(),
            outcome.lost_renderer(),
        );
        match outcome {
            ExecutorDocumentRerender::Rendered { live_version, previous_frame_version, frame } => {
                self.frame_published_keeps(
                    limits,
                    idle,
                    work.navigation,
                    reservation.frame,
                    frame,
                );
                let (framed, published) = self.frame_published(
                    limits,
                    work.navigation,
                    reservation.frame,
                    frame,
                );
                framed.contract_broken_keeps(limits, idle, work.navigation);
                if self.operation_is_current(
                    work.navigation,
                    work.expected_live_version,
                    work.operation,
                ) && published is Ok {
                    let advanced = framed.frame_version_advanced(work.navigation, live_version);
                    let key = crate::engine::context_key(work.navigation);
                    framed.touched_keeps(limits, idle, work.navigation, advanced.contexts[key]);
                    let kind = EngineEventKind::DocumentRerendered {
                        navigation: work.navigation,
                        operation: work.operation,
                        live_version,
                        previous_frame_version,
                        frame: reservation.frame,
                        metadata: frame.metadata_of(),
                    };
                    advanced.reserved_event_keeps(limits, idle, reservation.sequence, kind);
                    Self::concluded_keeps(
                        advanced.reserved_event(limits, reservation.sequence, kind),
                        limits,
                        idle,
                        work.navigation,
                        work.operation,
                        false,
                    );
                }
            },
            ExecutorDocumentRerender::Rejected { live_version, frame_version, failure } => {
                let kind = EngineEventKind::DocumentRerenderRejected {
                    navigation: work.navigation,
                    operation: work.operation,
                    live_version,
                    frame_version,
                    failure,
                };
                self.reserved_event_keeps(limits, idle, reservation.sequence, kind);
                Self::concluded_keeps(
                    self.reserved_event(limits, reservation.sequence, kind),
                    limits,
                    idle,
                    work.navigation,
                    work.operation,
                    failure is RendererUnavailable,
                );
            },
            ExecutorDocumentRerender::Invalidated => {},
        }
    }
}

impl EngineModel {
    /// Taking work out of the queue keeps the invariant: what a mutation
    /// reserved in the queue is reserved for the mutation that executes.
    pub proof fn dequeued_keeps(self, limits: LimitValues)
        requires
            self.inv(limits, Reservation::nothing()),
        ensures
            self.dequeued().0.inv(
                limits,
                match self.dequeued().1 {
                    Ok(DequeuedWork::Engine(work)) => work.reservation(),
                    _ => Reservation::nothing(),
                },
            ),
            self.follows(self.dequeued().0),
    {
        if self.context_closures.len() == 0 && self.commands.len() > 0 {
            Self::queue_pop(self.commands);
        }
    }

    /// Telling the receiver that a context closed keeps the invariant.
    pub proof fn closure_published_keeps(self, limits: LimitValues, navigation: NavigationId)
        requires
            !(self.lifecycle is Stopped),
            self.inv(limits, Reservation::nothing()),
        ensures
            self.closure_published(limits, navigation).0.inv(limits, Reservation::nothing()),
            self.follows(self.closure_published(limits, navigation).0),
    {
        let idle = Reservation::nothing();
        let key = crate::engine::context_key(navigation);
        let closed = EngineModel { closing_contexts: self.closing_contexts.remove(key), ..self };
        assert(closed.inv(limits, idle));
        closed.stopping_keeps(limits, idle, WorkerStopReason::EventQueueSaturated);
        if self.events.len() < limits.event_capacity && self.sequences_available(1) {
            closed.event_queued_keeps(
                limits,
                idle,
                EngineEventKind::ContextClosed { navigation },
            );
        }
    }

    /// Ending the worker keeps the invariant, whatever was executing.
    pub proof fn worker_finished_keeps(
        self,
        limits: LimitValues,
        executing: Reservation,
        status: EngineShutdownStatus,
    )
        requires
            self.inv(limits, executing),
        ensures
            self.worker_finished(status).inv(limits, Reservation::nothing()),
            self.follows(self.worker_finished(status)),
    {
        let next = self.worker_finished(status);
        if !(self.lifecycle is Stopped) {
            let settled = crate::control::swept(ContextSweep::Settle, self.contexts);
            assert(settled.dom() =~= self.contexts.dom());
            assert(next.contexts.dom() =~= self.contexts.dom());
            crate::accounting::map_total_same(
                self.contexts,
                settled,
                crate::engine::frame_charges(),
            );
            crate::accounting::map_total_same(
                self.contexts,
                next.contexts,
                crate::engine::document_charges(),
            );
            if !self.receiver_open {
                crate::accounting::map_total_zero(next.contexts, crate::engine::frame_charges());
            }
            Self::leases_stay_distinct(self.contexts, next.contexts);
        }
    }

    /// Receiving an event keeps the invariant.
    pub proof fn event_received_keeps(self, limits: LimitValues, executing: Reservation)
        requires
            self.inv(limits, executing),
        ensures
            self.event_received().0.inv(limits, executing),
            self.follows(self.event_received().0),
    {
    }

    /// Taking a frame keeps the invariant.
    pub proof fn frame_taken_keeps(
        self,
        limits: LimitValues,
        executing: Reservation,
        key: u64,
        lease: FrameLeaseId,
    )
        requires
            self.inv(limits, executing),
            self.holds_lease(key, lease),
        ensures
            self.frame_taken(key).inv(limits, executing),
            self.follows(self.frame_taken(key)),
    {
        let next = self.frame_taken(key);
        let context = next.contexts[key];
        crate::accounting::map_total_insert(
            self.contexts,
            crate::engine::frame_charges(),
            key,
            context,
        );
        crate::accounting::map_total_insert(
            self.contexts,
            crate::engine::document_charges(),
            key,
            context,
        );
        assert(next.contexts.dom() =~= self.contexts.dom());
        Self::leases_stay_distinct(self.contexts, next.contexts);
    }

    /// A frame lease is good for one transfer: once its frame was taken, no
    /// context holds it.
    pub proof fn frame_lease_is_one_shot(
        self,
        limits: LimitValues,
        executing: Reservation,
        key: u64,
        lease: FrameLeaseId,
    )
        requires
            self.inv(limits, executing),
            self.holds_lease(key, lease),
        ensures
            forall|other: u64| !#[trigger] self.frame_taken(key).holds_lease(other, lease),
            lease.value() < self.frame_taken(key).next_frame_lease,
    {
        let next = self.frame_taken(key);
        assert forall|other: u64| !#[trigger] next.holds_lease(other, lease) by {
            if next.holds_lease(other, lease) {
                assert(crate::engine::has_frame(self.contexts, other));
                assert(crate::engine::has_frame(self.contexts, key));
            }
        }
    }

    /// What a frame lease was charged is always there to be given back, so that
    /// taking a current frame never fails.
    pub proof fn frame_charge_is_retained(
        self,
        limits: LimitValues,
        executing: Reservation,
        key: u64,
    )
        requires
            self.inv(limits, executing),
            self.contexts.contains_key(key),
        ensures
            crate::engine::frame_charge(self.contexts[key]) <= self.retained_frame_bytes,
            crate::engine::document_charge(self.contexts[key]) <= self.retained_document_nodes,
    {
        crate::accounting::map_total_remove(self.contexts, crate::engine::frame_charges(), key);
        crate::accounting::map_total_remove(self.contexts, crate::engine::document_charges(), key);
    }

    /// Taking a created-node mapping keeps the invariant, never fails for want
    /// of what it was charged, and leaves a lease that is stale from then on.
    pub proof fn result_taken_keeps(
        self,
        limits: LimitValues,
        executing: Reservation,
        lease: MutationResultLeaseId,
    )
        requires
            self.inv(limits, executing),
            self.mutation_results.contains_key(lease.value()),
        ensures
            self.result_taken(lease.value()).inv(limits, executing),
            self.follows(self.result_taken(lease.value())),
            crate::engine::result_units(
                self.mutation_results[lease.value()].created_nodes@,
            ) <= self.retained_mutation_result_nodes,
            !self.result_taken(lease.value()).mutation_results.contains_key(lease.value()),
            lease.value() < self.result_taken(lease.value()).next_mutation_result_lease,
    {
        crate::accounting::map_total_remove(
            self.mutation_results,
            crate::engine::result_charges(),
            lease.value(),
        );
    }

    /// Dropping the receiver keeps the invariant, and nothing is held for it
    /// any more.
    pub proof fn receiver_dropped_keeps(self, limits: LimitValues, executing: Reservation)
        requires
            self.inv(limits, executing),
        ensures
            self.receiver_dropped().inv(limits, Reservation::nothing()),
            self.follows(self.receiver_dropped()),
            !(self.receiver_dropped().lifecycle is Running),
            forall|key: u64|
                #![trigger self.receiver_dropped().contexts[key]]
                self.contexts.contains_key(key)
                    ==> self.receiver_dropped().contexts[key].current_frame is None
                    && self.receiver_dropped().contexts[key].document is None,
    {
        let next = self.receiver_dropped();
        let cleared = crate::control::swept(ContextSweep::Clear, self.contexts);
        assert(cleared.dom() =~= self.contexts.dom());
        assert(next.contexts.dom() =~= self.contexts.dom());
        crate::accounting::map_total_zero(next.contexts, crate::engine::frame_charges());
        crate::accounting::map_total_zero(next.contexts, crate::engine::document_charges());
        crate::accounting::map_total_empty(crate::engine::result_charges());
        Self::leases_stay_distinct(self.contexts, next.contexts);
    }
}

impl EngineModel {
    /// Controls ignore saturation: whether a cancellation, a closure or a
    /// shutdown is accepted depends on neither queue.
    pub proof fn controls_ignore_saturation(
        self,
        limits: LimitValues,
        command: EngineCommand,
        inputs: CommandInputs,
        commands: Seq<EngineWork>,
        events: Seq<crate::event::EngineEvent>,
    )
        requires
            command is Cancel || command is CancelDocumentOperation || command is CloseContext
                || command is Shutdown,
        ensures
            (EngineModel { commands, events, ..self }).command_error(limits, command, inputs)
                == self.command_error(limits, command, inputs),
    {
    }

    /// A context identity that was admitted and is gone is refused, and no
    /// accepted command brings it back.
    pub proof fn retired_context_stays_gone(
        self,
        limits: LimitValues,
        navigation: NavigationId,
        command: EngineCommand,
        inputs: CommandInputs,
    )
        requires
            self.was_admitted(crate::engine::context_key(navigation)),
            !self.contexts.contains_key(crate::engine::context_key(navigation)),
        ensures
            self.navigation_error(limits, navigation) is Some,
            self.command_error(limits, command, inputs) is None ==> !self.command_accepted(
                command,
                inputs,
            ).contexts.contains_key(crate::engine::context_key(navigation)),
    {
        let key = crate::engine::context_key(navigation);
        if self.command_error(limits, command, inputs) is None {
            if let EngineCommand::Shutdown = command {
                let next = self.stopping(WorkerStopReason::Requested);
                assert(next.contexts.dom() =~= self.contexts.dom());
                assert(!next.contexts.dom().contains(key));
            }
        }
    }

    /// A navigation that was accepted supersedes every other one of its context: it is
    /// current, and no other generation of its context is.
    pub proof fn navigation_supersedes(
        self,
        limits: LimitValues,
        navigation: NavigationId,
        request: NavigationRequest,
        ticket: u64,
        other: NavigationId,
    )
        requires
            self.navigation_error(limits, navigation) is None,
            other.context_of() == navigation.context_of(),
            other.generation_of() != navigation.generation_of(),
        ensures
            self.navigation_queued(navigation, request, ticket).is_current(navigation),
            !self.navigation_queued(navigation, request, ticket).is_current(other),
            self.context(navigation) matches Some(context) ==> context.latest_generation.value()
                < navigation.generation_of().value(),
    {
    }

    /// Events that wait at the end of a history of steps waited at its start or
    /// are newer than all before.
    pub proof fn events_follow_along(states: Seq<Self>)
        requires
            states.len() > 0,
            forall|i: int|
                0 <= i < states.len() - 1 ==> (#[trigger] states[i]).events_follow(states[i + 1]),
        ensures
            states[0].events_follow(states.last()),
        decreases states.len(),
    {
        if states.len() > 1 {
            let shorter = states.drop_last();
            assert forall|i: int| 0 <= i < shorter.len() - 1 implies (
            #[trigger] shorter[i]).events_follow(shorter[i + 1]) by {
                assert(states[i].events_follow(states[i + 1]));
            }
            Self::events_follow_along(shorter);
            let middle = shorter.last();
            assert(states[states.len() - 2].events_follow(states[states.len() - 1]));
            assert forall|event: EngineEvent| #[trigger]
                states.last().pending_event(event) implies states[0].pending_event(event)
                || states[0].next_event_sequence <= event.sequence.value() by {
                if middle.pending_event(event) {
                }
            }
        }
    }

    /// Received event sequences strictly increase, the terminal event included:
    /// of two events of which one is received from `self`, and the other after
    /// any history of steps from there on, the later has the greater sequence.
    pub proof fn received_sequences_increase(
        self,
        limits: LimitValues,
        executing: Reservation,
        states: Seq<Self>,
        earlier: EngineEvent,
        later: EngineEvent,
    )
        requires
            self.inv(limits, executing),
            self.event_received().1 == Ok::<EngineEvent, EventReceiveError>(earlier),
            states.len() > 0,
            states[0] == self.event_received().0,
            forall|i: int|
                0 <= i < states.len() - 1 ==> (#[trigger] states[i]).follows(states[i + 1]),
            states.last().event_received().1 == Ok::<EngineEvent, EventReceiveError>(later),
        ensures
            0 < earlier.sequence.value() < later.sequence.value(),
    {
        assert forall|i: int| 0 <= i < states.len() - 1 implies (
        #[trigger] states[i]).events_follow(states[i + 1]) by {
            assert(states[i].follows(states[i + 1]));
        }
        Self::events_follow_along(states);
        let last = states.last();
        if last.events.len() > 0 {
            assert(last.events.contains(last.events[0]));
        }
        assert(last.pending_event(later));
        if states[0].pending_event(later) {
            if states[0].events.contains(later) {
                let i = choose|i: int|
                    0 <= i < states[0].events.len() && states[0].events[i] == later;
                assert(self.events[i + 1] == later);
            }
        }
    }
}

} // verus!
