//! The unique event consumer and its one-shot transfers.

use vstd::prelude::*;

use crate::collections::{
    map_get, map_insert, map_keys, map_remove, pair_map_remove, pair_set_contains,
};
use crate::control::{request_stop, sweep_contexts, ContextSweep};
use crate::engine::{ContextState, EngineModel, Lifecycle, SharedState};
use crate::event::{
    EngineEvent, EngineEventKind, EventReceiveError, FrameLease, FrameLeaseError,
    MutationResultLease, MutationResultLeaseError, NavigationCommit, NavigationCommitError,
};
use crate::failure::WorkerStopReason;
use crate::identity::{FrameLeaseId, MutationResultLeaseId, NavigationId};

verus! {

impl EngineModel {
    /// Outcome of receiving the next event. Advancing to a frame declines the
    /// commitment that was announced before it.
    pub open spec fn event_received(self) -> (Self, Result<EngineEvent, EventReceiveError>) {
        if self.events.len() > 0 {
            let event = self.events[0];
            let rest = EngineModel {
                events: self.events.subrange(1, self.events.len() as int),
                ..self
            };
            (
                if let EngineEventKind::FrameReady { navigation, .. } = event.kind {
                    EngineModel {
                        navigation_commits: self.navigation_commits.remove(
                            crate::engine::navigation_key(navigation),
                        ),
                        ..rest
                    }
                } else {
                    rest
                },
                Ok(event),
            )
        } else if let Some(event) = self.terminal_event {
            (EngineModel { terminal_event: None, ..self }, Ok(event))
        } else if let Lifecycle::Stopped(status) = self.lifecycle {
            (self, Err(EventReceiveError::Closed(status)))
        } else {
            (self, Err(EventReceiveError::Empty))
        }
    }

    /// Whether the current frame of the context under `key` has this lease.
    pub open spec fn holds_lease(self, key: u64, lease: FrameLeaseId) -> bool {
        &&& self.contexts.contains_key(key)
        &&& self.contexts[key].current_frame matches Some(stored)
        &&& stored.lease == lease
    }

    /// The state after the current frame of the context under `key` was taken.
    pub open spec fn frame_taken(self, key: u64) -> Self {
        let context = self.contexts[key];
        EngineModel {
            contexts: self.contexts.insert(
                key,
                ContextState { current_frame: None, ..context },
            ),
            retained_frame_bytes: (self.retained_frame_bytes - crate::engine::frame_charge(
                context,
            )) as usize,
            ..self
        }
    }

    /// The state after the created-node mapping under `key` was taken.
    pub open spec fn result_taken(self, key: u64) -> Self {
        EngineModel {
            mutation_results: self.mutation_results.remove(key),
            retained_mutation_result_nodes: (self.retained_mutation_result_nodes
                - crate::engine::result_units(
                self.mutation_results[key].created_nodes@,
            )) as usize,
            ..self
        }
    }

    /// The state after the receiver was dropped: everything that was held for
    /// it is gone, and a running worker stops.
    pub open spec fn receiver_dropped(self) -> Self {
        EngineModel {
            receiver_open: false,
            events: Seq::empty(),
            terminal_event: None,
            contexts: crate::control::swept(ContextSweep::Clear, self.contexts),
            retained_frame_bytes: 0,
            navigation_commits: Map::empty(),
            mutation_results: Map::empty(),
            retained_mutation_result_nodes: 0,
            pending_mutation_result_nodes: 0,
            pending_mutation_payload_bytes: 0,
            pending_document_nodes: 0,
            retained_document_nodes: 0,
            commands: Seq::empty(),
            context_closures: Seq::empty(),
            closing_contexts: Set::empty(),
            ..self
        }.owing(crate::engine::cancel_all_effects(self.contexts)).stopping(
            WorkerStopReason::EventReceiverDropped,
        )
    }
}

/// Unique bounded event consumer and frame-lease transfer endpoint.
#[derive(Debug)]
pub struct EngineEventReceiver {
    attached: bool,
}

impl EngineEventReceiver {
    /// Whether the receiver is attached, in specifications.
    pub closed spec fn is_attached(self) -> bool {
        self.attached
    }

    /// Creates the attached receiver of a fresh worker.
    pub fn new() -> (receiver: Self)
        ensures
            receiver.is_attached(),
    {
        EngineEventReceiver { attached: true }
    }

    /// Receives the next event without blocking.
    pub fn try_recv(&mut self, state: &mut SharedState) -> (result: Result<
        EngineEvent,
        EventReceiveError,
    >)
        ensures
            (final(state)@, result) == old(state)@.event_received(),
            *final(self) == *old(self),
    {
        if let Some(event) = state.events.pop_front() {
            if let EngineEventKind::FrameReady { navigation, .. } = event.kind {
                let ghost commits = state.navigation_commits@;
                let key = (navigation.context().get(), navigation.generation().get());
                let _ = pair_map_remove(&mut state.navigation_commits, key);
                assert(crate::engine::commit_models(commits.remove(key))
                    =~= crate::engine::commit_models(commits).remove(key));
            }
            assert(state@ =~= old(state)@.event_received().0);
            return Ok(event);
        }
        if let Some(event) = state.terminal_event {
            state.terminal_event = None;
            return Ok(event);
        }
        match state.lifecycle {
            Lifecycle::Stopped(status) => Err(EventReceiveError::Closed(status)),
            _ => Err(EventReceiveError::Empty),
        }
    }

    /// Transfers the commitment of one exact navigation, once. A stale identity
    /// never removes a newer commitment.
    pub fn take_navigation_commit(&mut self, state: &mut SharedState, navigation: NavigationId) -> (result:
        Result<NavigationCommit, NavigationCommitError>)
        ensures
            *final(self) == *old(self),
            ({
                let key = crate::engine::navigation_key(navigation);
                if !old(self).is_attached() {
                    result == Err::<NavigationCommit, _>(NavigationCommitError::ReceiverClosed)
                        && final(state)@ == old(state)@
                } else if old(state)@.navigation_commits.contains_key(key) {
                    &&& result matches Ok(taken)
                    &&& taken.navigation == navigation
                    &&& taken.metadata@ == old(state)@.navigation_commits[key]
                    &&& final(state)@ == (EngineModel {
                        navigation_commits: old(state)@.navigation_commits.remove(key),
                        ..old(state)@
                    })
                } else {
                    &&& final(state)@ == old(state)@
                    &&& result == Err::<NavigationCommit, _>(
                        if old(state)@.published_navigations.contains(key) {
                            NavigationCommitError::Stale
                        } else {
                            NavigationCommitError::Unknown
                        },
                    )
                }
            }),
    {
        if !self.attached {
            return Err(NavigationCommitError::ReceiverClosed);
        }
        let ghost commits = state.navigation_commits@;
        let key = (navigation.context().get(), navigation.generation().get());
        let taken = pair_map_remove(&mut state.navigation_commits, key);
        assert(crate::engine::commit_models(commits.remove(key)) =~= crate::engine::commit_models(
            commits,
        ).remove(key));
        if let Some(metadata) = taken {
            return Ok(NavigationCommit { navigation, metadata });
        }
        assert(crate::engine::commit_models(commits).remove(key) =~= crate::engine::commit_models(
            commits,
        ));
        if pair_set_contains(&state.published_navigations, key) {
            Err(NavigationCommitError::Stale)
        } else {
            Err(NavigationCommitError::Unknown)
        }
    }

    /// Transfers the current frame with one exact lease, once. A stale lease
    /// never removes a newer frame.
    pub fn take_frame(&mut self, state: &mut SharedState, lease: FrameLeaseId) -> (result: Result<
        FrameLease,
        FrameLeaseError,
    >)
        ensures
            *final(self) == *old(self),
            if !old(self).is_attached() {
                result == Err::<FrameLease, _>(FrameLeaseError::ReceiverClosed) && final(state)@
                    == old(state)@
            } else if exists|key: u64| #[trigger] old(state)@.holds_lease(key, lease) {
                exists|key: u64|
                    {
                        let context = old(state)@.contexts[key];
                        &&& #[trigger] old(state)@.holds_lease(key, lease)
                        &&& if crate::engine::frame_charge(context)
                            > old(state)@.retained_frame_bytes {
                            result == Err::<FrameLease, _>(FrameLeaseError::Unknown) && final(state)@ == old(state)@
                        } else {
                            result == Ok::<_, FrameLeaseError>(
                                FrameLease {
                                    navigation: context.current_frame->0.navigation,
                                    lease,
                                    frame: context.current_frame->0.frame,
                                },
                            ) && final(state)@ == old(state)@.frame_taken(key)
                        }
                    }
            } else {
                result == Err::<FrameLease, _>(
                    if lease.value() < old(state)@.next_frame_lease {
                        FrameLeaseError::Stale
                    } else {
                        FrameLeaseError::Unknown
                    },
                ) && final(state)@ == old(state)@
            },
    {
        if !self.attached {
            return Err(FrameLeaseError::ReceiverClosed);
        }
        let ghost before = state@;
        let keys = map_keys(&state.contexts);
        let mut index: usize = 0;
        while index < keys.len()
            invariant
                index <= keys@.len(),
                keys@.to_set() == before.contexts.dom(),
                state@ == before,
                *self == *old(self),
                before == old(state)@,
                old(self).is_attached(),
                forall|j: int| 0 <= j < index ==> !before.holds_lease(#[trigger] keys@[j], lease),
            decreases keys@.len() - index,
        {
            let key: u64 = keys[index];
            let mut bytes: Option<usize> = None;
            if let Some(context) = map_get(&state.contexts, key) {
                if let Some(stored) = &context.current_frame {
                    if stored.lease == lease {
                        bytes = Some(stored.frame.metadata().total_bytes());
                    }
                }
            }
            if let Some(bytes) = bytes {
                assert(before.holds_lease(key, lease));
                let retained_after: usize = match state.retained_frame_bytes.checked_sub(bytes) {
                    Some(retained_after) => retained_after,
                    None => return Err(FrameLeaseError::Unknown),
                };
                if let Some(context) = map_remove(&mut state.contexts, key) {
                    let mut context = context;
                    let taken = context.current_frame.take();
                    let _ = map_insert(&mut state.contexts, key, context);
                    state.retained_frame_bytes = retained_after;
                    assert(state@ =~= before.frame_taken(key));
                    if let Some(stored) = taken {
                        return Ok(
                            FrameLease {
                                navigation: stored.navigation,
                                lease: stored.lease,
                                frame: stored.frame,
                            },
                        );
                    }
                }
                return Err(FrameLeaseError::Unknown);
            }
            index = index + 1;
        }
        proof {
            assert forall|key: u64| !#[trigger] before.holds_lease(key, lease) by {
                if before.contexts.contains_key(key) {
                    assert(keys@.to_set().contains(key));
                    let j = choose|j: int| 0 <= j < keys@.len() && keys@[j] == key;
                    assert(!before.holds_lease(keys@[j], lease));
                }
            }
        }
        if lease.get() < state.next_frame_lease {
            Err(FrameLeaseError::Stale)
        } else {
            Err(FrameLeaseError::Unknown)
        }
    }

    /// Transfers one exact created-node mapping, once.
    pub fn take_mutation_result(&mut self, state: &mut SharedState, lease: MutationResultLeaseId) -> (result:
        Result<MutationResultLease, MutationResultLeaseError>)
        ensures
            *final(self) == *old(self),
            ({
                let key = lease.value();
                let stored = old(state)@.mutation_results[key];
                let units = crate::engine::result_units(stored.created_nodes@);
                if !old(self).is_attached() {
                    result == Err::<MutationResultLease, _>(
                        MutationResultLeaseError::ReceiverClosed,
                    ) && final(state)@ == old(state)@
                } else if !old(state)@.mutation_results.contains_key(key) {
                    result == Err::<MutationResultLease, _>(
                        if key < old(state)@.next_mutation_result_lease {
                            MutationResultLeaseError::Stale
                        } else {
                            MutationResultLeaseError::Unknown
                        },
                    ) && final(state)@ == old(state)@
                } else if units > old(state)@.retained_mutation_result_nodes {
                    result == Err::<MutationResultLease, _>(MutationResultLeaseError::Unknown)
                        && final(state)@ == old(state)@
                } else {
                    &&& result == Ok::<_, MutationResultLeaseError>(
                        MutationResultLease {
                            navigation: stored.navigation,
                            operation: stored.operation,
                            live_version: stored.live_version,
                            lease: stored.lease,
                            created_nodes: stored.created_nodes,
                        },
                    )
                    &&& final(state)@ == old(state)@.result_taken(key)
                }
            }),
    {
        if !self.attached {
            return Err(MutationResultLeaseError::ReceiverClosed);
        }
        let key: u64 = lease.get();
        let mut units: usize = 0;
        if let Some(stored) = map_get(&state.mutation_results, key) {
            units = stored.created_nodes.len();
            if units == 0 {
                units = 1;
            }
        }
        if units != 0 {
            let retained_after: usize = match state.retained_mutation_result_nodes.checked_sub(
                units,
            ) {
                Some(retained_after) => retained_after,
                None => return Err(MutationResultLeaseError::Unknown),
            };
            if let Some(stored) = map_remove(&mut state.mutation_results, key) {
                state.retained_mutation_result_nodes = retained_after;
                return Ok(
                    MutationResultLease {
                        navigation: stored.navigation,
                        operation: stored.operation,
                        live_version: stored.live_version,
                        lease: stored.lease,
                        created_nodes: stored.created_nodes,
                    },
                );
            }
            return Err(MutationResultLeaseError::Unknown);
        }
        if key < state.next_mutation_result_lease {
            Err(MutationResultLeaseError::Stale)
        } else {
            Err(MutationResultLeaseError::Unknown)
        }
    }

    /// Drops everything that was held for the receiver and stops a running
    /// worker; only the first call has an effect.
    pub fn detach(&mut self, state: &mut SharedState)
        ensures
            !final(self).is_attached(),
            final(state)@ == if old(self).is_attached() {
                old(state)@.receiver_dropped()
            } else {
                old(state)@
            },
    {
        let ghost before = state@;
        if !self.attached {
            return;
        }
        self.attached = false;
        state.receiver_open = false;
        state.events.clear();
        state.terminal_event = None;
        sweep_contexts(state, ContextSweep::Clear);
        state.retained_frame_bytes = 0;
        state.navigation_commits.clear();
        state.mutation_results.clear();
        state.retained_mutation_result_nodes = 0;
        state.pending_mutation_result_nodes = 0;
        state.pending_mutation_payload_bytes = 0;
        state.pending_document_nodes = 0;
        state.retained_document_nodes = 0;
        state.commands.clear();
        state.context_closures.clear();
        state.closing_contexts.clear();
        proof {
            assert(state@.navigation_commits =~= Map::empty());
            assert(state@ =~= EngineModel {
                receiver_open: false,
                events: Seq::empty(),
                terminal_event: None,
                contexts: crate::control::swept(ContextSweep::Clear, before.contexts),
                retained_frame_bytes: 0,
                navigation_commits: Map::empty(),
                mutation_results: Map::empty(),
                retained_mutation_result_nodes: 0,
                pending_mutation_result_nodes: 0,
                pending_mutation_payload_bytes: 0,
                pending_document_nodes: 0,
                retained_document_nodes: 0,
                commands: Seq::empty(),
                context_closures: Seq::empty(),
                closing_contexts: Set::empty(),
                ..before
            }.owing(crate::engine::cancel_all_effects(before.contexts)));
        }
        request_stop(state, WorkerStopReason::EventReceiverDropped);
    }
}

} // verus!
