//! What the worker takes out of the shared state, and how it ends.

use vstd::prelude::*;

use crate::collections::set_remove;
use crate::control::{request_stop, retire_all_style_documents, sweep_contexts, ContextSweep};
use crate::engine::{EngineModel, EngineWork, Lifecycle, SharedState};
use crate::event::{EngineEvent, EngineEventKind};
use crate::failure::{
    EngineShutdownStatus, ExecutionFailure, ExecutorShutdownStatus, WorkerStopReason,
};
use crate::identity::{EventSequence, NavigationId};
use crate::limits::{EngineLimits, LimitValues};
use crate::publication::reserve_event_sequence;

verus! {

/// What the worker does next.
#[derive(Debug)]
pub enum DequeuedWork {
    /// Destroy the executor state of a closed context.
    CloseContext(NavigationId),
    /// Run one unit of work.
    Engine(EngineWork),
    /// Sleep until the state changes.
    Wait,
}

impl EngineModel {
    /// What the worker does next, and the state once it was taken out: closed
    /// contexts come before queued work, and both oldest first.
    pub open spec fn dequeued(self) -> (Self, Result<DequeuedWork, WorkerStopReason>) {
        match self.lifecycle {
            Lifecycle::Stopping(reason) => (self, Err(reason)),
            Lifecycle::Stopped(status) => (self, Err(status.reason)),
            Lifecycle::Running => if self.context_closures.len() > 0 {
                (
                    EngineModel {
                        context_closures: self.context_closures.subrange(
                            1,
                            self.context_closures.len() as int,
                        ),
                        ..self
                    },
                    Ok(DequeuedWork::CloseContext(self.context_closures[0])),
                )
            } else if self.commands.len() > 0 {
                (
                    EngineModel {
                        commands: self.commands.subrange(1, self.commands.len() as int),
                        ..self
                    },
                    Ok(DequeuedWork::Engine(self.commands[0])),
                )
            } else {
                (self, Ok(DequeuedWork::Wait))
            },
        }
    }

    /// Outcome of telling the receiver that a context closed.
    pub open spec fn closure_published(self, limits: LimitValues, navigation: NavigationId) -> (
        Self,
        Result<(), WorkerStopReason>,
    ) {
        let key = crate::engine::context_key(navigation);
        let closed = EngineModel { closing_contexts: self.closing_contexts.remove(key), ..self };
        if let Lifecycle::Stopping(reason) = self.lifecycle {
            (self, Err(reason))
        } else if !self.closing_contexts.contains(key) {
            (self, Err(WorkerStopReason::ExecutorContractViolation))
        } else if self.events.len() >= limits.event_capacity {
            (
                closed.stopping(WorkerStopReason::EventQueueSaturated),
                Err(WorkerStopReason::EventQueueSaturated),
            )
        } else if !self.sequences_available(1) {
            (closed, Err(WorkerStopReason::IdentityExhausted))
        } else {
            (closed.event_queued(EngineEventKind::ContextClosed { navigation }), Ok(()))
        }
    }

    /// The state after the worker ended: nothing is queued, reserved or
    /// cancellable any more, and an attached receiver gets a terminal event.
    pub open spec fn worker_finished(self, status: EngineShutdownStatus) -> Self {
        if self.lifecycle is Stopped {
            self
        } else {
            let ended = EngineModel {
                lifecycle: Lifecycle::Stopped(status),
                contexts: crate::control::swept(ContextSweep::Settle, self.contexts),
                current_style_documents: Map::empty(),
                commands: Seq::empty(),
                context_closures: Seq::empty(),
                closing_contexts: Set::empty(),
                pending_document_nodes: 0,
                pending_mutation_result_nodes: 0,
                pending_mutation_payload_bytes: 0,
                ..self
            }.owing(
                crate::engine::cancel_all_effects(self.contexts)
                    + crate::engine::retire_all_effects(self.current_style_documents),
            );
            if !self.receiver_open {
                EngineModel {
                    contexts: crate::control::swept(ContextSweep::DropFrame, ended.contexts),
                    retained_frame_bytes: 0,
                    ..ended
                }
            } else if self.sequences_available(1) {
                EngineModel {
                    terminal_event: Some(
                        EngineEvent {
                            sequence: EventSequence::of(self.next_event_sequence),
                            kind: EngineEventKind::ShutdownComplete { status },
                        },
                    ),
                    next_event_sequence: (self.next_event_sequence + 1) as u64,
                    ..ended
                }
            } else {
                ended
            }
        }
    }
}

/// Takes out what the worker does next.
pub fn dequeue_work(state: &mut SharedState) -> (result: Result<DequeuedWork, WorkerStopReason>)
    ensures
        (final(state)@, result) == old(state)@.dequeued(),
{
    match state.lifecycle {
        Lifecycle::Stopping(reason) => return Err(reason),
        Lifecycle::Stopped(status) => return Err(status.reason),
        Lifecycle::Running => {},
    }
    if let Some(navigation) = state.context_closures.pop_front() {
        assert(state@ =~= old(state)@.dequeued().0);
        return Ok(DequeuedWork::CloseContext(navigation));
    }
    if let Some(work) = state.commands.pop_front() {
        assert(state@ =~= old(state)@.dequeued().0);
        return Ok(DequeuedWork::Engine(work));
    }
    Ok(DequeuedWork::Wait)
}

/// Tells the receiver that a context closed.
pub fn publish_context_closed(
    state: &mut SharedState,
    limits: EngineLimits,
    navigation: NavigationId,
) -> (result: Result<(), WorkerStopReason>)
    ensures
        (final(state)@, result) == old(state)@.closure_published(limits@, navigation),
{
    let ghost before = state@;
    if let Lifecycle::Stopping(reason) = state.lifecycle {
        return Err(reason);
    }
    if !set_remove(&mut state.closing_contexts, navigation.context().get()) {
        assert(state@.closing_contexts =~= before.closing_contexts);
        return Err(WorkerStopReason::ExecutorContractViolation);
    }
    if state.events.len() >= limits.event_capacity() {
        request_stop(state, WorkerStopReason::EventQueueSaturated);
        return Err(WorkerStopReason::EventQueueSaturated);
    }
    let sequence = match reserve_event_sequence(state) {
        Ok(sequence) => sequence,
        Err(reason) => return Err(reason),
    };
    state.events.push_back(
        EngineEvent { sequence, kind: EngineEventKind::ContextClosed { navigation } },
    );
    Ok(())
}

/// Ends the worker; only the first call has an effect.
pub fn finish_worker(state: &mut SharedState, status: EngineShutdownStatus)
    ensures
        final(state)@ == old(state)@.worker_finished(status),
{
    let ghost before = state@;
    if let Lifecycle::Stopped(_) = state.lifecycle {
        return;
    }
    sweep_contexts(state, ContextSweep::Settle);
    retire_all_style_documents(state);
    state.commands.clear();
    state.context_closures.clear();
    state.closing_contexts.clear();
    state.pending_document_nodes = 0;
    state.pending_mutation_result_nodes = 0;
    state.pending_mutation_payload_bytes = 0;
    state.lifecycle = Lifecycle::Stopped(status);
    if state.receiver_open {
        if let Ok(sequence) = reserve_event_sequence(state) {
            state.terminal_event = Some(
                EngineEvent { sequence, kind: EngineEventKind::ShutdownComplete { status } },
            );
        }
    } else {
        sweep_contexts(state, ContextSweep::DropFrame);
        state.retained_frame_bytes = 0;
    }
    assert(state@ =~= before.worker_finished(status));
}

/// Marks a worker that panicked as stopped, unless it ended on its own.
pub fn force_worker_stopped(state: &mut SharedState, status: EngineShutdownStatus)
    ensures
        final(state)@ == if old(state)@.lifecycle is Stopped {
            old(state)@
        } else {
            EngineModel { lifecycle: Lifecycle::Stopped(status), ..old(state)@ }
        },
{
    match state.lifecycle {
        Lifecycle::Stopped(_) => {},
        _ => {
            state.lifecycle = Lifecycle::Stopped(status);
        },
    }
}

/// Status that joining the worker reports.
pub fn joined_status(state: &SharedState) -> (status: EngineShutdownStatus)
    ensures
        status == match state@.lifecycle {
            Lifecycle::Stopped(status) => status,
            _ => EngineShutdownStatus {
                reason: WorkerStopReason::ExecutorPanicked,
                executor: ExecutorShutdownStatus::Panicked,
            },
        },
{
    match state.lifecycle {
        Lifecycle::Stopped(status) => status,
        Lifecycle::Running | Lifecycle::Stopping(_) => EngineShutdownStatus {
            reason: WorkerStopReason::ExecutorPanicked,
            executor: ExecutorShutdownStatus::Panicked,
        },
    }
}

/// What became of building and running an executor, as the worker saw it.
#[derive(Clone, Copy, Debug, PartialEq, Eq, Structural)]
pub enum WorkerRun {
    /// The executor could not be built.
    FactoryFailed(ExecutionFailure),
    /// Building the executor panicked.
    FactoryPanicked,
    /// The executor was built, but nobody waited for it any more.
    StarterGone,
    /// The worker loop ended for this reason.
    Ended(WorkerStopReason),
    /// The worker loop panicked.
    LoopPanicked,
}

/// Status with which a worker ends; a panic while the executor was dropped
/// outweighs every other reason.
pub fn worker_status(
    run: WorkerRun,
    executor: ExecutorShutdownStatus,
    drop_panicked: bool,
) -> (status: EngineShutdownStatus)
    ensures
        status == match run {
            WorkerRun::FactoryFailed(_) => EngineShutdownStatus {
                reason: WorkerStopReason::Requested,
                executor: ExecutorShutdownStatus::NotStarted,
            },
            WorkerRun::FactoryPanicked => EngineShutdownStatus {
                reason: WorkerStopReason::ExecutorPanicked,
                executor: ExecutorShutdownStatus::NotStarted,
            },
            _ => EngineShutdownStatus {
                reason: if drop_panicked || run is LoopPanicked {
                    WorkerStopReason::ExecutorPanicked
                } else if run is StarterGone {
                    WorkerStopReason::EventReceiverDropped
                } else {
                    run->Ended_0
                },
                executor: if drop_panicked {
                    ExecutorShutdownStatus::Panicked
                } else {
                    executor
                },
            },
        },
{
    let executor = crate::failure::executor_finalization(executor, drop_panicked);
    match run {
        WorkerRun::FactoryFailed(_) => EngineShutdownStatus {
            reason: WorkerStopReason::Requested,
            executor: ExecutorShutdownStatus::NotStarted,
        },
        WorkerRun::FactoryPanicked => EngineShutdownStatus {
            reason: WorkerStopReason::ExecutorPanicked,
            executor: ExecutorShutdownStatus::NotStarted,
        },
        WorkerRun::StarterGone => EngineShutdownStatus {
            reason: if drop_panicked {
                WorkerStopReason::ExecutorPanicked
            } else {
                WorkerStopReason::EventReceiverDropped
            },
            executor,
        },
        WorkerRun::Ended(reason) => EngineShutdownStatus {
            reason: if drop_panicked {
                WorkerStopReason::ExecutorPanicked
            } else {
                reason
            },
            executor,
        },
        WorkerRun::LoopPanicked => EngineShutdownStatus {
            reason: WorkerStopReason::ExecutorPanicked,
            executor,
        },
    }
}

} // verus!
