//! Operations that stop, settle and give back: they never admit work and never
//! publish a result.

use vstd::prelude::*;

use crate::collections::{map_get, map_insert, map_keys, map_remove};
use crate::commit::CommitModel;
use crate::engine::{
    ContextState, DocumentMutationWork, EngineEffect, EngineModel, Lifecycle, Reservation,
    SharedState,
};
use crate::failure::WorkerStopReason;
use crate::identity::{DocumentOperationId, NavigationId, TopLevelContextId};

verus! {

/// What is done to every context at once.
#[derive(Clone, Copy, Debug, PartialEq, Eq, Structural)]
pub enum ContextSweep {
    /// Its operation is cancelled.
    Cancel,
    /// Its operation is cancelled and forgotten.
    Settle,
    /// Its operation is cancelled and forgotten, its frame and document dropped.
    Clear,
    /// Its frame is dropped.
    DropFrame,
}

/// A context with its operation cancelled.
pub open spec fn cancelled_context(context: ContextState) -> ContextState {
    ContextState {
        active_cancellation: match context.active_cancellation {
            Some(active) => Some(active.raised()),
            None => None,
        },
        ..context
    }
}

/// A context after a sweep.
pub open spec fn swept_context(sweep: ContextSweep, context: ContextState) -> ContextState {
    match sweep {
        ContextSweep::Cancel => cancelled_context(context),
        ContextSweep::Settle => ContextState { active_cancellation: None, ..context },
        ContextSweep::Clear => ContextState {
            active_cancellation: None,
            current_frame: None,
            document: None,
            ..context
        },
        ContextSweep::DropFrame => ContextState { current_frame: None, ..context },
    }
}

/// All contexts after a sweep.
pub open spec fn swept(sweep: ContextSweep, contexts: Map<u64, ContextState>) -> Map<
    u64,
    ContextState,
> {
    contexts.map_values(|context: ContextState| swept_context(sweep, context))
}

/// Effects of a sweep.
pub open spec fn sweep_effects(sweep: ContextSweep, contexts: Map<u64, ContextState>) -> Seq<
    EngineEffect,
> {
    if sweep is DropFrame {
        Seq::empty()
    } else {
        crate::engine::cancel_all_effects(contexts)
    }
}

/// Effect of sweeping the context under a key.
spec fn sweep_effects_at(sweep: ContextSweep, contexts: Map<u64, ContextState>) -> spec_fn(
    u64,
) -> Seq<EngineEffect> {
    if sweep is DropFrame {
        |key: u64| Seq::empty()
    } else {
        crate::engine::cancel_effects_at(contexts)
    }
}

/// Visiting keys without effects has none.
proof fn no_effects_over(keys: Seq<u64>, effects: spec_fn(u64) -> Seq<EngineEffect>)
    requires
        forall|key: u64| #[trigger] effects(key) == Seq::<EngineEffect>::empty(),
    ensures
        crate::engine::effects_over(keys, effects) == Seq::<EngineEffect>::empty(),
    decreases keys.len(),
{
    if keys.len() > 0 {
        no_effects_over(keys.drop_last(), effects);
        assert(effects(keys.last()) == Seq::<EngineEffect>::empty());
    }
}

/// Does the same to every context.
pub(crate) fn sweep_contexts(state: &mut SharedState, sweep: ContextSweep)
    ensures
        final(state)@ == (EngineModel {
            contexts: swept(sweep, old(state)@.contexts),
            ..old(state)@
        }).owing(sweep_effects(sweep, old(state)@.contexts)),
{
    let ghost before = state@;
    let ghost effects_at = sweep_effects_at(sweep, before.contexts);
    let keys = map_keys(&state.contexts);
    let mut index: usize = 0;
    proof {
        assert forall|j: int| 0 <= j < keys@.len() implies before.contexts.contains_key(
            #[trigger] keys@[j],
        ) by {
            assert(keys@.to_set().contains(keys@[j]));
        }
        assert(keys@.take(0) =~= Seq::<u64>::empty());
        assert(state@.effects =~= before.effects + crate::engine::effects_over(keys@.take(0), effects_at));
    }
    while index < keys.len()
        invariant
            index <= keys@.len(),
            keys@.no_duplicates(),
            keys@.to_set() == before.contexts.dom(),
            keys@ == crate::accounting::in_order(before.contexts.dom()),
            effects_at == sweep_effects_at(sweep, before.contexts),
            forall|j: int|
                0 <= j < keys@.len() ==> before.contexts.contains_key(#[trigger] keys@[j]),
            state@ == (EngineModel {
                contexts: state@.contexts,
                effects: state@.effects,
                ..before
            }),
            state@.contexts.dom() == before.contexts.dom(),
            forall|j: int|
                0 <= j < index ==> state@.contexts[#[trigger] keys@[j]] == swept_context(
                    sweep,
                    before.contexts[keys@[j]],
                ),
            forall|j: int|
                index <= j < keys@.len() ==> state@.contexts[#[trigger] keys@[j]]
                    == before.contexts[keys@[j]],
            state@.effects == before.effects + crate::engine::effects_over(
                keys@.take(index as int),
                effects_at,
            ),
        decreases keys@.len() - index,
    {
        let key: u64 = keys[index];
        let ghost round = state@;
        assert(round.contexts.contains_key(key));
        if let Some(context) = map_remove(&mut state.contexts, key) {
            let mut context = context;
            if sweep != ContextSweep::DropFrame {
                if let Some(active) = context.active_cancellation {
                    context.active_cancellation = if sweep == ContextSweep::Cancel {
                        Some(active.cancel())
                    } else {
                        None
                    };
                    state.owe(EngineEffect::Cancel { ticket: active.source().ticket });
                }
            }
            if sweep == ContextSweep::Clear || sweep == ContextSweep::DropFrame {
                context.current_frame = None;
            }
            if sweep == ContextSweep::Clear {
                context.document = None;
            }
            let _ = map_insert(&mut state.contexts, key, context);
        }
        proof {
            assert(state@.contexts =~= round.contexts.insert(
                key,
                swept_context(sweep, round.contexts[key]),
            ));
            assert(state@.contexts.dom() =~= before.contexts.dom());
            assert(keys@.take(index + 1).drop_last() =~= keys@.take(index as int));
            assert(state@.effects =~= before.effects + crate::engine::effects_over(
                keys@.take(index + 1),
                effects_at,
            ));
        }
        index = index + 1;
    }
    proof {
        assert forall|key: u64| #[trigger]
            before.contexts.contains_key(key) implies state@.contexts[key] == swept_context(
            sweep,
            before.contexts[key],
        ) by {
            assert(keys@.to_set().contains(key));
            let j = choose|j: int| 0 <= j < keys@.len() && keys@[j] == key;
            assert(keys@[j] == key);
        }
        assert(state@.contexts =~= swept(sweep, before.contexts));
        assert(keys@.take(index as int) =~= keys@);
        if sweep is DropFrame {
            no_effects_over(keys@, effects_at);
        }
        let all = sweep_effects(sweep, before.contexts);
        assert(state@ =~= (EngineModel {
            contexts: swept(sweep, before.contexts),
            ..before
        }).owing(all));
    }
}

/// Retires the documents of all commitments and forgets the commitments.
pub(crate) fn retire_all_style_documents(state: &mut SharedState)
    ensures
        final(state)@ == (EngineModel {
            current_style_documents: Map::empty(),
            ..old(state)@
        }).owing(crate::engine::retire_all_effects(old(state)@.current_style_documents)),
{
    let ghost before = state@;
    let ghost commitments = before.current_style_documents;
    let ghost effects_at = crate::engine::retire_effects_at(commitments);
    let keys = map_keys(&state.current_style_documents);
    let mut index: usize = 0;
    proof {
        assert(commitments.dom() =~= state.current_style_documents@.dom());
        assert forall|j: int| 0 <= j < keys@.len() implies commitments.contains_key(
            #[trigger] keys@[j],
        ) by {
            assert(keys@.to_set().contains(keys@[j]));
        }
        assert(keys@.take(0) =~= Seq::<u64>::empty());
        assert(state@.effects =~= before.effects + crate::engine::effects_over(keys@.take(0), effects_at));
    }
    while index < keys.len()
        invariant
            index <= keys@.len(),
            keys@.to_set() == commitments.dom(),
            keys@ == crate::accounting::in_order(commitments.dom()),
            commitments == before.current_style_documents,
            effects_at == crate::engine::retire_effects_at(commitments),
            forall|j: int| 0 <= j < keys@.len() ==> commitments.contains_key(#[trigger] keys@[j]),
            state@ == (EngineModel { effects: state@.effects, ..before }),
            state@.effects == before.effects + crate::engine::effects_over(
                keys@.take(index as int),
                effects_at,
            ),
        decreases keys@.len() - index,
    {
        let key: u64 = keys[index];
        let ledger = match map_get(&state.current_style_documents, key) {
            Some(commitment) => commitment.ledger_key(),
            None => None,
        };
        assert(commitments.contains_key(key));
        if let Some(ledger) = ledger {
            state.owe(EngineEffect::RetireStyleDocument { ledger });
        }
        proof {
            assert(keys@.take(index + 1).drop_last() =~= keys@.take(index as int));
            assert(state@.effects =~= before.effects + crate::engine::effects_over(
                keys@.take(index + 1),
                effects_at,
            ));
        }
        index = index + 1;
    }
    state.current_style_documents.clear();
    proof {
        assert(keys@.take(index as int) =~= keys@);
        let all = crate::engine::retire_all_effects(commitments);
        assert(state@ =~= (EngineModel {
            current_style_documents: Map::empty(),
            ..before
        }).owing(all));
    }
}

/// Stops a running worker: retires every current document and cancels every
/// operation. A worker that already stops keeps its first reason.
pub fn request_stop(state: &mut SharedState, reason: WorkerStopReason)
    ensures
        final(state)@ == old(state)@.stopping(reason),
{
    if let Lifecycle::Running = state.lifecycle {
        retire_all_style_documents(state);
        state.lifecycle = Lifecycle::Stopping(reason);
        sweep_contexts(state, ContextSweep::Cancel);
        proof {
            assert(swept(ContextSweep::Cancel, old(state)@.contexts) =~= crate::engine::cancel_all(
                old(state)@.contexts,
            ));
            assert(state@ =~= old(state)@.stopping(reason));
        }
    }
}

/// Retires the current document of a navigation's context.
pub fn retire_current_style_document(state: &mut SharedState, navigation: NavigationId)
    ensures
        final(state)@ == old(state)@.style_retired(navigation),
{
    let key: u64 = navigation.context().get();
    match map_remove(&mut state.current_style_documents, key) {
        Some(commitment) => {
            if let Some(ledger) = commitment.ledger_key() {
                state.owe(EngineEffect::RetireStyleDocument { ledger });
            }
        },
        None => {
            assert(state@.current_style_documents =~= old(state)@.current_style_documents);
        },
    }
    assert(state@ =~= old(state)@.style_retired(navigation));
}

/// Gives back what an unfinished mutation reserved.
pub fn release_pending_mutation_reservations(
    state: &mut SharedState,
    created_nodes: usize,
    result_units: usize,
    payload_bytes: usize,
)
    requires
        old(state)@.holds(
            Reservation {
                created_nodes: created_nodes as nat,
                result_units: result_units as nat,
                payload_bytes: payload_bytes as nat,
            },
        ),
    ensures
        final(state)@ == old(state)@.released(
            Reservation {
                created_nodes: created_nodes as nat,
                result_units: result_units as nat,
                payload_bytes: payload_bytes as nat,
            },
        ),
{
    state.pending_document_nodes = state.pending_document_nodes - created_nodes;
    state.pending_mutation_result_nodes = state.pending_mutation_result_nodes - result_units;
    state.pending_mutation_payload_bytes = state.pending_mutation_payload_bytes - payload_bytes;
}

/// Gives back what `work` reserved.
pub fn release_work(state: &mut SharedState, work: &DocumentMutationWork)
    requires
        old(state)@.holds(work.reservation()),
    ensures
        final(state)@ == old(state)@.released(work.reservation()),
{
    release_pending_mutation_reservations(
        state,
        work.reserved_created_nodes,
        work.reserved_result_units,
        work.reserved_payload_bytes,
    );
}

/// Whether a navigation is the latest of its context.
pub fn is_current(state: &SharedState, navigation: NavigationId) -> (current: bool)
    ensures
        current == state@.is_current(navigation),
{
    match map_get(&state.contexts, navigation.context().get()) {
        Some(context) => context.latest_generation == navigation.generation(),
        None => false,
    }
}

/// Makes a navigation no longer cancellable.
pub fn clear_navigation_cancellation_if_current(state: &mut SharedState, navigation: NavigationId)
    ensures
        final(state)@ == old(state)@.navigation_settled(navigation),
{
    let key: u64 = navigation.context().get();
    let named = match map_get(&state.contexts, key) {
        Some(context) => match context.active_cancellation {
            Some(active) => active.is_navigation(navigation),
            None => false,
        },
        None => false,
    };
    if named {
        if let Some(context) = map_remove(&mut state.contexts, key) {
            let mut context = context;
            context.active_cancellation = None;
            let _ = map_insert(&mut state.contexts, key, context);
        }
    }
    assert(state@ =~= old(state)@.navigation_settled(navigation));
}

/// Makes a document operation no longer cancellable.
pub fn clear_document_cancellation_if_current(
    state: &mut SharedState,
    navigation: NavigationId,
    operation: DocumentOperationId,
)
    ensures
        final(state)@ == old(state)@.operation_settled(navigation, operation),
{
    let key: u64 = navigation.context().get();
    let named = match map_get(&state.contexts, key) {
        Some(context) => match context.active_cancellation {
            Some(active) => active.is_document(navigation, operation),
            None => false,
        },
        None => false,
    };
    if named {
        if let Some(context) = map_remove(&mut state.contexts, key) {
            let mut context = context;
            context.active_cancellation = None;
            let _ = map_insert(&mut state.contexts, key, context);
        }
    }
    assert(state@ =~= old(state)@.operation_settled(navigation, operation));
}

/// Forgets the created-node mappings of a context.
pub fn remove_context_mutation_results(state: &mut SharedState, context: TopLevelContextId)
    requires
        old(state)@.retained_mutation_result_nodes == crate::engine::results_total(
            old(state)@.mutation_results,
        ),
    ensures
        final(state)@ == old(state)@.without_results(context),
        final(state)@.retained_mutation_result_nodes == crate::engine::results_total(
            final(state)@.mutation_results,
        ),
        final(state)@.retained_mutation_result_nodes <= old(state)@.retained_mutation_result_nodes,
{
    let ghost before = state@;
    let ghost charge = crate::engine::result_charges();
    let keys = map_keys(&state.mutation_results);
    let mut removed_nodes: usize = 0;
    let mut index: usize = 0;
    proof {
        assert forall|j: int| 0 <= j < keys@.len() implies before.mutation_results.contains_key(
            #[trigger] keys@[j],
        ) by {
            assert(keys@.to_set().contains(keys@[j]));
        }
    }
    while index < keys.len()
        invariant
            index <= keys@.len(),
            keys@.no_duplicates(),
            keys@.to_set() == before.mutation_results.dom(),
            before.mutation_results.dom().finite(),
            charge == crate::engine::result_charges(),
            forall|j: int|
                0 <= j < keys@.len() ==> before.mutation_results.contains_key(#[trigger] keys@[j]),
            state@ == (EngineModel { mutation_results: state@.mutation_results, ..before }),
            forall|key: u64| #[trigger]
                state@.mutation_results.contains_key(key) ==> before.mutation_results.contains_key(
                    key,
                ) && state@.mutation_results[key] == before.mutation_results[key],
            forall|key: u64| #[trigger]
                before.mutation_results.contains_key(key)
                    && before.mutation_results[key].navigation.context_of() != context
                    ==> state@.mutation_results.contains_key(key),
            forall|j: int|
                0 <= j < index && before.mutation_results[#[trigger] keys@[j]].navigation.context_of()
                    == context ==> !state@.mutation_results.contains_key(keys@[j]),
            forall|j: int|
                index <= j < keys@.len() ==> state@.mutation_results.contains_key(
                    #[trigger] keys@[j],
                ),
            before.retained_mutation_result_nodes == crate::engine::results_total(
                before.mutation_results,
            ),
            crate::accounting::map_total(state@.mutation_results, charge) + removed_nodes
                == before.retained_mutation_result_nodes,
        decreases keys@.len() - index,
    {
        let key: u64 = keys[index];
        let ghost round = state@;
        assert(round.mutation_results.contains_key(key));
        let mut units: usize = 0;
        if let Some(result) = map_get(&state.mutation_results, key) {
            if result.navigation.context() == context {
                units = result.created_nodes.len();
                if units == 0 {
                    units = 1;
                }
            }
        }
        if units != 0 {
            proof {
                crate::accounting::map_total_remove(round.mutation_results, charge, key);
            }
            let _ = map_remove(&mut state.mutation_results, key);
            removed_nodes = removed_nodes + units;
        }
        index = index + 1;
    }
    state.retained_mutation_result_nodes = state.retained_mutation_result_nodes - removed_nodes;
    proof {
        assert forall|key: u64| #[trigger]
            before.results_elsewhere(context).contains_key(key)
                == state@.mutation_results.contains_key(key) by {
            if before.mutation_results.contains_key(key) {
                assert(keys@.to_set().contains(key));
                let j = choose|j: int| 0 <= j < keys@.len() && keys@[j] == key;
                assert(keys@[j] == key);
            }
        }
        assert(state@.mutation_results =~= before.results_elsewhere(context));
        assert(state@ =~= before.without_results(context));
    }
}

/// Throws a navigation's live document away, with its frame, its mappings and
/// its ledger.
pub fn invalidate_shared_document(state: &mut SharedState, navigation: NavigationId)
    requires
        old(state)@.retained_exactly(),
    ensures
        final(state)@ == old(state)@.document_invalidated(navigation),
        final(state)@.retained_exactly(),
{
    let ghost before = state@;
    let key: u64 = navigation.context().get();
    retire_current_style_document(state, navigation);
    let owned = match map_get(&state.contexts, key) {
        Some(context) => match context.document {
            Some(document) => document.navigation == navigation,
            None => false,
        },
        None => false,
    };
    if !owned {
        return;
    }
    if let Some(context) = map_remove(&mut state.contexts, key) {
        let ghost owner = context;
        proof {
            crate::accounting::map_total_remove(
                before.contexts,
                crate::engine::frame_charges(),
                key,
            );
            crate::accounting::map_total_remove(
                before.contexts,
                crate::engine::document_charges(),
                key,
            );
        }
        let mut context = context;
        if let Some(stored) = context.current_frame.take() {
            state.retained_frame_bytes = state.retained_frame_bytes
                - stored.frame.metadata().total_bytes();
        }
        if let Some(document) = context.document.take() {
            state.retained_document_nodes = state.retained_document_nodes - document.node_charge;
        }
        proof {
            crate::accounting::map_total_insert(
                before.contexts,
                crate::engine::frame_charges(),
                key,
                context,
            );
            crate::accounting::map_total_insert(
                before.contexts,
                crate::engine::document_charges(),
                key,
                context,
            );
        }
        let _ = map_insert(&mut state.contexts, key, context);
        assert(state@.contexts =~= before.contexts.insert(key, context));
    }
    remove_context_mutation_results(state, navigation.context());
    assert(state@ =~= before.document_invalidated(navigation));
}

} // verus!
