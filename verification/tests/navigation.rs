use std::sync::Arc;

use wild_buzzard_engine::admission::{navigate, request_shutdown, reserve_document_operation_id};
use wild_buzzard_engine::command::{CommandErrorKind, CommandReceipt};
use wild_buzzard_engine::commit::{
    NavigationAlpn, NavigationCommitMetadata, NavigationConnectionSecurity, NavigationRequest,
    NavigationTlsVersion,
};
use wild_buzzard_engine::engine::{
    ActiveCancellation, CancellationSource, ContextState, DocumentMutationWork, EngineEffect,
    EngineWork, Lifecycle, NavigationWork, RetainedDocumentState, SharedState, StoredFrame,
    StoredMutationResult,
};
use wild_buzzard_engine::event::{transition_event, EngineEventKind, NavigationEventPhase};
use wild_buzzard_engine::executor::ExecutorOutput;
use wild_buzzard_engine::failure::{
    EngineShutdownStatus, ExecutionFailure, ExecutionFailureKind, ExecutorShutdownStatus,
    NavigationStage, WorkerStopReason,
};
use wild_buzzard_engine::frame::{EngineFrame, PixelSize};
use wild_buzzard_engine::identity::{
    allocate_owner_from, DocumentOperationId, DocumentVersion, FrameLeaseId,
    MutationResultLeaseId, NavigationGeneration, NavigationId, NodeId, TopLevelContextId,
};
use wild_buzzard_engine::limits::{EngineLimits, EngineLimitsError};
use wild_buzzard_engine::publication::{begin_navigation, finish_navigation, publish_success};
use wild_buzzard_engine::receiver::EngineEventReceiver;
use wild_buzzard_engine::script::ScriptMutationBatch;
use wild_buzzard_engine::style_document::{
    StyleDocumentAccessError, StyleDocumentAuthorityClass, StyleDocumentLifecycle,
};
use wild_buzzard_engine::worker::{
    dequeue_work, finish_worker, joined_status, worker_status, DequeuedWork, WorkerRun,
};

#[test]
fn navigation_commit_clones_share_the_exact_final_url_allocation() {
    let commitment = NavigationCommitMetadata::new(
        "https://example.com/final?q=rust#section",
        7,
        NavigationConnectionSecurity::AuthenticatedTls {
            version: NavigationTlsVersion::Tls13,
            alpn: NavigationAlpn::Http11,
        },
        true,
    )
    .unwrap();
    let cloned = commitment.clone();

    assert!(Arc::ptr_eq(
        commitment.shared_final_url(),
        cloned.shared_final_url()
    ));
    assert_eq!(Arc::strong_count(commitment.shared_final_url()), 2);
    assert_eq!(cloned.final_url(), commitment.final_url());
    assert_eq!(cloned.redirect_count(), commitment.redirect_count());
    assert_eq!(cloned.security(), commitment.security());
    assert_eq!(
        cloned.had_https_downgrade(),
        commitment.had_https_downgrade()
    );
    assert!(cloned.same_commitment(&commitment));
}

#[test]
fn style_document_ledger_has_one_issuance_and_one_transaction() {
    let mut lifecycle = StyleDocumentLifecycle::new();
    let capability = lifecycle
        .issue(StyleDocumentAuthorityClass::NonProduct)
        .expect("issue direct authority once");
    assert!(matches!(
        lifecycle.issue(StyleDocumentAuthorityClass::NonProduct),
        Err(StyleDocumentAccessError::AlreadyIssued)
    ));

    capability
        .begin_transaction(&mut lifecycle)
        .expect("begin the sole transaction");
    assert_eq!(
        capability.begin_transaction(&mut lifecycle).err(),
        Some(StyleDocumentAccessError::TransactionActive)
    );
    capability.end_transaction(&mut lifecycle);
    assert_eq!(
        capability.begin_transaction(&mut lifecycle).err(),
        Some(StyleDocumentAccessError::TransactionConsumed)
    );

    lifecycle.retire();
    assert_eq!(
        capability.ensure_current(&lifecycle),
        Err(StyleDocumentAccessError::Retired)
    );
}

#[test]
fn product_style_ledger_requires_one_exact_navigation_binding() {
    let mut lifecycle = StyleDocumentLifecycle::new();
    let exact_navigation = navigation();
    let foreign_navigation = NavigationId::new(
        TopLevelContextId::new(2).unwrap(),
        NavigationGeneration::initial(),
    );

    assert!(matches!(
        lifecycle.issue(StyleDocumentAuthorityClass::Product),
        Err(StyleDocumentAccessError::ProductNavigationRequired)
    ));
    lifecycle
        .bind_navigation(exact_navigation)
        .expect("bind exact product navigation");
    lifecycle
        .bind_navigation(exact_navigation)
        .expect("same binding is idempotent");
    assert_eq!(
        lifecycle.bind_navigation(foreign_navigation),
        Err(StyleDocumentAccessError::ProductNavigationRequired)
    );
    assert!(matches!(
        lifecycle.issue(StyleDocumentAuthorityClass::NonProduct),
        Err(StyleDocumentAccessError::NonProductNavigationBound)
    ));
    let capability = lifecycle
        .issue(StyleDocumentAuthorityClass::Product)
        .expect("issue exact product authority");

    lifecycle.retire();
    assert_eq!(
        capability.ensure_current(&lifecycle),
        Err(StyleDocumentAccessError::Retired)
    );
}

fn context() -> TopLevelContextId {
    TopLevelContextId::new(1).unwrap()
}

fn navigation() -> NavigationId {
    NavigationId::new(context(), NavigationGeneration::initial())
}

fn frame(marker: u8) -> EngineFrame {
    EngineFrame::from_rgba8(PixelSize::new(1, 1).unwrap(), vec![marker, 0, 0, 255]).unwrap()
}

fn state_with_prior_frame() -> (SharedState, EngineLimits, NavigationId) {
    let limits = EngineLimits::new(1, 3, 1, 4, 4).unwrap();
    let navigation = navigation();
    let mut state = SharedState::new(limits, 1);
    state.contexts.insert(
        navigation.context().get(),
        ContextState {
            latest_generation: navigation.generation(),
            active_cancellation: Some(ActiveCancellation::Navigation {
                navigation,
                source: CancellationSource { ticket: 1, cancelled: false },
            }),
            current_frame: Some(StoredFrame {
                lease: FrameLeaseId::new(1).unwrap(),
                navigation,
                frame: frame(1),
            }),
            document: None,
        },
    );
    state.latest_new_context = Some(navigation.context());
    state.retained_frame_bytes = 4;
    state.next_event_sequence = 1;
    state.next_frame_lease = 2;
    state.next_mutation_result_lease = 1;
    state.next_document_operation_sequence = 1;
    (state, limits, navigation)
}

fn assert_prior_frame_unchanged(state: &SharedState, navigation: NavigationId) {
    let stored = state
        .contexts
        .get(&navigation.context().get())
        .unwrap()
        .current_frame
        .as_ref()
        .unwrap();
    assert_eq!(stored.lease.get(), 1);
    assert_eq!(stored.navigation, navigation);
    assert_eq!(stored.frame.rgba8_pixels(), Some(&[1, 0, 0, 255][..]));
    assert_eq!(state.retained_frame_bytes, 4);
    assert!(state.events.is_empty());
}

fn take_navigation_work(state: &mut SharedState) -> NavigationWork {
    match dequeue_work(state) {
        Ok(DequeuedWork::Engine(EngineWork::Navigate(work))) => work,
        other => panic!("{other:?}"),
    }
}

#[test]
fn minimum_event_capacity_holds_started_and_atomic_success_without_a_drain() {
    assert_eq!(
        EngineLimits::new(1, 2, 1, 4, 4).err(),
        Some(EngineLimitsError::TooSmall {
            field: "event_capacity",
            actual: 2,
            minimum: 3,
        })
    );
    let limits = EngineLimits::new(1, 3, 1, 4, 4).unwrap();
    let mut state = SharedState::new(limits, 1);
    let mut receiver = EngineEventReceiver::new();
    let navigation = navigate(
        &mut state,
        limits,
        context(),
        NavigationRequest::new("loopback").unwrap(),
        1,
    )
    .unwrap();
    let work = take_navigation_work(&mut state);
    assert_eq!(work.navigation, navigation);
    let mut phase = NavigationEventPhase::Queued;
    assert_eq!(
        begin_navigation(&mut state, limits, &work, false, &mut phase),
        Ok(true)
    );
    let output = ExecutorOutput::new(200, frame(7));
    assert_eq!(
        finish_navigation(&mut state, limits, &work, false, &mut phase, output),
        Ok(())
    );
    assert_eq!(state.lifecycle, Lifecycle::Running);
    assert_eq!(state.events.len(), 3);

    assert_eq!(
        receiver.try_recv(&mut state).unwrap().kind(),
        EngineEventKind::NavigationStarted { navigation }
    );
    assert_eq!(
        receiver.try_recv(&mut state).unwrap().kind(),
        EngineEventKind::NavigationCommitted {
            navigation,
            http_status: 200,
        }
    );
    let ready = receiver.try_recv(&mut state).unwrap();
    let EngineEventKind::FrameReady {
        navigation: ready_navigation,
        lease,
        ..
    } = ready.kind()
    else {
        panic!("expected frame-ready event");
    };
    assert_eq!(ready_navigation, navigation);
    assert_eq!(
        receiver
            .take_frame(&mut state, lease)
            .unwrap()
            .navigation(),
        navigation
    );
    assert!(receiver.take_frame(&mut state, lease).is_err());

    request_shutdown(&mut state);
    let reason = match dequeue_work(&mut state) {
        Err(reason) => reason,
        Ok(work) => panic!("{work:?}"),
    };
    finish_worker(
        &mut state,
        worker_status(
            WorkerRun::Ended(reason),
            ExecutorShutdownStatus::Clean,
            false,
        ),
    );
    assert_eq!(joined_status(&state).reason(), WorkerStopReason::Requested);
}

#[test]
fn malformed_event_reordering_is_rejected() {
    let navigation = navigation();
    let failure = ExecutionFailure::new(ExecutionFailureKind::Internal, NavigationStage::Document);
    let lease = FrameLeaseId::new(1).unwrap();
    let metadata = frame(1).metadata();
    let invalid = [
        (
            NavigationEventPhase::Queued,
            EngineEventKind::NavigationCommitted {
                navigation,
                http_status: 200,
            },
        ),
        (
            NavigationEventPhase::Queued,
            EngineEventKind::NavigationFailed {
                navigation,
                failure,
            },
        ),
        (
            NavigationEventPhase::Started,
            EngineEventKind::FrameReady {
                navigation,
                lease,
                metadata,
            },
        ),
        (
            NavigationEventPhase::Committed,
            EngineEventKind::NavigationCancelled { navigation },
        ),
        (
            NavigationEventPhase::Terminal,
            EngineEventKind::NavigationStarted { navigation },
        ),
        (
            NavigationEventPhase::Started,
            EngineEventKind::ShutdownComplete {
                status: EngineShutdownStatus {
                    reason: WorkerStopReason::Requested,
                    executor: ExecutorShutdownStatus::Clean,
                },
            },
        ),
    ];
    for (phase, event) in invalid {
        assert_eq!(
            transition_event(phase, event),
            Err(WorkerStopReason::EventOrderViolation)
        );
    }

    let started = transition_event(
        NavigationEventPhase::Queued,
        EngineEventKind::NavigationStarted { navigation },
    )
    .unwrap();
    let committed = transition_event(
        started,
        EngineEventKind::NavigationCommitted {
            navigation,
            http_status: 200,
        },
    )
    .unwrap();
    assert_eq!(
        transition_event(
            committed,
            EngineEventKind::FrameReady {
                navigation,
                lease,
                metadata,
            },
        ),
        Ok(NavigationEventPhase::Terminal)
    );
}

#[test]
fn event_sequence_exhaustion_aborts_multi_event_publication_atomically() {
    let (mut state, limits, navigation) = state_with_prior_frame();
    state.next_event_sequence = u64::MAX - 1;
    let mut phase = NavigationEventPhase::Started;
    let result = publish_success(
        &mut state,
        limits,
        &mut phase,
        navigation,
        &NavigationRequest::new("http://127.0.0.1/").unwrap(),
        ExecutorOutput::new(200, frame(2)).unwrap(),
    );

    assert_eq!(result, Err(WorkerStopReason::IdentityExhausted));
    assert_eq!(phase, NavigationEventPhase::Started);
    assert_eq!(state.next_event_sequence, u64::MAX - 1);
    assert_eq!(state.next_frame_lease, 2);
    assert_prior_frame_unchanged(&state, navigation);
}

#[test]
fn document_operation_identity_exhaustion_is_transactional_and_never_wraps() {
    let (mut state, _, _) = state_with_prior_frame();
    state.next_document_operation_sequence = u64::MAX;
    assert_eq!(
        reserve_document_operation_id(&mut state),
        Err(CommandErrorKind::DocumentOperationIdentityExhausted)
    );
    assert_eq!(state.next_document_operation_sequence, u64::MAX);
    assert!(state.commands.is_empty());
    assert_eq!(state.pending_document_nodes, 0);
    assert_eq!(state.pending_mutation_result_nodes, 0);
    assert_eq!(state.pending_mutation_payload_bytes, 0);
}

#[test]
fn engine_owner_identity_exhaustion_is_fail_closed_without_wrap() {
    let mut counter = u64::MAX - 1;
    assert_eq!(allocate_owner_from(&mut counter).unwrap(), u64::MAX - 1);
    assert_eq!(counter, u64::MAX);
    assert_eq!(allocate_owner_from(&mut counter), None);
    assert_eq!(counter, u64::MAX);
}

#[test]
fn dropping_receiver_clears_active_document_operation_and_pending_reservations() {
    let limits = EngineLimits::new(2, 8, 1, 4, 4).unwrap();
    let owner = 1;
    let mut state = SharedState::new(limits, owner);
    let navigation = navigation();
    let operation = DocumentOperationId::new(owner, 1);
    let version = DocumentVersion { document_id: 1, revision: 0 };
    state.contexts.insert(
        navigation.context().get(),
        ContextState {
            latest_generation: navigation.generation(),
            active_cancellation: Some(ActiveCancellation::Document {
                navigation,
                operation,
                source: CancellationSource { ticket: 9, cancelled: false },
            }),
            current_frame: None,
            document: Some(RetainedDocumentState {
                navigation,
                live_version: version,
                frame_version: version,
                node_charge: 1,
            }),
        },
    );
    state
        .commands
        .push_back(EngineWork::Mutate(DocumentMutationWork {
            navigation,
            operation,
            batch: ScriptMutationBatch {
                expected_version: version,
                commands: Vec::new(),
            },
            cancellation: 9,
            reserved_created_nodes: 0,
            reserved_result_units: 1,
            reserved_payload_bytes: 0,
        }));
    state.retained_document_nodes = 1;
    state.pending_mutation_result_nodes = 1;
    let mut receiver = EngineEventReceiver::new();

    receiver.detach(&mut state);

    assert!(state
        .take_effects()
        .contains(&EngineEffect::Cancel { ticket: 9 }));
    assert!(!state.receiver_open);
    assert_eq!(
        state.lifecycle,
        Lifecycle::Stopping(WorkerStopReason::EventReceiverDropped)
    );
    assert!(state.commands.is_empty());
    let context = state.contexts.get(&navigation.context().get()).unwrap();
    assert!(context.active_cancellation.is_none());
    assert!(context.document.is_none());
    assert_eq!(state.pending_document_nodes, 0);
    assert_eq!(state.pending_mutation_result_nodes, 0);
    assert_eq!(state.pending_mutation_payload_bytes, 0);
    assert_eq!(state.retained_mutation_result_nodes, 0);
    assert_eq!(state.retained_document_nodes, 0);
}

#[test]
fn requested_shutdown_drops_real_receiver_resources_before_join() {
    let limits = EngineLimits::new(2, 8, 1, 16, 16)
        .unwrap()
        .with_max_retained_document_nodes(16)
        .unwrap()
        .with_max_retained_mutation_result_nodes(16)
        .unwrap();
    let mut state = SharedState::new(limits, 1);
    let mut receiver = EngineEventReceiver::new();
    let navigation = navigate(
        &mut state,
        limits,
        context(),
        NavigationRequest::new("shutdown-resources").unwrap(),
        1,
    )
    .unwrap();
    let work = take_navigation_work(&mut state);
    assert_eq!(work.navigation, navigation);
    let mut phase = NavigationEventPhase::Queued;
    assert_eq!(
        begin_navigation(&mut state, limits, &work, false, &mut phase),
        Ok(true)
    );

    let node = NodeId { document_id: 1, index: 0 };
    let version = DocumentVersion { document_id: 1, revision: 1 };
    let operation = DocumentOperationId::new(state.document_operation_owner, 1);
    let admitted = state
        .contexts
        .get_mut(&navigation.context().get())
        .unwrap();
    admitted.current_frame = Some(StoredFrame {
        lease: FrameLeaseId::new(1).unwrap(),
        navigation,
        frame: frame(9),
    });
    admitted.document = Some(RetainedDocumentState {
        navigation,
        live_version: version,
        frame_version: version,
        node_charge: 1,
    });
    state.mutation_results.insert(
        1,
        StoredMutationResult {
            lease: MutationResultLeaseId::new(1).unwrap(),
            navigation,
            operation,
            live_version: version,
            created_nodes: vec![node],
        },
    );
    state.retained_frame_bytes = 4;
    state.retained_document_nodes = 1;
    state.pending_document_nodes = 2;
    state.retained_mutation_result_nodes = 1;
    state.pending_mutation_result_nodes = 3;
    state.pending_mutation_payload_bytes = 5;
    state.context_closures.push_back(navigation);
    state.closing_contexts.insert(navigation.context().get());
    assert!(!state.events.is_empty());

    assert_eq!(
        request_shutdown(&mut state),
        CommandReceipt::ShutdownRequested {
            already_requested: false,
        }
    );
    receiver.detach(&mut state);
    assert_eq!(
        state.lifecycle,
        Lifecycle::Stopping(WorkerStopReason::Requested)
    );
    assert!(state.events.is_empty());
    assert!(state.terminal_event.is_none());
    assert!(state.commands.is_empty());
    assert!(state.context_closures.is_empty());
    assert!(state.closing_contexts.is_empty());
    assert!(state.mutation_results.is_empty());
    let cleared = state.contexts.get(&navigation.context().get()).unwrap();
    assert!(cleared.current_frame.is_none());
    assert!(cleared.document.is_none());
    assert!(cleared.active_cancellation.is_none());
    assert_eq!(state.retained_frame_bytes, 0);
    assert_eq!(state.retained_document_nodes, 0);
    assert_eq!(state.pending_document_nodes, 0);
    assert_eq!(state.retained_mutation_result_nodes, 0);
    assert_eq!(state.pending_mutation_result_nodes, 0);
    assert_eq!(state.pending_mutation_payload_bytes, 0);

    let stopped = finish_navigation(
        &mut state,
        limits,
        &work,
        true,
        &mut phase,
        ExecutorOutput::new(200, frame(7)),
    );
    let reason = match stopped {
        Err(reason) => reason,
        Ok(()) => panic!("a stopping worker publishes nothing"),
    };
    finish_worker(
        &mut state,
        worker_status(
            WorkerRun::Ended(reason),
            ExecutorShutdownStatus::Clean,
            false,
        ),
    );
    let status = joined_status(&state);
    assert_eq!(status.reason(), WorkerStopReason::Requested);
    assert_eq!(status.executor(), ExecutorShutdownStatus::Clean);
}

#[test]
fn frame_lease_exhaustion_aborts_multi_event_publication_atomically() {
    let (mut state, limits, navigation) = state_with_prior_frame();
    state.next_frame_lease = u64::MAX;
    let mut phase = NavigationEventPhase::Started;
    let result = publish_success(
        &mut state,
        limits,
        &mut phase,
        navigation,
        &NavigationRequest::new("http://127.0.0.1/").unwrap(),
        ExecutorOutput::new(200, frame(2)).unwrap(),
    );

    assert_eq!(result, Err(WorkerStopReason::IdentityExhausted));
    assert_eq!(phase, NavigationEventPhase::Started);
    assert_eq!(state.next_event_sequence, 1);
    assert_eq!(state.next_frame_lease, u64::MAX);
    assert_prior_frame_unchanged(&state, navigation);
}

#[test]
fn a_running_transaction_ends_before_its_document_is_retired() {
    let mut lifecycle = StyleDocumentLifecycle::new();
    let capability = lifecycle
        .issue(StyleDocumentAuthorityClass::NonProduct)
        .unwrap();
    assert!(!lifecycle.is_transaction_running());
    capability.begin_transaction(&mut lifecycle).unwrap();
    assert!(lifecycle.is_transaction_running());
    assert!(!lifecycle.retire());
    assert!(lifecycle.is_current());
    assert_eq!(
        capability.ensure_current(&lifecycle),
        Err(StyleDocumentAccessError::TransactionActive)
    );
    capability.end_transaction(&mut lifecycle);
    assert!(!lifecycle.is_transaction_running());
    assert!(lifecycle.retire());
    assert!(!lifecycle.is_current());
    assert!(!lifecycle.retire_if_succeeded(true));
}
