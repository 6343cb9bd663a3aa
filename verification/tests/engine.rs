use wild_buzzard_engine::admission::{
    latest_generation, navigate, request_shutdown, try_send, CommandInputs,
};
use wild_buzzard_engine::command::{CommandErrorKind, CommandReceipt, EngineCommand};
use wild_buzzard_engine::commit::NavigationRequest;
use wild_buzzard_engine::document_work::{
    begin_document_mutation, begin_document_rerender, finish_document_mutation,
    finish_document_rerender,
};
use wild_buzzard_engine::engine::{EngineEffect, EngineWork, Lifecycle, SharedState};
use wild_buzzard_engine::event::{
    EngineEventKind, EventReceiveError, FrameLeaseError, MutationResultLeaseError,
    NavigationCommitError, NavigationEventPhase,
};
use wild_buzzard_engine::executor::{
    DocumentLoadProof, DocumentMutationCommit, ExecutorDocumentMutation, ExecutorDocumentRerender,
    ExecutorOutput,
};
use wild_buzzard_engine::failure::{
    DocumentOperationFailure, ExecutionFailure, ExecutionFailureKind, ExecutorShutdownStatus,
    NavigationStage, WorkerStopReason,
};
use wild_buzzard_engine::frame::{rgba8_len, EngineFrame, EngineFrameError, PixelSize};
use wild_buzzard_engine::identity::{
    DocumentOperationId, DocumentVersion, FrameLeaseId, NavigationGeneration, NavigationId, NodeId,
    TopLevelContextId,
};
use wild_buzzard_engine::limits::{
    EngineLimits, EngineLimitsError, MAX_FRAME_BYTES, MAX_QUEUE_CAPACITY,
    MAX_RETAINED_DOCUMENT_NODES,
};
use wild_buzzard_engine::publication::{begin_navigation, finish_navigation};
use wild_buzzard_engine::receiver::EngineEventReceiver;
use wild_buzzard_engine::script::{
    created_nodes_are_distinct, mutation_batch_has_valid_node_topology, validate_mutation_payload,
    CreatedNodeToken, PayloadError, ScriptMutationBatch, ScriptMutationCommand,
    ScriptMutationLimitKind, ScriptMutationLimits, ScriptNode,
};
use wild_buzzard_engine::worker::{
    dequeue_work, finish_worker, publish_context_closed, worker_status, DequeuedWork, WorkerRun,
};

const HARD: ScriptMutationLimits = ScriptMutationLimits {
    max_commands: 4,
    max_created_nodes: 2,
    max_string_bytes: 8,
    max_total_string_bytes: 12,
};

fn inputs(ticket: u64) -> CommandInputs {
    CommandInputs {
        ticket,
        command_bytes: 100,
        hard: HARD,
    }
}

fn context(raw: u64) -> TopLevelContextId {
    TopLevelContextId::new(raw).unwrap()
}

fn generation(raw: u64) -> NavigationGeneration {
    NavigationGeneration::new(raw).unwrap()
}

fn version(revision: u64) -> DocumentVersion {
    DocumentVersion {
        document_id: 7,
        revision,
    }
}

fn node(index: u64) -> NodeId {
    NodeId {
        document_id: 7,
        index,
    }
}

fn request() -> NavigationRequest {
    NavigationRequest::new("loopback").unwrap()
}

fn frame(marker: u8, revision: u64) -> EngineFrame {
    EngineFrame::from_rgba8_for_document(
        PixelSize::new(1, 1).unwrap(),
        vec![marker, 0, 0, 255],
        version(revision),
    )
    .unwrap()
}

fn limits() -> EngineLimits {
    EngineLimits::new(4, 16, 2, 4, 8)
        .unwrap()
        .with_max_retained_document_nodes(20)
        .unwrap()
        .with_max_retained_mutation_result_nodes(4)
        .unwrap()
        .with_max_pending_mutation_payload_bytes(400)
        .unwrap()
}

fn next_work(state: &mut SharedState) -> EngineWork {
    match dequeue_work(state) {
        Ok(DequeuedWork::Engine(work)) => work,
        other => panic!("{other:?}"),
    }
}

fn load(state: &mut SharedState, receiver: &mut EngineEventReceiver) -> NavigationId {
    let navigation = navigate(state, limits(), context(1), request(), 1).unwrap();
    let EngineWork::Navigate(work) = next_work(state) else {
        panic!("expected a navigation");
    };
    let mut phase = NavigationEventPhase::Queued;
    begin_navigation(state, limits(), &work, false, &mut phase).unwrap();
    let output = ExecutorOutput::new_document(
        200,
        frame(1, 1),
        DocumentLoadProof::from_snapshot(version(1), 10),
    );
    finish_navigation(state, limits(), &work, false, &mut phase, output).unwrap();
    while receiver.try_recv(state).is_ok() {}
    assert_eq!(
        state.take_effects(),
        vec![EngineEffect::AcknowledgeNavigation {
            navigation,
            published: true
        }]
    );
    navigation
}

fn loaded() -> (SharedState, EngineEventReceiver, NavigationId) {
    let mut state = SharedState::new(limits(), 5);
    let mut receiver = EngineEventReceiver::new();
    let navigation = load(&mut state, &mut receiver);
    (state, receiver, navigation)
}

fn batch(revision: u64) -> ScriptMutationBatch {
    ScriptMutationBatch {
        expected_version: version(revision),
        commands: vec![
            ScriptMutationCommand::CreateText {
                token: CreatedNodeToken { index: 0 },
                data: "text".to_owned(),
            },
            ScriptMutationCommand::AppendChild {
                parent: ScriptNode::Existing(node(1)),
                child: ScriptNode::Created(CreatedNodeToken { index: 0 }),
            },
        ],
    }
}

fn mutate(
    state: &mut SharedState,
    navigation: NavigationId,
    revision: u64,
) -> Result<CommandReceipt, CommandErrorKind> {
    try_send(
        state,
        limits(),
        EngineCommand::MutateDocument {
            navigation,
            batch: batch(revision),
        },
        &inputs(2),
    )
    .map_err(|error| error.kind())
}

#[test]
fn a_rendered_mutation_publishes_its_result_and_frame() {
    let (mut state, mut receiver, navigation) = loaded();
    let Ok(CommandReceipt::DocumentMutationQueued {
        operation,
        expected_live_version,
        ..
    }) = mutate(&mut state, navigation, 1)
    else {
        panic!("expected a queued mutation");
    };
    assert_eq!(expected_live_version, version(1));
    assert_eq!(state.pending_document_nodes, 1);
    assert_eq!(state.pending_mutation_payload_bytes, 104);
    assert_eq!(
        mutate(&mut state, navigation, 1),
        Err(CommandErrorKind::ContextBusy)
    );

    let EngineWork::Mutate(work) = next_work(&mut state) else {
        panic!("expected a mutation");
    };
    let reservation = begin_document_mutation(&mut state, limits(), &work, false)
        .unwrap()
        .unwrap();
    let outcome = ExecutorDocumentMutation::Rendered {
        previous_live_version: version(1),
        previous_frame_version: version(1),
        commit: DocumentMutationCommit::from_script_commit(version(2), vec![node(9)]),
        frame: frame(2, 2),
    };
    finish_document_mutation(
        &mut state,
        limits(),
        &work,
        reservation,
        outcome,
        HARD.max_created_nodes,
    )
    .unwrap();
    assert_eq!(state.pending_document_nodes, 0);
    assert_eq!(state.pending_mutation_payload_bytes, 0);
    assert_eq!(state.retained_document_nodes, 11);

    let EngineEventKind::DocumentMutationRendered {
        operation: finished,
        previous_live_version,
        live_version,
        result,
        created_nodes,
        frame,
        ..
    } = receiver.try_recv(&mut state).unwrap().kind()
    else {
        panic!("expected a rendered mutation");
    };
    assert_eq!(finished, operation);
    assert_eq!(previous_live_version, version(1));
    assert_eq!(live_version, version(2));
    assert_eq!(created_nodes, 1);
    let lease = receiver.take_mutation_result(&mut state, result).unwrap();
    assert_eq!(lease.operation(), operation);
    assert_eq!(lease.live_version(), version(2));
    assert_eq!(
        lease.created_node(CreatedNodeToken { index: 0 }),
        Some(node(9))
    );
    assert_eq!(lease.created_node(CreatedNodeToken { index: 1 }), None);
    assert_eq!(
        receiver.take_mutation_result(&mut state, result).err(),
        Some(MutationResultLeaseError::Stale)
    );
    assert_eq!(state.retained_mutation_result_nodes, 0);
    let shown = receiver.take_frame(&mut state, frame).unwrap();
    assert_eq!(shown.rgba8_pixels(), Some(&[2, 0, 0, 255][..]));
    assert_eq!(shown.document_version(), Some(version(2)));
    assert_eq!(
        receiver.take_frame(&mut state, frame).err(),
        Some(FrameLeaseError::Stale)
    );
    // The charge of a leased frame stays until another replaces it.
    assert_eq!(state.retained_frame_bytes, 0);
}

#[test]
fn a_rejected_mutation_gives_its_reservation_back() {
    let (mut state, mut receiver, navigation) = loaded();
    mutate(&mut state, navigation, 1).unwrap();
    let EngineWork::Mutate(work) = next_work(&mut state) else {
        panic!("expected a mutation");
    };
    let reservation = begin_document_mutation(&mut state, limits(), &work, false)
        .unwrap()
        .unwrap();
    finish_document_mutation(
        &mut state,
        limits(),
        &work,
        reservation,
        ExecutorDocumentMutation::Rejected {
            live_version: Some(version(1)),
            frame_version: Some(version(1)),
            failure: DocumentOperationFailure::MutationRejected,
        },
        HARD.max_created_nodes,
    )
    .unwrap();
    assert_eq!(state.retained_document_nodes, 10);
    assert_eq!(state.pending_document_nodes, 0);
    assert_eq!(state.pending_mutation_result_nodes, 0);
    assert!(matches!(
        receiver.try_recv(&mut state).unwrap().kind(),
        EngineEventKind::DocumentMutationRejected {
            failure: DocumentOperationFailure::MutationRejected,
            ..
        }
    ));
    assert_eq!(
        receiver.try_recv(&mut state).err(),
        Some(EventReceiveError::Empty)
    );
}

#[test]
fn a_contradictory_outcome_stops_the_worker() {
    let (mut state, _, navigation) = loaded();
    mutate(&mut state, navigation, 1).unwrap();
    let EngineWork::Mutate(work) = next_work(&mut state) else {
        panic!("expected a mutation");
    };
    let reservation = begin_document_mutation(&mut state, limits(), &work, false)
        .unwrap()
        .unwrap();
    let finished = finish_document_mutation(
        &mut state,
        limits(),
        &work,
        reservation,
        ExecutorDocumentMutation::Rendered {
            previous_live_version: version(1),
            previous_frame_version: version(1),
            commit: DocumentMutationCommit::from_script_commit(version(9), vec![node(9)]),
            frame: frame(2, 9),
        },
        HARD.max_created_nodes,
    );
    assert_eq!(finished, Err(WorkerStopReason::ExecutorContractViolation));
    assert_eq!(
        state.lifecycle,
        Lifecycle::Stopping(WorkerStopReason::ExecutorContractViolation)
    );
    let invalidated: Vec<EngineEffect> = state
        .take_effects()
        .into_iter()
        .filter(|effect| matches!(effect, EngineEffect::InvalidateDocument { .. }))
        .collect();
    assert_eq!(
        invalidated,
        vec![EngineEffect::InvalidateDocument {
            context: context(1)
        }]
    );
    assert!(state.take_effects().is_empty());
}

#[test]
fn a_rerender_replaces_only_the_frame() {
    let (mut state, mut receiver, navigation) = loaded();
    let receipt = try_send(
        &mut state,
        limits(),
        EngineCommand::RerenderDocument {
            navigation,
            expected_live_version: version(1),
        },
        &inputs(3),
    )
    .unwrap();
    assert!(matches!(
        receipt,
        CommandReceipt::DocumentRerenderQueued { .. }
    ));
    let EngineWork::Rerender(work) = next_work(&mut state) else {
        panic!("expected a rerender");
    };
    let reservation = begin_document_rerender(&mut state, limits(), &work, false)
        .unwrap()
        .unwrap();
    finish_document_rerender(
        &mut state,
        limits(),
        &work,
        reservation,
        ExecutorDocumentRerender::Rendered {
            live_version: version(1),
            previous_frame_version: version(1),
            frame: frame(3, 1),
        },
    )
    .unwrap();
    let EngineEventKind::DocumentRerendered {
        live_version,
        frame,
        ..
    } = receiver.try_recv(&mut state).unwrap().kind()
    else {
        panic!("expected a rerendered document");
    };
    assert_eq!(live_version, version(1));
    assert_eq!(
        receiver
            .take_frame(&mut state, frame)
            .unwrap()
            .rgba8_pixels(),
        Some(&[3, 0, 0, 255][..])
    );
    assert_eq!(state.retained_document_nodes, 10);
}

#[test]
fn a_cancelled_operation_never_runs() {
    let (mut state, mut receiver, navigation) = loaded();
    let Ok(CommandReceipt::DocumentMutationQueued { operation, .. }) =
        mutate(&mut state, navigation, 1)
    else {
        panic!("expected a queued mutation");
    };
    let other = DocumentOperationId::new(5, 99);
    assert_eq!(
        try_send(
            &mut state,
            limits(),
            EngineCommand::CancelDocumentOperation {
                navigation,
                operation: other,
            },
            &inputs(0),
        )
        .map_err(|error| error.kind()),
        Err(CommandErrorKind::NotCurrentDocumentOperation { current: operation })
    );
    assert_eq!(
        try_send(
            &mut state,
            limits(),
            EngineCommand::CancelDocumentOperation {
                navigation,
                operation,
            },
            &inputs(0),
        )
        .unwrap(),
        CommandReceipt::DocumentOperationCancellationRequested {
            navigation,
            operation
        }
    );
    assert_eq!(state.take_effects(), vec![EngineEffect::Cancel { ticket: 2 }]);
    let EngineWork::Mutate(work) = next_work(&mut state) else {
        panic!("expected a mutation");
    };
    assert!(begin_document_mutation(&mut state, limits(), &work, true)
        .unwrap()
        .is_none());
    assert!(matches!(
        receiver.try_recv(&mut state).unwrap().kind(),
        EngineEventKind::DocumentMutationRejected {
            failure: DocumentOperationFailure::Cancelled,
            ..
        }
    ));
    assert_eq!(state.pending_document_nodes, 0);
}

#[test]
fn document_commands_are_refused_exactly() {
    let (mut state, _, navigation) = loaded();
    assert_eq!(
        mutate(&mut state, navigation, 4),
        Err(CommandErrorKind::DocumentVersionMismatch { live: version(1) })
    );
    let later = NavigationId::new(context(1), generation(2));
    assert_eq!(
        mutate(&mut state, later, 1),
        Err(CommandErrorKind::DocumentNavigationMismatch {
            current: navigation
        })
    );
    let unknown = NavigationId::new(context(9), generation(1));
    assert_eq!(
        mutate(&mut state, unknown, 1),
        Err(CommandErrorKind::UnknownContext)
    );
    let refused = try_send(
        &mut state,
        limits(),
        EngineCommand::MutateDocument {
            navigation,
            batch: ScriptMutationBatch {
                expected_version: version(1),
                commands: vec![ScriptMutationCommand::SetCharacterData {
                    node: ScriptNode::Existing(node(1)),
                    data: "nine bytes".to_owned(),
                }],
            },
        },
        &inputs(2),
    )
    .unwrap_err();
    assert_eq!(
        refused.kind(),
        CommandErrorKind::MutationPayloadLimit {
            kind: ScriptMutationLimitKind::StringBytes,
            maximum: 8,
            actual: 10,
        }
    );
    assert!(matches!(
        refused.into_command(),
        EngineCommand::MutateDocument { .. }
    ));
    let heavy = CommandInputs {
        command_bytes: 397,
        ..inputs(2)
    };
    assert_eq!(
        try_send(
            &mut state,
            limits(),
            EngineCommand::MutateDocument {
                navigation,
                batch: batch(1),
            },
            &heavy,
        )
        .map_err(|error| error.kind()),
        Err(CommandErrorKind::MutationPayloadBudget { maximum: 400 })
    );
}

#[test]
fn a_navigation_supersedes_the_one_before() {
    let mut state = SharedState::new(limits(), 5);
    let first = navigate(&mut state, limits(), context(1), request(), 1).unwrap();
    let second = navigate(&mut state, limits(), context(1), request(), 2).unwrap();
    assert_eq!(second.generation().get(), first.generation().get() + 1);
    assert_eq!(
        latest_generation(&state, context(1)),
        Some(second.generation())
    );
    assert_eq!(state.take_effects(), vec![EngineEffect::Cancel { ticket: 1 }]);
    assert_eq!(
        try_send(
            &mut state,
            limits(),
            EngineCommand::Navigate {
                navigation: first,
                request: request(),
            },
            &inputs(3),
        )
        .map_err(|error| error.kind()),
        Err(CommandErrorKind::NonMonotonicGeneration {
            latest: second.generation()
        })
    );
    assert_eq!(
        try_send(
            &mut state,
            limits(),
            EngineCommand::Navigate {
                navigation: NavigationId::new(context(2), generation(2)),
                request: request(),
            },
            &inputs(3),
        )
        .map_err(|error| error.kind()),
        Err(CommandErrorKind::InitialGenerationRequired)
    );
    assert_eq!(
        try_send(
            &mut state,
            limits(),
            EngineCommand::Cancel { navigation: first },
            &inputs(0),
        )
        .map_err(|error| error.kind()),
        Err(CommandErrorKind::NotCurrentNavigation)
    );
}

#[test]
fn controls_pass_a_saturated_queue() {
    let mut state = SharedState::new(limits(), 5);
    let mut last = None;
    for ticket in 0..4 {
        last = Some(navigate(&mut state, limits(), context(1), request(), ticket).unwrap());
    }
    assert_eq!(
        navigate(&mut state, limits(), context(1), request(), 4)
            .map_err(|error| error.kind()),
        Err(CommandErrorKind::QueueFull { capacity: 4 })
    );
    let navigation = last.unwrap();
    assert_eq!(
        try_send(
            &mut state,
            limits(),
            EngineCommand::Cancel { navigation },
            &inputs(0),
        )
        .unwrap(),
        CommandReceipt::NavigationCancellationRequested(navigation)
    );
    assert_eq!(
        try_send(
            &mut state,
            limits(),
            EngineCommand::Cancel { navigation },
            &inputs(0),
        )
        .map_err(|error| error.kind()),
        Err(CommandErrorKind::NoActiveNavigation)
    );
    assert_eq!(
        try_send(
            &mut state,
            limits(),
            EngineCommand::CloseContext { navigation },
            &inputs(0),
        )
        .unwrap(),
        CommandReceipt::ContextCloseRequested(navigation)
    );
    assert!(state.commands.is_empty());
    assert_eq!(
        request_shutdown(&mut state),
        CommandReceipt::ShutdownRequested {
            already_requested: false
        }
    );
    assert_eq!(
        request_shutdown(&mut state),
        CommandReceipt::ShutdownRequested {
            already_requested: true
        }
    );
}

#[test]
fn a_closed_context_never_comes_back() {
    let (mut state, mut receiver, navigation) = loaded();
    try_send(
        &mut state,
        limits(),
        EngineCommand::CloseContext { navigation },
        &inputs(0),
    )
    .unwrap();
    assert_eq!(state.retained_document_nodes, 0);
    assert_eq!(state.retained_frame_bytes, 0);
    assert_eq!(
        navigate(&mut state, limits(), context(1), request(), 8).map_err(|error| error.kind()),
        Err(CommandErrorKind::ContextClosing)
    );
    match dequeue_work(&mut state) {
        Ok(DequeuedWork::CloseContext(closed)) => assert_eq!(closed, navigation),
        other => panic!("{other:?}"),
    }
    publish_context_closed(&mut state, limits(), navigation).unwrap();
    assert_eq!(
        receiver.try_recv(&mut state).unwrap().kind(),
        EngineEventKind::ContextClosed { navigation }
    );
    assert_eq!(
        navigate(&mut state, limits(), context(1), request(), 8).map_err(|error| error.kind()),
        Err(CommandErrorKind::ContextIdentityRetired { latest: context(1) })
    );
    navigate(&mut state, limits(), context(2), request(), 9).unwrap();
    assert!(matches!(
        dequeue_work(&mut state),
        Ok(DequeuedWork::Engine(EngineWork::Navigate(_)))
    ));
    assert!(matches!(dequeue_work(&mut state), Ok(DequeuedWork::Wait)));
}

#[test]
fn contexts_are_bounded() {
    let mut state = SharedState::new(limits(), 5);
    navigate(&mut state, limits(), context(1), request(), 1).unwrap();
    navigate(&mut state, limits(), context(2), request(), 2).unwrap();
    assert_eq!(
        navigate(&mut state, limits(), context(3), request(), 3).map_err(|error| error.kind()),
        Err(CommandErrorKind::ContextLimitReached { maximum: 2 })
    );
}

#[test]
fn a_failed_navigation_reports_its_failure() {
    let mut state = SharedState::new(limits(), 5);
    let mut receiver = EngineEventReceiver::new();
    let navigation = navigate(&mut state, limits(), context(1), request(), 1).unwrap();
    let EngineWork::Navigate(work) = next_work(&mut state) else {
        panic!("expected a navigation");
    };
    let mut phase = NavigationEventPhase::Queued;
    assert_eq!(
        begin_navigation(&mut state, limits(), &work, false, &mut phase),
        Ok(true)
    );
    let failure = ExecutionFailure::new(ExecutionFailureKind::Network, NavigationStage::Fetch);
    finish_navigation(&mut state, limits(), &work, false, &mut phase, Err(failure)).unwrap();
    assert_eq!(phase, NavigationEventPhase::Terminal);
    receiver.try_recv(&mut state).unwrap();
    assert_eq!(
        receiver.try_recv(&mut state).unwrap().kind(),
        EngineEventKind::NavigationFailed {
            navigation,
            failure
        }
    );
    assert_eq!(
        receiver.take_navigation_commit(&mut state, navigation).err(),
        Some(NavigationCommitError::Unknown)
    );
    let later = NavigationId::new(context(1), generation(2));
    assert_eq!(
        receiver.take_navigation_commit(&mut state, later).err(),
        Some(NavigationCommitError::Unknown)
    );
    assert_eq!(
        receiver
            .take_frame(&mut state, FrameLeaseId::new(1).unwrap())
            .err(),
        Some(FrameLeaseError::Unknown)
    );
}

#[test]
fn a_navigation_commit_is_taken_once() {
    let mut state = SharedState::new(limits(), 5);
    let mut receiver = EngineEventReceiver::new();
    let declined = load(&mut state, &mut receiver);
    assert_eq!(
        receiver.take_navigation_commit(&mut state, declined).err(),
        Some(NavigationCommitError::Stale)
    );
    let navigation = navigate(&mut state, limits(), context(1), request(), 2).unwrap();
    let EngineWork::Navigate(work) = next_work(&mut state) else {
        panic!("expected a navigation");
    };
    let mut phase = NavigationEventPhase::Queued;
    begin_navigation(&mut state, limits(), &work, false, &mut phase).unwrap();
    let pixels = EngineFrame::from_rgba8(PixelSize::new(1, 1).unwrap(), vec![2, 0, 0, 255]);
    let output = ExecutorOutput::new(204, pixels.unwrap());
    finish_navigation(&mut state, limits(), &work, false, &mut phase, output).unwrap();
    receiver.try_recv(&mut state).unwrap();
    assert_eq!(
        receiver.try_recv(&mut state).unwrap().kind(),
        EngineEventKind::NavigationCommitted {
            navigation,
            http_status: 204
        }
    );
    let commit = receiver
        .take_navigation_commit(&mut state, navigation)
        .unwrap();
    assert_eq!(commit.navigation(), navigation);
    assert_eq!(commit.metadata().final_url(), "loopback");
    assert_eq!(
        receiver.take_navigation_commit(&mut state, navigation).err(),
        Some(NavigationCommitError::Stale)
    );
    receiver.detach(&mut state);
    assert_eq!(
        receiver.take_navigation_commit(&mut state, navigation).err(),
        Some(NavigationCommitError::ReceiverClosed)
    );
    assert_eq!(
        navigate(&mut state, limits(), context(1), request(), 2).map_err(|error| error.kind()),
        Err(CommandErrorKind::EventReceiverDropped)
    );
}

#[test]
fn frames_have_exact_lengths() {
    assert_eq!(rgba8_len(2, 3), Ok(24));
    assert_eq!(
        rgba8_len(0, 3),
        Err(EngineFrameError::InvalidSize {
            width: 0,
            height: 3
        })
    );
    assert_eq!(
        rgba8_len(u32::MAX, u32::MAX),
        Err(EngineFrameError::ByteLengthOverflow)
    );
    assert_eq!(
        EngineFrame::from_rgba8(PixelSize::new(2, 1).unwrap(), vec![0; 7]).err(),
        Some(EngineFrameError::WrongByteLength {
            actual: 7,
            expected: 8,
        })
    );
    let frame = EngineFrame::from_rgba8(PixelSize::new(2, 1).unwrap(), vec![5; 8]).unwrap();
    let metadata = frame.metadata().rgba8().unwrap();
    assert_eq!(metadata.stride(), 8);
    assert_eq!(metadata.byte_len(), 8);
    assert_eq!(metadata.size().width(), 2);
    assert_eq!(frame.metadata().total_bytes(), 8);
    assert_eq!(frame.document_version(), None);
    assert_eq!(
        frame.into_presentation().err(),
        Some(EngineFrameError::WrongOutputKind)
    );
}

#[test]
fn engine_limits_are_bounded() {
    assert_eq!(
        EngineLimits::new(0, 3, 1, 4, 4).err(),
        Some(EngineLimitsError::Zero {
            field: "command_capacity"
        })
    );
    assert_eq!(
        EngineLimits::new(MAX_QUEUE_CAPACITY + 1, 3, 1, 4, 4).err(),
        Some(EngineLimitsError::TooLarge {
            field: "command_capacity",
            actual: MAX_QUEUE_CAPACITY + 1,
            maximum: MAX_QUEUE_CAPACITY,
        })
    );
    assert_eq!(
        EngineLimits::new(1, 3, 1, MAX_FRAME_BYTES + 1, 4).err(),
        Some(EngineLimitsError::TooLarge {
            field: "max_frame_bytes",
            actual: MAX_FRAME_BYTES + 1,
            maximum: MAX_FRAME_BYTES,
        })
    );
    assert_eq!(
        limits()
            .with_max_retained_document_nodes(MAX_RETAINED_DOCUMENT_NODES + 1)
            .err(),
        Some(EngineLimitsError::TooLarge {
            field: "max_retained_document_nodes",
            actual: MAX_RETAINED_DOCUMENT_NODES + 1,
            maximum: MAX_RETAINED_DOCUMENT_NODES,
        })
    );
    assert_eq!(limits().max_pending_mutation_payload_bytes(), 400);
    assert_eq!(limits().command_capacity(), 4);
}

#[test]
fn mutation_payloads_are_charged_exactly() {
    let reserved = validate_mutation_payload(&batch(1), 100, &HARD).unwrap();
    assert_eq!(reserved.created_nodes, 1);
    assert_eq!(reserved.payload_bytes, 104);
    assert_eq!(
        validate_mutation_payload(&batch(1), usize::MAX - 3, &HARD),
        Err(PayloadError::Unrepresentable)
    );
    let create = |index: u32, data: &str| ScriptMutationCommand::CreateText {
        token: CreatedNodeToken { index },
        data: data.to_owned(),
    };
    let of = |commands: Vec<ScriptMutationCommand>| ScriptMutationBatch {
        expected_version: version(1),
        commands,
    };
    let limit = |kind, maximum, actual| {
        Err(PayloadError::Limit {
            kind,
            maximum,
            actual,
        })
    };
    assert_eq!(
        validate_mutation_payload(&of(vec![create(0, ""); 5]), 0, &HARD),
        limit(ScriptMutationLimitKind::Commands, 4, 5)
    );
    assert_eq!(
        validate_mutation_payload(&of(vec![create(0, "a"); 3]), 0, &HARD),
        limit(ScriptMutationLimitKind::CreatedNodes, 2, 3)
    );
    assert_eq!(
        validate_mutation_payload(&of(vec![create(0, "1234567"); 2]), 0, &HARD),
        limit(ScriptMutationLimitKind::TotalStringBytes, 12, 14)
    );
    // Bytes are charged, not characters.
    assert_eq!(
        validate_mutation_payload(&of(vec![create(0, "\u{e9}\u{e9}\u{e9}\u{e9}\u{e9}")]), 0, &HARD),
        limit(ScriptMutationLimitKind::StringBytes, 8, 10)
    );
}

#[test]
fn mutation_batches_refer_to_existing_nodes() {
    assert!(mutation_batch_has_valid_node_topology(&batch(1), 1));
    assert!(!mutation_batch_has_valid_node_topology(&batch(1), 0));
    let mut reversed = batch(1);
    reversed.commands.swap(0, 1);
    assert!(!mutation_batch_has_valid_node_topology(&reversed, 1));
    let mut foreign = batch(1);
    foreign.expected_version.document_id = 8;
    assert!(!mutation_batch_has_valid_node_topology(&foreign, 1));

    assert!(created_nodes_are_distinct(&[node(1), node(2)]));
    assert!(!created_nodes_are_distinct(&[node(1), node(2), node(1)]));
}

#[test]
fn a_queued_navigation_has_published_no_commitment() {
    let mut state = SharedState::new(limits(), 5);
    let mut receiver = EngineEventReceiver::new();
    let first = load(&mut state, &mut receiver);
    let queued = navigate(&mut state, limits(), context(1), request(), 2).unwrap();
    assert_eq!(
        receiver.take_navigation_commit(&mut state, queued).err(),
        Some(NavigationCommitError::Unknown)
    );
    assert_eq!(
        receiver.take_navigation_commit(&mut state, first).err(),
        Some(NavigationCommitError::Stale)
    );
}

#[test]
fn received_events_are_numbered_upwards_to_the_last() {
    let mut state = SharedState::new(limits(), 5);
    let mut receiver = EngineEventReceiver::new();
    let navigation = navigate(&mut state, limits(), context(1), request(), 1).unwrap();
    let EngineWork::Navigate(work) = next_work(&mut state) else {
        panic!("expected a navigation");
    };
    let mut phase = NavigationEventPhase::Queued;
    begin_navigation(&mut state, limits(), &work, false, &mut phase).unwrap();
    let output = ExecutorOutput::new_document(
        200,
        frame(1, 1),
        DocumentLoadProof::from_snapshot(version(1), 10),
    );
    finish_navigation(&mut state, limits(), &work, false, &mut phase, output).unwrap();
    request_shutdown(&mut state);
    finish_worker(
        &mut state,
        worker_status(
            WorkerRun::Ended(WorkerStopReason::Requested),
            ExecutorShutdownStatus::Clean,
            false,
        ),
    );
    let mut last = None;
    let mut kinds = Vec::new();
    while let Ok(event) = receiver.try_recv(&mut state) {
        assert!(last < Some(event.sequence()));
        last = Some(event.sequence());
        kinds.push(event.kind());
    }
    assert_eq!(kinds[0], EngineEventKind::NavigationStarted { navigation });
    assert!(matches!(
        kinds.last(),
        Some(EngineEventKind::ShutdownComplete { .. })
    ));
    assert!(kinds.len() >= 3);
}

#[test]
fn frames_are_described_without_their_pixels() {
    assert_eq!(
        frame(9, 1).redacted(),
        "EngineFrame { metadata: FrameMetadata { output: Rgba8(Rgba8Metadata { size: \
         PixelSize { width: 1, height: 1 }, stride: 4, byte_len: 4 }), document_version: \
         Some(DocumentVersion { document_id: 7, revision: 1 }) }, .. }"
    );
}

#[test]
fn navigations_are_ordered_by_context_and_generation() {
    let first = NavigationId::new(context(1), generation(2));
    let later = NavigationId::new(context(1), generation(3));
    let other = NavigationId::new(context(2), generation(1));
    assert!(first < later && later < other && first < other);
    assert!(!(first < first) && first <= first && other > first);
    assert_eq!(first.cmp(&later), std::cmp::Ordering::Less);
    assert_eq!(first.max(other), other);
}
