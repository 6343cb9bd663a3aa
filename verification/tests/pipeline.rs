use wild_buzzard_engine::commit::{
    CommittedResponseAuthority, NavigationCommitMetadata, NavigationConnectionSecurity,
    NavigationNetworkCapability,
};
use wild_buzzard_engine::document_fetch::{
    admit_transport, ensure_navigation_url_bound, inherit_fragment, AdmittedDocument,
    DocumentHead, FetchedDocument, PageTransportKind, WebDocumentFetch,
};
use wild_buzzard_engine::document_policy::{
    capture_document_response_metadata, DocumentPolicyError, DocumentPolicyField,
};
use wild_buzzard_engine::dynamic::{
    validate_dynamic_owner, DocumentUpdateError, DocumentUpdateRejection, DynamicRenderEvidence,
    TextEvidence,
};
use wild_buzzard_engine::executor::{
    DocumentMutationCommit, ExecutorDocumentMutation, ExecutorDocumentRerender,
};
use wild_buzzard_engine::failure::{
    DocumentOperationFailure, ExecutionFailure, ExecutionFailureKind, NavigationStage,
    PipelineStage,
};
use wild_buzzard_engine::frame::{EngineFrame, EngineFrameError, RgbaFrame};
use wild_buzzard_engine::headers::Headers;
use wild_buzzard_engine::identity::{
    DocumentVersion, NavigationGeneration, NavigationId, NodeId, TopLevelContextId,
};
use wild_buzzard_engine::limits::{EngineLimits, MAX_FRAME_BYTES};
use wild_buzzard_engine::page_engine::{
    PipelineEvidence, PipelineFrame, PipelineRenderer, RenderedNavigationRerender,
    RenderedNavigationUpdate, RenderedSnapshot, RenderedStaticPage, StaticPageConfig,
    StaticPageEngine,
};
use wild_buzzard_engine::pipeline_error::{
    checkpoint, map_document_pipeline_error, map_fetch_error, map_pipeline_error, PipelineError,
    RedirectLocationFailure,
};
use wild_buzzard_engine::pipeline_executor::{
    frame_from_headless_page, publishable_frame, shutdown_failure, validate_frame_limit, LoadedNavigation,
    StaticPipelineExecutor,
};
use wild_buzzard_engine::scene_charge::{
    presentation_retained_charge, SceneSizes, ShapedRunSizes, ShapedTextSizes,
};
use wild_buzzard_engine::script::CreatedNodeToken;
use wild_buzzard_engine::snapshot_render::{
    page_pipeline, CompiledSnapshot, CompositionTicket, LayoutCounts, SceneCounts, StyleCounts,
    UnstyledSnapshot,
};
use wild_buzzard_engine::style_document::StyleDocumentLifecycle;
use wild_buzzard_engine::style_fetch::StyleFetchOwnerError;
use wild_buzzard_engine::style_transport::{Checkpoint, RedirectTargetFailure};
use wild_buzzard_engine::web::{
    AlpnOutcome, ConnectionSecurity, IpAddressSpace, ParsedNavigation, TlsVersion, WebHost,
    WebOrigin, WebScheme, WebTarget,
};

const GO: Checkpoint = Checkpoint {
    cancelled: false,
    expired: false,
};
const CANCELLED: Checkpoint = Checkpoint {
    cancelled: true,
    expired: true,
};
const EXPIRED: Checkpoint = Checkpoint {
    cancelled: false,
    expired: true,
};
const TLS: ConnectionSecurity = ConnectionSecurity::Tls {
    version: TlsVersion::Tls13,
    alpn: AlpnOutcome::Http11,
};

fn version(revision: u64) -> DocumentVersion {
    DocumentVersion {
        document_id: 7,
        revision,
    }
}

fn parsed(url: &str) -> ParsedNavigation {
    let scheme = if url.starts_with("https:") {
        WebScheme::Https
    } else {
        WebScheme::Http
    };
    ParsedNavigation {
        identity: url.to_owned(),
        target: WebTarget {
            url: url.split('#').next().unwrap_or("").to_owned(),
            origin: WebOrigin {
                scheme,
                host: WebHost::Domain("example.test".to_owned()),
                port: 80,
            },
        },
    }
}

fn fetch(url: &str) -> WebDocumentFetch {
    match WebDocumentFetch::begin(parsed(url)) {
        Ok(fetch) => fetch,
        Err(error) => panic!("{error:?}"),
    }
}

fn location(values: &[&[u8]]) -> Headers {
    let mut headers = Headers::new();
    for value in values {
        headers.append(b"Location", value.to_vec());
    }
    headers
}

fn authority(security: ConnectionSecurity) -> CommittedResponseAuthority {
    CommittedResponseAuthority {
        key: 3,
        security,
        address_space: IpAddressSpace { code: 1 },
    }
}

#[test]
fn unusable_renderer_preflight_rejects_before_mutation_state_can_advance() {
    let initial = version(0);
    let live = DocumentVersion {
        document_id: initial.document_id,
        revision: initial.revision + 1,
    };
    let error = validate_dynamic_owner(Some((live, initial)), false).unwrap_err();

    assert!(matches!(
        error,
        DocumentUpdateError::Rejected {
            live_version: Some(actual_live),
            last_returned_frame_version: Some(last_returned),
            reason: DocumentUpdateRejection::RendererUnavailable,
        } if actual_live == live && last_returned == initial
    ));
    assert!(matches!(
        validate_dynamic_owner(None, false),
        Err(DocumentUpdateError::Rejected {
            live_version: None,
            last_returned_frame_version: None,
            reason: DocumentUpdateRejection::NoLiveDocument,
        })
    ));
    assert!(matches!(
        validate_dynamic_owner(Some((live, initial)), true),
        Ok(versions) if versions == (live, initial)
    ));
}

#[test]
fn a_checkpoint_reports_cancellation_before_the_deadline() {
    assert!(checkpoint(GO, PipelineStage::Layout).is_ok());
    assert!(matches!(
        checkpoint(CANCELLED, PipelineStage::Layout),
        Err(PipelineError::Cancelled {
            stage: PipelineStage::Layout
        })
    ));
    assert!(matches!(
        checkpoint(EXPIRED, PipelineStage::Style),
        Err(PipelineError::DeadlineExceeded {
            stage: PipelineStage::Style
        })
    ));
    assert!(matches!(
        map_fetch_error("reset".to_owned(), CANCELLED),
        PipelineError::Cancelled {
            stage: PipelineStage::Fetch
        }
    ));
    assert!(matches!(
        map_fetch_error("reset".to_owned(), EXPIRED),
        PipelineError::DeadlineExceeded {
            stage: PipelineStage::Fetch
        }
    ));
    assert!(matches!(
        map_fetch_error("reset".to_owned(), GO),
        PipelineError::Network(text) if text == "reset"
    ));
}

#[test]
fn every_pipeline_error_has_one_report() {
    let stop = |kind, stage| ExecutionFailure::new(kind, stage);
    let cases = [
        (
            PipelineError::Cancelled {
                stage: PipelineStage::TextShaping,
            },
            stop(ExecutionFailureKind::Cancelled, NavigationStage::Layout),
            DocumentOperationFailure::Cancelled,
        ),
        (
            PipelineError::DeadlineExceeded {
                stage: PipelineStage::Parse,
            },
            stop(
                ExecutionFailureKind::DeadlineExceeded,
                NavigationStage::Document,
            ),
            DocumentOperationFailure::DeadlineExceeded,
        ),
        (
            PipelineError::Network("reset".to_owned()),
            stop(ExecutionFailureKind::Network, NavigationStage::Fetch),
            DocumentOperationFailure::Internal,
        ),
        (
            PipelineError::DocumentPolicy(DocumentPolicyError::BindingMismatch),
            stop(ExecutionFailureKind::Internal, NavigationStage::Document),
            DocumentOperationFailure::Internal,
        ),
        (
            PipelineError::DocumentPolicy(DocumentPolicyError::CounterOverflow {
                field: DocumentPolicyField::Aggregate,
            }),
            stop(ExecutionFailureKind::ResourceLimit, NavigationStage::Fetch),
            DocumentOperationFailure::ResourceLimit,
        ),
        (
            PipelineError::DeadlineOverflow,
            stop(ExecutionFailureKind::ResourceLimit, NavigationStage::Render),
            DocumentOperationFailure::ResourceLimit,
        ),
        (
            PipelineError::RedirectLoop,
            stop(ExecutionFailureKind::Rejected, NavigationStage::Fetch),
            DocumentOperationFailure::Document,
        ),
        (
            PipelineError::HttpStatus(404),
            stop(ExecutionFailureKind::Rejected, NavigationStage::Document),
            DocumentOperationFailure::Document,
        ),
        (
            PipelineError::Html("depth".to_owned()),
            stop(ExecutionFailureKind::Document, NavigationStage::Document),
            DocumentOperationFailure::Document,
        ),
        (
            PipelineError::Style("limit".to_owned()),
            stop(ExecutionFailureKind::Document, NavigationStage::Style),
            DocumentOperationFailure::Document,
        ),
        (
            PipelineError::Text("font".to_owned()),
            stop(ExecutionFailureKind::Document, NavigationStage::Layout),
            DocumentOperationFailure::Document,
        ),
        (
            PipelineError::Headless("lost".to_owned()),
            stop(ExecutionFailureKind::Rendering, NavigationStage::Render),
            DocumentOperationFailure::Rendering,
        ),
    ];
    for (error, failure, operation) in cases {
        assert_eq!(map_pipeline_error(&error), failure, "{error:?}");
        assert_eq!(map_document_pipeline_error(&error), operation, "{error:?}");
        assert_eq!(shutdown_failure(&error).kind(), failure.kind());
        assert_eq!(shutdown_failure(&error).stage(), NavigationStage::Shutdown);
    }
}

#[test]
fn a_load_needs_the_transport_that_the_engine_owns() {
    let loopback = PageTransportKind::NumericLoopback;
    let web = PageTransportKind::GeneralWeb;
    assert!(admit_transport(loopback, loopback).is_ok());
    assert!(admit_transport(web, web).is_ok());
    assert_eq!(
        admit_transport(loopback, web).unwrap_err().message(),
        "invalid network_capability: general-web load requested from a numeric-loopback engine"
    );
    assert_eq!(
        admit_transport(web, loopback).unwrap_err().message(),
        "invalid network_capability: numeric-loopback load requested from a general-web engine"
    );
}

#[test]
fn navigation_urls_are_bounded() {
    let edge = "a".repeat(16 * 1024);
    let over = "a".repeat(16 * 1024 + 1);
    assert!(ensure_navigation_url_bound(&edge).is_ok());
    for refused in ["", over.as_str()] {
        assert!(matches!(
            ensure_navigation_url_bound(refused),
            Err(PipelineError::RedirectLocation(
                RedirectLocationFailure::UrlTooLong
            ))
        ));
    }
    assert!(WebDocumentFetch::begin(parsed(&over)).is_err());
}

#[test]
fn a_redirect_inherits_the_fragment_that_it_lacks() {
    assert_eq!(
        inherit_fragment("http://a.test/b", "http://a.test/c#d"),
        "http://a.test/b#d"
    );
    assert_eq!(
        inherit_fragment("http://a.test/b#e", "http://a.test/c#d"),
        "http://a.test/b#e"
    );
    assert_eq!(
        inherit_fragment("http://a.test/b", "http://a.test/c"),
        "http://a.test/b"
    );
    assert_eq!(
        inherit_fragment("http://a.test/b#", "http://a.test/c#d"),
        "http://a.test/b#"
    );
    assert_eq!(
        inherit_fragment("http://a.test/\u{e9}", "http://a.test/\u{e9}#\u{e9}"),
        "http://a.test/\u{e9}#\u{e9}"
    );
}

#[test]
fn a_redirect_names_exactly_one_utf8_location() {
    let cases: [(&[&[u8]], RedirectLocationFailure); 3] = [
        (&[], RedirectLocationFailure::Missing),
        (&[b"/a", b"/a"], RedirectLocationFailure::Multiple),
        (&[b"/\xff"], RedirectLocationFailure::NonUtf8),
    ];
    for (values, failure) in cases {
        let mut pending = fetch("http://example.test/");
        let refused = pending.receive(
            ConnectionSecurity::Cleartext,
            GO,
            302,
            true,
            &location(values),
        );
        assert!(matches!(
            refused,
            Err(PipelineError::RedirectLocation(actual)) if actual == failure
        ));
    }
    let mut pending = fetch("http://example.test/");
    assert!(matches!(
        pending.receive(
            ConnectionSecurity::Cleartext,
            GO,
            302,
            true,
            &location(&[b" \t/next\t "]),
        ),
        Ok(DocumentHead::Redirect(text)) if text == "/next"
    ));
    assert!(matches!(
        pending.redirect_identity(None),
        Err(PipelineError::RedirectLocation(
            RedirectLocationFailure::Invalid
        ))
    ));
    assert_eq!(
        pending
            .redirect_identity(Some("http://example.test/next"))
            .unwrap(),
        "http://example.test/next"
    );
}

#[test]
fn only_success_commits_a_document() {
    let none = Headers::new();
    let mut pending = fetch("http://example.test/");
    for (status, refused) in [
        (304, "HTTP status 304 has unsupported redirect semantics"),
        (199, "HTTP returned status 199"),
        (404, "HTTP returned status 404"),
    ] {
        let error = pending
            .receive(ConnectionSecurity::Cleartext, GO, status, false, &none)
            .unwrap_err();
        assert_eq!(error.message(), refused);
    }
    assert!(matches!(
        pending.receive(TLS, GO, 200, false, &none),
        Err(PipelineError::TransportSecurityMismatch)
    ));
    assert!(matches!(
        pending.receive(ConnectionSecurity::Cleartext, EXPIRED, 200, false, &none),
        Err(PipelineError::DeadlineExceeded {
            stage: PipelineStage::Fetch
        })
    ));
    assert!(matches!(
        pending.receive(ConnectionSecurity::Cleartext, GO, 204, false, &none),
        Ok(DocumentHead::Final)
    ));
    let admitted = match pending.admit_final(
        true,
        authority(ConnectionSecurity::Cleartext),
        204,
        &none,
    ) {
        Ok(admitted) => admitted,
        Err(error) => panic!("{error:?}"),
    };
    assert_eq!(admitted.http_status, 204);
    assert_eq!(
        admitted.navigation_commit.final_url(),
        "http://example.test/"
    );
    assert_eq!(admitted.navigation_commit.redirect_count(), 0);
    let fetched = admitted.complete(Ok(b"<p>".to_vec()), GO);
    assert!(matches!(fetched, Ok(document) if document.source == b"<p>"));
    assert!(matches!(
        pending.admit_final(
            false,
            authority(ConnectionSecurity::Cleartext),
            204,
            &none
        ),
        Err(PipelineError::DocumentPolicy(
            DocumentPolicyError::BindingMismatch
        ))
    ));
}

#[test]
fn redirect_chains_are_bounded_and_never_repeat() {
    let mut pending = fetch("http://example.test/0");
    assert!(matches!(
        pending.follow(Ok(parsed("http://example.test/0"))),
        Err(PipelineError::RedirectLoop)
    ));
    for hop in 1..=10 {
        let target = format!("http://example.test/{hop}");
        assert!(pending.follow(Ok(parsed(&target))).is_ok());
    }
    assert!(matches!(
        pending.follow(Ok(parsed("http://example.test/3"))),
        Err(PipelineError::RedirectLoop)
    ));
    assert!(matches!(
        pending.follow(Ok(parsed("http://example.test/11"))),
        Err(PipelineError::TooManyRedirects { maximum: 10 })
    ));
    assert_eq!(pending.target().identity, "http://example.test/10");
    for (failure, expected) in [
        (
            RedirectTargetFailure::CredentialsNotAllowed,
            RedirectLocationFailure::CredentialsNotAllowed,
        ),
        (
            RedirectTargetFailure::UnsupportedScheme,
            RedirectLocationFailure::UnsupportedScheme,
        ),
        (
            RedirectTargetFailure::UrlBytes,
            RedirectLocationFailure::UrlTooLong,
        ),
        (
            RedirectTargetFailure::Invalid,
            RedirectLocationFailure::Invalid,
        ),
    ] {
        assert!(matches!(
            pending.follow(Err(failure)),
            Err(PipelineError::RedirectLocation(actual)) if actual == expected
        ));
    }
}

#[test]
fn a_downgrade_marks_the_chain_for_good() {
    let mut pending = fetch("https://example.test/0");
    assert!(pending
        .receive(TLS, GO, 302, true, &location(&[b"/1"]))
        .is_ok());
    assert!(pending.follow(Ok(parsed("http://example.test/1"))).is_ok());
    assert!(pending.follow(Ok(parsed("https://example.test/2"))).is_ok());
    let admitted = match pending.admit_final(true, authority(TLS), 200, &Headers::new()) {
        Ok(admitted) => admitted,
        Err(error) => panic!("{error:?}"),
    };
    assert!(admitted.navigation_commit.had_https_downgrade());
    assert_eq!(admitted.navigation_commit.redirect_count(), 2);
}

#[test]
fn a_loopback_load_follows_no_redirect() {
    let commit = AdmittedDocument::commit_loopback("http://127.0.0.1/").unwrap();
    assert_eq!(commit.security(), NavigationConnectionSecurity::Cleartext);
    assert!(matches!(
        AdmittedDocument::commit_loopback(""),
        Err(PipelineError::RedirectLocation(
            RedirectLocationFailure::UrlTooLong
        ))
    ));
    assert!(matches!(
        AdmittedDocument::admit_loopback(commit.clone(), GO, 302, &Headers::new()),
        Err(PipelineError::HttpStatus(302))
    ));
    assert!(AdmittedDocument::admit_loopback(commit.clone(), CANCELLED, 200, &Headers::new())
        .is_err());
    let admitted = match AdmittedDocument::admit_loopback(commit, GO, 200, &Headers::new()) {
        Ok(admitted) => admitted,
        Err(error) => panic!("{error:?}"),
    };
    assert!(matches!(
        admitted.complete(Err("short".to_owned()), GO),
        Err(PipelineError::Network(_))
    ));
}

fn scene_sizes() -> SceneSizes {
    let run = |font_blob, font_bytes| ShapedRunSizes {
        coordinate_bytes: 1,
        glyph_bytes: 2,
        cluster_bytes: 3,
        font_blob,
        font_bytes,
    };
    let shaped = |allocation, runs| ShapedTextSizes {
        allocation,
        text_bytes: 4,
        run_bytes: 5,
        runs,
    };
    SceneSizes {
        scene_bytes: 100,
        display_list_bytes: 200,
        item_bytes: 300,
        pending_bytes: 400,
        pending_texts: vec![10, 20],
        entry_bytes: 500,
        shaped_text_bytes: 50,
        entries: vec![
            shaped(1, vec![run(7, 1000), run(7, 1000)]),
            shaped(1, vec![run(9, 5000)]),
            shaped(2, vec![run(7, 1000)]),
        ],
    }
}

#[test]
fn a_scene_is_charged_once_for_shared_text_and_fonts() {
    let word = std::mem::size_of::<usize>() * 4;
    let records = 100 + 200 + 300 + 400 + 500;
    let texts = 10 + 20 + 2 * word;
    let shaped = 2 * (50 + 4 + 5 + 3 * word);
    let runs = 3 * (1 + 2 + 3 + 3 * word);
    let fonts = 1000 + word;
    let shared = (2 + 1) * word;
    assert_eq!(
        presentation_retained_charge(&scene_sizes()).unwrap(),
        records + texts + shaped + runs + fonts + shared
    );

    let mut huge = scene_sizes();
    huge.display_list_bytes = usize::MAX;
    assert!(matches!(
        presentation_retained_charge(&huge),
        Err(PipelineError::EvidenceOverflow)
    ));

    let nothing = SceneSizes {
        scene_bytes: 0,
        display_list_bytes: 0,
        item_bytes: 0,
        pending_bytes: 0,
        pending_texts: Vec::new(),
        entry_bytes: 0,
        shaped_text_bytes: 0,
        entries: Vec::new(),
    };
    assert_eq!(presentation_retained_charge(&nothing).unwrap(), 1);
}

#[test]
fn engine_configuration_is_checked_first() {
    let config = StaticPageConfig::default();
    assert_eq!(
        (config.viewport_width, config.viewport_height),
        (800, 600)
    );
    let timeless = StaticPageConfig {
        operation_timeout_nanoseconds: 0,
        ..config
    };
    assert!(matches!(
        StaticPageEngine::new(timeless),
        Err(PipelineError::InvalidConfiguration {
            field: "operation_timeout",
            ..
        })
    ));
    let edge = StaticPageConfig {
        viewport_width: i32::MAX as u32,
        ..config
    };
    assert!(StaticPageEngine::new_for_presentation(edge).is_ok());
    let wide = StaticPageConfig {
        viewport_width: i32::MAX as u32 + 1,
        ..config
    };
    assert!(matches!(
        StaticPageEngine::new_general_web(wide),
        Err(PipelineError::InvalidConfiguration {
            field: "viewport",
            ..
        })
    ));
}

#[test]
fn a_viewport_must_fit_one_frame() {
    let config = StaticPageConfig {
        viewport_width: 3,
        viewport_height: 2,
        ..StaticPageConfig::default()
    };
    let exact = EngineLimits::new(1, 3, 1, 24, 24).unwrap();
    let short = EngineLimits::new(1, 3, 1, 23, 23).unwrap();
    assert_eq!(validate_frame_limit(config, exact), Ok(()));
    let refused = ExecutionFailure::new(
        ExecutionFailureKind::ResourceLimit,
        NavigationStage::Render,
    );
    assert_eq!(validate_frame_limit(config, short), Err(refused));
    let largest = StaticPageConfig {
        viewport_width: u32::MAX,
        viewport_height: u32::MAX,
        ..config
    };
    assert_eq!(validate_frame_limit(largest, exact), Err(refused));
}

fn engine(renderer: PipelineRenderer) -> StaticPageEngine {
    let created = match renderer {
        PipelineRenderer::Headless => StaticPageEngine::new(StaticPageConfig::default()),
        PipelineRenderer::PresentationOnly => {
            StaticPageEngine::new_for_presentation(StaticPageConfig::default())
        }
    };
    match created {
        Ok(engine) => engine,
        Err(error) => panic!("{error:?}"),
    }
}

fn compiled(document_version: DocumentVersion, pending_runs: usize) -> CompiledSnapshot {
    let unstyled = UnstyledSnapshot::begin(11, GO).unwrap();
    let styled = unstyled
        .styled(
            Ok(StyleCounts {
                entries: 12,
                diagnostics: 13,
                dropped_diagnostics: 14,
            }),
            GO,
        )
        .unwrap();
    let laid_out = styled
        .laid_out(
            Ok(LayoutCounts {
                document_version,
                boxes: 15,
                warnings: 16,
            }),
            None,
            17,
            GO,
        )
        .unwrap();
    laid_out
        .compiled(
            Ok(SceneCounts {
                pipeline: page_pipeline(),
                items: 18,
                display_list_bytes: 19,
                pending_runs,
            }),
            Ok(()),
        )
        .unwrap()
}

fn pixels(document_version: DocumentVersion) -> RgbaFrame {
    RgbaFrame {
        width: 1,
        height: 1,
        pixels: vec![1, 2, 3, 4],
        document_version,
        pending_text_runs: 0,
    }
}

fn rendered(engine: &mut StaticPageEngine, document_version: DocumentVersion) -> RenderedSnapshot {
    compiled(document_version, 0)
        .compose(engine, GO)
        .unwrap()
        .finish_headless(Ok(pixels(document_version)))
        .unwrap()
}

#[test]
fn a_snapshot_reports_the_counts_of_every_stage() {
    let mut owner = engine(PipelineRenderer::Headless);
    let mut snapshot = compiled(version(1), 2);
    assert_eq!(snapshot.next_run(GO).unwrap(), Some(0));
    assert!(snapshot.run_shaped(Ok((5, 3))).is_ok());
    assert_eq!(snapshot.next_run(GO).unwrap(), Some(1));
    assert!(matches!(
        snapshot.next_run(EXPIRED),
        Err(PipelineError::DeadlineExceeded {
            stage: PipelineStage::TextShaping
        })
    ));
    assert!(matches!(
        snapshot.run_shaped(Ok((usize::MAX, 1))),
        Err(PipelineError::EvidenceOverflow)
    ));
    assert!(snapshot.run_shaped(Ok((6, 4))).is_ok());
    assert_eq!(snapshot.next_run(EXPIRED).unwrap(), None);
    let shaped = snapshot.compose(&mut owner, GO).unwrap();
    assert_eq!(shaped.ticket, CompositionTicket::Epoch(1));
    let done = shaped.finish_headless(Ok(pixels(version(1)))).unwrap();
    assert_eq!(
        done.evidence,
        DynamicRenderEvidence {
            document_version: version(1),
            dom_nodes: 11,
            stylo_style_entries: 12,
            style_diagnostics: 13,
            dropped_style_diagnostics: 14,
            layout_boxes: 15,
            layout_warnings: 16,
            scene_items: 18,
            pre_composition_display_list_bytes: 19,
        }
    );
    assert_eq!(
        done.text,
        TextEvidence {
            layout_measurement_requests: 17,
            shaped_runs: 2,
            glyphs: 11,
            clusters: 7,
        }
    );
    let again = compiled(version(1), 0).compose(&mut owner, GO).unwrap();
    assert_eq!(again.ticket, CompositionTicket::Epoch(2));
}

#[test]
fn a_stage_failure_comes_before_the_next_checkpoint() {
    let styled = UnstyledSnapshot::begin(1, GO)
        .unwrap()
        .styled(Err("selector".to_owned()), CANCELLED);
    assert!(matches!(styled, Err(PipelineError::Style(_))));
    let begun = UnstyledSnapshot::begin(1, EXPIRED);
    assert!(matches!(
        begun,
        Err(PipelineError::DeadlineExceeded {
            stage: PipelineStage::Style
        })
    ));
    let counts = StyleCounts {
        entries: 0,
        diagnostics: 0,
        dropped_diagnostics: 0,
    };
    let layout = LayoutCounts {
        document_version: version(1),
        boxes: 0,
        warnings: 0,
    };
    let measured = UnstyledSnapshot::begin(1, GO)
        .unwrap()
        .styled(Ok(counts), GO)
        .unwrap()
        .laid_out(Ok(layout), Some("font".to_owned()), 0, CANCELLED);
    assert!(matches!(measured, Err(PipelineError::Text(_))));
    let refused = UnstyledSnapshot::begin(1, GO)
        .unwrap()
        .styled(Ok(counts), GO)
        .unwrap()
        .laid_out(Err("depth".to_owned()), Some("font".to_owned()), 0, GO);
    assert!(matches!(refused, Err(PipelineError::Layout(_))));
}

#[test]
fn presentation_scenes_get_increasing_revisions_and_a_charge() {
    let mut owner = engine(PipelineRenderer::PresentationOnly);
    for expected in 1..=2u64 {
        let shaped = compiled(version(4), 0).compose(&mut owner, GO).unwrap();
        let charge = presentation_retained_charge(&scene_sizes()).unwrap();
        let done = shaped.finish_presentation(&scene_sizes(), 77).unwrap();
        let PipelineFrame::Presentation(scene) = done.frame else {
            panic!("a presentation engine makes scenes");
        };
        assert_eq!(scene.metadata().revision().get(), expected);
        assert_eq!(scene.metadata().document_version(), version(4));
        assert_eq!(scene.metadata().pipeline(), page_pipeline());
        assert_eq!(scene.metadata().scene_items(), 18);
        assert_eq!(scene.metadata().display_list_bytes(), 19);
        assert_eq!(scene.metadata().retained_charge_bytes(), charge);
        assert_eq!(scene.content, 77);
    }
    let crossed = compiled(version(4), 0)
        .compose(&mut owner, GO)
        .unwrap()
        .finish_headless(Ok(pixels(version(4))));
    assert!(matches!(
        crossed,
        Err(PipelineError::InvalidConfiguration {
            field: "engine_output_mode",
            ..
        })
    ));
}

fn fetched(url: &str) -> FetchedDocument {
    let commit = AdmittedDocument::commit_loopback(url).unwrap();
    let metadata = match capture_document_response_metadata(&Headers::new()) {
        Ok(metadata) => metadata,
        Err(error) => panic!("{error:?}"),
    };
    FetchedDocument {
        http_status: 200,
        source: b"<p>text</p>".to_vec(),
        navigation_commit: commit,
        response_metadata: metadata,
    }
}

fn loaded_engine() -> StaticPageEngine {
    let mut owner = engine(PipelineRenderer::Headless);
    let snapshot = rendered(&mut owner, version(1));
    match owner.finish_load(
        fetched("http://127.0.0.1/"),
        5,
        version(1),
        2,
        snapshot,
        40,
    ) {
        Ok((page, opened, retired)) => {
            assert_eq!((opened, retired), (None, None));
            assert_eq!(page.evidence.source_bytes, 11);
            assert_eq!(page.evidence.html_diagnostics, 2);
            assert_eq!(page.evidence.dom_nodes, 11);
            assert!(page.into_headless().is_ok());
        }
        Err(error) => panic!("{error:?}"),
    }
    owner
}

#[test]
fn a_load_makes_its_document_live() {
    let owner = loaded_engine();
    let page = owner.live_document().unwrap();
    assert_eq!(page.document(), 5);
    assert_eq!(page.live_version(), version(1));
    assert_eq!(page.last_returned_frame_version(), version(1));

    let mut other = engine(PipelineRenderer::Headless);
    let snapshot = rendered(&mut other, version(1));
    let mismatched = other.finish_load(
        fetched("http://127.0.0.1/"),
        5,
        version(2),
        0,
        snapshot,
        40,
    );
    assert!(matches!(
        mismatched,
        Err(PipelineError::DocumentPolicy(
            DocumentPolicyError::BindingMismatch
        ))
    ));
    assert!(other.live_document().is_none());
}

#[test]
fn a_load_is_refused_before_it_fetches() {
    let headless = engine(PipelineRenderer::Headless);
    assert!(headless.begin_load(None, GO).is_ok());
    assert!(matches!(
        headless.begin_load(Some("lost".to_owned()), CANCELLED),
        Err(PipelineError::Headless(_))
    ));
    assert!(matches!(
        headless.begin_load(None, CANCELLED),
        Err(PipelineError::Cancelled {
            stage: PipelineStage::Fetch
        })
    ));
    let presentation = engine(PipelineRenderer::PresentationOnly);
    assert!(presentation
        .begin_load(Some("lost".to_owned()), GO)
        .is_ok());
    assert!(headless
        .require_output(PipelineRenderer::PresentationOnly)
        .is_err());
    assert!(presentation
        .require_output(PipelineRenderer::Headless)
        .is_err());
    assert!(matches!(
        StaticPageEngine::decode_document(b"\xff", GO),
        Err(PipelineError::NonUtf8Html)
    ));
    assert!(matches!(
        StaticPageEngine::decode_document(b"\xff", CANCELLED),
        Err(PipelineError::Cancelled {
            stage: PipelineStage::Parse
        })
    ));
    assert_eq!(
        StaticPageEngine::decode_document("h\u{e9}".as_bytes(), GO).unwrap(),
        "h\u{e9}"
    );
}

fn commit(revision: u64, created: usize) -> DocumentMutationCommit {
    let nodes = (0..created as u64)
        .map(|index| NodeId {
            document_id: 7,
            index,
        })
        .collect();
    DocumentMutationCommit::from_script_commit(version(revision), nodes)
}

#[test]
fn an_update_advances_the_document_before_its_frame() {
    let mut owner = loaded_engine();
    let mut ledger = StyleDocumentLifecycle::new();
    let versions = owner.dynamic_preflight(true, GO).unwrap();
    assert_eq!(versions, (version(1), version(1)));
    assert!(owner.may_apply(&ledger));

    let rejected = owner.commit_batch(versions, &mut ledger, Err("stale".to_owned()));
    assert!(matches!(
        rejected,
        Err(DocumentUpdateError::Rejected {
            reason: DocumentUpdateRejection::Mutation(_),
            ..
        })
    ));
    assert_eq!(owner.live_document().unwrap().live_version(), version(1));

    let committed = owner
        .commit_batch(versions, &mut ledger, Ok(commit(2, 1)))
        .unwrap();
    assert_eq!(owner.live_document().unwrap().live_version(), version(2));
    assert_eq!(
        owner
            .live_document()
            .unwrap()
            .last_returned_frame_version(),
        version(1)
    );
    let failed = owner.finish_apply(
        versions,
        committed,
        Err(PipelineError::Cancelled {
            stage: PipelineStage::Style,
        }),
    );
    let error = failed.unwrap_err();
    assert_eq!(error.created_nodes().len(), 1);
    assert_eq!(
        error.created_node(CreatedNodeToken { index: 0 }),
        Some(NodeId {
            document_id: 7,
            index: 0
        })
    );
    assert_eq!(error.created_node(CreatedNodeToken { index: 1 }), None);
    assert_eq!(
        error.message(),
        "document update committed revision 2 but returned no frame after revision 1: \
         cancelled during Stylo style preparation"
    );

    let stale = owner.begin_rerender(version(1), true, GO).unwrap_err();
    assert_eq!(
        stale.message(),
        "document update committed no DOM mutation: rerender expected document 7 revision 1, \
         but live document is 7 revision 2"
    );
    let versions = owner.begin_rerender(version(2), true, GO).unwrap();
    let snapshot = rendered(&mut owner, version(2));
    let shown = owner.finish_rerender(versions, Ok(snapshot)).unwrap();
    assert_eq!(shown.previous_last_returned_frame_version, version(1));
    assert_eq!(
        owner
            .live_document()
            .unwrap()
            .last_returned_frame_version(),
        version(2)
    );
}

#[test]
fn an_update_needs_a_live_document_and_a_renderer() {
    let empty = engine(PipelineRenderer::Headless);
    assert!(matches!(
        empty.dynamic_preflight(false, CANCELLED),
        Err(DocumentUpdateError::Rejected {
            live_version: None,
            reason: DocumentUpdateRejection::NoLiveDocument,
            ..
        })
    ));
    let owner = loaded_engine();
    assert!(matches!(
        owner.dynamic_preflight(false, CANCELLED),
        Err(DocumentUpdateError::Rejected {
            live_version: Some(_),
            reason: DocumentUpdateRejection::RendererUnavailable,
            ..
        })
    ));
    assert!(matches!(
        owner.dynamic_preflight(true, CANCELLED),
        Err(DocumentUpdateError::Rejected {
            reason: DocumentUpdateRejection::Pipeline(PipelineError::Cancelled {
                stage: PipelineStage::Snapshot
            }),
            ..
        })
    ));
    assert!(owner.require_headless_update(true, true).is_ok());
    let presentation = engine(PipelineRenderer::PresentationOnly);
    assert!(presentation.require_headless_update(true, false).is_err());
}

#[test]
fn a_loopback_document_delegates_no_stylesheets() {
    let owner = loaded_engine();
    let mut ledger = StyleDocumentLifecycle::new();
    let target = parsed("http://127.0.0.1/");
    assert!(matches!(
        owner.delegate_non_product_style_fetch_authority(
            Some(&target),
            true,
            Ok(1),
            &mut ledger
        ),
        Err(StyleFetchOwnerError::AuthorityUnavailable)
    ));
    assert_eq!(owner.shutdown(), None);
}

#[test]
fn rendered_conversion_rejects_a_real_pending_text_frame() {
    let document_version = version(1);
    let pending_text_runs = 3;
    let frame = RgbaFrame {
        width: 96,
        height: 64,
        pixels: vec![0; 96 * 64 * 4],
        document_version,
        pending_text_runs,
    };
    let pipeline_result = RenderedStaticPage {
        evidence: PipelineEvidence {
            document_version,
            http_status: 200,
            navigation_commit: NavigationCommitMetadata::new(
                "http://127.0.0.1/",
                0,
                NavigationConnectionSecurity::Cleartext,
                false,
            )
            .unwrap(),
            source_bytes: "<html><body>pending text</body></html>".len(),
            dom_nodes: 4,
            html_diagnostics: 0,
            stylo_style_entries: 0,
            style_diagnostics: 0,
            dropped_style_diagnostics: 0,
            layout_boxes: 1,
            layout_warnings: 0,
            scene_items: 1,
            pre_composition_display_list_bytes: 1,
        },
        text: TextEvidence {
            layout_measurement_requests: 1,
            shaped_runs: 0,
            glyphs: 0,
            clusters: 0,
        },
        frame,
    };
    assert_eq!(
        EngineFrame::from_headless(
            RgbaFrame {
                width: 1,
                height: 1,
                pixels: vec![0; 4],
                document_version,
                pending_text_runs,
            },
            document_version
        )
        .err()
        .unwrap(),
        EngineFrameError::PendingTextRuns {
            actual: pending_text_runs
        }
    );
    assert!(matches!(
        frame_from_headless_page(pipeline_result),
        Err(PipelineError::InvalidConfiguration {
            field: "engine_frame",
            ..
        })
    ));
}

fn navigation(context: u64) -> NavigationId {
    NavigationId::new(
        TopLevelContextId::new(context).unwrap(),
        NavigationGeneration::initial(),
    )
}

fn executor(max_nodes: usize) -> StaticPipelineExecutor {
    let limits = EngineLimits::new(2, 8, 2, 4 * 800 * 600, 8 * 800 * 600)
        .unwrap()
        .with_max_retained_document_nodes(max_nodes)
        .unwrap();
    match StaticPipelineExecutor::new(
        StaticPageConfig::default(),
        limits,
        PipelineRenderer::Headless,
        NavigationNetworkCapability::NumericLoopback,
    ) {
        Ok(executor) => executor,
        Err(failure) => panic!("{failure:?}"),
    }
}

/// Loads a page of eleven nodes into the engine of an executor.
fn load_page(executor: &mut StaticPipelineExecutor, document_version: DocumentVersion) -> LoadedNavigation {
    let mut owner = executor.lend_engine().unwrap();
    let snapshot = rendered(&mut owner, document_version);
    let page = match owner.finish_load(
        fetched("http://127.0.0.1/"),
        5,
        document_version,
        0,
        snapshot,
        40,
    ) {
        Ok((page, _, _)) => page,
        Err(error) => panic!("{error:?}"),
    };
    executor.return_engine(owner);
    frame_from_headless_page(page.into_headless().unwrap()).unwrap()
}

fn navigate(executor: &mut StaticPipelineExecutor, target: NavigationId, revision: u64) -> bool {
    let load = match executor.begin_execute(target, NavigationNetworkCapability::NumericLoopback) {
        Ok(load) => load,
        Err(failure) => panic!("{failure:?}"),
    };
    let page = load_page(executor, version(revision));
    let mut ledger = StyleDocumentLifecycle::new();
    executor
        .finish_execute(load, Ok(page), true, &mut ledger)
        .is_ok()
}

#[test]
fn a_navigation_waits_for_publication() {
    let mut owner = executor(64);
    let first = navigation(1);
    assert!(navigate(&mut owner, first, 1));
    assert!(matches!(
        owner.begin_execute(first, NavigationNetworkCapability::NumericLoopback),
        Err(failure) if failure.kind() == ExecutionFailureKind::Internal
    ));
    owner.acknowledge_navigation_publication(first, false);
    assert!(matches!(
        owner.activate_document(first),
        Err(DocumentOperationFailure::NoLiveDocument)
    ));
    assert!(navigate(&mut owner, first, 1));
    owner.acknowledge_navigation_publication(first, true);
    assert!(owner.activate_document(first).is_ok());
}

#[test]
fn a_failed_navigation_keeps_the_old_document() {
    let mut owner = executor(64);
    let first = navigation(1);
    assert!(matches!(
        owner.begin_execute(first, NavigationNetworkCapability::GeneralWeb),
        Err(failure) if failure.kind() == ExecutionFailureKind::Rejected
    ));
    assert!(navigate(&mut owner, first, 1));
    owner.acknowledge_navigation_publication(first, true);

    let load = match owner.begin_execute(first, NavigationNetworkCapability::NumericLoopback) {
        Ok(load) => load,
        Err(failure) => panic!("{failure:?}"),
    };
    let mut ledger = StyleDocumentLifecycle::new();
    let failure = owner
        .finish_execute(
            load,
            Err(PipelineError::Network("reset".to_owned())),
            false,
            &mut ledger,
        )
        .err()
        .unwrap();
    assert_eq!(failure.kind(), ExecutionFailureKind::Network);
    assert!(failure.renderer_unusable());
    assert!(owner.activate_document(first).is_ok());
}

#[test]
fn retained_documents_are_bounded() {
    let mut owner = executor(21);
    assert!(navigate(&mut owner, navigation(1), 1));
    owner.acknowledge_navigation_publication(navigation(1), true);
    assert!(!navigate(&mut owner, navigation(2), 1));
    owner.close_context(navigation(1).context());
    assert!(navigate(&mut owner, navigation(2), 1));
}

fn apply(
    owner: &mut StaticPipelineExecutor,
    target: NavigationId,
    revision: u64,
    created: usize,
) -> ExecutorDocumentMutation {
    let activated = match owner.activate_document(target) {
        Ok(activated) => activated,
        Err(failure) => panic!("{failure:?}"),
    };
    let mut page = owner.lend_engine().unwrap();
    let mut ledger = StyleDocumentLifecycle::new();
    let versions = page.dynamic_preflight(true, GO).unwrap();
    let committed = page
        .commit_batch(versions, &mut ledger, Ok(commit(revision, created)))
        .unwrap();
    let snapshot = rendered(&mut page, version(revision));
    let update: Result<RenderedNavigationUpdate, DocumentUpdateError> =
        page.finish_apply(versions, committed, Ok(snapshot));
    owner.return_engine(page);
    owner.finish_mutation(activated, update, true)
}

#[test]
fn a_mutation_is_charged_for_its_new_nodes() {
    let mut owner = executor(13);
    let target = navigation(1);
    assert!(navigate(&mut owner, target, 1));
    owner.acknowledge_navigation_publication(target, true);
    let outcome = apply(&mut owner, target, 2, 2);
    assert!(matches!(
        outcome,
        ExecutorDocumentMutation::Rendered {
            previous_live_version,
            previous_frame_version,
            ..
        } if previous_live_version == version(1) && previous_frame_version == version(1)
    ));
    let over = apply(&mut owner, target, 3, 1);
    assert!(matches!(over, ExecutorDocumentMutation::Invalidated));
    assert!(matches!(
        owner.activate_document(target),
        Err(DocumentOperationFailure::NoLiveDocument)
    ));
}

#[test]
fn a_rejected_mutation_keeps_its_document() {
    let mut owner = executor(64);
    let target = navigation(1);
    assert!(navigate(&mut owner, target, 1));
    owner.acknowledge_navigation_publication(target, true);
    let activated = match owner.activate_document(target) {
        Ok(activated) => activated,
        Err(failure) => panic!("{failure:?}"),
    };
    let outcome = owner.finish_mutation(
        activated,
        Err(DocumentUpdateError::Rejected {
            live_version: Some(version(1)),
            last_returned_frame_version: Some(version(1)),
            reason: DocumentUpdateRejection::Mutation("stale".to_owned()),
        }),
        true,
    );
    assert!(matches!(
        outcome,
        ExecutorDocumentMutation::Rejected {
            failure: DocumentOperationFailure::MutationRejected,
            ..
        }
    ));
    let activated = match owner.activate_document(target) {
        Ok(activated) => activated,
        Err(failure) => panic!("{failure:?}"),
    };
    let committed = owner.finish_mutation(
        activated,
        Err(DocumentUpdateError::Committed {
            previous_live_version: version(1),
            last_returned_frame_version: version(1),
            commit: commit(2, 0),
            source: PipelineError::Headless("lost".to_owned()),
        }),
        false,
    );
    assert!(matches!(
        committed,
        ExecutorDocumentMutation::CommittedWithoutFrame {
            failure: DocumentOperationFailure::RendererUnavailable,
            ..
        }
    ));
}

#[test]
fn a_rerender_publishes_the_same_revision() {
    let mut owner = executor(64);
    let target = navigation(1);
    assert!(navigate(&mut owner, target, 1));
    owner.acknowledge_navigation_publication(target, true);
    let activated = match owner.activate_document(target) {
        Ok(activated) => activated,
        Err(failure) => panic!("{failure:?}"),
    };
    let mut page = owner.lend_engine().unwrap();
    let versions = page.begin_rerender(version(1), true, GO).unwrap();
    let snapshot = rendered(&mut page, version(1));
    let outcome: Result<RenderedNavigationRerender, DocumentUpdateError> =
        page.finish_rerender(versions, Ok(snapshot));
    owner.return_engine(page);
    assert!(matches!(
        owner.finish_rerender(activated, outcome, true),
        ExecutorDocumentRerender::Rendered { live_version, .. } if live_version == version(1)
    ));

    let activated = match owner.activate_document(target) {
        Ok(activated) => activated,
        Err(failure) => panic!("{failure:?}"),
    };
    let impossible = Err(DocumentUpdateError::Committed {
        previous_live_version: version(1),
        last_returned_frame_version: version(1),
        commit: commit(2, 0),
        source: PipelineError::EvidenceOverflow,
    });
    assert!(matches!(
        owner.finish_rerender(activated, impossible, true),
        ExecutorDocumentRerender::Invalidated
    ));
    assert!(matches!(
        owner.activate_document(target),
        Err(DocumentOperationFailure::NoLiveDocument)
    ));
    assert!(owner.shutdown().is_some());
    assert!(owner.shutdown().is_none());
}

#[test]
fn a_bound_commitment_belongs_to_another_document() {
    let mut owner = engine(PipelineRenderer::Headless);
    let snapshot = rendered(&mut owner, version(1));
    let url = "http://example.test/";
    let response = NavigationCommitMetadata::from_general_web_response(
        url,
        0,
        false,
        Some(&parsed(url)),
        true,
        authority(ConnectionSecurity::Cleartext),
    )
    .unwrap();
    let (bound, issued) = response.bind_document(version(1), 39, None).unwrap();
    assert_eq!(issued, Some(39));
    let mut document = fetched("http://127.0.0.1/");
    document.navigation_commit = bound;
    assert!(matches!(
        owner.finish_load(document, 5, version(1), 0, snapshot, 40),
        Err(PipelineError::DocumentPolicy(
            DocumentPolicyError::BindingMismatch
        ))
    ));
    assert!(owner.live_document().is_none());
}

#[test]
fn a_published_frame_has_the_size_that_was_rendered() {
    let wide = |pending_text_runs| {
        PipelineFrame::Headless(RgbaFrame {
            width: 3,
            height: 2,
            pixels: vec![7; 24],
            document_version: version(1),
            pending_text_runs,
        })
    };
    let published = publishable_frame(wide(0), version(1)).unwrap();
    let metadata = published.metadata().rgba8().unwrap();
    assert_eq!((metadata.size().width(), metadata.size().height()), (3, 2));
    assert_eq!((metadata.stride(), metadata.byte_len()), (12, 24));
    assert_eq!(published.document_version(), Some(version(1)));
    assert_eq!(published.rgba8_pixels(), Some(&[7; 24][..]));
    assert_eq!(
        publishable_frame(wide(1), version(1)).err(),
        Some(EngineFrameError::PendingTextRuns { actual: 1 })
    );
    assert_eq!(
        publishable_frame(wide(0), version(2)).err(),
        Some(EngineFrameError::DocumentVersionMismatch {
            expected: version(2),
            actual: version(1),
        })
    );

    let mut owner = engine(PipelineRenderer::PresentationOnly);
    let snapshot = compiled(version(1), 0)
        .compose(&mut owner, GO)
        .unwrap()
        .finish_presentation(&scene_sizes(), 77)
        .unwrap();
    let PipelineFrame::Presentation(mut scene) = snapshot.frame else {
        panic!("a presentation engine renders scenes");
    };
    scene.metadata.retained_charge_bytes = MAX_FRAME_BYTES + 1;
    assert_eq!(
        publishable_frame(PipelineFrame::Presentation(scene), version(1)).err(),
        Some(EngineFrameError::FrameTooLarge {
            actual: MAX_FRAME_BYTES + 1,
            maximum: MAX_FRAME_BYTES,
        })
    );
}
