//! What the executor keeps of each document, and what an engine refuses.

use vstd::prelude::*;

use crate::commit::CommitModel;
use crate::document_fetch::PageTransportKind;
use crate::dynamic::{DocumentUpdateRejection, DynamicRenderEvidence};
use crate::failure::PipelineStage;
use crate::frame::{EngineFrame, EngineFrameError, FrameOutputMetadata};
use crate::identity::{DocumentVersion, NavigationId, TopLevelContextId};
use crate::page_engine::{
    PageEngineModel, PipelineEvidence, PipelineFrame, PipelineRenderer, StaticPageConfig,
    StaticPageEngine,
};
use crate::pipeline_error::PipelineError;
use crate::pipeline_executor::{ExecutorModel, RetainedExecutorDocument};
use crate::style_document::StyleDocumentLifecycle;
use crate::style_transport::Checkpoint;

verus! {

/// Whether something that the executor holds owns a ledger.
pub open spec fn owns(state: ExecutorModel, ledger: u64) -> bool {
    ||| exists|key: u64| #[trigger]
        state.documents.contains_key(key) && state.documents[key].document.style_owner == Some(
            ledger,
        )
    ||| state.pending matches Some(pending) && (pending.replacement.document.style_owner == Some(
        ledger,
    ) || (pending.previous matches Some(previous) && previous.document.style_owner == Some(
        ledger,
    )))
    ||| state.engine matches Some(engine) && (engine.live matches Some(live) && live.style_owner
        == Some(ledger))
}

/// No ledger gets lost: what was owned is still owned or is to be retired, what
/// was to be retired still is, and nothing else is.
pub open spec fn loses_no_ledger(state: ExecutorModel, next: ExecutorModel) -> bool {
    forall|ledger: u64|
        #![trigger next.retired.contains(ledger)]
        {
            &&& state.retired.contains(ledger) ==> next.retired.contains(ledger)
            &&& owns(state, ledger) ==> owns(next, ledger) || next.retired.contains(ledger)
            &&& next.retired.contains(ledger) ==> state.retired.contains(ledger) || owns(
                state,
                ledger,
            )
        }
}

/// Throwing away the document of a context loses no ledger, leaves nothing of the
/// context, and nothing of another context changes.
pub proof fn invalidation_loses_no_ledger(state: ExecutorModel, context: TopLevelContextId)
    requires
        state.document(context) matches Some(document) ==> document.node_charge
            <= state.retained_nodes,
    ensures
        ({
            let next = state.invalidated(context);
            &&& loses_no_ledger(state, next)
            &&& next.document(context) is None
            &&& state.document(context) matches Some(document) ==> next.retained_nodes
                == state.retained_nodes - document.node_charge
            &&& state.document(context) is None ==> next.retained_nodes == state.retained_nodes
            &&& forall|key: u64|
                key != context.value() ==> #[trigger] next.documents.contains_key(key)
                    == state.documents.contains_key(key) && (next.documents.contains_key(key)
                    ==> next.documents[key] == state.documents[key])
            &&& next.pending matches Some(pending) ==> pending.navigation.context_of() != context
                && state.pending == Some(pending)
            &&& next.pending is None ==> (state.pending matches Some(pending)
                ==> pending.navigation.context_of() == context)
            &&& next.engine == state.engine
        }),
{
    let next = state.invalidated(context);
    assert forall|ledger: u64|
        #![trigger next.retired.contains(ledger)]
        {
            &&& state.retired.contains(ledger) ==> next.retired.contains(ledger)
            &&& owns(state, ledger) ==> owns(next, ledger) || next.retired.contains(ledger)
            &&& next.retired.contains(ledger) ==> state.retired.contains(ledger) || owns(
                state,
                ledger,
            )
        } by {
        if exists|key: u64| #[trigger]
            state.documents.contains_key(key) && state.documents[key].document.style_owner == Some(
                ledger,
            ) {
            let key = choose|key: u64| #[trigger]
                state.documents.contains_key(key) && state.documents[key].document.style_owner
                    == Some(ledger);
            if key != context.value() {
                assert(next.documents.contains_key(key));
            }
        }
    }
}

/// Settling a navigation loses no ledger: a published one keeps its new document
/// and retires the old one, any other keeps the old document and retires the new
/// one.
pub proof fn settling_loses_no_ledger(
    state: ExecutorModel,
    navigation: NavigationId,
    published: bool,
)
    ensures
        ({
            let next = state.acknowledged(navigation, published);
            &&& loses_no_ledger(state, next)
            &&& next.pending is None
            &&& state.pending is None ==> next == state
            &&& state.pending matches Some(pending) ==> {
                let context = pending.navigation.context_of();
                &&& pending.navigation == navigation && published ==> next.document(context)
                    == Some(pending.replacement) && next.retained_nodes
                    == pending.retained_nodes_after
                &&& !(pending.navigation == navigation && published) ==> {
                    &&& next.retained_nodes == state.retained_nodes
                    &&& pending.previous is Some ==> next.document(context) == pending.previous
                    &&& pending.previous is None ==> next.document(context) == state.document(
                        context,
                    )
                    &&& pending.replacement.document.style_owner matches Some(ledger)
                        ==> next.retired.contains(ledger)
                }
                &&& forall|key: u64|
                    key != context.value() ==> #[trigger] next.documents.contains_key(key)
                        == state.documents.contains_key(key) && (next.documents.contains_key(key)
                        ==> next.documents[key] == state.documents[key])
            }
        }),
{
    let next = state.acknowledged(navigation, published);
    if let Some(pending) = state.pending {
        let context = pending.navigation.context_of();
        assert forall|ledger: u64|
            #![trigger next.retired.contains(ledger)]
            {
                &&& state.retired.contains(ledger) ==> next.retired.contains(ledger)
                &&& owns(state, ledger) ==> owns(next, ledger) || next.retired.contains(ledger)
                &&& next.retired.contains(ledger) ==> state.retired.contains(ledger) || owns(
                    state,
                    ledger,
                )
            } by {
            if exists|key: u64| #[trigger]
                state.documents.contains_key(key) && state.documents[key].document.style_owner
                    == Some(ledger) {
                let key = choose|key: u64| #[trigger]
                    state.documents.contains_key(key) && state.documents[key].document.style_owner
                        == Some(ledger);
                assert(next.documents.contains_key(key));
            }
            assert(next.document(context) is Some ==> next.documents.contains_key(
                context.value(),
            ));
            if state.documents.contains_key(context.value()) {
            }
        }
    }
}

/// A shutdown loses no ledger of a retained document: all of them are to be
/// retired, and nothing is retained any more.
pub proof fn shutdown_retires_everything(state: ExecutorModel, ledger: u64)
    requires
        state.engine matches Some(engine) ==> engine.live is None,
    ensures
        loses_no_ledger(state, state.shut_down()),
        owns(state, ledger) ==> state.shut_down().retired.contains(ledger),
        !owns(state.shut_down(), ledger),
        state.shut_down().retained_nodes == 0,
        state.shut_down().documents.dom() == Set::<u64>::empty(),
        state.shut_down().engine is None,
{
    let next = state.shut_down();
    assert forall|other: u64|
        #![trigger next.retired.contains(other)]
        {
            &&& state.retired.contains(other) ==> next.retired.contains(other)
            &&& owns(state, other) ==> owns(next, other) || next.retired.contains(other)
            &&& next.retired.contains(other) ==> state.retired.contains(other) || owns(state, other)
        } by {
        assert(crate::pipeline_executor::all_ledgers(state.documents).contains(other) <==> exists|
            key: u64,
        | #[trigger]
            state.documents.contains_key(key) && state.documents[key].document.style_owner == Some(
                other,
            ));
    }
    assert(next.retired.contains(ledger) || !owns(state, ledger));
}

/// Detaching the live document of an engine retires its ledger, and no other.
pub proof fn detaching_retires_its_ledger(state: ExecutorModel, ledger: u64)
    ensures
        loses_no_ledger(state, state.without_live()),
        state.engine matches Some(engine) ==> (state.without_live().engine matches Some(next)
            && next.live is None && next.config == engine.config && next.transport
            == engine.transport && next.next_epoch == engine.next_epoch),
        state.without_live().documents == state.documents,
        state.without_live().retained_nodes == state.retained_nodes,
{
}

/// A replaced document is charged in place of the old one, up to the bound.
pub proof fn replacements_are_charged(
    state: ExecutorModel,
    previous: RetainedExecutorDocument,
    charge: usize,
)
    ensures
        state.nodes_after(None, charge) matches Some(after) ==> after == state.retained_nodes
            + charge,
        state.nodes_after(None, charge) is Some <==> state.retained_nodes + charge
            <= state.max_nodes,
        state.nodes_after(Some(previous), charge) matches Some(after) ==> after
            + previous.node_charge == state.retained_nodes + charge,
        state.nodes_after(Some(previous), charge) is Some <==> previous.node_charge
            <= state.retained_nodes && state.retained_nodes + charge - previous.node_charge
            <= state.max_nodes,
{
}

/// A mutated document is kept with its created nodes on top, within the bound.
pub proof fn mutated_documents_are_kept(
    state: ExecutorModel,
    context: TopLevelContextId,
    document: crate::page_engine::DetachedLiveDocument,
    charge: usize,
    created: nat,
)
    requires
        state.can_retain(context, charge, created),
    ensures
        ({
            let next = state.retaining(context, document, charge, created);
            &&& next.document(context) matches Some(kept)
            &&& kept.document == document
            &&& kept.node_charge == charge + created
            &&& next.retained_nodes == state.retained_nodes + created
            &&& next.retained_nodes <= state.max_nodes
            &&& next.retired == state.retired
        }),
        !state.documents.contains_key(context.value()),
{
}

/// A commitment without authority needs no binding, one without a document has
/// none to bind, and one of a document binds exactly that document's version to a
/// navigation that its ledger takes.
pub proof fn commitments_bind_their_document(
    commitment: CommitModel,
    navigation: NavigationId,
    version: DocumentVersion,
    ledger: StyleDocumentLifecycle,
)
    ensures
        commitment.authority is Synthetic ==> crate::pipeline_executor::binds(
            commitment,
            navigation,
            version,
            ledger,
        ) && crate::pipeline_executor::bound_ledger(commitment, navigation, ledger) == ledger,
        commitment.authority is FinalResponse ==> !crate::pipeline_executor::binds(
            commitment,
            navigation,
            version,
            ledger,
        ),
        commitment.document() matches Some(bound) ==> {
            let next = crate::pipeline_executor::bound_ledger(commitment, navigation, ledger);
            &&& crate::pipeline_executor::binds(commitment, navigation, version, ledger) <==> bound
                == version && ledger.binding_error(navigation) is None
            &&& next.navigation == Some(navigation)
            &&& next.status == ledger.status
        },
{
}

/// An engine is configured exactly with some time for each operation and a
/// viewport of signed size.
pub proof fn configurations_are_bounded(config: StaticPageConfig)
    ensures
        config.error() is None <==> config.operation_timeout_nanoseconds > 0
            && config.viewport_width <= 2147483647 && config.viewport_height <= 2147483647,
        config.operation_timeout_nanoseconds == 0 ==> (config.error() matches Some(
            PipelineError::InvalidConfiguration { field, .. },
        ) && field == "operation_timeout"),
        config.operation_timeout_nanoseconds > 0 && (config.viewport_width > 2147483647
            || config.viewport_height > 2147483647) ==> (config.error() matches Some(
            PipelineError::InvalidConfiguration { field, .. },
        ) && field == "viewport"),
{
}

/// A viewport is too large exactly where four bytes for each of its pixels exceed
/// the bound.
pub proof fn viewports_have_four_bytes(config: StaticPageConfig, maximum: usize)
    ensures
        crate::pipeline_executor::viewport_too_large(config, maximum) <==> 4 * (
        config.viewport_width * config.viewport_height) > maximum,
{
    assert(config.viewport_width * config.viewport_height * 4 == 4 * (config.viewport_width
        * config.viewport_height)) by (nonlinear_arith);
}

/// A compiled scene is refused exactly beyond the byte bound of a frame.
pub proof fn scenes_are_bounded(
    scene: crate::scene::PresentationScene,
    version: DocumentVersion,
)
    ensures
        crate::pipeline_executor::frame_error(PipelineFrame::Presentation(scene), version) is None
            <==> scene.metadata.retained_charge_bytes <= 268435456,
        crate::pipeline_executor::frame_error(
            PipelineFrame::Presentation(scene),
            version,
        ) matches Some(error) ==> error == (EngineFrameError::FrameTooLarge {
            actual: scene.metadata.retained_charge_bytes,
            maximum: 268435456,
        }),
{
    assert(256 * 1024 * 1024 == 268435456);
}

/// A fresh engine has no document and starts its counters where they start.
pub proof fn engines_start_fresh(
    config: StaticPageConfig,
    renderer: PipelineRenderer,
    transport: PageTransportKind,
    control: Checkpoint,
)
    ensures
        ({
            let engine = crate::page_engine::fresh_engine(config, renderer, transport);
            &&& engine.versions() is None
            &&& engine.style_page() is None
            &&& engine.owned_ledger() is None
            &&& engine.revision_refusal() is None
            &&& engine.next_presentation_revision == 1
            &&& engine.next_epoch == 1
            &&& engine.config == config
            &&& engine.renderer == renderer
            &&& engine.transport == transport
            &&& engine.update_refusal(true, control) == Some(
                DocumentUpdateRejection::NoLiveDocument,
            )
            &&& !control.cancelled && !control.expired ==> engine.load_refusal(None, control)
                is None
        }),
{
}

/// A load begins exactly with a usable renderer, a revision left for a scene, and
/// time left; what the renderer says comes first.
pub proof fn loads_begin(engine: PageEngineModel, said: String, control: Checkpoint)
    ensures
        engine.load_refusal(None, control) is None <==> {
            &&& engine.renderer is PresentationOnly ==> 0 < engine.next_presentation_revision
                < u64::MAX
            &&& !control.cancelled && !control.expired
        },
        engine.renderer is Headless ==> engine.load_refusal(Some(said), control) == Some(
            PipelineError::Headless(said),
        ),
        engine.renderer is PresentationOnly ==> engine.load_refusal(Some(said), control)
            == engine.load_refusal(None, control),
        engine.revision_refusal() is Some ==> engine.load_refusal(None, control) == Some(
            PipelineError::PresentationRevisionExhausted,
        ),
        engine.revision_refusal() is None && control.cancelled ==> engine.load_refusal(
            None,
            control,
        ) == Some(PipelineError::Cancelled { stage: PipelineStage::Fetch }),
        engine.revision_refusal() is None && !control.cancelled && control.expired
            ==> engine.load_refusal(None, control) == Some(
            PipelineError::DeadlineExceeded { stage: PipelineStage::Fetch },
        ),
{
}

/// An update begins exactly on a live document with a usable renderer, a revision
/// left, and time left; a rerender also asks for exactly the live revision.
pub proof fn updates_begin(
    engine: PageEngineModel,
    usable: bool,
    control: Checkpoint,
    expected: DocumentVersion,
)
    ensures
        engine.update_refusal(usable, control) is None <==> {
            &&& engine.live is Some
            &&& engine.renderer is Headless ==> usable
            &&& engine.renderer is PresentationOnly ==> 0 < engine.next_presentation_revision
                < u64::MAX
            &&& !control.cancelled && !control.expired
        },
        engine.live is None ==> engine.update_refusal(usable, control) == Some(
            DocumentUpdateRejection::NoLiveDocument,
        ),
        engine.live is Some && engine.renderer is Headless && !usable ==> engine.update_refusal(
            usable,
            control,
        ) == Some(DocumentUpdateRejection::RendererUnavailable),
        engine.update_refusal(usable, control) is Some ==> engine.rerender_refusal(
            expected,
            usable,
            control,
        ) == engine.update_refusal(usable, control),
        engine.update_refusal(usable, control) is None ==> {
            let live = engine.live->0.page.live_of();
            &&& engine.rerender_refusal(expected, usable, control) is None <==> expected == live
            &&& expected != live ==> engine.rerender_refusal(expected, usable, control) == Some(
                DocumentUpdateRejection::LiveVersionMismatch { expected, actual: live },
            )
        },
{
}

/// Stylesheets are fetched exactly for the unchanged document of a general-web
/// response, and a frame that was returned makes the live revision the shown one.
pub proof fn stylesheets_belong_to_unchanged_documents(
    engine: PageEngineModel,
    next: PageEngineModel,
)
    ensures
        engine.style_page() matches Some(page) ==> {
            &&& engine.transport is GeneralWeb
            &&& engine.live matches Some(live) && live.page == page
            &&& page.live_of() == page.response_of().version_of()
        },
        engine.transport is GeneralWeb && (engine.live matches Some(live) && live.page.live_of()
            == live.page.response_of().version_of()) ==> engine.style_page() is Some,
        engine.shows_live(next) && engine.live is Some ==> {
            &&& engine.versions() matches Some((live, _))
            &&& next.versions() == Some((live, live))
            &&& next.config == engine.config && next.renderer == engine.renderer && next.transport
                == engine.transport
            &&& next.owned_ledger() == engine.owned_ledger()
        },
        engine.with_live(None).versions() is None,
        engine.with_live(engine.live) == engine,
{
}

/// A stage that failed is told before what was observed behind it.
pub proof fn stages_fail_first(
    error: PipelineError,
    control: Checkpoint,
    stage: PipelineStage,
)
    ensures
        crate::snapshot_render::stage_failure(Some(error), control, stage) == Some(error),
        crate::snapshot_render::stage_failure(None, control, stage) is None <==> !control.cancelled
            && !control.expired,
        control.cancelled ==> crate::snapshot_render::stage_failure(None, control, stage) == Some(
            PipelineError::Cancelled { stage },
        ),
        !control.cancelled && control.expired ==> crate::snapshot_render::stage_failure(
            None,
            control,
            stage,
        ) == Some(PipelineError::DeadlineExceeded { stage }),
{
}

/// Evidence counts what each stage counted.
pub proof fn evidence_counts_its_stage(snapshot: crate::snapshot_render::CompiledSnapshot)
    ensures
        snapshot.evidence().document_version == snapshot.laid_out.layout.document_version,
        snapshot.evidence().dom_nodes == snapshot.laid_out.dom_nodes,
        snapshot.evidence().stylo_style_entries == snapshot.laid_out.style.entries,
        snapshot.evidence().style_diagnostics == snapshot.laid_out.style.diagnostics,
        snapshot.evidence().dropped_style_diagnostics
            == snapshot.laid_out.style.dropped_diagnostics,
        snapshot.evidence().layout_boxes == snapshot.laid_out.layout.boxes,
        snapshot.evidence().layout_warnings == snapshot.laid_out.layout.warnings,
        snapshot.evidence().scene_items == snapshot.scene.items,
        snapshot.evidence().pre_composition_display_list_bytes == snapshot.scene.display_list_bytes,
        snapshot.text().layout_measurement_requests
            == snapshot.laid_out.layout_measurement_requests,
        snapshot.text().shaped_runs == snapshot.scene.pending_runs,
        snapshot.text().glyphs == snapshot.glyphs,
        snapshot.text().clusters == snapshot.clusters,
        snapshot.is_shaped() <==> snapshot.shaped_runs == snapshot.scene.pending_runs,
{
}

/// A published frame has the size, the bytes and the revision that were
/// rendered, four bytes to a pixel, and is pixels or a scene but never both.
pub proof fn frames_show_what_was_rendered(
    published: EngineFrame,
    frame: PipelineFrame,
    version: DocumentVersion,
)
    requires
        crate::pipeline_executor::frame_shows(published, frame, version),
    ensures
        published.pixels_of() is Some <==> published.scene_of() is None,
        published.pixels_of() is Some <==> published.metadata_of().output is Rgba8,
        match frame {
            PipelineFrame::Headless(rendered) => {
                &&& published.pixels_of() == Some(rendered.pixels@)
                &&& published.metadata_of().document_version == Some(version)
                &&& published.metadata_of().output matches FrameOutputMetadata::Rgba8(rgba8)
                &&& rgba8.size_of().width_of() == rendered.width
                &&& rgba8.size_of().height_of() == rendered.height
                &&& rgba8.stride_of() == 4 * rendered.width
                &&& rgba8.byte_len_of() == rendered.pixels@.len()
            },
            PipelineFrame::Presentation(scene) => {
                &&& published.scene_of() == Some(scene)
                &&& published.metadata_of().document_version == Some(
                    scene.metadata.document_version,
                )
                &&& published.metadata_of().output == FrameOutputMetadata::Presentation(
                    scene.metadata,
                )
            },
        },
{
}

/// Evidence tells each count of the fetch and of the rendering in its own place.
pub proof fn evidence_tells_each_count(
    evidence: PipelineEvidence,
    status: u16,
    bytes: nat,
    diagnostics: usize,
    rendered: DynamicRenderEvidence,
)
    requires
        evidence.is_of(status, bytes, diagnostics, rendered),
    ensures
        evidence.http_status == status,
        evidence.source_bytes == bytes,
        evidence.html_diagnostics == diagnostics,
        evidence.document_version == rendered.document_version,
        evidence.dom_nodes == rendered.dom_nodes,
        evidence.stylo_style_entries == rendered.stylo_style_entries,
        evidence.style_diagnostics == rendered.style_diagnostics,
        evidence.dropped_style_diagnostics == rendered.dropped_style_diagnostics,
        evidence.layout_boxes == rendered.layout_boxes,
        evidence.layout_warnings == rendered.layout_warnings,
        evidence.scene_items == rendered.scene_items,
        evidence.pre_composition_display_list_bytes
            == rendered.pre_composition_display_list_bytes,
{
}

/// An engine comes out of exactly the configurations that are in bounds, with no
/// document in it.
pub proof fn engines_need_a_bounded_configuration(
    config: StaticPageConfig,
    renderer: PipelineRenderer,
    transport: PageTransportKind,
    result: Result<StaticPageEngine, PipelineError>,
)
    requires
        crate::page_engine::is_creation(config, renderer, transport, result),
    ensures
        result is Ok <==> config.error() is None,
        result matches Err(error) ==> config.error() == Some(error),
        result matches Ok(engine) ==> engine@.live is None && engine@.config == config
            && engine@.renderer == renderer && engine@.transport == transport,
{
}

/// A load that would begin but was ended says so of fetching, and an update of the
/// snapshot; a cancellation comes before the deadline, and what refuses without
/// either refuses with them.
pub proof fn ended_operations_tell_their_stage(
    engine: PageEngineModel,
    unusable: Option<String>,
    usable: bool,
    control: Checkpoint,
)
    ensures
        ({
            let quiet = Checkpoint { cancelled: false, expired: false, ..control };
            let load = engine.load_refusal(unusable, control);
            let update = engine.update_refusal(usable, control);
            &&& match engine.load_refusal(unusable, quiet) {
                Some(error) => load == Some(error),
                None => {
                    &&& control.cancelled ==> load == Some(
                        PipelineError::Cancelled { stage: PipelineStage::Fetch },
                    )
                    &&& !control.cancelled && control.expired ==> load == Some(
                        PipelineError::DeadlineExceeded { stage: PipelineStage::Fetch },
                    )
                },
            }
            &&& match engine.update_refusal(usable, quiet) {
                Some(reason) => update == Some(reason),
                None => {
                    &&& control.cancelled ==> update == Some(
                        DocumentUpdateRejection::Pipeline(
                            PipelineError::Cancelled { stage: PipelineStage::Snapshot },
                        ),
                    )
                    &&& !control.cancelled && control.expired ==> update == Some(
                        DocumentUpdateRejection::Pipeline(
                            PipelineError::DeadlineExceeded { stage: PipelineStage::Snapshot },
                        ),
                    )
                },
            }
        }),
{
}

} // verus!
