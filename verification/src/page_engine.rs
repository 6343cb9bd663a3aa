//! State of one static-page engine: its output mode and transport, its
//! renderer identities, and the one live document that it retains.

use vstd::prelude::*;

use crate::document_fetch::{FetchedDocument, PageTransportKind};
use crate::document_policy::DocumentPolicyError;
use crate::dynamic::{
    rejected_update_for_versions, validate_dynamic_owner, DocumentUpdateError,
    DocumentUpdateRejection, DynamicRenderEvidence, LiveDocumentPage, RenderedDocumentUpdate,
    RenderedLiveDocument, TextEvidence,
};
use crate::commit::NavigationCommitMetadata;
use crate::executor::DocumentMutationCommit;
use crate::failure::PipelineStage;
use crate::frame::RgbaFrame;
use crate::identity::{DocumentVersion, NavigationId};
use crate::pipeline_error::{checkpoint, PipelineError};
use crate::scene::{PresentationScene, PresentationSceneRevision};
use crate::style_document::{StyleDocumentLifecycle, StyleDocumentTransaction};
use crate::style_fetch::StyleFetchOwnerError;
use crate::style_owner::{NonProductStyleFetchAuthority, StyleFetchAuthority, StyleFetchScope};
use crate::style_transport::Checkpoint;
use crate::text::decode_text;
use crate::web::ParsedNavigation;

verus! {

/// First renderer epoch of an engine.
pub const FIRST_EPOCH: u32 = 1;

/// Nanoseconds that an operation may take by default.
pub const DEFAULT_OPERATION_TIMEOUT_NANOSECONDS: u128 = 15_000_000_000;

/// Policy of one static-page engine that its decisions read.
#[derive(Clone, Copy, Debug, PartialEq, Eq, Structural)]
pub struct StaticPageConfig {
    /// Fixed CSS/device-pixel width at scale one.
    pub viewport_width: u32,
    /// Fixed CSS/device-pixel height at scale one.
    pub viewport_height: u32,
    /// Whole-operation deadline checked between bounded synchronous stages, in
    /// nanoseconds.
    pub operation_timeout_nanoseconds: u128,
}

impl Default for StaticPageConfig {
    fn default() -> (config: Self)
        ensures
            config == (StaticPageConfig {
                viewport_width: 800,
                viewport_height: 600,
                operation_timeout_nanoseconds: DEFAULT_OPERATION_TIMEOUT_NANOSECONDS,
            }),
    {
        StaticPageConfig {
            viewport_width: 800,
            viewport_height: 600,
            operation_timeout_nanoseconds: DEFAULT_OPERATION_TIMEOUT_NANOSECONDS,
        }
    }
}

impl StaticPageConfig {
    /// Why an engine cannot be configured like this, if it cannot.
    pub open spec fn error(self) -> Option<PipelineError> {
        if self.operation_timeout_nanoseconds == 0 {
            Some(
                PipelineError::InvalidConfiguration {
                    field: "operation_timeout",
                    detail: "must be non-zero",
                },
            )
        } else if self.viewport_width > i32::MAX || self.viewport_height > i32::MAX {
            Some(
                PipelineError::InvalidConfiguration {
                    field: "viewport",
                    detail: "dimensions must fit signed CSS-pixel geometry",
                },
            )
        } else {
            None
        }
    }
}

/// What an engine makes of a document.
#[derive(Clone, Copy, Debug, PartialEq, Eq, Structural)]
pub enum PipelineRenderer {
    /// Composed pixels from the headless renderer.
    Headless,
    /// Compiled scenes, and no pixels.
    PresentationOnly,
}

/// One rendered snapshot.
#[derive(Debug)]
pub enum PipelineFrame {
    /// Composed pixels.
    Headless(RgbaFrame),
    /// A compiled scene.
    Presentation(PresentationScene),
}

/// A live document outside its engine, with the ledger that it owns.
pub struct DetachedLiveDocument {
    /// Key of the document's ledger, while the engine owns it.
    pub style_owner: Option<u64>,
    /// The document.
    pub page: LiveDocumentPage,
}

/// Evidence for the exact immutable document state consumed and rendered.
pub struct PipelineEvidence {
    /// Exact document identity and local revision consumed by every downstream
    /// stage.
    pub document_version: DocumentVersion,
    /// Final HTTP status.
    pub http_status: u16,
    /// Exact final URL and transport commitment.
    pub navigation_commit: NavigationCommitMetadata,
    /// Decoded response-body bytes retained by the bounded transport.
    pub source_bytes: usize,
    /// Immutable nodes in the DOM snapshot.
    pub dom_nodes: usize,
    /// Recoverable HTML diagnostics retained by the parser.
    pub html_diagnostics: usize,
    /// Computed-style entries.
    pub stylo_style_entries: usize,
    /// Recoverable CSS diagnostics retained.
    pub style_diagnostics: usize,
    /// CSS diagnostics dropped at the configured bound.
    pub dropped_style_diagnostics: usize,
    /// Layout boxes published for the exact style revision.
    pub layout_boxes: usize,
    /// Recoverable layout warnings.
    pub layout_warnings: usize,
    /// Validated renderer-independent scene items.
    pub scene_items: usize,
    /// Serialized bytes in the pending-text display list before composition.
    pub pre_composition_display_list_bytes: usize,
}

impl PipelineEvidence {
    /// Whether this is the evidence of a fetched and rendered document.
    pub open spec fn is_of(
        self,
        http_status: u16,
        source_bytes: nat,
        html_diagnostics: usize,
        rendered: DynamicRenderEvidence,
    ) -> bool {
        &&& self.document_version == rendered.document_version
        &&& self.http_status == http_status
        &&& self.source_bytes == source_bytes
        &&& self.dom_nodes == rendered.dom_nodes
        &&& self.html_diagnostics == html_diagnostics
        &&& self.stylo_style_entries == rendered.stylo_style_entries
        &&& self.style_diagnostics == rendered.style_diagnostics
        &&& self.dropped_style_diagnostics == rendered.dropped_style_diagnostics
        &&& self.layout_boxes == rendered.layout_boxes
        &&& self.layout_warnings == rendered.layout_warnings
        &&& self.scene_items == rendered.scene_items
        &&& self.pre_composition_display_list_bytes == rendered.pre_composition_display_list_bytes
    }
}

/// What rendering one snapshot came to.
#[derive(Debug)]
pub struct RenderedSnapshot {
    /// Stage counts.
    pub evidence: DynamicRenderEvidence,
    /// Text measurement and shaping counts.
    pub text: TextEvidence,
    /// The frame.
    pub frame: PipelineFrame,
}

/// What loading a page came to.
pub struct RenderedPipelinePage {
    /// Stage counts.
    pub evidence: PipelineEvidence,
    /// Text measurement and shaping counts.
    pub text: TextEvidence,
    /// The frame.
    pub frame: PipelineFrame,
}

/// Owned outputs from one exact static-page load.
pub struct RenderedStaticPage {
    /// Stage counts.
    pub evidence: PipelineEvidence,
    /// Text measurement and shaping counts.
    pub text: TextEvidence,
    /// One composed frame containing every admitted primitive.
    pub frame: RgbaFrame,
}

/// Successful navigation output for the presentation-only engine mode.
pub struct RenderedPresentationPage {
    /// Stage counts.
    pub evidence: PipelineEvidence,
    /// Text measurement and shaping counts.
    pub text: TextEvidence,
    /// Exact one-shot page scene; it has no pixels.
    pub scene: PresentationScene,
}

impl RenderedPipelinePage {
    /// A page of the headless mode.
    pub fn into_headless(self) -> (result: Result<RenderedStaticPage, PipelineError>)
        ensures
            result == match self.frame {
                PipelineFrame::Headless(frame) => Ok::<_, PipelineError>(
                    RenderedStaticPage { evidence: self.evidence, text: self.text, frame },
                ),
                PipelineFrame::Presentation(_) => Err::<RenderedStaticPage, _>(
                    PipelineError::InvalidConfiguration {
                        field: "engine_output_mode",
                        detail: "presentation output crossed the headless API",
                    },
                ),
            },
    {
        match self.frame {
            PipelineFrame::Headless(frame) => Ok(
                RenderedStaticPage { evidence: self.evidence, text: self.text, frame },
            ),
            PipelineFrame::Presentation(_) => Err(
                PipelineError::InvalidConfiguration {
                    field: "engine_output_mode",
                    detail: "presentation output crossed the headless API",
                },
            ),
        }
    }

    /// A page of the presentation-only mode.
    pub fn into_presentation(self) -> (result: Result<RenderedPresentationPage, PipelineError>)
        ensures
            result == match self.frame {
                PipelineFrame::Presentation(scene) => Ok::<_, PipelineError>(
                    RenderedPresentationPage { evidence: self.evidence, text: self.text, scene },
                ),
                PipelineFrame::Headless(_) => Err::<RenderedPresentationPage, _>(
                    PipelineError::InvalidConfiguration {
                        field: "engine_output_mode",
                        detail: "headless output crossed the presentation API",
                    },
                ),
            },
    {
        match self.frame {
            PipelineFrame::Presentation(scene) => Ok(
                RenderedPresentationPage { evidence: self.evidence, text: self.text, scene },
            ),
            PipelineFrame::Headless(_) => Err(
                PipelineError::InvalidConfiguration {
                    field: "engine_output_mode",
                    detail: "headless output crossed the presentation API",
                },
            ),
        }
    }
}

/// What applying a batch came to.
#[derive(Debug)]
pub struct RenderedNavigationUpdate {
    /// Live DOM revision before the committed batch.
    pub previous_live_version: DocumentVersion,
    /// Revision of the frame returned before this update.
    pub previous_last_returned_frame_version: DocumentVersion,
    /// Stage counts.
    pub evidence: DynamicRenderEvidence,
    /// Text measurement and shaping counts.
    pub text: TextEvidence,
    /// The frame.
    pub frame: PipelineFrame,
    /// The committed batch.
    pub commit: DocumentMutationCommit,
}

impl RenderedNavigationUpdate {
    /// An update of the headless mode.
    pub fn into_headless(self) -> (result: Result<RenderedDocumentUpdate, DocumentUpdateError>)
        ensures
            result == match self.frame {
                PipelineFrame::Headless(frame) => Ok::<_, DocumentUpdateError>(
                    RenderedDocumentUpdate {
                        previous_live_version: self.previous_live_version,
                        previous_last_returned_frame_version:
                            self.previous_last_returned_frame_version,
                        evidence: self.evidence,
                        text: self.text,
                        frame,
                        commit: self.commit,
                    },
                ),
                PipelineFrame::Presentation(_) => Err::<RenderedDocumentUpdate, _>(
                    DocumentUpdateError::Committed {
                        previous_live_version: self.previous_live_version,
                        last_returned_frame_version: self.previous_last_returned_frame_version,
                        commit: self.commit,
                        source: PipelineError::InvalidConfiguration {
                            field: "engine_output_mode",
                            detail: "presentation output crossed the headless mutation API",
                        },
                    },
                ),
            },
    {
        match self.frame {
            PipelineFrame::Headless(frame) => Ok(
                RenderedDocumentUpdate {
                    previous_live_version: self.previous_live_version,
                    previous_last_returned_frame_version: self.previous_last_returned_frame_version,
                    evidence: self.evidence,
                    text: self.text,
                    frame,
                    commit: self.commit,
                },
            ),
            PipelineFrame::Presentation(_) => Err(
                DocumentUpdateError::Committed {
                    previous_live_version: self.previous_live_version,
                    last_returned_frame_version: self.previous_last_returned_frame_version,
                    commit: self.commit,
                    source: PipelineError::InvalidConfiguration {
                        field: "engine_output_mode",
                        detail: "presentation output crossed the headless mutation API",
                    },
                },
            ),
        }
    }
}

/// What rerendering the live document came to.
#[derive(Debug)]
pub struct RenderedNavigationRerender {
    /// Revision of the frame returned before this rerender.
    pub previous_last_returned_frame_version: DocumentVersion,
    /// Stage counts.
    pub evidence: DynamicRenderEvidence,
    /// Text measurement and shaping counts.
    pub text: TextEvidence,
    /// The frame.
    pub frame: PipelineFrame,
}

impl RenderedNavigationRerender {
    /// A rerender of the headless mode.
    pub fn into_headless(self) -> (result: Result<RenderedLiveDocument, DocumentUpdateError>)
        ensures
            result == match self.frame {
                PipelineFrame::Headless(frame) => Ok::<_, DocumentUpdateError>(
                    RenderedLiveDocument {
                        previous_last_returned_frame_version:
                            self.previous_last_returned_frame_version,
                        evidence: self.evidence,
                        text: self.text,
                        frame,
                    },
                ),
                PipelineFrame::Presentation(_) => Err::<RenderedLiveDocument, _>(
                    crate::dynamic::rejected_for(
                        Some(
                            (
                                self.evidence.document_version,
                                self.previous_last_returned_frame_version,
                            ),
                        ),
                        DocumentUpdateRejection::Pipeline(
                            PipelineError::InvalidConfiguration {
                                field: "engine_output_mode",
                                detail: "presentation output crossed the headless rerender API",
                            },
                        ),
                    ),
                ),
            },
    {
        match self.frame {
            PipelineFrame::Headless(frame) => Ok(
                RenderedLiveDocument {
                    previous_last_returned_frame_version: self.previous_last_returned_frame_version,
                    evidence: self.evidence,
                    text: self.text,
                    frame,
                },
            ),
            PipelineFrame::Presentation(_) => Err(
                rejected_update_for_versions(
                    Some(
                        (
                            self.evidence.document_version,
                            self.previous_last_returned_frame_version,
                        ),
                    ),
                    DocumentUpdateRejection::Pipeline(
                        PipelineError::InvalidConfiguration {
                            field: "engine_output_mode",
                            detail: "presentation output crossed the headless rerender API",
                        },
                    ),
                ),
            ),
        }
    }
}

/// What an engine's decisions read.
pub struct PageEngineModel {
    /// Transport that the engine owns.
    pub transport: PageTransportKind,
    /// Output mode.
    pub renderer: PipelineRenderer,
    /// Policy of the engine.
    pub config: StaticPageConfig,
    /// Next renderer epoch.
    pub next_epoch: u32,
    /// Next presentation-scene revision.
    pub next_presentation_revision: u64,
    /// The live document.
    pub live: Option<DetachedLiveDocument>,
}

impl PageEngineModel {
    /// Whether another frame attempt may enter the renderer; the headless
    /// renderer answers for itself.
    pub open spec fn usable(self, headless_usable: bool) -> bool {
        self.renderer is PresentationOnly || headless_usable
    }

    /// Live and shown revision of the live document.
    pub open spec fn versions(self) -> Option<(DocumentVersion, DocumentVersion)> {
        match self.live {
            Some(live) => Some((live.page.live_of(), live.page.shown_of())),
            None => None,
        }
    }

    /// Why no presentation scene can get a revision, if none can.
    pub open spec fn revision_refusal(self) -> Option<PipelineError> {
        if self.renderer is PresentationOnly && (self.next_presentation_revision == 0
            || self.next_presentation_revision == u64::MAX) {
            Some(PipelineError::PresentationRevisionExhausted)
        } else {
            None
        }
    }

    /// Why a load cannot begin, if it cannot. `unusable` is what a headless
    /// renderer that cannot go on says.
    pub open spec fn load_refusal(self, unusable: Option<String>, control: Checkpoint) -> Option<
        PipelineError,
    > {
        if self.renderer is Headless && unusable is Some {
            Some(PipelineError::Headless(unusable->0))
        } else if self.revision_refusal() is Some {
            self.revision_refusal()
        } else {
            crate::pipeline_error::control_failure(control, PipelineStage::Fetch)
        }
    }

    /// Why an update or a rerender cannot begin, if it cannot.
    pub open spec fn update_refusal(self, headless_usable: bool, control: Checkpoint) -> Option<
        DocumentUpdateRejection,
    > {
        match crate::dynamic::owner_rejection(self.versions(), self.usable(headless_usable)) {
            Some(reason) => Some(reason),
            None => match self.revision_refusal() {
                Some(error) => Some(DocumentUpdateRejection::Pipeline(error)),
                None => match crate::pipeline_error::control_failure(
                    control,
                    PipelineStage::Snapshot,
                ) {
                    Some(error) => Some(DocumentUpdateRejection::Pipeline(error)),
                    None => None,
                },
            },
        }
    }

    /// Why a rerender of an expected revision cannot begin, if it cannot.
    pub open spec fn rerender_refusal(
        self,
        expected: DocumentVersion,
        headless_usable: bool,
        control: Checkpoint,
    ) -> Option<DocumentUpdateRejection> {
        match self.update_refusal(headless_usable, control) {
            Some(reason) => Some(reason),
            None => match self.versions() {
                Some((actual, _)) => if expected != actual {
                    Some(DocumentUpdateRejection::LiveVersionMismatch { expected, actual })
                } else {
                    None
                },
                None => None,
            },
        }
    }

    /// Document whose stylesheets may be fetched.
    pub open spec fn style_page(self) -> Option<LiveDocumentPage> {
        match self.live {
            Some(live) => if self.transport is GeneralWeb && live.page.live_of()
                == live.page.response_of().version_of() {
                Some(live.page)
            } else {
                None
            },
            None => None,
        }
    }

    /// Why stylesheet networking is not delegated, if it is not.
    pub open spec fn delegation_refusal(
        self,
        scope: StyleFetchScope,
        parsed: Option<ParsedNavigation>,
        authority_matches: bool,
        transport: Result<u64, StyleFetchOwnerError>,
        ledger: StyleDocumentLifecycle,
    ) -> Option<StyleFetchOwnerError> {
        match self.style_page() {
            None => Some(StyleFetchOwnerError::AuthorityUnavailable),
            Some(page) => scope.refusal(
                page.response_of().commit_of(),
                page.live_of(),
                parsed,
                authority_matches,
                transport,
                ledger,
            ),
        }
    }

    /// The engine with another live document.
    pub open spec fn with_live(self, live: Option<DetachedLiveDocument>) -> Self {
        PageEngineModel { live, ..self }
    }

    /// Ledger that the engine owns.
    pub open spec fn owned_ledger(self) -> Option<u64> {
        match self.live {
            Some(live) => live.style_owner,
            None => None,
        }
    }

    /// Whether nothing but the live document may differ.
    pub open spec fn same_but_live(self, next: Self) -> bool {
        next == self.with_live(next.live)
    }

    /// Whether a frame of the live revision was returned, and nothing else
    /// changed.
    pub open spec fn shows_live(self, next: Self) -> bool {
        match self.live {
            None => next == self,
            Some(live) => {
                &&& self.same_but_live(next)
                &&& next.live matches Some(shown)
                &&& shown.style_owner == live.style_owner
                &&& live.page.is_advanced(shown.page, live.page.live_of(), live.page.live_of())
            },
        }
    }
}

impl PageEngineModel {
    /// A loopback, absent or mutated document delegates no stylesheet
    /// networking, whoever asks.
    pub proof fn changed_document_delegates_nothing(
        self,
        scope: StyleFetchScope,
        parsed: Option<ParsedNavigation>,
        authority_matches: bool,
        transport: Result<u64, StyleFetchOwnerError>,
        ledger: StyleDocumentLifecycle,
    )
        requires
            self.transport is NumericLoopback || self.live is None || self.live->0.page.live_of()
                != self.live->0.page.response_of().version_of(),
        ensures
            self.delegation_refusal(scope, parsed, authority_matches, transport, ledger) == Some(
                StyleFetchOwnerError::AuthorityUnavailable,
            ),
    {
    }

    /// A document whose ledger is retired delegates no stylesheet networking.
    pub proof fn retired_document_delegates_nothing(
        self,
        scope: StyleFetchScope,
        parsed: Option<ParsedNavigation>,
        authority_matches: bool,
        transport: Result<u64, StyleFetchOwnerError>,
        ledger: StyleDocumentLifecycle,
    )
        requires
            ledger.status is Retired,
        ensures
            self.delegation_refusal(scope, parsed, authority_matches, transport, ledger) is Some,
    {
    }

    /// A committed batch whose frame was returned leaves the committed revision
    /// both live and shown.
    pub proof fn rendered_update_is_shown(
        self,
        committed: Self,
        shown: Self,
        version: DocumentVersion,
    )
        requires
            self.live is Some,
            self.same_but_live(committed),
            committed.live is Some,
            self.live->0.page.is_advanced(
                committed.live->0.page,
                version,
                self.live->0.page.shown_of(),
            ),
            committed.shows_live(shown),
        ensures
            shown.versions() == Some((version, version)),
            shown.next_epoch == self.next_epoch,
            shown.live->0.page.response_of() == self.live->0.page.response_of(),
    {
    }
}

/// Stateful static-page integration boundary.
pub struct StaticPageEngine {
    transport: PageTransportKind,
    renderer: PipelineRenderer,
    config: StaticPageConfig,
    next_epoch: u32,
    next_presentation_revision: u64,
    live: Option<DetachedLiveDocument>,
}

impl View for StaticPageEngine {
    type V = PageEngineModel;

    closed spec fn view(&self) -> PageEngineModel {
        PageEngineModel {
            transport: self.transport,
            renderer: self.renderer,
            config: self.config,
            next_epoch: self.next_epoch,
            next_presentation_revision: self.next_presentation_revision,
            live: self.live,
        }
    }
}

/// What a fresh engine is.
pub open spec fn fresh_engine(
    config: StaticPageConfig,
    renderer: PipelineRenderer,
    transport: PageTransportKind,
) -> PageEngineModel {
    PageEngineModel {
        transport,
        renderer,
        config,
        next_epoch: FIRST_EPOCH,
        next_presentation_revision: 1,
        live: None,
    }
}

/// Whether creating an engine came to `result`.
pub open spec fn is_creation(
    config: StaticPageConfig,
    renderer: PipelineRenderer,
    transport: PageTransportKind,
    result: Result<StaticPageEngine, PipelineError>,
) -> bool {
    match config.error() {
        Some(error) => result == Err::<StaticPageEngine, _>(error),
        None => result matches Ok(engine) && engine@ == fresh_engine(config, renderer, transport),
    }
}

impl StaticPageEngine {
    /// An engine that renders numeric-loopback pages headlessly.
    pub fn new(config: StaticPageConfig) -> (result: Result<Self, PipelineError>)
        ensures
            is_creation(
                config,
                PipelineRenderer::Headless,
                PageTransportKind::NumericLoopback,
                result,
            ),
    {
        Self::new_with_renderer(config, true, PageTransportKind::NumericLoopback)
    }

    /// An engine that renders general-web pages headlessly.
    pub fn new_general_web(config: StaticPageConfig) -> (result: Result<Self, PipelineError>)
        ensures
            is_creation(config, PipelineRenderer::Headless, PageTransportKind::GeneralWeb, result),
    {
        Self::new_with_renderer(config, true, PageTransportKind::GeneralWeb)
    }

    /// An engine that compiles scenes of numeric-loopback pages.
    pub fn new_for_presentation(config: StaticPageConfig) -> (result: Result<Self, PipelineError>)
        ensures
            is_creation(
                config,
                PipelineRenderer::PresentationOnly,
                PageTransportKind::NumericLoopback,
                result,
            ),
    {
        Self::new_with_renderer(config, false, PageTransportKind::NumericLoopback)
    }

    /// An engine that compiles scenes of general-web pages.
    pub fn new_general_web_for_presentation(config: StaticPageConfig) -> (result: Result<
        Self,
        PipelineError,
    >)
        ensures
            is_creation(
                config,
                PipelineRenderer::PresentationOnly,
                PageTransportKind::GeneralWeb,
                result,
            ),
    {
        Self::new_with_renderer(config, false, PageTransportKind::GeneralWeb)
    }

    /// An engine with the given output mode and transport.
    pub fn new_with_renderer(
        config: StaticPageConfig,
        create_headless_renderer: bool,
        transport: PageTransportKind,
    ) -> (result: Result<Self, PipelineError>)
        ensures
            is_creation(
                config,
                if create_headless_renderer {
                    PipelineRenderer::Headless
                } else {
                    PipelineRenderer::PresentationOnly
                },
                transport,
                result,
            ),
    {
        if config.operation_timeout_nanoseconds == 0 {
            return Err(
                PipelineError::InvalidConfiguration {
                    field: "operation_timeout",
                    detail: "must be non-zero",
                },
            );
        }
        if config.viewport_width > i32::MAX as u32 || config.viewport_height > i32::MAX as u32 {
            return Err(
                PipelineError::InvalidConfiguration {
                    field: "viewport",
                    detail: "dimensions must fit signed CSS-pixel geometry",
                },
            );
        }
        let renderer = if create_headless_renderer {
            PipelineRenderer::Headless
        } else {
            PipelineRenderer::PresentationOnly
        };
        Ok(
            StaticPageEngine {
                transport,
                renderer,
                config,
                next_epoch: FIRST_EPOCH,
                next_presentation_revision: 1,
                live: None,
            },
        )
    }

    /// Transport that the engine owns.
    pub fn transport(&self) -> (transport: PageTransportKind)
        ensures
            transport == self@.transport,
    {
        self.transport
    }

    /// Policy of the engine.
    pub fn config(&self) -> (config: StaticPageConfig)
        ensures
            config == self@.config,
    {
        self.config
    }

    /// Output mode.
    pub fn renderer(&self) -> (renderer: PipelineRenderer)
        ensures
            renderer == self@.renderer,
    {
        self.renderer
    }

    /// The one mutable document retained by the latest successful load.
    pub fn live_document(&self) -> (page: Option<&LiveDocumentPage>)
        ensures
            match page {
                Some(page) => self@.live matches Some(live) && live.page == *page,
                None => self@.live is None,
            },
    {
        match &self.live {
            Some(live) => Some(&live.page),
            None => None,
        }
    }

    /// Whether another frame attempt may safely enter the owned renderer.
    /// `headless_usable` is what the headless renderer says of itself.
    pub fn renderer_is_usable(&self, headless_usable: bool) -> (usable: bool)
        ensures
            usable == self@.usable(headless_usable),
    {
        match self.renderer {
            PipelineRenderer::Headless => headless_usable,
            PipelineRenderer::PresentationOnly => true,
        }
    }

    /// Exchanges the live document.
    pub fn replace_live_document(&mut self, replacement: Option<DetachedLiveDocument>) -> (previous:
        Option<DetachedLiveDocument>)
        ensures
            previous == old(self)@.live,
            final(self)@ == old(self)@.with_live(replacement),
    {
        let mut previous = replacement;
        std::mem::swap(&mut previous, &mut self.live);
        previous
    }

    /// Installs a freshly loaded document; the ledger of the one that it
    /// replaces is to be retired.
    pub fn install_live_document(&mut self, replacement: DetachedLiveDocument) -> (retired: Option<
        u64,
    >)
        ensures
            retired == old(self)@.owned_ledger(),
            final(self)@ == old(self)@.with_live(Some(replacement)),
    {
        let retired: Option<u64> = match &self.live {
            Some(live) => live.style_owner,
            None => None,
        };
        self.live = Some(replacement);
        retired
    }

    /// Takes a renderer epoch; the greatest one is never taken.
    pub fn reserve_epoch(&mut self) -> (result: Result<u32, PipelineError>)
        ensures
            if old(self)@.next_epoch == u32::MAX {
                &&& result == Err::<u32, _>(PipelineError::EpochExhausted)
                &&& final(self)@ == old(self)@
            } else {
                &&& result == Ok::<_, PipelineError>(old(self)@.next_epoch)
                &&& final(self)@ == (PageEngineModel {
                    next_epoch: (old(self)@.next_epoch + 1) as u32,
                    ..old(self)@
                })
            },
    {
        if self.next_epoch == u32::MAX {
            return Err(PipelineError::EpochExhausted);
        }
        let epoch: u32 = self.next_epoch;
        self.next_epoch = epoch + 1;
        Ok(epoch)
    }

    /// Takes a presentation-scene revision.
    pub fn reserve_presentation_revision(&mut self) -> (result: Result<
        PresentationSceneRevision,
        PipelineError,
    >)
        ensures
            ({
                let next = old(self)@.next_presentation_revision;
                if next == 0 || next == u64::MAX {
                    &&& result == Err::<PresentationSceneRevision, _>(
                        PipelineError::PresentationRevisionExhausted,
                    )
                    &&& final(self)@ == old(self)@
                } else {
                    &&& result matches Ok(revision)
                    &&& revision.value() == next
                    &&& final(self)@ == (PageEngineModel {
                        next_presentation_revision: (next + 1) as u64,
                        ..old(self)@
                    })
                }
            }),
    {
        let current: u64 = self.next_presentation_revision;
        let next: u64 = match current.checked_add(1) {
            Some(next) => next,
            None => return Err(PipelineError::PresentationRevisionExhausted),
        };
        let revision = match PresentationSceneRevision::new(current) {
            Some(revision) => revision,
            None => return Err(PipelineError::PresentationRevisionExhausted),
        };
        self.next_presentation_revision = next;
        Ok(revision)
    }

    /// Refuses work whose scene could not get a revision.
    pub fn preflight_presentation_revision(&self) -> (result: Result<(), PipelineError>)
        ensures
            result == match self@.revision_refusal() {
                Some(error) => Err(error),
                None => Ok(()),
            },
    {
        match self.renderer {
            PipelineRenderer::Headless => Ok(()),
            PipelineRenderer::PresentationOnly => {
                if self.next_presentation_revision == 0
                    || self.next_presentation_revision == u64::MAX {
                    Err(PipelineError::PresentationRevisionExhausted)
                } else {
                    Ok(())
                }
            },
        }
    }

    /// Refuses a load that asks for the other output mode.
    pub fn require_output(&self, requested: PipelineRenderer) -> (result: Result<(), PipelineError>)
        ensures
            result == if self@.renderer == requested {
                Ok(())
            } else {
                Err(
                    PipelineError::InvalidConfiguration {
                        field: "engine_output_mode",
                        detail: if requested is Headless {
                            "headless load requested from a presentation-only engine"
                        } else {
                            "presentation load requested from a headless engine"
                        },
                    },
                )
            },
    {
        match (self.renderer, requested) {
            (PipelineRenderer::Headless, PipelineRenderer::Headless)
            | (PipelineRenderer::PresentationOnly, PipelineRenderer::PresentationOnly) => Ok(()),
            (PipelineRenderer::PresentationOnly, PipelineRenderer::Headless) => Err(
                PipelineError::InvalidConfiguration {
                    field: "engine_output_mode",
                    detail: "headless load requested from a presentation-only engine",
                },
            ),
            (PipelineRenderer::Headless, PipelineRenderer::PresentationOnly) => Err(
                PipelineError::InvalidConfiguration {
                    field: "engine_output_mode",
                    detail: "presentation load requested from a headless engine",
                },
            ),
        }
    }

    /// Begins a load. `unusable` is what a headless renderer that cannot go on
    /// says.
    pub fn begin_load(&self, unusable: Option<String>, control: Checkpoint) -> (result: Result<
        (),
        PipelineError,
    >)
        ensures
            result == match self@.load_refusal(unusable, control) {
                Some(error) => Err(error),
                None => Ok(()),
            },
    {
        if let PipelineRenderer::Headless = self.renderer {
            if let Some(unusable) = unusable {
                return Err(PipelineError::Headless(unusable));
            }
        }
        match self.preflight_presentation_revision() {
            Ok(()) => {},
            Err(error) => return Err(error),
        }
        checkpoint(control, PipelineStage::Fetch)
    }

    /// Decodes the body of a fetched document for the parser.
    pub fn decode_document<'a>(source: &'a [u8], control: Checkpoint) -> (result: Result<
        &'a str,
        PipelineError,
    >)
        ensures
            match crate::pipeline_error::control_failure(control, PipelineStage::Parse) {
                Some(error) => result == Err::<&'a str, _>(error),
                None => match crate::text::utf8_text(source@) {
                    Some(text) => result matches Ok(html) && html@ == text,
                    None => result == Err::<&'a str, _>(PipelineError::NonUtf8Html),
                },
            },
    {
        match checkpoint(control, PipelineStage::Parse) {
            Ok(()) => {},
            Err(error) => return Err(error),
        }
        match decode_text(source) {
            Some(html) => Ok(html),
            None => Err(PipelineError::NonUtf8Html),
        }
    }

    /// Finishes a load: binds the response to the rendered document, and makes
    /// the document the live one. `document` and `live_version` are the parsed
    /// document and its revision, and `fresh_ledger` is a key for its ledger.
    /// Besides the page, tells the ledger to open and the ledger to retire. A
    /// commitment that is bound already belongs to another document.
    pub fn finish_load(
        &mut self,
        fetched: FetchedDocument,
        document: u64,
        live_version: DocumentVersion,
        html_diagnostics: usize,
        rendered: RenderedSnapshot,
        fresh_ledger: u64,
    ) -> (result: Result<(RenderedPipelinePage, Option<u64>, Option<u64>), PipelineError>)
        ensures
            ({
                let version = rendered.evidence.document_version;
                if live_version != version || fetched.navigation_commit@.ledger_key() is Some {
                    &&& result == Err::<(RenderedPipelinePage, Option<u64>, Option<u64>), _>(
                        PipelineError::DocumentPolicy(DocumentPolicyError::BindingMismatch),
                    )
                    &&& final(self)@ == old(self)@
                } else {
                    let issued = if fetched.navigation_commit@.response() is Some {
                        Some(fresh_ledger)
                    } else {
                        None
                    };
                    &&& result matches Ok((page, opened, retired))
                    &&& page.evidence.is_of(
                        fetched.http_status,
                        fetched.source@.len(),
                        html_diagnostics,
                        rendered.evidence,
                    )
                    &&& page.text == rendered.text
                    &&& page.frame == rendered.frame
                    &&& opened == issued
                    &&& retired == old(self)@.owned_ledger()
                    &&& page.evidence.navigation_commit@.document() == if issued is Some {
                        Some(version)
                    } else {
                        None
                    }
                    &&& page.evidence.navigation_commit@.ledger_key() == issued
                    &&& page.evidence.navigation_commit@.response()
                        == fetched.navigation_commit@.response()
                    &&& page.evidence.navigation_commit@
                        == (crate::commit::CommitModel {
                        authority: page.evidence.navigation_commit@.authority,
                        ..fetched.navigation_commit@
                    })
                    &&& old(self)@.same_but_live(final(self)@)
                    &&& final(self)@.live matches Some(live)
                    &&& live.style_owner == issued
                    &&& live.page.document_of() == document
                    &&& live.page.live_of() == version
                    &&& live.page.shown_of() == version
                    &&& live.page.response_of().metadata() == fetched.response_metadata@
                    &&& live.page.response_of().version_of() == version
                    &&& live.page.response_of().commit_of() == page.evidence.navigation_commit@
                }
            }),
    {
        let document_version = rendered.evidence.document_version;
        let source_bytes: usize = fetched.source.len();
        if fetched.navigation_commit.ledger_key().is_some() {
            return Err(PipelineError::DocumentPolicy(DocumentPolicyError::BindingMismatch));
        }
        let (navigation_commit, style_owner) = match fetched.navigation_commit.bind_document(
            document_version,
            fresh_ledger,
            None,
        ) {
            Ok(bound) => bound,
            Err(_) => return Err(
                PipelineError::DocumentPolicy(DocumentPolicyError::BindingMismatch),
            ),
        };
        let response_metadata = fetched.response_metadata.bind(
            document_version,
            navigation_commit.clone(),
        );
        let page = match LiveDocumentPage::new(
            document,
            live_version,
            document_version,
            response_metadata,
        ) {
            Ok(page) => page,
            Err(error) => return Err(PipelineError::DocumentPolicy(error)),
        };
        let evidence = PipelineEvidence {
            document_version,
            http_status: fetched.http_status,
            navigation_commit,
            source_bytes,
            dom_nodes: rendered.evidence.dom_nodes,
            html_diagnostics,
            stylo_style_entries: rendered.evidence.stylo_style_entries,
            style_diagnostics: rendered.evidence.style_diagnostics,
            dropped_style_diagnostics: rendered.evidence.dropped_style_diagnostics,
            layout_boxes: rendered.evidence.layout_boxes,
            layout_warnings: rendered.evidence.layout_warnings,
            scene_items: rendered.evidence.scene_items,
            pre_composition_display_list_bytes: rendered.evidence.pre_composition_display_list_bytes,
        };
        let retired: Option<u64> = self.install_live_document(
            DetachedLiveDocument { style_owner, page },
        );
        Ok(
            (
                RenderedPipelinePage { evidence, text: rendered.text, frame: rendered.frame },
                style_owner,
                retired,
            ),
        )
    }

    /// Document whose stylesheets may be fetched: the live one of a general-web
    /// engine, while it is the revision that its response was parsed into.
    fn style_document(&self) -> (page: Option<&LiveDocumentPage>)
        ensures
            match page {
                Some(page) => self@.style_page() == Some(*page),
                None => self@.style_page() is None,
            },
    {
        if let PageTransportKind::NumericLoopback = self.transport {
            return None;
        }
        match &self.live {
            Some(live) => {
                if live.page.live_version()
                    == live.page.captured_response_metadata().response_document_version() {
                    Some(&live.page)
                } else {
                    None
                }
            },
            None => None,
        }
    }

    /// Delegates product stylesheet networking from one exact live navigation.
    /// `transport` is what delegating a child transport came to, and `parsed`
    /// and `authority_matches` are what the URL parser and the transport say of
    /// the committed response.
    pub fn delegate_style_fetch_authority(
        &self,
        navigation: NavigationId,
        parsed: Option<&ParsedNavigation>,
        authority_matches: bool,
        transport: Result<u64, StyleFetchOwnerError>,
        ledger: &mut StyleDocumentLifecycle,
    ) -> (result: Result<StyleFetchAuthority, StyleFetchOwnerError>)
        ensures
            ({
                let scope = StyleFetchScope::Product(navigation);
                match self@.delegation_refusal(
                    scope,
                    crate::style_policy::optional_answer(parsed),
                    authority_matches,
                    transport,
                    *old(ledger),
                ) {
                    Some(error) => {
                        &&& result == Err::<StyleFetchAuthority, _>(error)
                        &&& *final(ledger) == *old(ledger)
                    },
                    None => {
                        let page = self@.style_page()->0;
                        &&& result matches Ok(authority)
                        &&& authority.core_of().is_of(
                            transport->Ok_0,
                            page.live_of(),
                            page.response_of().commit_of(),
                            scope,
                        )
                        &&& *final(ledger) == old(ledger).with_transaction(
                            scope.class(),
                            StyleDocumentTransaction::Ready,
                        )
                    },
                }
            }),
    {
        let page = match self.style_document() {
            Some(page) => page,
            None => return Err(StyleFetchOwnerError::AuthorityUnavailable),
        };
        let metadata = page.captured_response_metadata();
        StyleFetchAuthority::from_committed_document(
            metadata.navigation_commit(),
            navigation,
            metadata.response_document_version(),
            parsed,
            authority_matches,
            transport,
            ledger,
        )
    }

    /// Delegates stylesheet networking to a direct caller, for a document that
    /// no navigation owns.
    pub fn delegate_non_product_style_fetch_authority(
        &self,
        parsed: Option<&ParsedNavigation>,
        authority_matches: bool,
        transport: Result<u64, StyleFetchOwnerError>,
        ledger: &mut StyleDocumentLifecycle,
    ) -> (result: Result<NonProductStyleFetchAuthority, StyleFetchOwnerError>)
        ensures
            ({
                let scope = StyleFetchScope::NonProduct;
                match self@.delegation_refusal(
                    scope,
                    crate::style_policy::optional_answer(parsed),
                    authority_matches,
                    transport,
                    *old(ledger),
                ) {
                    Some(error) => {
                        &&& result == Err::<NonProductStyleFetchAuthority, _>(error)
                        &&& *final(ledger) == *old(ledger)
                    },
                    None => {
                        let page = self@.style_page()->0;
                        &&& result matches Ok(authority)
                        &&& authority.core_of().is_of(
                            transport->Ok_0,
                            page.live_of(),
                            page.response_of().commit_of(),
                            scope,
                        )
                        &&& *final(ledger) == old(ledger).with_transaction(
                            scope.class(),
                            StyleDocumentTransaction::Ready,
                        )
                    },
                }
            }),
    {
        let page = match self.style_document() {
            Some(page) => page,
            None => return Err(StyleFetchOwnerError::AuthorityUnavailable),
        };
        let metadata = page.captured_response_metadata();
        NonProductStyleFetchAuthority::from_committed_document(
            metadata.navigation_commit(),
            metadata.response_document_version(),
            parsed,
            authority_matches,
            transport,
            ledger,
        )
    }

    /// Versions of the live document, where it can be updated at all.
    pub fn dynamic_owner_state(&self, headless_usable: bool) -> (result: Result<
        (DocumentVersion, DocumentVersion),
        DocumentUpdateError,
    >)
        ensures
            result == match crate::dynamic::owner_rejection(
                self@.versions(),
                self@.usable(headless_usable),
            ) {
                Some(reason) => Err(crate::dynamic::rejected_for(self@.versions(), reason)),
                None => Ok(self@.versions()->0),
            },
    {
        let versions = match &self.live {
            Some(live) => Some((live.page.live_version(), live.page.last_returned_frame_version())),
            None => None,
        };
        validate_dynamic_owner(versions, self.renderer_is_usable(headless_usable))
    }

    /// Versions of the live document, where an update can begin.
    pub fn dynamic_preflight(&self, headless_usable: bool, control: Checkpoint) -> (result: Result<
        (DocumentVersion, DocumentVersion),
        DocumentUpdateError,
    >)
        ensures
            result == match self@.update_refusal(headless_usable, control) {
                Some(reason) => Err(crate::dynamic::rejected_for(self@.versions(), reason)),
                None => Ok(self@.versions()->0),
            },
    {
        let versions = match self.dynamic_owner_state(headless_usable) {
            Ok(versions) => versions,
            Err(error) => return Err(error),
        };
        match self.preflight_presentation_revision() {
            Ok(()) => {},
            Err(error) => return Err(
                rejected_update_for_versions(
                    Some(versions),
                    DocumentUpdateRejection::Pipeline(error),
                ),
            ),
        }
        match checkpoint(control, PipelineStage::Snapshot) {
            Ok(()) => {},
            Err(error) => return Err(
                rejected_update_for_versions(
                    Some(versions),
                    DocumentUpdateRejection::Pipeline(error),
                ),
            ),
        }
        Ok(versions)
    }

    /// Refuses a mutation or a rerender of the headless mode on a
    /// presentation-only engine.
    pub fn require_headless_update(&self, headless_usable: bool, mutation: bool) -> (result: Result<
        (),
        DocumentUpdateError,
    >)
        ensures
            result == if self@.renderer is Headless {
                Ok(())
            } else {
                Err(
                    crate::dynamic::rejected_for(
                        self@.versions(),
                        DocumentUpdateRejection::Pipeline(
                            PipelineError::InvalidConfiguration {
                                field: "engine_output_mode",
                                detail: if mutation {
                                    "headless mutation rendering requested from a presentation-only engine"
                                } else {
                                    "headless rerender requested from a presentation-only engine"
                                },
                            },
                        ),
                    ),
                )
            },
    {
        match self.renderer {
            PipelineRenderer::Headless => Ok(()),
            PipelineRenderer::PresentationOnly => {
                let versions = match self.dynamic_owner_state(headless_usable) {
                    Ok(versions) => Some(versions),
                    Err(_) => None,
                };
                let detail = if mutation {
                    "headless mutation rendering requested from a presentation-only engine"
                } else {
                    "headless rerender requested from a presentation-only engine"
                };
                Err(
                    rejected_update_for_versions(
                        versions,
                        DocumentUpdateRejection::Pipeline(
                            PipelineError::InvalidConfiguration {
                                field: "engine_output_mode",
                                detail,
                            },
                        ),
                    ),
                )
            },
        }
    }

    /// Records that a frame of the live revision was returned.
    pub fn record_live_frame_returned(&mut self)
        ensures
            old(self)@.shows_live(final(self)@),
    {
        let mut taken: Option<DetachedLiveDocument> = None;
        std::mem::swap(&mut taken, &mut self.live);
        if let Some(live) = taken {
            let mut page = live.page;
            page.record_frame_returned();
            self.live = Some(DetachedLiveDocument { style_owner: live.style_owner, page });
        }
    }

    /// Whether the DOM may be asked to apply a batch: the document's ledger, if
    /// the engine owns one, must be current.
    pub fn may_apply(&self, ledger: &StyleDocumentLifecycle) -> (allowed: bool)
        ensures
            allowed == (self@.live is Some && (self@.owned_ledger() is None || !(
            ledger.status is Retired))),
    {
        match &self.live {
            None => false,
            Some(live) => match live.style_owner {
                None => true,
                Some(_) => ledger.is_current(),
            },
        }
    }

    /// Takes what the DOM made of a batch. A committed batch retires the
    /// document's ledger, which the engine owns no more and whose transaction
    /// must not be running; a batch that the DOM was not asked to apply finds no
    /// live document.
    pub fn commit_batch(
        &mut self,
        versions: (DocumentVersion, DocumentVersion),
        ledger: &mut StyleDocumentLifecycle,
        outcome: Result<DocumentMutationCommit, String>,
    ) -> (result: Result<DocumentMutationCommit, DocumentUpdateError>)
        requires
            !old(ledger).runs_transaction(),
        ensures
            match old(self)@.live {
                None => {
                    &&& result == Err::<DocumentMutationCommit, _>(
                        crate::dynamic::rejected_for(None, DocumentUpdateRejection::NoLiveDocument),
                    )
                    &&& final(self)@ == old(self)@
                    &&& *final(ledger) == *old(ledger)
                },
                Some(live) => if live.style_owner is Some && old(ledger).status is Retired {
                    &&& result == Err::<DocumentMutationCommit, _>(
                        crate::dynamic::rejected_for(
                            Some(versions),
                            DocumentUpdateRejection::NoLiveDocument,
                        ),
                    )
                    &&& final(self)@ == old(self)@.with_live(
                        Some(DetachedLiveDocument { style_owner: None, ..live }),
                    )
                    &&& *final(ledger) == *old(ledger)
                } else {
                    match outcome {
                        Err(error) => {
                            &&& result == Err::<DocumentMutationCommit, _>(
                                crate::dynamic::rejected_for(
                                    Some(versions),
                                    DocumentUpdateRejection::Mutation(error),
                                ),
                            )
                            &&& final(self)@ == old(self)@
                            &&& *final(ledger) == *old(ledger)
                        },
                        Ok(commit) => {
                            &&& result == Ok::<_, DocumentUpdateError>(commit)
                            &&& old(self)@.same_but_live(final(self)@)
                            &&& final(self)@.live matches Some(committed)
                            &&& committed.style_owner is None
                            &&& live.page.is_advanced(
                                committed.page,
                                commit.version,
                                live.page.shown_of(),
                            )
                            &&& *final(ledger) == if live.style_owner is Some {
                                old(ledger).retired()
                            } else {
                                *old(ledger)
                            }
                        },
                    }
                },
            },
    {
        let mut taken: Option<DetachedLiveDocument> = None;
        std::mem::swap(&mut taken, &mut self.live);
        let live = match taken {
            Some(live) => live,
            None => return Err(
                rejected_update_for_versions(None, DocumentUpdateRejection::NoLiveDocument),
            ),
        };
        if live.style_owner.is_some() && !ledger.is_current() {
            self.live = Some(DetachedLiveDocument { style_owner: None, page: live.page });
            return Err(
                rejected_update_for_versions(
                    Some(versions),
                    DocumentUpdateRejection::NoLiveDocument,
                ),
            );
        }
        match outcome {
            Err(error) => {
                self.live = Some(live);
                Err(
                    rejected_update_for_versions(
                        Some(versions),
                        DocumentUpdateRejection::Mutation(error),
                    ),
                )
            },
            Ok(commit) => {
                if live.style_owner.is_some() {
                    ledger.retire_if_succeeded(true);
                }
                let mut page = live.page;
                page.record_commit(commit.version);
                self.live = Some(DetachedLiveDocument { style_owner: None, page });
                Ok(commit)
            },
        }
    }

    /// Finishes an update whose batch the DOM committed.
    pub fn finish_apply(
        &mut self,
        versions: (DocumentVersion, DocumentVersion),
        commit: DocumentMutationCommit,
        rendered: Result<RenderedSnapshot, PipelineError>,
    ) -> (result: Result<RenderedNavigationUpdate, DocumentUpdateError>)
        ensures
            match rendered {
                Err(source) => {
                    &&& result == Err::<RenderedNavigationUpdate, _>(
                        DocumentUpdateError::Committed {
                            previous_live_version: versions.0,
                            last_returned_frame_version: versions.1,
                            commit,
                            source,
                        },
                    )
                    &&& final(self)@ == old(self)@
                },
                Ok(rendered) => {
                    &&& result == Ok::<_, DocumentUpdateError>(
                        RenderedNavigationUpdate {
                            previous_live_version: versions.0,
                            previous_last_returned_frame_version: versions.1,
                            evidence: rendered.evidence,
                            text: rendered.text,
                            frame: rendered.frame,
                            commit,
                        },
                    )
                    &&& old(self)@.shows_live(final(self)@)
                },
            },
    {
        let (previous_live_version, previous_last_returned_frame_version) = versions;
        let rendered = match rendered {
            Ok(rendered) => rendered,
            Err(source) => return Err(
                DocumentUpdateError::Committed {
                    previous_live_version,
                    last_returned_frame_version: previous_last_returned_frame_version,
                    commit,
                    source,
                },
            ),
        };
        self.record_live_frame_returned();
        Ok(
            RenderedNavigationUpdate {
                previous_live_version,
                previous_last_returned_frame_version,
                evidence: rendered.evidence,
                text: rendered.text,
                frame: rendered.frame,
                commit,
            },
        )
    }

    /// Begins a rerender of one exact live revision.
    pub fn begin_rerender(
        &self,
        expected_live_version: DocumentVersion,
        headless_usable: bool,
        control: Checkpoint,
    ) -> (result: Result<(DocumentVersion, DocumentVersion), DocumentUpdateError>)
        ensures
            result == match self@.rerender_refusal(expected_live_version, headless_usable, control) {
                Some(reason) => Err(crate::dynamic::rejected_for(self@.versions(), reason)),
                None => Ok(self@.versions()->0),
            },
    {
        let (live_version, shown_version) = match self.dynamic_preflight(headless_usable, control) {
            Ok(versions) => versions,
            Err(error) => return Err(error),
        };
        if expected_live_version != live_version {
            return Err(
                rejected_update_for_versions(
                    Some((live_version, shown_version)),
                    DocumentUpdateRejection::LiveVersionMismatch {
                        expected: expected_live_version,
                        actual: live_version,
                    },
                ),
            );
        }
        Ok((live_version, shown_version))
    }

    /// Finishes a rerender, whose snapshot or rendering may have failed.
    pub fn finish_rerender(
        &mut self,
        versions: (DocumentVersion, DocumentVersion),
        rendered: Result<RenderedSnapshot, PipelineError>,
    ) -> (result: Result<RenderedNavigationRerender, DocumentUpdateError>)
        ensures
            match rendered {
                Err(error) => {
                    &&& result == Err::<RenderedNavigationRerender, _>(
                        crate::dynamic::rejected_for(
                            Some(versions),
                            DocumentUpdateRejection::Pipeline(error),
                        ),
                    )
                    &&& final(self)@ == old(self)@
                },
                Ok(rendered) => {
                    &&& result == Ok::<_, DocumentUpdateError>(
                        RenderedNavigationRerender {
                            previous_last_returned_frame_version: versions.1,
                            evidence: rendered.evidence,
                            text: rendered.text,
                            frame: rendered.frame,
                        },
                    )
                    &&& old(self)@.shows_live(final(self)@)
                },
            },
    {
        let rendered = match rendered {
            Ok(rendered) => rendered,
            Err(error) => return Err(
                rejected_update_for_versions(
                    Some(versions),
                    DocumentUpdateRejection::Pipeline(error),
                ),
            ),
        };
        self.record_live_frame_returned();
        Ok(
            RenderedNavigationRerender {
                previous_last_returned_frame_version: versions.1,
                evidence: rendered.evidence,
                text: rendered.text,
                frame: rendered.frame,
            },
        )
    }

    /// Ends the engine; the ledger of its live document is to be retired.
    pub fn shutdown(self) -> (retired: Option<u64>)
        ensures
            retired == self@.owned_ledger(),
    {
        match self.live {
            Some(live) => live.style_owner,
            None => None,
        }
    }
}

} // verus!
