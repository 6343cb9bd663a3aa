//! The executor of the page pipeline: one engine, and a retained document for
//! each top-level context.

use std::collections::{BTreeMap, BTreeSet};
use vstd::prelude::*;

use crate::collections::{map_contains, map_insert, map_keys, map_remove, set_insert};
use crate::commit::{CommitModel, NavigationCommitMetadata, NavigationNetworkCapability};
use crate::document_fetch::PageTransportKind;
use crate::dynamic::{map_document_rejection, DocumentUpdateError};
use crate::executor::{
    DocumentLoadProof, ExecutorDocumentMutation, ExecutorDocumentRerender, ExecutorOutput,
};
use crate::failure::{
    DocumentOperationFailure, ExecutionFailure, ExecutionFailureKind, NavigationStage,
};
use crate::frame::{
    EngineFrame, EngineFrameError, FrameMetadata, FrameOutputMetadata, RGBA8_BYTES_PER_PIXEL,
};
use crate::identity::{DocumentVersion, NavigationId, TopLevelContextId};
use crate::limits::{EngineLimits, MAX_FRAME_BYTES};
use crate::page_engine::{
    DetachedLiveDocument, PageEngineModel, PipelineFrame, PipelineRenderer,
    RenderedNavigationRerender, RenderedNavigationUpdate, RenderedPresentationPage,
    RenderedStaticPage, StaticPageConfig, StaticPageEngine,
};
use crate::pipeline_error::{map_document_pipeline_error, map_pipeline_error, PipelineError};
use crate::style_document::StyleDocumentLifecycle;

verus! {

/// Why a frame cannot be published for a document revision.
pub open spec fn frame_error(frame: PipelineFrame, version: DocumentVersion) -> Option<
    EngineFrameError,
> {
    match frame {
        PipelineFrame::Headless(frame) => crate::frame::headless_error(frame, version),
        PipelineFrame::Presentation(scene) => if scene.metadata.retained_charge_bytes
            > MAX_FRAME_BYTES {
            Some(
                EngineFrameError::FrameTooLarge {
                    actual: scene.metadata.retained_charge_bytes,
                    maximum: MAX_FRAME_BYTES,
                },
            )
        } else {
            None
        },
    }
}

/// Whether a published frame is the rendered one: its size and layout, its
/// content, and the revision that it represents.
pub open spec fn frame_shows(
    published: EngineFrame,
    frame: PipelineFrame,
    version: DocumentVersion,
) -> bool {
    match frame {
        PipelineFrame::Headless(frame) => {
            &&& published.metadata_of().output matches FrameOutputMetadata::Rgba8(rgba8)
            &&& rgba8.size_of().width_of() == frame.width
            &&& rgba8.size_of().height_of() == frame.height
            &&& rgba8.byte_len_of() == frame.pixels@.len()
            &&& rgba8.stride_of() == frame.width * RGBA8_BYTES_PER_PIXEL
            &&& published.metadata_of().document_version == Some(version)
            &&& published.pixels_of() == Some(frame.pixels@)
            &&& published.scene_of() is None
        },
        PipelineFrame::Presentation(scene) => {
            &&& published.metadata_of() == (FrameMetadata {
                output: FrameOutputMetadata::Presentation(scene.metadata),
                document_version: Some(scene.metadata.document_version),
            })
            &&& published.scene_of() == Some(scene)
            &&& published.pixels_of() is None
        },
    }
}

/// Turns a rendered frame into one that can be published.
pub fn publishable_frame(frame: PipelineFrame, version: DocumentVersion) -> (result: Result<
    EngineFrame,
    EngineFrameError,
>)
    ensures
        match frame_error(frame, version) {
            Some(error) => result == Err::<EngineFrame, _>(error),
            None => result matches Ok(published) && frame_shows(published, frame, version),
        },
{
    match frame {
        PipelineFrame::Headless(frame) => EngineFrame::from_headless(frame, version),
        PipelineFrame::Presentation(scene) => EngineFrame::from_presentation(scene),
    }
}

/// A loaded page, ready for publication.
pub struct LoadedNavigation {
    /// Successful HTTP status.
    pub http_status: u16,
    /// Final identity of the response.
    pub navigation_commit: NavigationCommitMetadata,
    /// Revision of the loaded document.
    pub document_version: DocumentVersion,
    /// Nodes of the loaded document.
    pub node_charge: usize,
    /// The frame.
    pub frame: EngineFrame,
}

/// Takes over a page of the headless mode.
pub fn frame_from_headless_page(rendered: RenderedStaticPage) -> (result: Result<
    LoadedNavigation,
    PipelineError,
>)
    ensures
        ({
            let version = rendered.evidence.document_version;
            if crate::frame::headless_error(rendered.frame, version) is Some {
                result == Err::<LoadedNavigation, _>(
                    PipelineError::InvalidConfiguration {
                        field: "engine_frame",
                        detail: "headless pipeline produced an invalid frame lease",
                    },
                )
            } else {
                &&& result matches Ok(loaded)
                &&& loaded.http_status == rendered.evidence.http_status
                &&& loaded.navigation_commit == rendered.evidence.navigation_commit
                &&& loaded.document_version == version
                &&& loaded.node_charge == rendered.evidence.dom_nodes
                &&& frame_shows(loaded.frame, PipelineFrame::Headless(rendered.frame), version)
            }
        }),
{
    let http_status: u16 = rendered.evidence.http_status;
    let document_version = rendered.evidence.document_version;
    let node_charge: usize = rendered.evidence.dom_nodes;
    let navigation_commit = rendered.evidence.navigation_commit;
    match EngineFrame::from_headless(rendered.frame, document_version) {
        Ok(frame) => Ok(
            LoadedNavigation { http_status, navigation_commit, document_version, node_charge, frame },
        ),
        Err(_) => Err(
            PipelineError::InvalidConfiguration {
                field: "engine_frame",
                detail: "headless pipeline produced an invalid frame lease",
            },
        ),
    }
}

/// Takes over a page of the presentation-only mode.
pub fn frame_from_presentation_page(rendered: RenderedPresentationPage) -> (result: Result<
    LoadedNavigation,
    PipelineError,
>)
    ensures
        if rendered.scene.metadata.retained_charge_bytes > MAX_FRAME_BYTES {
            result == Err::<LoadedNavigation, _>(
                PipelineError::InvalidConfiguration {
                    field: "engine_frame",
                    detail: "presentation pipeline produced an invalid scene lease",
                },
            )
        } else {
            &&& result matches Ok(loaded)
            &&& loaded.http_status == rendered.evidence.http_status
            &&& loaded.navigation_commit == rendered.evidence.navigation_commit
            &&& loaded.document_version == rendered.evidence.document_version
            &&& loaded.node_charge == rendered.evidence.dom_nodes
            &&& frame_shows(
                loaded.frame,
                PipelineFrame::Presentation(rendered.scene),
                rendered.evidence.document_version,
            )
        },
{
    let http_status: u16 = rendered.evidence.http_status;
    let document_version = rendered.evidence.document_version;
    let node_charge: usize = rendered.evidence.dom_nodes;
    let navigation_commit = rendered.evidence.navigation_commit;
    match EngineFrame::from_presentation(rendered.scene) {
        Ok(frame) => Ok(
            LoadedNavigation { http_status, navigation_commit, document_version, node_charge, frame },
        ),
        Err(_) => Err(
            PipelineError::InvalidConfiguration {
                field: "engine_frame",
                detail: "presentation pipeline produced an invalid scene lease",
            },
        ),
    }
}

/// Whether the frames of a viewport exceed a byte bound.
pub open spec fn viewport_too_large(config: StaticPageConfig, maximum: usize) -> bool {
    config.viewport_width * config.viewport_height * RGBA8_BYTES_PER_PIXEL > maximum
}

/// Refuses a viewport whose frames exceed the frame bound.
pub fn validate_frame_limit(config: StaticPageConfig, limits: EngineLimits) -> (result: Result<
    (),
    ExecutionFailure,
>)
    ensures
        result == if viewport_too_large(config, limits@.max_frame_bytes) {
            Err(ExecutionFailure::of(ExecutionFailureKind::ResourceLimit, NavigationStage::Render))
        } else {
            Ok(())
        },
{
    let width: u128 = config.viewport_width as u128;
    let height: u128 = config.viewport_height as u128;
    assert(0 <= width * height <= 0xffff_ffff * 0xffff_ffff) by (nonlinear_arith)
        requires
            0 <= width <= 0xffff_ffff,
            0 <= height <= 0xffff_ffff,
    ;
    let configured: u128 = width * height * RGBA8_BYTES_PER_PIXEL as u128;
    if configured > limits.max_frame_bytes() as u128 {
        return Err(
            ExecutionFailure::new(ExecutionFailureKind::ResourceLimit, NavigationStage::Render),
        );
    }
    Ok(())
}

/// A document retained for one context.
pub struct RetainedExecutorDocument {
    /// The document.
    pub document: DetachedLiveDocument,
    /// Nodes charged for it.
    pub node_charge: usize,
}

/// Old and new document of a navigation that is not published yet.
pub struct PendingNavigationDocument {
    /// The navigation.
    pub navigation: NavigationId,
    /// Document that the context had.
    pub previous: Option<RetainedExecutorDocument>,
    /// Document that it gets.
    pub replacement: RetainedExecutorDocument,
    /// Retained nodes once it has it.
    pub retained_nodes_after: usize,
}

/// A navigation whose page is being loaded.
pub struct NavigationLoad {
    navigation: NavigationId,
    previous: Option<RetainedExecutorDocument>,
}

impl NavigationLoad {
    /// The navigation, in specifications.
    pub closed spec fn navigation_of(self) -> NavigationId {
        self.navigation
    }

    /// Document that the context had, in specifications.
    pub closed spec fn previous_of(self) -> Option<RetainedExecutorDocument> {
        self.previous
    }
}

/// A document of a context that is being mutated or rerendered.
pub struct ActivatedDocument {
    context: TopLevelContextId,
    node_charge: usize,
}

impl ActivatedDocument {
    /// The context, in specifications.
    pub closed spec fn context_of(self) -> TopLevelContextId {
        self.context
    }

    /// Nodes charged for the document, in specifications.
    pub closed spec fn charge(self) -> usize {
        self.node_charge
    }
}

/// Ledgers that a document owns.
pub open spec fn ledgers(document: DetachedLiveDocument) -> Set<u64> {
    match document.style_owner {
        Some(ledger) => set![ledger],
        None => Set::empty(),
    }
}

/// Ledgers of a retained document, if there is one.
pub open spec fn retained_ledgers(document: Option<RetainedExecutorDocument>) -> Set<u64> {
    match document {
        Some(document) => ledgers(document.document),
        None => Set::empty(),
    }
}

/// Ledgers of all documents.
pub open spec fn all_ledgers(documents: Map<u64, RetainedExecutorDocument>) -> Set<u64> {
    Set::new(
        |ledger: u64|
            exists|key: u64| #[trigger]
                documents.contains_key(key) && documents[key].document.style_owner == Some(ledger),
    )
}

/// Nodes charged for a retained document, if there is one.
pub open spec fn charge_of(document: Option<RetainedExecutorDocument>) -> nat {
    match document {
        Some(document) => document.node_charge as nat,
        None => 0,
    }
}

/// What an executor's decisions read.
pub struct ExecutorModel {
    /// The engine, until shutdown.
    pub engine: Option<PageEngineModel>,
    /// Transport of all navigations.
    pub network_capability: NavigationNetworkCapability,
    /// Retained documents, by context.
    pub documents: Map<u64, RetainedExecutorDocument>,
    /// The navigation that is not published yet.
    pub pending: Option<PendingNavigationDocument>,
    /// Nodes charged for all documents.
    pub retained_nodes: usize,
    /// Greatest number of nodes that may be charged.
    pub max_nodes: usize,
    /// Ledgers of discarded documents, to be retired.
    pub retired: Set<u64>,
}

impl ExecutorModel {
    /// Nodes of the retained documents.
    pub open spec fn document_nodes(self) -> nat {
        crate::accounting::map_total(
            self.documents,
            |document: RetainedExecutorDocument| document.node_charge as nat,
        )
    }

    /// Nodes of the retained documents, the old one of a pending navigation
    /// included.
    pub open spec fn held_nodes(self) -> nat {
        self.document_nodes() + match self.pending {
            Some(pending) => charge_of(pending.previous),
            None => 0,
        }
    }

    /// Whether every retained node is charged, so many nodes outside included,
    /// the charge is bounded, and a pending navigation can be published within
    /// the bound.
    pub open spec fn covers(self, outside: nat) -> bool {
        &&& self.documents.dom().finite()
        &&& self.held_nodes() + outside <= self.retained_nodes <= self.max_nodes
        &&& self.pending matches Some(pending) ==> self.document_nodes()
            + pending.replacement.node_charge <= pending.retained_nodes_after <= self.max_nodes
    }

    /// What holds between any two operations.
    pub open spec fn inv(self) -> bool {
        self.covers(0)
    }

    /// With ledgers to be retired.
    pub open spec fn retiring(self, ledgers: Set<u64>) -> Self {
        ExecutorModel { retired: self.retired.union(ledgers), ..self }
    }

    /// With a document for a context, in place of any other.
    pub open spec fn with_document(self, context: u64, document: RetainedExecutorDocument) -> Self {
        ExecutorModel {
            documents: self.documents.insert(context, document),
            retired: if self.documents.contains_key(context) {
                self.retired.union(ledgers(self.documents[context].document))
            } else {
                self.retired
            },
            ..self
        }
    }

    /// With the document that a context had.
    pub open spec fn restored(
        self,
        context: TopLevelContextId,
        document: Option<RetainedExecutorDocument>,
    ) -> Self {
        match document {
            Some(document) => self.with_document(context.value(), document),
            None => self,
        }
    }

    /// Document of a context.
    pub open spec fn document(self, context: TopLevelContextId) -> Option<RetainedExecutorDocument> {
        if self.documents.contains_key(context.value()) {
            Some(self.documents[context.value()])
        } else {
            None
        }
    }

    /// Without the document of a context.
    pub open spec fn without_document(self, context: TopLevelContextId) -> Self {
        ExecutorModel { documents: self.documents.remove(context.value()), ..self }
    }

    /// With another engine state.
    pub open spec fn with_engine(self, engine: PageEngineModel) -> Self {
        ExecutorModel { engine: Some(engine), ..self }
    }

    /// With an engine that has no live document; the one that it had is
    /// discarded.
    pub open spec fn without_live(self) -> Self {
        match self.engine {
            Some(engine) => self.with_engine(engine.with_live(None)).retiring(
                match engine.live {
                    Some(live) => ledgers(live),
                    None => Set::empty(),
                },
            ),
            None => self,
        }
    }

    /// Retained nodes once a document of a context is replaced, if they are
    /// within the bound.
    pub open spec fn nodes_after(
        self,
        previous: Option<RetainedExecutorDocument>,
        node_charge: usize,
    ) -> Option<usize> {
        let after = self.retained_nodes - charge_of(previous) + node_charge;
        if charge_of(previous) > self.retained_nodes || after > self.max_nodes {
            None
        } else {
            Some(after as usize)
        }
    }

    /// After the document of a context is discarded, and any navigation that is
    /// pending there.
    pub open spec fn invalidated(self, context: TopLevelContextId) -> Self {
        let document = self.document(context);
        let pending_here = self.pending matches Some(pending) && pending.navigation.context_of()
            == context;
        ExecutorModel {
            documents: self.documents.remove(context.value()),
            retained_nodes: if charge_of(document) > self.retained_nodes {
                0
            } else {
                (self.retained_nodes - charge_of(document)) as usize
            },
            pending: if pending_here {
                None
            } else {
                self.pending
            },
            retired: self.retired.union(retained_ledgers(document)).union(
                if pending_here {
                    retained_ledgers(self.pending->0.previous).union(
                        ledgers(self.pending->0.replacement.document),
                    )
                } else {
                    Set::empty()
                },
            ),
            ..self
        }
    }

    /// After the worker published, or suppressed, the result of a navigation.
    pub open spec fn acknowledged(self, navigation: NavigationId, published: bool) -> Self {
        match self.pending {
            None => self,
            Some(pending) => {
                let settled = ExecutorModel { pending: None, ..self };
                let context = pending.navigation.context_of();
                if pending.navigation == navigation && published {
                    ExecutorModel {
                        retained_nodes: pending.retained_nodes_after,
                        ..settled.with_document(context.value(), pending.replacement)
                    }.retiring(retained_ledgers(pending.previous))
                } else {
                    settled.restored(context, pending.previous).retiring(
                        ledgers(pending.replacement.document),
                    )
                }
            },
        }
    }

    /// With a mutated document for a context, and so many more nodes.
    pub open spec fn retaining(
        self,
        context: TopLevelContextId,
        document: DetachedLiveDocument,
        node_charge: usize,
        created: nat,
    ) -> Self {
        ExecutorModel {
            documents: self.documents.insert(
                context.value(),
                RetainedExecutorDocument { document, node_charge: (node_charge + created) as usize },
            ),
            retained_nodes: (self.retained_nodes + created) as usize,
            ..self
        }
    }

    /// After everything is discarded.
    pub open spec fn shut_down(self) -> Self {
        ExecutorModel {
            engine: None,
            documents: Map::empty(),
            pending: None,
            retained_nodes: 0,
            retired: self.retired.union(all_ledgers(self.documents)).union(
                match self.pending {
                    Some(pending) => retained_ledgers(pending.previous).union(
                        ledgers(pending.replacement.document),
                    ),
                    None => Set::empty(),
                },
            ),
            ..self
        }
    }

    /// A navigation whose result is not published leaves every context with the
    /// document that it had; a published one replaces exactly its own.
    pub proof fn navigation_is_transactional(
        self,
        navigation: NavigationId,
        replacement: RetainedExecutorDocument,
        retained_nodes_after: usize,
        published: bool,
    )
        ensures
            ({
                let context = navigation.context_of();
                let previous = self.document(context);
                let pending = ExecutorModel {
                    pending: Some(
                        PendingNavigationDocument {
                            navigation,
                            previous,
                            replacement,
                            retained_nodes_after,
                        },
                    ),
                    ..self.without_document(context)
                };
                let settled = pending.acknowledged(navigation, published);
                if published {
                    &&& settled.documents == self.documents.insert(context.value(), replacement)
                    &&& settled.retained_nodes == retained_nodes_after
                } else {
                    &&& settled.documents == self.documents
                    &&& settled.retained_nodes == self.retained_nodes
                }
            }),
    {
        let context = navigation.context_of();
        let rest = self.documents.remove(context.value());
        assert(rest.insert(context.value(), replacement) =~= self.documents.insert(
            context.value(),
            replacement,
        ));
        if self.documents.contains_key(context.value()) {
            assert(rest.insert(context.value(), self.documents[context.value()])
                =~= self.documents);
        } else {
            assert(rest =~= self.documents);
        }
    }

    /// A context's document counts with the rest.
    pub proof fn nodes_split(self, context: TopLevelContextId)
        requires
            self.documents.dom().finite(),
        ensures
            self.document_nodes() == charge_of(self.document(context)) + self.without_document(
                context,
            ).document_nodes(),
            self.without_document(context).documents.dom().finite(),
    {
        let charge = |document: RetainedExecutorDocument| document.node_charge as nat;
        if self.documents.contains_key(context.value()) {
            crate::accounting::map_total_remove(self.documents, charge, context.value());
        } else {
            assert(self.documents.remove(context.value()) =~= self.documents);
        }
    }

    /// Retaining a document for a context counts it in place of any other.
    pub proof fn nodes_with(self, context: TopLevelContextId, document: RetainedExecutorDocument)
        requires
            self.documents.dom().finite(),
        ensures
            self.with_document(context.value(), document).document_nodes() + charge_of(
                self.document(context),
            ) == self.document_nodes() + document.node_charge,
            self.with_document(context.value(), document).documents.dom().finite(),
    {
        let charge = |document: RetainedExecutorDocument| document.node_charge as nat;
        crate::accounting::map_total_insert(self.documents, charge, context.value(), document);
    }

    /// Whether a mutated document with so many more nodes can be retained.
    pub open spec fn can_retain(
        self,
        context: TopLevelContextId,
        node_charge: usize,
        created: nat,
    ) -> bool {
        &&& node_charge + created <= usize::MAX
        &&& self.retained_nodes + created <= self.max_nodes
        &&& !self.documents.contains_key(context.value())
    }
}

/// Whether a commitment can be bound to a navigation.
pub open spec fn binds(
    commit: CommitModel,
    navigation: NavigationId,
    version: DocumentVersion,
    ledger: StyleDocumentLifecycle,
) -> bool {
    match commit.authority {
        crate::commit::NavigationResponseAuthority::Synthetic => true,
        crate::commit::NavigationResponseAuthority::FinalResponse(_) => false,
        crate::commit::NavigationResponseAuthority::CommittedDocument { document_version, .. } =>
            document_version == version && ledger.binding_error(navigation) is None,
    }
}

/// Ledger of a commitment once it is bound to a navigation.
pub open spec fn bound_ledger(
    commit: CommitModel,
    navigation: NavigationId,
    ledger: StyleDocumentLifecycle,
) -> StyleDocumentLifecycle {
    if commit.authority is CommittedDocument {
        StyleDocumentLifecycle { navigation: Some(navigation), ..ledger }
    } else {
        ledger
    }
}

/// The executor of the page pipeline.
pub struct StaticPipelineExecutor {
    engine: Option<StaticPageEngine>,
    network_capability: NavigationNetworkCapability,
    documents: BTreeMap<u64, RetainedExecutorDocument>,
    pending_navigation: Option<PendingNavigationDocument>,
    retained_document_nodes: usize,
    max_retained_document_nodes: usize,
    retired: BTreeSet<u64>,
}

/// State of an engine, if there is one.
pub open spec fn engine_state(engine: Option<StaticPageEngine>) -> Option<PageEngineModel> {
    match engine {
        Some(engine) => Some(engine@),
        None => None,
    }
}

impl View for StaticPipelineExecutor {
    type V = ExecutorModel;

    closed spec fn view(&self) -> ExecutorModel {
        ExecutorModel {
            engine: engine_state(self.engine),
            network_capability: self.network_capability,
            documents: self.documents@,
            pending: self.pending_navigation,
            retained_nodes: self.retained_document_nodes,
            max_nodes: self.max_retained_document_nodes,
            retired: self.retired@,
        }
    }
}

impl StaticPipelineExecutor {
    /// An executor with the given output mode and transport.
    pub fn new(
        config: StaticPageConfig,
        limits: EngineLimits,
        output: PipelineRenderer,
        network_capability: NavigationNetworkCapability,
    ) -> (result: Result<Self, ExecutionFailure>)
        ensures
            if viewport_too_large(config, limits@.max_frame_bytes) {
                result == Err::<Self, _>(
                    ExecutionFailure::of(
                        ExecutionFailureKind::ResourceLimit,
                        NavigationStage::Render,
                    ),
                )
            } else if config.error() is Some {
                result == Err::<Self, _>(crate::pipeline_error::reported(config.error()->0))
            } else {
                &&& result matches Ok(executor)
                &&& executor@ == (ExecutorModel {
                    engine: Some(
                        crate::page_engine::fresh_engine(
                            config,
                            output,
                            match network_capability {
                                NavigationNetworkCapability::NumericLoopback =>
                                    PageTransportKind::NumericLoopback,
                                NavigationNetworkCapability::GeneralWeb =>
                                    PageTransportKind::GeneralWeb,
                            },
                        ),
                    ),
                    network_capability,
                    documents: Map::empty(),
                    pending: None,
                    retained_nodes: 0,
                    max_nodes: limits@.max_retained_document_nodes,
                    retired: Set::empty(),
                })
                &&& executor@.inv()
            },
    {
        match validate_frame_limit(config, limits) {
            Ok(()) => {},
            Err(failure) => return Err(failure),
        }
        let created = match (output, network_capability) {
            (PipelineRenderer::Headless, NavigationNetworkCapability::NumericLoopback) => {
                StaticPageEngine::new(config)
            },
            (PipelineRenderer::Headless, NavigationNetworkCapability::GeneralWeb) => {
                StaticPageEngine::new_general_web(config)
            },
            (PipelineRenderer::PresentationOnly, NavigationNetworkCapability::NumericLoopback) => {
                StaticPageEngine::new_for_presentation(config)
            },
            (PipelineRenderer::PresentationOnly, NavigationNetworkCapability::GeneralWeb) => {
                StaticPageEngine::new_general_web_for_presentation(config)
            },
        };
        match created {
            Ok(engine) => {
                let executor = StaticPipelineExecutor {
                    engine: Some(engine),
                    network_capability,
                    documents: BTreeMap::new(),
                    pending_navigation: None,
                    retained_document_nodes: 0,
                    max_retained_document_nodes: limits.max_retained_document_nodes(),
                    retired: BTreeSet::new(),
                };
                assert(executor@.documents =~= Map::empty());
                assert(executor@.retired =~= Set::empty());
                Ok(executor)
            },
            Err(error) => Err(map_pipeline_error(&error)),
        }
    }

    /// Notes that the ledger of a discarded document is to be retired.
    fn discard(&mut self, document: DetachedLiveDocument)
        ensures
            final(self)@ == old(self)@.retiring(ledgers(document)),
    {
        if let Some(ledger) = document.style_owner {
            set_insert(&mut self.retired, ledger);
            assert(self@.retired =~= old(self)@.retired.union(ledgers(document)));
        } else {
            assert(self@.retired =~= old(self)@.retired.union(ledgers(document)));
        }
    }

    /// Notes that the ledger of a discarded document, if there is one, is to be
    /// retired.
    fn discard_retained(&mut self, document: Option<RetainedExecutorDocument>)
        ensures
            final(self)@ == old(self)@.retiring(retained_ledgers(document)),
    {
        match document {
            Some(document) => self.discard(document.document),
            None => {
                assert(self@.retired =~= old(self)@.retired.union(Set::empty()));
            },
        }
    }

    /// Retains a document for a context, in place of any other.
    fn put_document(&mut self, context: TopLevelContextId, document: RetainedExecutorDocument)
        ensures
            final(self)@ == old(self)@.with_document(context.value(), document),
    {
        let replaced = map_insert(&mut self.documents, context.get(), document);
        if let Some(replaced) = replaced {
            self.discard(replaced.document);
        }
    }

    /// Puts the document that a context had back.
    fn restore_document(
        &mut self,
        context: TopLevelContextId,
        document: Option<RetainedExecutorDocument>,
    )
        ensures
            final(self)@ == old(self)@.restored(context, document),
    {
        if let Some(document) = document {
            self.put_document(context, document);
        }
    }

    /// Takes the live document out of the engine, if there is an engine.
    fn take_live(&mut self) -> (taken: Option<Option<DetachedLiveDocument>>)
        ensures
            match old(self)@.engine {
                Some(engine) => {
                    &&& taken == Some(engine.live)
                    &&& final(self)@ == old(self)@.with_engine(engine.with_live(None))
                },
                None => taken is None && final(self)@ == old(self)@,
            },
    {
        let mut engine: Option<StaticPageEngine> = None;
        std::mem::swap(&mut engine, &mut self.engine);
        match engine {
            Some(mut engine) => {
                let live = engine.replace_live_document(None);
                self.engine = Some(engine);
                Some(live)
            },
            None => None,
        }
    }

    /// Makes a document the engine's live one, if there is an engine.
    fn put_live(&mut self, document: DetachedLiveDocument) -> (replaced: Option<
        Option<DetachedLiveDocument>,
    >)
        ensures
            match old(self)@.engine {
                Some(engine) => {
                    &&& replaced == Some(engine.live)
                    &&& final(self)@ == old(self)@.with_engine(engine.with_live(Some(document)))
                },
                None => replaced is None && final(self)@ == old(self)@,
            },
    {
        let mut engine: Option<StaticPageEngine> = None;
        std::mem::swap(&mut engine, &mut self.engine);
        match engine {
            Some(mut engine) => {
                let live = engine.replace_live_document(Some(document));
                self.engine = Some(engine);
                Some(live)
            },
            None => None,
        }
    }

    /// The engine, for a stage of its own work; it is put back with
    /// `return_engine`.
    pub fn lend_engine(&mut self) -> (engine: Option<StaticPageEngine>)
        ensures
            engine_state(engine) == old(self)@.engine,
            final(self)@ == (ExecutorModel { engine: None, ..old(self)@ }),
    {
        let mut engine: Option<StaticPageEngine> = None;
        std::mem::swap(&mut engine, &mut self.engine);
        engine
    }

    /// Puts the engine back.
    pub fn return_engine(&mut self, engine: StaticPageEngine)
        ensures
            final(self)@ == old(self)@.with_engine(engine@),
    {
        self.engine = Some(engine);
    }

    /// Hands out the ledgers of discarded documents, to be retired.
    pub fn take_retired(&mut self) -> (retired: BTreeSet<u64>)
        ensures
            retired@ == old(self)@.retired,
            final(self)@ == (ExecutorModel { retired: Set::empty(), ..old(self)@ }),
    {
        let mut retired: BTreeSet<u64> = BTreeSet::new();
        std::mem::swap(&mut retired, &mut self.retired);
        assert(self@.retired =~= Set::empty());
        retired
    }

    /// Whether the engine's renderer cannot go on. `headless_usable` is what the
    /// headless renderer says of itself.
    pub fn renderer_unusable(&self, headless_usable: bool) -> (unusable: bool)
        ensures
            unusable == (self@.engine matches Some(engine) && !engine.usable(headless_usable)),
    {
        match &self.engine {
            Some(engine) => !engine.renderer_is_usable(headless_usable),
            None => false,
        }
    }

    /// Begins a navigation: sets the document of its context aside, and leaves
    /// the engine without a live document.
    pub fn begin_execute(
        &mut self,
        navigation: NavigationId,
        network_capability: NavigationNetworkCapability,
    ) -> (result: Result<NavigationLoad, ExecutionFailure>)
        ensures
            ({
                let before = old(self)@;
                let context = navigation.context_of();
                let previous = before.document(context);
                if network_capability != before.network_capability {
                    &&& result == Err::<NavigationLoad, _>(
                        ExecutionFailure::of(ExecutionFailureKind::Rejected, NavigationStage::Fetch),
                    )
                    &&& final(self)@ == before
                } else if before.pending is Some {
                    &&& result == Err::<NavigationLoad, _>(
                        ExecutionFailure::of(
                            ExecutionFailureKind::Internal,
                            NavigationStage::Document,
                        ),
                    )
                    &&& final(self)@ == before
                } else if before.engine is None {
                    &&& result == Err::<NavigationLoad, _>(
                        ExecutionFailure::of(ExecutionFailureKind::Internal, NavigationStage::Render),
                    )
                    &&& final(self)@ == before.without_document(context).retiring(
                        retained_ledgers(previous),
                    )
                } else if before.engine->0.live is Some {
                    &&& result == Err::<NavigationLoad, _>(
                        ExecutionFailure::of(
                            ExecutionFailureKind::Internal,
                            NavigationStage::Document,
                        ),
                    )
                    &&& final(self)@ == before.without_document(context).without_live().restored(
                        context,
                        previous,
                    )
                } else {
                    &&& result matches Ok(load)
                    &&& load.navigation_of() == navigation
                    &&& load.previous_of() == previous
                    &&& final(self)@ == before.without_document(context)
                }
            }),
            old(self)@.inv() ==> match result {
                Ok(load) => final(self)@.covers(charge_of(load.previous_of())),
                Err(_) => final(self)@.inv(),
            },
    {
        if network_capability != self.network_capability {
            return Err(
                ExecutionFailure::new(ExecutionFailureKind::Rejected, NavigationStage::Fetch),
            );
        }
        if self.pending_navigation.is_some() {
            return Err(
                ExecutionFailure::new(ExecutionFailureKind::Internal, NavigationStage::Document),
            );
        }
        let context = navigation.context();
        proof {
            if self@.inv() {
                self@.nodes_split(context);
            }
        }
        let previous = map_remove(&mut self.documents, context.get());
        let ghost removed = self@;
        match self.take_live() {
            None => {
                self.discard_retained(previous);
                Err(ExecutionFailure::new(ExecutionFailureKind::Internal, NavigationStage::Render))
            },
            Some(Some(live)) => {
                self.discard(live);
                proof {
                    if old(self)@.inv() && previous is Some {
                        self@.nodes_with(context, previous->0);
                    }
                }
                self.restore_document(context, previous);
                Err(ExecutionFailure::new(ExecutionFailureKind::Internal, NavigationStage::Document))
            },
            Some(None) => {
                assert(self@ == removed);
                Ok(NavigationLoad { navigation, previous })
            },
        }
    }

    /// Finishes a navigation with what loading its page came to. A loaded page
    /// waits for the worker to publish it; otherwise the context gets back the
    /// document that it had. `ledger` is the ledger of the loaded document.
    pub fn finish_execute(
        &mut self,
        load: NavigationLoad,
        loaded: Result<LoadedNavigation, PipelineError>,
        headless_usable: bool,
        ledger: &mut StyleDocumentLifecycle,
    ) -> (result: Result<ExecutorOutput, ExecutionFailure>)
        requires
            old(self)@.pending is None,
        ensures
            ({
                let before = old(self)@;
                let navigation = load.navigation_of();
                let context = navigation.context_of();
                let previous = load.previous_of();
                match loaded {
                    Err(error) => {
                        &&& result == Err::<ExecutorOutput, _>(
                            ExecutionFailure {
                                renderer_unusable: before.engine matches Some(engine)
                                    && !engine.usable(headless_usable),
                                ..crate::pipeline_error::reported(error)
                            },
                        )
                        &&& final(self)@ == before.restored(context, previous)
                        &&& *final(ledger) == *old(ledger)
                    },
                    Ok(page) => {
                        let commit = page.navigation_commit@;
                        let version = page.document_version;
                        let nodes = before.nodes_after(previous, page.node_charge);
                        let shown = page.frame.metadata_of().document_version == Some(version);
                        let success = 200 <= page.http_status <= 299;
                        if !binds(commit, navigation, version, *old(ledger)) {
                            &&& result == Err::<ExecutorOutput, _>(
                                ExecutionFailure::of(
                                    ExecutionFailureKind::Internal,
                                    NavigationStage::Document,
                                ),
                            )
                            &&& final(self)@ == before.without_live().restored(context, previous)
                            &&& *final(ledger) == *old(ledger)
                        } else {
                            &&& *final(ledger) == bound_ledger(commit, navigation, *old(ledger))
                            &&& if before.engine is None {
                                &&& result == Err::<ExecutorOutput, _>(
                                    ExecutionFailure::of(
                                        ExecutionFailureKind::Internal,
                                        NavigationStage::Render,
                                    ),
                                )
                                &&& final(self)@ == before.retiring(retained_ledgers(previous))
                            } else if before.engine->0.live is None {
                                &&& result == Err::<ExecutorOutput, _>(
                                    ExecutionFailure::of(
                                        ExecutionFailureKind::Internal,
                                        NavigationStage::Document,
                                    ),
                                )
                                &&& final(self)@ == before.restored(context, previous)
                            } else if nodes is None || !shown || !success {
                                &&& result == Err::<ExecutorOutput, _>(
                                    if nodes is None {
                                        ExecutionFailure::of(
                                            ExecutionFailureKind::ResourceLimit,
                                            NavigationStage::Document,
                                        )
                                    } else if !shown {
                                        ExecutionFailure::of(
                                            ExecutionFailureKind::Internal,
                                            NavigationStage::Document,
                                        )
                                    } else {
                                        ExecutionFailure::of(
                                            ExecutionFailureKind::Rejected,
                                            NavigationStage::Fetch,
                                        )
                                    },
                                )
                                &&& final(self)@ == before.without_live().restored(
                                    context,
                                    previous,
                                )
                            } else {
                                &&& result == Ok::<_, ExecutionFailure>(
                                    ExecutorOutput {
                                        http_status: page.http_status,
                                        frame: page.frame,
                                        document_node_charge: Some(page.node_charge),
                                        navigation_commit: Some(page.navigation_commit),
                                    },
                                )
                                &&& final(self)@ == (ExecutorModel {
                                    pending: Some(
                                        PendingNavigationDocument {
                                            navigation,
                                            previous,
                                            replacement: RetainedExecutorDocument {
                                                document: before.engine->0.live->0,
                                                node_charge: page.node_charge,
                                            },
                                            retained_nodes_after: nodes->0,
                                        },
                                    ),
                                    ..before.with_engine(before.engine->0.with_live(None))
                                })
                            }
                        }
                    },
                }
            }),
            old(self)@.covers(charge_of(load.previous_of())) ==> final(self)@.inv(),
    {
        let context = load.navigation.context();
        let navigation = load.navigation;
        let previous = load.previous;
        proof {
            if self@.documents.dom().finite() && previous is Some {
                self@.nodes_with(context, previous->0);
                self@.without_live().nodes_with(context, previous->0);
            }
        }
        let page = match loaded {
            Ok(page) => page,
            Err(error) => {
                let mut failure = map_pipeline_error(&error);
                if self.renderer_unusable(headless_usable) {
                    failure = failure.mark_renderer_unusable();
                }
                self.restore_document(context, previous);
                return Err(failure);
            },
        };
        let document_version = page.document_version;
        let node_charge: usize = page.node_charge;
        match page.navigation_commit.bind_navigation(navigation, document_version, ledger) {
            Ok(()) => {},
            Err(_) => {
                if let Some(Some(live)) = self.take_live() {
                    self.discard(live);
                }
                assert(self@.retired =~= old(self)@.without_live().retired);
                self.restore_document(context, previous);
                return Err(
                    ExecutionFailure::new(
                        ExecutionFailureKind::Internal,
                        NavigationStage::Document,
                    ),
                );
            },
        }
        let document = match self.take_live() {
            Some(Some(document)) => document,
            Some(None) => {
                assert(self@ == old(self)@);
                self.restore_document(context, previous);
                return Err(
                    ExecutionFailure::new(
                        ExecutionFailureKind::Internal,
                        NavigationStage::Document,
                    ),
                );
            },
            None => {
                self.discard_retained(previous);
                return Err(
                    ExecutionFailure::new(ExecutionFailureKind::Internal, NavigationStage::Render),
                );
            },
        };
        let old_charge: usize = match &previous {
            Some(previous) => previous.node_charge,
            None => 0,
        };
        let retained_nodes_after: Option<usize> = match self.retained_document_nodes.checked_sub(
            old_charge,
        ) {
            Some(retained) => match retained.checked_add(node_charge) {
                Some(after) => {
                    if after <= self.max_retained_document_nodes {
                        Some(after)
                    } else {
                        None
                    }
                },
                None => None,
            },
            None => None,
        };
        let retained_nodes_after: usize = match retained_nodes_after {
            Some(after) => after,
            None => {
                self.discard(document);
                self.restore_document(context, previous);
                return Err(
                    ExecutionFailure::new(
                        ExecutionFailureKind::ResourceLimit,
                        NavigationStage::Document,
                    ),
                );
            },
        };
        let output = match ExecutorOutput::new_document(
            page.http_status,
            page.frame,
            DocumentLoadProof::from_snapshot(document_version, node_charge),
        ) {
            Ok(output) => output.with_navigation_commit(page.navigation_commit),
            Err(failure) => {
                self.discard(document);
                self.restore_document(context, previous);
                return Err(failure);
            },
        };
        self.pending_navigation = Some(
            PendingNavigationDocument {
                navigation,
                previous,
                replacement: RetainedExecutorDocument { document, node_charge },
                retained_nodes_after,
            },
        );
        Ok(output)
    }

    /// Begins work on the document of a context: makes it the engine's live one.
    /// Where that fails, tells why, as a mutation or a rerender reports it.
    pub fn activate_document(&mut self, navigation: NavigationId) -> (result: Result<
        ActivatedDocument,
        DocumentOperationFailure,
    >)
        ensures
            ({
                let before = old(self)@;
                let context = navigation.context_of();
                let document = before.document(context);
                if document is None {
                    &&& result == Err::<ActivatedDocument, _>(
                        DocumentOperationFailure::NoLiveDocument,
                    )
                    &&& final(self)@ == before
                } else if before.engine is None {
                    &&& result == Err::<ActivatedDocument, _>(DocumentOperationFailure::Internal)
                    &&& final(self)@ == before
                } else {
                    let engine = before.engine->0;
                    let active = before.without_document(context).with_engine(
                        engine.with_live(Some(document->0.document)),
                    );
                    if engine.live is Some {
                        &&& result == Err::<ActivatedDocument, _>(
                            DocumentOperationFailure::Internal,
                        )
                        &&& final(self)@ == active.retiring(ledgers(engine.live->0))
                    } else {
                        &&& result matches Ok(activated)
                        &&& activated.context_of() == context
                        &&& activated.charge() == document->0.node_charge
                        &&& final(self)@ == active
                    }
                }
            }),
            old(self)@.inv() ==> match result {
                Ok(activated) => final(self)@.covers(activated.charge() as nat),
                Err(_) => final(self)@.inv(),
            },
    {
        let context = navigation.context();
        proof {
            if self@.inv() {
                self@.nodes_split(context);
            }
        }
        let retained = match map_remove(&mut self.documents, context.get()) {
            Some(retained) => retained,
            None => {
                assert(self@.documents =~= old(self)@.documents);
                return Err(DocumentOperationFailure::NoLiveDocument);
            },
        };
        let node_charge: usize = retained.node_charge;
        if self.engine.is_none() {
            self.put_document(context, retained);
            assert(self@.documents =~= old(self)@.documents);
            return Err(DocumentOperationFailure::Internal);
        }
        match self.put_live(retained.document) {
            Some(Some(live)) => {
                self.discard(live);
                Err(DocumentOperationFailure::Internal)
            },
            _ => Ok(ActivatedDocument { context, node_charge }),
        }
    }

    /// Retains a document whose batch the DOM committed, if its new nodes are
    /// within the bound; otherwise the document is discarded.
    fn retain_committed_document(
        &mut self,
        context: TopLevelContextId,
        document: DetachedLiveDocument,
        previous_node_charge: usize,
        created_nodes: usize,
    ) -> (retained: bool)
        ensures
            retained == old(self)@.can_retain(context, previous_node_charge, created_nodes as nat),
            final(self)@ == if retained {
                old(self)@.retaining(context, document, previous_node_charge, created_nodes as nat)
            } else {
                old(self)@.retiring(ledgers(document))
            },
            old(self)@.pending is None && old(self)@.covers(previous_node_charge as nat)
                ==> final(self)@.inv(),
    {
        let node_charge: usize = match previous_node_charge.checked_add(created_nodes) {
            Some(charge) => charge,
            None => {
                self.discard(document);
                return false;
            },
        };
        let retained_document_nodes: usize = match self.retained_document_nodes.checked_add(
            created_nodes,
        ) {
            Some(total) => {
                if total > self.max_retained_document_nodes {
                    self.discard(document);
                    return false;
                }
                total
            },
            None => {
                self.discard(document);
                return false;
            },
        };
        if map_contains(&self.documents, context.get()) {
            self.discard(document);
            return false;
        }
        proof {
            if self@.documents.dom().finite() {
                self@.nodes_with(context, RetainedExecutorDocument { document, node_charge });
            }
        }
        self.put_document(context, RetainedExecutorDocument { document, node_charge });
        self.retained_document_nodes = retained_document_nodes;
        true
    }

    /// Finishes a mutation with what applying its batch came to. The document
    /// goes back to its context, unless nothing valid can be said of it.
    pub fn finish_mutation(
        &mut self,
        activated: ActivatedDocument,
        outcome: Result<RenderedNavigationUpdate, DocumentUpdateError>,
        headless_usable: bool,
    ) -> (result: ExecutorDocumentMutation)
        requires
            old(self)@.engine is Some,
            old(self)@.engine->0.live is Some,
        ensures
            ({
                let engine = old(self)@.engine->0;
                let document = engine.live->0;
                let context = activated.context_of();
                let charge = activated.charge();
                let empty = old(self)@.with_engine(engine.with_live(None));
                match outcome {
                    Ok(update) => {
                        let version = update.evidence.document_version;
                        let created = update.commit.created_nodes@.len();
                        if frame_error(update.frame, version) is Some || !empty.can_retain(
                            context,
                            charge,
                            created,
                        ) {
                            &&& result is Invalidated
                            &&& final(self)@ == empty.retiring(ledgers(document))
                        } else {
                            &&& result matches ExecutorDocumentMutation::Rendered {
                                previous_live_version,
                                previous_frame_version,
                                commit,
                                frame,
                            }
                            &&& previous_live_version == update.previous_live_version
                            &&& previous_frame_version
                                == update.previous_last_returned_frame_version
                            &&& commit == update.commit
                            &&& frame_shows(frame, update.frame, version)
                            &&& final(self)@ == empty.retaining(context, document, charge, created)
                        }
                    },
                    Err(
                        DocumentUpdateError::Committed {
                            previous_live_version,
                            last_returned_frame_version,
                            commit,
                            source,
                        },
                    ) => {
                        let created = commit.created_nodes@.len();
                        if !empty.can_retain(context, charge, created) {
                            &&& result is Invalidated
                            &&& final(self)@ == empty.retiring(ledgers(document))
                        } else {
                            &&& result == (ExecutorDocumentMutation::CommittedWithoutFrame {
                                previous_live_version,
                                frame_version: last_returned_frame_version,
                                commit,
                                failure: if !engine.usable(headless_usable) {
                                    DocumentOperationFailure::RendererUnavailable
                                } else {
                                    crate::pipeline_error::operation_failure(source)
                                },
                            })
                            &&& final(self)@ == empty.retaining(context, document, charge, created)
                        }
                    },
                    Err(
                        DocumentUpdateError::Rejected {
                            live_version,
                            last_returned_frame_version,
                            reason,
                        },
                    ) => {
                        &&& result == (ExecutorDocumentMutation::Rejected {
                            live_version,
                            frame_version: last_returned_frame_version,
                            failure: crate::dynamic::rejection_failure(reason),
                        })
                        &&& final(self)@ == empty.with_document(
                            context.value(),
                            RetainedExecutorDocument { document, node_charge: charge },
                        )
                    },
                }
            }),
            old(self)@.pending is None && old(self)@.covers(activated.charge() as nat)
                ==> final(self)@.inv(),
    {
        let context = activated.context;
        let node_charge: usize = activated.node_charge;
        let renderer_unusable: bool = self.renderer_unusable(headless_usable);
        let document = match self.take_live() {
            Some(Some(document)) => document,
            _ => return ExecutorDocumentMutation::Invalidated,
        };
        match outcome {
            Ok(update) => {
                let version = update.evidence.document_version;
                let commit = update.commit;
                let frame = match publishable_frame(update.frame, version) {
                    Ok(frame) => frame,
                    Err(_) => {
                        self.discard(document);
                        return ExecutorDocumentMutation::Invalidated;
                    },
                };
                if !self.retain_committed_document(
                    context,
                    document,
                    node_charge,
                    commit.created_nodes.len(),
                ) {
                    return ExecutorDocumentMutation::Invalidated;
                }
                ExecutorDocumentMutation::Rendered {
                    previous_live_version: update.previous_live_version,
                    previous_frame_version: update.previous_last_returned_frame_version,
                    commit,
                    frame,
                }
            },
            Err(
                DocumentUpdateError::Committed {
                    previous_live_version,
                    last_returned_frame_version,
                    commit,
                    source,
                },
            ) => {
                if !self.retain_committed_document(
                    context,
                    document,
                    node_charge,
                    commit.created_nodes.len(),
                ) {
                    return ExecutorDocumentMutation::Invalidated;
                }
                let failure = if renderer_unusable {
                    DocumentOperationFailure::RendererUnavailable
                } else {
                    map_document_pipeline_error(&source)
                };
                ExecutorDocumentMutation::CommittedWithoutFrame {
                    previous_live_version,
                    frame_version: last_returned_frame_version,
                    commit,
                    failure,
                }
            },
            Err(
                DocumentUpdateError::Rejected { live_version, last_returned_frame_version, reason },
            ) => {
                proof {
                    if self@.documents.dom().finite() {
                        self@.nodes_with(
                            context,
                            RetainedExecutorDocument { document, node_charge },
                        );
                    }
                }
                self.put_document(context, RetainedExecutorDocument { document, node_charge });
                ExecutorDocumentMutation::Rejected {
                    live_version,
                    frame_version: last_returned_frame_version,
                    failure: map_document_rejection(&reason),
                }
            },
        }
    }

    /// Finishes a rerender with what it came to. The document goes back to its
    /// context, unless nothing valid can be said of it.
    pub fn finish_rerender(
        &mut self,
        activated: ActivatedDocument,
        outcome: Result<RenderedNavigationRerender, DocumentUpdateError>,
        headless_usable: bool,
    ) -> (result: ExecutorDocumentRerender)
        requires
            old(self)@.engine is Some,
            old(self)@.engine->0.live is Some,
        ensures
            ({
                let engine = old(self)@.engine->0;
                let context = activated.context_of();
                let kept = old(self)@.with_engine(engine.with_live(None)).with_document(
                    context.value(),
                    RetainedExecutorDocument {
                        document: engine.live->0,
                        node_charge: activated.charge(),
                    },
                );
                match outcome {
                    Ok(rendered) => {
                        let version = rendered.evidence.document_version;
                        if frame_error(rendered.frame, version) is Some {
                            &&& result is Invalidated
                            &&& final(self)@ == kept.invalidated(context)
                        } else {
                            &&& result matches ExecutorDocumentRerender::Rendered {
                                live_version,
                                previous_frame_version,
                                frame,
                            }
                            &&& live_version == version
                            &&& previous_frame_version
                                == rendered.previous_last_returned_frame_version
                            &&& frame_shows(frame, rendered.frame, version)
                            &&& final(self)@ == kept
                        }
                    },
                    Err(
                        DocumentUpdateError::Rejected {
                            live_version,
                            last_returned_frame_version,
                            reason,
                        },
                    ) => {
                        &&& result == (ExecutorDocumentRerender::Rejected {
                            live_version,
                            frame_version: last_returned_frame_version,
                            failure: if !engine.usable(headless_usable) {
                                DocumentOperationFailure::RendererUnavailable
                            } else {
                                crate::dynamic::rejection_failure(reason)
                            },
                        })
                        &&& final(self)@ == kept
                    },
                    Err(DocumentUpdateError::Committed { .. }) => {
                        &&& result is Invalidated
                        &&& final(self)@ == kept.invalidated(context)
                    },
                }
            }),
            old(self)@.pending is None && old(self)@.covers(activated.charge() as nat)
                ==> final(self)@.inv(),
    {
        let context = activated.context;
        let node_charge: usize = activated.node_charge;
        let renderer_unusable: bool = self.renderer_unusable(headless_usable);
        let document = match self.take_live() {
            Some(Some(document)) => document,
            _ => return ExecutorDocumentRerender::Invalidated,
        };
        proof {
            if self@.documents.dom().finite() {
                self@.nodes_with(context, RetainedExecutorDocument { document, node_charge });
            }
        }
        self.put_document(context, RetainedExecutorDocument { document, node_charge });
        match outcome {
            Ok(rendered) => {
                let live_version = rendered.evidence.document_version;
                match publishable_frame(rendered.frame, live_version) {
                    Ok(frame) => ExecutorDocumentRerender::Rendered {
                        live_version,
                        previous_frame_version: rendered.previous_last_returned_frame_version,
                        frame,
                    },
                    Err(_) => {
                        self.invalidate_document(context);
                        ExecutorDocumentRerender::Invalidated
                    },
                }
            },
            Err(
                DocumentUpdateError::Rejected { live_version, last_returned_frame_version, reason },
            ) => {
                let failure = if renderer_unusable {
                    DocumentOperationFailure::RendererUnavailable
                } else {
                    map_document_rejection(&reason)
                };
                ExecutorDocumentRerender::Rejected {
                    live_version,
                    frame_version: last_returned_frame_version,
                    failure,
                }
            },
            Err(DocumentUpdateError::Committed { .. }) => {
                self.invalidate_document(context);
                ExecutorDocumentRerender::Invalidated
            },
        }
    }

    /// Settles the pending navigation once the worker published or suppressed
    /// its result.
    pub fn acknowledge_navigation_publication(&mut self, navigation: NavigationId, published: bool)
        ensures
            final(self)@ == old(self)@.acknowledged(navigation, published),
            old(self)@.inv() ==> final(self)@.inv(),
    {
        let mut taken: Option<PendingNavigationDocument> = None;
        std::mem::swap(&mut taken, &mut self.pending_navigation);
        let pending = match taken {
            Some(pending) => pending,
            None => return ,
        };
        let context = pending.navigation.context();
        proof {
            if self@.documents.dom().finite() {
                self@.nodes_with(context, pending.replacement);
                if pending.previous is Some {
                    self@.nodes_with(context, pending.previous->0);
                }
            }
        }
        if pending.navigation == navigation && published {
            self.retained_document_nodes = pending.retained_nodes_after;
            self.put_document(context, pending.replacement);
            self.discard_retained(pending.previous);
        } else {
            self.restore_document(context, pending.previous);
            self.discard(pending.replacement.document);
        }
    }

    /// Discards the document of a context, and any navigation that is pending
    /// there.
    pub fn invalidate_document(&mut self, context: TopLevelContextId)
        ensures
            final(self)@ == old(self)@.invalidated(context),
            old(self)@.inv() ==> final(self)@.inv(),
    {
        proof {
            if self@.documents.dom().finite() {
                self@.nodes_split(context);
            }
        }
        if let Some(document) = map_remove(&mut self.documents, context.get()) {
            self.retained_document_nodes = match self.retained_document_nodes.checked_sub(
                document.node_charge,
            ) {
                Some(retained) => retained,
                None => 0,
            };
            self.discard(document.document);
        }
        let ghost removed = self@;
        assert(removed.retired =~= old(self)@.retired.union(
            retained_ledgers(old(self)@.document(context)),
        ));
        let pending_here: bool = match &self.pending_navigation {
            Some(pending) => pending.navigation.context() == context,
            None => false,
        };
        if pending_here {
            let mut taken: Option<PendingNavigationDocument> = None;
            std::mem::swap(&mut taken, &mut self.pending_navigation);
            if let Some(pending) = taken {
                self.discard_retained(pending.previous);
                self.discard(pending.replacement.document);
            }
        }
        assert(self@.retired =~= old(self)@.invalidated(context).retired);
    }

    /// Releases the document of a closed context.
    pub fn close_context(&mut self, context: TopLevelContextId)
        ensures
            final(self)@ == old(self)@.invalidated(context),
            old(self)@.inv() ==> final(self)@.inv(),
    {
        self.invalidate_document(context);
    }

    /// Discards everything, and hands the engine out for its own shutdown.
    pub fn shutdown(&mut self) -> (engine: Option<StaticPageEngine>)
        ensures
            engine_state(engine) == old(self)@.engine,
            final(self)@ == old(self)@.shut_down(),
            final(self)@.inv(),
    {
        let mut taken: Option<PendingNavigationDocument> = None;
        std::mem::swap(&mut taken, &mut self.pending_navigation);
        if let Some(pending) = taken {
            self.discard_retained(pending.previous);
            self.discard(pending.replacement.document);
        }
        let ghost settled = self@;
        let ghost documents = old(self)@.documents;
        let keys: Vec<u64> = map_keys(&self.documents);
        let mut at: usize = 0;
        assert(keys@.take(0) =~= Seq::<u64>::empty());
        while at < keys.len()
            invariant
                at <= keys@.len(),
                keys@.no_duplicates(),
                keys@.to_set() == documents.dom(),
                settled.documents == documents,
                self@ == (ExecutorModel {
                    documents: self@.documents,
                    retired: self@.retired,
                    ..settled
                }),
                forall|key: u64|
                    #![trigger self@.documents.contains_key(key)]
                    self@.documents.contains_key(key) <==> documents.contains_key(key)
                        && !keys@.take(at as int).contains(key),
                forall|key: u64|
                    #![trigger self@.documents[key]]
                    self@.documents.contains_key(key) ==> self@.documents[key] == documents[key],
                forall|ledger: u64|
                    #![trigger self@.retired.contains(ledger)]
                    self@.retired.contains(ledger) <==> settled.retired.contains(ledger) || owned_by(
                        documents,
                        keys@.take(at as int),
                        ledger,
                    ),
            decreases keys@.len() - at,
        {
            let key: u64 = keys[at];
            let ghost before = self@;
            let ghost seen = keys@.take(at as int);
            let ghost next = keys@.take(at + 1);
            assert(next =~= seen.push(key));
            assert(documents.dom().contains(key)) by {
                assert(keys@.to_set().contains(key));
            }
            assert(!seen.contains(key));
            let removed = map_remove(&mut self.documents, key);
            self.discard_retained(removed);
            proof {
                assert forall|other: u64| #[trigger] self@.documents.contains_key(other) implies
                    documents.contains_key(other) && !next.contains(other) by {
                    assert(before.documents.contains_key(other));
                    if next.contains(other) {
                        let i = choose|i: int| 0 <= i < next.len() && next[i] == other;
                        if i < seen.len() {
                            assert(seen[i] == other);
                        }
                    }
                }
                assert forall|other: u64|
                    documents.contains_key(other) && !next.contains(other) implies #[trigger]
                self@.documents.contains_key(other) by {
                    if seen.contains(other) {
                        let i = choose|i: int| 0 <= i < seen.len() && seen[i] == other;
                        assert(next[i] == other);
                    }
                    assert(before.documents.contains_key(other));
                    assert(next[seen.len() as int] == key);
                }
                assert forall|ledger: u64| #[trigger] self@.retired.contains(ledger) implies
                    settled.retired.contains(ledger) || owned_by(documents, next, ledger) by {
                    if !before.retired.contains(ledger) {
                        assert(next[seen.len() as int] == key);
                        assert(documents[key].document.style_owner == Some(ledger));
                    } else if !settled.retired.contains(ledger) {
                        let i = choose|i: int|
                            0 <= i < seen.len()
                                && (#[trigger] documents[seen[i]]).document.style_owner == Some(
                                ledger,
                            );
                        assert(next[i] == seen[i]);
                    }
                }
                assert forall|ledger: u64|
                    settled.retired.contains(ledger) || owned_by(
                        documents,
                        next,
                        ledger,
                    ) implies #[trigger] self@.retired.contains(ledger) by {
                    if settled.retired.contains(ledger) {
                        assert(before.retired.contains(ledger));
                    } else {
                        let i = choose|i: int|
                            0 <= i < next.len()
                                && (#[trigger] documents[next[i]]).document.style_owner == Some(
                                ledger,
                            );
                        if i < seen.len() {
                            assert(seen[i] == next[i]);
                            assert(owned_by(documents, seen, ledger));
                            assert(before.retired.contains(ledger));
                        }
                    }
                }
            }
            at += 1;
        }
        proof {
            assert(keys@.take(at as int) =~= keys@);
            assert forall|key: u64| !self@.documents.contains_key(key) by {
                if documents.contains_key(key) {
                    assert(keys@.to_set().contains(key));
                }
            }
            assert(self@.documents =~= Map::empty());
            assert forall|ledger: u64| owned_by(documents, keys@, ledger) implies all_ledgers(
                documents,
            ).contains(ledger) by {
                let i = choose|i: int|
                    0 <= i < keys@.len() && (#[trigger] documents[keys@[i]]).document.style_owner
                        == Some(ledger);
                assert(keys@.to_set().contains(keys@[i]));
            }
            assert forall|ledger: u64| all_ledgers(documents).contains(ledger) implies owned_by(
                documents,
                keys@,
                ledger,
            ) by {
                let key = choose|key: u64| #[trigger]
                    documents.contains_key(key) && documents[key].document.style_owner == Some(
                        ledger,
                    );
                assert(keys@.to_set().contains(key));
                let i = choose|i: int| 0 <= i < keys@.len() && keys@[i] == key;
                assert(documents[keys@[i]].document.style_owner == Some(ledger));
            }
        }
        self.retained_document_nodes = 0;
        let engine = self.lend_engine();
        assert(self@.retired =~= old(self)@.shut_down().retired);
        engine
    }
}

/// Whether one of the named documents owns a ledger.
spec fn owned_by(
    documents: Map<u64, RetainedExecutorDocument>,
    keys: Seq<u64>,
    ledger: u64,
) -> bool {
    exists|i: int|
        0 <= i < keys.len() && (#[trigger] documents[keys[i]]).document.style_owner == Some(ledger)
}

/// Reports a failed shutdown of the engine.
pub fn shutdown_failure(error: &PipelineError) -> (failure: ExecutionFailure)
    ensures
        failure == (ExecutionFailure {
            stage: NavigationStage::Shutdown,
            ..crate::pipeline_error::reported(*error)
        }),
{
    let mut failure = map_pipeline_error(error);
    failure.stage = NavigationStage::Shutdown;
    failure
}

} // verus!
