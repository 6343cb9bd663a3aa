//! Rendering one immutable snapshot, stage by stage. Each stage takes what the
//! previous one came to, so none can be skipped or repeated.

use vstd::prelude::*;

use crate::dynamic::{DynamicRenderEvidence, TextEvidence};
use crate::failure::PipelineStage;
use crate::frame::RgbaFrame;
use crate::identity::DocumentVersion;
use crate::page_engine::{
    PageEngineModel, PipelineFrame, PipelineRenderer, RenderedSnapshot, StaticPageEngine,
};
use crate::pipeline_error::{checkpoint, PipelineError};
use crate::scene::{
    PipelineKey, PresentationScene, PresentationSceneMetadata, PresentationSceneRevision,
};
use crate::scene_charge::{presentation_retained_charge, SceneSizes};
use crate::style_transport::Checkpoint;

verus! {

/// Owner of the page pipeline.
pub const PAGE_PIPELINE_NAMESPACE: u32 = 0x5742;

/// Page pipeline within its owner.
pub const PAGE_PIPELINE_INDEX: u32 = 1;

/// The pipeline that page scenes are compiled for.
pub fn page_pipeline() -> (pipeline: PipelineKey)
    ensures
        pipeline == (PipelineKey {
            namespace: PAGE_PIPELINE_NAMESPACE,
            index: PAGE_PIPELINE_INDEX,
        }),
{
    PipelineKey { namespace: PAGE_PIPELINE_NAMESPACE, index: PAGE_PIPELINE_INDEX }
}

/// Counts of a style preparation.
#[derive(Clone, Copy, Debug, PartialEq, Eq, Structural)]
pub struct StyleCounts {
    /// Computed-style entries.
    pub entries: usize,
    /// Recoverable CSS diagnostics retained.
    pub diagnostics: usize,
    /// CSS diagnostics dropped at the configured bound.
    pub dropped_diagnostics: usize,
}

/// Counts of a layout.
#[derive(Clone, Copy, Debug, PartialEq, Eq, Structural)]
pub struct LayoutCounts {
    /// Revision that was laid out.
    pub document_version: DocumentVersion,
    /// Layout boxes.
    pub boxes: usize,
    /// Recoverable layout warnings.
    pub warnings: usize,
}

/// Counts of a compiled scene.
#[derive(Clone, Copy, Debug, PartialEq, Eq, Structural)]
pub struct SceneCounts {
    /// Pipeline that the scene was compiled for.
    pub pipeline: PipelineKey,
    /// Scene items.
    pub items: usize,
    /// Serialized bytes of the display list.
    pub display_list_bytes: usize,
    /// Text runs that wait for shaping.
    pub pending_runs: usize,
}

/// What a stage failure comes to: the stage's own failure comes before what was
/// observed at the next safe point.
pub open spec fn stage_failure(
    failed: Option<PipelineError>,
    control: Checkpoint,
    next: PipelineStage,
) -> Option<PipelineError> {
    match failed {
        Some(error) => Some(error),
        None => crate::pipeline_error::control_failure(control, next),
    }
}

/// A snapshot that waits for its styles.
#[derive(Debug)]
pub struct UnstyledSnapshot {
    /// Nodes of the snapshot.
    pub dom_nodes: usize,
}

/// A snapshot that waits for its layout.
#[derive(Debug)]
pub struct StyledSnapshot {
    /// Nodes of the snapshot.
    pub dom_nodes: usize,
    /// Counts of the style preparation.
    pub style: StyleCounts,
}

/// A snapshot that waits for its scene.
#[derive(Debug)]
pub struct LaidOutSnapshot {
    /// Nodes of the snapshot.
    pub dom_nodes: usize,
    /// Counts of the style preparation.
    pub style: StyleCounts,
    /// Counts of the layout.
    pub layout: LayoutCounts,
    /// Measurement requests served during layout.
    pub layout_measurement_requests: usize,
}

/// A snapshot whose pending text is being shaped.
#[derive(Debug)]
pub struct CompiledSnapshot {
    /// What came before the scene.
    pub laid_out: LaidOutSnapshot,
    /// Counts of the scene.
    pub scene: SceneCounts,
    /// Runs shaped so far.
    pub shaped_runs: usize,
    /// Glyphs of those runs.
    pub glyphs: usize,
    /// Clusters of those runs.
    pub clusters: usize,
}

impl UnstyledSnapshot {
    /// Begins with a snapshot of so many nodes.
    pub fn begin(dom_nodes: usize, control: Checkpoint) -> (result: Result<Self, PipelineError>)
        ensures
            result == match crate::pipeline_error::control_failure(control, PipelineStage::Style) {
                Some(error) => Err::<Self, _>(error),
                None => Ok::<_, PipelineError>(UnstyledSnapshot { dom_nodes }),
            },
    {
        match checkpoint(control, PipelineStage::Style) {
            Ok(()) => Ok(UnstyledSnapshot { dom_nodes }),
            Err(error) => Err(error),
        }
    }

    /// Takes what preparing the styles came to.
    pub fn styled(self, prepared: Result<StyleCounts, String>, control: Checkpoint) -> (result: Result<
        StyledSnapshot,
        PipelineError,
    >)
        ensures
            ({
                let failed = match prepared {
                    Err(error) => Some(PipelineError::Style(error)),
                    Ok(_) => None,
                };
                result == match stage_failure(failed, control, PipelineStage::Layout) {
                    Some(error) => Err::<StyledSnapshot, _>(error),
                    None => Ok::<_, PipelineError>(
                        StyledSnapshot { dom_nodes: self.dom_nodes, style: prepared->Ok_0 },
                    ),
                }
            }),
    {
        let style = match prepared {
            Ok(style) => style,
            Err(error) => return Err(PipelineError::Style(error)),
        };
        match checkpoint(control, PipelineStage::Layout) {
            Ok(()) => Ok(StyledSnapshot { dom_nodes: self.dom_nodes, style }),
            Err(error) => Err(error),
        }
    }
}

impl StyledSnapshot {
    /// Takes what the layout came to. `text_error` is the first failure of the
    /// text measurer during layout, if there was one.
    pub fn laid_out(
        self,
        layout: Result<LayoutCounts, String>,
        text_error: Option<String>,
        layout_measurement_requests: usize,
        control: Checkpoint,
    ) -> (result: Result<LaidOutSnapshot, PipelineError>)
        ensures
            ({
                let failed = match layout {
                    Err(error) => Some(PipelineError::Layout(error)),
                    Ok(_) => match text_error {
                        Some(error) => Some(PipelineError::Text(error)),
                        None => None,
                    },
                };
                result == match stage_failure(failed, control, PipelineStage::SceneCompilation) {
                    Some(error) => Err::<LaidOutSnapshot, _>(error),
                    None => Ok::<_, PipelineError>(
                        LaidOutSnapshot {
                            dom_nodes: self.dom_nodes,
                            style: self.style,
                            layout: layout->Ok_0,
                            layout_measurement_requests,
                        },
                    ),
                }
            }),
    {
        let layout = match layout {
            Ok(layout) => layout,
            Err(error) => return Err(PipelineError::Layout(error)),
        };
        if let Some(error) = text_error {
            return Err(PipelineError::Text(error));
        }
        match checkpoint(control, PipelineStage::SceneCompilation) {
            Ok(()) => Ok(
                LaidOutSnapshot {
                    dom_nodes: self.dom_nodes,
                    style: self.style,
                    layout,
                    layout_measurement_requests,
                },
            ),
            Err(error) => Err(error),
        }
    }
}

impl LaidOutSnapshot {
    /// Takes what compiling the scene came to. `inventory` tells whether there
    /// is memory for the shaped text of all its runs.
    pub fn compiled(self, scene: Result<SceneCounts, String>, inventory: Result<(), String>) -> (result:
        Result<CompiledSnapshot, PipelineError>)
        ensures
            result == match scene {
                Err(error) => Err::<CompiledSnapshot, _>(PipelineError::Scene(error)),
                Ok(scene) => match inventory {
                    Err(error) => Err::<CompiledSnapshot, _>(PipelineError::Text(error)),
                    Ok(()) => Ok::<_, PipelineError>(
                        CompiledSnapshot {
                            laid_out: self,
                            scene,
                            shaped_runs: 0,
                            glyphs: 0,
                            clusters: 0,
                        },
                    ),
                },
            },
    {
        let scene = match scene {
            Ok(scene) => scene,
            Err(error) => return Err(PipelineError::Scene(error)),
        };
        match inventory {
            Ok(()) => Ok(
                CompiledSnapshot { laid_out: self, scene, shaped_runs: 0, glyphs: 0, clusters: 0 },
            ),
            Err(error) => Err(PipelineError::Text(error)),
        }
    }
}

/// What a composition may use.
#[derive(Clone, Copy, Debug, PartialEq, Eq, Structural)]
pub enum CompositionTicket {
    /// A renderer epoch.
    Epoch(u32),
    /// A presentation-scene revision.
    Revision(PresentationSceneRevision),
}

/// A snapshot that waits for its composition.
#[derive(Debug)]
pub struct ShapedSnapshot {
    /// Stage counts.
    pub evidence: DynamicRenderEvidence,
    /// Text measurement and shaping counts.
    pub text: TextEvidence,
    /// Pipeline that the scene was compiled for.
    pub pipeline: PipelineKey,
    /// What the composition may use.
    pub ticket: CompositionTicket,
}

impl CompiledSnapshot {
    /// Whether all runs are shaped.
    pub open spec fn is_shaped(self) -> bool {
        self.shaped_runs == self.scene.pending_runs
    }

    /// Stage counts of the snapshot.
    pub open spec fn evidence(self) -> DynamicRenderEvidence {
        DynamicRenderEvidence {
            document_version: self.laid_out.layout.document_version,
            dom_nodes: self.laid_out.dom_nodes,
            stylo_style_entries: self.laid_out.style.entries,
            style_diagnostics: self.laid_out.style.diagnostics,
            dropped_style_diagnostics: self.laid_out.style.dropped_diagnostics,
            layout_boxes: self.laid_out.layout.boxes,
            layout_warnings: self.laid_out.layout.warnings,
            scene_items: self.scene.items,
            pre_composition_display_list_bytes: self.scene.display_list_bytes,
        }
    }

    /// Text measurement and shaping counts of the snapshot.
    pub open spec fn text(self) -> TextEvidence {
        TextEvidence {
            layout_measurement_requests: self.laid_out.layout_measurement_requests,
            shaped_runs: self.scene.pending_runs,
            glyphs: self.glyphs,
            clusters: self.clusters,
        }
    }

    /// Number of the run to shape next, until all are shaped.
    pub fn next_run(&self, control: Checkpoint) -> (result: Result<Option<usize>, PipelineError>)
        ensures
            result == if self.shaped_runs >= self.scene.pending_runs {
                Ok::<_, PipelineError>(None)
            } else {
                match crate::pipeline_error::control_failure(control, PipelineStage::TextShaping) {
                    Some(error) => Err::<Option<usize>, _>(error),
                    None => Ok::<_, PipelineError>(Some(self.shaped_runs)),
                }
            },
    {
        if self.shaped_runs >= self.scene.pending_runs {
            return Ok(None);
        }
        match checkpoint(control, PipelineStage::TextShaping) {
            Ok(()) => Ok(Some(self.shaped_runs)),
            Err(error) => Err(error),
        }
    }

    /// Takes the glyph and cluster counts of the run that was shaped next, or
    /// why it was not shaped.
    pub fn run_shaped(&mut self, shaped: Result<(usize, usize), String>) -> (result: Result<
        (),
        PipelineError,
    >)
        requires
            old(self).shaped_runs < old(self).scene.pending_runs,
        ensures
            match shaped {
                Err(error) => result == Err::<(), _>(PipelineError::Text(error)),
                Ok((glyphs, clusters)) => if old(self).glyphs + glyphs > usize::MAX || old(
                    self,
                ).clusters + clusters > usize::MAX {
                    result == Err::<(), _>(PipelineError::EvidenceOverflow)
                } else {
                    &&& result == Ok::<(), PipelineError>(())
                    &&& *final(self) == (CompiledSnapshot {
                        shaped_runs: (old(self).shaped_runs + 1) as usize,
                        glyphs: (old(self).glyphs + glyphs) as usize,
                        clusters: (old(self).clusters + clusters) as usize,
                        ..*old(self)
                    })
                },
            },
            result is Err ==> *final(self) == *old(self),
    {
        let (glyphs, clusters) = match shaped {
            Ok(counts) => counts,
            Err(error) => return Err(PipelineError::Text(error)),
        };
        let glyphs: usize = match self.glyphs.checked_add(glyphs) {
            Some(glyphs) => glyphs,
            None => return Err(PipelineError::EvidenceOverflow),
        };
        let clusters: usize = match self.clusters.checked_add(clusters) {
            Some(clusters) => clusters,
            None => return Err(PipelineError::EvidenceOverflow),
        };
        self.shaped_runs += 1;
        self.glyphs = glyphs;
        self.clusters = clusters;
        Ok(())
    }

    /// Takes what a composition needs from the engine: an epoch for pixels, a
    /// revision for a scene.
    pub fn compose(self, engine: &mut StaticPageEngine, control: Checkpoint) -> (result: Result<
        ShapedSnapshot,
        PipelineError,
    >)
        requires
            self.is_shaped(),
        ensures
            match crate::pipeline_error::control_failure(control, PipelineStage::ComposedRender) {
                Some(error) => {
                    &&& result == Err::<ShapedSnapshot, _>(error)
                    &&& final(engine)@ == old(engine)@
                },
                None => match old(engine)@.renderer {
                    PipelineRenderer::Headless => if old(engine)@.next_epoch == u32::MAX {
                        &&& result == Err::<ShapedSnapshot, _>(PipelineError::EpochExhausted)
                        &&& final(engine)@ == old(engine)@
                    } else {
                        &&& result == Ok::<_, PipelineError>(
                            ShapedSnapshot {
                                evidence: self.evidence(),
                                text: self.text(),
                                pipeline: self.scene.pipeline,
                                ticket: CompositionTicket::Epoch(old(engine)@.next_epoch),
                            },
                        )
                        &&& final(engine)@ == (PageEngineModel {
                            next_epoch: (old(engine)@.next_epoch + 1) as u32,
                            ..old(engine)@
                        })
                    },
                    PipelineRenderer::PresentationOnly => {
                        let next = old(engine)@.next_presentation_revision;
                        if next == 0 || next == u64::MAX {
                            &&& result == Err::<ShapedSnapshot, _>(
                                PipelineError::PresentationRevisionExhausted,
                            )
                            &&& final(engine)@ == old(engine)@
                        } else {
                            &&& result matches Ok(shaped)
                            &&& shaped.evidence == self.evidence()
                            &&& shaped.text == self.text()
                            &&& shaped.pipeline == self.scene.pipeline
                            &&& shaped.ticket matches CompositionTicket::Revision(revision)
                            &&& revision.value() == next
                            &&& final(engine)@ == (PageEngineModel {
                                next_presentation_revision: (next + 1) as u64,
                                ..old(engine)@
                            })
                        }
                    },
                },
            },
    {
        match checkpoint(control, PipelineStage::ComposedRender) {
            Ok(()) => {},
            Err(error) => return Err(error),
        }
        let ticket = match engine.renderer() {
            PipelineRenderer::Headless => match engine.reserve_epoch() {
                Ok(epoch) => CompositionTicket::Epoch(epoch),
                Err(error) => return Err(error),
            },
            PipelineRenderer::PresentationOnly => match engine.reserve_presentation_revision() {
                Ok(revision) => CompositionTicket::Revision(revision),
                Err(error) => return Err(error),
            },
        };
        Ok(
            ShapedSnapshot {
                evidence: DynamicRenderEvidence {
                    document_version: self.laid_out.layout.document_version,
                    dom_nodes: self.laid_out.dom_nodes,
                    stylo_style_entries: self.laid_out.style.entries,
                    style_diagnostics: self.laid_out.style.diagnostics,
                    dropped_style_diagnostics: self.laid_out.style.dropped_diagnostics,
                    layout_boxes: self.laid_out.layout.boxes,
                    layout_warnings: self.laid_out.layout.warnings,
                    scene_items: self.scene.items,
                    pre_composition_display_list_bytes: self.scene.display_list_bytes,
                },
                text: TextEvidence {
                    layout_measurement_requests: self.laid_out.layout_measurement_requests,
                    shaped_runs: self.scene.pending_runs,
                    glyphs: self.glyphs,
                    clusters: self.clusters,
                },
                pipeline: self.scene.pipeline,
                ticket,
            },
        )
    }
}

impl ShapedSnapshot {
    /// Finishes with the pixels that the headless renderer composed, or with
    /// why it did not.
    pub fn finish_headless(self, composed: Result<RgbaFrame, String>) -> (result: Result<
        RenderedSnapshot,
        PipelineError,
    >)
        ensures
            result == if !(self.ticket is Epoch) {
                Err::<RenderedSnapshot, _>(
                    PipelineError::InvalidConfiguration {
                        field: "engine_output_mode",
                        detail: "headless renderer omitted its reserved epoch",
                    },
                )
            } else {
                match composed {
                    Err(error) => Err::<RenderedSnapshot, _>(PipelineError::Headless(error)),
                    Ok(frame) => Ok::<_, PipelineError>(
                        RenderedSnapshot {
                            evidence: self.evidence,
                            text: self.text,
                            frame: PipelineFrame::Headless(frame),
                        },
                    ),
                }
            },
    {
        if let CompositionTicket::Revision(_) = self.ticket {
            return Err(
                PipelineError::InvalidConfiguration {
                    field: "engine_output_mode",
                    detail: "headless renderer omitted its reserved epoch",
                },
            );
        }
        match composed {
            Ok(frame) => Ok(
                RenderedSnapshot {
                    evidence: self.evidence,
                    text: self.text,
                    frame: PipelineFrame::Headless(frame),
                },
            ),
            Err(error) => Err(PipelineError::Headless(error)),
        }
    }

    /// Finishes with a compiled scene; `content` is the key under which it and
    /// its shaped text are found again.
    pub fn finish_presentation(self, sizes: &SceneSizes, content: u64) -> (result: Result<
        RenderedSnapshot,
        PipelineError,
    >)
        ensures
            match self.ticket {
                CompositionTicket::Epoch(_) => result == Err::<RenderedSnapshot, _>(
                    PipelineError::InvalidConfiguration {
                        field: "engine_output_mode",
                        detail: "presentation renderer omitted its reserved revision",
                    },
                ),
                CompositionTicket::Revision(revision) => {
                    let charge = crate::scene_charge::scene_charge(*sizes);
                    if charge > usize::MAX {
                        result == Err::<RenderedSnapshot, _>(PipelineError::EvidenceOverflow)
                    } else {
                        result == Ok::<_, PipelineError>(
                            RenderedSnapshot {
                                evidence: self.evidence,
                                text: self.text,
                                frame: PipelineFrame::Presentation(
                                    PresentationScene {
                                        metadata: PresentationSceneMetadata {
                                            revision,
                                            document_version: self.evidence.document_version,
                                            pipeline: self.pipeline,
                                            scene_items: self.evidence.scene_items,
                                            shaped_runs: self.text.shaped_runs,
                                            display_list_bytes:
                                                self.evidence.pre_composition_display_list_bytes,
                                            retained_charge_bytes: if charge == 0 {
                                                1
                                            } else {
                                                charge as usize
                                            },
                                        },
                                        content,
                                    },
                                ),
                            },
                        )
                    }
                },
            },
    {
        let revision = match self.ticket {
            CompositionTicket::Revision(revision) => revision,
            CompositionTicket::Epoch(_) => return Err(
                PipelineError::InvalidConfiguration {
                    field: "engine_output_mode",
                    detail: "presentation renderer omitted its reserved revision",
                },
            ),
        };
        let retained_charge_bytes: usize = match presentation_retained_charge(sizes) {
            Ok(charge) => charge,
            Err(error) => return Err(error),
        };
        let metadata = PresentationSceneMetadata {
            revision,
            document_version: self.evidence.document_version,
            pipeline: self.pipeline,
            scene_items: self.evidence.scene_items,
            shaped_runs: self.text.shaped_runs,
            display_list_bytes: self.evidence.pre_composition_display_list_bytes,
            retained_charge_bytes,
        };
        Ok(
            RenderedSnapshot {
                evidence: self.evidence,
                text: self.text,
                frame: PipelineFrame::Presentation(PresentationScene { metadata, content }),
            },
        )
    }
}

/// Two compositions of one engine never share a renderer epoch or a scene
/// revision: each takes the next one, and the engine never goes back.
pub proof fn tickets_are_fresh(before: PageEngineModel, after: PageEngineModel)
    requires
        after == (PageEngineModel { next_epoch: (before.next_epoch + 1) as u32, ..before }) || after
            == (PageEngineModel {
            next_presentation_revision: (before.next_presentation_revision + 1) as u64,
            ..before
        }),
        before.next_epoch < u32::MAX,
        before.next_presentation_revision < u64::MAX,
    ensures
        before.next_epoch <= after.next_epoch,
        before.next_presentation_revision <= after.next_presentation_revision,
        before.next_epoch < after.next_epoch || before.next_presentation_revision
            < after.next_presentation_revision,
{
}

} // verus!
