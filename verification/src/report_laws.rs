//! How failures are reported, and which bounds the worker has.

use vstd::prelude::*;

use crate::dynamic::{DocumentUpdateError, DocumentUpdateRejection};
use crate::event::{EngineEventKind, NavigationEventPhase};
use crate::executor::{ExecutorDocumentMutation, ExecutorDocumentRerender};
use crate::failure::{NavigationStage, PipelineStage};
use crate::frame::{EngineFrameError, PixelSize, RgbaFrame, Rgba8Metadata};
use crate::identity::{DocumentVersion, NodeId};
use crate::limits::{EngineLimitsError, LimitValues};
use crate::pipeline_error::PipelineError;
use crate::script::CreatedNodeToken;

verus! {

/// How far a pipeline stage is from the first one.
pub open spec fn pipeline_rank(stage: PipelineStage) -> int {
    match stage {
        PipelineStage::Fetch => 0,
        PipelineStage::Parse => 1,
        PipelineStage::Snapshot => 2,
        PipelineStage::Style => 3,
        PipelineStage::Layout => 4,
        PipelineStage::TextShaping => 5,
        PipelineStage::SceneCompilation => 6,
        PipelineStage::ComposedRender => 7,
    }
}

/// How far a navigation stage is from the first one.
pub open spec fn navigation_rank(stage: NavigationStage) -> int {
    match stage {
        NavigationStage::Fetch => 0,
        NavigationStage::Document => 1,
        NavigationStage::Style => 2,
        NavigationStage::Layout => 3,
        NavigationStage::Render => 4,
        NavigationStage::Shutdown => 5,
    }
}

/// Stages are reported in their order: no later stage of the pipeline is
/// reported as an earlier one of the navigation, only parsing and the snapshot,
/// layout and shaping, and compilation and rendering are reported alike, and none
/// as a shutdown.
pub proof fn stages_keep_their_order(first: PipelineStage, second: PipelineStage)
    ensures
        pipeline_rank(first) <= pipeline_rank(second) ==> navigation_rank(
            crate::failure::navigation_stage(first),
        ) <= navigation_rank(crate::failure::navigation_stage(second)),
        crate::failure::navigation_stage(first) == crate::failure::navigation_stage(second) <==> {
            ||| first == second
            ||| (first is Parse || first is Snapshot) && (second is Parse || second is Snapshot)
            ||| (first is Layout || first is TextShaping) && (second is Layout
                || second is TextShaping)
            ||| (first is SceneCompilation || first is ComposedRender) && (second
                is SceneCompilation || second is ComposedRender)
        },
        navigation_rank(crate::failure::navigation_stage(first)) < 5,
{
}

/// Each kind of failure is reported of exactly its own errors: a cancellation is
/// never another failure, a refused redirect or status is a rejection, a stage
/// that failed on the document blames the document, and only an exceeded bound is
/// a resource limit.
pub proof fn kinds_name_their_errors(error: PipelineError)
    ensures
        ({
            let kind = crate::pipeline_error::reported(error).kind;
            &&& kind is Cancelled <==> error is Cancelled
            &&& kind is DeadlineExceeded <==> error is DeadlineExceeded
            &&& kind is Network <==> error is Network
            &&& kind is Internal <==> (error matches PipelineError::DocumentPolicy(refused)
                && refused is BindingMismatch)
            &&& kind is Rejected <==> error is RedirectLocation || error
                is UnsupportedRedirectStatus || error is RedirectLoop || error is TooManyRedirects
                || error is TransportSecurityMismatch || error is HttpStatus || error
                is NonUtf8Html
            &&& kind is Document <==> error is Html || error is Dom || error is Style || error
                is Layout || error is Text
            &&& kind is Rendering <==> error is Scene || error is Headless
            &&& !crate::pipeline_error::reported(error).renderer_unusable
        }),
{
}

/// A failure is reported at the stage that it came from.
pub proof fn stages_name_their_errors(error: PipelineError)
    ensures
        ({
            let stage = crate::pipeline_error::reported(error).stage;
            &&& error matches PipelineError::Cancelled { stage: at } ==> stage
                == crate::failure::navigation_stage(at)
            &&& error matches PipelineError::DeadlineExceeded { stage: at } ==> stage
                == crate::failure::navigation_stage(at)
            &&& !(error is Cancelled || error is DeadlineExceeded) ==> {
                &&& stage is Fetch <==> error is Network || error is RedirectLocation || error
                    is UnsupportedRedirectStatus || error is RedirectLoop || error
                    is TooManyRedirects || error is TransportSecurityMismatch || (
                error matches PipelineError::DocumentPolicy(refused) && !(refused
                    is BindingMismatch))
                &&& stage is Document <==> error is HttpStatus || error is NonUtf8Html || error
                    is Html || error is Dom || (error matches PipelineError::DocumentPolicy(
                    refused,
                ) && refused is BindingMismatch)
                &&& stage is Style <==> error is Style
                &&& stage is Layout <==> error is Layout || error is Text
                &&& !(stage is Shutdown)
            }
        }),
{
}

/// A document operation reports the same causes as a navigation, in its own
/// words; what only a lost or absent document causes is never reported of the
/// pipeline.
pub proof fn operations_name_their_errors(error: PipelineError)
    ensures
        ({
            let kind = crate::pipeline_error::reported(error).kind;
            let failure = crate::pipeline_error::operation_failure(error);
            &&& failure is Cancelled <==> kind is Cancelled
            &&& failure is DeadlineExceeded <==> kind is DeadlineExceeded
            &&& failure is Document <==> kind is Document || kind is Rejected
            &&& failure is Rendering <==> kind is Rendering
            &&& failure is ResourceLimit <==> kind is ResourceLimit
            &&& failure is Internal <==> kind is Internal || kind is Network
            &&& !(failure is NoLiveDocument || failure is RendererUnavailable || failure
                is VersionMismatch || failure is MutationRejected)
        }),
{
}

/// A refused update reports its own reason, and names the versions of the live
/// document exactly where there is one. Without a document nothing else is
/// blamed, and a lost renderer comes before everything behind it.
pub proof fn updates_are_refused_for_their_reason(
    reason: DocumentUpdateRejection,
    live: DocumentVersion,
    shown: DocumentVersion,
    usable: bool,
)
    ensures
        crate::dynamic::rejection_failure(reason) is NoLiveDocument <==> reason is NoLiveDocument,
        crate::dynamic::rejection_failure(reason) is RendererUnavailable <==> reason
            is RendererUnavailable,
        crate::dynamic::rejection_failure(reason) is VersionMismatch <==> reason
            is LiveVersionMismatch,
        crate::dynamic::rejection_failure(reason) is MutationRejected <==> reason is Mutation,
        reason matches DocumentUpdateRejection::Pipeline(error) ==>
            crate::dynamic::rejection_failure(reason) == crate::pipeline_error::operation_failure(
            error,
        ),
        crate::dynamic::rejected_for(None, reason) == (DocumentUpdateError::Rejected {
            live_version: None,
            last_returned_frame_version: None,
            reason,
        }),
        crate::dynamic::rejected_for(Some((live, shown)), reason) == (
        DocumentUpdateError::Rejected {
            live_version: Some(live),
            last_returned_frame_version: Some(shown),
            reason,
        }),
        crate::dynamic::rejected_for(Some((live, shown)), reason).created().len() == 0,
        crate::dynamic::owner_rejection(None, usable) == Some(
            DocumentUpdateRejection::NoLiveDocument,
        ),
        crate::dynamic::owner_rejection(Some((live, shown)), false) == Some(
            DocumentUpdateRejection::RendererUnavailable,
        ),
        crate::dynamic::owner_rejection(Some((live, shown)), true) is None,
{
}

/// Only a rejected operation leaves an executor as it was, and the renderer is
/// lost exactly where the failure says so.
pub proof fn rejections_change_nothing(
    mutation: ExecutorDocumentMutation,
    rerender: ExecutorDocumentRerender,
)
    ensures
        mutation.changed_state() <==> !(mutation is Rejected),
        rerender.changed_state() <==> !(rerender is Rejected),
        mutation.lost_renderer() <==> {
            ||| mutation matches ExecutorDocumentMutation::Rejected { failure, .. } && failure
                is RendererUnavailable
            ||| mutation matches ExecutorDocumentMutation::CommittedWithoutFrame { failure, .. }
                && failure is RendererUnavailable
        },
        rerender.lost_renderer() <==> (rerender matches ExecutorDocumentRerender::Rejected {
            failure,
            ..
        } && failure is RendererUnavailable),
{
}

/// A token names the node at its place, and no token beyond the last names one.
pub proof fn tokens_name_nodes(created_nodes: Seq<NodeId>, token: CreatedNodeToken)
    ensures
        token.index < created_nodes.len() ==> crate::event::mapped_node(created_nodes, token)
            == Some(created_nodes[token.index as int]),
        token.index >= created_nodes.len() ==> crate::event::mapped_node(created_nodes, token)
            is None,
{
}

/// Each history of a navigation that can happen is allowed, event by event.
pub proof fn histories_are_allowed(
    started: EngineEventKind,
    committed: EngineEventKind,
    ready: EngineEventKind,
    cancelled: EngineEventKind,
    failed: EngineEventKind,
)
    requires
        started is NavigationStarted,
        committed is NavigationCommitted,
        ready is FrameReady,
        cancelled is NavigationCancelled,
        failed is NavigationFailed,
    ensures
        crate::event::phase_after(seq![]) == Some(NavigationEventPhase::Queued),
        crate::event::phase_after(seq![cancelled]) == Some(NavigationEventPhase::Terminal),
        crate::event::phase_after(seq![started]) == Some(NavigationEventPhase::Started),
        crate::event::phase_after(seq![started, cancelled]) == Some(NavigationEventPhase::Terminal),
        crate::event::phase_after(seq![started, failed]) == Some(NavigationEventPhase::Terminal),
        crate::event::phase_after(seq![started, committed]) == Some(
            NavigationEventPhase::Committed,
        ),
        crate::event::phase_after(seq![started, committed, ready]) == Some(
            NavigationEventPhase::Terminal,
        ),
{
    reveal_with_fuel(crate::event::phase_after, 4);
    assert(seq![cancelled].drop_last() =~= seq![]);
    assert(seq![started].drop_last() =~= seq![]);
    assert(seq![started, cancelled].drop_last() =~= seq![started]);
    assert(seq![started, failed].drop_last() =~= seq![started]);
    assert(seq![started, committed].drop_last() =~= seq![started]);
    assert(seq![started, committed, ready].drop_last() =~= seq![started, committed]);
}

/// Limits are accepted exactly within their bounds, and a refusal names a field
/// that lies outside.
pub proof fn limits_are_bounded(
    commands: usize,
    events: usize,
    contexts: usize,
    frame: usize,
    retained: usize,
)
    ensures
        ({
            let answer = crate::limits::limits_error(commands, events, contexts, frame, retained);
            &&& answer is None <==> 1 <= commands <= 4096 && 3 <= events <= 4096 && 1 <= contexts
                <= 1024 && 1 <= frame <= retained <= 268435456
            &&& commands == 0 ==> answer == Some(
                EngineLimitsError::Zero { field: "command_capacity" },
            )
            &&& commands > 4096 ==> answer == Some(
                EngineLimitsError::TooLarge {
                    field: "command_capacity",
                    actual: commands,
                    maximum: 4096,
                },
            )
            &&& 1 <= commands <= 4096 ==> {
                &&& events == 0 ==> answer == Some(
                    EngineLimitsError::Zero { field: "event_capacity" },
                )
                &&& events > 4096 ==> answer == Some(
                    EngineLimitsError::TooLarge {
                        field: "event_capacity",
                        actual: events,
                        maximum: 4096,
                    },
                )
                &&& 1 <= events < 3 ==> answer == Some(
                    EngineLimitsError::TooSmall {
                        field: "event_capacity",
                        actual: events,
                        minimum: 3,
                    },
                )
                &&& 3 <= events <= 4096 && contexts == 0 ==> answer == Some(
                    EngineLimitsError::Zero { field: "max_contexts" },
                )
                &&& 3 <= events <= 4096 && contexts > 1024 ==> answer == Some(
                    EngineLimitsError::TooLarge {
                        field: "max_contexts",
                        actual: contexts,
                        maximum: 1024,
                    },
                )
                &&& 3 <= events <= 4096 && 1 <= contexts <= 1024 ==> {
                    &&& frame == 0 ==> answer == Some(
                        EngineLimitsError::Zero { field: "max_frame_bytes" },
                    )
                    &&& frame > 268435456 ==> answer == Some(
                        EngineLimitsError::TooLarge {
                            field: "max_frame_bytes",
                            actual: frame,
                            maximum: 268435456,
                        },
                    )
                    &&& 1 <= frame <= 268435456 && retained == 0 ==> answer == Some(
                        EngineLimitsError::Zero { field: "max_retained_frame_bytes" },
                    )
                    &&& 1 <= retained < frame <= 268435456 ==> answer == Some(
                        EngineLimitsError::TooSmall {
                            field: "max_retained_frame_bytes",
                            actual: retained,
                            minimum: frame,
                        },
                    )
                }
            }
        }),
{
    assert(256 * 1024 * 1024 == 268435456);
}

/// Valid limits lie within the hard caps.
pub proof fn limits_have_caps(limits: LimitValues)
    ensures
        limits.valid() <==> {
            &&& 1 <= limits.command_capacity <= 4096
            &&& 3 <= limits.event_capacity <= 4096
            &&& 1 <= limits.max_contexts <= 1024
            &&& 1 <= limits.max_frame_bytes <= limits.max_retained_frame_bytes <= 268435456
            &&& 1 <= limits.max_retained_document_nodes <= 67108864
            &&& 1 <= limits.max_retained_mutation_result_nodes <= 4194304
            &&& 1 <= limits.max_pending_mutation_payload_bytes <= 268435456
        },
        crate::limits::DEFAULT_FRAME_BYTES == 134217728,
        crate::limits::DEFAULT_RETAINED_DOCUMENT_NODES == 4194304,
        crate::limits::DEFAULT_RETAINED_MUTATION_RESULT_NODES == 65536,
        crate::limits::DEFAULT_PENDING_MUTATION_PAYLOAD_BYTES == 16777216,
        crate::limits::MAX_NAVIGATION_URL_BYTES == 16384,
{
    assert(256 * 1024 * 1024 == 268435456);
    assert(128 * 1024 * 1024 == 134217728);
    assert(64 * 1024 * 1024 == 67108864);
    assert(4 * 1024 * 1024 == 4194304);
    assert(16 * 1024 * 1024 == 16777216);
}

/// A surface has four bytes for each pixel, and none without width or height;
/// one more row adds its stride.
pub proof fn pixels_have_four_bytes(width: u32, height: u32)
    ensures
        crate::frame::rgba8_len_spec(width, height) matches Ok(bytes) ==> bytes == 4 * (width
            * height),
        crate::frame::rgba8_len_spec(width, height) is Ok <==> width > 0 && height > 0 && 4 * (width
            * height) <= usize::MAX,
        width == 0 || height == 0 ==> crate::frame::rgba8_len_spec(width, height) == Err::<
            usize,
            _,
        >(EngineFrameError::InvalidSize { width, height }),
        crate::frame::rgba8_len_spec(width, height) == crate::frame::rgba8_len_spec(height, width)
            || width == 0 || height == 0,
{
    assert(width * height == height * width) by (nonlinear_arith);
    assert(width * height * 4 == 4 * (width * height)) by (nonlinear_arith);
    assert(height * width * 4 == 4 * (width * height)) by (nonlinear_arith);
}

/// Pixels are accepted exactly if there are four bytes for each, up to the cap.
pub proof fn exact_pixels_are_accepted(size: PixelSize, byte_len: usize)
    ensures
        Rgba8Metadata::error(size, byte_len) is None <==> size.width_of() > 0 && size.height_of()
            > 0 && byte_len == 4 * (size.width_of() * size.height_of()) && byte_len <= 268435456,
{
    pixels_have_four_bytes(size.width_of(), size.height_of());
    assert(256 * 1024 * 1024 == 268435456);
}

/// A headless frame is accepted exactly if no text waits, it shows the version
/// that is asked for, and its pixels fill its surface; text that waits is told
/// before another version, and that before the pixels.
pub proof fn exact_frames_are_accepted(frame: RgbaFrame, version: DocumentVersion)
    ensures
        crate::frame::headless_error(frame, version) is None <==> {
            &&& frame.pending_text_runs == 0
            &&& frame.document_version == version
            &&& frame.width > 0 && frame.height > 0
            &&& frame.pixels@.len() == 4 * (frame.width * frame.height)
            &&& frame.pixels@.len() <= 268435456
            &&& frame.pixels@.len() <= usize::MAX
        },
        frame.pending_text_runs != 0 <==> (crate::frame::headless_error(frame, version) matches Some(
            EngineFrameError::PendingTextRuns { actual },
        ) && actual == frame.pending_text_runs),
        frame.pending_text_runs == 0 && frame.document_version != version <==> (
        crate::frame::headless_error(frame, version) matches Some(
            EngineFrameError::DocumentVersionMismatch { expected, actual },
        ) && expected == version && actual == frame.document_version),
{
    pixels_have_four_bytes(frame.width, frame.height);
    assert(256 * 1024 * 1024 == 268435456);
}

} // verus!
