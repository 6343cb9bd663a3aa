//! Fixed-size failures and stop reasons carried by worker events.

use vstd::prelude::*;

verus! {

/// Stage of the page pipeline at which an operation ended.
#[derive(Clone, Copy, Debug, PartialEq, Eq, Structural)]
pub enum PipelineStage {
    /// Document fetch.
    Fetch,
    /// HTML parsing.
    Parse,
    /// Immutable snapshot.
    Snapshot,
    /// Style computation.
    Style,
    /// Layout.
    Layout,
    /// Text shaping.
    TextShaping,
    /// Scene compilation.
    SceneCompilation,
    /// Composed rendering.
    ComposedRender,
}

/// Coarse, UI-safe stage for a navigation failure.
#[derive(Clone, Copy, Debug, PartialEq, Eq, Structural)]
pub enum NavigationStage {
    /// URL validation and the explicitly selected HTTP transport.
    Fetch,
    /// HTML parsing and immutable DOM creation.
    Document,
    /// Style computation.
    Style,
    /// Layout and text shaping.
    Layout,
    /// Scene compilation and rendering.
    Render,
    /// Executor shutdown.
    Shutdown,
}

/// Navigation stage that a pipeline stage belongs to.
pub open spec fn navigation_stage(stage: PipelineStage) -> NavigationStage {
    match stage {
        PipelineStage::Fetch => NavigationStage::Fetch,
        PipelineStage::Parse | PipelineStage::Snapshot => NavigationStage::Document,
        PipelineStage::Style => NavigationStage::Style,
        PipelineStage::Layout | PipelineStage::TextShaping => NavigationStage::Layout,
        PipelineStage::SceneCompilation | PipelineStage::ComposedRender => NavigationStage::Render,
    }
}

/// Navigation stage that a pipeline stage belongs to.
pub fn map_pipeline_stage(stage: PipelineStage) -> (mapped: NavigationStage)
    ensures
        mapped == navigation_stage(stage),
{
    match stage {
        PipelineStage::Fetch => NavigationStage::Fetch,
        PipelineStage::Parse | PipelineStage::Snapshot => NavigationStage::Document,
        PipelineStage::Style => NavigationStage::Style,
        PipelineStage::Layout | PipelineStage::TextShaping => NavigationStage::Layout,
        PipelineStage::SceneCompilation | PipelineStage::ComposedRender => NavigationStage::Render,
    }
}

/// Bounded failure category returned by an executor and carried in events.
#[derive(Clone, Copy, Debug, PartialEq, Eq, Structural)]
pub enum ExecutionFailureKind {
    /// Cancellation was observed.
    Cancelled,
    /// A bounded deadline elapsed.
    DeadlineExceeded,
    /// Input or policy rejected the request.
    Rejected,
    /// Network transport failed.
    Network,
    /// Document processing failed.
    Document,
    /// Rendering failed.
    Rendering,
    /// A configured resource limit rejected work.
    ResourceLimit,
    /// Executor invariant failed without exposing private diagnostics.
    Internal,
}

/// Fixed-size executor failure.
#[derive(Clone, Copy, Debug, PartialEq, Eq, Structural)]
pub struct ExecutionFailure {
    /// Failure category.
    pub kind: ExecutionFailureKind,
    /// Last meaningful stage.
    pub stage: NavigationStage,
    /// Whether the executor's renderer became terminally unusable.
    pub renderer_unusable: bool,
}

impl ExecutionFailure {
    /// A failure that leaves the renderer usable, in specifications.
    pub open spec fn of(kind: ExecutionFailureKind, stage: NavigationStage) -> Self {
        ExecutionFailure { kind, stage, renderer_unusable: false }
    }

    /// Creates a fixed-size failure that leaves the renderer usable.
    pub fn new(kind: ExecutionFailureKind, stage: NavigationStage) -> (failure: Self)
        ensures
            failure == Self::of(kind, stage),
    {
        ExecutionFailure { kind, stage, renderer_unusable: false }
    }

    /// Failure category.
    pub fn kind(self) -> (kind: ExecutionFailureKind)
        ensures
            kind == self.kind,
    {
        self.kind
    }

    /// Last meaningful stage.
    pub fn stage(self) -> (stage: NavigationStage)
        ensures
            stage == self.stage,
    {
        self.stage
    }

    /// Whether the executor's renderer became terminally unusable.
    pub fn renderer_unusable(self) -> (unusable: bool)
        ensures
            unusable == self.renderer_unusable,
    {
        self.renderer_unusable
    }

    /// The same failure with its renderer marked terminally unusable.
    pub fn mark_renderer_unusable(self) -> (marked: Self)
        ensures
            marked == (ExecutionFailure { renderer_unusable: true, ..self }),
    {
        ExecutionFailure { renderer_unusable: true, ..self }
    }
}

/// Stable, fixed-size reason a live-document worker operation failed.
#[derive(Clone, Copy, Debug, PartialEq, Eq, Structural)]
pub enum DocumentOperationFailure {
    /// No retained live document exists for the exact context.
    NoLiveDocument,
    /// The renderer is terminally unusable.
    RendererUnavailable,
    /// The caller's document identity or revision was stale.
    VersionMismatch,
    /// The bounded DOM transaction rejected without committing.
    MutationRejected,
    /// Cancellation was observed at a defined checkpoint.
    Cancelled,
    /// The operation deadline elapsed.
    DeadlineExceeded,
    /// Snapshot, style, layout, or other document processing failed.
    Document,
    /// Scene compilation, composition, or readback failed.
    Rendering,
    /// A configured worker or pipeline resource bound rejected work.
    ResourceLimit,
    /// An executor invariant failed without exposing private diagnostics.
    Internal,
}

/// Reason the worker stopped accepting and executing commands.
#[derive(Clone, Copy, Debug, PartialEq, Eq, Structural)]
pub enum WorkerStopReason {
    /// Explicit shutdown was requested.
    Requested,
    /// The only event receiver was dropped.
    EventReceiverDropped,
    /// An indivisible event publication could not fit its bounded queue.
    EventQueueSaturated,
    /// Internal event order validation rejected a transition.
    EventOrderViolation,
    /// A monotonic event or frame-lease identity was exhausted.
    IdentityExhausted,
    /// Executor code panicked; the worker caught the unwind.
    ExecutorPanicked,
    /// The renderer is terminally unusable and the executor must be replaced.
    RendererUnavailable,
    /// A custom executor returned state which violated its typed contract.
    ExecutorContractViolation,
}

/// Outcome of executor cleanup performed on its owner thread.
#[derive(Clone, Copy, Debug, PartialEq, Eq, Structural)]
pub enum ExecutorShutdownStatus {
    /// Executor construction did not complete, so no cleanup was possible.
    NotStarted,
    /// Executor cleanup completed.
    Clean,
    /// Executor cleanup returned a bounded error.
    Failed(ExecutionFailure),
    /// Executor cleanup panicked and was contained by the worker.
    Panicked,
}

/// Stable, repeatable result of joining the worker.
#[derive(Clone, Copy, Debug, PartialEq, Eq, Structural)]
pub struct EngineShutdownStatus {
    /// Why command processing stopped.
    pub reason: WorkerStopReason,
    /// Same-thread executor cleanup result.
    pub executor: ExecutorShutdownStatus,
}

impl EngineShutdownStatus {
    /// Why command processing stopped.
    pub fn reason(self) -> (reason: WorkerStopReason)
        ensures
            reason == self.reason,
    {
        self.reason
    }

    /// Same-thread executor cleanup result.
    pub fn executor(self) -> (executor: ExecutorShutdownStatus)
        ensures
            executor == self.executor,
    {
        self.executor
    }
}

/// What a finished executor shutdown reports: the cleanup result, overridden by
/// a panic while the executor itself was dropped.
pub fn executor_finalization(shutdown: ExecutorShutdownStatus, drop_panicked: bool) -> (status:
    ExecutorShutdownStatus)
    ensures
        status == if drop_panicked {
            ExecutorShutdownStatus::Panicked
        } else {
            shutdown
        },
{
    if drop_panicked {
        ExecutorShutdownStatus::Panicked
    } else {
        shutdown
    }
}

/// Startup failure before a usable worker/receiver pair exists.
#[derive(Clone, Copy, Debug, PartialEq, Eq, Structural)]
pub enum EngineStartError {
    /// No never-reused process-local worker owner can be represented.
    IdentityExhausted,
    /// The operating system rejected thread creation.
    ThreadSpawn,
    /// Executor construction returned a bounded failure.
    Executor(ExecutionFailure),
    /// Executor construction panicked and was contained.
    ExecutorPanicked,
    /// Worker initialization ended without a status message.
    WorkerExited,
}

} // verus!
