//! Typed worker commands, their receipts and their rejections.

use vstd::prelude::*;

use crate::commit::NavigationRequest;
use crate::identity::{
    DocumentOperationId, DocumentVersion, NavigationGeneration, NavigationId, TopLevelContextId,
};
use crate::script::{ScriptMutationBatch, ScriptMutationLimitKind};

verus! {

/// Typed commands that a worker accepts.
#[derive(Debug)]
pub enum EngineCommand {
    /// Queue a bounded navigation at an explicitly supplied generation.
    Navigate {
        /// Typed context/generation identity.
        navigation: NavigationId,
        /// Bounded URL request.
        request: NavigationRequest,
    },
    /// Request cancellation of one exact active navigation operation.
    Cancel {
        /// Exact navigation operation to cancel. This command never cancels a
        /// mutation or rerender under the same navigation.
        navigation: NavigationId,
    },
    /// Request cancellation of one exact admitted document operation.
    CancelDocumentOperation {
        /// Navigation to which the operation was bound at admission.
        navigation: NavigationId,
        /// Never-reused operation identity returned by its admission receipt.
        operation: DocumentOperationId,
    },
    /// Queue one bounded, exact-live-version DOM mutation and recomposition.
    MutateDocument {
        /// Navigation which owns the currently published live document.
        navigation: NavigationId,
        /// Engine-neutral, exact-version bounded mutation batch.
        batch: ScriptMutationBatch,
    },
    /// Queue a full recomposition of one exact live DOM revision.
    RerenderDocument {
        /// Navigation which owns the currently published live document.
        navigation: NavigationId,
        /// Exact live revision to recompute without mutation.
        expected_live_version: DocumentVersion,
    },
    /// Close a context and destroy its worker-owned live document.
    CloseContext {
        /// Exact current navigation whose context is to close.
        navigation: NavigationId,
    },
    /// Request deterministic worker shutdown.
    Shutdown,
}

/// Result of accepting a command.
#[derive(Clone, Copy, Debug, PartialEq, Eq, Structural)]
pub enum CommandReceipt {
    /// Navigation entered the bounded work queue.
    NavigationQueued(NavigationId),
    /// Navigation cancellation changed the exact live token to cancelled.
    NavigationCancellationRequested(NavigationId),
    /// Document-operation cancellation changed the exact live token.
    DocumentOperationCancellationRequested {
        /// Navigation to which the operation is bound.
        navigation: NavigationId,
        /// Exact operation whose token changed to cancelled.
        operation: DocumentOperationId,
    },
    /// Exact-version mutation entered the bounded work queue.
    DocumentMutationQueued {
        /// Owning navigation.
        navigation: NavigationId,
        /// Never-reused identity of this mutation operation.
        operation: DocumentOperationId,
        /// Exact version named by the batch.
        expected_live_version: DocumentVersion,
    },
    /// Exact-version rerender entered the bounded work queue.
    DocumentRerenderQueued {
        /// Owning navigation.
        navigation: NavigationId,
        /// Never-reused identity of this rerender operation.
        operation: DocumentOperationId,
        /// Exact unchanged live version to recompute.
        expected_live_version: DocumentVersion,
    },
    /// Context close was admitted as a priority control.
    ContextCloseRequested(NavigationId),
    /// Shutdown was requested; repeated requests are reported without side effects.
    ShutdownRequested {
        /// Whether an earlier request came first.
        already_requested: bool,
    },
}

/// Reason a command was rejected without changing navigation state.
#[allow(inconsistent_fields)]
#[derive(Clone, Copy, Debug, PartialEq, Eq, Structural)]
pub enum CommandErrorKind {
    /// The bounded worker queue is full.
    QueueFull {
        /// Configured capacity.
        capacity: usize,
    },
    /// A new context did not start at generation one.
    InitialGenerationRequired,
    /// A generation was not strictly newer than the last accepted generation.
    NonMonotonicGeneration {
        /// Last accepted generation.
        latest: NavigationGeneration,
    },
    /// No greater generation can be represented.
    GenerationExhausted,
    /// The configured number of live contexts has been reached.
    ContextLimitReached {
        /// Configured maximum.
        maximum: usize,
    },
    /// This numeric context identity was already admitted or lies below a
    /// later admitted identity and can never be opened again by this worker.
    ContextIdentityRetired {
        /// Latest admitted identity.
        latest: TopLevelContextId,
    },
    /// The context has never been admitted.
    UnknownContext,
    /// The cancellation target is not the exact active navigation operation.
    NotCurrentNavigation,
    /// No cancellable navigation operation is active in the context.
    NoActiveNavigation,
    /// No cancellable mutation or rerender is active in the context.
    NoActiveDocumentOperation,
    /// The supplied identity is not the context's exact active document work.
    NotCurrentDocumentOperation {
        /// Exact active document operation.
        current: DocumentOperationId,
    },
    /// The operation identity is active but is bound to another navigation.
    DocumentOperationNavigationMismatch {
        /// Navigation to which the active operation is actually bound.
        current: NavigationId,
    },
    /// No further never-reused document-operation identity can be represented.
    DocumentOperationIdentityExhausted,
    /// The context already has one admitted navigation or document operation.
    ContextBusy,
    /// No successfully published live document belongs to the context.
    NoLiveDocument,
    /// The command names a generation other than the retained live document.
    DocumentNavigationMismatch {
        /// Navigation that owns the live document.
        current: NavigationId,
    },
    /// The command does not name the exact retained live revision.
    DocumentVersionMismatch {
        /// Retained live revision.
        live: DocumentVersion,
    },
    /// A mutation payload exceeds one immutable process hard cap.
    MutationPayloadLimit {
        /// Rejected resource dimension.
        kind: ScriptMutationLimitKind,
        /// Fixed process maximum.
        maximum: usize,
        /// Supplied amount.
        actual: usize,
    },
    /// Conservatively reserving created nodes would exceed retained live-state policy.
    RetainedDocumentNodeLimit {
        /// Configured maximum.
        maximum: usize,
    },
    /// Conservatively reserving the created-node result would exceed lease policy.
    MutationResultNodeLimit {
        /// Configured maximum.
        maximum: usize,
    },
    /// Queued normalized mutation command/string bytes would exceed policy.
    MutationPayloadBudget {
        /// Configured maximum.
        maximum: usize,
    },
    /// A close is already pending for this context.
    ContextClosing,
    /// The event receiver was dropped.
    EventReceiverDropped,
    /// The worker is shutting down or stopped.
    ShuttingDown,
}

/// Rejected command plus its typed reason.
#[derive(Debug)]
pub struct CommandError {
    /// The rejection reason.
    pub kind: CommandErrorKind,
    /// The rejected command.
    pub command: EngineCommand,
}

impl CommandError {
    /// Returns the rejection reason.
    pub fn kind(&self) -> (kind: CommandErrorKind)
        ensures
            kind == self.kind,
    {
        self.kind
    }

    /// Recovers ownership of the rejected command.
    pub fn into_command(self) -> (command: EngineCommand)
        ensures
            command == self.command,
    {
        self.command
    }
}

} // verus!
