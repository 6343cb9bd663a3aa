//! Failures of one page pipeline operation, and how the worker reports them.

use vstd::prelude::*;

use crate::document_policy::DocumentPolicyError;
use crate::failure::{
    map_pipeline_stage, DocumentOperationFailure, ExecutionFailure, ExecutionFailureKind,
    NavigationStage, PipelineStage,
};
use crate::style_transport::Checkpoint;

verus! {

/// Stable reason a redirect target could not be admitted.
#[derive(Clone, Copy, Debug, PartialEq, Eq, Structural)]
pub enum RedirectLocationFailure {
    /// The redirect response omitted `Location`.
    Missing,
    /// More than one `Location` field made the target ambiguous.
    Multiple,
    /// The field was not valid UTF-8.
    NonUtf8,
    /// The field did not resolve to a valid URL.
    Invalid,
    /// The resolved authority contained a username or password.
    CredentialsNotAllowed,
    /// The resolved target was not HTTP or HTTPS.
    UnsupportedScheme,
    /// The normalized final URL exceeded the browser navigation bound.
    UrlTooLong,
}

/// Structured failure from one static-page pipeline operation. Where a stage
/// outside the library failed, the failure carries what that stage said.
#[derive(Debug)]
pub enum PipelineError {
    /// A configuration field is invalid before any external work begins.
    InvalidConfiguration {
        /// Stable field name.
        field: &'static str,
        /// Why the value cannot be accepted.
        detail: &'static str,
    },
    /// The caller cancelled at the named safe checkpoint.
    Cancelled {
        /// Last pipeline stage reached.
        stage: PipelineStage,
    },
    /// The operation deadline elapsed at the named safe checkpoint.
    DeadlineExceeded {
        /// Last pipeline stage reached.
        stage: PipelineStage,
    },
    /// An absolute deadline could not be represented by the monotonic clock.
    DeadlineOverflow,
    /// The selected HTTP transport rejected or failed the request.
    Network(String),
    /// Document response metadata could not be captured or bound.
    DocumentPolicy(DocumentPolicyError),
    /// A redirect target was missing, ambiguous, malformed, or prohibited.
    RedirectLocation(RedirectLocationFailure),
    /// A 3xx status has semantics outside the admitted top-level GET set.
    UnsupportedRedirectStatus {
        /// Unsupported status returned by the server.
        status: u16,
    },
    /// The normalized redirect chain repeated a URL.
    RedirectLoop,
    /// The redirect chain exceeded its hard ordinary-redirect bound.
    TooManyRedirects {
        /// Maximum redirects admitted before the final response.
        maximum: u8,
    },
    /// Transport security evidence contradicted the exact requested scheme.
    TransportSecurityMismatch,
    /// A non-success HTTP response was returned.
    HttpStatus(u16),
    /// The bounded parser currently accepts only UTF-8 document bytes.
    NonUtf8Html,
    /// HTML tokenization or tree construction failed.
    Html(String),
    /// Immutable DOM snapshot validation failed.
    Dom(String),
    /// Style preparation rejected the document.
    Style(String),
    /// Layout rejected the exact DOM/style publication.
    Layout(String),
    /// Font selection or shaping failed.
    Text(String),
    /// The renderer scene contract rejected layout output.
    Scene(String),
    /// The headless renderer, its readback, or its shutdown failed.
    Headless(String),
    /// A bounded evidence counter overflowed.
    EvidenceOverflow,
    /// No additional valid renderer epoch can be allocated.
    EpochExhausted,
    /// No additional presentation-scene revision can be allocated.
    PresentationRevisionExhausted,
}

/// What the worker reports of a failed pipeline operation.
pub open spec fn reported(error: PipelineError) -> ExecutionFailure {
    match error {
        PipelineError::Cancelled { stage } => ExecutionFailure::of(
            ExecutionFailureKind::Cancelled,
            crate::failure::navigation_stage(stage),
        ),
        PipelineError::DeadlineExceeded { stage } => ExecutionFailure::of(
            ExecutionFailureKind::DeadlineExceeded,
            crate::failure::navigation_stage(stage),
        ),
        PipelineError::Network(_) => ExecutionFailure::of(
            ExecutionFailureKind::Network,
            NavigationStage::Fetch,
        ),
        PipelineError::DocumentPolicy(error) => if error is BindingMismatch {
            ExecutionFailure::of(ExecutionFailureKind::Internal, NavigationStage::Document)
        } else {
            ExecutionFailure::of(ExecutionFailureKind::ResourceLimit, NavigationStage::Fetch)
        },
        PipelineError::InvalidConfiguration { .. }
        | PipelineError::DeadlineOverflow
        | PipelineError::EvidenceOverflow
        | PipelineError::EpochExhausted
        | PipelineError::PresentationRevisionExhausted => ExecutionFailure::of(
            ExecutionFailureKind::ResourceLimit,
            NavigationStage::Render,
        ),
        PipelineError::RedirectLocation(_)
        | PipelineError::UnsupportedRedirectStatus { .. }
        | PipelineError::RedirectLoop
        | PipelineError::TooManyRedirects { .. }
        | PipelineError::TransportSecurityMismatch => ExecutionFailure::of(
            ExecutionFailureKind::Rejected,
            NavigationStage::Fetch,
        ),
        PipelineError::HttpStatus(_) | PipelineError::NonUtf8Html => ExecutionFailure::of(
            ExecutionFailureKind::Rejected,
            NavigationStage::Document,
        ),
        PipelineError::Html(_) | PipelineError::Dom(_) => ExecutionFailure::of(
            ExecutionFailureKind::Document,
            NavigationStage::Document,
        ),
        PipelineError::Style(_) => ExecutionFailure::of(
            ExecutionFailureKind::Document,
            NavigationStage::Style,
        ),
        PipelineError::Layout(_) | PipelineError::Text(_) => ExecutionFailure::of(
            ExecutionFailureKind::Document,
            NavigationStage::Layout,
        ),
        PipelineError::Scene(_) | PipelineError::Headless(_) => ExecutionFailure::of(
            ExecutionFailureKind::Rendering,
            NavigationStage::Render,
        ),
    }
}

/// Reports a failed pipeline operation.
pub fn map_pipeline_error(error: &PipelineError) -> (failure: ExecutionFailure)
    ensures
        failure == reported(*error),
{
    match error {
        PipelineError::Cancelled { stage } => {
            ExecutionFailure::new(ExecutionFailureKind::Cancelled, map_pipeline_stage(*stage))
        },
        PipelineError::DeadlineExceeded { stage } => ExecutionFailure::new(
            ExecutionFailureKind::DeadlineExceeded,
            map_pipeline_stage(*stage),
        ),
        PipelineError::Network(_) => {
            ExecutionFailure::new(ExecutionFailureKind::Network, NavigationStage::Fetch)
        },
        PipelineError::DocumentPolicy(DocumentPolicyError::BindingMismatch) => {
            ExecutionFailure::new(ExecutionFailureKind::Internal, NavigationStage::Document)
        },
        PipelineError::DocumentPolicy(_) => {
            ExecutionFailure::new(ExecutionFailureKind::ResourceLimit, NavigationStage::Fetch)
        },
        PipelineError::InvalidConfiguration { .. }
        | PipelineError::DeadlineOverflow
        | PipelineError::EvidenceOverflow
        | PipelineError::EpochExhausted
        | PipelineError::PresentationRevisionExhausted => {
            ExecutionFailure::new(ExecutionFailureKind::ResourceLimit, NavigationStage::Render)
        },
        PipelineError::RedirectLocation(_)
        | PipelineError::UnsupportedRedirectStatus { .. }
        | PipelineError::RedirectLoop
        | PipelineError::TooManyRedirects { .. }
        | PipelineError::TransportSecurityMismatch => {
            ExecutionFailure::new(ExecutionFailureKind::Rejected, NavigationStage::Fetch)
        },
        PipelineError::HttpStatus(_) | PipelineError::NonUtf8Html => {
            ExecutionFailure::new(ExecutionFailureKind::Rejected, NavigationStage::Document)
        },
        PipelineError::Html(_) | PipelineError::Dom(_) => {
            ExecutionFailure::new(ExecutionFailureKind::Document, NavigationStage::Document)
        },
        PipelineError::Style(_) => {
            ExecutionFailure::new(ExecutionFailureKind::Document, NavigationStage::Style)
        },
        PipelineError::Layout(_) | PipelineError::Text(_) => {
            ExecutionFailure::new(ExecutionFailureKind::Document, NavigationStage::Layout)
        },
        PipelineError::Scene(_) | PipelineError::Headless(_) => {
            ExecutionFailure::new(ExecutionFailureKind::Rendering, NavigationStage::Render)
        },
    }
}

/// What a document operation reports of a failed pipeline operation.
pub open spec fn operation_failure(error: PipelineError) -> DocumentOperationFailure {
    match reported(error).kind {
        ExecutionFailureKind::Cancelled => DocumentOperationFailure::Cancelled,
        ExecutionFailureKind::DeadlineExceeded => DocumentOperationFailure::DeadlineExceeded,
        ExecutionFailureKind::Rejected | ExecutionFailureKind::Document =>
            DocumentOperationFailure::Document,
        ExecutionFailureKind::Rendering => DocumentOperationFailure::Rendering,
        ExecutionFailureKind::ResourceLimit => DocumentOperationFailure::ResourceLimit,
        ExecutionFailureKind::Internal | ExecutionFailureKind::Network =>
            DocumentOperationFailure::Internal,
    }
}

/// Reports a failed pipeline operation on a live document.
pub fn map_document_pipeline_error(error: &PipelineError) -> (failure: DocumentOperationFailure)
    ensures
        failure == operation_failure(*error),
{
    match map_pipeline_error(error).kind() {
        ExecutionFailureKind::Cancelled => DocumentOperationFailure::Cancelled,
        ExecutionFailureKind::DeadlineExceeded => DocumentOperationFailure::DeadlineExceeded,
        ExecutionFailureKind::Rejected | ExecutionFailureKind::Document => {
            DocumentOperationFailure::Document
        },
        ExecutionFailureKind::Rendering => DocumentOperationFailure::Rendering,
        ExecutionFailureKind::ResourceLimit => DocumentOperationFailure::ResourceLimit,
        ExecutionFailureKind::Internal | ExecutionFailureKind::Network => {
            DocumentOperationFailure::Internal
        },
    }
}

/// Why an operation ends at a safe point, if it does: cancellation comes before
/// an elapsed deadline.
pub open spec fn control_failure(control: Checkpoint, stage: PipelineStage) -> Option<
    PipelineError,
> {
    if control.cancelled {
        Some(PipelineError::Cancelled { stage })
    } else if control.expired {
        Some(PipelineError::DeadlineExceeded { stage })
    } else {
        None
    }
}

/// Ends an operation that was cancelled or whose deadline elapsed.
pub fn checkpoint(control: Checkpoint, stage: PipelineStage) -> (result: Result<(), PipelineError>)
    ensures
        result == match control_failure(control, stage) {
            Some(error) => Err(error),
            None => Ok(()),
        },
{
    if control.cancelled {
        return Err(PipelineError::Cancelled { stage });
    }
    if control.expired {
        return Err(PipelineError::DeadlineExceeded { stage });
    }
    Ok(())
}

/// Attributes a failed exchange to cancellation or the deadline where either
/// was observed, and to the transport otherwise.
pub fn map_fetch_error(error: String, control: Checkpoint) -> (failure: PipelineError)
    ensures
        failure == match control_failure(control, PipelineStage::Fetch) {
            Some(failure) => failure,
            None => PipelineError::Network(error),
        },
{
    if control.cancelled {
        PipelineError::Cancelled { stage: PipelineStage::Fetch }
    } else if control.expired {
        PipelineError::DeadlineExceeded { stage: PipelineStage::Fetch }
    } else {
        PipelineError::Network(error)
    }
}

/// A failed navigation keeps the stage at which it was stopped, so a
/// cancellation or an elapsed deadline is never reported as another failure.
pub proof fn control_is_reported(control: Checkpoint, stage: PipelineStage)
    ensures
        control_failure(control, stage) matches Some(error) ==> reported(error) == (
        ExecutionFailure {
            kind: if control.cancelled {
                ExecutionFailureKind::Cancelled
            } else {
                ExecutionFailureKind::DeadlineExceeded
            },
            stage: crate::failure::navigation_stage(stage),
            renderer_unusable: false,
        }),
{
}

} // verus!
