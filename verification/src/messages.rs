//! What errors say of themselves.

use vstd::prelude::*;

use crate::commit::NavigationRequestError;
use crate::csp_policy::{
    StylePolicyAllocation, StylePolicyError, StylePolicyInput, StylePolicyLimit,
};
use crate::document_policy::{DocumentPolicyError, DocumentPolicyField, DocumentPolicyLimit};
use crate::dynamic::{DocumentUpdateError, DocumentUpdateRejection};
use crate::failure::PipelineStage;
use crate::limits::EngineLimitsError;
use crate::pipeline_error::{PipelineError, RedirectLocationFailure};
use crate::style_fetch::{StyleFetchLimit, StyleFetchOwnerError};
use crate::text::decimal_text;

verus! {

/// Appends a number in decimal.
pub(crate) fn append_number(text: &mut String, number: u64)
    ensures
        final(text)@ == old(text)@ + crate::text::decimal_chars(number as nat),
{
    text.append(decimal_text(number).as_str());
}

impl DocumentPolicyField {
    /// Name of the field family.
    pub open spec fn name_of(self) -> Seq<char> {
        match self {
            DocumentPolicyField::EnforcingContentSecurityPolicy => "EnforcingContentSecurityPolicy"@,
            DocumentPolicyField::ReportOnlyContentSecurityPolicy => "ReportOnlyContentSecurityPolicy"@,
            DocumentPolicyField::ReferrerPolicy => "ReferrerPolicy"@,
            DocumentPolicyField::ContentType => "ContentType"@,
            DocumentPolicyField::SetCookie => "SetCookie"@,
            DocumentPolicyField::Aggregate => "Aggregate"@,
        }
    }

    /// Name of the field family.
    pub fn name(self) -> (name: &'static str)
        ensures
            name@ == self.name_of(),
    {
        match self {
            DocumentPolicyField::EnforcingContentSecurityPolicy => "EnforcingContentSecurityPolicy",
            DocumentPolicyField::ReportOnlyContentSecurityPolicy => "ReportOnlyContentSecurityPolicy",
            DocumentPolicyField::ReferrerPolicy => "ReferrerPolicy",
            DocumentPolicyField::ContentType => "ContentType",
            DocumentPolicyField::SetCookie => "SetCookie",
            DocumentPolicyField::Aggregate => "Aggregate",
        }
    }
}

impl DocumentPolicyLimit {
    /// Name of the bounded resource.
    pub open spec fn name_of(self) -> Seq<char> {
        match self {
            DocumentPolicyLimit::FieldCount => "FieldCount"@,
            DocumentPolicyLimit::FieldBytes => "FieldBytes"@,
            DocumentPolicyLimit::AggregateBytes => "AggregateBytes"@,
            DocumentPolicyLimit::TokenCount => "TokenCount"@,
            DocumentPolicyLimit::RetainedInputCount => "RetainedInputCount"@,
            DocumentPolicyLimit::CharsetCount => "CharsetCount"@,
        }
    }

    /// Name of the bounded resource.
    pub fn name(self) -> (name: &'static str)
        ensures
            name@ == self.name_of(),
    {
        match self {
            DocumentPolicyLimit::FieldCount => "FieldCount",
            DocumentPolicyLimit::FieldBytes => "FieldBytes",
            DocumentPolicyLimit::AggregateBytes => "AggregateBytes",
            DocumentPolicyLimit::TokenCount => "TokenCount",
            DocumentPolicyLimit::RetainedInputCount => "RetainedInputCount",
            DocumentPolicyLimit::CharsetCount => "CharsetCount",
        }
    }
}

impl StylePolicyInput {
    /// Name of the field family.
    pub open spec fn name_of(self) -> Seq<char> {
        match self {
            StylePolicyInput::Enforcing => "Enforcing"@,
            StylePolicyInput::ReportOnly => "ReportOnly"@,
            StylePolicyInput::Aggregate => "Aggregate"@,
        }
    }

    /// Name of the field family.
    pub fn name(self) -> (name: &'static str)
        ensures
            name@ == self.name_of(),
    {
        match self {
            StylePolicyInput::Enforcing => "Enforcing",
            StylePolicyInput::ReportOnly => "ReportOnly",
            StylePolicyInput::Aggregate => "Aggregate",
        }
    }
}

impl StylePolicyLimit {
    /// Name of the bounded resource.
    pub open spec fn name_of(self) -> Seq<char> {
        match self {
            StylePolicyLimit::PolicyMemberCount => "PolicyMemberCount"@,
            StylePolicyLimit::PolicyBytes => "PolicyBytes"@,
            StylePolicyLimit::DirectiveCount => "DirectiveCount"@,
            StylePolicyLimit::SourceExpressionCount => "SourceExpressionCount"@,
            StylePolicyLimit::SourceTokenBytes => "SourceTokenBytes"@,
            StylePolicyLimit::PolicyWork => "PolicyWork"@,
        }
    }

    /// Name of the bounded resource.
    pub fn name(self) -> (name: &'static str)
        ensures
            name@ == self.name_of(),
    {
        match self {
            StylePolicyLimit::PolicyMemberCount => "PolicyMemberCount",
            StylePolicyLimit::PolicyBytes => "PolicyBytes",
            StylePolicyLimit::DirectiveCount => "DirectiveCount",
            StylePolicyLimit::SourceExpressionCount => "SourceExpressionCount",
            StylePolicyLimit::SourceTokenBytes => "SourceTokenBytes",
            StylePolicyLimit::PolicyWork => "PolicyWork",
        }
    }
}

impl StylePolicyAllocation {
    /// Name of the allocation.
    pub open spec fn name_of(self) -> Seq<char> {
        match self {
            StylePolicyAllocation::Policy => "Policy"@,
            StylePolicyAllocation::SourceList => "SourceList"@,
            StylePolicyAllocation::Host => "Host"@,
            StylePolicyAllocation::Nonce => "Nonce"@,
            StylePolicyAllocation::UnsupportedSource => "UnsupportedSource"@,
            StylePolicyAllocation::HostNormalization => "HostNormalization"@,
        }
    }

    /// Name of the allocation.
    pub fn name(self) -> (name: &'static str)
        ensures
            name@ == self.name_of(),
    {
        match self {
            StylePolicyAllocation::Policy => "Policy",
            StylePolicyAllocation::SourceList => "SourceList",
            StylePolicyAllocation::Host => "Host",
            StylePolicyAllocation::Nonce => "Nonce",
            StylePolicyAllocation::UnsupportedSource => "UnsupportedSource",
            StylePolicyAllocation::HostNormalization => "HostNormalization",
        }
    }
}

impl StyleFetchLimit {
    /// Name of the bound.
    pub open spec fn name_of(self) -> Seq<char> {
        match self {
            StyleFetchLimit::Responses => "Responses"@,
            StyleFetchLimit::ResponseBodyBytes => "ResponseBodyBytes"@,
            StyleFetchLimit::AggregateBodyBytes => "AggregateBodyBytes"@,
            StyleFetchLimit::Redirects => "Redirects"@,
            StyleFetchLimit::HttpExchanges => "HttpExchanges"@,
            StyleFetchLimit::Diagnostics => "Diagnostics"@,
            StyleFetchLimit::ContentTypeBytes => "ContentTypeBytes"@,
            StyleFetchLimit::AggregateHeaderBytes => "AggregateHeaderBytes"@,
            StyleFetchLimit::WireHeaderBytes => "WireHeaderBytes"@,
            StyleFetchLimit::WireHeaderFields => "WireHeaderFields"@,
            StyleFetchLimit::WireBodyBytes => "WireBodyBytes"@,
            StyleFetchLimit::WireChunkLineBytes => "WireChunkLineBytes"@,
            StyleFetchLimit::DnsCandidates => "DnsCandidates"@,
            StyleFetchLimit::ConnectionAttempts => "ConnectionAttempts"@,
            StyleFetchLimit::TlsHandshakeBytes => "TlsHandshakeBytes"@,
        }
    }

    /// Name of the bound.
    pub fn name(self) -> (name: &'static str)
        ensures
            name@ == self.name_of(),
    {
        match self {
            StyleFetchLimit::Responses => "Responses",
            StyleFetchLimit::ResponseBodyBytes => "ResponseBodyBytes",
            StyleFetchLimit::AggregateBodyBytes => "AggregateBodyBytes",
            StyleFetchLimit::Redirects => "Redirects",
            StyleFetchLimit::HttpExchanges => "HttpExchanges",
            StyleFetchLimit::Diagnostics => "Diagnostics",
            StyleFetchLimit::ContentTypeBytes => "ContentTypeBytes",
            StyleFetchLimit::AggregateHeaderBytes => "AggregateHeaderBytes",
            StyleFetchLimit::WireHeaderBytes => "WireHeaderBytes",
            StyleFetchLimit::WireHeaderFields => "WireHeaderFields",
            StyleFetchLimit::WireBodyBytes => "WireBodyBytes",
            StyleFetchLimit::WireChunkLineBytes => "WireChunkLineBytes",
            StyleFetchLimit::DnsCandidates => "DnsCandidates",
            StyleFetchLimit::ConnectionAttempts => "ConnectionAttempts",
            StyleFetchLimit::TlsHandshakeBytes => "TlsHandshakeBytes",
        }
    }
}

impl RedirectLocationFailure {
    /// Name of the failure.
    pub open spec fn name_of(self) -> Seq<char> {
        match self {
            RedirectLocationFailure::Missing => "Missing"@,
            RedirectLocationFailure::Multiple => "Multiple"@,
            RedirectLocationFailure::NonUtf8 => "NonUtf8"@,
            RedirectLocationFailure::Invalid => "Invalid"@,
            RedirectLocationFailure::CredentialsNotAllowed => "CredentialsNotAllowed"@,
            RedirectLocationFailure::UnsupportedScheme => "UnsupportedScheme"@,
            RedirectLocationFailure::UrlTooLong => "UrlTooLong"@,
        }
    }

    /// Name of the failure.
    pub fn name(self) -> (name: &'static str)
        ensures
            name@ == self.name_of(),
    {
        match self {
            RedirectLocationFailure::Missing => "Missing",
            RedirectLocationFailure::Multiple => "Multiple",
            RedirectLocationFailure::NonUtf8 => "NonUtf8",
            RedirectLocationFailure::Invalid => "Invalid",
            RedirectLocationFailure::CredentialsNotAllowed => "CredentialsNotAllowed",
            RedirectLocationFailure::UnsupportedScheme => "UnsupportedScheme",
            RedirectLocationFailure::UrlTooLong => "UrlTooLong",
        }
    }
}

impl NavigationRequestError {
    /// What the error says.
    pub open spec fn text_of(self) -> Seq<char> {
        match self {
            NavigationRequestError::EmptyUrl => "navigation URL must not be empty"@,
            NavigationRequestError::UrlTooLong { actual, maximum } => "navigation URL has "@ + crate::text::decimal_chars(actual as nat) + " bytes; maximum is "@ + crate::text::decimal_chars(maximum as nat),
        }
    }

    /// What the error says.
    pub fn message(&self) -> (message: String)
        ensures
            message@ == self.text_of(),
    {
        match self {
            NavigationRequestError::EmptyUrl => "navigation URL must not be empty".to_owned(),
            NavigationRequestError::UrlTooLong { actual, maximum } => {
                let mut message: String = "navigation URL has ".to_owned();
                append_number(&mut message, *actual as u64);
                message.append(" bytes; maximum is ");
                append_number(&mut message, *maximum as u64);
                message
            },
        }
    }
}

impl EngineLimitsError {
    /// What the error says.
    pub open spec fn text_of(self) -> Seq<char> {
        match self {
            EngineLimitsError::Zero { field } => field@ + " must be nonzero"@,
            EngineLimitsError::TooLarge { field, actual, maximum } => field@ + " is "@ + crate::text::decimal_chars(actual as nat) + "; maximum is "@ + crate::text::decimal_chars(maximum as nat),
            EngineLimitsError::TooSmall { field, actual, minimum } => field@ + " is "@ + crate::text::decimal_chars(actual as nat) + "; minimum is "@ + crate::text::decimal_chars(minimum as nat),
        }
    }

    /// What the error says.
    pub fn message(&self) -> (message: String)
        ensures
            message@ == self.text_of(),
    {
        match self {
            EngineLimitsError::Zero { field } => {
                let mut message: String = (*field).to_owned();
                message.append(" must be nonzero");
                message
            },
            EngineLimitsError::TooLarge { field, actual, maximum } => {
                let mut message: String = (*field).to_owned();
                message.append(" is ");
                append_number(&mut message, *actual as u64);
                message.append("; maximum is ");
                append_number(&mut message, *maximum as u64);
                message
            },
            EngineLimitsError::TooSmall { field, actual, minimum } => {
                let mut message: String = (*field).to_owned();
                message.append(" is ");
                append_number(&mut message, *actual as u64);
                message.append("; minimum is ");
                append_number(&mut message, *minimum as u64);
                message
            },
        }
    }
}

impl DocumentPolicyError {
    /// What the error says.
    pub open spec fn text_of(self) -> Seq<char> {
        match self {
            DocumentPolicyError::LimitExceeded { field, limit, actual, maximum } => "document response metadata exceeded "@ + field.name_of() + " "@ + limit.name_of() + " bound ("@ + crate::text::decimal_chars(actual as nat) + " > "@ + crate::text::decimal_chars(maximum as nat) + ")"@,
            DocumentPolicyError::CounterOverflow { field } => "document response metadata "@ + field.name_of() + " counter overflowed"@,
            DocumentPolicyError::AllocationFailed { field } => "bounded allocation failed while capturing "@ + field.name_of() + " response metadata"@,
            DocumentPolicyError::BindingMismatch => "captured response metadata did not match its document/navigation identity"@,
        }
    }

    /// What the error says.
    pub fn message(&self) -> (message: String)
        ensures
            message@ == self.text_of(),
    {
        match self {
            DocumentPolicyError::LimitExceeded { field, limit, actual, maximum } => {
                let mut message: String = "document response metadata exceeded ".to_owned();
                message.append(field.name());
                message.append(" ");
                message.append(limit.name());
                message.append(" bound (");
                append_number(&mut message, *actual as u64);
                message.append(" > ");
                append_number(&mut message, *maximum as u64);
                message.append(")");
                message
            },
            DocumentPolicyError::CounterOverflow { field } => {
                let mut message: String = "document response metadata ".to_owned();
                message.append(field.name());
                message.append(" counter overflowed");
                message
            },
            DocumentPolicyError::AllocationFailed { field } => {
                let mut message: String = "bounded allocation failed while capturing ".to_owned();
                message.append(field.name());
                message.append(" response metadata");
                message
            },
            DocumentPolicyError::BindingMismatch => "captured response metadata did not match its document/navigation identity".to_owned(),
        }
    }
}

impl StylePolicyError {
    /// What the error says.
    pub open spec fn text_of(self) -> Seq<char> {
        match self {
            StylePolicyError::InvalidDocumentCommit => "invalid final document commitment for style policy"@,
            StylePolicyError::InvalidCandidateUrl => "invalid HTTP(S) candidate for style policy"@,
            StylePolicyError::NonCanonicalCandidateUrl => "noncanonical HTTP(S) candidate for style policy"@,
            StylePolicyError::LimitExceeded { input, limit, actual, maximum } => "style policy exceeded "@ + input.name_of() + " "@ + limit.name_of() + " bound ("@ + crate::text::decimal_chars(actual as nat) + " > "@ + crate::text::decimal_chars(maximum as nat) + ")"@,
            StylePolicyError::CounterOverflow { input } => "style policy "@ + input.name_of() + " counter overflowed"@,
            StylePolicyError::AllocationFailed { allocation } => "bounded allocation failed while retaining "@ + allocation.name_of() + " style policy data"@,
        }
    }

    /// What the error says.
    pub fn message(&self) -> (message: String)
        ensures
            message@ == self.text_of(),
    {
        match self {
            StylePolicyError::InvalidDocumentCommit => "invalid final document commitment for style policy".to_owned(),
            StylePolicyError::InvalidCandidateUrl => "invalid HTTP(S) candidate for style policy".to_owned(),
            StylePolicyError::NonCanonicalCandidateUrl => "noncanonical HTTP(S) candidate for style policy".to_owned(),
            StylePolicyError::LimitExceeded { input, limit, actual, maximum } => {
                let mut message: String = "style policy exceeded ".to_owned();
                message.append(input.name());
                message.append(" ");
                message.append(limit.name());
                message.append(" bound (");
                append_number(&mut message, *actual as u64);
                message.append(" > ");
                append_number(&mut message, *maximum as u64);
                message.append(")");
                message
            },
            StylePolicyError::CounterOverflow { input } => {
                let mut message: String = "style policy ".to_owned();
                message.append(input.name());
                message.append(" counter overflowed");
                message
            },
            StylePolicyError::AllocationFailed { allocation } => {
                let mut message: String = "bounded allocation failed while retaining ".to_owned();
                message.append(allocation.name());
                message.append(" style policy data");
                message
            },
        }
    }
}

impl StyleFetchOwnerError {
    /// What the error says.
    pub open spec fn text_of(self) -> Seq<char> {
        match self {
            StyleFetchOwnerError::LimitWouldEnlarge(limit) => "stylesheet fetch "@ + limit.name_of() + " limit would enlarge hard policy"@,
            StyleFetchOwnerError::TransportPolicyInvalid => "stylesheet fetch transport policy is invalid"@,
            StyleFetchOwnerError::AuthorityUnavailable => "stylesheet fetch document authority is unavailable"@,
            StyleFetchOwnerError::AuthorityAlreadyIssued => "stylesheet fetch document authority was already issued"@,
            StyleFetchOwnerError::ProductNavigationRequired => "stylesheet fetch product navigation authority is required"@,
            StyleFetchOwnerError::NonProductDocumentRequired => "stylesheet fetch non-product document authority is required"@,
        }
    }

    /// What the error says.
    pub fn message(&self) -> (message: String)
        ensures
            message@ == self.text_of(),
    {
        match self {
            StyleFetchOwnerError::LimitWouldEnlarge(limit) => {
                let mut message: String = "stylesheet fetch ".to_owned();
                message.append(limit.name());
                message.append(" limit would enlarge hard policy");
                message
            },
            StyleFetchOwnerError::TransportPolicyInvalid => "stylesheet fetch transport policy is invalid".to_owned(),
            StyleFetchOwnerError::AuthorityUnavailable => "stylesheet fetch document authority is unavailable".to_owned(),
            StyleFetchOwnerError::AuthorityAlreadyIssued => "stylesheet fetch document authority was already issued".to_owned(),
            StyleFetchOwnerError::ProductNavigationRequired => "stylesheet fetch product navigation authority is required".to_owned(),
            StyleFetchOwnerError::NonProductDocumentRequired => "stylesheet fetch non-product document authority is required".to_owned(),
        }
    }
}

impl PipelineStage {
    /// What the stage is called.
    pub open spec fn text_of(self) -> Seq<char> {
        match self {
            PipelineStage::Fetch => "fetch"@,
            PipelineStage::Parse => "HTML parse"@,
            PipelineStage::Snapshot => "DOM snapshot"@,
            PipelineStage::Style => "Stylo style preparation"@,
            PipelineStage::Layout => "layout"@,
            PipelineStage::SceneCompilation => "scene compilation"@,
            PipelineStage::TextShaping => "text shaping"@,
            PipelineStage::ComposedRender => "composed rendering"@,
        }
    }

    /// What the stage is called.
    pub fn message(&self) -> (message: String)
        ensures
            message@ == self.text_of(),
    {
        match self {
            PipelineStage::Fetch => "fetch".to_owned(),
            PipelineStage::Parse => "HTML parse".to_owned(),
            PipelineStage::Snapshot => "DOM snapshot".to_owned(),
            PipelineStage::Style => "Stylo style preparation".to_owned(),
            PipelineStage::Layout => "layout".to_owned(),
            PipelineStage::SceneCompilation => "scene compilation".to_owned(),
            PipelineStage::TextShaping => "text shaping".to_owned(),
            PipelineStage::ComposedRender => "composed rendering".to_owned(),
        }
    }
}

impl PipelineError {
    /// What the error says.
    pub open spec fn text_of(self) -> Seq<char> {
        match self {
            PipelineError::InvalidConfiguration { field, detail } => "invalid "@ + field@ + ": "@ + detail@,
            PipelineError::Cancelled { stage } => "cancelled during "@ + stage.text_of(),
            PipelineError::DeadlineExceeded { stage } => "operation deadline exceeded during "@ + stage.text_of(),
            PipelineError::DeadlineOverflow => "operation deadline exceeds the monotonic clock range"@,
            PipelineError::Network(error) => "HTTP transport failed: "@ + error@,
            PipelineError::DocumentPolicy(error) => error.text_of(),
            PipelineError::RedirectLocation(failure) => "HTTP redirect target was rejected: "@ + failure.name_of(),
            PipelineError::UnsupportedRedirectStatus { status } => "HTTP status "@ + crate::text::decimal_chars(status as nat) + " has unsupported redirect semantics"@,
            PipelineError::RedirectLoop => "HTTP redirect loop detected"@,
            PipelineError::TooManyRedirects { maximum } => "HTTP redirect chain exceeded "@ + crate::text::decimal_chars(maximum as nat) + " hops"@,
            PipelineError::TransportSecurityMismatch => "HTTP transport security evidence contradicted the requested URL scheme"@,
            PipelineError::HttpStatus(status) => "HTTP returned status "@ + crate::text::decimal_chars(status as nat),
            PipelineError::NonUtf8Html => "document bytes are not UTF-8; HTML encoding sniffing is not integrated yet"@,
            PipelineError::Html(error) => "HTML parsing failed: "@ + error@,
            PipelineError::Dom(error) => "DOM snapshot failed: "@ + error@,
            PipelineError::Style(error) => "Stylo preparation failed: "@ + error@,
            PipelineError::Layout(error) => "layout failed: "@ + error@,
            PipelineError::Text(error) => "text shaping failed: "@ + error@,
            PipelineError::Scene(error) => "scene compilation failed: "@ + error@,
            PipelineError::Headless(error) => "headless WebRender failed: "@ + error@,
            PipelineError::EvidenceOverflow => "pipeline evidence counter overflowed"@,
            PipelineError::EpochExhausted => "WebRender epoch space is exhausted"@,
            PipelineError::PresentationRevisionExhausted => "presentation scene revision space is exhausted"@,
        }
    }

    /// What the error says.
    pub fn message(&self) -> (message: String)
        ensures
            message@ == self.text_of(),
    {
        match self {
            PipelineError::InvalidConfiguration { field, detail } => {
                let mut message: String = "invalid ".to_owned();
                message.append(field);
                message.append(": ");
                message.append(detail);
                message
            },
            PipelineError::Cancelled { stage } => {
                let mut message: String = "cancelled during ".to_owned();
                message.append(stage.message().as_str());
                message
            },
            PipelineError::DeadlineExceeded { stage } => {
                let mut message: String = "operation deadline exceeded during ".to_owned();
                message.append(stage.message().as_str());
                message
            },
            PipelineError::DeadlineOverflow => "operation deadline exceeds the monotonic clock range".to_owned(),
            PipelineError::Network(error) => {
                let mut message: String = "HTTP transport failed: ".to_owned();
                message.append(error.as_str());
                message
            },
            PipelineError::DocumentPolicy(error) => error.message(),
            PipelineError::RedirectLocation(failure) => {
                let mut message: String = "HTTP redirect target was rejected: ".to_owned();
                message.append(failure.name());
                message
            },
            PipelineError::UnsupportedRedirectStatus { status } => {
                let mut message: String = "HTTP status ".to_owned();
                append_number(&mut message, *status as u64);
                message.append(" has unsupported redirect semantics");
                message
            },
            PipelineError::RedirectLoop => "HTTP redirect loop detected".to_owned(),
            PipelineError::TooManyRedirects { maximum } => {
                let mut message: String = "HTTP redirect chain exceeded ".to_owned();
                append_number(&mut message, *maximum as u64);
                message.append(" hops");
                message
            },
            PipelineError::TransportSecurityMismatch => "HTTP transport security evidence contradicted the requested URL scheme".to_owned(),
            PipelineError::HttpStatus(status) => {
                let mut message: String = "HTTP returned status ".to_owned();
                append_number(&mut message, *status as u64);
                message
            },
            PipelineError::NonUtf8Html => "document bytes are not UTF-8; HTML encoding sniffing is not integrated yet".to_owned(),
            PipelineError::Html(error) => {
                let mut message: String = "HTML parsing failed: ".to_owned();
                message.append(error.as_str());
                message
            },
            PipelineError::Dom(error) => {
                let mut message: String = "DOM snapshot failed: ".to_owned();
                message.append(error.as_str());
                message
            },
            PipelineError::Style(error) => {
                let mut message: String = "Stylo preparation failed: ".to_owned();
                message.append(error.as_str());
                message
            },
            PipelineError::Layout(error) => {
                let mut message: String = "layout failed: ".to_owned();
                message.append(error.as_str());
                message
            },
            PipelineError::Text(error) => {
                let mut message: String = "text shaping failed: ".to_owned();
                message.append(error.as_str());
                message
            },
            PipelineError::Scene(error) => {
                let mut message: String = "scene compilation failed: ".to_owned();
                message.append(error.as_str());
                message
            },
            PipelineError::Headless(error) => {
                let mut message: String = "headless WebRender failed: ".to_owned();
                message.append(error.as_str());
                message
            },
            PipelineError::EvidenceOverflow => "pipeline evidence counter overflowed".to_owned(),
            PipelineError::EpochExhausted => "WebRender epoch space is exhausted".to_owned(),
            PipelineError::PresentationRevisionExhausted => "presentation scene revision space is exhausted".to_owned(),
        }
    }
}

impl DocumentUpdateRejection {
    /// What the error says.
    pub open spec fn text_of(self) -> Seq<char> {
        match self {
            DocumentUpdateRejection::NoLiveDocument => "no live document is retained"@,
            DocumentUpdateRejection::RendererUnavailable => "the headless renderer is unusable; tear down and reload the engine"@,
            DocumentUpdateRejection::LiveVersionMismatch { expected, actual } => "rerender expected document "@ + crate::text::decimal_chars(expected.document_id as nat) + " revision "@ + crate::text::decimal_chars(expected.revision as nat) + ", but live document is "@ + crate::text::decimal_chars(actual.document_id as nat) + " revision "@ + crate::text::decimal_chars(actual.revision as nat),
            DocumentUpdateRejection::Pipeline(error) => error.text_of(),
            DocumentUpdateRejection::Mutation(error) => error@,
        }
    }

    /// What the error says.
    pub fn message(&self) -> (message: String)
        ensures
            message@ == self.text_of(),
    {
        match self {
            DocumentUpdateRejection::NoLiveDocument => "no live document is retained".to_owned(),
            DocumentUpdateRejection::RendererUnavailable => "the headless renderer is unusable; tear down and reload the engine".to_owned(),
            DocumentUpdateRejection::LiveVersionMismatch { expected, actual } => {
                let mut message: String = "rerender expected document ".to_owned();
                append_number(&mut message, expected.document_id);
                message.append(" revision ");
                append_number(&mut message, expected.revision);
                message.append(", but live document is ");
                append_number(&mut message, actual.document_id);
                message.append(" revision ");
                append_number(&mut message, actual.revision);
                message
            },
            DocumentUpdateRejection::Pipeline(error) => error.message(),
            DocumentUpdateRejection::Mutation(error) => error.clone(),
        }
    }
}

impl DocumentUpdateError {
    /// What the error says.
    pub open spec fn text_of(self) -> Seq<char> {
        match self {
            DocumentUpdateError::Rejected { reason, .. } => "document update committed no DOM mutation: "@ + reason.text_of(),
            DocumentUpdateError::Committed { last_returned_frame_version, commit, source, .. } => "document update committed revision "@ + crate::text::decimal_chars(commit.version.revision as nat) + " but returned no frame after revision "@ + crate::text::decimal_chars(last_returned_frame_version.revision as nat) + ": "@ + source.text_of(),
        }
    }

    /// What the error says.
    pub fn message(&self) -> (message: String)
        ensures
            message@ == self.text_of(),
    {
        match self {
            DocumentUpdateError::Rejected { reason, .. } => {
                let mut message: String = "document update committed no DOM mutation: ".to_owned();
                message.append(reason.message().as_str());
                message
            },
            DocumentUpdateError::Committed { last_returned_frame_version, commit, source, .. } => {
                let mut message: String = "document update committed revision ".to_owned();
                append_number(&mut message, commit.version.revision);
                message.append(" but returned no frame after revision ");
                append_number(&mut message, last_returned_frame_version.revision);
                message.append(": ");
                message.append(source.message().as_str());
                message
            },
        }
    }
}

} // verus!
