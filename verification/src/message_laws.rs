//! What errors and values say of themselves.

use vstd::prelude::*;

use crate::commit::{
    NavigationAlpn, NavigationConnectionSecurity, NavigationRequestError, NavigationTlsVersion,
};
use crate::csp_policy::{
    StylePolicyAllocation, StylePolicyError, StylePolicyInput, StylePolicyLimit,
};
use crate::csp_source::{UnsupportedStyleSource, UnsupportedStyleSourceKind};
use crate::document_policy::{DocumentPolicyError, DocumentPolicyField, DocumentPolicyLimit};
use crate::dynamic::{DocumentUpdateError, DocumentUpdateRejection};
use crate::failure::PipelineStage;
use crate::frame::{FrameMetadata, PixelSize, Rgba8Metadata};
use crate::identity::{DocumentVersion, NavigationId};
use crate::limits::EngineLimitsError;
use crate::pipeline_error::{PipelineError, RedirectLocationFailure};
use crate::style_fetch::StyleFetchLimit;

verus! {

/// Whether a text begins with another.
pub open spec fn begins(text: Seq<char>, start: Seq<char>) -> bool {
    start.len() <= text.len() && text.take(start.len() as int) == start
}

/// Whether a text ends with another.
pub open spec fn ends(text: Seq<char>, end: Seq<char>) -> bool {
    end.len() <= text.len() && text.subrange(text.len() - end.len(), text.len() as int) == end
}

/// Two parts begin and end their whole.
proof fn two_parts(left: Seq<char>, right: Seq<char>)
    ensures
        begins(left + right, left),
        ends(left + right, right),
{
    assert((left + right).take(left.len() as int) =~= left);
    assert((left + right).subrange(left.len() as int, (left + right).len() as int) =~= right);
}

/// A number in decimal.
pub open spec fn number(value: int) -> Seq<char> {
    crate::text::decimal_chars(value as nat)
}

/// A field family is known by its name.
pub proof fn field_families_have_names(named: DocumentPolicyField)
    ensures
        named.name_of() == "EnforcingContentSecurityPolicy"@ <==> named is EnforcingContentSecurityPolicy,
        named.name_of() == "ReportOnlyContentSecurityPolicy"@ <==> named is ReportOnlyContentSecurityPolicy,
        named.name_of() == "ReferrerPolicy"@ <==> named is ReferrerPolicy,
        named.name_of() == "ContentType"@ <==> named is ContentType,
        named.name_of() == "SetCookie"@ <==> named is SetCookie,
        named.name_of() == "Aggregate"@ <==> named is Aggregate,
{
    reveal_strlit("EnforcingContentSecurityPolicy");
    assert("EnforcingContentSecurityPolicy"@.len() == 30);
    reveal_strlit("ReportOnlyContentSecurityPolicy");
    assert("ReportOnlyContentSecurityPolicy"@.len() == 31);
    reveal_strlit("ReferrerPolicy");
    assert("ReferrerPolicy"@.len() == 14);
    reveal_strlit("ContentType");
    assert("ContentType"@.len() == 11);
    reveal_strlit("SetCookie");
    assert("SetCookie"@.len() == 9);
    reveal_strlit("Aggregate");
    assert("Aggregate"@.len() == 9);
    assert("SetCookie"@[0] != "Aggregate"@[0]);
}

/// A bounded resource of a response is known by its name.
pub proof fn response_bounds_have_names(named: DocumentPolicyLimit)
    ensures
        named.name_of() == "FieldCount"@ <==> named is FieldCount,
        named.name_of() == "FieldBytes"@ <==> named is FieldBytes,
        named.name_of() == "AggregateBytes"@ <==> named is AggregateBytes,
        named.name_of() == "TokenCount"@ <==> named is TokenCount,
        named.name_of() == "RetainedInputCount"@ <==> named is RetainedInputCount,
        named.name_of() == "CharsetCount"@ <==> named is CharsetCount,
{
    reveal_strlit("FieldCount");
    assert("FieldCount"@.len() == 10);
    reveal_strlit("FieldBytes");
    assert("FieldBytes"@.len() == 10);
    reveal_strlit("AggregateBytes");
    assert("AggregateBytes"@.len() == 14);
    reveal_strlit("TokenCount");
    assert("TokenCount"@.len() == 10);
    reveal_strlit("RetainedInputCount");
    assert("RetainedInputCount"@.len() == 18);
    reveal_strlit("CharsetCount");
    assert("CharsetCount"@.len() == 12);
    assert("FieldCount"@[5] != "FieldBytes"@[5]);
    assert("FieldCount"@[0] != "TokenCount"@[0]);
    assert("FieldBytes"@[0] != "TokenCount"@[0]);
}

/// A policy field family is known by its name.
pub proof fn policy_inputs_have_names(named: StylePolicyInput)
    ensures
        named.name_of() == "Enforcing"@ <==> named is Enforcing,
        named.name_of() == "ReportOnly"@ <==> named is ReportOnly,
        named.name_of() == "Aggregate"@ <==> named is Aggregate,
{
    reveal_strlit("Enforcing");
    assert("Enforcing"@.len() == 9);
    reveal_strlit("ReportOnly");
    assert("ReportOnly"@.len() == 10);
    reveal_strlit("Aggregate");
    assert("Aggregate"@.len() == 9);
    assert("Enforcing"@[0] != "Aggregate"@[0]);
}

/// A bounded resource of policies is known by its name.
pub proof fn policy_bounds_have_names(named: StylePolicyLimit)
    ensures
        named.name_of() == "PolicyMemberCount"@ <==> named is PolicyMemberCount,
        named.name_of() == "PolicyBytes"@ <==> named is PolicyBytes,
        named.name_of() == "DirectiveCount"@ <==> named is DirectiveCount,
        named.name_of() == "SourceExpressionCount"@ <==> named is SourceExpressionCount,
        named.name_of() == "SourceTokenBytes"@ <==> named is SourceTokenBytes,
        named.name_of() == "PolicyWork"@ <==> named is PolicyWork,
{
    reveal_strlit("PolicyMemberCount");
    assert("PolicyMemberCount"@.len() == 17);
    reveal_strlit("PolicyBytes");
    assert("PolicyBytes"@.len() == 11);
    reveal_strlit("DirectiveCount");
    assert("DirectiveCount"@.len() == 14);
    reveal_strlit("SourceExpressionCount");
    assert("SourceExpressionCount"@.len() == 21);
    reveal_strlit("SourceTokenBytes");
    assert("SourceTokenBytes"@.len() == 16);
    reveal_strlit("PolicyWork");
    assert("PolicyWork"@.len() == 10);
}

/// An allocation is known by its name.
pub proof fn allocations_have_names(named: StylePolicyAllocation)
    ensures
        named.name_of() == "Policy"@ <==> named is Policy,
        named.name_of() == "SourceList"@ <==> named is SourceList,
        named.name_of() == "Host"@ <==> named is Host,
        named.name_of() == "Nonce"@ <==> named is Nonce,
        named.name_of() == "UnsupportedSource"@ <==> named is UnsupportedSource,
        named.name_of() == "HostNormalization"@ <==> named is HostNormalization,
{
    reveal_strlit("Policy");
    assert("Policy"@.len() == 6);
    reveal_strlit("SourceList");
    assert("SourceList"@.len() == 10);
    reveal_strlit("Host");
    assert("Host"@.len() == 4);
    reveal_strlit("Nonce");
    assert("Nonce"@.len() == 5);
    reveal_strlit("UnsupportedSource");
    assert("UnsupportedSource"@.len() == 17);
    reveal_strlit("HostNormalization");
    assert("HostNormalization"@.len() == 17);
    assert("UnsupportedSource"@[0] != "HostNormalization"@[0]);
}

/// A bound of fetching is known by its name.
pub proof fn fetch_bounds_have_names(named: StyleFetchLimit)
    ensures
        named.name_of() == "Responses"@ <==> named is Responses,
        named.name_of() == "ResponseBodyBytes"@ <==> named is ResponseBodyBytes,
        named.name_of() == "AggregateBodyBytes"@ <==> named is AggregateBodyBytes,
        named.name_of() == "Redirects"@ <==> named is Redirects,
        named.name_of() == "HttpExchanges"@ <==> named is HttpExchanges,
        named.name_of() == "Diagnostics"@ <==> named is Diagnostics,
        named.name_of() == "ContentTypeBytes"@ <==> named is ContentTypeBytes,
        named.name_of() == "AggregateHeaderBytes"@ <==> named is AggregateHeaderBytes,
        named.name_of() == "WireHeaderBytes"@ <==> named is WireHeaderBytes,
        named.name_of() == "WireHeaderFields"@ <==> named is WireHeaderFields,
        named.name_of() == "WireBodyBytes"@ <==> named is WireBodyBytes,
        named.name_of() == "WireChunkLineBytes"@ <==> named is WireChunkLineBytes,
        named.name_of() == "DnsCandidates"@ <==> named is DnsCandidates,
        named.name_of() == "ConnectionAttempts"@ <==> named is ConnectionAttempts,
        named.name_of() == "TlsHandshakeBytes"@ <==> named is TlsHandshakeBytes,
{
    reveal_strlit("Responses");
    assert("Responses"@.len() == 9);
    reveal_strlit("ResponseBodyBytes");
    assert("ResponseBodyBytes"@.len() == 17);
    reveal_strlit("AggregateBodyBytes");
    assert("AggregateBodyBytes"@.len() == 18);
    reveal_strlit("Redirects");
    assert("Redirects"@.len() == 9);
    reveal_strlit("HttpExchanges");
    assert("HttpExchanges"@.len() == 13);
    reveal_strlit("Diagnostics");
    assert("Diagnostics"@.len() == 11);
    reveal_strlit("ContentTypeBytes");
    assert("ContentTypeBytes"@.len() == 16);
    reveal_strlit("AggregateHeaderBytes");
    assert("AggregateHeaderBytes"@.len() == 20);
    reveal_strlit("WireHeaderBytes");
    assert("WireHeaderBytes"@.len() == 15);
    reveal_strlit("WireHeaderFields");
    assert("WireHeaderFields"@.len() == 16);
    reveal_strlit("WireBodyBytes");
    assert("WireBodyBytes"@.len() == 13);
    reveal_strlit("WireChunkLineBytes");
    assert("WireChunkLineBytes"@.len() == 18);
    reveal_strlit("DnsCandidates");
    assert("DnsCandidates"@.len() == 13);
    reveal_strlit("ConnectionAttempts");
    assert("ConnectionAttempts"@.len() == 18);
    reveal_strlit("TlsHandshakeBytes");
    assert("TlsHandshakeBytes"@.len() == 17);
    assert("Responses"@[2] != "Redirects"@[2]);
    assert("ResponseBodyBytes"@[0] != "TlsHandshakeBytes"@[0]);
    assert("AggregateBodyBytes"@[0] != "WireChunkLineBytes"@[0]);
    assert("AggregateBodyBytes"@[0] != "ConnectionAttempts"@[0]);
    assert("HttpExchanges"@[0] != "WireBodyBytes"@[0]);
    assert("HttpExchanges"@[0] != "DnsCandidates"@[0]);
    assert("ContentTypeBytes"@[0] != "WireHeaderFields"@[0]);
    assert("WireBodyBytes"@[0] != "DnsCandidates"@[0]);
    assert("WireChunkLineBytes"@[0] != "ConnectionAttempts"@[0]);
}

/// A refused redirect target is known by its name.
pub proof fn refused_targets_have_names(named: RedirectLocationFailure)
    ensures
        named.name_of() == "Missing"@ <==> named is Missing,
        named.name_of() == "Multiple"@ <==> named is Multiple,
        named.name_of() == "NonUtf8"@ <==> named is NonUtf8,
        named.name_of() == "Invalid"@ <==> named is Invalid,
        named.name_of() == "CredentialsNotAllowed"@ <==> named is CredentialsNotAllowed,
        named.name_of() == "UnsupportedScheme"@ <==> named is UnsupportedScheme,
        named.name_of() == "UrlTooLong"@ <==> named is UrlTooLong,
{
    reveal_strlit("Missing");
    assert("Missing"@.len() == 7);
    reveal_strlit("Multiple");
    assert("Multiple"@.len() == 8);
    reveal_strlit("NonUtf8");
    assert("NonUtf8"@.len() == 7);
    reveal_strlit("Invalid");
    assert("Invalid"@.len() == 7);
    reveal_strlit("CredentialsNotAllowed");
    assert("CredentialsNotAllowed"@.len() == 21);
    reveal_strlit("UnsupportedScheme");
    assert("UnsupportedScheme"@.len() == 17);
    reveal_strlit("UrlTooLong");
    assert("UrlTooLong"@.len() == 10);
    assert("Missing"@[0] != "NonUtf8"@[0]);
    assert("Missing"@[0] != "Invalid"@[0]);
    assert("NonUtf8"@[0] != "Invalid"@[0]);
}

/// A protocol version is known by its name.
pub proof fn protocol_versions_have_names(named: NavigationTlsVersion)
    ensures
        named.name_of() == "Tls12"@ <==> named is Tls12,
        named.name_of() == "Tls13"@ <==> named is Tls13,
{
    reveal_strlit("Tls12");
    assert("Tls12"@.len() == 5);
    reveal_strlit("Tls13");
    assert("Tls13"@.len() == 5);
    assert("Tls12"@[4] != "Tls13"@[4]);
}

/// A negotiated protocol is known by its name.
pub proof fn negotiated_protocols_have_names(named: NavigationAlpn)
    ensures
        named.name_of() == "Http11"@ <==> named is Http11,
        named.name_of() == "NotNegotiated"@ <==> named is NotNegotiated,
{
    reveal_strlit("Http11");
    assert("Http11"@.len() == 6);
    reveal_strlit("NotNegotiated");
    assert("NotNegotiated"@.len() == 13);
}

/// A reason why an expression cannot match is known by its name.
pub proof fn unmatched_expressions_have_names(named: UnsupportedStyleSourceKind)
    ensures
        named.name_of() == "Hash"@ <==> named is Hash,
        named.name_of() == "HostPath"@ <==> named is HostPath,
        named.name_of() == "NonHttpScheme"@ <==> named is NonHttpScheme,
        named.name_of() == "Keyword"@ <==> named is Keyword,
        named.name_of() == "Malformed"@ <==> named is Malformed,
{
    reveal_strlit("Hash");
    assert("Hash"@.len() == 4);
    reveal_strlit("HostPath");
    assert("HostPath"@.len() == 8);
    reveal_strlit("NonHttpScheme");
    assert("NonHttpScheme"@.len() == 13);
    reveal_strlit("Keyword");
    assert("Keyword"@.len() == 7);
    reveal_strlit("Malformed");
    assert("Malformed"@.len() == 9);
}

/// A stage is known by what it is called.
pub proof fn stages_have_names(stage: PipelineStage)
    ensures
        stage.text_of() == "fetch"@ <==> stage is Fetch,
        stage.text_of() == "HTML parse"@ <==> stage is Parse,
        stage.text_of() == "DOM snapshot"@ <==> stage is Snapshot,
        stage.text_of() == "Stylo style preparation"@ <==> stage is Style,
        stage.text_of() == "layout"@ <==> stage is Layout,
        stage.text_of() == "scene compilation"@ <==> stage is SceneCompilation,
        stage.text_of() == "text shaping"@ <==> stage is TextShaping,
        stage.text_of() == "composed rendering"@ <==> stage is ComposedRender,
{
    reveal_strlit("fetch");
    assert("fetch"@.len() == 5);
    reveal_strlit("HTML parse");
    assert("HTML parse"@.len() == 10);
    reveal_strlit("DOM snapshot");
    assert("DOM snapshot"@.len() == 12);
    reveal_strlit("Stylo style preparation");
    assert("Stylo style preparation"@.len() == 23);
    reveal_strlit("layout");
    assert("layout"@.len() == 6);
    reveal_strlit("scene compilation");
    assert("scene compilation"@.len() == 17);
    reveal_strlit("text shaping");
    assert("text shaping"@.len() == 12);
    reveal_strlit("composed rendering");
    assert("composed rendering"@.len() == 18);
    assert("DOM snapshot"@[0] != "text shaping"@[0]);
}

/// A URL that is too long tells its bytes and then the bound.
pub proof fn long_urls_tell_their_bytes(actual: usize, maximum: usize)
    ensures
        ({
            let text = (NavigationRequestError::UrlTooLong { actual, maximum }).text_of();
            &&& begins(text, "navigation URL has "@ + number(actual as int))
            &&& ends(text, " bytes; maximum is "@ + number(maximum as int))
        }),
{
    let text = (NavigationRequestError::UrlTooLong { actual, maximum }).text_of();
    let left = "navigation URL has "@ + number(actual as int);
    let right = " bytes; maximum is "@ + number(maximum as int);
    assert(text =~= left + right);
    two_parts(left, right);
}

/// A refused limit tells its field, then the amount, and then the bound that it
/// lies beyond.
pub proof fn limits_tell_field_and_bound(field: &'static str, actual: usize, bound: usize)
    ensures
        ({
            let large = (EngineLimitsError::TooLarge { field, actual, maximum: bound }).text_of();
            let small = (EngineLimitsError::TooSmall { field, actual, minimum: bound }).text_of();
            let zero = (EngineLimitsError::Zero { field }).text_of();
            &&& begins(large, field@ + " is "@ + number(actual as int))
            &&& ends(large, "; maximum is "@ + number(bound as int))
            &&& begins(small, field@ + " is "@ + number(actual as int))
            &&& ends(small, "; minimum is "@ + number(bound as int))
            &&& begins(zero, field@)
            &&& ends(zero, " must be nonzero"@)
        }),
{
    let left = field@ + " is "@ + number(actual as int);
    let above = "; maximum is "@ + number(bound as int);
    let below = "; minimum is "@ + number(bound as int);
    let large = (EngineLimitsError::TooLarge { field, actual, maximum: bound }).text_of();
    let small = (EngineLimitsError::TooSmall { field, actual, minimum: bound }).text_of();
    assert(large =~= left + above);
    assert(small =~= left + below);
    two_parts(left, above);
    two_parts(left, below);
    two_parts(field@, " must be nonzero"@);
}

/// An exceeded bound of a response or of policies tells whose bound it is, which
/// one, and then the amount before the bound.
pub proof fn exceeded_bounds_tell_amount_and_bound(
    field: DocumentPolicyField,
    limit: DocumentPolicyLimit,
    input: StylePolicyInput,
    resource: StylePolicyLimit,
    actual: usize,
    maximum: usize,
)
    ensures
        ({
            let response = (DocumentPolicyError::LimitExceeded {
                field,
                limit,
                actual,
                maximum,
            }).text_of();
            let policy = (StylePolicyError::LimitExceeded {
                input,
                limit: resource,
                actual,
                maximum,
            }).text_of();
            let amounts = " bound ("@ + number(actual as int) + " > "@ + number(maximum as int)
                + ")"@;
            &&& begins(
                response,
                "document response metadata exceeded "@ + field.name_of() + " "@ + limit.name_of(),
            )
            &&& ends(response, amounts)
            &&& begins(
                policy,
                "style policy exceeded "@ + input.name_of() + " "@ + resource.name_of(),
            )
            &&& ends(policy, amounts)
        }),
{
    let amounts = " bound ("@ + number(actual as int) + " > "@ + number(maximum as int) + ")"@;
    let left = "document response metadata exceeded "@ + field.name_of() + " "@ + limit.name_of();
    let right = "style policy exceeded "@ + input.name_of() + " "@ + resource.name_of();
    let response = (DocumentPolicyError::LimitExceeded { field, limit, actual, maximum }).text_of();
    let policy = (StylePolicyError::LimitExceeded {
        input,
        limit: resource,
        actual,
        maximum,
    }).text_of();
    assert(response =~= left + amounts);
    assert(policy =~= right + amounts);
    two_parts(left, amounts);
    two_parts(right, amounts);
}

/// A pipeline error that was caused elsewhere ends with what its cause says, and
/// one with a status or a count tells it.
pub proof fn pipeline_errors_tell_their_cause(error: PipelineError)
    ensures
        match error {
            PipelineError::InvalidConfiguration { field, detail } => begins(
                error.text_of(),
                "invalid "@ + field@,
            ) && ends(error.text_of(), ": "@ + detail@),
            PipelineError::Cancelled { stage } => begins(error.text_of(), "cancelled during "@)
                && ends(error.text_of(), stage.text_of()),
            PipelineError::DeadlineExceeded { stage } => begins(
                error.text_of(),
                "operation deadline exceeded during "@,
            ) && ends(error.text_of(), stage.text_of()),
            PipelineError::Network(cause) => begins(error.text_of(), "HTTP transport failed: "@)
                && ends(error.text_of(), cause@),
            PipelineError::DocumentPolicy(cause) => error.text_of() == cause.text_of(),
            PipelineError::RedirectLocation(cause) => ends(error.text_of(), cause.name_of()),
            PipelineError::UnsupportedRedirectStatus { status } => begins(
                error.text_of(),
                "HTTP status "@ + number(status as int),
            ),
            PipelineError::TooManyRedirects { maximum } => ends(
                error.text_of(),
                number(maximum as int) + " hops"@,
            ),
            PipelineError::HttpStatus(status) => begins(error.text_of(), "HTTP returned status "@)
                && ends(error.text_of(), number(status as int)),
            PipelineError::Html(cause) => begins(error.text_of(), "HTML parsing failed: "@) && ends(
                error.text_of(),
                cause@,
            ),
            PipelineError::Dom(cause) => begins(error.text_of(), "DOM snapshot failed: "@) && ends(
                error.text_of(),
                cause@,
            ),
            PipelineError::Style(cause) => begins(error.text_of(), "Stylo preparation failed: "@)
                && ends(error.text_of(), cause@),
            PipelineError::Layout(cause) => begins(error.text_of(), "layout failed: "@) && ends(
                error.text_of(),
                cause@,
            ),
            PipelineError::Text(cause) => begins(error.text_of(), "text shaping failed: "@) && ends(
                error.text_of(),
                cause@,
            ),
            PipelineError::Scene(cause) => begins(error.text_of(), "scene compilation failed: "@)
                && ends(error.text_of(), cause@),
            PipelineError::Headless(cause) => begins(
                error.text_of(),
                "headless WebRender failed: "@,
            ) && ends(error.text_of(), cause@),
            _ => true,
        },
{
    match error {
        PipelineError::InvalidConfiguration { field, detail } => {
            let (left, right) = ("invalid "@ + field@, ": "@ + detail@);
            assert(error.text_of() =~= left + right);
            two_parts(left, right);
        },
        PipelineError::Cancelled { stage } => two_parts("cancelled during "@, stage.text_of()),
        PipelineError::DeadlineExceeded { stage } => two_parts(
            "operation deadline exceeded during "@,
            stage.text_of(),
        ),
        PipelineError::Network(cause) => two_parts("HTTP transport failed: "@, cause@),
        PipelineError::RedirectLocation(cause) => two_parts(
            "HTTP redirect target was rejected: "@,
            cause.name_of(),
        ),
        PipelineError::UnsupportedRedirectStatus { status } => two_parts(
            "HTTP status "@ + number(status as int),
            " has unsupported redirect semantics"@,
        ),
        PipelineError::TooManyRedirects { maximum } => {
            let (left, right) = (
                "HTTP redirect chain exceeded "@,
                number(maximum as int) + " hops"@,
            );
            assert(error.text_of() =~= left + right);
            two_parts(left, right);
        },
        PipelineError::HttpStatus(status) => two_parts(
            "HTTP returned status "@,
            number(status as int),
        ),
        PipelineError::Html(cause) => two_parts("HTML parsing failed: "@, cause@),
        PipelineError::Dom(cause) => two_parts("DOM snapshot failed: "@, cause@),
        PipelineError::Style(cause) => two_parts("Stylo preparation failed: "@, cause@),
        PipelineError::Layout(cause) => two_parts("layout failed: "@, cause@),
        PipelineError::Text(cause) => two_parts("text shaping failed: "@, cause@),
        PipelineError::Scene(cause) => two_parts("scene compilation failed: "@, cause@),
        PipelineError::Headless(cause) => two_parts("headless WebRender failed: "@, cause@),
        _ => {},
    }
}

/// A refused update tells the expected version before the live one, and an update
/// error ends with its reason.
pub proof fn updates_tell_both_versions(
    expected: DocumentVersion,
    actual: DocumentVersion,
    live: Option<DocumentVersion>,
    shown: Option<DocumentVersion>,
    reason: DocumentUpdateRejection,
)
    ensures
        ({
            let text = (DocumentUpdateRejection::LiveVersionMismatch { expected, actual }).text_of();
            let rejected = (DocumentUpdateError::Rejected {
                live_version: live,
                last_returned_frame_version: shown,
                reason,
            }).text_of();
            &&& begins(
                text,
                "rerender expected document "@ + number(expected.document_id as int)
                    + " revision "@ + number(expected.revision as int),
            )
            &&& ends(
                text,
                ", but live document is "@ + number(actual.document_id as int) + " revision "@
                    + number(actual.revision as int),
            )
            &&& ends(rejected, reason.text_of())
        }),
        reason matches DocumentUpdateRejection::Pipeline(error) ==> reason.text_of()
            == error.text_of(),
        reason matches DocumentUpdateRejection::Mutation(said) ==> reason.text_of() == said@,
{
    let text = (DocumentUpdateRejection::LiveVersionMismatch { expected, actual }).text_of();
    let left = "rerender expected document "@ + number(expected.document_id as int) + " revision "@
        + number(expected.revision as int);
    let right = ", but live document is "@ + number(actual.document_id as int) + " revision "@
        + number(actual.revision as int);
    assert(text =~= left + right);
    two_parts(left, right);
    two_parts("document update committed no DOM mutation: "@, reason.text_of());
}

/// Versions, identities and sizes tell their parts in order.
pub proof fn values_tell_their_parts(
    version: DocumentVersion,
    navigation: NavigationId,
    size: PixelSize,
    rgba8: Rgba8Metadata,
    metadata: FrameMetadata,
    source: UnsupportedStyleSource,
)
    ensures
        begins(
            version.debug_of(),
            "DocumentVersion { document_id: "@ + number(version.document_id as int),
        ),
        ends(version.debug_of(), ", revision: "@ + number(version.revision as int) + " }"@),
        begins(
            navigation.debug_of(),
            "NavigationId { context: TopLevelContextId("@ + number(
                navigation.context_of().value() as int,
            ),
        ),
        ends(
            navigation.debug_of(),
            "), generation: NavigationGeneration("@ + number(
                navigation.generation_of().value() as int,
            ) + ") }"@,
        ),
        begins(size.debug_of(), "PixelSize { width: "@ + number(size.width_of() as int)),
        ends(size.debug_of(), ", height: "@ + number(size.height_of() as int) + " }"@),
        begins(rgba8.debug_of(), "Rgba8Metadata { size: "@ + rgba8.size_of().debug_of()),
        ends(
            rgba8.debug_of(),
            ", stride: "@ + number(rgba8.stride_of() as int) + ", byte_len: "@ + number(
                rgba8.byte_len_of() as int,
            ) + " }"@,
        ),
        begins(metadata.debug_of(), "FrameMetadata { output: "@ + metadata.output.debug_of()),
        ends(
            metadata.debug_of(),
            ", document_version: "@ + crate::describe::optional_version(metadata.document_version)
                + " }"@,
        ),
        begins(source.debug_of(), "UnsupportedStyleSource { kind: "@ + source.kind.name_of()),
        ends(source.debug_of(), ", byte_len: "@ + number(source.byte_len as int) + " }"@),
{
    let left = "DocumentVersion { document_id: "@ + number(version.document_id as int);
    let right = ", revision: "@ + number(version.revision as int) + " }"@;
    assert(version.debug_of() =~= left + right);
    two_parts(left, right);
    let left = "NavigationId { context: TopLevelContextId("@ + number(
        navigation.context_of().value() as int,
    );
    let right = "), generation: NavigationGeneration("@ + number(
        navigation.generation_of().value() as int,
    ) + ") }"@;
    assert(navigation.debug_of() =~= left + right);
    two_parts(left, right);
    let left = "PixelSize { width: "@ + number(size.width_of() as int);
    let right = ", height: "@ + number(size.height_of() as int) + " }"@;
    assert(size.debug_of() =~= left + right);
    two_parts(left, right);
    let left = "Rgba8Metadata { size: "@ + rgba8.size_of().debug_of();
    let right = ", stride: "@ + number(rgba8.stride_of() as int) + ", byte_len: "@ + number(
        rgba8.byte_len_of() as int,
    ) + " }"@;
    assert(rgba8.debug_of() =~= left + right);
    two_parts(left, right);
    let left = "FrameMetadata { output: "@ + metadata.output.debug_of();
    let right = ", document_version: "@ + crate::describe::optional_version(
        metadata.document_version,
    ) + " }"@;
    assert(metadata.debug_of() =~= left + right);
    two_parts(left, right);
    let left = "UnsupportedStyleSource { kind: "@ + source.kind.name_of();
    let right = ", byte_len: "@ + number(source.byte_len as int) + " }"@;
    assert(source.debug_of() =~= left + right);
    two_parts(left, right);
}

/// Connection evidence tells its version before its negotiated protocol.
pub proof fn evidence_tells_version_and_protocol(
    version: NavigationTlsVersion,
    alpn: NavigationAlpn,
)
    ensures
        ({
            let text = (NavigationConnectionSecurity::AuthenticatedTls { version, alpn }).debug_of();
            &&& begins(text, "AuthenticatedTls { version: "@ + version.name_of())
            &&& ends(text, ", alpn: "@ + alpn.name_of() + " }"@)
        }),
        NavigationConnectionSecurity::Unverified.debug_of() == "Unverified"@,
        NavigationConnectionSecurity::Cleartext.debug_of() == "Cleartext"@,
{
    let text = (NavigationConnectionSecurity::AuthenticatedTls { version, alpn }).debug_of();
    let left = "AuthenticatedTls { version: "@ + version.name_of();
    let right = ", alpn: "@ + alpn.name_of() + " }"@;
    assert(text =~= left + right);
    two_parts(left, right);
}

/// Quoting goes on character by character, and leaves every character but a
/// quote, a backslash and the control characters as it is.
pub proof fn quoting_is_by_character(left: Seq<char>, right: Seq<char>, character: char)
    ensures
        crate::describe::escaped(left + right) == crate::describe::escaped(left)
            + crate::describe::escaped(right),
        crate::describe::escaped(seq![character]) == crate::describe::escaped_char(character),
        crate::describe::quoted(left) == "\""@ + crate::describe::escaped(left) + "\""@,
        crate::describe::escaped_char(character) == seq![character] <==> !(character == '"'
            || character == '\\' || crate::describe::is_control(character)),
        crate::describe::is_control(character) <==> (character as u32) < 0x20 || 0x7f
            <= character as u32 <= 0x9f,
        crate::describe::escaped_char('"') == "\\\""@,
        crate::describe::escaped_char('\\') == "\\\\"@,
        crate::describe::escaped_char('\n') == "\\n"@,
        crate::describe::escaped_char('\r') == "\\r"@,
        crate::describe::escaped_char('\t') == "\\t"@,
        crate::describe::escaped_char('\0') == "\\0"@,
    decreases right.len(),
{
    let one = seq![character];
    assert(one.drop_last() =~= Seq::<char>::empty());
    assert(crate::describe::escaped(Seq::<char>::empty()) =~= Seq::empty());
    assert(crate::describe::escaped(one) =~= crate::describe::escaped_char(character));
    if right.len() == 0 {
        assert(left + right =~= left);
        assert(crate::describe::escaped(left) + crate::describe::escaped(right)
            =~= crate::describe::escaped(left));
    } else {
        quoting_is_by_character(left, right.drop_last(), character);
        assert((left + right).drop_last() =~= left + right.drop_last());
        assert((left + right).last() == right.last());
        assert(crate::describe::escaped(left + right) =~= crate::describe::escaped(left)
            + crate::describe::escaped(right));
    }
    reveal_strlit("\\\"");
    reveal_strlit("\\\\");
    reveal_strlit("\\0");
    reveal_strlit("\\t");
    reveal_strlit("\\r");
    reveal_strlit("\\n");
    reveal_strlit("\\u{");
    reveal_strlit("}");
    if crate::describe::escaped_char(character) == seq![character] {
        assert(crate::describe::escaped_char(character).len() == 1);
    }
}

/// Value of a lower-case hexadecimal digit.
pub open spec fn hex_value(digit: u8) -> int {
    if '0' as u8 <= digit <= '9' as u8 {
        digit - '0' as u8
    } else {
        digit - 'a' as u8 + 10
    }
}

/// Hexadecimal digits read as the code that they write.
pub proof fn hex_digits_read_back(code: nat)
    requires
        code < 256,
    ensures
        ({
            let digits = crate::describe::hex_digits(code);
            &&& code < 16 ==> digits.len() == 1 && hex_value(digits[0]) == code
            &&& code >= 16 ==> digits.len() == 2 && hex_value(digits[0]) * 16 + hex_value(digits[1])
                == code
        }),
{
}

/// An optional value tells whether it is there.
pub proof fn optional_values_tell_presence(value: Seq<char>)
    ensures
        crate::describe::optional_debug(None) == "None"@,
        begins(crate::describe::optional_debug(Some(value)), "Some("@ + value),
        ends(crate::describe::optional_debug(Some(value)), ")"@),
{
    two_parts("Some("@ + value, ")"@);
}

} // verus!
