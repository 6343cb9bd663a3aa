//! Fetching the top-level document of a navigation: which transport may serve
//! it, how redirects are followed, and what the final response commits.

use vstd::prelude::*;

use crate::bytes::{find_in, trim, ByteClass, NUMBER_SIGN};
use crate::commit::{
    project_response_security, CommittedResponseAuthority, NavigationCommitMetadata,
    NavigationConnectionSecurity, MAX_TOP_LEVEL_REDIRECTS,
};
use crate::document_policy::{
    capture_document_response_metadata, CaptureModel, DocumentPolicyError,
    UnboundDocumentResponseMetadata,
};
use crate::failure::PipelineStage;
use crate::headers::{FieldModel, Headers};
use crate::limits::MAX_NAVIGATION_URL_BYTES;
use crate::pipeline_error::{
    checkpoint, map_fetch_error, PipelineError, RedirectLocationFailure,
};
use crate::style_transport::{Checkpoint, RedirectTargetFailure};
use crate::text::{byte_len, decode_text};
use crate::web::{ConnectionSecurity, ParsedNavigation, WebScheme};

verus! {

/// Transport that an engine owns, or that a load asks for.
#[derive(Clone, Copy, Debug, PartialEq, Eq, Structural)]
pub enum PageTransportKind {
    /// Numeric loopback targets only.
    NumericLoopback,
    /// The authenticated general web.
    GeneralWeb,
}

/// Why a load is refused by the engine's transport, if it is.
pub open spec fn transport_refusal(owned: PageTransportKind, requested: PageTransportKind) -> Option<
    PipelineError,
> {
    match (owned, requested) {
        (PageTransportKind::NumericLoopback, PageTransportKind::GeneralWeb) => Some(
            PipelineError::InvalidConfiguration {
                field: "network_capability",
                detail: "general-web load requested from a numeric-loopback engine",
            },
        ),
        (PageTransportKind::GeneralWeb, PageTransportKind::NumericLoopback) => Some(
            PipelineError::InvalidConfiguration {
                field: "network_capability",
                detail: "numeric-loopback load requested from a general-web engine",
            },
        ),
        _ => None,
    }
}

/// Accepts a load exactly where the engine owns the transport that it asks
/// for.
pub fn admit_transport(owned: PageTransportKind, requested: PageTransportKind) -> (result: Result<
    (),
    PipelineError,
>)
    ensures
        result == match transport_refusal(owned, requested) {
            Some(error) => Err(error),
            None => Ok(()),
        },
        result is Ok <==> owned == requested,
{
    match (owned, requested) {
        (PageTransportKind::NumericLoopback, PageTransportKind::NumericLoopback)
        | (PageTransportKind::GeneralWeb, PageTransportKind::GeneralWeb) => Ok(()),
        (PageTransportKind::NumericLoopback, PageTransportKind::GeneralWeb) => {
            Err(
                PipelineError::InvalidConfiguration {
                    field: "network_capability",
                    detail: "general-web load requested from a numeric-loopback engine",
                },
            )
        },
        (PageTransportKind::GeneralWeb, PageTransportKind::NumericLoopback) => {
            Err(
                PipelineError::InvalidConfiguration {
                    field: "network_capability",
                    detail: "numeric-loopback load requested from a general-web engine",
                },
            )
        },
    }
}

/// Whether a URL text is outside the browser navigation bound.
pub open spec fn out_of_bounds(url: Seq<char>) -> bool {
    url.len() == 0 || crate::text::utf8_len(url) > MAX_NAVIGATION_URL_BYTES
}

/// Refuses a URL text outside the browser navigation bound.
pub fn ensure_navigation_url_bound(url: &str) -> (result: Result<(), PipelineError>)
    ensures
        result == if out_of_bounds(url@) {
            Err(PipelineError::RedirectLocation(RedirectLocationFailure::UrlTooLong))
        } else {
            Ok(())
        },
{
    if url.is_empty() || byte_len(url) > MAX_NAVIGATION_URL_BYTES {
        Err(PipelineError::RedirectLocation(RedirectLocationFailure::UrlTooLong))
    } else {
        Ok(())
    }
}

/// How a redirect target that the transport refuses is answered.
pub open spec fn target_failure(failure: RedirectTargetFailure) -> RedirectLocationFailure {
    match failure {
        RedirectTargetFailure::CredentialsNotAllowed =>
            RedirectLocationFailure::CredentialsNotAllowed,
        RedirectTargetFailure::UnsupportedScheme => RedirectLocationFailure::UnsupportedScheme,
        RedirectTargetFailure::UrlBytes => RedirectLocationFailure::UrlTooLong,
        RedirectTargetFailure::Invalid => RedirectLocationFailure::Invalid,
    }
}

/// Answers a redirect target that the transport refuses.
pub fn map_redirect_target_error(failure: RedirectTargetFailure) -> (error: PipelineError)
    ensures
        error == PipelineError::RedirectLocation(target_failure(failure)),
{
    let failure = match failure {
        RedirectTargetFailure::CredentialsNotAllowed => {
            RedirectLocationFailure::CredentialsNotAllowed
        },
        RedirectTargetFailure::UnsupportedScheme => RedirectLocationFailure::UnsupportedScheme,
        RedirectTargetFailure::UrlBytes => RedirectLocationFailure::UrlTooLong,
        RedirectTargetFailure::Invalid => RedirectLocationFailure::Invalid,
    };
    PipelineError::RedirectLocation(failure)
}

/// Evidence of a response as a navigation commits it.
pub fn project_navigation_security(scheme: WebScheme, security: ConnectionSecurity) -> (result:
    Result<NavigationConnectionSecurity, PipelineError>)
    ensures
        if crate::commit::scheme_agrees(scheme, security) {
            &&& result matches Ok(projected)
            &&& crate::commit::transport_security(projected) == security
            &&& !(projected is Unverified)
        } else {
            result == Err::<NavigationConnectionSecurity, _>(
                PipelineError::TransportSecurityMismatch,
            )
        },
{
    match project_response_security(scheme, security) {
        Ok(projected) => Ok(projected),
        Err(_) => Err(PipelineError::TransportSecurityMismatch),
    }
}

/// Where a top-level redirect leads: exactly one field, whose value is UTF-8.
pub open spec fn document_location(headers: Seq<FieldModel>) -> Result<
    Seq<char>,
    RedirectLocationFailure,
> {
    let values = crate::style_response::locations(headers);
    if values.len() == 0 {
        Err(RedirectLocationFailure::Missing)
    } else if values.len() > 1 {
        Err(RedirectLocationFailure::Multiple)
    } else {
        match crate::text::utf8_text(crate::style_response::bare(values[0])) {
            Some(location) => Ok(location),
            None => Err(RedirectLocationFailure::NonUtf8),
        }
    }
}

/// Finds where a top-level redirect leads.
pub fn single_document_location<'a>(headers: &'a Headers) -> (result: Result<
    &'a str,
    RedirectLocationFailure,
>)
    ensures
        match result {
            Ok(location) => document_location(headers@) == Ok::<_, RedirectLocationFailure>(
                location@,
            ),
            Err(failure) => document_location(headers@) == Err::<Seq<char>, _>(failure),
        },
{
    let values: Vec<&'a [u8]> = headers.values("location");
    let ghost strings = crate::headers::byte_strings(values@);
    if values.len() == 0 {
        return Err(RedirectLocationFailure::Missing);
    }
    if values.len() > 1 {
        return Err(RedirectLocationFailure::Multiple);
    }
    assert(strings[0] == values@[0]@);
    match decode_text(trim(values[0], ByteClass::OptionalWhitespace)) {
        Some(location) => Ok(location),
        None => Err(RedirectLocationFailure::NonUtf8),
    }
}

/// Where the fragment of a URL begins, its number sign included; the end of a
/// URL without one.
pub open spec fn fragment_at(url: Seq<u8>) -> int {
    crate::bytes::first_in(url, 0, ByteClass::Exactly(NUMBER_SIGN))
}

/// Bytes of a redirect target: one without a fragment takes over that of the
/// URL that redirected.
pub open spec fn inherited(joined: Seq<u8>, current: Seq<u8>) -> Seq<u8> {
    if fragment_at(joined) < joined.len() {
        joined
    } else {
        joined + current.subrange(fragment_at(current), current.len() as int)
    }
}

/// Encoding a text encodes its parts one after the other.
pub proof fn encoding_joins(left: Seq<char>, right: Seq<char>)
    ensures
        crate::bytes::text(left + right) == crate::bytes::text(left) + crate::bytes::text(right),
    decreases left.len(),
{
    if left.len() == 0 {
        assert(left + right =~= right);
        assert(crate::bytes::text(left) =~= Seq::<u8>::empty());
        assert(crate::bytes::text(left) + crate::bytes::text(right) =~= crate::bytes::text(right));
    } else {
        encoding_joins(left.drop_first(), right);
        assert((left + right).drop_first() =~= left.drop_first() + right);
        assert((left + right)[0] == left[0]);
        let first = vstd::utf8::encode_scalar(left[0] as u32);
        assert(first + (crate::bytes::text(left.drop_first()) + crate::bytes::text(right)) =~= (first
            + crate::bytes::text(left.drop_first())) + crate::bytes::text(right));
    }
}

/// A redirect target with its own fragment, or else with that of the URL that
/// redirected.
pub fn inherit_fragment(joined: &str, current: &str) -> (identity: String)
    ensures
        crate::bytes::text(identity@) == inherited(
            crate::bytes::text(joined@),
            crate::bytes::text(current@),
        ),
{
    let bytes: &[u8] = joined.as_bytes();
    let mut identity: String = joined.to_owned();
    if find_in(bytes, 0, ByteClass::Exactly(NUMBER_SIGN)) < bytes.len() {
        return identity;
    }
    let source: &[u8] = current.as_bytes();
    let at: usize = find_in(source, 0, ByteClass::Exactly(NUMBER_SIGN));
    if at < source.len() {
        proof {
            crate::bytes::first_in_is_first(source@, 0, ByteClass::Exactly(NUMBER_SIGN));
            vstd::utf8::encode_utf8_valid_utf8(current@);
            vstd::utf8::is_char_boundary_iff_not_is_continuation_byte(source@, at as int);
        }
        let (_, fragment) = current.split_at(at);
        identity.append(fragment);
        proof {
            encoding_joins(joined@, fragment@);
        }
    } else {
        assert(source@.subrange(at as int, source@.len() as int) =~= Seq::<u8>::empty());
        assert(bytes@ + Seq::<u8>::empty() =~= bytes@);
    }
    identity
}

/// How far a top-level document fetch came.
pub struct FetchModel {
    /// Canonical URL of the current target, fragment included.
    pub identity: Seq<char>,
    /// Scheme of the current target.
    pub scheme: WebScheme,
    /// All URLs so far, in order; the last is the current one.
    pub visited: Seq<Seq<char>>,
    /// Redirects followed.
    pub redirect_count: u8,
    /// Whether an authenticated response was seen.
    pub saw_authenticated_https: bool,
    /// Whether a redirect went from an authenticated chain to cleartext.
    pub had_https_downgrade: bool,
}

/// What the head of a response asks for.
#[derive(Debug, PartialEq, Eq)]
pub enum DocumentHead {
    /// Follow a redirect to this location, which is relative to the current
    /// URL.
    Redirect(String),
    /// Read the document.
    Final,
}

/// What the head of a response asks for, in specifications.
pub enum HeadModel {
    /// Follow a redirect to this location.
    Redirect(Seq<char>),
    /// Read the document.
    Final,
}

impl View for DocumentHead {
    type V = HeadModel;

    open spec fn view(&self) -> HeadModel {
        match self {
            DocumentHead::Redirect(location) => HeadModel::Redirect(location@),
            DocumentHead::Final => HeadModel::Final,
        }
    }
}

/// Whether a status is a success.
pub open spec fn is_success(status: u16) -> bool {
    200 <= status <= 299
}

impl FetchModel {
    /// What holds of every fetch: the redirect bound, and a chain of distinct
    /// bounded URLs that ends at the current one.
    pub open spec fn inv(self) -> bool {
        &&& self.redirect_count <= MAX_TOP_LEVEL_REDIRECTS
        &&& self.visited.len() == self.redirect_count + 1
        &&& self.visited.no_duplicates()
        &&& self.visited.last() == self.identity
        &&& self.had_https_downgrade ==> self.saw_authenticated_https
    }

    /// After the evidence of a response.
    pub open spec fn observed(self, security: ConnectionSecurity) -> Self {
        FetchModel {
            saw_authenticated_https: self.saw_authenticated_https || security is Tls,
            ..self
        }
    }

    /// What a response asks for, or why it ends the fetch.
    pub open spec fn asked(
        self,
        security: ConnectionSecurity,
        control: Checkpoint,
        status: u16,
        is_redirect: bool,
        headers: Seq<FieldModel>,
    ) -> Result<HeadModel, PipelineError> {
        match crate::pipeline_error::control_failure(control, PipelineStage::Fetch) {
            Some(error) => Err(error),
            None => if !crate::commit::scheme_agrees(self.scheme, security) {
                Err(PipelineError::TransportSecurityMismatch)
            } else if is_redirect {
                match document_location(headers) {
                    Ok(location) => Ok(HeadModel::Redirect(location)),
                    Err(failure) => Err(PipelineError::RedirectLocation(failure)),
                }
            } else if 300 <= status <= 399 {
                Err(PipelineError::UnsupportedRedirectStatus { status })
            } else if !is_success(status) {
                Err(PipelineError::HttpStatus(status))
            } else {
                Ok(HeadModel::Final)
            },
        }
    }

    /// Why a redirect to a target is not followed, if it is not.
    pub open spec fn redirect_refusal(self, target: Seq<char>) -> Option<PipelineError> {
        if self.visited.contains(target) {
            Some(PipelineError::RedirectLoop)
        } else if self.redirect_count >= MAX_TOP_LEVEL_REDIRECTS {
            Some(PipelineError::TooManyRedirects { maximum: MAX_TOP_LEVEL_REDIRECTS })
        } else {
            None
        }
    }

    /// After following a redirect.
    pub open spec fn redirected(self, target: ParsedNavigation) -> Self {
        FetchModel {
            identity: target.identity@,
            scheme: target.target.origin.scheme,
            visited: self.visited.push(target.identity@),
            redirect_count: (self.redirect_count + 1) as u8,
            had_https_downgrade: self.had_https_downgrade || (self.saw_authenticated_https
                && target.target.origin.scheme is Http),
            ..self
        }
    }

    /// A fetch never follows more redirects than it may, and never fetches a
    /// URL twice.
    pub proof fn redirect_keeps(self, target: ParsedNavigation)
        requires
            self.inv(),
            self.redirect_refusal(target.identity@) is None,
        ensures
            self.redirected(target).inv(),
    {
        let next = self.redirected(target);
        assert forall|i: int, j: int|
            0 <= i < next.visited.len() && 0 <= j < next.visited.len() && i != j implies
            next.visited[i] != next.visited[j] by {
            if i == self.visited.len() {
                assert(self.visited.contains(self.visited[j]));
            }
            if j == self.visited.len() {
                assert(self.visited.contains(self.visited[i]));
            }
        }
    }

    /// A chain that went from an authenticated response to cleartext is marked,
    /// and stays marked.
    pub proof fn downgrade_is_sticky(
        self,
        security: ConnectionSecurity,
        first: ParsedNavigation,
        second: ParsedNavigation,
    )
        requires
            security is Tls,
            first.target.origin.scheme is Http,
        ensures
            self.observed(security).redirected(first).had_https_downgrade,
            self.observed(security).redirected(first).redirected(second).had_https_downgrade,
    {
    }
}

/// What a fetched document commits before its body is read.
pub struct AdmittedDocument {
    /// Successful HTTP status.
    pub http_status: u16,
    /// Final identity of the response.
    pub navigation_commit: NavigationCommitMetadata,
    /// Policy-relevant fields of the response.
    pub response_metadata: UnboundDocumentResponseMetadata,
}

/// A fetched document.
pub struct FetchedDocument {
    /// Successful HTTP status.
    pub http_status: u16,
    /// Body of the response.
    pub source: Vec<u8>,
    /// Final identity of the response.
    pub navigation_commit: NavigationCommitMetadata,
    /// Policy-relevant fields of the response.
    pub response_metadata: UnboundDocumentResponseMetadata,
}

/// Whether capturing the fields of a response came to `result`. Memory may be
/// missing only where a field is stored before the fields come to an end or to
/// an error.
pub open spec fn is_capture(
    headers: Seq<FieldModel>,
    result: Result<UnboundDocumentResponseMetadata, PipelineError>,
) -> bool {
    let captured = CaptureModel::empty().after_all(headers, 0);
    match result {
        Ok(metadata) => captured matches Ok(capture) && metadata@ == capture.retained(),
        Err(PipelineError::DocumentPolicy(error)) => captured == Err::<CaptureModel, _>(error) || (
        error is AllocationFailed && CaptureModel::empty().stores_any(headers, 0)),
        Err(_) => false,
    }
}

/// Captures the policy-relevant fields of a document response.
fn capture_metadata(headers: &Headers) -> (result: Result<
    UnboundDocumentResponseMetadata,
    PipelineError,
>)
    ensures
        is_capture(headers@, result),
{
    match capture_document_response_metadata(headers) {
        Ok(metadata) => Ok(metadata),
        Err(error) => Err(PipelineError::DocumentPolicy(error)),
    }
}

impl AdmittedDocument {
    /// Metadata that admission came to, without its status and commitment.
    pub open spec fn metadata_result(result: Result<Self, PipelineError>) -> Result<
        UnboundDocumentResponseMetadata,
        PipelineError,
    > {
        match result {
            Ok(admitted) => Ok(admitted.response_metadata),
            Err(error) => Err(error),
        }
    }

    /// Commits the target of a numeric-loopback load before the exchange.
    pub fn commit_loopback(url: &str) -> (result: Result<NavigationCommitMetadata, PipelineError>)
        ensures
            if out_of_bounds(url@) {
                result == Err::<NavigationCommitMetadata, _>(
                    PipelineError::RedirectLocation(RedirectLocationFailure::UrlTooLong),
                )
            } else {
                &&& result matches Ok(commit)
                &&& commit@.final_url == url@
                &&& commit@.redirect_count == 0
                &&& commit@.security is Cleartext
                &&& !commit@.had_https_downgrade
                &&& commit@.authority is Synthetic
            },
    {
        match NavigationCommitMetadata::new(url, 0, NavigationConnectionSecurity::Cleartext, false) {
            Ok(commit) => Ok(commit),
            Err(_) => Err(PipelineError::RedirectLocation(RedirectLocationFailure::UrlTooLong)),
        }
    }

    /// Admits the response of a numeric-loopback load; it follows no redirect.
    pub fn admit_loopback(
        navigation_commit: NavigationCommitMetadata,
        control: Checkpoint,
        http_status: u16,
        headers: &Headers,
    ) -> (result: Result<Self, PipelineError>)
        ensures
            match crate::pipeline_error::control_failure(control, PipelineStage::Fetch) {
                Some(error) => result == Err::<Self, _>(error),
                None => if !is_success(http_status) {
                    result == Err::<Self, _>(PipelineError::HttpStatus(http_status))
                } else {
                    &&& is_capture(headers@, Self::metadata_result(result))
                    &&& result matches Ok(admitted) ==> admitted.http_status == http_status
                        && admitted.navigation_commit == navigation_commit
                },
            },
            result is Ok ==> 200 <= http_status <= 299 && !control.cancelled && !control.expired,
            !control.cancelled && !control.expired && (http_status < 200 || http_status > 299)
                ==> result == Err::<Self, _>(PipelineError::HttpStatus(http_status)),
    {
        match checkpoint(control, PipelineStage::Fetch) {
            Ok(()) => {},
            Err(error) => return Err(error),
        }
        if http_status < 200 || http_status > 299 {
            return Err(PipelineError::HttpStatus(http_status));
        }
        match capture_metadata(headers) {
            Ok(response_metadata) => Ok(
                AdmittedDocument { http_status, navigation_commit, response_metadata },
            ),
            Err(error) => Err(error),
        }
    }

    /// Completes a fetch with its body, or with why the body was not read.
    pub fn complete(self, body: Result<Vec<u8>, String>, control: Checkpoint) -> (result: Result<
        FetchedDocument,
        PipelineError,
    >)
        ensures
            result == match body {
                Ok(source) => Ok::<_, PipelineError>(
                    FetchedDocument {
                        http_status: self.http_status,
                        source,
                        navigation_commit: self.navigation_commit,
                        response_metadata: self.response_metadata,
                    },
                ),
                Err(error) => Err::<FetchedDocument, _>(
                    match crate::pipeline_error::control_failure(control, PipelineStage::Fetch) {
                        Some(failure) => failure,
                        None => PipelineError::Network(error),
                    },
                ),
            },
    {
        match body {
            Ok(source) => Ok(
                FetchedDocument {
                    http_status: self.http_status,
                    source,
                    navigation_commit: self.navigation_commit,
                    response_metadata: self.response_metadata,
                },
            ),
            Err(error) => Err(map_fetch_error(error, control)),
        }
    }
}

/// A top-level document fetch on the general web.
pub struct WebDocumentFetch {
    current: ParsedNavigation,
    visited: Vec<String>,
    redirect_count: u8,
    saw_authenticated_https: bool,
    had_https_downgrade: bool,
}

impl View for WebDocumentFetch {
    type V = FetchModel;

    closed spec fn view(&self) -> FetchModel {
        FetchModel {
            identity: self.current.identity@,
            scheme: self.current.target.origin.scheme,
            visited: crate::content_type::texts(self.visited@),
            redirect_count: self.redirect_count,
            saw_authenticated_https: self.saw_authenticated_https,
            had_https_downgrade: self.had_https_downgrade,
        }
    }
}

impl WebDocumentFetch {
    /// Current target, in specifications.
    pub closed spec fn target_of(self) -> ParsedNavigation {
        self.current
    }

    /// Begins with the URL of the navigation, as the URL parser read it.
    pub fn begin(parsed: ParsedNavigation) -> (result: Result<Self, PipelineError>)
        ensures
            if out_of_bounds(parsed.identity@) {
                result == Err::<Self, _>(
                    PipelineError::RedirectLocation(RedirectLocationFailure::UrlTooLong),
                )
            } else {
                &&& result matches Ok(fetch)
                &&& fetch.target_of() == parsed
                &&& fetch@ == (FetchModel {
                    identity: parsed.identity@,
                    scheme: parsed.target.origin.scheme,
                    visited: seq![parsed.identity@],
                    redirect_count: 0,
                    saw_authenticated_https: false,
                    had_https_downgrade: false,
                })
                &&& fetch@.inv()
            },
    {
        match ensure_navigation_url_bound(parsed.identity.as_str()) {
            Ok(()) => {},
            Err(error) => return Err(error),
        }
        let mut visited: Vec<String> = Vec::new();
        visited.push(parsed.identity.clone());
        let fetch = WebDocumentFetch {
            current: parsed,
            visited,
            redirect_count: 0,
            saw_authenticated_https: false,
            had_https_downgrade: false,
        };
        assert(fetch@.visited =~= seq![parsed.identity@]);
        Ok(fetch)
    }

    /// Current target of the fetch.
    pub fn target(&self) -> (target: &ParsedNavigation)
        ensures
            *target == self.target_of(),
            target.identity@ == self@.identity,
            target.target.origin.scheme == self@.scheme,
    {
        &self.current
    }

    /// Takes the head of a response.
    pub fn receive(
        &mut self,
        security: ConnectionSecurity,
        control: Checkpoint,
        status: u16,
        is_redirect: bool,
        headers: &Headers,
    ) -> (result: Result<DocumentHead, PipelineError>)
        ensures
            match result {
                Ok(head) => old(self)@.asked(security, control, status, is_redirect, headers@)
                    == Ok::<_, PipelineError>(head@),
                Err(error) => old(self)@.asked(security, control, status, is_redirect, headers@)
                    == Err::<HeadModel, _>(error),
            },
            final(self)@ == if crate::pipeline_error::control_failure(
                control,
                PipelineStage::Fetch,
            ) is Some || !crate::commit::scheme_agrees(old(self)@.scheme, security) {
                old(self)@
            } else {
                old(self)@.observed(security)
            },
            final(self).target_of() == old(self).target_of(),
            old(self)@.inv() ==> final(self)@.inv(),
            result matches Ok(DocumentHead::Final) ==> 200 <= status <= 299 && !is_redirect
                && !control.cancelled && !control.expired,
            result matches Ok(DocumentHead::Redirect(_)) ==> is_redirect,
            status >= 400 && !is_redirect && !control.cancelled && !control.expired && (
            security is Tls) == (old(self)@.scheme is Https) ==> result == Err::<DocumentHead, _>(
                PipelineError::HttpStatus(status),
            ),
    {
        match checkpoint(control, PipelineStage::Fetch) {
            Ok(()) => {},
            Err(error) => return Err(error),
        }
        match project_navigation_security(self.current.target.origin.scheme, security) {
            Ok(NavigationConnectionSecurity::AuthenticatedTls { .. }) => {
                self.saw_authenticated_https = true;
            },
            Ok(_) => {},
            Err(error) => return Err(error),
        }
        if is_redirect {
            return match single_document_location(headers) {
                Ok(location) => Ok(DocumentHead::Redirect(location.to_owned())),
                Err(failure) => Err(PipelineError::RedirectLocation(failure)),
            };
        }
        if 300 <= status && status <= 399 {
            return Err(PipelineError::UnsupportedRedirectStatus { status });
        }
        if status < 200 || status > 299 {
            return Err(PipelineError::HttpStatus(status));
        }
        Ok(DocumentHead::Final)
    }

    /// The URL that a redirect leads to. `joined` is what the URL parser made
    /// of the location, relative to the current URL.
    pub fn redirect_identity(&self, joined: Option<&str>) -> (result: Result<String, PipelineError>)
        ensures
            match joined {
                None => result == Err::<String, _>(
                    PipelineError::RedirectLocation(RedirectLocationFailure::Invalid),
                ),
                Some(joined) => {
                    let identity = inherited(
                        crate::bytes::text(joined@),
                        crate::bytes::text(self@.identity),
                    );
                    match result {
                        Ok(text) => {
                            &&& crate::bytes::text(text@) == identity
                            &&& !out_of_bounds(text@)
                        },
                        Err(error) => {
                            &&& error == PipelineError::RedirectLocation(
                                RedirectLocationFailure::UrlTooLong,
                            )
                            &&& identity.len() == 0 || identity.len() > MAX_NAVIGATION_URL_BYTES
                        },
                    }
                },
            },
    {
        let joined = match joined {
            Some(joined) => joined,
            None => return Err(PipelineError::RedirectLocation(RedirectLocationFailure::Invalid)),
        };
        let identity: String = inherit_fragment(joined, self.current.identity.as_str());
        match ensure_navigation_url_bound(identity.as_str()) {
            Ok(()) => Ok(identity),
            Err(error) => Err(error),
        }
    }

    /// Whether a URL was fetched before.
    fn was_visited(&self, url: &String) -> (visited: bool)
        ensures
            visited == self@.visited.contains(url@),
    {
        let mut at: usize = 0;
        while at < self.visited.len()
            invariant
                at <= self.visited@.len(),
                forall|i: int| 0 <= i < at ==> self@.visited[i] != url@,
            decreases self.visited@.len() - at,
        {
            if self.visited[at] == *url {
                assert(self@.visited[at as int] == url@);
                return true;
            }
            at += 1;
        }
        false
    }

    /// Follows a redirect. `resolved` is what the URL parser made of the URL
    /// that the redirect leads to.
    pub fn follow(&mut self, resolved: Result<ParsedNavigation, RedirectTargetFailure>) -> (result:
        Result<(), PipelineError>)
        requires
            old(self)@.inv(),
        ensures
            final(self)@.inv(),
            match resolved {
                Err(failure) => result == Err::<(), _>(
                    PipelineError::RedirectLocation(target_failure(failure)),
                ) && *final(self) == *old(self),
                Ok(target) => match old(self)@.redirect_refusal(target.identity@) {
                    Some(error) => result == Err::<(), _>(error) && *final(self) == *old(self),
                    None => {
                        &&& result == Ok::<(), PipelineError>(())
                        &&& final(self)@ == old(self)@.redirected(target)
                        &&& final(self).target_of() == target
                    },
                },
            },
    {
        let resolved = match resolved {
            Ok(resolved) => resolved,
            Err(failure) => return Err(map_redirect_target_error(failure)),
        };
        if self.was_visited(&resolved.identity) {
            return Err(PipelineError::RedirectLoop);
        }
        if self.redirect_count >= MAX_TOP_LEVEL_REDIRECTS {
            return Err(PipelineError::TooManyRedirects { maximum: MAX_TOP_LEVEL_REDIRECTS });
        }
        proof {
            self@.redirect_keeps(resolved);
        }
        self.redirect_count += 1;
        if self.saw_authenticated_https {
            if let WebScheme::Http = resolved.target.origin.scheme {
                self.had_https_downgrade = true;
            }
        }
        self.visited.push(resolved.identity.clone());
        self.current = resolved;
        assert(self@.visited =~= old(self)@.visited.push(resolved.identity@));
        Ok(())
    }

    /// Admits the final response. `authority_matches` is the transport's answer
    /// to whether the response authority belongs to the current target.
    pub fn admit_final(
        &self,
        authority_matches: bool,
        response: CommittedResponseAuthority,
        http_status: u16,
        headers: &Headers,
    ) -> (result: Result<AdmittedDocument, PipelineError>)
        requires
            self@.inv(),
        ensures
            if out_of_bounds(self@.identity) || !authority_matches || !crate::commit::scheme_agrees(
                self@.scheme,
                response.security,
            ) {
                result == Err::<AdmittedDocument, _>(
                    PipelineError::DocumentPolicy(DocumentPolicyError::BindingMismatch),
                )
            } else {
                &&& is_capture(headers@, AdmittedDocument::metadata_result(result))
                &&& result matches Ok(admitted) ==> {
                    let commit = admitted.navigation_commit@;
                    &&& admitted.http_status == http_status
                    &&& commit.final_url == self@.identity
                    &&& commit.redirect_count == self@.redirect_count
                    &&& crate::commit::transport_security(commit.security) == response.security
                    &&& !(commit.security is Unverified)
                    &&& commit.had_https_downgrade == self@.had_https_downgrade
                    &&& commit.authority
                        == crate::commit::NavigationResponseAuthority::FinalResponse(response)
                    &&& commit.general_web_error(Some(self.target_of())) is None
                }
            },
    {
        let navigation_commit = match NavigationCommitMetadata::from_general_web_response(
            self.current.identity.as_str(),
            self.redirect_count,
            self.had_https_downgrade,
            Some(&self.current),
            authority_matches,
            response,
        ) {
            Ok(commit) => commit,
            Err(_) => return Err(
                PipelineError::DocumentPolicy(DocumentPolicyError::BindingMismatch),
            ),
        };
        match capture_metadata(headers) {
            Ok(response_metadata) => Ok(
                AdmittedDocument { http_status, navigation_commit, response_metadata },
            ),
            Err(error) => Err(error),
        }
    }
}

} // verus!
