//! One all-or-nothing stylesheet transaction: every decision between network
//! exchanges.

use vstd::prelude::*;

use crate::commit::NavigationCommitMetadata;
use crate::headers::Headers;
use crate::identity::{DocumentVersion, NodeId};
use crate::style_body::{BodyBounds, BodyFraming};
use crate::style_fetch::{
    StyleFetchLimit, StyleFetchLimits, StyleFetchOriginCleanliness, StyleFetchRejection,
    MAX_STYLE_FETCH_AGGREGATE_HEADER_BYTES,
};
use crate::style_plan::{validate_plan_topology, StyleResourcePlan, StyleResourceRequestIdentity};
use crate::style_response::{admit_response_headers, single_location, StyleFetchResponseHeaders};
use crate::style_transport::{
    map_redirect_target_error, validate_connection_security, validate_mixed_content, Checkpoint,
    RedirectTargetFailure,
};
use crate::web::{same_origin, ConnectionSecurity, ParsedNavigation, WebOrigin, WebTarget};

verus! {

/// Redacted diagnostic category retained in exact operation order.
#[derive(Clone, Copy, Debug, PartialEq, Eq, Structural)]
pub enum StyleFetchDiagnosticKind {
    /// The plan's report-only policy would block the initial request.
    ReportOnlyWouldBlock {
        /// Number of report-only policies which would block.
        policies: usize,
    },
    /// One network redirect passed all pre-connection gates.
    RedirectFollowed {
        /// Redirect response status.
        status: u16,
    },
    /// Missing, empty, or malformed MIME metadata was accepted without nosniff.
    UnknownMimeAccepted,
    /// The transaction failed; the category contains no peer text.
    Rejected(StyleFetchRejection),
}

/// One privacy-safe diagnostic bound to an exact plan request and hop.
#[derive(Clone, Copy, Debug, PartialEq, Eq, Structural)]
pub struct StyleFetchDiagnostic {
    /// Owning document revision.
    pub document_version: DocumentVersion,
    /// Owning link node.
    pub owner: NodeId,
    /// Source-plan request index.
    pub request_index: usize,
    /// Redirects admitted before this observation.
    pub redirect_index: usize,
    /// Redacted category.
    pub kind: StyleFetchDiagnosticKind,
}

impl StyleFetchDiagnostic {
    /// Exact owning document revision.
    pub fn document_version(self) -> (version: DocumentVersion)
        ensures
            version == self.document_version,
    {
        self.document_version
    }

    /// Exact owning link node.
    pub fn owner(self) -> (owner: NodeId)
        ensures
            owner == self.owner,
    {
        self.owner
    }

    /// Exact source-plan request index.
    pub fn request_index(self) -> (index: usize)
        ensures
            index == self.request_index,
    {
        self.request_index
    }

    /// Number of redirects admitted before this observation.
    pub fn redirect_index(self) -> (index: usize)
        ensures
            index == self.redirect_index,
    {
        self.redirect_index
    }

    /// Redacted diagnostic category.
    pub fn kind(self) -> (kind: StyleFetchDiagnosticKind)
        ensures
            kind == self.kind,
    {
        self.kind
    }
}

/// Exact redacted failure point for a fetch transaction.
#[derive(Clone, Copy, Debug, PartialEq, Eq, Structural)]
pub struct StyleFetchError {
    /// Owning document revision.
    pub document_version: DocumentVersion,
    /// Owning link node.
    pub owner: Option<NodeId>,
    /// Source-plan request index.
    pub request_index: usize,
    /// Redirects completed before failure.
    pub redirect_index: usize,
    /// Redacted rejection category.
    pub rejection: StyleFetchRejection,
}

impl StyleFetchError {
    /// Exact owning document revision.
    pub fn document_version(self) -> (version: DocumentVersion)
        ensures
            version == self.document_version,
    {
        self.document_version
    }

    /// Exact owning link node.
    pub fn owner(self) -> (owner: Option<NodeId>)
        ensures
            owner == self.owner,
    {
        self.owner
    }

    /// Exact source-plan request index.
    pub fn request_index(self) -> (index: usize)
        ensures
            index == self.request_index,
    {
        self.request_index
    }

    /// Redirect count completed before failure.
    pub fn redirect_index(self) -> (index: usize)
        ensures
            index == self.redirect_index,
    {
        self.redirect_index
    }

    /// Stable redacted rejection category.
    pub fn rejection(self) -> (rejection: StyleFetchRejection)
        ensures
            rejection == self.rejection,
    {
        self.rejection
    }
}

/// Where in a transaction something happens.
#[derive(Clone, Copy, Debug, PartialEq, Eq, Structural)]
pub struct ErrorPoint {
    /// Owning document revision.
    pub document_version: DocumentVersion,
    /// Owning link node.
    pub owner: Option<NodeId>,
    /// Source-plan request index.
    pub request_index: usize,
    /// Redirects completed so far.
    pub redirect_index: usize,
}

impl ErrorPoint {
    /// The plan as a whole.
    pub open spec fn of_plan(document_version: DocumentVersion) -> Self {
        ErrorPoint { document_version, owner: None, request_index: 0, redirect_index: 0 }
    }

    /// A request.
    pub open spec fn of_request(
        request_index: usize,
        request: StyleResourceRequestIdentity,
        redirect_index: usize,
    ) -> Self {
        ErrorPoint {
            document_version: request.document_version,
            owner: Some(request.owner),
            request_index,
            redirect_index,
        }
    }

    /// The first request of a plan, or the plan as a whole.
    pub open spec fn of_start(plan: StyleResourcePlan) -> Self {
        if plan.requests@.len() == 0 {
            ErrorPoint::of_plan(plan.document_version)
        } else {
            ErrorPoint::of_request(0, plan.requests@[0], 0)
        }
    }

    /// A failure at this point.
    pub open spec fn failing(self, rejection: StyleFetchRejection) -> StyleFetchError {
        StyleFetchError {
            document_version: self.document_version,
            owner: self.owner,
            request_index: self.request_index,
            redirect_index: self.redirect_index,
            rejection,
        }
    }

    /// An observation at this point.
    pub open spec fn observing(self, kind: StyleFetchDiagnosticKind) -> StyleFetchDiagnostic {
        StyleFetchDiagnostic {
            document_version: self.document_version,
            owner: self.owner->0,
            request_index: self.request_index,
            redirect_index: self.redirect_index,
            kind,
        }
    }

    /// The first request of a plan, or the plan as a whole.
    pub fn start(plan: &StyleResourcePlan) -> (point: Self)
        ensures
            point == ErrorPoint::of_start(*plan),
    {
        if plan.requests.len() == 0 {
            ErrorPoint {
                document_version: plan.document_version,
                owner: None,
                request_index: 0,
                redirect_index: 0,
            }
        } else {
            ErrorPoint::request(0, &plan.requests[0], 0)
        }
    }

    /// A request.
    pub fn request(
        request_index: usize,
        request: &StyleResourceRequestIdentity,
        redirect_index: usize,
    ) -> (point: Self)
        ensures
            point == ErrorPoint::of_request(request_index, *request, redirect_index),
    {
        ErrorPoint {
            document_version: request.document_version,
            owner: Some(request.owner),
            request_index,
            redirect_index,
        }
    }

    /// A failure at this point.
    pub fn error(self, rejection: StyleFetchRejection) -> (error: StyleFetchError)
        ensures
            error == self.failing(rejection),
    {
        StyleFetchError {
            document_version: self.document_version,
            owner: self.owner,
            request_index: self.request_index,
            redirect_index: self.redirect_index,
            rejection,
        }
    }

    /// An observation at this point; the plan as a whole observes nothing.
    pub fn diagnostic(self, kind: StyleFetchDiagnosticKind) -> (result: Result<
        StyleFetchDiagnostic,
        StyleFetchRejection,
    >)
        ensures
            result == if self.owner is Some {
                Ok(self.observing(kind))
            } else {
                Err(StyleFetchRejection::PlanOwnership)
            },
    {
        match self.owner {
            Some(owner) => Ok(
                StyleFetchDiagnostic {
                    document_version: self.document_version,
                    owner,
                    request_index: self.request_index,
                    redirect_index: self.redirect_index,
                    kind,
                },
            ),
            None => Err(StyleFetchRejection::PlanOwnership),
        }
    }
}

/// Index of the first report-only observation at or after `from`, or the
/// length.
pub open spec fn first_report_only(diagnostics: Seq<StyleFetchDiagnostic>, from: int) -> int
    decreases diagnostics.len() - from,
{
    if from >= diagnostics.len() {
        diagnostics.len() as int
    } else if diagnostics[from].kind is ReportOnlyWouldBlock {
        from
    } else {
        first_report_only(diagnostics, from + 1)
    }
}

/// Observations with one more that counts: where there is no room, the first
/// report-only one gives way.
pub open spec fn with_authoritative(
    diagnostics: Seq<StyleFetchDiagnostic>,
    diagnostic: StyleFetchDiagnostic,
    maximum: usize,
) -> Seq<StyleFetchDiagnostic> {
    let given_way = first_report_only(diagnostics, 0);
    if maximum == 0 {
        diagnostics
    } else if diagnostics.len() < maximum {
        diagnostics.push(diagnostic)
    } else if given_way < diagnostics.len() {
        diagnostics.remove(given_way).push(diagnostic)
    } else {
        diagnostics
    }
}

/// Observations with one more that counts for nothing else.
pub open spec fn with_report_only(
    diagnostics: Seq<StyleFetchDiagnostic>,
    diagnostic: StyleFetchDiagnostic,
    maximum: usize,
) -> Seq<StyleFetchDiagnostic> {
    if diagnostics.len() < maximum {
        diagnostics.push(diagnostic)
    } else {
        diagnostics
    }
}

/// Observations never exceed their bound, and only report-only ones get lost
/// once they were made.
pub proof fn diagnostics_stay_bounded(
    diagnostics: Seq<StyleFetchDiagnostic>,
    diagnostic: StyleFetchDiagnostic,
    maximum: usize,
)
    requires
        diagnostics.len() <= maximum,
    ensures
        with_authoritative(diagnostics, diagnostic, maximum).len() <= maximum,
        with_report_only(diagnostics, diagnostic, maximum).len() <= maximum,
        forall|i: int|
            0 <= i < diagnostics.len() && !(
            #[trigger] diagnostics[i].kind is ReportOnlyWouldBlock) ==> with_authoritative(
                diagnostics,
                diagnostic,
                maximum,
            ).contains(diagnostics[i]),
{
    first_report_only_is_one(diagnostics, 0);
    let given_way = first_report_only(diagnostics, 0);
    let next = with_authoritative(diagnostics, diagnostic, maximum);
    assert forall|i: int|
        0 <= i < diagnostics.len() && !(
        #[trigger] diagnostics[i].kind is ReportOnlyWouldBlock) implies next.contains(
        diagnostics[i],
    ) by {
        if maximum > 0 && diagnostics.len() >= maximum && given_way < diagnostics.len() {
            if i < given_way {
                assert(next[i] == diagnostics[i]);
            } else {
                assert(next[i - 1] == diagnostics[i]);
            }
        } else {
            assert(next[i] == diagnostics[i]);
        }
    }
}

/// What is found is a report-only observation, or the length.
proof fn first_report_only_is_one(diagnostics: Seq<StyleFetchDiagnostic>, from: int)
    requires
        0 <= from <= diagnostics.len(),
    ensures
        from <= first_report_only(diagnostics, from) <= diagnostics.len(),
        first_report_only(diagnostics, from) < diagnostics.len() ==> diagnostics[first_report_only(
            diagnostics,
            from,
        )].kind is ReportOnlyWouldBlock,
    decreases diagnostics.len() - from,
{
    if from < diagnostics.len() && !(diagnostics[from].kind is ReportOnlyWouldBlock) {
        first_report_only_is_one(diagnostics, from + 1);
    }
}

/// Keeps an observation that counts.
pub fn push_authoritative_diagnostic_lossy(
    diagnostics: &mut Vec<StyleFetchDiagnostic>,
    diagnostic: StyleFetchDiagnostic,
    maximum: usize,
)
    ensures
        final(diagnostics)@ == with_authoritative(old(diagnostics)@, diagnostic, maximum),
{
    if maximum == 0 {
        return ;
    }
    if diagnostics.len() < maximum {
        diagnostics.push(diagnostic);
        return ;
    }
    let mut at: usize = 0;
    while at < diagnostics.len()
        invariant
            at <= diagnostics@.len(),
            diagnostics@ == old(diagnostics)@,
            first_report_only(diagnostics@, at as int) == first_report_only(diagnostics@, 0),
            0 < maximum <= diagnostics@.len(),
        decreases diagnostics@.len() - at,
    {
        if let StyleFetchDiagnosticKind::ReportOnlyWouldBlock { .. } = diagnostics[at].kind {
            let _ = diagnostics.remove(at);
            diagnostics.push(diagnostic);
            return ;
        }
        at += 1;
    }
}

/// Keeps an observation that counts for nothing else.
pub fn push_non_enforcing_diagnostic_lossy(
    diagnostics: &mut Vec<StyleFetchDiagnostic>,
    diagnostic: StyleFetchDiagnostic,
    maximum: usize,
)
    ensures
        final(diagnostics)@ == with_report_only(old(diagnostics)@, diagnostic, maximum),
{
    if diagnostics.len() < maximum {
        diagnostics.push(diagnostic);
    }
}

/// One fully admitted external stylesheet response in document order.
pub struct StyleFetchResponse {
    /// Document revision which owns this response.
    pub document_version: DocumentVersion,
    /// Owning link node.
    pub owner: NodeId,
    /// Index in the source plan's requests.
    pub request_index: usize,
    /// Canonical final URL.
    pub final_url: String,
    /// Admitted redirects.
    pub redirect_count: usize,
    /// Visibility of the rules.
    pub origin_cleanliness: StyleFetchOriginCleanliness,
    /// Final status.
    pub status: u16,
    /// Connection evidence.
    pub security: ConnectionSecurity,
    /// Retained headers.
    pub headers: StyleFetchResponseHeaders,
    /// Complete body.
    pub body: Vec<u8>,
}

impl StyleFetchResponse {
    /// Exact immutable document revision which owns this response.
    pub fn document_version(&self) -> (version: DocumentVersion)
        ensures
            version == self.document_version,
    {
        self.document_version
    }

    /// Exact owning HTML link node.
    pub fn owner(&self) -> (owner: NodeId)
        ensures
            owner == self.owner,
    {
        self.owner
    }

    /// Exact index in the source plan's requests.
    pub fn request_index(&self) -> (index: usize)
        ensures
            index == self.request_index,
    {
        self.request_index
    }

    /// Canonical credential-free fragment-free final HTTP(S) identity.
    pub fn final_url(&self) -> (url: &str)
        ensures
            url@ == self.final_url@,
    {
        self.final_url.as_str()
    }

    /// Number of admitted network redirects.
    pub fn redirect_count(&self) -> (count: usize)
        ensures
            count == self.redirect_count,
    {
        self.redirect_count
    }

    /// Typed clean or tainted result for this exact chain.
    pub fn origin_cleanliness(&self) -> (cleanliness: StyleFetchOriginCleanliness)
        ensures
            cleanliness == self.origin_cleanliness,
    {
        self.origin_cleanliness
    }

    /// Final successful HTTP status.
    pub fn status(&self) -> (status: u16)
        ensures
            status == self.status,
    {
        self.status
    }

    /// Exact cleartext or authenticated-TLS evidence for the final response.
    pub fn security(&self) -> (security: ConnectionSecurity)
        ensures
            security == self.security,
    {
        self.security
    }

    /// Bounded response headers needed by a later decoder and parser.
    pub fn headers(&self) -> (headers: &StyleFetchResponseHeaders)
        ensures
            *headers == self.headers,
    {
        &self.headers
    }

    /// Complete bounded decoded response body.
    pub fn body(&self) -> (body: &[u8])
        ensures
            body@ == self.body@,
    {
        self.body.as_slice()
    }
}

/// Failed transaction containing diagnostics but never response state.
#[derive(Debug)]
pub struct StyleFetchFailure {
    /// Exact redacted terminal failure.
    pub error: StyleFetchError,
    /// Bounded redacted observations made before terminal failure.
    pub diagnostics: Vec<StyleFetchDiagnostic>,
}

impl StyleFetchFailure {
    /// Exact redacted terminal failure.
    pub fn error(&self) -> (error: StyleFetchError)
        ensures
            error == self.error,
    {
        self.error
    }

    /// Bounded redacted observations made before terminal failure.
    pub fn diagnostics(&self) -> (diagnostics: &[StyleFetchDiagnostic])
        ensures
            diagnostics@ == self.diagnostics@,
    {
        self.diagnostics.as_slice()
    }
}

/// What a transaction used up.
#[derive(Clone, Copy, Debug, PartialEq, Eq, Structural)]
pub struct FetchAccounting {
    /// Retained body bytes.
    pub body_bytes: usize,
    /// Retained header bytes.
    pub header_bytes: usize,
    /// HTTP exchanges.
    pub http_exchanges: usize,
}

/// Complete all-or-nothing response set in deterministic document order.
pub struct StyleFetchSet {
    /// Document revision represented by every response.
    pub document_version: DocumentVersion,
    /// Document response commitment from the source plan.
    pub navigation_commit: NavigationCommitMetadata,
    /// Admitted responses in document order.
    pub responses: Vec<StyleFetchResponse>,
    /// Redacted observations in operation order.
    pub diagnostics: Vec<StyleFetchDiagnostic>,
    /// What the transaction used up.
    pub accounting: FetchAccounting,
}

impl StyleFetchSet {
    /// Exact immutable document revision represented by every response.
    pub fn document_version(&self) -> (version: DocumentVersion)
        ensures
            version == self.document_version,
    {
        self.document_version
    }

    /// Exact document response commitment from the source plan.
    pub fn navigation_commit(&self) -> (commit: &NavigationCommitMetadata)
        ensures
            *commit == self.navigation_commit,
    {
        &self.navigation_commit
    }

    /// Fully admitted responses in document order.
    pub fn responses(&self) -> (responses: &[StyleFetchResponse])
        ensures
            responses@ == self.responses@,
    {
        self.responses.as_slice()
    }

    /// Bounded redacted observations in operation order.
    pub fn diagnostics(&self) -> (diagnostics: &[StyleFetchDiagnostic])
        ensures
            diagnostics@ == self.diagnostics@,
    {
        self.diagnostics.as_slice()
    }

    /// Aggregate decoded body bytes retained by this set.
    pub fn aggregate_body_bytes(&self) -> (bytes: usize)
        ensures
            bytes == self.accounting.body_bytes,
    {
        self.accounting.body_bytes
    }

    /// Aggregate response-header bytes retained by this set.
    pub fn aggregate_header_bytes(&self) -> (bytes: usize)
        ensures
            bytes == self.accounting.header_bytes,
    {
        self.accounting.header_bytes
    }

    /// HTTP exchanges, redirect responses among them.
    pub fn http_exchanges(&self) -> (exchanges: usize)
        ensures
            exchanges == self.accounting.http_exchanges,
    {
        self.accounting.http_exchanges
    }
}

/// A transaction between its exchanges.
pub struct StyleFetchTransaction {
    /// Bounds.
    pub limits: StyleFetchLimits,
    /// Observations in operation order.
    pub diagnostics: Vec<StyleFetchDiagnostic>,
    /// Admitted responses in document order.
    pub responses: Vec<StyleFetchResponse>,
    /// What was used up.
    pub accounting: FetchAccounting,
}

/// A request between its exchanges.
pub struct StyleFetchProgress {
    /// Where in the transaction the request is.
    pub point: ErrorPoint,
    /// Target of the next exchange.
    pub target: WebTarget,
    /// Origin of the first target.
    pub initial_origin: WebOrigin,
    /// URLs of all targets so far.
    pub visited: Vec<String>,
    /// Redirects followed so far.
    pub redirect_count: usize,
    /// Whether every redirect stayed in its origin.
    pub all_redirects_same_origin: bool,
}

/// Head of one response.
pub struct ResponseHead {
    /// Connection evidence.
    pub security: ConnectionSecurity,
    /// Status.
    pub status: u16,
    /// Whether the status is a Fetch redirect status.
    pub is_redirect: bool,
    /// Header fields.
    pub headers: Headers,
    /// How the body ends.
    pub framing: BodyFraming,
}

/// What a response head leads to.
pub enum HeadDecision {
    /// Resolve this location against the target, and follow it.
    Redirect {
        /// Location as the response spells it.
        location: String,
    },
    /// Read the body.
    Body,
}

/// Headers of a final response, before its body is read.
pub struct FinalHead {
    /// Retained headers.
    pub headers: StyleFetchResponseHeaders,
    /// Bounds of the body.
    pub body: BodyBounds,
}

/// Why a count cannot grow by one.
pub open spec fn growth_rejection(current: usize, maximum: usize, limit: StyleFetchLimit) -> Option<
    StyleFetchRejection,
> {
    if current + 1 > usize::MAX {
        Some(StyleFetchRejection::CounterOverflow)
    } else if current + 1 > maximum {
        Some(StyleFetchRejection::Limit(limit))
    } else {
        None
    }
}

/// Grows a count by one.
pub fn checked_increment(current: usize, maximum: usize, limit: StyleFetchLimit) -> (result: Result<
    usize,
    StyleFetchRejection,
>)
    ensures
        result == match growth_rejection(current, maximum, limit) {
            Some(rejection) => Err(rejection),
            None => Ok((current + 1) as usize),
        },
{
    match current.checked_add(1) {
        None => Err(StyleFetchRejection::CounterOverflow),
        Some(next) => {
            if next > maximum {
                Err(StyleFetchRejection::Limit(limit))
            } else {
                Ok(next)
            }
        },
    }
}

/// Whether a text is among others.
pub open spec fn was_visited(visited: Seq<String>, url: Seq<char>) -> bool {
    exists|i: int| 0 <= i < visited.len() && (#[trigger] visited[i])@ == url
}

/// Whether a text is among others.
fn has_visited(visited: &Vec<String>, url: &String) -> (found: bool)
    ensures
        found == was_visited(visited@, url@),
{
    let mut at: usize = 0;
    while at < visited.len()
        invariant
            at <= visited@.len(),
            forall|i: int| 0 <= i < at ==> (#[trigger] visited@[i])@ != url@,
        decreases visited@.len() - at,
    {
        if visited[at] == *url {
            assert(visited@[at as int]@ == url@);
            return true;
        }
        at += 1;
    }
    false
}

impl StyleResourcePlan {
    /// Why the plan is refused as a whole for a document and its commitment,
    /// given what the URL parser made of the document's URL.
    pub open spec fn rejection(
        self,
        limits: StyleFetchLimits,
        document_version: DocumentVersion,
        navigation_commit: NavigationCommitMetadata,
        observed: Checkpoint,
        document: Option<&ParsedNavigation>,
    ) -> Option<StyleFetchRejection> {
        if observed.rejection() is Some {
            observed.rejection()
        } else if !self.coherent() {
            Some(StyleFetchRejection::PlanOwnership)
        } else if self.requests@.len() > limits@.responses {
            Some(StyleFetchRejection::Limit(StyleFetchLimit::Responses))
        } else if self.document_version != document_version || !self.navigation_commit@.agrees(
            navigation_commit@,
        ) || document is None {
            Some(StyleFetchRejection::PlanOwnership)
        } else {
            None
        }
    }

    /// Why a request is refused before its target is looked at.
    pub open spec fn request_rejection(self, index: int, observed: Checkpoint) -> Option<
        StyleFetchRejection,
    > {
        let request = self.requests@[index];
        if observed.rejection() is Some {
            observed.rejection()
        } else if request.document_version != self.document_version || request.owner.document_id
            != self.document_version.document_id
            || request.policy_decision.enforcing_blocked_policies != 0 {
            Some(StyleFetchRejection::PlanOwnership)
        } else {
            None
        }
    }
}

impl StyleResourceRequestIdentity {
    /// Why the first target of the request is refused, given what the URL
    /// parser made of its URL.
    pub open spec fn target_rejection(
        self,
        document_origin: WebOrigin,
        parsed: Option<&ParsedNavigation>,
    ) -> Option<StyleFetchRejection> {
        match parsed {
            None => Some(StyleFetchRejection::PlanOwnership),
            Some(parsed) => if parsed.identity@ != self.canonical_url@ || parsed.target.url@
                != self.canonical_url@ {
                Some(StyleFetchRejection::PlanOwnership)
            } else if crate::style_transport::is_mixed_content(
                document_origin.scheme,
                parsed.target.origin@,
            ) {
                Some(StyleFetchRejection::MixedContent)
            } else {
                None
            },
        }
    }
}

impl ResponseHead {
    /// Why the head ends the transaction.
    pub open spec fn rejection(
        self,
        target: WebTarget,
        observed: Checkpoint,
    ) -> Option<StyleFetchRejection> {
        let location = crate::style_response::redirect_location(self.headers@);
        if observed.rejection() is Some {
            observed.rejection()
        } else if !crate::commit::scheme_agrees(target.origin.scheme, self.security) {
            Some(StyleFetchRejection::TransportSecurityMismatch)
        } else if self.is_redirect {
            match location {
                Ok(_) => None,
                Err(rejection) => Some(rejection),
            }
        } else if 300 <= self.status <= 399 {
            Some(StyleFetchRejection::UnsupportedRedirectStatus)
        } else if !(200 <= self.status <= 299) {
            Some(StyleFetchRejection::HttpStatus)
        } else {
            None
        }
    }
}

impl StyleFetchProgress {
    /// Whether one redirect leads from here to `next`.
    pub open spec fn redirected(self, next: Self) -> bool {
        &&& next.redirect_count == self.redirect_count + 1
        &&& next.all_redirects_same_origin == (self.all_redirects_same_origin
            && self.target.origin@ == next.target.origin@)
    }

    /// Why a redirect is not followed.
    pub open spec fn redirect_rejection(
        self,
        limits: StyleFetchLimits,
        document_origin: WebOrigin,
        has_enforcing_policy: bool,
        resolved: Result<WebTarget, RedirectTargetFailure>,
        max_url_bytes: usize,
    ) -> Option<StyleFetchRejection> {
        match resolved {
            Err(failure) => Some(crate::style_transport::redirect_rejection(failure)),
            Ok(next) => if crate::bytes::text(next.url@).len() > max_url_bytes {
                Some(StyleFetchRejection::RedirectUrlBytes)
            } else if crate::style_transport::is_mixed_content(
                document_origin.scheme,
                next.origin@,
            ) {
                Some(StyleFetchRejection::MixedContent)
            } else if has_enforcing_policy && next.origin@ != self.initial_origin@ {
                Some(StyleFetchRejection::CrossOriginPolicyUnproven)
            } else if was_visited(self.visited@, next.url@) {
                Some(StyleFetchRejection::RedirectLoop)
            } else {
                growth_rejection(
                    self.redirect_count,
                    limits@.redirects,
                    StyleFetchLimit::Redirects,
                )
            },
        }
    }

    /// The point with the redirects followed so far.
    pub open spec fn point_now(self) -> ErrorPoint {
        ErrorPoint { redirect_index: self.redirect_count, ..self.point }
    }
}

/// Whether `chain` is what a request comes through between its exchanges, from
/// its start on.
pub open spec fn is_chain(chain: Seq<StyleFetchProgress>) -> bool {
    &&& chain.len() > 0
    &&& chain[0].all_redirects_same_origin
    &&& forall|i: int| 0 <= i < chain.len() - 1 ==> (#[trigger] chain[i]).redirected(chain[i + 1])
}

/// The response at the end of a chain of redirects is clean exactly where every
/// origin of the chain is that of the document.
pub proof fn clean_means_one_origin(
    chain: Seq<StyleFetchProgress>,
    document: crate::web::OriginModel,
)
    requires
        is_chain(chain),
    ensures
        (chain.last().all_redirects_same_origin && document == chain.last().target.origin@) <==> (
        forall|i: int| 0 <= i < chain.len() ==> (#[trigger] chain[i]).target.origin@ == document),
    decreases chain.len(),
{
    if chain.len() > 1 {
        let before = chain.drop_last();
        let last = chain.len() - 1;
        assert(chain[last - 1].redirected(chain[last]));
        assert forall|i: int| 0 <= i < before.len() - 1 implies (#[trigger] before[i]).redirected(
            before[i + 1],
        ) by {
            assert(chain[i].redirected(chain[i + 1]));
        }
        clean_means_one_origin(before, document);
        assert(forall|i: int| 0 <= i < before.len() ==> before[i] == chain[i]);
        if chain.last().all_redirects_same_origin && document == chain.last().target.origin@ {
            assert forall|i: int| 0 <= i < chain.len() implies (#[trigger] chain[i]).target.origin@
                == document by {
                if i < last {
                    assert(before[i].target.origin@ == document);
                }
            }
        }
        if forall|i: int| 0 <= i < chain.len() ==> (#[trigger] chain[i]).target.origin@ == document {
            assert forall|i: int| 0 <= i < before.len() implies (
            #[trigger] before[i]).target.origin@ == document by {
                assert(chain[i].target.origin@ == document);
            }
            assert(chain[last].target.origin@ == document);
            assert(chain[last - 1].target.origin@ == document);
        }
    }
}

/// Body bytes of a response.
pub open spec fn body_charges() -> spec_fn(StyleFetchResponse) -> nat {
    |response: StyleFetchResponse| response.body@.len()
}

/// Retained header bytes of a response.
pub open spec fn header_charges() -> spec_fn(StyleFetchResponse) -> nat {
    |response: StyleFetchResponse| response.headers@.retained()
}

impl StyleFetchResponse {
    /// Whether the response is the one to a request of a plan.
    pub open spec fn answers(self, plan: StyleResourcePlan, index: int) -> bool {
        let request = plan.requests@[index];
        &&& self.request_index == index
        &&& self.document_version == request.document_version
        &&& self.owner == request.owner
    }

    /// Whether the response is one that the bounds admit.
    pub open spec fn admissible(self, limits: StyleFetchLimits) -> bool {
        &&& 200 <= self.status <= 299
        &&& self.body@.len() <= limits@.response_body_bytes
        &&& self.redirect_count <= limits@.redirects
    }
}

/// Whether responses belong to the first requests of a plan, in plan order.
pub open spec fn answered(responses: Seq<StyleFetchResponse>, plan: StyleResourcePlan) -> bool {
    &&& responses.len() <= plan.requests@.len()
    &&& forall|i: int| 0 <= i < responses.len() ==> (#[trigger] responses[i]).answers(plan, i)
}

/// A response to the next request keeps responses in plan order, so that a
/// transaction which retains one for each request answers the whole plan.
pub proof fn answers_stay_in_order(
    responses: Seq<StyleFetchResponse>,
    response: StyleFetchResponse,
    plan: StyleResourcePlan,
)
    requires
        answered(responses, plan),
        responses.len() < plan.requests@.len(),
        response.answers(plan, responses.len() as int),
    ensures
        answered(responses.push(response), plan),
{
}

impl StyleFetchTransaction {
    /// What every step of a transaction keeps: responses come in the order of
    /// their requests, what was used up is exactly what is retained, and nothing
    /// exceeds its bound.
    pub open spec fn inv(self) -> bool {
        &&& self.diagnostics@.len() <= self.limits@.diagnostics
        &&& self.accounting.http_exchanges <= self.limits@.http_exchanges
        &&& self.accounting.body_bytes == crate::accounting::seq_total(
            self.responses@,
            body_charges(),
        )
        &&& self.accounting.header_bytes == crate::accounting::seq_total(
            self.responses@,
            header_charges(),
        )
        &&& self.accounting.body_bytes <= self.limits@.aggregate_body_bytes
        &&& self.accounting.header_bytes <= MAX_STYLE_FETCH_AGGREGATE_HEADER_BYTES
        &&& forall|i: int|
            0 <= i < self.responses@.len() ==> (#[trigger] self.responses@[i]).request_index == i
        &&& forall|i: int|
            0 <= i < self.responses@.len() ==> (#[trigger] self.responses@[i]).admissible(
                self.limits,
            )
    }

    /// Refuses a plan as a whole, or gives the document's origin. Memory for the
    /// responses may be missing.
    pub fn admit_plan(
        &mut self,
        plan: &StyleResourcePlan,
        document_version: DocumentVersion,
        navigation_commit: &NavigationCommitMetadata,
        observed: Checkpoint,
        document: Option<&ParsedNavigation>,
    ) -> (result: Result<WebOrigin, StyleFetchError>)
        ensures
            *final(self) == *old(self),
            ({
                let point = ErrorPoint::of_start(*plan);
                match plan.rejection(
                    old(self).limits,
                    document_version,
                    *navigation_commit,
                    observed,
                    document,
                ) {
                    Some(rejection) => result == Err::<WebOrigin, _>(point.failing(rejection)),
                    None => match result {
                        Ok(origin) => origin == document->0.target.origin,
                        Err(error) => error == point.failing(StyleFetchRejection::AllocationFailed)
                            && old(self).limits@.responses > 0,
                    },
                }
            }),
    {
        let point = ErrorPoint::start(plan);
        match observed.check() {
            Ok(()) => {},
            Err(rejection) => return Err(point.error(rejection)),
        }
        match validate_plan_topology(plan) {
            Ok(()) => {},
            Err(rejection) => return Err(point.error(rejection)),
        }
        if plan.requests.len() > self.limits.max_responses() {
            return Err(point.error(StyleFetchRejection::Limit(StyleFetchLimit::Responses)));
        }
        if plan.document_version != document_version || !plan.navigation_commit.same_commitment(
            navigation_commit,
        ) {
            return Err(point.error(StyleFetchRejection::PlanOwnership));
        }
        let document = match document {
            Some(document) => document,
            None => return Err(point.error(StyleFetchRejection::PlanOwnership)),
        };
        let mut responses: Vec<StyleFetchResponse> = Vec::new();
        let max_responses: usize = self.limits.max_responses();
        if max_responses > 0 && responses.try_reserve(max_responses).is_err() {
            return Err(point.error(StyleFetchRejection::AllocationFailed));
        }
        Ok(document.target.origin.clone())
    }

    /// Starts one request of the plan, given what the URL parser made of its
    /// URL. Memory for the visited URLs may be missing.
    pub fn begin_request(
        &mut self,
        plan: &StyleResourcePlan,
        request_index: usize,
        observed: Checkpoint,
        document_origin: &WebOrigin,
        parsed: Option<&ParsedNavigation>,
    ) -> (result: Result<StyleFetchProgress, StyleFetchError>)
        requires
            request_index < plan.requests@.len(),
        ensures
            old(self).inv() ==> final(self).inv(),
            final(self).limits == old(self).limits,
            final(self).responses == old(self).responses,
            final(self).accounting == old(self).accounting,
            ({
                let request = plan.requests@[request_index as int];
                let point = ErrorPoint::of_request(request_index, request, 0);
                let would_block = request.policy_decision.report_only_would_block_policies;
                match plan.request_rejection(request_index as int, observed) {
                    Some(rejection) => result == Err::<StyleFetchProgress, _>(
                        point.failing(rejection),
                    ) && final(self).diagnostics == old(self).diagnostics,
                    None => {
                        &&& final(self).diagnostics@ == if would_block == 0 {
                            old(self).diagnostics@
                        } else {
                            with_report_only(
                                old(self).diagnostics@,
                                point.observing(
                                    StyleFetchDiagnosticKind::ReportOnlyWouldBlock {
                                        policies: would_block,
                                    },
                                ),
                                old(self).limits@.diagnostics,
                            )
                        }
                        &&& match request.target_rejection(*document_origin, parsed) {
                            Some(rejection) => result == Err::<StyleFetchProgress, _>(
                                point.failing(rejection),
                            ),
                            None => match result {
                                Ok(progress) => {
                                    &&& progress.point == point
                                    &&& progress.target == parsed->0.target
                                    &&& progress.initial_origin == parsed->0.target.origin
                                    &&& progress.visited@.len() == 1
                                    &&& progress.visited@[0]@ == parsed->0.target.url@
                                    &&& progress.redirect_count == 0
                                    &&& progress.all_redirects_same_origin
                                },
                                Err(error) => error == point.failing(
                                    StyleFetchRejection::AllocationFailed,
                                ),
                            },
                        }
                    },
                }
            }),
    {
        let request = &plan.requests[request_index];
        let point = ErrorPoint::request(request_index, request, 0);
        match observed.check() {
            Ok(()) => {},
            Err(rejection) => return Err(point.error(rejection)),
        }
        if request.document_version != plan.document_version || request.owner.document_id
            != plan.document_version.document_id || !request.policy_decision.is_allowed() {
            return Err(point.error(StyleFetchRejection::PlanOwnership));
        }
        if request.policy_decision.report_only_would_block() {
            proof {
                if self.inv() {
                    diagnostics_stay_bounded(
                        self.diagnostics@,
                        point.observing(
                            StyleFetchDiagnosticKind::ReportOnlyWouldBlock {
                                policies: request.policy_decision.report_only_would_block_policies,
                            },
                        ),
                        self.limits@.diagnostics,
                    );
                }
            }
            push_non_enforcing_diagnostic_lossy(
                &mut self.diagnostics,
                StyleFetchDiagnostic {
                    document_version: request.document_version,
                    owner: request.owner,
                    request_index,
                    redirect_index: 0,
                    kind: StyleFetchDiagnosticKind::ReportOnlyWouldBlock {
                        policies: request.policy_decision.report_only_would_block_policy_count(),
                    },
                },
                self.limits.max_diagnostics(),
            );
        }
        let parsed = match parsed {
            Some(parsed) => parsed,
            None => return Err(point.error(StyleFetchRejection::PlanOwnership)),
        };
        if parsed.identity != request.canonical_url || parsed.target.url != request.canonical_url {
            return Err(point.error(StyleFetchRejection::PlanOwnership));
        }
        match validate_mixed_content(document_origin.scheme, &parsed.target.origin) {
            Ok(()) => {},
            Err(rejection) => return Err(point.error(rejection)),
        }
        let mut visited: Vec<String> = Vec::new();
        if visited.try_reserve(self.limits.max_redirects().saturating_add(1)).is_err() {
            return Err(point.error(StyleFetchRejection::AllocationFailed));
        }
        visited.push(parsed.target.url.clone());
        Ok(
            StyleFetchProgress {
                point,
                target: parsed.target.clone(),
                initial_origin: parsed.target.origin.clone(),
                visited,
                redirect_count: 0,
                all_redirects_same_origin: true,
            },
        )
    }

    /// Starts one exchange with the request's target.
    pub fn begin_exchange(&mut self, progress: &StyleFetchProgress, observed: Checkpoint) -> (result:
        Result<(), StyleFetchError>)
        ensures
            old(self).inv() ==> final(self).inv(),
            final(self).limits == old(self).limits,
            final(self).responses == old(self).responses,
            final(self).diagnostics == old(self).diagnostics,
            ({
                let rejection = if observed.rejection() is Some {
                    observed.rejection()
                } else {
                    growth_rejection(
                        old(self).accounting.http_exchanges,
                        old(self).limits@.http_exchanges,
                        StyleFetchLimit::HttpExchanges,
                    )
                };
                match rejection {
                    Some(rejection) => result == Err::<(), _>(
                        progress.point_now().failing(rejection),
                    ) && final(self).accounting == old(self).accounting,
                    None => result == Ok::<(), StyleFetchError>(()) && final(self).accounting == (
                    FetchAccounting {
                        http_exchanges: (old(self).accounting.http_exchanges + 1) as usize,
                        ..old(self).accounting
                    }),
                }
            }),
    {
        let mut point = progress.point;
        point.redirect_index = progress.redirect_count;
        match observed.check() {
            Ok(()) => {},
            Err(rejection) => return Err(point.error(rejection)),
        }
        match checked_increment(
            self.accounting.http_exchanges,
            self.limits.max_http_exchanges(),
            StyleFetchLimit::HttpExchanges,
        ) {
            Ok(exchanges) => {
                self.accounting.http_exchanges = exchanges;
                Ok(())
            },
            Err(rejection) => Err(point.error(rejection)),
        }
    }

    /// Decides what the head of a response leads to.
    pub fn receive_head(
        &self,
        progress: &StyleFetchProgress,
        observed: Checkpoint,
        head: &ResponseHead,
    ) -> (result: Result<HeadDecision, StyleFetchError>)
        ensures
            match head.rejection(progress.target, observed) {
                Some(rejection) => result == Err::<HeadDecision, _>(
                    progress.point_now().failing(rejection),
                ),
                None => match result {
                    Ok(HeadDecision::Redirect { location }) => head.is_redirect
                        && crate::style_response::redirect_location(head.headers@) == Ok::<
                        _,
                        StyleFetchRejection,
                    >(location@),
                    Ok(HeadDecision::Body) => !head.is_redirect,
                    Err(_) => false,
                },
            },
    {
        let mut point = progress.point;
        point.redirect_index = progress.redirect_count;
        match observed.check() {
            Ok(()) => {},
            Err(rejection) => return Err(point.error(rejection)),
        }
        match validate_connection_security(progress.target.origin.scheme, head.security) {
            Ok(()) => {},
            Err(rejection) => return Err(point.error(rejection)),
        }
        if head.is_redirect {
            return match single_location(&head.headers) {
                Ok(location) => Ok(HeadDecision::Redirect { location: location.to_owned() }),
                Err(rejection) => Err(point.error(rejection)),
            };
        }
        if 300 <= head.status && head.status <= 399 {
            return Err(point.error(StyleFetchRejection::UnsupportedRedirectStatus));
        }
        if head.status < 200 || head.status > 299 {
            return Err(point.error(StyleFetchRejection::HttpStatus));
        }
        Ok(HeadDecision::Body)
    }

    /// Follows a redirect to what its location resolved to. Every gate is
    /// passed before anything connects to the new target.
    pub fn follow_redirect(
        &mut self,
        progress: &mut StyleFetchProgress,
        document_origin: &WebOrigin,
        has_enforcing_policy: bool,
        status: u16,
        resolved: Result<WebTarget, RedirectTargetFailure>,
        max_url_bytes: usize,
    ) -> (result: Result<(), StyleFetchError>)
        ensures
            old(self).inv() ==> final(self).inv(),
            final(self).limits == old(self).limits,
            final(self).responses == old(self).responses,
            final(self).accounting == old(self).accounting,
            match old(progress).redirect_rejection(
                old(self).limits,
                *document_origin,
                has_enforcing_policy,
                resolved,
                max_url_bytes,
            ) {
                Some(rejection) => {
                    &&& result == Err::<(), _>(old(progress).point_now().failing(rejection))
                    &&& final(self).diagnostics == old(self).diagnostics
                    &&& *final(progress) == *old(progress)
                },
                None => {
                    let next = resolved->Ok_0;
                    let point = ErrorPoint {
                        redirect_index: (old(progress).redirect_count + 1) as usize,
                        ..old(progress).point
                    };
                    if old(progress).point.owner is None {
                        &&& result == Err::<(), _>(
                            point.failing(StyleFetchRejection::PlanOwnership),
                        )
                        &&& final(self).diagnostics == old(self).diagnostics
                        &&& *final(progress) == *old(progress)
                    } else {
                        &&& result == Ok::<(), StyleFetchError>(())
                        &&& final(self).diagnostics@ == with_authoritative(
                            old(self).diagnostics@,
                            point.observing(StyleFetchDiagnosticKind::RedirectFollowed { status }),
                            old(self).limits@.diagnostics,
                        )
                        &&& final(progress).point == point
                        &&& final(progress).target == next
                        &&& final(progress).initial_origin == old(progress).initial_origin
                        &&& final(progress).visited@.len() == old(progress).visited@.len() + 1
                        &&& final(progress).visited@.last()@ == next.url@
                        &&& final(progress).visited@.drop_last() == old(progress).visited@
                        &&& old(progress).redirected(*final(progress))
                    }
                },
            },
    {
        let mut point = progress.point;
        point.redirect_index = progress.redirect_count;
        let next = match resolved {
            Ok(next) => next,
            Err(failure) => return Err(point.error(map_redirect_target_error(failure))),
        };
        if next.url.as_str().as_bytes().len() > max_url_bytes {
            return Err(point.error(StyleFetchRejection::RedirectUrlBytes));
        }
        match validate_mixed_content(document_origin.scheme, &next.origin) {
            Ok(()) => {},
            Err(rejection) => return Err(point.error(rejection)),
        }
        if has_enforcing_policy && !same_origin(&next.origin, &progress.initial_origin) {
            return Err(point.error(StyleFetchRejection::CrossOriginPolicyUnproven));
        }
        if has_visited(&progress.visited, &next.url) {
            return Err(point.error(StyleFetchRejection::RedirectLoop));
        }
        let redirect_count: usize = match checked_increment(
            progress.redirect_count,
            self.limits.max_redirects(),
            StyleFetchLimit::Redirects,
        ) {
            Ok(redirect_count) => redirect_count,
            Err(rejection) => return Err(point.error(rejection)),
        };
        point.redirect_index = redirect_count;
        let diagnostic = match point.diagnostic(
            StyleFetchDiagnosticKind::RedirectFollowed { status },
        ) {
            Ok(diagnostic) => diagnostic,
            Err(rejection) => return Err(point.error(rejection)),
        };
        let ghost before = progress.visited@;
        progress.visited.push(next.url.clone());
        assert(progress.visited@.drop_last() =~= before);
        proof {
            if self.inv() {
                diagnostics_stay_bounded(
                    self.diagnostics@,
                    diagnostic,
                    self.limits@.diagnostics,
                );
            }
        }
        push_authoritative_diagnostic_lossy(
            &mut self.diagnostics,
            diagnostic,
            self.limits.max_diagnostics(),
        );
        progress.point = point;
        progress.redirect_count = redirect_count;
        progress.all_redirects_same_origin = progress.all_redirects_same_origin && same_origin(
            &progress.target.origin,
            &next.origin,
        );
        progress.target = next;
        Ok(())
    }

    /// Why admitted headers are refused for what the transaction already
    /// retains.
    pub open spec fn header_rejection(self, retained: nat) -> Option<StyleFetchRejection> {
        if retained > usize::MAX || self.accounting.header_bytes + retained > usize::MAX {
            Some(StyleFetchRejection::CounterOverflow)
        } else if self.accounting.header_bytes + retained
            > MAX_STYLE_FETCH_AGGREGATE_HEADER_BYTES {
            Some(StyleFetchRejection::Limit(StyleFetchLimit::AggregateHeaderBytes))
        } else {
            None
        }
    }

    /// Admits the headers of a final response, before its body is read. Memory
    /// may be missing only for a `Content-Type` within its bound.
    pub fn admit_final_head(&mut self, progress: &StyleFetchProgress, head: &ResponseHead) -> (result:
        Result<FinalHead, StyleFetchError>)
        ensures
            old(self).inv() ==> final(self).inv(),
            final(self).limits == old(self).limits,
            final(self).responses == old(self).responses,
            final(self).accounting == old(self).accounting,
            ({
                let point = progress.point_now();
                match result {
                    Err(error) => final(self).diagnostics == old(self).diagnostics && {
                        ||| error == point.failing(StyleFetchRejection::AllocationFailed)
                            && crate::style_response::stores_content_type(head.headers@)
                        ||| match crate::style_response::admitted_headers(head.headers@) {
                            Err(rejection) => error == point.failing(rejection),
                            Ok((headers, unknown)) => match old(self).header_rejection(
                                headers.retained(),
                            ) {
                                Some(rejection) => error == point.failing(rejection),
                                None => unknown && point.owner is None && error == point.failing(
                                    StyleFetchRejection::PlanOwnership,
                                ),
                            },
                        }
                    },
                    Ok(admitted) => {
                        &&& crate::style_response::admitted_headers(head.headers@) matches Ok(
                            (headers, unknown),
                        )
                        &&& admitted.headers@ == headers
                        &&& old(self).header_rejection(headers.retained()) is None
                        &&& unknown ==> point.owner is Some
                        &&& admitted.body == (BodyBounds {
                            per_response: old(self).limits@.response_body_bytes,
                            prior_aggregate: old(self).accounting.body_bytes,
                            aggregate: old(self).limits@.aggregate_body_bytes,
                        })
                        &&& final(self).diagnostics@ == if unknown {
                            with_authoritative(
                                old(self).diagnostics@,
                                point.observing(StyleFetchDiagnosticKind::UnknownMimeAccepted),
                                old(self).limits@.diagnostics,
                            )
                        } else {
                            old(self).diagnostics@
                        }
                    },
                }
            }),
    {
        let mut point = progress.point;
        point.redirect_index = progress.redirect_count;
        let (headers, unknown) = match admit_response_headers(&head.headers) {
            Ok(admitted) => admitted,
            Err(rejection) => return Err(point.error(rejection)),
        };
        let retained: usize = match headers.checked_retained_bytes() {
            Ok(retained) => retained,
            Err(rejection) => return Err(point.error(rejection)),
        };
        match self.accounting.header_bytes.checked_add(retained) {
            None => return Err(point.error(StyleFetchRejection::CounterOverflow)),
            Some(total) => {
                if total > MAX_STYLE_FETCH_AGGREGATE_HEADER_BYTES {
                    return Err(
                        point.error(
                            StyleFetchRejection::Limit(StyleFetchLimit::AggregateHeaderBytes),
                        ),
                    );
                }
            },
        }
        if unknown {
            match point.diagnostic(StyleFetchDiagnosticKind::UnknownMimeAccepted) {
                Ok(diagnostic) => {
                    proof {
                        if self.inv() {
                            diagnostics_stay_bounded(
                                self.diagnostics@,
                                diagnostic,
                                self.limits@.diagnostics,
                            );
                        }
                    }
                    push_authoritative_diagnostic_lossy(
                        &mut self.diagnostics,
                        diagnostic,
                        self.limits.max_diagnostics(),
                    );
                },
                Err(rejection) => return Err(point.error(rejection)),
            }
        }
        Ok(
            FinalHead {
                headers,
                body: BodyBounds {
                    per_response: self.limits.max_response_body_bytes(),
                    prior_aggregate: self.accounting.body_bytes,
                    aggregate: self.limits.max_aggregate_body_bytes(),
                },
            },
        )
    }

    /// Retains a final response with its complete body.
    pub fn retain_final_response(
        &mut self,
        request: &StyleResourceRequestIdentity,
        progress: &StyleFetchProgress,
        document_origin: &WebOrigin,
        head: &ResponseHead,
        headers: StyleFetchResponseHeaders,
        body: Vec<u8>,
    ) -> (result: Result<(), StyleFetchError>)
        ensures
            old(self).inv() && progress.point.request_index == old(self).responses@.len() && 200
                <= head.status <= 299 && progress.redirect_count <= old(self).limits@.redirects
                && old(self).header_rejection(headers@.retained()) is None && body@.len()
                <= old(self).limits@.response_body_bytes && old(self).accounting.body_bytes
                + body@.len() <= old(self).limits@.aggregate_body_bytes ==> final(self).inv(),
            final(self).limits == old(self).limits,
            final(self).diagnostics == old(self).diagnostics,
            forall|plan: StyleResourcePlan|
                #![trigger answered(final(self).responses@, plan)]
                answered(old(self).responses@, plan) && old(self).responses@.len()
                    < plan.requests@.len() && *request == plan.requests@[old(
                    self,
                ).responses@.len() as int] && progress.point.request_index == old(
                    self,
                ).responses@.len() ==> answered(final(self).responses@, plan),
            ({
                let retained = headers@.retained();
                let body_bytes = old(self).accounting.body_bytes + body@.len();
                let header_bytes = old(self).accounting.header_bytes + retained;
                if retained > usize::MAX || header_bytes > usize::MAX || body_bytes > usize::MAX {
                    &&& result == Err::<(), _>(
                        progress.point_now().failing(StyleFetchRejection::CounterOverflow),
                    )
                    &&& final(self).responses == old(self).responses
                    &&& final(self).accounting == old(self).accounting
                } else {
                    &&& result == Ok::<(), StyleFetchError>(())
                    &&& final(self).accounting == (FetchAccounting {
                        body_bytes: body_bytes as usize,
                        header_bytes: header_bytes as usize,
                        ..old(self).accounting
                    })
                    &&& final(self).responses@ == old(self).responses@.push(
                        final(self).responses@.last(),
                    )
                    &&& {
                        let response = final(self).responses@.last();
                        &&& response.document_version == request.document_version
                        &&& response.owner == request.owner
                        &&& response.request_index == progress.point.request_index
                        &&& response.final_url@ == progress.target.url@
                        &&& response.redirect_count == progress.redirect_count
                        &&& (response.origin_cleanliness is Clean) == (
                        progress.all_redirects_same_origin && document_origin@
                            == progress.target.origin@)
                        &&& response.status == head.status
                        &&& response.security == head.security
                        &&& response.headers == headers
                        &&& response.body == body
                    }
                }
            }),
    {
        let mut point = progress.point;
        point.redirect_index = progress.redirect_count;
        let retained: usize = match headers.checked_retained_bytes() {
            Ok(retained) => retained,
            Err(rejection) => return Err(point.error(rejection)),
        };
        let header_bytes: usize = match self.accounting.header_bytes.checked_add(retained) {
            Some(header_bytes) => header_bytes,
            None => return Err(point.error(StyleFetchRejection::CounterOverflow)),
        };
        let body_bytes: usize = match self.accounting.body_bytes.checked_add(body.len()) {
            Some(body_bytes) => body_bytes,
            None => return Err(point.error(StyleFetchRejection::CounterOverflow)),
        };
        let clean: bool = progress.all_redirects_same_origin && same_origin(
            document_origin,
            &progress.target.origin,
        );
        self.accounting.body_bytes = body_bytes;
        self.accounting.header_bytes = header_bytes;
        self.responses.push(
            StyleFetchResponse {
                document_version: request.document_version,
                owner: request.owner,
                request_index: progress.point.request_index,
                final_url: progress.target.url.clone(),
                redirect_count: progress.redirect_count,
                origin_cleanliness: if clean {
                    StyleFetchOriginCleanliness::Clean
                } else {
                    StyleFetchOriginCleanliness::Tainted
                },
                status: head.status,
                security: head.security,
                headers,
                body,
            },
        );
        proof {
            crate::accounting::seq_total_push(
                old(self).responses@,
                body_charges(),
                self.responses@.last(),
            );
            crate::accounting::seq_total_push(
                old(self).responses@,
                header_charges(),
                self.responses@.last(),
            );
            assert(self.responses@ =~= old(self).responses@.push(self.responses@.last()));
        }
        Ok(())
    }

    /// Ends a transaction all of whose requests succeeded: the set holds one
    /// response for each request of the plan.
    pub fn finish(self, plan: &StyleResourcePlan) -> (set: StyleFetchSet)
        requires
            self.responses@.len() == plan.requests@.len(),
        ensures
            set.document_version == plan.document_version,
            set.navigation_commit == plan.navigation_commit,
            set.responses == self.responses,
            set.responses@.len() == plan.requests@.len(),
            answered(self.responses@, *plan) ==> answered(set.responses@, *plan),
            set.diagnostics == self.diagnostics,
            set.accounting == self.accounting,
    {
        StyleFetchSet {
            document_version: plan.document_version,
            navigation_commit: plan.navigation_commit.clone(),
            responses: self.responses,
            diagnostics: self.diagnostics,
            accounting: self.accounting,
        }
    }

    /// Ends a transaction that failed: nothing but observations is left of it.
    pub fn fail(self, error: StyleFetchError) -> (failure: StyleFetchFailure)
        ensures
            failure.error == error,
            failure.diagnostics@ == match error.owner {
                None => self.diagnostics@,
                Some(owner) => with_authoritative(
                    self.diagnostics@,
                    StyleFetchDiagnostic {
                        document_version: error.document_version,
                        owner,
                        request_index: error.request_index,
                        redirect_index: error.redirect_index,
                        kind: StyleFetchDiagnosticKind::Rejected(error.rejection),
                    },
                    self.limits@.diagnostics,
                ),
            },
    {
        let mut diagnostics = self.diagnostics;
        if let Some(owner) = error.owner {
            push_authoritative_diagnostic_lossy(
                &mut diagnostics,
                StyleFetchDiagnostic {
                    document_version: error.document_version,
                    owner,
                    request_index: error.request_index,
                    redirect_index: error.redirect_index,
                    kind: StyleFetchDiagnosticKind::Rejected(error.rejection),
                },
                self.limits.max_diagnostics(),
            );
        }
        StyleFetchFailure { error, diagnostics }
    }
}

} // verus!
