//! Vocabulary of the stylesheet transport: bounds, rejections and retained
//! response headers.

use vstd::prelude::*;

verus! {

/// Maximum final stylesheet responses retained by one fetch transaction.
pub const MAX_STYLE_FETCH_RESPONSES: usize = 64;

/// Maximum decoded bytes retained for one stylesheet response.
pub const MAX_STYLE_FETCH_RESPONSE_BODY_BYTES: usize = 2 * 1024 * 1024;

/// Maximum decoded stylesheet bytes retained by one fetch transaction.
pub const MAX_STYLE_FETCH_AGGREGATE_BODY_BYTES: usize = 16 * 1024 * 1024;

/// Maximum redirects followed for one admitted stylesheet identity.
pub const MAX_STYLE_FETCH_REDIRECTS: usize = 8;

/// Maximum HTTP exchanges, redirect responses among them, in one transaction.
pub const MAX_STYLE_FETCH_HTTP_EXCHANGES: usize = 256;

/// Maximum redacted diagnostics retained by one transaction or failure.
pub const MAX_STYLE_FETCH_DIAGNOSTICS: usize = 1024;

/// Maximum bytes retained from one comma-merged `Content-Type` value.
pub const MAX_STYLE_FETCH_CONTENT_TYPE_BYTES: usize = 4 * 1024;

/// Maximum retained `Content-Type` bytes across one transaction.
pub const MAX_STYLE_FETCH_AGGREGATE_HEADER_BYTES: usize = 256 * 1024;

/// Maximum horizon of one transaction, in nanoseconds.
pub const MAX_STYLE_FETCH_DURATION_NANOSECONDS: u128 = 30_000_000_000;

/// Maximum accepted HTTP chunk-size line, without its terminating CRLF.
pub const MAX_STYLE_FETCH_CHUNK_LINE_BYTES: usize = 8 * 1024;

/// Maximum header bytes that a response may bring.
pub const MAX_STYLE_FETCH_WIRE_HEADER_BYTES: usize = 64 * 1024;

/// Maximum header fields that a response may bring.
pub const MAX_STYLE_FETCH_WIRE_HEADER_FIELDS: usize = 256;

/// Maximum body bytes that a response may bring.
pub const MAX_STYLE_FETCH_WIRE_BODY_BYTES: usize = 8 * 1024 * 1024;

/// Maximum bytes of a request head.
pub const MAX_STYLE_FETCH_REQUEST_HEAD_BYTES: usize = 64 * 1024;

/// Maximum caller-supplied request header fields.
pub const MAX_STYLE_FETCH_REQUEST_HEADER_FIELDS: usize = 0;

/// Maximum request body bytes.
pub const MAX_STYLE_FETCH_REQUEST_BODY_BYTES: usize = 0;

/// Maximum informational responses before a final one.
pub const MAX_STYLE_FETCH_INFORMATIONAL_RESPONSES: usize = 8;

/// Maximum DNS candidates of one exchange.
pub const MAX_STYLE_FETCH_DNS_CANDIDATES: usize = 32;

/// Maximum connection attempts of one exchange.
pub const MAX_STYLE_FETCH_CONNECTION_ATTEMPTS: usize = 16;

/// Maximum TLS handshake bytes of one exchange.
pub const MAX_STYLE_FETCH_TLS_HANDSHAKE_BYTES: usize = 1024 * 1024;

/// Connection timeout of one exchange, in seconds.
pub const STYLE_FETCH_CONNECT_TIMEOUT_SECONDS: u64 = 2;

/// Read timeout of one exchange, in seconds.
pub const STYLE_FETCH_READ_TIMEOUT_SECONDS: u64 = 5;

/// Write timeout of one exchange, in seconds.
pub const STYLE_FETCH_WRITE_TIMEOUT_SECONDS: u64 = 5;

/// DNS timeout of one exchange, in seconds.
pub const STYLE_FETCH_DNS_TIMEOUT_SECONDS: u64 = 5;

/// TLS handshake timeout of one exchange, in seconds.
pub const STYLE_FETCH_TLS_HANDSHAKE_TIMEOUT_SECONDS: u64 = 10;

/// Bytes of a response body that are read at once.
pub const BODY_READ_CHUNK_BYTES: usize = 16 * 1024;

/// Bounded owner or transport resource.
#[derive(Clone, Copy, Debug, PartialEq, Eq, Structural)]
pub enum StyleFetchLimit {
    /// Final retained responses.
    Responses,
    /// Decoded bytes in one response body.
    ResponseBodyBytes,
    /// Aggregate decoded body bytes.
    AggregateBodyBytes,
    /// Redirects followed for one request.
    Redirects,
    /// Aggregate HTTP exchanges.
    HttpExchanges,
    /// Retained redacted diagnostics.
    Diagnostics,
    /// Bytes retained from one `Content-Type` field.
    ContentTypeBytes,
    /// Aggregate retained response-header bytes.
    AggregateHeaderBytes,
    /// Transport response-header bytes.
    WireHeaderBytes,
    /// Transport response-header fields.
    WireHeaderFields,
    /// Transport body-parser bytes.
    WireBodyBytes,
    /// Transport chunk-size line bytes.
    WireChunkLineBytes,
    /// DNS candidates.
    DnsCandidates,
    /// Connection attempts.
    ConnectionAttempts,
    /// TLS handshake bytes.
    TlsHandshakeBytes,
}

/// Failure to construct the bounded network owner.
#[derive(Clone, Copy, Debug, PartialEq, Eq, Structural)]
pub enum StyleFetchOwnerError {
    /// A configurable value attempted to enlarge a hard bound.
    LimitWouldEnlarge(StyleFetchLimit),
    /// The fixed transport profile violated its network bounds.
    TransportPolicyInvalid,
    /// No exact committed-document response authority could be delegated.
    AuthorityUnavailable,
    /// The exact live document already issued its sole stylesheet authority.
    AuthorityAlreadyIssued,
    /// Product authority requires an exact worker-bound navigation identity.
    ProductNavigationRequired,
    /// Non-product authority cannot be issued for a worker-bound document.
    NonProductDocumentRequired,
}

/// Sealed HTTP transport policy. The chunk-line bound is the only field that a
/// caller can narrow.
#[derive(Clone, Copy, Debug, PartialEq, Eq, Structural)]
pub struct StyleFetchTransportPolicy {
    max_chunk_line_bytes: usize,
}

impl StyleFetchTransportPolicy {
    #[verifier::type_invariant]
    spec fn type_inv(self) -> bool {
        self.max_chunk_line_bytes <= MAX_STYLE_FETCH_CHUNK_LINE_BYTES
    }

    /// The chunk-line bound, in specifications.
    pub closed spec fn chunk_line_bound(self) -> usize {
        self.max_chunk_line_bytes
    }

    /// Creates a transport policy with a lower or equal chunk-line bound.
    pub fn new(max_chunk_line_bytes: usize) -> (result: Result<Self, StyleFetchOwnerError>)
        ensures
            max_chunk_line_bytes > MAX_STYLE_FETCH_CHUNK_LINE_BYTES ==> result == Err::<Self, _>(
                StyleFetchOwnerError::LimitWouldEnlarge(StyleFetchLimit::WireChunkLineBytes),
            ),
            max_chunk_line_bytes <= MAX_STYLE_FETCH_CHUNK_LINE_BYTES ==> (result matches Ok(policy)
                && policy.chunk_line_bound() == max_chunk_line_bytes),
    {
        if max_chunk_line_bytes > MAX_STYLE_FETCH_CHUNK_LINE_BYTES {
            return Err(
                StyleFetchOwnerError::LimitWouldEnlarge(StyleFetchLimit::WireChunkLineBytes),
            );
        }
        Ok(StyleFetchTransportPolicy { max_chunk_line_bytes })
    }

    /// Returns the maximum chunk-size line bytes, without CRLF.
    pub fn max_chunk_line_bytes(self) -> (bound: usize)
        ensures
            bound == self.chunk_line_bound(),
            bound <= MAX_STYLE_FETCH_CHUNK_LINE_BYTES,
    {
        proof {
            use_type_invariant(&self);
        }
        self.max_chunk_line_bytes
    }
}

impl Default for StyleFetchTransportPolicy {
    fn default() -> (policy: Self)
        ensures
            policy.chunk_line_bound() == MAX_STYLE_FETCH_CHUNK_LINE_BYTES,
    {
        StyleFetchTransportPolicy { max_chunk_line_bytes: MAX_STYLE_FETCH_CHUNK_LINE_BYTES }
    }
}

/// Every bound of the transport that fetches stylesheets; timeouts are in
/// seconds.
#[derive(Clone, Copy, Debug, PartialEq, Eq, Structural)]
pub struct SealedTransportConfig {
    /// Header bytes that a response may bring.
    pub max_header_bytes: usize,
    /// Header fields that a response may bring.
    pub max_header_count: usize,
    /// Body bytes that a response may bring.
    pub max_body_bytes: usize,
    /// Bytes of a request head.
    pub max_request_head_bytes: usize,
    /// Caller-supplied request header fields.
    pub max_request_header_count: usize,
    /// Request body bytes.
    pub max_request_body_bytes: usize,
    /// Bytes of a chunk-size line.
    pub max_chunk_line_bytes: usize,
    /// Informational responses before a final one.
    pub max_informational_responses: usize,
    /// Connection timeout.
    pub connect_timeout: u64,
    /// Read timeout.
    pub read_timeout: u64,
    /// Write timeout.
    pub write_timeout: u64,
    /// DNS timeout.
    pub dns_timeout: u64,
    /// TLS handshake timeout.
    pub tls_handshake_timeout: u64,
    /// DNS candidates.
    pub max_dns_candidates: usize,
    /// Connection attempts.
    pub max_connection_attempts: usize,
    /// TLS handshake bytes.
    pub max_tls_handshake_bytes: usize,
}

/// Every bound of the transport under a policy; only the chunk-line bound is the
/// policy's own.
pub fn sealed_transport_config(policy: StyleFetchTransportPolicy) -> (config: SealedTransportConfig)
    ensures
        config == (SealedTransportConfig {
            max_header_bytes: MAX_STYLE_FETCH_WIRE_HEADER_BYTES,
            max_header_count: MAX_STYLE_FETCH_WIRE_HEADER_FIELDS,
            max_body_bytes: MAX_STYLE_FETCH_WIRE_BODY_BYTES,
            max_request_head_bytes: MAX_STYLE_FETCH_REQUEST_HEAD_BYTES,
            max_request_header_count: MAX_STYLE_FETCH_REQUEST_HEADER_FIELDS,
            max_request_body_bytes: MAX_STYLE_FETCH_REQUEST_BODY_BYTES,
            max_chunk_line_bytes: policy.chunk_line_bound(),
            max_informational_responses: MAX_STYLE_FETCH_INFORMATIONAL_RESPONSES,
            connect_timeout: STYLE_FETCH_CONNECT_TIMEOUT_SECONDS,
            read_timeout: STYLE_FETCH_READ_TIMEOUT_SECONDS,
            write_timeout: STYLE_FETCH_WRITE_TIMEOUT_SECONDS,
            dns_timeout: STYLE_FETCH_DNS_TIMEOUT_SECONDS,
            tls_handshake_timeout: STYLE_FETCH_TLS_HANDSHAKE_TIMEOUT_SECONDS,
            max_dns_candidates: MAX_STYLE_FETCH_DNS_CANDIDATES,
            max_connection_attempts: MAX_STYLE_FETCH_CONNECTION_ATTEMPTS,
            max_tls_handshake_bytes: MAX_STYLE_FETCH_TLS_HANDSHAKE_BYTES,
        }),
        config.max_chunk_line_bytes <= MAX_STYLE_FETCH_CHUNK_LINE_BYTES,
{
    SealedTransportConfig {
        max_header_bytes: MAX_STYLE_FETCH_WIRE_HEADER_BYTES,
        max_header_count: MAX_STYLE_FETCH_WIRE_HEADER_FIELDS,
        max_body_bytes: MAX_STYLE_FETCH_WIRE_BODY_BYTES,
        max_request_head_bytes: MAX_STYLE_FETCH_REQUEST_HEAD_BYTES,
        max_request_header_count: MAX_STYLE_FETCH_REQUEST_HEADER_FIELDS,
        max_request_body_bytes: MAX_STYLE_FETCH_REQUEST_BODY_BYTES,
        max_chunk_line_bytes: policy.max_chunk_line_bytes(),
        max_informational_responses: MAX_STYLE_FETCH_INFORMATIONAL_RESPONSES,
        connect_timeout: STYLE_FETCH_CONNECT_TIMEOUT_SECONDS,
        read_timeout: STYLE_FETCH_READ_TIMEOUT_SECONDS,
        write_timeout: STYLE_FETCH_WRITE_TIMEOUT_SECONDS,
        dns_timeout: STYLE_FETCH_DNS_TIMEOUT_SECONDS,
        tls_handshake_timeout: STYLE_FETCH_TLS_HANDSHAKE_TIMEOUT_SECONDS,
        max_dns_candidates: MAX_STYLE_FETCH_DNS_CANDIDATES,
        max_connection_attempts: MAX_STYLE_FETCH_CONNECTION_ATTEMPTS,
        max_tls_handshake_bytes: MAX_STYLE_FETCH_TLS_HANDSHAKE_BYTES,
    }
}

/// Bounds of one fetch transaction, in specifications.
pub struct StyleFetchBounds {
    /// Retained final responses.
    pub responses: usize,
    /// Decoded bytes in one retained body.
    pub response_body_bytes: usize,
    /// Aggregate decoded retained body bytes.
    pub aggregate_body_bytes: usize,
    /// Redirects per request identity.
    pub redirects: usize,
    /// Aggregate HTTP exchanges.
    pub http_exchanges: usize,
    /// Retained diagnostics.
    pub diagnostics: usize,
}

impl StyleFetchBounds {
    /// The bound that would be enlarged, the first one where there are several.
    pub open spec fn enlarged(self) -> Option<StyleFetchLimit> {
        if self.responses > MAX_STYLE_FETCH_RESPONSES {
            Some(StyleFetchLimit::Responses)
        } else if self.response_body_bytes > MAX_STYLE_FETCH_RESPONSE_BODY_BYTES {
            Some(StyleFetchLimit::ResponseBodyBytes)
        } else if self.aggregate_body_bytes > MAX_STYLE_FETCH_AGGREGATE_BODY_BYTES {
            Some(StyleFetchLimit::AggregateBodyBytes)
        } else if self.redirects > MAX_STYLE_FETCH_REDIRECTS {
            Some(StyleFetchLimit::Redirects)
        } else if self.http_exchanges > MAX_STYLE_FETCH_HTTP_EXCHANGES {
            Some(StyleFetchLimit::HttpExchanges)
        } else if self.diagnostics > MAX_STYLE_FETCH_DIAGNOSTICS {
            Some(StyleFetchLimit::Diagnostics)
        } else {
            None
        }
    }
}

/// Bounds of one fetch transaction, which may only narrow the hard bounds.
#[derive(Clone, Copy, Debug, PartialEq, Eq, Structural)]
pub struct StyleFetchLimits {
    responses: usize,
    response_body_bytes: usize,
    aggregate_body_bytes: usize,
    redirects: usize,
    http_exchanges: usize,
    diagnostics: usize,
}

impl View for StyleFetchLimits {
    type V = StyleFetchBounds;

    closed spec fn view(&self) -> StyleFetchBounds {
        StyleFetchBounds {
            responses: self.responses,
            response_body_bytes: self.response_body_bytes,
            aggregate_body_bytes: self.aggregate_body_bytes,
            redirects: self.redirects,
            http_exchanges: self.http_exchanges,
            diagnostics: self.diagnostics,
        }
    }
}

impl StyleFetchLimits {
    #[verifier::type_invariant]
    spec fn type_inv(self) -> bool {
        self@.enlarged() is None
    }

    /// Creates a lower or equal bounded policy.
    pub fn new(
        max_responses: usize,
        max_response_body_bytes: usize,
        max_aggregate_body_bytes: usize,
        max_redirects: usize,
        max_http_exchanges: usize,
        max_diagnostics: usize,
    ) -> (result: Result<Self, StyleFetchOwnerError>)
        ensures
            ({
                let bounds = StyleFetchBounds {
                    responses: max_responses,
                    response_body_bytes: max_response_body_bytes,
                    aggregate_body_bytes: max_aggregate_body_bytes,
                    redirects: max_redirects,
                    http_exchanges: max_http_exchanges,
                    diagnostics: max_diagnostics,
                };
                match bounds.enlarged() {
                    Some(limit) => result == Err::<Self, _>(
                        StyleFetchOwnerError::LimitWouldEnlarge(limit),
                    ),
                    None => result matches Ok(limits) && limits@ == bounds,
                }
            }),
    {
        if max_responses > MAX_STYLE_FETCH_RESPONSES {
            return Err(StyleFetchOwnerError::LimitWouldEnlarge(StyleFetchLimit::Responses));
        }
        if max_response_body_bytes > MAX_STYLE_FETCH_RESPONSE_BODY_BYTES {
            return Err(StyleFetchOwnerError::LimitWouldEnlarge(StyleFetchLimit::ResponseBodyBytes));
        }
        if max_aggregate_body_bytes > MAX_STYLE_FETCH_AGGREGATE_BODY_BYTES {
            return Err(
                StyleFetchOwnerError::LimitWouldEnlarge(StyleFetchLimit::AggregateBodyBytes),
            );
        }
        if max_redirects > MAX_STYLE_FETCH_REDIRECTS {
            return Err(StyleFetchOwnerError::LimitWouldEnlarge(StyleFetchLimit::Redirects));
        }
        if max_http_exchanges > MAX_STYLE_FETCH_HTTP_EXCHANGES {
            return Err(StyleFetchOwnerError::LimitWouldEnlarge(StyleFetchLimit::HttpExchanges));
        }
        if max_diagnostics > MAX_STYLE_FETCH_DIAGNOSTICS {
            return Err(StyleFetchOwnerError::LimitWouldEnlarge(StyleFetchLimit::Diagnostics));
        }
        Ok(
            StyleFetchLimits {
                responses: max_responses,
                response_body_bytes: max_response_body_bytes,
                aggregate_body_bytes: max_aggregate_body_bytes,
                redirects: max_redirects,
                http_exchanges: max_http_exchanges,
                diagnostics: max_diagnostics,
            },
        )
    }

    /// Maximum retained final responses.
    pub fn max_responses(self) -> (bound: usize)
        ensures
            bound == self@.responses,
            bound <= MAX_STYLE_FETCH_RESPONSES,
    {
        proof {
            use_type_invariant(&self);
        }
        self.responses
    }

    /// Maximum decoded bytes in one retained body.
    pub fn max_response_body_bytes(self) -> (bound: usize)
        ensures
            bound == self@.response_body_bytes,
            bound <= MAX_STYLE_FETCH_RESPONSE_BODY_BYTES,
    {
        proof {
            use_type_invariant(&self);
        }
        self.response_body_bytes
    }

    /// Maximum aggregate decoded retained body bytes.
    pub fn max_aggregate_body_bytes(self) -> (bound: usize)
        ensures
            bound == self@.aggregate_body_bytes,
            bound <= MAX_STYLE_FETCH_AGGREGATE_BODY_BYTES,
    {
        proof {
            use_type_invariant(&self);
        }
        self.aggregate_body_bytes
    }

    /// Maximum redirects per request identity.
    pub fn max_redirects(self) -> (bound: usize)
        ensures
            bound == self@.redirects,
            bound <= MAX_STYLE_FETCH_REDIRECTS,
    {
        proof {
            use_type_invariant(&self);
        }
        self.redirects
    }

    /// Maximum aggregate HTTP exchanges.
    pub fn max_http_exchanges(self) -> (bound: usize)
        ensures
            bound == self@.http_exchanges,
            bound <= MAX_STYLE_FETCH_HTTP_EXCHANGES,
    {
        proof {
            use_type_invariant(&self);
        }
        self.http_exchanges
    }

    /// Maximum retained diagnostics.
    pub fn max_diagnostics(self) -> (bound: usize)
        ensures
            bound == self@.diagnostics,
            bound <= MAX_STYLE_FETCH_DIAGNOSTICS,
    {
        proof {
            use_type_invariant(&self);
        }
        self.diagnostics
    }
}

impl Default for StyleFetchLimits {
    fn default() -> (limits: Self)
        ensures
            limits@ == (StyleFetchBounds {
                responses: MAX_STYLE_FETCH_RESPONSES,
                response_body_bytes: MAX_STYLE_FETCH_RESPONSE_BODY_BYTES,
                aggregate_body_bytes: MAX_STYLE_FETCH_AGGREGATE_BODY_BYTES,
                redirects: MAX_STYLE_FETCH_REDIRECTS,
                http_exchanges: MAX_STYLE_FETCH_HTTP_EXCHANGES,
                diagnostics: MAX_STYLE_FETCH_DIAGNOSTICS,
            }),
    {
        StyleFetchLimits {
            responses: MAX_STYLE_FETCH_RESPONSES,
            response_body_bytes: MAX_STYLE_FETCH_RESPONSE_BODY_BYTES,
            aggregate_body_bytes: MAX_STYLE_FETCH_AGGREGATE_BODY_BYTES,
            redirects: MAX_STYLE_FETCH_REDIRECTS,
            http_exchanges: MAX_STYLE_FETCH_HTTP_EXCHANGES,
            diagnostics: MAX_STYLE_FETCH_DIAGNOSTICS,
        }
    }
}

/// Privacy-safe transport failure family.
#[derive(Clone, Copy, Debug, PartialEq, Eq, Structural)]
pub enum StyleFetchNetworkFailure {
    /// The exact target used a restricted port.
    RestrictedPort,
    /// The exact committed-document address-space evidence was invalid.
    InitiatorEvidence,
    /// Local network access policy denied a more private candidate.
    LocalNetworkAccess,
    /// DNS failed.
    Dns,
    /// Connection establishment or socket I/O failed.
    Connection,
    /// TLS setup, authentication, or protocol processing failed.
    Tls,
    /// The HTTP parser or framing layer rejected the response.
    HttpProtocol,
    /// A transport-owned resource limit was reached.
    ResourceLimit,
    /// Another fail-closed transport error occurred.
    Other,
}

/// Stable redacted rejection reason.
#[derive(Clone, Copy, Debug, PartialEq, Eq, Structural)]
pub enum StyleFetchRejection {
    /// The plan's document and request topology was contradictory.
    PlanOwnership,
    /// The owning response document is no longer the exact current document.
    DocumentNotCurrent,
    /// The document's sole stylesheet transaction was already consumed.
    TransactionConsumed,
    /// The document's sole stylesheet transaction is already active.
    TransactionInProgress,
    /// Cancellation was observed at a safe checkpoint.
    Cancelled,
    /// The absolute operation deadline elapsed.
    DeadlineExceeded,
    /// The caller requested a deadline beyond the hard operation horizon.
    DeadlineTooFar,
    /// The transport failed without exposing peer-controlled detail.
    Network(StyleFetchNetworkFailure),
    /// Response connection evidence contradicted the requested scheme.
    TransportSecurityMismatch,
    /// A redirect omitted `Location`.
    RedirectLocationMissing,
    /// Repeated `Location` fields differed after HTTP whitespace trimming.
    RedirectLocationConflict,
    /// A redirect location was not UTF-8.
    RedirectLocationNonUtf8,
    /// A redirect location could not form an HTTP(S) target.
    RedirectLocationInvalid,
    /// A redirect selected a non-HTTP(S) scheme.
    RedirectScheme,
    /// A redirect target contained credentials.
    RedirectCredentials,
    /// A redirect target exceeded the URL bound.
    RedirectUrlBytes,
    /// A redirect target repeated an already visited transport identity.
    RedirectLoop,
    /// A redirect target was mixed content for the owning HTTPS document.
    MixedContent,
    /// The immutable plan cannot prove policy continuity across origins.
    CrossOriginPolicyUnproven,
    /// A 3xx response was not a Fetch redirect status.
    UnsupportedRedirectStatus,
    /// A final response was not successful.
    HttpStatus,
    /// Explicit response MIME metadata was not CSS.
    MimeNotCss,
    /// `nosniff` rejected missing or invalid CSS MIME metadata.
    NoSniff,
    /// A fixed count or byte limit was exceeded.
    Limit(StyleFetchLimit),
    /// Checked accounting overflowed.
    CounterOverflow,
    /// A retained allocation could not be reserved.
    AllocationFailed,
}

/// Retained response MIME classification.
#[derive(Clone, Copy, Debug, PartialEq, Eq, Structural)]
pub enum StyleFetchMime {
    /// A syntactically valid `text/css` essence, without regard to ASCII case.
    Css,
    /// Missing, empty, or syntactically invalid MIME metadata, admitted only
    /// when `nosniff` was absent.
    Unknown,
}

/// CSSOM visibility of one admitted stylesheet response.
#[derive(Clone, Copy, Debug, PartialEq, Eq, Structural)]
pub enum StyleFetchOriginCleanliness {
    /// The document origin subsumes the final response and every redirect hop
    /// preserved the previous origin.
    Clean,
    /// CSSOM rules must treat the sheet as cross-origin.
    Tainted,
}

impl StyleFetchOriginCleanliness {
    /// Whether CSSOM may expose rules from this response.
    pub fn is_clean(self) -> (clean: bool)
        ensures
            clean == (self is Clean),
    {
        matches!(self, StyleFetchOriginCleanliness::Clean)
    }
}

} // verus!
