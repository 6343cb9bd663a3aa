//! Bounded navigation requests and the final identity a navigation commits.

use std::sync::Arc;
use vstd::prelude::*;

use crate::describe::{
    optional_navigation_text, optional_value_text, optional_version_text, quoted_text,
};
use crate::identity::{DocumentVersion, NavigationId};
use crate::limits::MAX_NAVIGATION_URL_BYTES;
use crate::style_document::{
    StyleDocumentAccessError, StyleDocumentAuthorityClass, StyleDocumentFetchCapability,
    StyleDocumentLifecycle, StyleDocumentTransaction,
};
use crate::text::{byte_len, decimal_text};
use crate::web::{
    AlpnOutcome, ConnectionSecurity, IpAddressSpace, ParsedNavigation, TlsVersion, WebScheme,
};

verus! {

/// Redirects that one top-level navigation may follow.
pub const MAX_TOP_LEVEL_REDIRECTS: u8 = 10;

/// Network authority explicitly attached to one navigation request.
#[derive(Clone, Copy, Debug, PartialEq, Eq, Structural)]
pub enum NavigationNetworkCapability {
    /// Cleartext HTTP to a numeric loopback address only.
    NumericLoopback,
    /// Validated HTTP or authenticated HTTPS through the general-web client.
    GeneralWeb,
}

/// Validation failure while constructing a bounded navigation request.
#[derive(Clone, Copy, Debug, PartialEq, Eq, Structural)]
pub enum NavigationRequestError {
    /// The URL is empty.
    EmptyUrl,
    /// The URL exceeds the hard byte bound.
    UrlTooLong {
        /// Supplied byte length.
        actual: usize,
        /// Accepted byte length.
        maximum: usize,
    },
}

/// Why a URL text is refused.
pub open spec fn url_error(url: Seq<char>) -> Option<NavigationRequestError> {
    if url.len() == 0 {
        Some(NavigationRequestError::EmptyUrl)
    } else if crate::text::utf8_len(url) > MAX_NAVIGATION_URL_BYTES {
        Some(
            NavigationRequestError::UrlTooLong {
                actual: crate::text::utf8_len(url) as usize,
                maximum: MAX_NAVIGATION_URL_BYTES,
            },
        )
    } else {
        None
    }
}

/// Accepts a nonempty URL text within the byte bound.
fn check_url(url: &str) -> (result: Result<(), NavigationRequestError>)
    ensures
        result == match url_error(url@) {
            Some(error) => Err(error),
            None => Ok(()),
        },
{
    if url.is_empty() {
        return Err(NavigationRequestError::EmptyUrl);
    }
    let actual: usize = byte_len(url);
    if actual > MAX_NAVIGATION_URL_BYTES {
        return Err(
            NavigationRequestError::UrlTooLong { actual, maximum: MAX_NAVIGATION_URL_BYTES },
        );
    }
    Ok(())
}

/// A bounded, owned navigation request.
#[derive(Debug, PartialEq, Eq)]
pub struct NavigationRequest {
    url: String,
    network_capability: NavigationNetworkCapability,
}

impl Clone for NavigationRequest {
    fn clone(&self) -> (copy: Self)
        ensures
            copy == *self,
    {
        proof {
            use_type_invariant(self);
        }
        NavigationRequest {
            url: self.url.clone(),
            network_capability: self.network_capability,
        }
    }
}

impl NavigationRequest {
    /// Requested URL, in specifications.
    pub closed spec fn url_of(self) -> Seq<char> {
        self.url@
    }

    /// Requested network authority, in specifications.
    pub closed spec fn capability_of(self) -> NavigationNetworkCapability {
        self.network_capability
    }

    #[verifier::type_invariant]
    spec fn type_inv(self) -> bool {
        url_error(self.url@) is None
    }

    /// Copies a nonempty numeric-loopback URL within the byte bound.
    pub fn new(url: &str) -> (result: Result<Self, NavigationRequestError>)
        ensures
            match url_error(url@) {
                Some(error) => result == Err::<Self, _>(error),
                None => {
                    &&& result matches Ok(request)
                    &&& request.url_of() == url@
                    &&& request.capability_of() is NumericLoopback
                },
            },
    {
        Self::with_network_capability(url, NavigationNetworkCapability::NumericLoopback)
    }

    /// Copies a nonempty general-web URL within the byte bound.
    pub fn general_web(url: &str) -> (result: Result<Self, NavigationRequestError>)
        ensures
            match url_error(url@) {
                Some(error) => result == Err::<Self, _>(error),
                None => {
                    &&& result matches Ok(request)
                    &&& request.url_of() == url@
                    &&& request.capability_of() is GeneralWeb
                },
            },
    {
        Self::with_network_capability(url, NavigationNetworkCapability::GeneralWeb)
    }

    fn with_network_capability(url: &str, network_capability: NavigationNetworkCapability) -> (result:
        Result<Self, NavigationRequestError>)
        ensures
            match url_error(url@) {
                Some(error) => result == Err::<Self, _>(error),
                None => {
                    &&& result matches Ok(request)
                    &&& request.url_of() == url@
                    &&& request.capability_of() == network_capability
                },
            },
    {
        match check_url(url) {
            Ok(()) => Ok(NavigationRequest { url: url.to_owned(), network_capability }),
            Err(error) => Err(error),
        }
    }

    /// Returns the requested URL without transferring ownership.
    pub fn url(&self) -> (url: &str)
        ensures
            url@ == self.url_of(),
            url_error(url@) is None,
    {
        proof {
            use_type_invariant(self);
        }
        self.url.as_str()
    }

    /// Returns the exact network authority selected by the caller.
    pub fn network_capability(&self) -> (capability: NavigationNetworkCapability)
        ensures
            capability == self.capability_of(),
    {
        self.network_capability
    }
}

/// TLS version authenticated for the response which committed a navigation.
#[derive(Clone, Copy, Debug, PartialEq, Eq, Structural)]
pub enum NavigationTlsVersion {
    /// TLS 1.2.
    Tls12,
    /// TLS 1.3.
    Tls13,
}

/// HTTP/1.1 ALPN result authenticated for a committed TLS connection.
#[derive(Clone, Copy, Debug, PartialEq, Eq, Structural)]
pub enum NavigationAlpn {
    /// The peer explicitly selected HTTP/1.1.
    Http11,
    /// The peer selected no ALPN protocol and HTTP/1.1 was used.
    NotNegotiated,
}

/// Connection evidence for the exact response which committed a navigation.
#[derive(Clone, Copy, Debug, PartialEq, Eq, Structural)]
pub enum NavigationConnectionSecurity {
    /// No authenticated transport evidence was supplied.
    Unverified,
    /// The final response arrived over explicit cleartext HTTP.
    Cleartext,
    /// The final response arrived over authenticated TLS.
    AuthenticatedTls {
        /// Negotiated TLS version.
        version: NavigationTlsVersion,
        /// HTTP/1.1 ALPN result.
        alpn: NavigationAlpn,
    },
}

/// Failed product validation of a general-web navigation commitment.
#[derive(Clone, Copy, Debug, PartialEq, Eq, Structural)]
pub enum NavigationCommitValidationError {
    /// The final identity was not a credential-free HTTP(S) browser URL.
    InvalidFinalUrl,
    /// The final identity was not the exact canonical WHATWG serialization.
    NonCanonicalFinalUrl,
    /// The claimed redirect count exceeded the engine's exported policy.
    TooManyRedirects,
    /// A product general-web commit supplied no authenticated/cleartext evidence.
    UnverifiedSecurity,
    /// The final scheme contradicted the claimed connection evidence.
    SchemeSecurityMismatch,
    /// No opaque transport-authenticated final-response authority was retained.
    UnverifiedAddressSpace,
    /// The supplied URL/security did not belong to the exact final response.
    ResponseAuthorityMismatch,
    /// The final response was not yet bound to one parsed document revision.
    UnboundDocument,
    /// A response authority was paired with a different document revision.
    DocumentIdentityMismatch,
    /// A committed document was paired with a different navigation identity.
    NavigationIdentityMismatch,
}

/// Evidence of the same kind, in the transport's terms; no evidence reads as
/// cleartext.
pub open spec fn transport_security(security: NavigationConnectionSecurity) -> ConnectionSecurity {
    match security {
        NavigationConnectionSecurity::Unverified | NavigationConnectionSecurity::Cleartext =>
            ConnectionSecurity::Cleartext,
        NavigationConnectionSecurity::AuthenticatedTls { version, alpn } => ConnectionSecurity::Tls {
            version: match version {
                NavigationTlsVersion::Tls12 => TlsVersion::Tls12,
                NavigationTlsVersion::Tls13 => TlsVersion::Tls13,
            },
            alpn: match alpn {
                NavigationAlpn::Http11 => AlpnOutcome::Http11,
                NavigationAlpn::NotNegotiated => AlpnOutcome::NotNegotiated,
            },
        },
    }
}

/// Whether transport evidence is what a scheme calls for.
pub open spec fn scheme_agrees(scheme: WebScheme, security: ConnectionSecurity) -> bool {
    scheme is Http <==> security is Cleartext
}

/// Evidence of a response as committed, refused where scheme and transport
/// contradict each other.
pub fn project_response_security(scheme: WebScheme, security: ConnectionSecurity) -> (result: Result<
    NavigationConnectionSecurity,
    NavigationCommitValidationError,
>)
    ensures
        if scheme_agrees(scheme, security) {
            &&& result matches Ok(projected)
            &&& transport_security(projected) == security
            &&& !(projected is Unverified)
        } else {
            result == Err::<NavigationConnectionSecurity, _>(
                NavigationCommitValidationError::SchemeSecurityMismatch,
            )
        },
{
    match (scheme, security) {
        (WebScheme::Http, ConnectionSecurity::Cleartext) => {
            Ok(NavigationConnectionSecurity::Cleartext)
        },
        (WebScheme::Https, ConnectionSecurity::Tls { version, alpn }) => {
            let version = match version {
                TlsVersion::Tls12 => NavigationTlsVersion::Tls12,
                TlsVersion::Tls13 => NavigationTlsVersion::Tls13,
            };
            let alpn = match alpn {
                AlpnOutcome::Http11 => NavigationAlpn::Http11,
                AlpnOutcome::NotNegotiated => NavigationAlpn::NotNegotiated,
            };
            Ok(NavigationConnectionSecurity::AuthenticatedTls { version, alpn })
        },
        (WebScheme::Http, ConnectionSecurity::Tls { .. })
        | (WebScheme::Https, ConnectionSecurity::Cleartext) => {
            Err(NavigationCommitValidationError::SchemeSecurityMismatch)
        },
    }
}

/// Evidence of the same kind, in the transport's terms.
pub fn unproject_response_security(security: NavigationConnectionSecurity) -> (transport:
    ConnectionSecurity)
    ensures
        transport == transport_security(security),
{
    match security {
        NavigationConnectionSecurity::Unverified | NavigationConnectionSecurity::Cleartext => {
            ConnectionSecurity::Cleartext
        },
        NavigationConnectionSecurity::AuthenticatedTls { version, alpn } => {
            let version = match version {
                NavigationTlsVersion::Tls12 => TlsVersion::Tls12,
                NavigationTlsVersion::Tls13 => TlsVersion::Tls13,
            };
            let alpn = match alpn {
                NavigationAlpn::Http11 => AlpnOutcome::Http11,
                NavigationAlpn::NotNegotiated => AlpnOutcome::NotNegotiated,
            };
            ConnectionSecurity::Tls { version, alpn }
        },
    }
}

/// Authority of one exact final response, as issued by the transport.
#[derive(Clone, Copy, Debug, PartialEq, Eq, Structural)]
pub struct CommittedResponseAuthority {
    /// Transport key of the authority.
    pub key: u64,
    /// Transport evidence of the response.
    pub security: ConnectionSecurity,
    /// Address space of the connected peer.
    pub address_space: IpAddressSpace,
}

/// How far a commitment's authority reaches.
#[derive(Clone, Copy, Debug, PartialEq, Eq, Structural)]
pub enum NavigationResponseAuthority {
    /// Synthetic metadata without authority.
    Synthetic,
    /// Authority of a response whose document is not parsed yet.
    FinalResponse(CommittedResponseAuthority),
    /// Authority of a response bound to one document revision.
    CommittedDocument {
        /// Authority of the response.
        response: CommittedResponseAuthority,
        /// Document revision parsed from the response.
        document_version: DocumentVersion,
        /// Key of the document's ledger, shared by every copy.
        ledger: u64,
    },
}

/// Shares the allocation of a text, as `Arc::clone` does: the result points to
/// the same text.
#[verifier::external_body]
fn share_text(text: &Arc<String>) -> (shared: Arc<String>)
    ensures
        shared == *text,
{
    Arc::clone(text)
}

/// Bounded final identity committed together with one successful navigation.
pub struct NavigationCommitMetadata {
    final_url: Arc<String>,
    redirect_count: u8,
    security: NavigationConnectionSecurity,
    had_https_downgrade: bool,
    authority: NavigationResponseAuthority,
}

impl Clone for NavigationCommitMetadata {
    fn clone(&self) -> (copy: Self)
        ensures
            copy == *self,
    {
        proof {
            use_type_invariant(self);
        }
        NavigationCommitMetadata {
            final_url: share_text(&self.final_url),
            redirect_count: self.redirect_count,
            security: self.security,
            had_https_downgrade: self.had_https_downgrade,
            authority: self.authority,
        }
    }
}

/// What a commitment says.
pub struct CommitModel {
    /// Exact URL whose response body was committed.
    pub final_url: Seq<char>,
    /// Redirects followed before the final response.
    pub redirect_count: u8,
    /// Transport evidence of the final response.
    pub security: NavigationConnectionSecurity,
    /// Whether any hop changed from authenticated HTTPS to cleartext HTTP.
    pub had_https_downgrade: bool,
    /// How far the authority reaches.
    pub authority: NavigationResponseAuthority,
}

/// What a description of a commitment says, where `navigation` owns its
/// document.
pub open spec fn commit_text(commit: CommitModel, navigation: Option<NavigationId>) -> Seq<char> {
    "NavigationCommitMetadata { final_url: "@ + crate::describe::quoted(commit.final_url)
        + ", redirect_count: "@ + crate::text::decimal_chars(commit.redirect_count as nat)
        + ", security: "@ + commit.security.debug_of() + ", had_https_downgrade: "@ + (
    if commit.had_https_downgrade {
        "true"@
    } else {
        "false"@
    }) + ", address_space: "@ + crate::describe::optional_debug(
        match commit.response() {
            Some(response) => Some(response.address_space.debug_of()),
            None => None,
        },
    ) + ", document_version: "@ + crate::describe::optional_version(commit.document())
        + ", navigation: "@ + crate::describe::optional_navigation(navigation) + ", .. }"@
}

impl CommitModel {
    /// Authority of the final response, if any.
    pub open spec fn response(self) -> Option<CommittedResponseAuthority> {
        match self.authority {
            NavigationResponseAuthority::Synthetic => None,
            NavigationResponseAuthority::FinalResponse(response) => Some(response),
            NavigationResponseAuthority::CommittedDocument { response, .. } => Some(response),
        }
    }

    /// Document revision that the commitment is bound to, if any.
    pub open spec fn document(self) -> Option<DocumentVersion> {
        match self.authority {
            NavigationResponseAuthority::CommittedDocument { document_version, .. } => Some(
                document_version,
            ),
            _ => None,
        }
    }

    /// Key of the document's ledger, if the commitment is bound.
    pub open spec fn ledger_key(self) -> Option<u64> {
        match self.authority {
            NavigationResponseAuthority::CommittedDocument { ledger, .. } => Some(ledger),
            _ => None,
        }
    }

    /// Whether two commitments say the same with the same authority; bound
    /// commitments agree only as copies of one binding.
    pub open spec fn agrees(self, other: Self) -> bool {
        &&& self.final_url == other.final_url
        &&& self.redirect_count == other.redirect_count
        &&& self.security == other.security
        &&& self.had_https_downgrade == other.had_https_downgrade
        &&& match (self.authority, other.authority) {
            (
                NavigationResponseAuthority::CommittedDocument { ledger: left, .. },
                NavigationResponseAuthority::CommittedDocument { ledger: right, .. },
            ) => left == right,
            (left, right) => left == right,
        }
    }

    /// Why the commitment is not a coherent general-web one, given what the
    /// URL parser made of its final URL.
    pub open spec fn general_web_error(self, parsed: Option<ParsedNavigation>) -> Option<
        NavigationCommitValidationError,
    > {
        if self.redirect_count > MAX_TOP_LEVEL_REDIRECTS {
            Some(NavigationCommitValidationError::TooManyRedirects)
        } else if parsed is None {
            Some(NavigationCommitValidationError::InvalidFinalUrl)
        } else if parsed->0.identity@ != self.final_url {
            Some(NavigationCommitValidationError::NonCanonicalFinalUrl)
        } else if self.security is Unverified {
            Some(NavigationCommitValidationError::UnverifiedSecurity)
        } else if !scheme_agrees(
            parsed->0.target.origin.scheme,
            transport_security(self.security),
        ) {
            Some(NavigationCommitValidationError::SchemeSecurityMismatch)
        } else {
            None
        }
    }

    /// Why the commitment cannot authorize subresources of `document_version`;
    /// `authority_matches` is the transport's answer to whether the response
    /// authority belongs to the parsed target.
    pub open spec fn subresource_error(
        self,
        document_version: DocumentVersion,
        parsed: Option<ParsedNavigation>,
        authority_matches: bool,
    ) -> Option<NavigationCommitValidationError> {
        match self.general_web_error(parsed) {
            Some(error) => Some(error),
            None => match self.response() {
                None => Some(NavigationCommitValidationError::UnverifiedAddressSpace),
                Some(response) => if !authority_matches || response.security != transport_security(
                    self.security,
                ) {
                    Some(NavigationCommitValidationError::ResponseAuthorityMismatch)
                } else if self.document() is None {
                    Some(NavigationCommitValidationError::UnboundDocument)
                } else if self.document() != Some(document_version) {
                    Some(NavigationCommitValidationError::DocumentIdentityMismatch)
                } else {
                    None
                },
            },
        }
    }

    /// Why the commitment cannot authorize subresources of `document_version`
    /// on behalf of `navigation`; `bound` is the navigation that owns its ledger.
    pub open spec fn navigation_error(
        self,
        navigation: NavigationId,
        document_version: DocumentVersion,
        parsed: Option<ParsedNavigation>,
        authority_matches: bool,
        bound: Option<NavigationId>,
    ) -> Option<NavigationCommitValidationError> {
        match self.subresource_error(document_version, parsed, authority_matches) {
            Some(error) => Some(error),
            None => if bound != Some(navigation) {
                Some(NavigationCommitValidationError::NavigationIdentityMismatch)
            } else {
                None
            },
        }
    }
}

impl View for NavigationCommitMetadata {
    type V = CommitModel;

    closed spec fn view(&self) -> CommitModel {
        CommitModel {
            final_url: self.final_url@,
            redirect_count: self.redirect_count,
            security: self.security,
            had_https_downgrade: self.had_https_downgrade,
            authority: self.authority,
        }
    }
}

impl NavigationCommitMetadata {
    #[verifier::type_invariant]
    spec fn type_inv(self) -> bool {
        url_error(self.final_url@) is None
    }

    /// Creates bounded synthetic metadata without response authority; it never
    /// authorizes subresources.
    pub fn new(
        final_url: &str,
        redirect_count: u8,
        security: NavigationConnectionSecurity,
        had_https_downgrade: bool,
    ) -> (result: Result<Self, NavigationRequestError>)
        ensures
            match url_error(final_url@) {
                Some(error) => result == Err::<Self, _>(error),
                None => {
                    &&& result matches Ok(commitment)
                    &&& commitment@ == (CommitModel {
                        final_url: final_url@,
                        redirect_count,
                        security,
                        had_https_downgrade,
                        authority: NavigationResponseAuthority::Synthetic,
                    })
                },
            },
    {
        match check_url(final_url) {
            Ok(()) => Ok(
                NavigationCommitMetadata {
                    final_url: Arc::new(final_url.to_owned()),
                    redirect_count,
                    security,
                    had_https_downgrade,
                    authority: NavigationResponseAuthority::Synthetic,
                },
            ),
            Err(error) => Err(error),
        }
    }

    /// Commits the exact final response of a general-web load.
    ///
    /// `parsed` is what the URL parser made of `final_url`, and
    /// `authority_matches` the transport's answer to whether the response
    /// authority belongs to that target.
    pub fn from_general_web_response(
        final_url: &str,
        redirect_count: u8,
        had_https_downgrade: bool,
        parsed: Option<&ParsedNavigation>,
        authority_matches: bool,
        response: CommittedResponseAuthority,
    ) -> (result: Result<Self, NavigationCommitValidationError>)
        ensures
            if url_error(final_url@) is Some || parsed is None {
                result == Err::<Self, _>(NavigationCommitValidationError::InvalidFinalUrl)
            } else if parsed->0.identity@ != final_url@ {
                result == Err::<Self, _>(NavigationCommitValidationError::NonCanonicalFinalUrl)
            } else if !authority_matches {
                result == Err::<Self, _>(NavigationCommitValidationError::ResponseAuthorityMismatch)
            } else if !scheme_agrees(parsed->0.target.origin.scheme, response.security) {
                result == Err::<Self, _>(NavigationCommitValidationError::SchemeSecurityMismatch)
            } else if redirect_count > MAX_TOP_LEVEL_REDIRECTS {
                result == Err::<Self, _>(NavigationCommitValidationError::TooManyRedirects)
            } else {
                &&& result matches Ok(commitment)
                &&& commitment@.final_url == final_url@
                &&& commitment@.redirect_count == redirect_count
                &&& transport_security(commitment@.security) == response.security
                &&& !(commitment@.security is Unverified)
                &&& commitment@.had_https_downgrade == had_https_downgrade
                &&& commitment@.authority == NavigationResponseAuthority::FinalResponse(response)
                &&& commitment@.general_web_error(Some(*parsed->0)) is None
            },
    {
        if check_url(final_url).is_err() {
            return Err(NavigationCommitValidationError::InvalidFinalUrl);
        }
        let parsed = match parsed {
            Some(parsed) => parsed,
            None => return Err(NavigationCommitValidationError::InvalidFinalUrl),
        };
        let owned: String = final_url.to_owned();
        if parsed.identity != owned {
            return Err(NavigationCommitValidationError::NonCanonicalFinalUrl);
        }
        if !authority_matches {
            return Err(NavigationCommitValidationError::ResponseAuthorityMismatch);
        }
        let security = match project_response_security(
            parsed.target.origin.scheme,
            response.security,
        ) {
            Ok(security) => security,
            Err(error) => return Err(error),
        };
        let commitment = NavigationCommitMetadata {
            final_url: Arc::new(owned),
            redirect_count,
            security,
            had_https_downgrade,
            authority: NavigationResponseAuthority::FinalResponse(response),
        };
        match commitment.validate_general_web(Some(parsed)) {
            Ok(()) => Ok(commitment),
            Err(error) => Err(error),
        }
    }

    /// What a commitment without evidence says of `request`.
    pub open spec fn unverified_model(request: NavigationRequest) -> CommitModel {
        CommitModel {
            final_url: request.url_of(),
            redirect_count: 0,
            security: NavigationConnectionSecurity::Unverified,
            had_https_downgrade: false,
            authority: NavigationResponseAuthority::Synthetic,
        }
    }

    /// Commits the requested URL itself, without evidence or authority.
    pub fn unverified_requested(request: &NavigationRequest) -> (commitment: Self)
        ensures
            commitment@ == Self::unverified_model(*request),
    {
        let url = request.url();
        NavigationCommitMetadata {
            final_url: Arc::new(url.to_owned()),
            redirect_count: 0,
            security: NavigationConnectionSecurity::Unverified,
            had_https_downgrade: false,
            authority: NavigationResponseAuthority::Synthetic,
        }
    }

    /// Binds a response to the document revision parsed from it.
    ///
    /// An unparsed response gets the fresh ledger `fresh_ledger`; `current` is
    /// the ledger of a commitment that is already bound.
    pub fn bind_document(
        self,
        document_version: DocumentVersion,
        fresh_ledger: u64,
        current: Option<&StyleDocumentLifecycle>,
    ) -> (result: Result<(Self, Option<u64>), NavigationCommitValidationError>)
        requires
            self@.ledger_key() is Some ==> current is Some,
        ensures
            match self@.authority {
                NavigationResponseAuthority::Synthetic => {
                    &&& result matches Ok((bound, issued))
                    &&& bound@ == self@
                    &&& issued is None
                },
                NavigationResponseAuthority::FinalResponse(response) => {
                    &&& result matches Ok((bound, issued))
                    &&& bound@ == (CommitModel {
                        authority: NavigationResponseAuthority::CommittedDocument {
                            response,
                            document_version,
                            ledger: fresh_ledger,
                        },
                        ..self@
                    })
                    &&& issued == Some(fresh_ledger)
                },
                NavigationResponseAuthority::CommittedDocument { document_version: bound_version, .. } =>
                    if bound_version != document_version {
                        result == Err::<(Self, Option<u64>), _>(
                            NavigationCommitValidationError::DocumentIdentityMismatch,
                        )
                    } else if current->0.status is Retired {
                        result == Err::<(Self, Option<u64>), _>(
                            NavigationCommitValidationError::UnboundDocument,
                        )
                    } else {
                        &&& result matches Ok((bound, issued))
                        &&& bound@ == self@
                        &&& issued is None
                    },
            },
    {
        proof {
            use_type_invariant(&self);
        }
        match self.authority {
            NavigationResponseAuthority::Synthetic => Ok((self, None)),
            NavigationResponseAuthority::FinalResponse(response) => {
                let bound = NavigationCommitMetadata {
                    authority: NavigationResponseAuthority::CommittedDocument {
                        response,
                        document_version,
                        ledger: fresh_ledger,
                    },
                    ..self
                };
                Ok((bound, Some(fresh_ledger)))
            },
            NavigationResponseAuthority::CommittedDocument { document_version: bound_version, .. } => {
                if bound_version != document_version {
                    return Err(NavigationCommitValidationError::DocumentIdentityMismatch);
                }
                if let Some(ledger) = current {
                    if !ledger.is_current() {
                        return Err(NavigationCommitValidationError::UnboundDocument);
                    }
                }
                Ok((self, None))
            },
        }
    }

    /// Binds the committed document's ledger to one exact navigation; metadata
    /// without authority needs no binding.
    pub fn bind_navigation(
        &self,
        navigation: NavigationId,
        document_version: DocumentVersion,
        ledger: &mut StyleDocumentLifecycle,
    ) -> (result: Result<(), NavigationCommitValidationError>)
        ensures
            match self@.authority {
                NavigationResponseAuthority::Synthetic => result is Ok && *final(ledger) == *old(ledger),
                NavigationResponseAuthority::FinalResponse(_) => result == Err::<(), _>(
                    NavigationCommitValidationError::UnboundDocument,
                ) && *final(ledger) == *old(ledger),
                NavigationResponseAuthority::CommittedDocument { document_version: bound_version, .. } =>
                    if bound_version != document_version {
                        result == Err::<(), _>(
                            NavigationCommitValidationError::DocumentIdentityMismatch,
                        ) && *final(ledger) == *old(ledger)
                    } else if old(ledger).binding_error(navigation) is Some {
                        result == Err::<(), _>(
                            NavigationCommitValidationError::NavigationIdentityMismatch,
                        ) && *final(ledger) == *old(ledger)
                    } else {
                        result is Ok && *final(ledger) == (StyleDocumentLifecycle {
                            navigation: Some(navigation),
                            ..*old(ledger)
                        })
                    },
            },
    {
        match self.authority {
            NavigationResponseAuthority::Synthetic => Ok(()),
            NavigationResponseAuthority::FinalResponse(_) => {
                Err(NavigationCommitValidationError::UnboundDocument)
            },
            NavigationResponseAuthority::CommittedDocument { document_version: bound_version, .. } => {
                if bound_version != document_version {
                    return Err(NavigationCommitValidationError::DocumentIdentityMismatch);
                }
                match ledger.bind_navigation(navigation) {
                    Ok(()) => Ok(()),
                    Err(_) => Err(NavigationCommitValidationError::NavigationIdentityMismatch),
                }
            },
        }
    }

    /// Description that tells what the commitment observed and is bound to, and
    /// nothing of the authority that it carries. `ledger` is that of the bound
    /// document.
    pub fn description(&self, ledger: &StyleDocumentLifecycle) -> (description: String)
        ensures
            description@ == commit_text(
                self@,
                if self@.ledger_key() is Some {
                    ledger.navigation
                } else {
                    None
                },
            ),
    {
        let address_space: Option<String> = match self.address_space() {
            Some(space) => Some(space.debug_text()),
            None => None,
        };
        let mut description: String = "NavigationCommitMetadata { final_url: ".to_owned();
        description.append(quoted_text(self.final_url.as_str()).as_str());
        description.append(", redirect_count: ");
        description.append(decimal_text(self.redirect_count as u64).as_str());
        description.append(", security: ");
        description.append(self.security.debug_text().as_str());
        description.append(", had_https_downgrade: ");
        description.append(
            if self.had_https_downgrade {
                "true"
            } else {
                "false"
            },
        );
        description.append(", address_space: ");
        description.append(optional_value_text(address_space).as_str());
        description.append(", document_version: ");
        description.append(optional_version_text(self.document_version()).as_str());
        description.append(", navigation: ");
        description.append(optional_navigation_text(self.navigation(ledger)).as_str());
        description.append(", .. }");
        description
    }

    /// Exact normalized URL whose response body was committed.
    pub fn final_url(&self) -> (url: &str)
        ensures
            url@ == self@.final_url,
            url_error(url@) is None,
    {
        proof {
            use_type_invariant(self);
        }
        self.final_url.as_str()
    }

    /// The committed URL as the allocation that every copy shares.
    pub fn shared_final_url(&self) -> (url: &Arc<String>)
        ensures
            url@ == self@.final_url,
    {
        &self.final_url
    }

    /// Number of HTTP redirects followed before the final response.
    pub fn redirect_count(&self) -> (count: u8)
        ensures
            count == self@.redirect_count,
    {
        self.redirect_count
    }

    /// Transport evidence for the final response connection.
    pub fn security(&self) -> (security: NavigationConnectionSecurity)
        ensures
            security == self@.security,
    {
        self.security
    }

    /// Whether any hop changed from authenticated HTTPS to cleartext HTTP.
    pub fn had_https_downgrade(&self) -> (downgraded: bool)
        ensures
            downgraded == self@.had_https_downgrade,
    {
        self.had_https_downgrade
    }

    /// Authenticated final peer address space, as observation only.
    pub fn address_space(&self) -> (space: Option<IpAddressSpace>)
        ensures
            space == match self@.response() {
                Some(response) => Some(response.address_space),
                None => None,
            },
    {
        match self.response_authority() {
            Some(response) => Some(response.address_space),
            None => None,
        }
    }

    /// Exact parsed document revision bound to the final response, if any.
    pub fn document_version(&self) -> (version: Option<DocumentVersion>)
        ensures
            version == self@.document(),
    {
        match self.authority {
            NavigationResponseAuthority::CommittedDocument { document_version, .. } => Some(
                document_version,
            ),
            _ => None,
        }
    }

    /// Authority of the final response, whatever it is bound to.
    pub fn response_authority(&self) -> (authority: Option<CommittedResponseAuthority>)
        ensures
            authority == self@.response(),
    {
        match self.authority {
            NavigationResponseAuthority::Synthetic => None,
            NavigationResponseAuthority::FinalResponse(response) => Some(response),
            NavigationResponseAuthority::CommittedDocument { response, .. } => Some(response),
        }
    }

    /// Authority of the response that a document revision is bound to, once the
    /// commitment is valid for its subresources. `parsed` and
    /// `authority_matches` are what the URL parser and the transport say of the
    /// response.
    pub fn committed_response_authority(
        &self,
        document_version: DocumentVersion,
        parsed: Option<&ParsedNavigation>,
        authority_matches: bool,
    ) -> (result: Result<CommittedResponseAuthority, NavigationCommitValidationError>)
        ensures
            match self@.subresource_error(
                document_version,
                match parsed {
                    Some(parsed) => Some(*parsed),
                    None => None,
                },
                authority_matches,
            ) {
                Some(error) => result == Err::<CommittedResponseAuthority, _>(error),
                None => result matches Ok(authority) && self@.response() == Some(authority),
            },
    {
        match self.validate_general_web_for_subresources(
            document_version,
            parsed,
            authority_matches,
        ) {
            Ok(()) => {},
            Err(error) => return Err(error),
        }
        match self.authority {
            NavigationResponseAuthority::CommittedDocument { response, .. } => Ok(response),
            _ => Err(NavigationCommitValidationError::UnboundDocument),
        }
    }

    /// Key of the bound document's ledger, if any.
    pub fn ledger_key(&self) -> (key: Option<u64>)
        ensures
            key == self@.ledger_key(),
    {
        match self.authority {
            NavigationResponseAuthority::CommittedDocument { ledger, .. } => Some(ledger),
            _ => None,
        }
    }

    /// Navigation that owns the bound document's ledger, if any.
    pub fn navigation(&self, ledger: &StyleDocumentLifecycle) -> (navigation: Option<NavigationId>)
        ensures
            navigation == if self@.ledger_key() is Some {
                ledger.navigation
            } else {
                None
            },
    {
        match self.authority {
            NavigationResponseAuthority::CommittedDocument { .. } => ledger.navigation(),
            _ => None,
        }
    }

    /// Validates bounded general-web URL and security structure, given what the
    /// URL parser made of the final URL.
    pub fn validate_general_web(&self, parsed: Option<&ParsedNavigation>) -> (result: Result<
        (),
        NavigationCommitValidationError,
    >)
        ensures
            result == match self@.general_web_error(
                match parsed {
                    Some(parsed) => Some(*parsed),
                    None => None,
                },
            ) {
                Some(error) => Err(error),
                None => Ok(()),
            },
    {
        if self.redirect_count > MAX_TOP_LEVEL_REDIRECTS {
            return Err(NavigationCommitValidationError::TooManyRedirects);
        }
        let parsed = match parsed {
            Some(parsed) => parsed,
            None => return Err(NavigationCommitValidationError::InvalidFinalUrl),
        };
        if parsed.identity != *self.final_url {
            return Err(NavigationCommitValidationError::NonCanonicalFinalUrl);
        }
        match (parsed.target.origin.scheme, self.security) {
            (_, NavigationConnectionSecurity::Unverified) => {
                Err(NavigationCommitValidationError::UnverifiedSecurity)
            },
            (WebScheme::Http, NavigationConnectionSecurity::Cleartext)
            | (WebScheme::Https, NavigationConnectionSecurity::AuthenticatedTls { .. }) => Ok(()),
            (WebScheme::Http, NavigationConnectionSecurity::AuthenticatedTls { .. })
            | (WebScheme::Https, NavigationConnectionSecurity::Cleartext) => {
                Err(NavigationCommitValidationError::SchemeSecurityMismatch)
            },
        }
    }

    /// Validates a commitment before it can initiate product subresources of
    /// one exact document revision.
    pub fn validate_general_web_for_subresources(
        &self,
        document_version: DocumentVersion,
        parsed: Option<&ParsedNavigation>,
        authority_matches: bool,
    ) -> (result: Result<(), NavigationCommitValidationError>)
        ensures
            result == match self@.subresource_error(
                document_version,
                match parsed {
                    Some(parsed) => Some(*parsed),
                    None => None,
                },
                authority_matches,
            ) {
                Some(error) => Err(error),
                None => Ok(()),
            },
    {
        match self.validate_general_web(parsed) {
            Ok(()) => {},
            Err(error) => return Err(error),
        }
        let response = match self.authority {
            NavigationResponseAuthority::Synthetic => {
                return Err(NavigationCommitValidationError::UnverifiedAddressSpace);
            },
            NavigationResponseAuthority::FinalResponse(response) => response,
            NavigationResponseAuthority::CommittedDocument { response, .. } => response,
        };
        if !authority_matches || response.security != unproject_response_security(self.security) {
            return Err(NavigationCommitValidationError::ResponseAuthorityMismatch);
        }
        match self.authority {
            NavigationResponseAuthority::CommittedDocument { document_version: bound_version, .. } => {
                if bound_version != document_version {
                    return Err(NavigationCommitValidationError::DocumentIdentityMismatch);
                }
                Ok(())
            },
            _ => Err(NavigationCommitValidationError::UnboundDocument),
        }
    }

    /// Validates the exact response, document revision, and worker navigation.
    pub fn validate_general_web_for_navigation(
        &self,
        navigation: NavigationId,
        document_version: DocumentVersion,
        parsed: Option<&ParsedNavigation>,
        authority_matches: bool,
        ledger: &StyleDocumentLifecycle,
    ) -> (result: Result<(), NavigationCommitValidationError>)
        ensures
            result == match self@.navigation_error(
                navigation,
                document_version,
                match parsed {
                    Some(parsed) => Some(*parsed),
                    None => None,
                },
                authority_matches,
                ledger.navigation,
            ) {
                Some(error) => Err(error),
                None => Ok(()),
            },
    {
        match self.validate_general_web_for_subresources(
            document_version,
            parsed,
            authority_matches,
        ) {
            Ok(()) => {},
            Err(error) => return Err(error),
        }
        let bound = ledger.navigation();
        match bound {
            Some(bound) if bound == navigation => Ok(()),
            _ => Err(NavigationCommitValidationError::NavigationIdentityMismatch),
        }
    }

    /// Hands out the document's sole issuance to the worker, for the exact
    /// navigation that owns it.
    pub fn issue_product_style_fetch(
        &self,
        navigation: NavigationId,
        document_version: DocumentVersion,
        parsed: Option<&ParsedNavigation>,
        authority_matches: bool,
        ledger: &mut StyleDocumentLifecycle,
    ) -> (result: Result<StyleDocumentFetchCapability, StyleDocumentAccessError>)
        ensures
            if self@.navigation_error(
                navigation,
                document_version,
                match parsed {
                    Some(parsed) => Some(*parsed),
                    None => None,
                },
                authority_matches,
                old(ledger).navigation,
            ) is Some {
                result == Err::<StyleDocumentFetchCapability, _>(
                    StyleDocumentAccessError::ProductNavigationRequired,
                ) && *final(ledger) == *old(ledger)
            } else {
                match old(ledger).issuance_error(StyleDocumentAuthorityClass::Product) {
                    Some(error) => result == Err::<StyleDocumentFetchCapability, _>(error)
                        && *final(ledger) == *old(ledger),
                    None => result is Ok && result->Ok_0.class_of() is Product && *final(ledger)
                        == old(ledger).with_transaction(
                        StyleDocumentAuthorityClass::Product,
                        StyleDocumentTransaction::Ready,
                    ),
                }
            },
    {
        if self.validate_general_web_for_navigation(
            navigation,
            document_version,
            parsed,
            authority_matches,
            ledger,
        ).is_err() {
            return Err(StyleDocumentAccessError::ProductNavigationRequired);
        }
        ledger.issue(StyleDocumentAuthorityClass::Product)
    }

    /// Hands out the document's sole issuance to a direct caller, for a
    /// document that no navigation owns.
    pub fn issue_non_product_style_fetch(
        &self,
        document_version: DocumentVersion,
        parsed: Option<&ParsedNavigation>,
        authority_matches: bool,
        ledger: &mut StyleDocumentLifecycle,
    ) -> (result: Result<StyleDocumentFetchCapability, StyleDocumentAccessError>)
        ensures
            if self@.subresource_error(
                document_version,
                match parsed {
                    Some(parsed) => Some(*parsed),
                    None => None,
                },
                authority_matches,
            ) is Some {
                result == Err::<StyleDocumentFetchCapability, _>(StyleDocumentAccessError::Retired)
                    && *final(ledger) == *old(ledger)
            } else if old(ledger).navigation is Some {
                result == Err::<StyleDocumentFetchCapability, _>(
                    StyleDocumentAccessError::NonProductNavigationBound,
                ) && *final(ledger) == *old(ledger)
            } else {
                match old(ledger).issuance_error(StyleDocumentAuthorityClass::NonProduct) {
                    Some(error) => result == Err::<StyleDocumentFetchCapability, _>(error)
                        && *final(ledger) == *old(ledger),
                    None => result is Ok && result->Ok_0.class_of() is NonProduct && *final(ledger)
                        == old(ledger).with_transaction(
                        StyleDocumentAuthorityClass::NonProduct,
                        StyleDocumentTransaction::Ready,
                    ),
                }
            },
    {
        if self.validate_general_web_for_subresources(
            document_version,
            parsed,
            authority_matches,
        ).is_err() {
            return Err(StyleDocumentAccessError::Retired);
        }
        if ledger.navigation().is_some() {
            return Err(StyleDocumentAccessError::NonProductNavigationBound);
        }
        ledger.issue(StyleDocumentAuthorityClass::NonProduct)
    }

    /// Whether two commitments say the same with the same authority; bound
    /// commitments agree only as copies of one binding.
    pub fn same_commitment(&self, other: &Self) -> (same: bool)
        ensures
            same == self@.agrees(other@),
    {
        if !(*self.final_url == *other.final_url && self.redirect_count == other.redirect_count
            && self.security == other.security && self.had_https_downgrade
            == other.had_https_downgrade) {
            return false;
        }
        match (self.authority, other.authority) {
            (
                NavigationResponseAuthority::CommittedDocument { ledger: left, .. },
                NavigationResponseAuthority::CommittedDocument { ledger: right, .. },
            ) => left == right,
            (left, right) => left == right,
        }
    }

    /// Synthetic metadata never authorizes subresources, whatever the URL
    /// parser and the transport answer.
    pub proof fn synthetic_metadata_has_no_authority(
        commitment: CommitModel,
        document_version: DocumentVersion,
        parsed: Option<ParsedNavigation>,
        authority_matches: bool,
    )
        requires
            commitment.authority is Synthetic,
        ensures
            commitment.subresource_error(document_version, parsed, authority_matches) is Some,
    {
    }
}

} // verus!
