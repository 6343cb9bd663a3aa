//! Gates between a document and the targets and responses of its stylesheets.

use vstd::prelude::*;

use crate::bytes::{eq_ignore_ascii_case, DOT};
use crate::style_document::StyleDocumentAccessError;
use crate::style_fetch::{
    StyleFetchNetworkFailure, StyleFetchOwnerError, StyleFetchRejection,
    MAX_STYLE_FETCH_DURATION_NANOSECONDS,
};
use crate::web::{ConnectionSecurity, HostModel, IpAddress, WebHost, WebOrigin, WebScheme};

verus! {

/// Whether a host is a loopback host by its spelling alone.
pub open spec fn is_loopback(host: HostModel) -> bool {
    match host {
        HostModel::Domain(domain) => is_localhost(crate::bytes::text(domain)),
        HostModel::Ip(IpAddress::V4(first, _, _, _)) => first == 127,
        HostModel::Ip(IpAddress::V6(address)) => address == 1,
    }
}

/// Bytes without one full stop at the end.
pub open spec fn without_root_dot(domain: Seq<u8>) -> Seq<u8> {
    if domain.len() > 0 && domain.last() == DOT {
        domain.drop_last()
    } else {
        domain
    }
}

/// Whether bytes end with a word, without regard to ASCII case.
pub open spec fn ends_word(bytes: Seq<u8>, word: Seq<u8>) -> bool {
    word.len() <= bytes.len() && crate::bytes::same_word(
        bytes.subrange(bytes.len() - word.len(), bytes.len() as int),
        word,
    )
}

/// Whether a domain is `localhost` or a subdomain of it.
pub open spec fn is_localhost(domain: Seq<u8>) -> bool {
    let name = without_root_dot(domain);
    crate::bytes::same_word(name, crate::bytes::text("localhost"@)) || ends_word(
        name,
        crate::bytes::text(".localhost"@),
    )
}

/// Whether bytes end with a word, without regard to ASCII case.
pub fn ends_with_ignore_ascii_case(bytes: &[u8], word: &[u8]) -> (ends: bool)
    ensures
        ends == ends_word(bytes@, word@),
{
    if word.len() > bytes.len() {
        return false;
    }
    eq_ignore_ascii_case(&bytes[bytes.len() - word.len()..bytes.len()], word)
}

/// Whether a host is a loopback host by its spelling alone.
pub fn is_potentially_trustworthy_loopback_host(host: &WebHost) -> (loopback: bool)
    ensures
        loopback == is_loopback(host@),
{
    match host {
        WebHost::Domain(domain) => {
            let domain: &[u8] = domain.as_str().as_bytes();
            let mut end: usize = domain.len();
            if end > 0 && domain[end - 1] == DOT {
                end -= 1;
            }
            let name: &[u8] = &domain[0..end];
            assert(name@ =~= without_root_dot(domain@));
            eq_ignore_ascii_case(name, "localhost".as_bytes()) || ends_with_ignore_ascii_case(
                name,
                ".localhost".as_bytes(),
            )
        },
        WebHost::Ip(IpAddress::V4(first, _, _, _)) => *first == 127,
        WebHost::Ip(IpAddress::V6(address)) => *address == 1,
    }
}

/// Whether a target is mixed content for a document.
pub open spec fn is_mixed_content(
    document_scheme: WebScheme,
    target: crate::web::OriginModel,
) -> bool {
    document_scheme is Https && target.scheme is Http && !is_loopback(target.host)
}

/// Refuses mixed content.
pub fn validate_mixed_content(document_scheme: WebScheme, target: &WebOrigin) -> (result: Result<
    (),
    StyleFetchRejection,
>)
    ensures
        result == if is_mixed_content(document_scheme, target@) {
            Err(StyleFetchRejection::MixedContent)
        } else {
            Ok(())
        },
{
    match (document_scheme, target.scheme) {
        (WebScheme::Https, WebScheme::Http) => {
            if is_potentially_trustworthy_loopback_host(&target.host) {
                Ok(())
            } else {
                Err(StyleFetchRejection::MixedContent)
            }
        },
        _ => Ok(()),
    }
}

/// Refuses a response whose connection contradicts the requested scheme.
pub fn validate_connection_security(scheme: WebScheme, security: ConnectionSecurity) -> (result:
    Result<(), StyleFetchRejection>)
    ensures
        result == if crate::commit::scheme_agrees(scheme, security) {
            Ok(())
        } else {
            Err(StyleFetchRejection::TransportSecurityMismatch)
        },
{
    match (scheme, security) {
        (WebScheme::Http, ConnectionSecurity::Cleartext) => Ok(()),
        (WebScheme::Https, ConnectionSecurity::Tls { .. }) => Ok(()),
        (WebScheme::Http, ConnectionSecurity::Tls { .. })
        | (WebScheme::Https, ConnectionSecurity::Cleartext) => {
            Err(StyleFetchRejection::TransportSecurityMismatch)
        },
    }
}

/// What an operation observes at a safe point.
#[derive(Clone, Copy, Debug, PartialEq, Eq, Structural)]
pub struct Checkpoint {
    /// Whether cancellation was requested.
    pub cancelled: bool,
    /// Whether the deadline elapsed.
    pub expired: bool,
}

impl Checkpoint {
    /// Why an operation cannot go on.
    pub open spec fn rejection(self) -> Option<StyleFetchRejection> {
        if self.cancelled {
            Some(StyleFetchRejection::Cancelled)
        } else if self.expired {
            Some(StyleFetchRejection::DeadlineExceeded)
        } else {
            None
        }
    }

    /// Lets an operation go on, or not.
    pub fn check(self) -> (result: Result<(), StyleFetchRejection>)
        ensures
            result == match self.rejection() {
                Some(rejection) => Err(rejection),
                None => Ok(()),
            },
    {
        if self.cancelled {
            return Err(StyleFetchRejection::Cancelled);
        }
        if self.expired {
            return Err(StyleFetchRejection::DeadlineExceeded);
        }
        Ok(())
    }
}

/// Why an operation cannot start, with so many nanoseconds left, if any.
pub open spec fn start_rejection(cancelled: bool, remaining: Option<u128>) -> Option<
    StyleFetchRejection,
> {
    if cancelled {
        Some(StyleFetchRejection::Cancelled)
    } else {
        match remaining {
            None => Some(StyleFetchRejection::DeadlineExceeded),
            Some(remaining) => if remaining == 0 {
                Some(StyleFetchRejection::DeadlineExceeded)
            } else if remaining > MAX_STYLE_FETCH_DURATION_NANOSECONDS {
                Some(StyleFetchRejection::DeadlineTooFar)
            } else {
                None
            },
        }
    }
}

/// Lets an operation start, or not.
pub fn validate_operation_start(cancelled: bool, remaining: Option<u128>) -> (result: Result<
    (),
    StyleFetchRejection,
>)
    ensures
        result == match start_rejection(cancelled, remaining) {
            Some(rejection) => Err(rejection),
            None => Ok(()),
        },
{
    if cancelled {
        return Err(StyleFetchRejection::Cancelled);
    }
    match remaining {
        None => Err(StyleFetchRejection::DeadlineExceeded),
        Some(remaining) => {
            if remaining == 0 {
                Err(StyleFetchRejection::DeadlineExceeded)
            } else if remaining > MAX_STYLE_FETCH_DURATION_NANOSECONDS {
                Err(StyleFetchRejection::DeadlineTooFar)
            } else {
                Ok(())
            }
        },
    }
}

/// Why an exchange or a body read failed, as the transport tells it.
#[derive(Clone, Copy, Debug, PartialEq, Eq, Structural)]
pub enum TransportFailure {
    /// Cancellation was observed.
    Cancelled,
    /// The target's port is restricted.
    RestrictedPort,
    /// The initiator's evidence is invalid.
    InvalidInitiatorEvidence,
    /// Local network access was denied.
    LocalNetworkAccessDenied,
    /// DNS failed.
    Dns,
    /// A connection could not be made or was lost.
    Connection,
    /// A connection took too long.
    Timeout,
    /// TLS or its trust store failed.
    Tls,
    /// A transport limit was reached.
    Limit,
    /// The response broke the HTTP protocol.
    HttpProtocol,
    /// A redirect was refused by the transport.
    RedirectRejected,
    /// The request could not be made, or anything else.
    Request,
}

/// The family that a failure belongs to.
pub open spec fn family_of(failure: TransportFailure) -> StyleFetchNetworkFailure {
    match failure {
        TransportFailure::RestrictedPort => StyleFetchNetworkFailure::RestrictedPort,
        TransportFailure::InvalidInitiatorEvidence => StyleFetchNetworkFailure::InitiatorEvidence,
        TransportFailure::LocalNetworkAccessDenied => StyleFetchNetworkFailure::LocalNetworkAccess,
        TransportFailure::Dns => StyleFetchNetworkFailure::Dns,
        TransportFailure::Connection | TransportFailure::Timeout =>
            StyleFetchNetworkFailure::Connection,
        TransportFailure::Tls => StyleFetchNetworkFailure::Tls,
        TransportFailure::Limit => StyleFetchNetworkFailure::ResourceLimit,
        TransportFailure::HttpProtocol | TransportFailure::RedirectRejected =>
            StyleFetchNetworkFailure::HttpProtocol,
        TransportFailure::Request | TransportFailure::Cancelled => StyleFetchNetworkFailure::Other,
    }
}

/// How a failure is answered: cancellation and the deadline come first.
pub open spec fn failure_rejection(
    failure: TransportFailure,
    observed: Checkpoint,
) -> StyleFetchRejection {
    if observed.cancelled || failure is Cancelled {
        StyleFetchRejection::Cancelled
    } else if observed.expired {
        StyleFetchRejection::DeadlineExceeded
    } else {
        StyleFetchRejection::Network(family_of(failure))
    }
}

/// Answers a transport failure.
pub fn map_network_error(failure: TransportFailure, observed: Checkpoint) -> (rejection:
    StyleFetchRejection)
    ensures
        rejection == failure_rejection(failure, observed),
{
    if observed.cancelled {
        return StyleFetchRejection::Cancelled;
    }
    if let TransportFailure::Cancelled = failure {
        return StyleFetchRejection::Cancelled;
    }
    if observed.expired {
        return StyleFetchRejection::DeadlineExceeded;
    }
    let family = match failure {
        TransportFailure::RestrictedPort => StyleFetchNetworkFailure::RestrictedPort,
        TransportFailure::InvalidInitiatorEvidence => StyleFetchNetworkFailure::InitiatorEvidence,
        TransportFailure::LocalNetworkAccessDenied => StyleFetchNetworkFailure::LocalNetworkAccess,
        TransportFailure::Dns => StyleFetchNetworkFailure::Dns,
        TransportFailure::Connection | TransportFailure::Timeout => {
            StyleFetchNetworkFailure::Connection
        },
        TransportFailure::Tls => StyleFetchNetworkFailure::Tls,
        TransportFailure::Limit => StyleFetchNetworkFailure::ResourceLimit,
        TransportFailure::HttpProtocol | TransportFailure::RedirectRejected => {
            StyleFetchNetworkFailure::HttpProtocol
        },
        TransportFailure::Request | TransportFailure::Cancelled => StyleFetchNetworkFailure::Other,
    };
    StyleFetchRejection::Network(family)
}

/// Why a redirect location names no target, as the URL parser tells it.
#[derive(Clone, Copy, Debug, PartialEq, Eq, Structural)]
pub enum RedirectTargetFailure {
    /// The location holds credentials.
    CredentialsNotAllowed,
    /// The location has a scheme that is none of the web's.
    UnsupportedScheme,
    /// The location is too long.
    UrlBytes,
    /// The location is no URL, or anything else.
    Invalid,
}

/// How a location that names no target is answered.
pub open spec fn redirect_rejection(failure: RedirectTargetFailure) -> StyleFetchRejection {
    match failure {
        RedirectTargetFailure::CredentialsNotAllowed => StyleFetchRejection::RedirectCredentials,
        RedirectTargetFailure::UnsupportedScheme => StyleFetchRejection::RedirectScheme,
        RedirectTargetFailure::UrlBytes => StyleFetchRejection::RedirectUrlBytes,
        RedirectTargetFailure::Invalid => StyleFetchRejection::RedirectLocationInvalid,
    }
}

/// Answers a location that names no target.
pub fn map_redirect_target_error(failure: RedirectTargetFailure) -> (rejection: StyleFetchRejection)
    ensures
        rejection == redirect_rejection(failure),
{
    match failure {
        RedirectTargetFailure::CredentialsNotAllowed => StyleFetchRejection::RedirectCredentials,
        RedirectTargetFailure::UnsupportedScheme => StyleFetchRejection::RedirectScheme,
        RedirectTargetFailure::UrlBytes => StyleFetchRejection::RedirectUrlBytes,
        RedirectTargetFailure::Invalid => StyleFetchRejection::RedirectLocationInvalid,
    }
}

/// How a refused issuance is answered.
pub open spec fn issuance_answer(error: StyleDocumentAccessError) -> StyleFetchOwnerError {
    match error {
        StyleDocumentAccessError::Retired => StyleFetchOwnerError::AuthorityUnavailable,
        StyleDocumentAccessError::AlreadyIssued
        | StyleDocumentAccessError::TransactionActive
        | StyleDocumentAccessError::TransactionConsumed =>
            StyleFetchOwnerError::AuthorityAlreadyIssued,
        StyleDocumentAccessError::ProductNavigationRequired =>
            StyleFetchOwnerError::ProductNavigationRequired,
        StyleDocumentAccessError::NonProductNavigationBound =>
            StyleFetchOwnerError::NonProductDocumentRequired,
    }
}

/// Answers a refused issuance.
pub fn map_style_document_issuance_error(error: StyleDocumentAccessError) -> (answer:
    StyleFetchOwnerError)
    ensures
        answer == issuance_answer(error),
{
    match error {
        StyleDocumentAccessError::Retired => StyleFetchOwnerError::AuthorityUnavailable,
        StyleDocumentAccessError::AlreadyIssued
        | StyleDocumentAccessError::TransactionActive
        | StyleDocumentAccessError::TransactionConsumed => {
            StyleFetchOwnerError::AuthorityAlreadyIssued
        },
        StyleDocumentAccessError::ProductNavigationRequired => {
            StyleFetchOwnerError::ProductNavigationRequired
        },
        StyleDocumentAccessError::NonProductNavigationBound => {
            StyleFetchOwnerError::NonProductDocumentRequired
        },
    }
}

/// How a refused transaction is answered.
pub open spec fn transaction_answer(error: StyleDocumentAccessError) -> StyleFetchRejection {
    match error {
        StyleDocumentAccessError::Retired => StyleFetchRejection::DocumentNotCurrent,
        StyleDocumentAccessError::TransactionConsumed => StyleFetchRejection::TransactionConsumed,
        StyleDocumentAccessError::TransactionActive => StyleFetchRejection::TransactionInProgress,
        StyleDocumentAccessError::AlreadyIssued
        | StyleDocumentAccessError::ProductNavigationRequired
        | StyleDocumentAccessError::NonProductNavigationBound => StyleFetchRejection::PlanOwnership,
    }
}

/// Answers a refused transaction.
pub fn map_style_document_transaction_error(error: StyleDocumentAccessError) -> (answer:
    StyleFetchRejection)
    ensures
        answer == transaction_answer(error),
{
    match error {
        StyleDocumentAccessError::Retired => StyleFetchRejection::DocumentNotCurrent,
        StyleDocumentAccessError::TransactionConsumed => StyleFetchRejection::TransactionConsumed,
        StyleDocumentAccessError::TransactionActive => StyleFetchRejection::TransactionInProgress,
        StyleDocumentAccessError::AlreadyIssued
        | StyleDocumentAccessError::ProductNavigationRequired
        | StyleDocumentAccessError::NonProductNavigationBound => StyleFetchRejection::PlanOwnership,
    }
}

} // verus!
