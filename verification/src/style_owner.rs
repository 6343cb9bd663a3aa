//! Who may fetch the stylesheets of one live document.

use vstd::prelude::*;

use crate::commit::{CommitModel, CommittedResponseAuthority, NavigationCommitMetadata};
use crate::identity::{DocumentVersion, NavigationId};
use crate::style_document::{
    StyleDocumentAuthorityClass, StyleDocumentFetchCapability, StyleDocumentLifecycle,
    StyleDocumentTransaction,
};
use crate::style_fetch::{StyleFetchLimits, StyleFetchOwnerError, StyleFetchRejection};
use crate::style_plan::StyleResourcePlan;
use crate::style_transaction::{
    ErrorPoint, FetchAccounting, StyleFetchFailure, StyleFetchTransaction,
};
use crate::style_transport::{
    map_style_document_issuance_error, map_style_document_transaction_error,
    validate_operation_start,
};
use crate::web::ParsedNavigation;

verus! {

/// On whose behalf stylesheets are fetched.
#[derive(Clone, Copy, Debug, PartialEq, Eq, Structural)]
pub enum StyleFetchScope {
    /// The worker, for one navigation.
    Product(NavigationId),
    /// A direct caller, for a document that no navigation owns.
    NonProduct,
}

impl StyleFetchScope {
    /// Class of issuance that the scope takes.
    pub open spec fn class(self) -> StyleDocumentAuthorityClass {
        match self {
            StyleFetchScope::Product(_) => StyleDocumentAuthorityClass::Product,
            StyleFetchScope::NonProduct => StyleDocumentAuthorityClass::NonProduct,
        }
    }

    /// Why a commitment gives the scope no authority over a document.
    pub open spec fn rejection(
        self,
        navigation_commit: CommitModel,
        document_version: DocumentVersion,
        parsed: Option<ParsedNavigation>,
        authority_matches: bool,
        ledger: StyleDocumentLifecycle,
    ) -> Option<StyleFetchOwnerError> {
        match self {
            StyleFetchScope::Product(navigation) => if navigation_commit.navigation_error(
                navigation,
                document_version,
                parsed,
                authority_matches,
                ledger.navigation,
            ) is Some {
                Some(StyleFetchOwnerError::ProductNavigationRequired)
            } else {
                None
            },
            StyleFetchScope::NonProduct => if navigation_commit.subresource_error(
                document_version,
                parsed,
                authority_matches,
            ) is Some {
                Some(StyleFetchOwnerError::AuthorityUnavailable)
            } else if ledger.navigation is Some {
                Some(StyleFetchOwnerError::NonProductDocumentRequired)
            } else {
                None
            },
        }
    }

    /// Why the scope does not get a document's sole issuance, if it does not.
    pub open spec fn refusal(
        self,
        navigation_commit: CommitModel,
        document_version: DocumentVersion,
        parsed: Option<ParsedNavigation>,
        authority_matches: bool,
        transport: Result<u64, StyleFetchOwnerError>,
        ledger: StyleDocumentLifecycle,
    ) -> Option<StyleFetchOwnerError> {
        let rejection = self.rejection(
            navigation_commit,
            document_version,
            parsed,
            authority_matches,
            ledger,
        );
        if rejection is Some {
            rejection
        } else if transport is Err {
            Some(transport->Err_0)
        } else {
            match ledger.issuance_error(self.class()) {
                Some(error) => Some(crate::style_transport::issuance_answer(error)),
                None => None,
            }
        }
    }
}

/// What a document delegates to whoever fetches its stylesheets.
pub struct StyleFetchAuthorityCore {
    /// Delegated child transport.
    pub transport: u64,
    /// Document revision.
    pub document_version: DocumentVersion,
    /// Commitment of the document's response.
    pub navigation_commit: NavigationCommitMetadata,
    /// The document's sole issuance.
    pub lifecycle: StyleDocumentFetchCapability,
}

impl StyleFetchAuthorityCore {
    /// Whether this is what a document delegated to a scope.
    pub open spec fn is_of(
        self,
        transport: u64,
        document_version: DocumentVersion,
        navigation_commit: CommitModel,
        scope: StyleFetchScope,
    ) -> bool {
        &&& self.transport == transport
        &&& self.document_version == document_version
        &&& self.navigation_commit@ == navigation_commit
        &&& self.lifecycle.class_of() == scope.class()
    }
}

/// Accepts a scope's authority over a document, and gives the response
/// authority that a child transport is delegated for.
pub fn validate_style_fetch_scope(
    navigation_commit: &NavigationCommitMetadata,
    document_version: DocumentVersion,
    scope: StyleFetchScope,
    parsed: Option<&ParsedNavigation>,
    authority_matches: bool,
    ledger: &StyleDocumentLifecycle,
) -> (result: Result<CommittedResponseAuthority, StyleFetchOwnerError>)
    ensures
        match scope.rejection(
            navigation_commit@,
            document_version,
            crate::style_policy::optional_answer(parsed),
            authority_matches,
            *ledger,
        ) {
            Some(rejection) => result == Err::<CommittedResponseAuthority, _>(rejection),
            None => result matches Ok(authority) && navigation_commit@.response() == Some(
                authority,
            ),
        },
{
    match scope {
        StyleFetchScope::Product(navigation) => {
            match navigation_commit.validate_general_web_for_navigation(
                navigation,
                document_version,
                parsed,
                authority_matches,
                ledger,
            ) {
                Ok(()) => {},
                Err(_) => return Err(StyleFetchOwnerError::ProductNavigationRequired),
            }
        },
        StyleFetchScope::NonProduct => {
            match navigation_commit.validate_general_web_for_subresources(
                document_version,
                parsed,
                authority_matches,
            ) {
                Ok(()) => {},
                Err(_) => return Err(StyleFetchOwnerError::AuthorityUnavailable),
            }
            if navigation_commit.navigation(ledger).is_some() {
                return Err(StyleFetchOwnerError::NonProductDocumentRequired);
            }
        },
    }
    match navigation_commit.committed_response_authority(
        document_version,
        parsed,
        authority_matches,
    ) {
        Ok(authority) => Ok(authority),
        Err(_) => Err(StyleFetchOwnerError::AuthorityUnavailable),
    }
}

/// Takes a document's sole issuance for a scope. `transport` is what delegating
/// a child transport for the response came to.
pub fn prepare_style_fetch_authority(
    navigation_commit: &NavigationCommitMetadata,
    document_version: DocumentVersion,
    scope: StyleFetchScope,
    parsed: Option<&ParsedNavigation>,
    authority_matches: bool,
    transport: Result<u64, StyleFetchOwnerError>,
    ledger: &mut StyleDocumentLifecycle,
) -> (result: Result<StyleFetchAuthorityCore, StyleFetchOwnerError>)
    ensures
        match scope.refusal(
            navigation_commit@,
            document_version,
            crate::style_policy::optional_answer(parsed),
            authority_matches,
            transport,
            *old(ledger),
        ) {
            Some(error) => result == Err::<StyleFetchAuthorityCore, _>(error) && *final(ledger)
                == *old(ledger),
            None => {
                &&& result matches Ok(core)
                &&& core.is_of(transport->Ok_0, document_version, navigation_commit@, scope)
                &&& *final(ledger) == old(ledger).with_transaction(
                    scope.class(),
                    StyleDocumentTransaction::Ready,
                )
            },
        },
{
    match validate_style_fetch_scope(
        navigation_commit,
        document_version,
        scope,
        parsed,
        authority_matches,
        ledger,
    ) {
        Ok(_) => {},
        Err(error) => return Err(error),
    }
    let transport: u64 = match transport {
        Ok(transport) => transport,
        Err(error) => return Err(error),
    };
    let issued = match scope {
        StyleFetchScope::Product(navigation) => navigation_commit.issue_product_style_fetch(
            navigation,
            document_version,
            parsed,
            authority_matches,
            ledger,
        ),
        StyleFetchScope::NonProduct => navigation_commit.issue_non_product_style_fetch(
            document_version,
            parsed,
            authority_matches,
            ledger,
        ),
    };
    match issued {
        Ok(lifecycle) => Ok(
            StyleFetchAuthorityCore {
                transport,
                document_version,
                navigation_commit: navigation_commit.clone(),
                lifecycle,
            },
        ),
        Err(error) => Err(map_style_document_issuance_error(error)),
    }
}

/// Product stylesheet authority for one exact live worker navigation.
pub struct StyleFetchAuthority {
    core: StyleFetchAuthorityCore,
}

impl StyleFetchAuthority {
    /// What the document delegated, in specifications.
    pub closed spec fn core_of(self) -> StyleFetchAuthorityCore {
        self.core
    }

    #[verifier::type_invariant]
    spec fn type_inv(self) -> bool {
        self.core.lifecycle.class_of() is Product
    }

    /// Takes a document's sole issuance for the navigation that owns it.
    pub fn from_committed_document(
        navigation_commit: &NavigationCommitMetadata,
        navigation: NavigationId,
        document_version: DocumentVersion,
        parsed: Option<&ParsedNavigation>,
        authority_matches: bool,
        transport: Result<u64, StyleFetchOwnerError>,
        ledger: &mut StyleDocumentLifecycle,
    ) -> (result: Result<Self, StyleFetchOwnerError>)
        ensures
            ({
                let scope = StyleFetchScope::Product(navigation);
                match scope.refusal(
                    navigation_commit@,
                    document_version,
                    crate::style_policy::optional_answer(parsed),
                    authority_matches,
                    transport,
                    *old(ledger),
                ) {
                    Some(error) => result == Err::<Self, _>(error) && *final(ledger) == *old(
                        ledger,
                    ),
                    None => {
                        &&& result matches Ok(authority)
                        &&& authority.core_of().is_of(
                            transport->Ok_0,
                            document_version,
                            navigation_commit@,
                            scope,
                        )
                        &&& *final(ledger) == old(ledger).with_transaction(
                            scope.class(),
                            StyleDocumentTransaction::Ready,
                        )
                    },
                }
            }),
    {
        match prepare_style_fetch_authority(
            navigation_commit,
            document_version,
            StyleFetchScope::Product(navigation),
            parsed,
            authority_matches,
            transport,
            ledger,
        ) {
            Ok(core) => Ok(StyleFetchAuthority { core }),
            Err(error) => Err(error),
        }
    }
}

/// Explicit authority of a direct caller over a document that no navigation
/// owns.
pub struct NonProductStyleFetchAuthority {
    core: StyleFetchAuthorityCore,
}

impl NonProductStyleFetchAuthority {
    /// What the document delegated, in specifications.
    pub closed spec fn core_of(self) -> StyleFetchAuthorityCore {
        self.core
    }

    #[verifier::type_invariant]
    spec fn type_inv(self) -> bool {
        self.core.lifecycle.class_of() is NonProduct
    }

    /// Takes a document's sole issuance for a direct caller.
    pub fn from_committed_document(
        navigation_commit: &NavigationCommitMetadata,
        document_version: DocumentVersion,
        parsed: Option<&ParsedNavigation>,
        authority_matches: bool,
        transport: Result<u64, StyleFetchOwnerError>,
        ledger: &mut StyleDocumentLifecycle,
    ) -> (result: Result<Self, StyleFetchOwnerError>)
        ensures
            ({
                let scope = StyleFetchScope::NonProduct;
                match scope.refusal(
                    navigation_commit@,
                    document_version,
                    crate::style_policy::optional_answer(parsed),
                    authority_matches,
                    transport,
                    *old(ledger),
                ) {
                    Some(error) => result == Err::<Self, _>(error) && *final(ledger) == *old(
                        ledger,
                    ),
                    None => {
                        &&& result matches Ok(authority)
                        &&& authority.core_of().is_of(
                            transport->Ok_0,
                            document_version,
                            navigation_commit@,
                            scope,
                        )
                        &&& *final(ledger) == old(ledger).with_transaction(
                            scope.class(),
                            StyleDocumentTransaction::Ready,
                        )
                    },
                }
            }),
    {
        match prepare_style_fetch_authority(
            navigation_commit,
            document_version,
            StyleFetchScope::NonProduct,
            parsed,
            authority_matches,
            transport,
            ledger,
        ) {
            Ok(core) => Ok(NonProductStyleFetchAuthority { core }),
            Err(error) => Err(error),
        }
    }
}

/// Owner of a document's sole stylesheet transaction.
pub struct StyleFetchOwnerCore {
    /// What the document delegated.
    pub authority: StyleFetchAuthorityCore,
    /// Bounds of the transaction.
    pub limits: StyleFetchLimits,
}

/// What a transaction starts with.
pub open spec fn is_fresh(transaction: StyleFetchTransaction, limits: StyleFetchLimits) -> bool {
    &&& transaction.limits == limits
    &&& transaction.diagnostics@.len() == 0
    &&& transaction.responses@.len() == 0
    &&& transaction.accounting == (FetchAccounting {
        body_bytes: 0,
        header_bytes: 0,
        http_exchanges: 0,
    })
    &&& transaction.inv()
}

impl StyleFetchOwnerCore {
    /// Accepts a delegation while its transaction has not begun.
    pub fn new(
        authority: StyleFetchAuthorityCore,
        limits: StyleFetchLimits,
        ledger: &StyleDocumentLifecycle,
    ) -> (result: Result<Self, StyleFetchOwnerError>)
        ensures
            match ledger.transaction_error(authority.lifecycle.class_of()) {
                Some(error) => result == Err::<Self, _>(
                    crate::style_transport::issuance_answer(error),
                ),
                None => result == Ok::<_, StyleFetchOwnerError>(
                    StyleFetchOwnerCore { authority, limits },
                ),
            },
    {
        match authority.lifecycle.ensure_current(ledger) {
            Ok(()) => Ok(StyleFetchOwnerCore { authority, limits }),
            Err(error) => Err(map_style_document_issuance_error(error)),
        }
    }

    /// Bounds of the transaction.
    pub fn limits(&self) -> (limits: StyleFetchLimits)
        ensures
            limits == self.limits,
    {
        self.limits
    }

    /// Begins the document's sole transaction, with so many nanoseconds left, if
    /// any. From here on the transaction is used up, whatever comes of it; one
    /// that cannot start is over at once. Memory for its observations may be
    /// missing.
    pub fn begin_fetch_plan(
        &mut self,
        plan: &StyleResourcePlan,
        ledger: &mut StyleDocumentLifecycle,
        cancelled: bool,
        remaining: Option<u128>,
    ) -> (result: Result<StyleFetchTransaction, StyleFetchFailure>)
        ensures
            *final(self) == *old(self),
            ({
                let class = old(self).authority.lifecycle.class_of();
                let point = ErrorPoint::of_start(*plan);
                match old(ledger).transaction_error(class) {
                    Some(error) => {
                        &&& *final(ledger) == *old(ledger)
                        &&& result matches Err(failure)
                        &&& failure.error == point.failing(
                            crate::style_transport::transaction_answer(error),
                        )
                        &&& failure.diagnostics@.len() == 0
                    },
                    None => match result {
                        Ok(transaction) => {
                            &&& crate::style_transport::start_rejection(
                                cancelled,
                                remaining,
                            ) is None
                            &&& is_fresh(transaction, old(self).limits)
                            &&& *final(ledger) == old(ledger).with_transaction(
                                class,
                                StyleDocumentTransaction::Active,
                            )
                        },
                        Err(failure) => {
                            &&& *final(ledger) == old(ledger).with_transaction(
                                class,
                                StyleDocumentTransaction::Consumed,
                            )
                            &&& failure.diagnostics@.len() == 0
                            &&& failure.error == point.failing(
                                match crate::style_transport::start_rejection(
                                    cancelled,
                                    remaining,
                                ) {
                                    Some(rejection) => rejection,
                                    None => StyleFetchRejection::AllocationFailed,
                                },
                            )
                            &&& crate::style_transport::start_rejection(
                                cancelled,
                                remaining,
                            ) is Some || old(self).limits@.diagnostics > 0
                        },
                    },
                }
            }),
    {
        let point = ErrorPoint::start(plan);
        match self.authority.lifecycle.begin_transaction(ledger) {
            Ok(()) => {},
            Err(error) => return Err(
                StyleFetchFailure {
                    error: point.error(map_style_document_transaction_error(error)),
                    diagnostics: Vec::new(),
                },
            ),
        }
        match validate_operation_start(cancelled, remaining) {
            Ok(()) => {},
            Err(rejection) => {
                self.authority.lifecycle.end_transaction(ledger);
                return Err(
                    StyleFetchFailure { error: point.error(rejection), diagnostics: Vec::new() },
                );
            },
        }
        let mut transaction = StyleFetchTransaction {
            limits: self.limits,
            diagnostics: Vec::new(),
            responses: Vec::new(),
            accounting: FetchAccounting { body_bytes: 0, header_bytes: 0, http_exchanges: 0 },
        };
        let max_diagnostics: usize = self.limits.max_diagnostics();
        if max_diagnostics > 0 && transaction.diagnostics.try_reserve(max_diagnostics).is_err() {
            self.authority.lifecycle.end_transaction(ledger);
            return Err(
                StyleFetchFailure {
                    error: point.error(StyleFetchRejection::AllocationFailed),
                    diagnostics: Vec::new(),
                },
            );
        }
        Ok(transaction)
    }

    /// Ends the document's sole transaction, whatever came of it.
    pub fn end_fetch_plan(&self, ledger: &mut StyleDocumentLifecycle)
        ensures
            *final(ledger) == old(ledger).after_transaction(self.authority.lifecycle.class_of()),
    {
        self.authority.lifecycle.end_transaction(ledger);
    }

    /// A transaction that began and ended never begins again.
    pub proof fn transaction_is_one_shot(
        ledger: StyleDocumentLifecycle,
        class: StyleDocumentAuthorityClass,
    )
        requires
            ledger.transaction_error(class) is None,
        ensures
            ledger.with_transaction(class, StyleDocumentTransaction::Active).after_transaction(
                class,
            ).transaction_error(class) == Some(
                crate::style_document::StyleDocumentAccessError::TransactionConsumed,
            ),
    {
    }
}

/// One-shot product stylesheet owner for an exact current navigation.
pub struct StyleFetchOwner {
    core: StyleFetchOwnerCore,
}

impl StyleFetchOwner {
    /// Owner without its kind, in specifications.
    pub closed spec fn core_of(self) -> StyleFetchOwnerCore {
        self.core
    }

    /// Consumes one exact product delegation.
    pub fn new(
        authority: StyleFetchAuthority,
        limits: StyleFetchLimits,
        ledger: &StyleDocumentLifecycle,
    ) -> (result: Result<Self, StyleFetchOwnerError>)
        ensures
            match ledger.transaction_error(authority.core_of().lifecycle.class_of()) {
                Some(error) => result == Err::<Self, _>(
                    crate::style_transport::issuance_answer(error),
                ),
                None => result matches Ok(owner) && owner.core_of() == (StyleFetchOwnerCore {
                    authority: authority.core_of(),
                    limits,
                }),
            },
    {
        match StyleFetchOwnerCore::new(authority.core, limits, ledger) {
            Ok(core) => Ok(StyleFetchOwner { core }),
            Err(error) => Err(error),
        }
    }

    /// Returns this owner's immutable lower or equal limits.
    pub fn limits(&self) -> (limits: StyleFetchLimits)
        ensures
            limits == self.core_of().limits,
    {
        self.core.limits
    }

    /// The owner without its kind.
    pub fn into_core(self) -> (core: StyleFetchOwnerCore)
        ensures
            core == self.core_of(),
    {
        self.core
    }
}

/// One-shot owner for a direct caller.
pub struct NonProductStyleFetchOwner {
    core: StyleFetchOwnerCore,
}

impl NonProductStyleFetchOwner {
    /// Owner without its kind, in specifications.
    pub closed spec fn core_of(self) -> StyleFetchOwnerCore {
        self.core
    }

    /// Consumes one exact non-product delegation.
    pub fn new(
        authority: NonProductStyleFetchAuthority,
        limits: StyleFetchLimits,
        ledger: &StyleDocumentLifecycle,
    ) -> (result: Result<Self, StyleFetchOwnerError>)
        ensures
            match ledger.transaction_error(authority.core_of().lifecycle.class_of()) {
                Some(error) => result == Err::<Self, _>(
                    crate::style_transport::issuance_answer(error),
                ),
                None => result matches Ok(owner) && owner.core_of() == (StyleFetchOwnerCore {
                    authority: authority.core_of(),
                    limits,
                }),
            },
    {
        match StyleFetchOwnerCore::new(authority.core, limits, ledger) {
            Ok(core) => Ok(NonProductStyleFetchOwner { core }),
            Err(error) => Err(error),
        }
    }

    /// Returns this owner's immutable lower or equal limits.
    pub fn limits(&self) -> (limits: StyleFetchLimits)
        ensures
            limits == self.core_of().limits,
    {
        self.core.limits
    }

    /// The owner without its kind.
    pub fn into_core(self) -> (core: StyleFetchOwnerCore)
        ensures
            core == self.core_of(),
    {
        self.core
    }
}

} // verus!
