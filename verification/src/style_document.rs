//! Quota ledger of one response document: one issuance, one transaction, and
//! a retirement that is never undone.

use vstd::prelude::*;

use crate::identity::NavigationId;

verus! {

/// Who an issuance is for.
#[derive(Clone, Copy, Debug, PartialEq, Eq, Structural)]
pub enum StyleDocumentAuthorityClass {
    /// The worker, for one exact navigation.
    Product,
    /// A direct caller, for a document that no navigation owns.
    NonProduct,
}

/// Progress of the sole transaction of an issuance.
#[derive(Clone, Copy, Debug, PartialEq, Eq, Structural)]
pub enum StyleDocumentTransaction {
    /// Not begun.
    Ready,
    /// Begun and not ended.
    Active,
    /// Ended.
    Consumed,
}

/// Whether the document's sole issuance was handed out.
#[derive(Clone, Copy, Debug, PartialEq, Eq, Structural)]
pub enum StyleDocumentIssuance {
    /// Not handed out.
    Available,
    /// Handed out.
    Issued {
        /// Who it was handed to.
        class: StyleDocumentAuthorityClass,
        /// Progress of its transaction.
        transaction: StyleDocumentTransaction,
    },
}

/// Whether the document is still current.
#[derive(Clone, Copy, Debug, PartialEq, Eq, Structural)]
pub enum StyleDocumentStatus {
    /// The document is current.
    Current(StyleDocumentIssuance),
    /// The document is no longer current.
    Retired,
}

/// Refused access to a document's ledger.
#[derive(Clone, Copy, Debug, PartialEq, Eq, Structural)]
pub enum StyleDocumentAccessError {
    /// The document is no longer current.
    Retired,
    /// The sole issuance was already handed out.
    AlreadyIssued,
    /// A product issuance needs the exact navigation bound first.
    ProductNavigationRequired,
    /// A navigation owns the document, so no direct issuance exists.
    NonProductNavigationBound,
    /// The sole transaction is running.
    TransactionActive,
    /// The sole transaction is over.
    TransactionConsumed,
}

/// One exact issuance from a live document's ledger.
#[derive(Debug)]
pub struct StyleDocumentFetchCapability {
    class: StyleDocumentAuthorityClass,
}

impl StyleDocumentFetchCapability {
    /// Class of the issuance, in specifications.
    pub closed spec fn class_of(self) -> StyleDocumentAuthorityClass {
        self.class
    }

    /// Begins the sole transaction of this issuance.
    pub fn begin_transaction(&self, lifecycle: &mut StyleDocumentLifecycle) -> (result: Result<
        (),
        StyleDocumentAccessError,
    >)
        ensures
            result == match old(lifecycle).transaction_error(self.class_of()) {
                Some(error) => Err(error),
                None => Ok(()),
            },
            *final(lifecycle) == if result is Ok {
                old(lifecycle).with_transaction(self.class_of(), StyleDocumentTransaction::Active)
            } else {
                *old(lifecycle)
            },
    {
        lifecycle.begin_transaction(self.class)
    }

    /// Ends the sole transaction of this issuance.
    pub fn end_transaction(&self, lifecycle: &mut StyleDocumentLifecycle)
        ensures
            *final(lifecycle) == old(lifecycle).after_transaction(self.class_of()),
    {
        lifecycle.end_transaction(self.class);
    }

    /// Accepts exactly while the document is current and the sole transaction
    /// of this issuance has not begun.
    pub fn ensure_current(&self, lifecycle: &StyleDocumentLifecycle) -> (result: Result<
        (),
        StyleDocumentAccessError,
    >)
        ensures
            result == match lifecycle.transaction_error(self.class_of()) {
                Some(error) => Err(error),
                None => Ok(()),
            },
    {
        lifecycle.ensure_current(self.class)
    }
}

/// Ledger of one response document.
#[derive(Debug)]
pub struct StyleDocumentLifecycle {
    /// Navigation that owns the document, once bound.
    pub navigation: Option<NavigationId>,
    /// Whether the document is current, and its issuance.
    pub status: StyleDocumentStatus,
}

impl StyleDocumentLifecycle {
    /// The ledger after a transaction reached `transaction`.
    pub open spec fn with_transaction(
        self,
        class: StyleDocumentAuthorityClass,
        transaction: StyleDocumentTransaction,
    ) -> Self {
        StyleDocumentLifecycle {
            status: StyleDocumentStatus::Current(
                StyleDocumentIssuance::Issued { class, transaction },
            ),
            ..self
        }
    }

    /// Why `navigation` cannot be bound.
    pub open spec fn binding_error(self, navigation: NavigationId) -> Option<
        StyleDocumentAccessError,
    > {
        if self.status is Retired {
            Some(StyleDocumentAccessError::Retired)
        } else {
            match self.navigation {
                Some(bound) => if bound == navigation {
                    None
                } else {
                    Some(StyleDocumentAccessError::ProductNavigationRequired)
                },
                None => if self.status == StyleDocumentStatus::Current(
                    StyleDocumentIssuance::Available,
                ) {
                    None
                } else {
                    Some(StyleDocumentAccessError::AlreadyIssued)
                },
            }
        }
    }

    /// Why no issuance of `class` can be handed out.
    pub open spec fn issuance_error(self, class: StyleDocumentAuthorityClass) -> Option<
        StyleDocumentAccessError,
    > {
        if self.status is Retired {
            Some(StyleDocumentAccessError::Retired)
        } else if class is Product && self.navigation is None {
            Some(StyleDocumentAccessError::ProductNavigationRequired)
        } else if class is NonProduct && self.navigation is Some {
            Some(StyleDocumentAccessError::NonProductNavigationBound)
        } else if self.status == StyleDocumentStatus::Current(StyleDocumentIssuance::Available) {
            None
        } else {
            Some(StyleDocumentAccessError::AlreadyIssued)
        }
    }

    /// Why the transaction of an issuance of `class` cannot begin.
    pub open spec fn transaction_error(self, class: StyleDocumentAuthorityClass) -> Option<
        StyleDocumentAccessError,
    > {
        match self.status {
            StyleDocumentStatus::Retired => Some(StyleDocumentAccessError::Retired),
            StyleDocumentStatus::Current(StyleDocumentIssuance::Available) => Some(
                StyleDocumentAccessError::AlreadyIssued,
            ),
            StyleDocumentStatus::Current(
                StyleDocumentIssuance::Issued { class: issued, transaction },
            ) => if issued != class {
                Some(StyleDocumentAccessError::AlreadyIssued)
            } else {
                match transaction {
                    StyleDocumentTransaction::Ready => None,
                    StyleDocumentTransaction::Active => Some(
                        StyleDocumentAccessError::TransactionActive,
                    ),
                    StyleDocumentTransaction::Consumed => Some(
                        StyleDocumentAccessError::TransactionConsumed,
                    ),
                }
            },
        }
    }

    /// The ledger after the running transaction of an issuance of `class`, if
    /// there is one, ended.
    pub open spec fn after_transaction(self, class: StyleDocumentAuthorityClass) -> Self {
        if self.status == StyleDocumentStatus::Current(
            StyleDocumentIssuance::Issued {
                class,
                transaction: StyleDocumentTransaction::Active,
            },
        ) {
            self.with_transaction(class, StyleDocumentTransaction::Consumed)
        } else {
            self
        }
    }

    /// Whether the sole transaction is running. It holds the ledger until it
    /// ends: a retirement waits for it.
    pub open spec fn runs_transaction(self) -> bool {
        self.status matches StyleDocumentStatus::Current(issuance) && issuance matches
            StyleDocumentIssuance::Issued { transaction, .. } && transaction is Active
    }

    /// The ledger once the document is no longer current.
    pub open spec fn retired(self) -> Self {
        StyleDocumentLifecycle { status: StyleDocumentStatus::Retired, ..self }
    }

    /// Creates the ledger of a current, unowned document.
    pub fn new() -> (lifecycle: Self)
        ensures
            lifecycle.navigation is None,
            lifecycle.status == StyleDocumentStatus::Current(StyleDocumentIssuance::Available),
    {
        StyleDocumentLifecycle {
            navigation: None,
            status: StyleDocumentStatus::Current(StyleDocumentIssuance::Available),
        }
    }

    /// Navigation that owns the document, once bound.
    pub fn navigation(&self) -> (navigation: Option<NavigationId>)
        ensures
            navigation == self.navigation,
    {
        self.navigation
    }

    /// Binds the document to one exact navigation; repeating it changes nothing.
    pub fn bind_navigation(&mut self, navigation: NavigationId) -> (result: Result<
        (),
        StyleDocumentAccessError,
    >)
        ensures
            result == match old(self).binding_error(navigation) {
                Some(error) => Err(error),
                None => Ok(()),
            },
            *final(self) == if result is Ok {
                StyleDocumentLifecycle { navigation: Some(navigation), ..*old(self) }
            } else {
                *old(self)
            },
    {
        if let StyleDocumentStatus::Retired = self.status {
            return Err(StyleDocumentAccessError::Retired);
        }
        match self.navigation {
            Some(bound) => {
                if bound == navigation {
                    Ok(())
                } else {
                    Err(StyleDocumentAccessError::ProductNavigationRequired)
                }
            },
            None => {
                match self.status {
                    StyleDocumentStatus::Current(StyleDocumentIssuance::Available) => {
                        self.navigation = Some(navigation);
                        Ok(())
                    },
                    _ => Err(StyleDocumentAccessError::AlreadyIssued),
                }
            },
        }
    }

    /// Hands out the sole issuance.
    pub fn issue(&mut self, class: StyleDocumentAuthorityClass) -> (result: Result<
        StyleDocumentFetchCapability,
        StyleDocumentAccessError,
    >)
        ensures
            match old(self).issuance_error(class) {
                Some(error) => result == Err::<StyleDocumentFetchCapability, _>(error)
                    && *final(self) == *old(self),
                None => result is Ok && result->Ok_0.class_of() == class && *final(self)
                    == old(self).with_transaction(class, StyleDocumentTransaction::Ready),
            },
    {
        if let StyleDocumentStatus::Retired = self.status {
            return Err(StyleDocumentAccessError::Retired);
        }
        match (class, self.navigation) {
            (StyleDocumentAuthorityClass::Product, None) => {
                return Err(StyleDocumentAccessError::ProductNavigationRequired);
            },
            (StyleDocumentAuthorityClass::NonProduct, Some(_)) => {
                return Err(StyleDocumentAccessError::NonProductNavigationBound);
            },
            _ => {},
        }
        match self.status {
            StyleDocumentStatus::Current(StyleDocumentIssuance::Available) => {
                self.status = StyleDocumentStatus::Current(
                    StyleDocumentIssuance::Issued {
                        class,
                        transaction: StyleDocumentTransaction::Ready,
                    },
                );
                Ok(StyleDocumentFetchCapability { class })
            },
            _ => Err(StyleDocumentAccessError::AlreadyIssued),
        }
    }

    /// Accepts exactly while the transaction of an issuance of `class` can begin.
    pub fn ensure_current(&self, class: StyleDocumentAuthorityClass) -> (result: Result<
        (),
        StyleDocumentAccessError,
    >)
        ensures
            result == match self.transaction_error(class) {
                Some(error) => Err(error),
                None => Ok(()),
            },
    {
        match self.status {
            StyleDocumentStatus::Retired => Err(StyleDocumentAccessError::Retired),
            StyleDocumentStatus::Current(StyleDocumentIssuance::Available) => Err(
                StyleDocumentAccessError::AlreadyIssued,
            ),
            StyleDocumentStatus::Current(
                StyleDocumentIssuance::Issued { class: issued, transaction },
            ) => {
                if issued != class {
                    return Err(StyleDocumentAccessError::AlreadyIssued);
                }
                match transaction {
                    StyleDocumentTransaction::Ready => Ok(()),
                    StyleDocumentTransaction::Active => Err(
                        StyleDocumentAccessError::TransactionActive,
                    ),
                    StyleDocumentTransaction::Consumed => Err(
                        StyleDocumentAccessError::TransactionConsumed,
                    ),
                }
            },
        }
    }

    /// Begins the sole transaction of an issuance of `class`.
    pub fn begin_transaction(&mut self, class: StyleDocumentAuthorityClass) -> (result: Result<
        (),
        StyleDocumentAccessError,
    >)
        ensures
            result == match old(self).transaction_error(class) {
                Some(error) => Err(error),
                None => Ok(()),
            },
            *final(self) == if result is Ok {
                old(self).with_transaction(class, StyleDocumentTransaction::Active)
            } else {
                *old(self)
            },
    {
        match self.ensure_current(class) {
            Ok(()) => {
                self.status = StyleDocumentStatus::Current(
                    StyleDocumentIssuance::Issued {
                        class,
                        transaction: StyleDocumentTransaction::Active,
                    },
                );
                Ok(())
            },
            Err(error) => Err(error),
        }
    }

    /// Ends the running transaction of an issuance of `class`, if there is one.
    pub fn end_transaction(&mut self, class: StyleDocumentAuthorityClass)
        ensures
            *final(self) == old(self).after_transaction(class),
    {
        if let StyleDocumentStatus::Current(
            StyleDocumentIssuance::Issued { class: issued, transaction },
        ) = self.status {
            if issued == class && transaction == StyleDocumentTransaction::Active {
                self.status = StyleDocumentStatus::Current(
                    StyleDocumentIssuance::Issued {
                        class,
                        transaction: StyleDocumentTransaction::Consumed,
                    },
                );
            }
        }
    }

    /// Whether the sole transaction is running.
    pub fn is_transaction_running(&self) -> (running: bool)
        ensures
            running == self.runs_transaction(),
    {
        match self.status {
            StyleDocumentStatus::Current(StyleDocumentIssuance::Issued { transaction, .. }) => {
                transaction == StyleDocumentTransaction::Active
            },
            _ => false,
        }
    }

    /// Marks the document as no longer current, unless its transaction is
    /// running: such a ledger stays as it is, and the caller waits for the end of
    /// the transaction. Tells whether the document is retired.
    pub fn retire(&mut self) -> (retired: bool)
        ensures
            retired == !old(self).runs_transaction(),
            *final(self) == if retired {
                old(self).retired()
            } else {
                *old(self)
            },
    {
        if self.is_transaction_running() {
            return false;
        }
        self.status = StyleDocumentStatus::Retired;
        true
    }

    /// Whether a replacement of the document may be attempted.
    pub fn is_current(&self) -> (current: bool)
        ensures
            current == !(self.status is Retired),
    {
        match self.status {
            StyleDocumentStatus::Retired => false,
            StyleDocumentStatus::Current(_) => true,
        }
    }

    /// Retires a current document, whose transaction is not running, once its
    /// replacement succeeded; tells whether the document was current.
    pub fn retire_if_succeeded(&mut self, succeeded: bool) -> (was_current: bool)
        requires
            !old(self).runs_transaction(),
        ensures
            was_current == !(old(self).status is Retired),
            *final(self) == if was_current && succeeded {
                old(self).retired()
            } else {
                *old(self)
            },
    {
        if let StyleDocumentStatus::Retired = self.status {
            return false;
        }
        if succeeded {
            self.status = StyleDocumentStatus::Retired;
        }
        true
    }

    /// One call of any operation on the ledger.
    pub open spec fn step(self, next: Self) -> bool {
        ||| self == next
        ||| exists|navigation: NavigationId|
            (#[trigger] self.binding_error(navigation)) is None && next
                == (StyleDocumentLifecycle { navigation: Some(navigation), ..self })
        ||| exists|class: StyleDocumentAuthorityClass|
            (#[trigger] self.issuance_error(class)) is None && next == self.with_transaction(
                class,
                StyleDocumentTransaction::Ready,
            )
        ||| exists|class: StyleDocumentAuthorityClass|
            (#[trigger] self.transaction_error(class)) is None && next == self.with_transaction(
                class,
                StyleDocumentTransaction::Active,
            )
        ||| exists|class: StyleDocumentAuthorityClass|
            next == #[trigger] self.after_transaction(class)
        ||| !self.runs_transaction() && next == self.retired()
    }

    /// Distance of the ledger from a fresh one.
    pub open spec fn progress(self) -> nat {
        match self.status {
            StyleDocumentStatus::Current(StyleDocumentIssuance::Available) => 0,
            StyleDocumentStatus::Current(StyleDocumentIssuance::Issued { transaction, .. }) =>
                match transaction {
                    StyleDocumentTransaction::Ready => 1,
                    StyleDocumentTransaction::Active => 2,
                    StyleDocumentTransaction::Consumed => 3,
                },
            StyleDocumentStatus::Retired => 4,
        }
    }

    /// Ledger states that calls of its operations lead through, one per call.
    pub open spec fn history(states: Seq<Self>) -> bool {
        forall|i: int, j: int|
            #![trigger states[i], states[j]]
            0 <= i < states.len() && j == i + 1 && j < states.len() ==> states[i].step(states[j])
    }

    /// No operation moves a ledger backwards: a retired document stays retired,
    /// an issuance is never handed out again, a transaction never begins again,
    /// and a bound navigation never changes.
    pub proof fn step_is_monotone(self, next: Self)
        requires
            self.step(next),
        ensures
            self.progress() <= next.progress(),
            self.status is Retired ==> next.status is Retired,
            self.navigation is Some ==> next.navigation == self.navigation,
            self.progress() == next.progress() ==> self.status == next.status,
            self.progress() == 2 ==> next.progress() <= 3,
    {
    }

    /// A transaction that began ends before the document is retired.
    pub proof fn retirement_waits(states: Seq<Self>, i: int, j: int)
        requires
            Self::history(states),
            0 <= i < j < states.len(),
            states[i].runs_transaction(),
            states[j].status is Retired,
        ensures
            exists|k: int| i < k < j && (#[trigger] states[k]).progress() == 3,
        decreases j - i,
    {
        assert(states[i].step(states[i + 1]));
        states[i].step_is_monotone(states[i + 1]);
        if states[i + 1].progress() == 2 {
            Self::retirement_waits(states, i + 1, j);
            let k = choose|k: int| i + 1 < k < j && (#[trigger] states[k]).progress() == 3;
            assert(states[k].progress() == 3);
        } else {
            assert(states[i + 1].progress() == 3);
        }
    }

    /// Over any history of calls, at most one call hands out an issuance, at
    /// most one begins a transaction, and nothing follows retirement.
    pub proof fn history_is_monotone(states: Seq<Self>, i: int, j: int)
        requires
            Self::history(states),
            0 <= i <= j < states.len(),
        ensures
            states[i].progress() <= states[j].progress(),
            states[i].status is Retired ==> states[j].status is Retired,
            states[i].navigation is Some ==> states[j].navigation == states[i].navigation,
            states[i].progress() >= 1 ==> forall|class: StyleDocumentAuthorityClass|
                (#[trigger] states[j].issuance_error(class)) is Some,
            states[i].progress() >= 2 ==> forall|class: StyleDocumentAuthorityClass|
                (#[trigger] states[j].transaction_error(class)) is Some,
        decreases j - i,
    {
        if i < j {
            Self::history_is_monotone(states, i, j - 1);
            assert(states[j - 1].step(states[j]));
            states[j - 1].step_is_monotone(states[j]);
        }
    }
}

} // verus!
