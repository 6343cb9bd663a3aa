//! Typed identities of contexts, navigations, documents and worker leases.

use vstd::prelude::*;

verus! {

/// Nonzero identity of one top-level browsing context.
#[derive(Clone, Copy, Debug, PartialEq, Eq, PartialOrd, Ord, Hash, Structural)]
pub struct TopLevelContextId {
    raw: u64,
}

impl TopLevelContextId {
    #[verifier::type_invariant]
    spec fn is_nonzero(self) -> bool {
        self.raw != 0
    }

    /// Numeric value of the identity.
    pub closed spec fn value(self) -> u64 {
        self.raw
    }

    /// The identity with numeric value `raw`.
    pub closed spec fn of(raw: u64) -> Self {
        TopLevelContextId { raw }
    }

    /// An identity and its numeric value determine each other.
    pub broadcast proof fn value_of(raw: u64)
        ensures
            #[trigger] Self::of(raw).value() == raw,
    {
    }

    /// Rebuilding an identity from its numeric value gives it back.
    pub broadcast proof fn of_value(self)
        ensures
            Self::of(#[trigger] self.value()) == self,
    {
    }

    /// Creates a nonzero identity.
    pub fn new(raw: u64) -> (identity: Option<Self>)
        ensures
            identity == if raw == 0 {
                None
            } else {
                Some(Self::of(raw))
            },
    {
        if raw == 0 {
            None
        } else {
            Some(TopLevelContextId { raw })
        }
    }

    /// Returns the numeric representation, which is never zero.
    pub fn get(self) -> (raw: u64)
        ensures
            raw == self.value(),
            raw != 0,
    {
        proof {
            use_type_invariant(&self);
        }
        self.raw
    }
}

/// Monotonic, context-local navigation generation.
#[derive(Clone, Copy, Debug, PartialEq, Eq, PartialOrd, Ord, Hash, Structural)]
pub struct NavigationGeneration {
    raw: u64,
}

impl NavigationGeneration {
    #[verifier::type_invariant]
    spec fn is_nonzero(self) -> bool {
        self.raw != 0
    }

    /// Numeric value of the identity.
    pub closed spec fn value(self) -> u64 {
        self.raw
    }

    /// The identity with numeric value `raw`.
    pub closed spec fn of(raw: u64) -> Self {
        NavigationGeneration { raw }
    }

    /// An identity and its numeric value determine each other.
    pub broadcast proof fn value_of(raw: u64)
        ensures
            #[trigger] Self::of(raw).value() == raw,
    {
    }

    /// Rebuilding an identity from its numeric value gives it back.
    pub broadcast proof fn of_value(self)
        ensures
            Self::of(#[trigger] self.value()) == self,
    {
    }

    /// Creates a nonzero identity.
    pub fn new(raw: u64) -> (identity: Option<Self>)
        ensures
            identity == if raw == 0 {
                None
            } else {
                Some(Self::of(raw))
            },
    {
        if raw == 0 {
            None
        } else {
            Some(NavigationGeneration { raw })
        }
    }

    /// Returns the numeric representation, which is never zero.
    pub fn get(self) -> (raw: u64)
        ensures
            raw == self.value(),
            raw != 0,
    {
        proof {
            use_type_invariant(&self);
        }
        self.raw
    }

    /// Generation that every new context starts from.
    pub fn initial() -> (generation: Self)
        ensures
            generation == Self::of(1),
    {
        NavigationGeneration { raw: 1 }
    }

    /// Returns the generation directly after this one, or nothing when no
    /// greater generation can be represented.
    pub fn checked_next(self) -> (next: Option<Self>)
        ensures
            next == if self.value() == u64::MAX {
                None
            } else {
                Some(Self::of((self.value() + 1) as u64))
            },
    {
        proof {
            use_type_invariant(&self);
        }
        if self.raw == u64::MAX {
            None
        } else {
            Some(NavigationGeneration { raw: self.raw + 1 })
        }
    }
}

/// Opaque one-shot identity for a published frame.
#[derive(Clone, Copy, Debug, PartialEq, Eq, PartialOrd, Ord, Hash, Structural)]
pub struct FrameLeaseId {
    raw: u64,
}

impl FrameLeaseId {
    #[verifier::type_invariant]
    spec fn is_nonzero(self) -> bool {
        self.raw != 0
    }

    /// Numeric value of the identity.
    pub closed spec fn value(self) -> u64 {
        self.raw
    }

    /// The identity with numeric value `raw`.
    pub closed spec fn of(raw: u64) -> Self {
        FrameLeaseId { raw }
    }

    /// An identity and its numeric value determine each other.
    pub broadcast proof fn value_of(raw: u64)
        ensures
            #[trigger] Self::of(raw).value() == raw,
    {
    }

    /// Rebuilding an identity from its numeric value gives it back.
    pub broadcast proof fn of_value(self)
        ensures
            Self::of(#[trigger] self.value()) == self,
    {
    }

    /// Creates a nonzero identity.
    pub fn new(raw: u64) -> (identity: Option<Self>)
        ensures
            identity == if raw == 0 {
                None
            } else {
                Some(Self::of(raw))
            },
    {
        if raw == 0 {
            None
        } else {
            Some(FrameLeaseId { raw })
        }
    }

    /// Returns the numeric representation, which is never zero.
    pub fn get(self) -> (raw: u64)
        ensures
            raw == self.value(),
            raw != 0,
    {
        proof {
            use_type_invariant(&self);
        }
        self.raw
    }
}

/// Opaque one-shot identity for one bounded created-node mapping.
#[derive(Clone, Copy, Debug, PartialEq, Eq, PartialOrd, Ord, Hash, Structural)]
pub struct MutationResultLeaseId {
    raw: u64,
}

impl MutationResultLeaseId {
    #[verifier::type_invariant]
    spec fn is_nonzero(self) -> bool {
        self.raw != 0
    }

    /// Numeric value of the identity.
    pub closed spec fn value(self) -> u64 {
        self.raw
    }

    /// The identity with numeric value `raw`.
    pub closed spec fn of(raw: u64) -> Self {
        MutationResultLeaseId { raw }
    }

    /// An identity and its numeric value determine each other.
    pub broadcast proof fn value_of(raw: u64)
        ensures
            #[trigger] Self::of(raw).value() == raw,
    {
    }

    /// Rebuilding an identity from its numeric value gives it back.
    pub broadcast proof fn of_value(self)
        ensures
            Self::of(#[trigger] self.value()) == self,
    {
    }

    /// Creates a nonzero identity.
    pub fn new(raw: u64) -> (identity: Option<Self>)
        ensures
            identity == if raw == 0 {
                None
            } else {
                Some(Self::of(raw))
            },
    {
        if raw == 0 {
            None
        } else {
            Some(MutationResultLeaseId { raw })
        }
    }

    /// Returns the numeric representation, which is never zero.
    pub fn get(self) -> (raw: u64)
        ensures
            raw == self.value(),
            raw != 0,
    {
        proof {
            use_type_invariant(&self);
        }
        self.raw
    }
}

/// Monotonic event sequence assigned by the worker.
#[derive(Clone, Copy, Debug, PartialEq, Eq, PartialOrd, Ord, Hash, Structural)]
pub struct EventSequence {
    raw: u64,
}

impl EventSequence {
    #[verifier::type_invariant]
    spec fn is_nonzero(self) -> bool {
        self.raw != 0
    }

    /// Numeric value of the identity.
    pub closed spec fn value(self) -> u64 {
        self.raw
    }

    /// The identity with numeric value `raw`.
    pub closed spec fn of(raw: u64) -> Self {
        EventSequence { raw }
    }

    /// An identity and its numeric value determine each other.
    pub broadcast proof fn value_of(raw: u64)
        ensures
            #[trigger] Self::of(raw).value() == raw,
    {
    }

    /// Rebuilding an identity from its numeric value gives it back.
    pub broadcast proof fn of_value(self)
        ensures
            Self::of(#[trigger] self.value()) == self,
    {
    }

    /// Creates a nonzero identity.
    pub fn new(raw: u64) -> (identity: Option<Self>)
        ensures
            identity == if raw == 0 {
                None
            } else {
                Some(Self::of(raw))
            },
    {
        if raw == 0 {
            None
        } else {
            Some(EventSequence { raw })
        }
    }

    /// Returns the numeric representation, which is never zero.
    pub fn get(self) -> (raw: u64)
        ensures
            raw == self.value(),
            raw != 0,
    {
        proof {
            use_type_invariant(&self);
        }
        self.raw
    }
}

/// Exact context and generation of one navigation.
#[derive(Clone, Copy, Debug, PartialEq, Eq, Ord, Hash, Structural)]
pub struct NavigationId {
    context: TopLevelContextId,
    generation: NavigationGeneration,
}

impl NavigationId {
    /// Context of the navigation, in specifications.
    pub closed spec fn context_of(self) -> TopLevelContextId {
        self.context
    }

    /// Generation of the navigation, in specifications.
    pub closed spec fn generation_of(self) -> NavigationGeneration {
        self.generation
    }

    /// The navigation with the given context and generation.
    pub closed spec fn of(context: TopLevelContextId, generation: NavigationGeneration) -> Self {
        NavigationId { context, generation }
    }

    /// Context and generation are exactly what a navigation was made from.
    pub broadcast proof fn parts_of(context: TopLevelContextId, generation: NavigationGeneration)
        ensures
            (#[trigger] Self::of(context, generation)).context_of() == context,
            Self::of(context, generation).generation_of() == generation,
    {
    }

    /// Two navigations with the same context and generation are the same.
    pub proof fn same_parts(self, other: Self)
        requires
            self.context_of() == other.context_of(),
            self.generation_of() == other.generation_of(),
        ensures
            self == other,
    {
    }

    /// Creates a typed navigation identity.
    pub fn new(context: TopLevelContextId, generation: NavigationGeneration) -> (navigation: Self)
        ensures
            navigation == Self::of(context, generation),
            navigation.context_of() == context,
            navigation.generation_of() == generation,
    {
        NavigationId { context, generation }
    }

    /// Returns the top-level context.
    pub fn context(self) -> (context: TopLevelContextId)
        ensures
            context == self.context_of(),
    {
        self.context
    }

    /// Returns the context-local generation.
    pub fn generation(self) -> (generation: NavigationGeneration)
        ensures
            generation == self.generation_of(),
    {
        self.generation
    }
}

/// Navigations are ordered by their context, and within a context by their
/// generation.
impl PartialOrd for NavigationId {
    fn partial_cmp(&self, other: &Self) -> (order: Option<std::cmp::Ordering>) {
        if self.context.raw < other.context.raw {
            Some(std::cmp::Ordering::Less)
        } else if self.context.raw > other.context.raw {
            Some(std::cmp::Ordering::Greater)
        } else if self.generation.raw < other.generation.raw {
            Some(std::cmp::Ordering::Less)
        } else if self.generation.raw > other.generation.raw {
            Some(std::cmp::Ordering::Greater)
        } else {
            Some(std::cmp::Ordering::Equal)
        }
    }
}

impl vstd::std_specs::cmp::PartialOrdSpecImpl for NavigationId {
    open spec fn obeys_partial_cmp_spec() -> bool {
        true
    }

    open spec fn partial_cmp_spec(&self, other: &Self) -> Option<std::cmp::Ordering> {
        let (context, generation) = (self.context_of().value(), self.generation_of().value());
        let (other_context, other_generation) = (
            other.context_of().value(),
            other.generation_of().value(),
        );
        if context < other_context || (context == other_context && generation < other_generation) {
            Some(std::cmp::Ordering::Less)
        } else if context == other_context && generation == other_generation {
            Some(std::cmp::Ordering::Equal)
        } else {
            Some(std::cmp::Ordering::Greater)
        }
    }
}

/// Worker-scoped, never-reused identity for one admitted document operation.
///
/// It is not a navigation generation: equality also includes the engine owner
/// that issued it, so the numeric projection is for diagnostics only.
#[derive(Clone, Copy, Debug, PartialEq, Eq, PartialOrd, Ord, Hash, Structural)]
pub struct DocumentOperationId {
    owner: u64,
    sequence: u64,
}

impl DocumentOperationId {
    /// Engine owner that issued the operation, in specifications.
    pub closed spec fn owner_of(self) -> u64 {
        self.owner
    }

    /// Worker-local sequence of the operation, in specifications.
    pub closed spec fn sequence_of(self) -> u64 {
        self.sequence
    }

    /// The operation with the given owner and sequence.
    pub closed spec fn of(owner: u64, sequence: u64) -> Self {
        DocumentOperationId { owner, sequence }
    }

    /// Owner and sequence are exactly what an operation was made from.
    pub broadcast proof fn parts_of(owner: u64, sequence: u64)
        ensures
            (#[trigger] Self::of(owner, sequence)).owner_of() == owner,
            Self::of(owner, sequence).sequence_of() == sequence,
    {
    }

    /// Creates an operation identity from its owner and sequence.
    pub fn new(owner: u64, sequence: u64) -> (operation: Self)
        ensures
            operation == Self::of(owner, sequence),
    {
        DocumentOperationId { owner, sequence }
    }

    /// Returns the opaque worker-local sequence for diagnostics.
    pub fn get(self) -> (sequence: u64)
        ensures
            sequence == self.sequence_of(),
    {
        self.sequence
    }
}

/// Exact revision of one document.
#[derive(Clone, Copy, Debug, PartialEq, Eq, PartialOrd, Ord, Hash, Structural)]
pub struct DocumentVersion {
    /// Identity of the document.
    pub document_id: u64,
    /// Revision of that document.
    pub revision: u64,
}

/// Identity of one node of one document.
#[derive(Clone, Copy, Debug, PartialEq, Eq, PartialOrd, Ord, Hash, Structural)]
pub struct NodeId {
    /// Document that owns the node.
    pub document_id: u64,
    /// Node index within the document.
    pub index: u64,
}

/// Takes the next never-reused owner identity out of `counter`.
///
/// The counter never wraps: at its greatest value, and at zero, no identity is
/// handed out.
pub fn allocate_owner_from(counter: &mut u64) -> (owner: Option<u64>)
    ensures
        *final(counter) == if *old(counter) == u64::MAX {
            u64::MAX
        } else {
            (*old(counter) + 1) as u64
        },
        owner == if *old(counter) == u64::MAX || *old(counter) == 0 {
            None
        } else {
            Some(*old(counter))
        },
{
    let raw: u64 = *counter;
    if raw == u64::MAX {
        return None;
    }
    *counter = raw + 1;
    if raw == 0 {
        None
    } else {
        Some(raw)
    }
}

} // verus!
