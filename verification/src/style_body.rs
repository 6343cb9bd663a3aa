//! Bounded reading of one response body.

use vstd::prelude::*;

use crate::style_fetch::{StyleFetchLimit, StyleFetchRejection, BODY_READ_CHUNK_BYTES};

verus! {

/// How a body ends.
#[derive(Clone, Copy, Debug, PartialEq, Eq, Structural)]
pub enum BodyFraming {
    /// There is no body.
    Absent,
    /// The body has this length.
    ContentLength(u64),
    /// The body comes in chunks.
    Chunked,
    /// The body ends with the connection.
    ConnectionClose,
}

/// Bounds of one body.
#[derive(Clone, Copy, Debug, PartialEq, Eq, Structural)]
pub struct BodyBounds {
    /// Bytes of this body.
    pub per_response: usize,
    /// Bytes of all bodies before this one.
    pub prior_aggregate: usize,
    /// Bytes of all bodies together.
    pub aggregate: usize,
}

impl BodyBounds {
    /// Why a body of this length is refused.
    pub open spec fn rejection(self, length: nat) -> Option<StyleFetchRejection> {
        if length > self.per_response {
            Some(StyleFetchRejection::Limit(StyleFetchLimit::ResponseBodyBytes))
        } else if self.prior_aggregate + length > usize::MAX {
            Some(StyleFetchRejection::CounterOverflow)
        } else if self.prior_aggregate + length > self.aggregate {
            Some(StyleFetchRejection::Limit(StyleFetchLimit::AggregateBodyBytes))
        } else {
            None
        }
    }

    /// Refuses a body of this length, or not.
    pub fn check(self, length: usize) -> (result: Result<(), StyleFetchRejection>)
        ensures
            result == match self.rejection(length as nat) {
                Some(rejection) => Err(rejection),
                None => Ok(()),
            },
    {
        if length > self.per_response {
            return Err(StyleFetchRejection::Limit(StyleFetchLimit::ResponseBodyBytes));
        }
        match self.prior_aggregate.checked_add(length) {
            None => Err(StyleFetchRejection::CounterOverflow),
            Some(total) => {
                if total > self.aggregate {
                    Err(StyleFetchRejection::Limit(StyleFetchLimit::AggregateBodyBytes))
                } else {
                    Ok(())
                }
            },
        }
    }
}

/// A body that is being read.
#[derive(Debug)]
pub struct BoundedBody {
    bounds: BodyBounds,
    retained: Vec<u8>,
}

/// Least of a length and what remains, with one more byte to see an excess.
pub open spec fn one_more(remaining: int) -> int {
    if remaining < 0 {
        1
    } else if remaining + 1 > usize::MAX {
        usize::MAX as int
    } else {
        remaining + 1
    }
}

/// The lesser of two numbers.
pub open spec fn lesser(left: int, right: int) -> int {
    if left < right {
        left
    } else {
        right
    }
}

impl BoundedBody {
    /// What was read so far, in specifications.
    pub closed spec fn content(self) -> Seq<u8> {
        self.retained@
    }

    /// Bounds, in specifications.
    pub closed spec fn bounds_of(self) -> BodyBounds {
        self.bounds
    }

    #[verifier::type_invariant]
    spec fn type_inv(self) -> bool {
        self.retained@.len() > 0 ==> self.bounds.rejection(self.retained@.len()) is None
    }

    /// Starts to read a body; an announced length over a bound is refused
    /// before anything is read.
    pub fn begin(framing: BodyFraming, bounds: BodyBounds) -> (result: Result<
        Self,
        StyleFetchRejection,
    >)
        ensures
            match framing {
                BodyFraming::ContentLength(length) => match bounds.rejection(length as nat) {
                    Some(rejection) => result == Err::<Self, _>(rejection),
                    None => match result {
                        Ok(body) => body.content() == Seq::<u8>::empty() && body.bounds_of()
                            == bounds,
                        Err(rejection) => rejection == StyleFetchRejection::AllocationFailed
                            && length > 0,
                    },
                },
                _ => result matches Ok(body) && body.content() == Seq::<u8>::empty()
                    && body.bounds_of() == bounds,
            },
    {
        let mut retained: Vec<u8> = Vec::new();
        if let BodyFraming::ContentLength(length) = framing {
            if length > usize::MAX as u64 {
                return Err(StyleFetchRejection::Limit(StyleFetchLimit::ResponseBodyBytes));
            }
            let length: usize = length as usize;
            match bounds.check(length) {
                Ok(()) => {},
                Err(rejection) => return Err(rejection),
            }
            if length > 0 && retained.try_reserve(length).is_err() {
                return Err(StyleFetchRejection::AllocationFailed);
            }
        }
        Ok(BoundedBody { bounds, retained })
    }

    /// How many bytes may be read at once: never more than one past a bound.
    pub open spec fn permitted_of(self) -> int {
        let bounds = self.bounds_of();
        let read = self.content().len();
        lesser(
            BODY_READ_CHUNK_BYTES as int,
            lesser(
                one_more(bounds.per_response - read),
                one_more(bounds.aggregate - (bounds.prior_aggregate + read)),
            ),
        )
    }

    /// Tells how many bytes may be read at once.
    pub fn permitted(&self) -> (result: Result<usize, StyleFetchRejection>)
        ensures
            match result {
                Ok(permitted) => permitted == self.permitted_of() && 1 <= permitted
                    <= BODY_READ_CHUNK_BYTES,
                Err(rejection) => rejection == StyleFetchRejection::CounterOverflow
                    && self.bounds_of().prior_aggregate + self.content().len() > usize::MAX,
            },
    {
        let read: usize = self.retained.len();
        let response_remaining: usize = self.bounds.per_response.saturating_sub(read);
        let used: usize = match self.bounds.prior_aggregate.checked_add(read) {
            Some(used) => used,
            None => return Err(StyleFetchRejection::CounterOverflow),
        };
        let aggregate_remaining: usize = self.bounds.aggregate.saturating_sub(used);
        let mut permitted: usize = BODY_READ_CHUNK_BYTES;
        let by_response: usize = response_remaining.saturating_add(1);
        if by_response < permitted {
            permitted = by_response;
        }
        let by_aggregate: usize = aggregate_remaining.saturating_add(1);
        if by_aggregate < permitted {
            permitted = by_aggregate;
        }
        Ok(permitted)
    }

    /// Takes a chunk that was read; an empty one ends the body.
    pub fn accept(&mut self, chunk: &[u8]) -> (result: Result<bool, StyleFetchRejection>)
        ensures
            final(self).bounds_of() == old(self).bounds_of(),
            result is Err ==> final(self).content() == old(self).content(),
            if chunk@.len() == 0 {
                result == Ok::<bool, StyleFetchRejection>(true) && final(self).content() == old(
                    self,
                ).content()
            } else if old(self).content().len() + chunk@.len() > usize::MAX {
                result == Err::<bool, _>(StyleFetchRejection::CounterOverflow)
            } else {
                match old(self).bounds_of().rejection(old(self).content().len() + chunk@.len()) {
                    Some(rejection) => result == Err::<bool, _>(rejection),
                    None => match result {
                        Ok(ended) => !ended && final(self).content() == old(self).content()
                            + chunk@,
                        Err(rejection) => rejection == StyleFetchRejection::AllocationFailed,
                    },
                }
            },
    {
        if chunk.len() == 0 {
            return Ok(true);
        }
        let next: usize = match self.retained.len().checked_add(chunk.len()) {
            Some(next) => next,
            None => return Err(StyleFetchRejection::CounterOverflow),
        };
        match self.bounds.check(next) {
            Ok(()) => {},
            Err(rejection) => return Err(rejection),
        }
        let bounds: BodyBounds = self.bounds;
        let mut longer: Vec<u8> = Vec::new();
        proof {
            use_type_invariant(&*self);
        }
        std::mem::swap(&mut self.retained, &mut longer);
        if longer.try_reserve(chunk.len()).is_err() {
            self.retained = longer;
            return Err(StyleFetchRejection::AllocationFailed);
        }
        let ghost before = longer@;
        longer.extend_from_slice(chunk);
        assert(longer@ =~= before + chunk@);
        self.retained = longer;
        Ok(false)
    }

    /// Ends reading.
    pub fn finish(self) -> (content: Vec<u8>)
        ensures
            content@ == self.content(),
            content@.len() > 0 ==> self.bounds_of().rejection(content@.len()) is None,
    {
        proof {
            use_type_invariant(&self);
        }
        self.retained
    }
}

} // verus!
