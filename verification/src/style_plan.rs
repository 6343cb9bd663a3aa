//! Plans of external stylesheets that one document asks for.

use vstd::prelude::*;

use crate::commit::NavigationCommitMetadata;
use crate::identity::{DocumentVersion, NodeId};
use crate::style_fetch::StyleFetchRejection;
use crate::style_policy::StylePolicyDecision;

verus! {

/// One admitted stylesheet request.
#[derive(Debug)]
pub struct StyleResourceRequestIdentity {
    /// Document revision that asks.
    pub document_version: DocumentVersion,
    /// Link node that asks.
    pub owner: NodeId,
    /// Canonical URL.
    pub canonical_url: String,
    /// What policies decided.
    pub policy_decision: StylePolicyDecision,
}

/// What became of a candidate.
#[derive(Clone, Copy, Debug, PartialEq, Eq, Structural)]
pub enum StyleResourceCandidateStatus {
    /// The candidate became a request.
    Admitted {
        /// Index of the request.
        request_index: usize,
    },
    /// The candidate became none.
    Refused,
}

/// One link that might ask for a stylesheet.
#[derive(Clone, Copy, Debug, PartialEq, Eq, Structural)]
pub struct StyleResourceCandidate {
    /// Document revision that holds the link.
    pub document_version: DocumentVersion,
    /// Link node.
    pub owner: NodeId,
    /// What became of the candidate.
    pub status: StyleResourceCandidateStatus,
    /// What policies decided, if they were asked.
    pub policy_decision: Option<StylePolicyDecision>,
}

/// Immutable plan of the stylesheets that one document asks for.
pub struct StyleResourcePlan {
    /// Document revision that asks.
    pub document_version: DocumentVersion,
    /// Commitment of the document's response.
    pub navigation_commit: NavigationCommitMetadata,
    /// Candidates in document order.
    pub candidates: Vec<StyleResourceCandidate>,
    /// Requests in document order.
    pub requests: Vec<StyleResourceRequestIdentity>,
    /// Number of enforcing policies.
    pub enforcing_policy_count: usize,
}

/// Number of admitted candidates among the first `count`.
pub open spec fn admitted_among(candidates: Seq<StyleResourceCandidate>, count: int) -> nat
    decreases count,
{
    if count <= 0 {
        0
    } else {
        admitted_among(candidates, count - 1) + if candidates[count - 1].status is Admitted {
            1nat
        } else {
            0nat
        }
    }
}

impl StyleResourcePlan {
    /// Whether a candidate belongs to the plan's document and, if admitted, is
    /// the next request.
    pub open spec fn candidate_fits(self, index: int) -> bool {
        let candidate = self.candidates@[index];
        &&& candidate.document_version == self.document_version
        &&& candidate.owner.document_id == self.document_version.document_id
        &&& candidate.status matches StyleResourceCandidateStatus::Admitted { request_index } ==> {
            &&& request_index == admitted_among(self.candidates@, index)
            &&& request_index < self.requests@.len()
            &&& {
                let request = self.requests@[request_index as int];
                &&& request.document_version == candidate.document_version
                &&& request.owner == candidate.owner
                &&& candidate.policy_decision == Some(request.policy_decision)
            }
        }
    }

    /// Whether requests are exactly the admitted candidates, in order.
    pub open spec fn coherent(self) -> bool {
        &&& forall|i: int| 0 <= i < self.candidates@.len() ==> #[trigger] self.candidate_fits(i)
        &&& admitted_among(self.candidates@, self.candidates@.len() as int) == self.requests@.len()
    }
}

/// Refuses a plan whose requests are not its admitted candidates, in order.
pub fn validate_plan_topology(plan: &StyleResourcePlan) -> (result: Result<(), StyleFetchRejection>)
    ensures
        result == if plan.coherent() {
            Ok(())
        } else {
            Err(StyleFetchRejection::PlanOwnership)
        },
{
    let mut expected: usize = 0;
    let mut at: usize = 0;
    while at < plan.candidates.len()
        invariant
            at <= plan.candidates@.len(),
            expected == admitted_among(plan.candidates@, at as int),
            expected <= at,
            forall|i: int| 0 <= i < at ==> #[trigger] plan.candidate_fits(i),
        decreases plan.candidates@.len() - at,
    {
        let candidate = plan.candidates[at];
        if candidate.document_version != plan.document_version || candidate.owner.document_id
            != plan.document_version.document_id {
            assert(!plan.candidate_fits(at as int));
            return Err(StyleFetchRejection::PlanOwnership);
        }
        if let StyleResourceCandidateStatus::Admitted { request_index } = candidate.status {
            if request_index != expected || request_index >= plan.requests.len() {
                assert(!plan.candidate_fits(at as int));
                return Err(StyleFetchRejection::PlanOwnership);
            }
            let request = &plan.requests[request_index];
            let agrees: bool = match candidate.policy_decision {
                Some(decision) => decision == request.policy_decision,
                None => false,
            };
            if request.document_version != candidate.document_version || request.owner
                != candidate.owner || !agrees {
                assert(!plan.candidate_fits(at as int));
                return Err(StyleFetchRejection::PlanOwnership);
            }
            expected += 1;
        }
        assert(plan.candidate_fits(at as int));
        at += 1;
    }
    if expected != plan.requests.len() {
        return Err(StyleFetchRejection::PlanOwnership);
    }
    Ok(())
}

} // verus!
