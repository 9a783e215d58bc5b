//! The bounds of a frozen-policy run.

use crate::error::{policy_message, NativeTacticPolicyRunError};
use vstd::prelude::*;

verus! {

/// The most greedy decisions one policy run may take.
pub const MAX_GREEDY_DECISIONS: u64 = 100_000;

/// A policy run takes at least one greedy decision, at most
/// `MAX_GREEDY_DECISIONS`, and no more than the request's candidate budget.
pub fn validate_policy_decision_bound(
    maximum_decisions: u64,
    candidate_budget: u64,
) -> (r: Result<(), NativeTacticPolicyRunError>)
    ensures
        r is Ok <==> 0 < maximum_decisions <= MAX_GREEDY_DECISIONS && maximum_decisions <= candidate_budget,
        r matches Err(e) ==> e.0@ == "native tactic policy configuration is invalid"@,
{
    if maximum_decisions == 0 || maximum_decisions > MAX_GREEDY_DECISIONS || maximum_decisions > candidate_budget {
        return Err(policy_message("native tactic policy configuration is invalid"));
    }
    Ok(())
}

} // verus!
