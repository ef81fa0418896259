//! The outcome of evaluating an access policy.

use vstd::prelude::*;

verus! {

/// The outcome of an [`AccessPolicy::check`](crate::AccessPolicy::check) call.
///
/// Distinguishes between a missing principal (unauthenticated request) and a principal that is
/// present but does not satisfy the policy.
#[derive(Debug, Clone, Copy, PartialEq, Eq, Structural)]
pub enum LayeCheckResult {
    /// The principal satisfies the policy: allow the request.
    Authorized,
    /// No principal was present. Maps to HTTP **401 Unauthorized**.
    Unauthorized,
    /// A principal was present but does not meet the policy's requirements.
    /// Maps to HTTP **403 Forbidden**.
    Forbidden,
}

/// The answer given to a request that a policy turns down: `Forbidden` when a principal was
/// present, `Unauthorized` when there was none.
pub open spec fn refusal(present: bool) -> LayeCheckResult {
    if present {
        LayeCheckResult::Forbidden
    } else {
        LayeCheckResult::Unauthorized
    }
}

/// Whether `result` is an answer that a condition may give, where `may_pass` says that the
/// condition may pass and `may_fail` that it may fail, for a request with or without a principal.
pub open spec fn answer_allowed(may_pass: bool, may_fail: bool, present: bool, result: LayeCheckResult) -> bool {
    ||| (result == LayeCheckResult::Authorized && may_pass)
    ||| (result == refusal(present) && may_fail)
}

impl LayeCheckResult {
    /// The answer for a condition that `passed` (or not), on a request that carried a principal
    /// (`present`) or not.
    pub fn from_outcome(passed: bool, present: bool) -> (res: LayeCheckResult)
        ensures
            res == (if passed { LayeCheckResult::Authorized } else { refusal(present) }),
    {
        if passed {
            LayeCheckResult::Authorized
        } else if present {
            LayeCheckResult::Forbidden
        } else {
            LayeCheckResult::Unauthorized
        }
    }

    /// Returns `true` for [`Authorized`](LayeCheckResult::Authorized).
    pub fn is_authorized(&self) -> (b: bool)
        ensures
            b == (*self == LayeCheckResult::Authorized),
    {
        match self {
            LayeCheckResult::Authorized => true,
            _ => false,
        }
    }
}

} // verus!
