//! What each rule answers, in terms of the principal's own answers.
//!
//! Each law takes the policy that `AccessPolicy::require_all().add_rule(rule)` builds and
//! says which results `check` may give for it, for every requester: no principal, plain
//! credentials, or a caller's own principal (whose answers are those its methods gave).

use vstd::prelude::*;

use crate::policy::{CheckSpec, CustomFn, PolicySpec, RuleSpec};
use crate::principal::{
    answers_of, auth_answer, caller, custom_answer, permission_answer, role_answer, PrincipalRef,
    Requester,
};
use crate::result::LayeCheckResult;

verus! {

/// The policy `AccessPolicy::require_all().add_rule(rule)`.
pub open spec fn single(rule: RuleSpec) -> PolicySpec {
    PolicySpec { require_all: true, checks: Seq::empty().push(CheckSpec::Rule(rule)) }
}

proof fn lemma_single(rule: RuleSpec, pr: Option<Requester>)
    ensures
        single(rule).may_pass(pr) == rule.may_pass(pr),
        single(rule).may_fail(pr) == rule.may_fail(pr),
{
    let checks = single(rule).checks;
    assert(checks.drop_last() =~= Seq::<CheckSpec>::empty());
    assert(checks.last() == CheckSpec::Rule(rule));
}

/// `Role(r)`: without a principal the answer is `Unauthorized`; with one, `Authorized`
/// exactly when `has_role(r)` answered `true` and `Forbidden` exactly when it answered
/// `false`. No other question to the principal (its permissions, whether it is
/// authenticated) enters the answer.
pub proof fn lemma_role_rule(r: Seq<char>, pr: Option<Requester>, res: LayeCheckResult)
    ensures
        single(RuleSpec::Role(r)).allows_answer(pr, res) <==> match pr {
            None => res == LayeCheckResult::Unauthorized,
            Some(q) => (res == LayeCheckResult::Authorized && (q.roles)(r, true)) || (res
                == LayeCheckResult::Forbidden && (q.roles)(r, false)),
        },
{
    lemma_single(RuleSpec::Role(r), pr);
}

/// `NotRole(r)`: without a principal `Unauthorized`; with one, `Authorized` exactly when
/// `has_role(r)` answered `false` and `Forbidden` exactly when it answered `true`.
pub proof fn lemma_not_role_rule(r: Seq<char>, pr: Option<Requester>, res: LayeCheckResult)
    ensures
        single(RuleSpec::NotRole(r)).allows_answer(pr, res) <==> match pr {
            None => res == LayeCheckResult::Unauthorized,
            Some(q) => (res == LayeCheckResult::Authorized && (q.roles)(r, false)) || (res
                == LayeCheckResult::Forbidden && (q.roles)(r, true)),
        },
{
    lemma_single(RuleSpec::NotRole(r), pr);
}

/// `Permission(s)`: without a principal `Unauthorized`; with one, `Authorized` exactly when
/// `has_permission(s)` answered `true` and `Forbidden` exactly when it answered `false`.
pub proof fn lemma_permission_rule(s: Seq<char>, pr: Option<Requester>, res: LayeCheckResult)
    ensures
        single(RuleSpec::Permission(s)).allows_answer(pr, res) <==> match pr {
            None => res == LayeCheckResult::Unauthorized,
            Some(q) => (res == LayeCheckResult::Authorized && (q.permissions)(s, true)) || (res
                == LayeCheckResult::Forbidden && (q.permissions)(s, false)),
        },
{
    lemma_single(RuleSpec::Permission(s), pr);
}

/// `NotPermission(s)`: without a principal `Unauthorized`; with one, `Authorized` exactly
/// when `has_permission(s)` answered `false` and `Forbidden` exactly when it answered `true`.
pub proof fn lemma_not_permission_rule(s: Seq<char>, pr: Option<Requester>, res: LayeCheckResult)
    ensures
        single(RuleSpec::NotPermission(s)).allows_answer(pr, res) <==> match pr {
            None => res == LayeCheckResult::Unauthorized,
            Some(q) => (res == LayeCheckResult::Authorized && (q.permissions)(s, false)) || (res
                == LayeCheckResult::Forbidden && (q.permissions)(s, true)),
        },
{
    lemma_single(RuleSpec::NotPermission(s), pr);
}

/// `Authenticated`: without a principal `Unauthorized`; with one, `Authorized` exactly when
/// `is_authenticated` answered `true` and `Forbidden` exactly when it answered `false`. The
/// principal's roles and permissions do not enter the answer.
pub proof fn lemma_authenticated_rule(pr: Option<Requester>, res: LayeCheckResult)
    ensures
        single(RuleSpec::Authenticated).allows_answer(pr, res) <==> match pr {
            None => res == LayeCheckResult::Unauthorized,
            Some(q) => (res == LayeCheckResult::Authorized && (q.authenticated)(true)) || (res
                == LayeCheckResult::Forbidden && (q.authenticated)(false)),
        },
{
    lemma_single(RuleSpec::Authenticated, pr);
}

/// `Guest`: without a principal `Authorized`; with one, `Authorized` exactly when
/// `is_authenticated` answered `false` and `Forbidden` exactly when it answered `true`.
pub proof fn lemma_guest_rule(pr: Option<Requester>, res: LayeCheckResult)
    ensures
        single(RuleSpec::Guest).allows_answer(pr, res) <==> match pr {
            None => res == LayeCheckResult::Authorized,
            Some(q) => (res == LayeCheckResult::Authorized && (q.authenticated)(false)) || (res
                == LayeCheckResult::Forbidden && (q.authenticated)(true)),
        },
{
    lemma_single(RuleSpec::Guest, pr);
}

/// `Custom(f)`: `Authorized` exactly when `f`, called on the request's principal (`None`
/// when there is none), answered `true`; otherwise `Unauthorized` without a principal and
/// `Forbidden` with one, exactly when `f` answered `false`. Nothing else about the principal
/// enters the answer.
pub proof fn lemma_custom_rule(f: CustomFn, pr: Option<Requester>, res: LayeCheckResult)
    ensures
        single(RuleSpec::Custom(f)).allows_answer(pr, res) <==> match pr {
            None => (res == LayeCheckResult::Authorized && custom_answer(f, None, true)) || (res
                == LayeCheckResult::Unauthorized && custom_answer(f, None, false)),
            Some(q) => (res == LayeCheckResult::Authorized && (q.closures)(f, true)) || (res
                == LayeCheckResult::Forbidden && (q.closures)(f, false)),
        },
{
    lemma_single(RuleSpec::Custom(f), pr);
}

/// For a caller's own principal `p`, the answers the rules go by are exactly those that its
/// `has_role`, `has_permission` and `is_authenticated` gave, and those that a closure gave
/// when called on `p`.
pub proof fn lemma_caller_answers(p: PrincipalRef, name: Seq<char>, f: CustomFn, b: bool)
    ensures
        caller(Some(p)) == Some(answers_of(p)),
        (answers_of(p).roles)(name, b) == role_answer(p, name, b),
        (answers_of(p).permissions)(name, b) == permission_answer(p, name, b),
        (answers_of(p).authenticated)(b) == auth_answer(p, b),
        (answers_of(p).closures)(f, b) == custom_answer(f, Some(p), b),
{
}

} // verus!
