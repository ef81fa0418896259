//! What holds of every policy: the laws that the evaluation keeps.

use vstd::prelude::*;

use crate::policy::{
    all_decided, and_may_fail, and_may_pass, or_may_fail, or_may_pass, CheckSpec, PolicySpec,
    RuleSpec,
};
use crate::error::{answer_of, status_of, LayeError};
use crate::principal::{settled, Requester};
use crate::result::{refusal, LayeCheckResult};

verus! {

/// A condition without custom closures, put to a requester whose every question has one
/// answer, either passes or fails, never both.
pub proof fn lemma_check_decided(c: CheckSpec, pr: Option<Requester>)
    requires
        c.decided(),
        settled(pr),
    ensures
        c.may_pass(pr) != c.may_fail(pr),
    decreases c,
{
    match c {
        CheckSpec::Rule(r) => {},
        CheckSpec::Nested(p) => lemma_policy_decided(p, pr),
    }
}

/// A policy without custom closures (at any depth), evaluated with no principal or with one
/// whose every question has one answer (as for [`Credentials`](crate::Credentials), or any
/// principal whose methods always answer the same), has exactly one answer: it either passes
/// or fails, never both.
pub proof fn lemma_policy_decided(p: PolicySpec, pr: Option<Requester>)
    requires
        p.decided(),
        settled(pr),
    ensures
        p.may_pass(pr) != p.may_fail(pr),
    decreases p,
{
    lemma_checks_decided(p.checks, pr);
}

/// Conditions without custom closures, put to a requester whose every question has one
/// answer, give one answer in order, under AND and under OR.
pub proof fn lemma_checks_decided(checks: Seq<CheckSpec>, pr: Option<Requester>)
    requires
        all_decided(checks),
        settled(pr),
    ensures
        and_may_pass(checks, pr) != and_may_fail(checks, pr),
        or_may_pass(checks, pr) != or_may_fail(checks, pr),
    decreases checks,
{
    if checks.len() > 0 {
        lemma_checks_decided(checks.drop_last(), pr);
        lemma_check_decided(checks.last(), pr);
    }
}

/// Every condition without custom closures, put to a requester whose every question has one
/// answer, has a possible answer.
pub proof fn lemma_check_answers(c: CheckSpec, pr: Option<Requester>)
    requires
        c.decided(),
        settled(pr),
    ensures
        c.may_pass(pr) || c.may_fail(pr),
    decreases c,
{
    match c {
        CheckSpec::Rule(r) => {},
        CheckSpec::Nested(p) => lemma_policy_answers(p, pr),
    }
}

/// Every policy without custom closures, put to a requester whose every question has one
/// answer, has a possible answer: evaluation ends in `Authorized` or in a refusal. (What a
/// closure or a caller's own principal answers is whatever it gave.)
pub proof fn lemma_policy_answers(p: PolicySpec, pr: Option<Requester>)
    requires
        p.decided(),
        settled(pr),
    ensures
        p.may_pass(pr) || p.may_fail(pr),
    decreases p,
{
    lemma_checks_answer(p.checks, pr);
}

/// Conditions without custom closures, evaluated in order for a requester whose every
/// question has one answer, reach an answer, under AND and under OR.
pub proof fn lemma_checks_answer(checks: Seq<CheckSpec>, pr: Option<Requester>)
    requires
        all_decided(checks),
        settled(pr),
    ensures
        and_may_pass(checks, pr) || and_may_fail(checks, pr),
        or_may_pass(checks, pr) || or_may_fail(checks, pr),
    decreases checks,
{
    if checks.len() > 0 {
        lemma_checks_answer(checks.drop_last(), pr);
        lemma_check_answers(checks.last(), pr);
    }
}

/// A request without a principal is never answered `Forbidden`, and one with a principal is
/// never answered `Unauthorized`: 401 means "no principal", 403 means "principal refused".
pub proof fn lemma_refusal_matches_presence(
    p: PolicySpec,
    pr: Option<Requester>,
    result: LayeCheckResult,
)
    requires
        p.allows_answer(pr, result),
    ensures
        pr is None ==> result != LayeCheckResult::Forbidden,
        pr is Some ==> result != LayeCheckResult::Unauthorized,
{
}

/// An empty AND policy authorizes every request; an empty OR policy refuses every request,
/// with `Unauthorized` when there is no principal and `Forbidden` when there is one.
pub proof fn lemma_empty_policies(pr: Option<Requester>)
    ensures
        (PolicySpec { require_all: true, checks: Seq::empty() }).decided(),
        (PolicySpec { require_all: true, checks: Seq::empty() }).answer(pr)
            == LayeCheckResult::Authorized,
        (PolicySpec { require_all: false, checks: Seq::empty() }).decided(),
        (PolicySpec { require_all: false, checks: Seq::empty() }).answer(pr) == refusal(pr is Some),
{
}

/// Appending a condition `c` (a rule or a nested policy) to a policy `p`: under AND the new
/// policy passes when `p` passes and then `c` passes, and fails when `p` fails or `c` fails
/// after `p` passed; under OR it passes when `p` passes or `c` passes after `p` failed, and
/// fails when both fail. For policies without custom closures and a requester whose every question has one answer:
/// AND of the two, OR of the two.
pub proof fn lemma_append_condition(p: PolicySpec, c: CheckSpec, pr: Option<Requester>)
    ensures
        ({
            let q = PolicySpec { require_all: p.require_all, checks: p.checks.push(c) };
            &&& p.require_all ==> q.may_pass(pr) == (p.may_pass(pr) && c.may_pass(pr))
            &&& p.require_all ==> q.may_fail(pr) == (p.may_fail(pr) || (p.may_pass(pr) && c.may_fail(pr)))
            &&& !p.require_all ==> q.may_pass(pr) == (p.may_pass(pr) || (p.may_fail(pr) && c.may_pass(pr)))
            &&& !p.require_all ==> q.may_fail(pr) == (p.may_fail(pr) && c.may_fail(pr))
            &&& (p.decided() && c.decided()) ==> q.decided()
            &&& (p.decided() && c.decided() && settled(pr) && p.require_all) ==> (q.answer(pr)
                == LayeCheckResult::Authorized) == (p.answer(pr) == LayeCheckResult::Authorized
                && c.may_pass(pr))
            &&& (p.decided() && c.decided() && settled(pr) && !p.require_all) ==> (q.answer(pr)
                == LayeCheckResult::Authorized) == (p.answer(pr) == LayeCheckResult::Authorized
                || c.may_pass(pr))
        }),
{
    let q = PolicySpec { require_all: p.require_all, checks: p.checks.push(c) };
    assert(q.checks.drop_last() =~= p.checks);
    assert(q.checks.last() == c);
    if p.decided() && c.decided() && settled(pr) {
        lemma_policy_decided(p, pr);
        lemma_check_decided(c, pr);
    }
}

/// A nested policy counts as one condition of its parent: it passes exactly when the nested
/// policy passes.
pub proof fn lemma_nested_is_one_condition(p: PolicySpec, pr: Option<Requester>)
    ensures
        CheckSpec::Nested(p).may_pass(pr) == p.may_pass(pr),
        CheckSpec::Nested(p).may_fail(pr) == p.may_fail(pr),
        CheckSpec::Nested(p).decided() == p.decided(),
{
}

/// `Guest` may pass exactly when `Authenticated` may fail and the other way round, with or
/// without a principal: both go by the same answer of `is_authenticated`.
pub proof fn lemma_guest_is_not_authenticated(pr: Option<Requester>)
    ensures
        RuleSpec::Guest.may_pass(pr) == RuleSpec::Authenticated.may_fail(pr),
        RuleSpec::Guest.may_fail(pr) == RuleSpec::Authenticated.may_pass(pr),
{
}

/// With a principal, `NotRole(r)` may pass exactly when `Role(r)` may fail and the other way
/// round (both go by the same answer of `has_role(r)`), and the same for permissions; without
/// a principal all four fail.
pub proof fn lemma_absence_rules(name: Seq<char>, pr: Option<Requester>)
    ensures
        pr is Some ==> RuleSpec::NotRole(name).may_pass(pr) == RuleSpec::Role(name).may_fail(pr)
            && RuleSpec::NotRole(name).may_fail(pr) == RuleSpec::Role(name).may_pass(pr),
        pr is Some ==> RuleSpec::NotPermission(name).may_pass(pr)
            == RuleSpec::Permission(name).may_fail(pr) && RuleSpec::NotPermission(name).may_fail(
            pr,
        ) == RuleSpec::Permission(name).may_pass(pr),
        pr is None ==> !RuleSpec::Role(name).may_pass(pr) && !RuleSpec::NotRole(name).may_pass(pr)
            && !RuleSpec::Permission(name).may_pass(pr) && !RuleSpec::NotPermission(name).may_pass(
            pr,
        ),
{
}

/// The middlewares answer 401 exactly when a refused request carried no principal, and 403
/// exactly when a refused request carried one; a request they let through was authorized.
pub proof fn lemma_middleware_status(
    p: PolicySpec,
    pr: Option<Requester>,
    decision: Result<(), LayeError>,
)
    requires
        p.allows_answer(pr, answer_of(decision)),
    ensures
        decision is Ok ==> p.may_pass(pr),
        decision matches Err(e) ==> p.may_fail(pr) && status_of(e) == (if pr is Some {
            403u16
        } else {
            401u16
        }),
{
}

} // verus!

verus! {

/// Under AND, conditions pass in order exactly when each of them may pass.
pub proof fn lemma_and_is_every(checks: Seq<CheckSpec>, pr: Option<Requester>)
    ensures
        and_may_pass(checks, pr) == (forall|i: int|
            0 <= i < checks.len() ==> #[trigger] checks[i].may_pass(pr)),
    decreases checks.len(),
{
    if checks.len() > 0 {
        let front = checks.drop_last();
        lemma_and_is_every(front, pr);
        assert forall|i: int| 0 <= i < front.len() implies front[i] == checks[i] by {}
        if forall|i: int| 0 <= i < checks.len() ==> #[trigger] checks[i].may_pass(pr) {
            assert forall|i: int| 0 <= i < front.len() implies #[trigger] front[i].may_pass(pr) by {
                assert(checks[i].may_pass(pr));
            }
            assert(checks.last().may_pass(pr) == checks[checks.len() - 1].may_pass(pr));
        }
    }
}

/// Under OR, for conditions without custom closures and one answer to every question,
/// evaluation passes
/// exactly when one of them passes.
pub proof fn lemma_or_is_some(checks: Seq<CheckSpec>, pr: Option<Requester>)
    requires
        all_decided(checks),
        settled(pr),
    ensures
        or_may_pass(checks, pr) == (exists|i: int|
            0 <= i < checks.len() && #[trigger] checks[i].may_pass(pr)),
    decreases checks.len(),
{
    if checks.len() > 0 {
        let front = checks.drop_last();
        lemma_or_is_some(front, pr);
        lemma_checks_decided(front, pr);
        lemma_check_decided(checks.last(), pr);
        lemma_or_fail_is_none(front, pr);
        assert forall|i: int| 0 <= i < front.len() implies front[i] == checks[i] by {}
        if exists|i: int| 0 <= i < checks.len() && #[trigger] checks[i].may_pass(pr) {
            let i = choose|i: int| 0 <= i < checks.len() && #[trigger] checks[i].may_pass(pr);
            if i < front.len() {
                assert(front[i].may_pass(pr));
            }
        }
        if or_may_pass(checks, pr) {
            if or_may_pass(front, pr) {
                let i = choose|i: int| 0 <= i < front.len() && #[trigger] front[i].may_pass(pr);
                assert(checks[i].may_pass(pr));
            } else {
                assert(checks[checks.len() - 1].may_pass(pr));
            }
        }
    }
}

/// Under OR, conditions all fail in order exactly when each of them may fail.
proof fn lemma_or_fail_is_none(checks: Seq<CheckSpec>, pr: Option<Requester>)
    ensures
        or_may_fail(checks, pr) == (forall|i: int|
            0 <= i < checks.len() ==> #[trigger] checks[i].may_fail(pr)),
    decreases checks.len(),
{
    if checks.len() > 0 {
        let front = checks.drop_last();
        lemma_or_fail_is_none(front, pr);
        assert forall|i: int| 0 <= i < front.len() implies front[i] == checks[i] by {}
        if forall|i: int| 0 <= i < checks.len() ==> #[trigger] checks[i].may_fail(pr) {
            assert forall|i: int| 0 <= i < front.len() implies #[trigger] front[i].may_fail(pr) by {
                assert(checks[i].may_fail(pr));
            }
            assert(checks.last().may_fail(pr) == checks[checks.len() - 1].may_fail(pr));
        }
    }
}

/// The order of conditions does not matter: two AND policies (or two OR policies) made of
/// the same conditions, without custom closures, give the same answer to a request whose
/// every question has one answer.
pub proof fn lemma_order_does_not_matter(p: PolicySpec, q: PolicySpec, pr: Option<Requester>)
    requires
        p.require_all == q.require_all,
        forall|c: CheckSpec| p.checks.contains(c) <==> q.checks.contains(c),
        p.decided(),
        settled(pr),
    ensures
        q.decided(),
        p.answer(pr) == q.answer(pr),
{
    lemma_all_decided_is_every(p.checks);
    lemma_all_decided_is_every(q.checks);
    assert forall|i: int| 0 <= i < q.checks.len() implies #[trigger] q.checks[i].decided() by {
        assert(q.checks.contains(q.checks[i]));
        let j = choose|j: int| 0 <= j < p.checks.len() && p.checks[j] == q.checks[i];
        assert(p.checks[j].decided());
    }
    lemma_and_is_every(p.checks, pr);
    lemma_and_is_every(q.checks, pr);
    lemma_or_is_some(p.checks, pr);
    lemma_or_is_some(q.checks, pr);
    if p.require_all {
        if p.may_pass(pr) {
            assert forall|i: int| 0 <= i < q.checks.len() implies #[trigger] q.checks[i].may_pass(pr) by {
                assert(q.checks.contains(q.checks[i]));
                let j = choose|j: int| 0 <= j < p.checks.len() && p.checks[j] == q.checks[i];
                assert(p.checks[j].may_pass(pr));
            }
        }
        if q.may_pass(pr) {
            assert forall|i: int| 0 <= i < p.checks.len() implies #[trigger] p.checks[i].may_pass(pr) by {
                assert(p.checks.contains(p.checks[i]));
                let j = choose|j: int| 0 <= j < q.checks.len() && q.checks[j] == p.checks[i];
                assert(q.checks[j].may_pass(pr));
            }
        }
    } else {
        if p.may_pass(pr) {
            let i = choose|i: int| 0 <= i < p.checks.len() && #[trigger] p.checks[i].may_pass(pr);
            assert(p.checks.contains(p.checks[i]));
            let j = choose|j: int| 0 <= j < q.checks.len() && q.checks[j] == p.checks[i];
            assert(q.checks[j].may_pass(pr));
        }
        if q.may_pass(pr) {
            let i = choose|i: int| 0 <= i < q.checks.len() && #[trigger] q.checks[i].may_pass(pr);
            assert(q.checks.contains(q.checks[i]));
            let j = choose|j: int| 0 <= j < p.checks.len() && p.checks[j] == q.checks[i];
            assert(p.checks[j].may_pass(pr));
        }
    }
}

/// Conditions are all decided exactly when each of them is.
proof fn lemma_all_decided_is_every(checks: Seq<CheckSpec>)
    ensures
        all_decided(checks) == (forall|i: int| 0 <= i < checks.len() ==> #[trigger] checks[i].decided()),
    decreases checks.len(),
{
    if checks.len() > 0 {
        let front = checks.drop_last();
        lemma_all_decided_is_every(front);
        assert forall|i: int| 0 <= i < front.len() implies front[i] == checks[i] by {}
        if forall|i: int| 0 <= i < checks.len() ==> #[trigger] checks[i].decided() {
            assert forall|i: int| 0 <= i < front.len() implies #[trigger] front[i].decided() by {
                assert(checks[i].decided());
            }
            assert(checks.last().decided() == checks[checks.len() - 1].decided());
        }
    }
}

} // verus!
