//! The [`AccessPolicy`] builder and [`AccessRule`] enum.

use std::sync::Arc;

use vstd::prelude::*;

use crate::laws::lemma_policy_decided;
use crate::principal::{
    caller, closure_may, custom_answer, from_credentials, requester_of, settled, Answerer,
    Credentials, Principal, PrincipalRef, Requester,
};
use crate::result::{answer_allowed, refusal, LayeCheckResult};

verus! {

/// A shared closure used with [`AccessRule::Custom`].
///
/// The closure receives `Option<&dyn Principal>` (the current principal, if any) and returns
/// `true` to allow access or `false` to deny it. What it returns is the caller's own logic:
/// nothing is known of it here.
#[verifier::external_body]
pub struct CustomFn {
    f: Arc<dyn Fn(Option<&dyn Principal>) -> bool + Send + Sync>,
}

impl CustomFn {
    /// Wraps a closure for use in [`AccessRule::Custom`].
    #[verifier::external_body]
    pub fn new<F>(f: F) -> CustomFn
        where F: Fn(Option<&dyn Principal>) -> bool + Send + Sync + 'static,
    {
        CustomFn { f: Arc::new(f) }
    }

    /// Calls the closure on `principal`. Its answer is the caller's logic, which may depend on
    /// anything: all that is known of it is that it is an answer of this closure on this
    /// principal.
    #[verifier::external_body]
    fn call(&self, principal: Option<PrincipalRef>) -> (b: bool)
        ensures
            custom_answer(*self, principal, b),
    {
        (self.f)(principal.map(|p| p.inner))
    }
}

impl Clone for CustomFn {
    /// Shares the same closure.
    #[verifier::external_body]
    fn clone(&self) -> (res: Self)
        ensures
            res == *self,
    {
        CustomFn { f: Arc::clone(&self.f) }
    }
}

/// A single access condition tested against a [`Principal`].
///
/// Rules are the atomic building blocks of an [`AccessPolicy`]. Combine them with
/// [`AccessPolicy::require_all`] (AND) or [`AccessPolicy::require_any`] (OR).
pub enum AccessRule {
    /// Passes when the principal has the named role.
    ///
    /// `Unauthorized` when no principal is present, `Forbidden` when the principal lacks the role.
    Role(String),
    /// Passes when the principal does *not* have the named role.
    ///
    /// `Unauthorized` when no principal is present, `Forbidden` when the principal has the role.
    NotRole(String),
    /// Passes when the principal has the named permission.
    ///
    /// `Unauthorized` when no principal is present, `Forbidden` when the principal lacks the
    /// permission.
    Permission(String),
    /// Passes when the principal does *not* have the named permission.
    ///
    /// `Unauthorized` when no principal is present, `Forbidden` when the principal has the
    /// permission.
    NotPermission(String),
    /// Passes when a principal is present and [`Principal::is_authenticated`] returns `true`.
    ///
    /// `Unauthorized` when no principal is present, `Forbidden` when the principal is not
    /// authenticated.
    Authenticated,
    /// Passes when no principal is present, or when [`Principal::is_authenticated`] returns
    /// `false`.
    ///
    /// `Forbidden` for authenticated principals. Use this on login / register routes.
    Guest,
    /// Delegates the check to a closure, which receives the request's principal (`None` when
    /// there is none) and returns `true` to allow.
    ///
    /// When it returns `false`, the result is `Unauthorized` if no principal was present, or
    /// `Forbidden` if one was.
    Custom(CustomFn),
}

/// The mathematical form of an [`AccessRule`]; a custom rule keeps its closure.
pub enum RuleSpec {
    Role(Seq<char>),
    NotRole(Seq<char>),
    Permission(Seq<char>),
    NotPermission(Seq<char>),
    Authenticated,
    Guest,
    Custom(CustomFn),
}

/// The mathematical form of one condition of a policy: a rule or a nested policy.
pub enum CheckSpec {
    Rule(RuleSpec),
    Nested(PolicySpec),
}

/// The mathematical form of an [`AccessPolicy`]: AND (`require_all`) or OR over its
/// conditions, in the order they were added.
pub struct PolicySpec {
    pub require_all: bool,
    pub checks: Seq<CheckSpec>,
}

impl RuleSpec {
    /// Whether the library itself decides this rule (every rule but a custom closure).
    pub open spec fn decided(self) -> bool {
        !(self is Custom)
    }

    /// Whether the rule may pass for the requester: without a principal only `Guest` passes
    /// (and a closure that answered `true`); with one, `Role(r)` passes when `has_role(r)`
    /// answered `true`, `NotRole(r)` when it answered `false`, and likewise for permissions;
    /// `Authenticated` passes when `is_authenticated` answered `true`, `Guest` when it answered
    /// `false`; a custom rule passes when its closure answered `true`.
    pub open spec fn may_pass(self, pr: Option<Requester>) -> bool {
        match self {
            RuleSpec::Custom(f) => closure_may(pr, f, true),
            _ => match pr {
                None => self is Guest,
                Some(q) => match self {
                    RuleSpec::Role(r) => (q.roles)(r, true),
                    RuleSpec::NotRole(r) => (q.roles)(r, false),
                    RuleSpec::Permission(r) => (q.permissions)(r, true),
                    RuleSpec::NotPermission(r) => (q.permissions)(r, false),
                    RuleSpec::Authenticated => (q.authenticated)(true),
                    RuleSpec::Guest => (q.authenticated)(false),
                    RuleSpec::Custom(_) => false,
                },
            },
        }
    }

    /// Whether the rule may fail for the requester: the opposite answers of `may_pass`.
    pub open spec fn may_fail(self, pr: Option<Requester>) -> bool {
        match self {
            RuleSpec::Custom(f) => closure_may(pr, f, false),
            _ => match pr {
                None => !(self is Guest),
                Some(q) => match self {
                    RuleSpec::Role(r) => (q.roles)(r, false),
                    RuleSpec::NotRole(r) => (q.roles)(r, true),
                    RuleSpec::Permission(r) => (q.permissions)(r, false),
                    RuleSpec::NotPermission(r) => (q.permissions)(r, true),
                    RuleSpec::Authenticated => (q.authenticated)(false),
                    RuleSpec::Guest => (q.authenticated)(true),
                    RuleSpec::Custom(_) => false,
                },
            },
        }
    }
}

impl CheckSpec {
    pub open spec fn decided(self) -> bool
        decreases self,
    {
        match self {
            CheckSpec::Rule(r) => r.decided(),
            CheckSpec::Nested(p) => p.decided(),
        }
    }

    pub open spec fn may_pass(self, pr: Option<Requester>) -> bool
        decreases self,
    {
        match self {
            CheckSpec::Rule(r) => r.may_pass(pr),
            CheckSpec::Nested(p) => p.may_pass(pr),
        }
    }

    pub open spec fn may_fail(self, pr: Option<Requester>) -> bool
        decreases self,
    {
        match self {
            CheckSpec::Rule(r) => r.may_fail(pr),
            CheckSpec::Nested(p) => p.may_fail(pr),
        }
    }
}

impl PolicySpec {
    /// Whether every rule in the policy, at any depth, is decided by the library.
    pub open spec fn decided(self) -> bool
        decreases self,
    {
        all_decided(self.checks)
    }

    /// Whether evaluation may end in `Authorized`: for AND, every condition may pass; for OR,
    /// some condition may pass after all the ones before it failed.
    pub open spec fn may_pass(self, pr: Option<Requester>) -> bool
        decreases self,
    {
        if self.require_all {
            and_may_pass(self.checks, pr)
        } else {
            or_may_pass(self.checks, pr)
        }
    }

    /// Whether evaluation may end in a refusal: for AND, some condition may fail after all
    /// the ones before it passed; for OR, every condition may fail.
    pub open spec fn may_fail(self, pr: Option<Requester>) -> bool
        decreases self,
    {
        if self.require_all {
            and_may_fail(self.checks, pr)
        } else {
            or_may_fail(self.checks, pr)
        }
    }

    /// Whether `result` is an answer that evaluating this policy may give.
    pub open spec fn allows_answer(self, pr: Option<Requester>, result: LayeCheckResult) -> bool {
        answer_allowed(self.may_pass(pr), self.may_fail(pr), pr is Some, result)
    }

    /// The answer for a decided policy.
    pub open spec fn answer(self, pr: Option<Requester>) -> LayeCheckResult {
        if self.may_pass(pr) {
            LayeCheckResult::Authorized
        } else {
            refusal(pr is Some)
        }
    }
}

/// Whether every condition in `checks` is decided by the library.
pub open spec fn all_decided(checks: Seq<CheckSpec>) -> bool
    decreases checks,
{
    checks.len() == 0 || (all_decided(checks.drop_last()) && checks.last().decided())
}

/// Evaluated in order under AND, whether every condition in `checks` may pass.
pub open spec fn and_may_pass(checks: Seq<CheckSpec>, pr: Option<Requester>) -> bool
    decreases checks,
{
    checks.len() == 0 || (and_may_pass(checks.drop_last(), pr) && checks.last().may_pass(pr))
}

/// Evaluated in order under AND, whether some condition in `checks` may fail after all the
/// ones before it passed.
pub open spec fn and_may_fail(checks: Seq<CheckSpec>, pr: Option<Requester>) -> bool
    decreases checks,
{
    checks.len() > 0 && (and_may_fail(checks.drop_last(), pr) || (and_may_pass(checks.drop_last(), pr)
        && checks.last().may_fail(pr)))
}

/// Evaluated in order under OR, whether some condition in `checks` may pass after all the
/// ones before it failed.
pub open spec fn or_may_pass(checks: Seq<CheckSpec>, pr: Option<Requester>) -> bool
    decreases checks,
{
    checks.len() > 0 && (or_may_pass(checks.drop_last(), pr) || (or_may_fail(checks.drop_last(), pr)
        && checks.last().may_pass(pr)))
}

/// Evaluated in order under OR, whether every condition in `checks` may fail.
pub open spec fn or_may_fail(checks: Seq<CheckSpec>, pr: Option<Requester>) -> bool
    decreases checks,
{
    checks.len() == 0 || (or_may_fail(checks.drop_last(), pr) && checks.last().may_fail(pr))
}

impl View for AccessRule {
    type V = RuleSpec;

    open spec fn view(&self) -> RuleSpec {
        match self {
            AccessRule::Role(r) => RuleSpec::Role(r@),
            AccessRule::NotRole(r) => RuleSpec::NotRole(r@),
            AccessRule::Permission(p) => RuleSpec::Permission(p@),
            AccessRule::NotPermission(p) => RuleSpec::NotPermission(p@),
            AccessRule::Authenticated => RuleSpec::Authenticated,
            AccessRule::Guest => RuleSpec::Guest,
            AccessRule::Custom(f) => RuleSpec::Custom(*f),
        }
    }
}

enum PolicyMode {
    All,
    Any,
}

enum PolicyCheck {
    Rule(AccessRule),
    Nested(AccessPolicy),
}

/// A composable access policy built from [`AccessRule`]s and nested sub-policies.
///
/// Create a policy with [`require_all`](Self::require_all) (AND semantics) or
/// [`require_any`](Self::require_any) (OR semantics), then chain conditions with
/// [`add_rule`](Self::add_rule) and [`add_policy`](Self::add_policy).
pub struct AccessPolicy {
    checks: Vec<PolicyCheck>,
    mode: PolicyMode,
}

impl PolicyCheck {
    spec fn model(&self) -> CheckSpec
        decreases self,
    {
        match self {
            PolicyCheck::Rule(r) => CheckSpec::Rule(r@),
            PolicyCheck::Nested(p) => CheckSpec::Nested(p.model()),
        }
    }
}

spec fn models_of(checks: Seq<PolicyCheck>) -> Seq<CheckSpec>
    decreases checks,
{
    if checks.len() == 0 {
        Seq::empty()
    } else {
        models_of(checks.drop_last()).push(checks.last().model())
    }
}

impl AccessPolicy {
    closed spec fn model(&self) -> PolicySpec
        decreases self,
    {
        PolicySpec { require_all: self.mode is All, checks: models_of(self.checks@) }
    }
}

impl View for AccessPolicy {
    type V = PolicySpec;

    closed spec fn view(&self) -> PolicySpec {
        self.model()
    }
}

proof fn lemma_models_of(checks: Seq<PolicyCheck>)
    ensures
        models_of(checks).len() == checks.len(),
        forall|i: int| 0 <= i < checks.len() ==> #[trigger] models_of(checks)[i] == checks[i].model(),
    decreases checks.len(),
{
    if checks.len() > 0 {
        lemma_models_of(checks.drop_last());
    }
}

proof fn lemma_models_of_push(checks: Seq<PolicyCheck>, c: PolicyCheck)
    ensures
        models_of(checks.push(c)) == models_of(checks).push(c.model()),
{
    assert(checks.push(c).drop_last() =~= checks);
}

impl AccessPolicy {
    /// Creates an AND policy: every rule and sub-policy must pass.
    ///
    /// An empty `require_all` policy always returns `Authorized`.
    pub fn require_all() -> (res: Self)
        ensures
            res@ == (PolicySpec { require_all: true, checks: Seq::empty() }),
    {
        AccessPolicy { checks: Vec::new(), mode: PolicyMode::All }
    }

    /// Creates an OR policy: at least one rule or sub-policy must pass.
    ///
    /// An empty `require_any` policy returns `Unauthorized` for anonymous requests and
    /// `Forbidden` for requests with a principal (no condition can ever pass).
    pub fn require_any() -> (res: Self)
        ensures
            res@ == (PolicySpec { require_all: false, checks: Seq::empty() }),
    {
        AccessPolicy { checks: Vec::new(), mode: PolicyMode::Any }
    }

    /// Appends an [`AccessRule`] to this policy.
    pub fn add_rule(self, rule: AccessRule) -> (res: Self)
        ensures
            res@ == (PolicySpec {
                require_all: self@.require_all,
                checks: self@.checks.push(CheckSpec::Rule(rule@)),
            }),
    {
        let AccessPolicy { checks, mode } = self;
        let mut checks = checks;
        let ghost before = checks@;
        let ghost r = rule@;
        checks.push(PolicyCheck::Rule(rule));
        proof {
            lemma_models_of_push(before, PolicyCheck::Rule(rule));
        }
        AccessPolicy { checks, mode }
    }

    /// Appends a nested [`AccessPolicy`] as a single condition of this policy.
    ///
    /// Use this to compose AND-of-OR or OR-of-AND logic.
    pub fn add_policy(self, policy: AccessPolicy) -> (res: Self)
        ensures
            res@ == (PolicySpec {
                require_all: self@.require_all,
                checks: self@.checks.push(CheckSpec::Nested(policy@)),
            }),
    {
        let AccessPolicy { checks, mode } = self;
        let mut checks = checks;
        let ghost before = checks@;
        checks.push(PolicyCheck::Nested(policy));
        proof {
            lemma_models_of_push(before, PolicyCheck::Nested(policy));
        }
        AccessPolicy { checks, mode }
    }

    /// Evaluates this policy against an optional principal.
    ///
    /// Pass `Some(&principal)` for authenticated requests and `None` for anonymous requests.
    /// All conditions pass: `Authorized`; no principal and a condition fails: `Unauthorized`;
    /// a principal present and a condition fails: `Forbidden`.
    pub fn check(&self, principal: Option<&dyn Principal>) -> (res: LayeCheckResult)
        ensures
            self@.allows_answer(caller(
                match principal {
                    Some(p) => Some(PrincipalRef { inner: p }),
                    None => None,
                },
            ), res),
            self@.decided() && settled(caller(
                match principal {
                    Some(p) => Some(PrincipalRef { inner: p }),
                    None => None,
                },
            )) ==> res == self@.answer(caller(
                match principal {
                    Some(p) => Some(PrincipalRef { inner: p }),
                    None => None,
                },
            )),
    {
        let who = match principal {
            Some(p) => Some(Answerer::Caller(PrincipalRef { inner: p })),
            None => None,
        };
        self.evaluate(who)
    }

    /// Evaluates this policy against credentials given as plain values (`None` for an
    /// anonymous request). Custom closures receive the credentials as the principal.
    pub fn check_credentials(&self, credentials: Option<&Credentials>) -> (res: LayeCheckResult)
        ensures
            self@.allows_answer(from_credentials(credentials), res),
            self@.decided() ==> res == self@.answer(from_credentials(credentials)),
    {
        let who = match credentials {
            Some(c) => Some(Answerer::Known(c)),
            None => None,
        };
        self.evaluate(who)
    }

    fn evaluate(&self, who: Option<Answerer>) -> (res: LayeCheckResult)
        ensures
            self@.allows_answer(requester_of(who), res),
            self@.decided() && settled(requester_of(who)) ==> res == self@.answer(requester_of(who)),
        decreases self,
    {
        let ghost pr = requester_of(who);
        let ghost spec_checks = self@.checks;
        proof {
            lemma_models_of(self.checks@);
            if self@.decided() && settled(pr) {
                lemma_policy_decided(self@, pr);
            }
        }
        match self.mode {
            PolicyMode::All => {
                let mut i: usize = 0;
                while i < self.checks.len()
                    invariant
                        0 <= i <= self.checks@.len(),
                        pr == requester_of(who),
                        spec_checks == self@.checks,
                        self@.decided() && settled(pr) ==> self@.may_pass(pr) != self@.may_fail(pr),
                        self@.require_all,
                        spec_checks.len() == self.checks@.len(),
                        forall|k: int|
                            0 <= k < self.checks@.len() ==> #[trigger] spec_checks[k]
                                == self.checks@[k].model(),
                        and_may_pass(spec_checks.take(i as int), pr),
                    decreases self.checks@.len() - i,
                {
                    let result = eval_check(&self.checks[i], who);
                    proof {
                        assert(spec_checks.take(i + 1).drop_last() =~= spec_checks.take(i as int));
                        assert(spec_checks.take(i + 1).last() == spec_checks[i as int]);
                    }
                    if !result.is_authorized() {
                        proof {
                            lemma_and_may_fail_extends(spec_checks, i + 1, pr);
                        }
                        return result;
                    }
                    i = i + 1;
                }
                proof {
                    assert(spec_checks.take(i as int) =~= spec_checks);
                }
                LayeCheckResult::Authorized
            },
            PolicyMode::Any => {
                let mut i: usize = 0;
                while i < self.checks.len()
                    invariant
                        0 <= i <= self.checks@.len(),
                        pr == requester_of(who),
                        spec_checks == self@.checks,
                        self@.decided() && settled(pr) ==> self@.may_pass(pr) != self@.may_fail(pr),
                        !self@.require_all,
                        spec_checks.len() == self.checks@.len(),
                        forall|k: int|
                            0 <= k < self.checks@.len() ==> #[trigger] spec_checks[k]
                                == self.checks@[k].model(),
                        or_may_fail(spec_checks.take(i as int), pr),
                    decreases self.checks@.len() - i,
                {
                    let result = eval_check(&self.checks[i], who);
                    proof {
                        assert(spec_checks.take(i + 1).drop_last() =~= spec_checks.take(i as int));
                        assert(spec_checks.take(i + 1).last() == spec_checks[i as int]);
                    }
                    if result.is_authorized() {
                        proof {
                            lemma_or_may_pass_extends(spec_checks, i + 1, pr);
                        }
                        return LayeCheckResult::Authorized;
                    }
                    i = i + 1;
                }
                proof {
                    assert(spec_checks.take(i as int) =~= spec_checks);
                }
                if who.is_none() {
                    LayeCheckResult::Unauthorized
                } else {
                    LayeCheckResult::Forbidden
                }
            },
        }
    }
}

impl Clone for AccessRule {
    /// Copies the rule; a custom closure is shared, not copied.
    fn clone(&self) -> (res: Self)
        ensures
            res@ == self@,
    {
        match self {
            AccessRule::Role(r) => AccessRule::Role(r.clone()),
            AccessRule::NotRole(r) => AccessRule::NotRole(r.clone()),
            AccessRule::Permission(p) => AccessRule::Permission(p.clone()),
            AccessRule::NotPermission(p) => AccessRule::NotPermission(p.clone()),
            AccessRule::Authenticated => AccessRule::Authenticated,
            AccessRule::Guest => AccessRule::Guest,
            AccessRule::Custom(f) => AccessRule::Custom(f.clone()),
        }
    }
}

fn copy_check(check: &PolicyCheck) -> (res: PolicyCheck)
    ensures
        res.model() == check.model(),
    decreases check,
{
    match check {
        PolicyCheck::Rule(rule) => PolicyCheck::Rule(rule.clone()),
        PolicyCheck::Nested(policy) => PolicyCheck::Nested(policy.copy()),
    }
}

impl AccessPolicy {
    fn copy(&self) -> (res: Self)
        ensures
            res@ == self@,
        decreases self,
    {
        let mut checks: Vec<PolicyCheck> = Vec::new();
        let mut i: usize = 0;
        proof {
            lemma_models_of(self.checks@);
        }
        while i < self.checks.len()
            invariant
                0 <= i <= self.checks@.len(),
                checks@.len() == i,
                models_of(self.checks@).len() == self.checks@.len(),
                forall|k: int|
                    0 <= k < self.checks@.len() ==> #[trigger] models_of(self.checks@)[k]
                        == self.checks@[k].model(),
                models_of(checks@) == models_of(self.checks@).take(i as int),
            decreases self.checks@.len() - i,
        {
            let c = copy_check(&self.checks[i]);
            proof {
                lemma_models_of_push(checks@, c);
                assert(models_of(self.checks@).take(i + 1) =~= models_of(self.checks@).take(
                    i as int,
                ).push(self.checks@[i as int].model()));
            }
            checks.push(c);
            i = i + 1;
        }
        proof {
            assert(models_of(self.checks@).take(i as int) =~= models_of(self.checks@));
        }
        let mode = match self.mode {
            PolicyMode::All => PolicyMode::All,
            PolicyMode::Any => PolicyMode::Any,
        };
        AccessPolicy { checks, mode }
    }
}

impl Clone for AccessPolicy {
    /// Copies the policy with all its conditions; custom closures are shared.
    fn clone(&self) -> (res: Self)
        ensures
            res@ == self@,
    {
        self.copy()
    }
}

proof fn lemma_and_may_fail_extends(checks: Seq<CheckSpec>, k: int, pr: Option<Requester>)
    requires
        0 <= k <= checks.len(),
        and_may_fail(checks.take(k), pr),
    ensures
        and_may_fail(checks, pr),
    decreases checks.len() - k,
{
    if k < checks.len() {
        assert(checks.take(k + 1).drop_last() =~= checks.take(k));
        lemma_and_may_fail_extends(checks, k + 1, pr);
    } else {
        assert(checks.take(k) =~= checks);
    }
}

proof fn lemma_or_may_pass_extends(checks: Seq<CheckSpec>, k: int, pr: Option<Requester>)
    requires
        0 <= k <= checks.len(),
        or_may_pass(checks.take(k), pr),
    ensures
        or_may_pass(checks, pr),
    decreases checks.len() - k,
{
    if k < checks.len() {
        assert(checks.take(k + 1).drop_last() =~= checks.take(k));
        lemma_or_may_pass_extends(checks, k + 1, pr);
    } else {
        assert(checks.take(k) =~= checks);
    }
}

fn eval_check(check: &PolicyCheck, who: Option<Answerer>) -> (res: LayeCheckResult)
    ensures
        answer_allowed(
            check.model().may_pass(requester_of(who)),
            check.model().may_fail(requester_of(who)),
            who is Some,
            res,
        ),
    decreases check,
{
    match check {
        PolicyCheck::Rule(rule) => eval_rule(rule, who),
        PolicyCheck::Nested(policy) => policy.evaluate(who),
    }
}

fn eval_rule(rule: &AccessRule, who: Option<Answerer>) -> (res: LayeCheckResult)
    ensures
        answer_allowed(
            rule@.may_pass(requester_of(who)),
            rule@.may_fail(requester_of(who)),
            who is Some,
            res,
        ),
{
    match rule {
        AccessRule::Role(r) => match who {
            None => LayeCheckResult::Unauthorized,
            Some(p) => {
                if p.has_role(r.as_str()) {
                    LayeCheckResult::Authorized
                } else {
                    LayeCheckResult::Forbidden
                }
            },
        },
        AccessRule::NotRole(r) => match who {
            None => LayeCheckResult::Unauthorized,
            Some(p) => {
                if !p.has_role(r.as_str()) {
                    LayeCheckResult::Authorized
                } else {
                    LayeCheckResult::Forbidden
                }
            },
        },
        AccessRule::Permission(name) => match who {
            None => LayeCheckResult::Unauthorized,
            Some(p) => {
                if p.has_permission(name.as_str()) {
                    LayeCheckResult::Authorized
                } else {
                    LayeCheckResult::Forbidden
                }
            },
        },
        AccessRule::NotPermission(name) => match who {
            None => LayeCheckResult::Unauthorized,
            Some(p) => {
                if !p.has_permission(name.as_str()) {
                    LayeCheckResult::Authorized
                } else {
                    LayeCheckResult::Forbidden
                }
            },
        },
        AccessRule::Authenticated => match who {
            None => LayeCheckResult::Unauthorized,
            Some(p) => {
                if p.is_authenticated() {
                    LayeCheckResult::Authorized
                } else {
                    LayeCheckResult::Forbidden
                }
            },
        },
        AccessRule::Guest => match who {
            None => LayeCheckResult::Authorized,
            Some(p) => {
                if !p.is_authenticated() {
                    LayeCheckResult::Authorized
                } else {
                    LayeCheckResult::Forbidden
                }
            },
        },
        AccessRule::Custom(f) => {
            let principal = match who {
                Some(p) => Some(p.principal()),
                None => None,
            };
            LayeCheckResult::from_outcome(f.call(principal), principal.is_some())
        },
    }
}

} // verus!
