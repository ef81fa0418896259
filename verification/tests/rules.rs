use std::sync::atomic::{AtomicUsize, Ordering};
use std::sync::Arc;

use laye::{AccessPolicy, AccessRule, CustomFn, LayeCheckResult, Principal};

#[derive(Clone)]
struct User {
    roles: Vec<String>,
    permissions: Vec<String>,
    authenticated: bool,
}

impl Principal for User {
    fn roles(&self) -> &[String] {
        &self.roles
    }
    fn permissions(&self) -> &[String] {
        &self.permissions
    }
    fn is_authenticated(&self) -> bool {
        self.authenticated
    }
}

fn user(roles: &[&str], permissions: &[&str]) -> User {
    User {
        roles: roles.iter().map(|s| s.to_string()).collect(),
        permissions: permissions.iter().map(|s| s.to_string()).collect(),
        authenticated: true,
    }
}

fn guest() -> User {
    User { roles: vec![], permissions: vec![], authenticated: false }
}

/// A principal whose roles form a hierarchy: "admin" implies every other role.
struct Hierarchical {
    roles: Vec<String>,
}

impl Principal for Hierarchical {
    fn roles(&self) -> &[String] {
        &self.roles
    }
    fn permissions(&self) -> &[String] {
        &[]
    }
    fn is_authenticated(&self) -> bool {
        true
    }
    fn has_role(&self, role: &str) -> bool {
        self.roles.iter().any(|r| r == role || r == "admin")
    }
}

fn single(rule: AccessRule) -> AccessPolicy {
    AccessPolicy::require_all().add_rule(rule)
}

// ── NotRole / NotPermission ───────────────────────────────────────────────────

#[test]
fn not_role_passes_when_principal_lacks_role() {
    let u = user(&["editor"], &[]);
    assert_eq!(single(AccessRule::NotRole("banned".into())).check(Some(&u)), LayeCheckResult::Authorized);
}

#[test]
fn not_role_fails_when_principal_has_role() {
    let u = user(&["editor", "banned"], &[]);
    assert_eq!(single(AccessRule::NotRole("banned".into())).check(Some(&u)), LayeCheckResult::Forbidden);
}

#[test]
fn not_role_fails_for_missing_principal() {
    assert_eq!(single(AccessRule::NotRole("banned".into())).check(None), LayeCheckResult::Unauthorized);
}

#[test]
fn not_permission_passes_when_principal_lacks_permission() {
    let u = user(&[], &["read"]);
    assert_eq!(
        single(AccessRule::NotPermission("delete".into())).check(Some(&u)),
        LayeCheckResult::Authorized
    );
}

#[test]
fn not_permission_fails_when_principal_has_permission() {
    let u = user(&[], &["read", "delete"]);
    assert_eq!(
        single(AccessRule::NotPermission("delete".into())).check(Some(&u)),
        LayeCheckResult::Forbidden
    );
}

#[test]
fn not_permission_fails_for_missing_principal() {
    assert_eq!(
        single(AccessRule::NotPermission("delete".into())).check(None),
        LayeCheckResult::Unauthorized
    );
}

#[test]
fn absence_check_composes_with_presence_check() {
    let policy = AccessPolicy::require_all()
        .add_rule(AccessRule::Authenticated)
        .add_rule(AccessRule::Role("editor".into()))
        .add_rule(AccessRule::NotRole("banned".into()));
    assert_eq!(policy.check(Some(&user(&["editor"], &[]))), LayeCheckResult::Authorized);
    assert_eq!(policy.check(Some(&user(&["editor", "banned"], &[]))), LayeCheckResult::Forbidden);
    assert_eq!(policy.check(Some(&user(&["viewer"], &[]))), LayeCheckResult::Forbidden);
    assert_eq!(policy.check(None), LayeCheckResult::Unauthorized);
}

#[test]
fn permission_rule_returns_unauthorized_without_principal() {
    assert_eq!(single(AccessRule::Permission("write".into())).check(None), LayeCheckResult::Unauthorized);
}

// ── Empty policies ────────────────────────────────────────────────────────────

#[test]
fn empty_require_all_authorizes_everyone() {
    let policy = AccessPolicy::require_all();
    assert_eq!(policy.check(None), LayeCheckResult::Authorized);
    assert_eq!(policy.check(Some(&user(&[], &[]))), LayeCheckResult::Authorized);
    assert_eq!(policy.check(Some(&guest())), LayeCheckResult::Authorized);
}

#[test]
fn empty_require_any_refuses_everyone() {
    let policy = AccessPolicy::require_any();
    assert_eq!(policy.check(None), LayeCheckResult::Unauthorized);
    assert_eq!(policy.check(Some(&user(&["admin"], &[]))), LayeCheckResult::Forbidden);
    assert_eq!(policy.check(Some(&guest())), LayeCheckResult::Forbidden);
}

// ── Guest / Authenticated ─────────────────────────────────────────────────────

#[test]
fn guest_and_authenticated_are_complementary() {
    let g = guest();
    let u = user(&[], &[]);
    let auth = single(AccessRule::Authenticated);
    let gst = single(AccessRule::Guest);
    assert_eq!(auth.check(None), LayeCheckResult::Unauthorized);
    assert_eq!(gst.check(None), LayeCheckResult::Authorized);
    assert_eq!(auth.check(Some(&g)), LayeCheckResult::Forbidden);
    assert_eq!(gst.check(Some(&g)), LayeCheckResult::Authorized);
    assert_eq!(auth.check(Some(&u)), LayeCheckResult::Authorized);
    assert_eq!(gst.check(Some(&u)), LayeCheckResult::Forbidden);
}

// ── Custom ────────────────────────────────────────────────────────────────────

#[test]
fn custom_rule_false_without_principal_is_unauthorized() {
    let policy = single(AccessRule::Custom(CustomFn::new(|_| false)));
    assert_eq!(policy.check(None), LayeCheckResult::Unauthorized);
}

#[test]
fn custom_rule_true_without_principal_is_authorized() {
    let policy = single(AccessRule::Custom(CustomFn::new(|p| p.is_none())));
    assert_eq!(policy.check(None), LayeCheckResult::Authorized);
    assert_eq!(policy.check(Some(&user(&[], &[]))), LayeCheckResult::Forbidden);
}

#[test]
fn custom_rule_sees_the_principal() {
    let policy = single(AccessRule::Custom(CustomFn::new(|p| {
        p.map(|p| p.has_permission("publish")).unwrap_or(false)
    })));
    assert_eq!(policy.check(Some(&user(&[], &["publish"]))), LayeCheckResult::Authorized);
    assert_eq!(policy.check(Some(&user(&[], &["read"]))), LayeCheckResult::Forbidden);
}

#[test]
fn and_policy_stops_at_first_failure() {
    let calls = Arc::new(AtomicUsize::new(0));
    let counter = calls.clone();
    let policy = AccessPolicy::require_all()
        .add_rule(AccessRule::Role("admin".into()))
        .add_rule(AccessRule::Custom(CustomFn::new(move |_| {
            counter.fetch_add(1, Ordering::SeqCst);
            true
        })));
    assert_eq!(policy.check(Some(&user(&["viewer"], &[]))), LayeCheckResult::Forbidden);
    assert_eq!(calls.load(Ordering::SeqCst), 0);
    assert_eq!(policy.check(Some(&user(&["admin"], &[]))), LayeCheckResult::Authorized);
    assert_eq!(calls.load(Ordering::SeqCst), 1);
}

#[test]
fn or_policy_stops_at_first_success() {
    let calls = Arc::new(AtomicUsize::new(0));
    let counter = calls.clone();
    let policy = AccessPolicy::require_any()
        .add_rule(AccessRule::Role("admin".into()))
        .add_rule(AccessRule::Custom(CustomFn::new(move |_| {
            counter.fetch_add(1, Ordering::SeqCst);
            false
        })));
    assert_eq!(policy.check(Some(&user(&["admin"], &[]))), LayeCheckResult::Authorized);
    assert_eq!(calls.load(Ordering::SeqCst), 0);
    assert_eq!(policy.check(Some(&user(&["viewer"], &[]))), LayeCheckResult::Forbidden);
    assert_eq!(calls.load(Ordering::SeqCst), 1);
}

// ── Principal implementations ─────────────────────────────────────────────────

#[test]
fn overridden_has_role_is_respected() {
    let boss = Hierarchical { roles: vec!["admin".to_string()] };
    let clerk = Hierarchical { roles: vec!["clerk".to_string()] };
    let policy = single(AccessRule::Role("auditor".into()));
    assert_eq!(policy.check(Some(&boss)), LayeCheckResult::Authorized);
    assert_eq!(policy.check(Some(&clerk)), LayeCheckResult::Forbidden);
}

#[test]
fn default_has_role_matches_whole_names_only() {
    let u = user(&["administrator", "ed"], &["read"]);
    assert!(!u.has_role("admin"));
    assert!(!u.has_role("editor"));
    assert!(u.has_role("ed"));
    assert!(!u.has_permission("rea"));
    assert!(u.has_permission("read"));
}

// ── Composition ───────────────────────────────────────────────────────────────

#[test]
fn readme_example_editor_viewer_anonymous() {
    let policy = AccessPolicy::require_all()
        .add_rule(AccessRule::Authenticated)
        .add_policy(
            AccessPolicy::require_any()
                .add_rule(AccessRule::Role("admin".into()))
                .add_rule(AccessRule::Role("editor".into())),
        );
    assert_eq!(policy.check(Some(&user(&["editor"], &[]))), LayeCheckResult::Authorized);
    assert_eq!(policy.check(Some(&user(&["viewer"], &[]))), LayeCheckResult::Forbidden);
    assert_eq!(policy.check(None), LayeCheckResult::Unauthorized);
}

#[test]
fn nested_policy_counts_as_one_condition() {
    let inner = AccessPolicy::require_any()
        .add_rule(AccessRule::Permission("read".into()))
        .add_rule(AccessRule::Permission("write".into()));
    let wrapped = AccessPolicy::require_all().add_policy(inner.clone());
    for u in [user(&[], &["read"]), user(&[], &["write"]), user(&[], &["delete"])] {
        assert_eq!(wrapped.check(Some(&u)), inner.check(Some(&u)));
    }
    assert_eq!(wrapped.check(None), inner.check(None));
}

#[test]
fn appending_to_and_policy_is_conjunction() {
    let base = AccessPolicy::require_all().add_rule(AccessRule::Role("editor".into()));
    let extra = AccessRule::Permission("publish".into());
    let both = base.clone().add_rule(extra.clone());
    for u in [
        user(&["editor"], &["publish"]),
        user(&["editor"], &[]),
        user(&[], &["publish"]),
        user(&[], &[]),
    ] {
        let expected = base.check(Some(&u)) == LayeCheckResult::Authorized
            && single(extra.clone()).check(Some(&u)) == LayeCheckResult::Authorized;
        assert_eq!(both.check(Some(&u)) == LayeCheckResult::Authorized, expected);
    }
}

#[test]
fn appending_to_or_policy_is_disjunction() {
    let base = AccessPolicy::require_any().add_rule(AccessRule::Role("editor".into()));
    let extra = AccessRule::Permission("publish".into());
    let either = base.clone().add_rule(extra.clone());
    for u in [
        user(&["editor"], &["publish"]),
        user(&["editor"], &[]),
        user(&[], &["publish"]),
        user(&[], &[]),
    ] {
        let expected = base.check(Some(&u)) == LayeCheckResult::Authorized
            || single(extra.clone()).check(Some(&u)) == LayeCheckResult::Authorized;
        assert_eq!(either.check(Some(&u)) == LayeCheckResult::Authorized, expected);
    }
}

#[test]
fn refusal_reflects_presence_of_principal() {
    let policies = vec![
        single(AccessRule::Role("admin".into())),
        single(AccessRule::NotRole("user".into())),
        single(AccessRule::Authenticated),
        single(AccessRule::Guest),
        AccessPolicy::require_any(),
        AccessPolicy::require_any().add_rule(AccessRule::Permission("x".into())),
    ];
    let principals = vec![user(&["user"], &[]), guest()];
    for policy in &policies {
        assert_ne!(policy.check(None), LayeCheckResult::Forbidden);
        for p in &principals {
            assert_ne!(policy.check(Some(p)), LayeCheckResult::Unauthorized);
        }
    }
}

#[test]
fn cloned_policy_answers_the_same() {
    let policy = AccessPolicy::require_any()
        .add_rule(AccessRule::Role("admin".into()))
        .add_policy(
            AccessPolicy::require_all()
                .add_rule(AccessRule::Permission("write".into()))
                .add_rule(AccessRule::Custom(CustomFn::new(|p| p.is_some()))),
        );
    let copy = policy.clone();
    for u in [user(&["admin"], &[]), user(&[], &["write"]), user(&[], &[])] {
        assert_eq!(copy.check(Some(&u)), policy.check(Some(&u)));
    }
    assert_eq!(copy.check(None), policy.check(None));
}

#[test]
fn from_outcome_maps_to_answers() {
    assert_eq!(LayeCheckResult::from_outcome(true, false), LayeCheckResult::Authorized);
    assert_eq!(LayeCheckResult::from_outcome(true, true), LayeCheckResult::Authorized);
    assert_eq!(LayeCheckResult::from_outcome(false, false), LayeCheckResult::Unauthorized);
    assert_eq!(LayeCheckResult::from_outcome(false, true), LayeCheckResult::Forbidden);
    assert!(LayeCheckResult::Authorized.is_authorized());
    assert!(!LayeCheckResult::Forbidden.is_authorized());
    assert!(!LayeCheckResult::Unauthorized.is_authorized());
}

// ── Plain credentials ─────────────────────────────────────────────────────────

fn creds(roles: &[&str], permissions: &[&str], authenticated: bool) -> laye::Credentials {
    laye::Credentials {
        roles: roles.iter().map(|s| s.to_string()).collect(),
        permissions: permissions.iter().map(|s| s.to_string()).collect(),
        authenticated,
    }
}

#[test]
fn credentials_answer_like_a_principal() {
    let policy = AccessPolicy::require_all()
        .add_rule(AccessRule::Authenticated)
        .add_policy(
            AccessPolicy::require_any()
                .add_rule(AccessRule::Role("admin".into()))
                .add_rule(AccessRule::Permission("publish".into())),
        )
        .add_rule(AccessRule::NotRole("banned".into()));
    let cases = [
        (creds(&["admin"], &[], true), LayeCheckResult::Authorized),
        (creds(&[], &["publish"], true), LayeCheckResult::Authorized),
        (creds(&["admin", "banned"], &[], true), LayeCheckResult::Forbidden),
        (creds(&["admin"], &[], false), LayeCheckResult::Forbidden),
        (creds(&["viewer"], &["read"], true), LayeCheckResult::Forbidden),
    ];
    for (c, expected) in cases.iter() {
        assert_eq!(policy.check_credentials(Some(c)), *expected);
        assert_eq!(policy.check(Some(c)), *expected);
    }
    assert_eq!(policy.check_credentials(None), LayeCheckResult::Unauthorized);
}

#[test]
fn custom_closure_receives_the_credentials() {
    let policy = single(AccessRule::Custom(CustomFn::new(|p| {
        p.map(|p| p.roles().len() == 2).unwrap_or(false)
    })));
    assert_eq!(policy.check_credentials(Some(&creds(&["a", "b"], &[], true))), LayeCheckResult::Authorized);
    assert_eq!(policy.check_credentials(Some(&creds(&["a"], &[], true))), LayeCheckResult::Forbidden);
    assert_eq!(policy.check_credentials(None), LayeCheckResult::Unauthorized);
}

#[test]
fn cloned_policy_calls_the_same_closure() {
    let calls = Arc::new(AtomicUsize::new(0));
    let counter = calls.clone();
    let policy = single(AccessRule::Custom(CustomFn::new(move |_| {
        counter.fetch_add(1, Ordering::SeqCst);
        true
    })));
    let copy = policy.clone();
    assert_eq!(copy.check(None), LayeCheckResult::Authorized);
    assert_eq!(policy.check(None), LayeCheckResult::Authorized);
    assert_eq!(calls.load(Ordering::SeqCst), 2);
}

#[test]
fn layer_service_calls_the_policy_closure() {
    let calls = Arc::new(AtomicUsize::new(0));
    let counter = calls.clone();
    let policy = single(AccessRule::Custom(CustomFn::new(move |p| {
        counter.fetch_add(1, Ordering::SeqCst);
        p.is_some()
    })));
    let service = policy.into_tower_layer::<User>().layer(());
    assert!(service.decide(None).is_err());
    assert!(service.decide(Some(&user(&[], &[]))).is_ok());
    assert_eq!(calls.load(Ordering::SeqCst), 2);
}

#[test]
fn order_of_conditions_does_not_matter() {
    let a = AccessRule::Role("editor".into());
    let b = AccessRule::Permission("publish".into());
    let c = AccessRule::NotRole("banned".into());
    for all in [true, false] {
        let make = |rules: [&AccessRule; 3]| {
            let base = if all { AccessPolicy::require_all() } else { AccessPolicy::require_any() };
            rules.iter().fold(base, |p, r| p.add_rule((*r).clone()))
        };
        let p1 = make([&a, &b, &c]);
        let p2 = make([&c, &a, &b]);
        let p3 = make([&b, &c, &a]);
        for u in [
            user(&["editor"], &["publish"]),
            user(&["editor", "banned"], &[]),
            user(&["banned"], &["publish"]),
            user(&[], &[]),
        ] {
            assert_eq!(p1.check(Some(&u)), p2.check(Some(&u)));
            assert_eq!(p1.check(Some(&u)), p3.check(Some(&u)));
        }
        assert_eq!(p1.check(None), p2.check(None));
    }
}
