use laye::actix::{AuthPrincipal, MaybeAuthPrincipal, PolicyMiddlewareFactory};
use laye::error::gate;
use laye::tower_middleware::AccessControlLayer;
use laye::{AccessPolicy, AccessRule, LayeCheckResult, LayeError, Principal};

#[derive(Clone, Debug, PartialEq)]
struct TestUser {
    roles: Vec<String>,
    permissions: Vec<String>,
    authenticated: bool,
}

impl TestUser {
    fn new(roles: &[&str]) -> Self {
        Self {
            roles: roles.iter().map(|s| s.to_string()).collect(),
            permissions: vec![],
            authenticated: true,
        }
    }
}

impl Principal for TestUser {
    fn roles(&self) -> &[String] {
        &self.roles
    }
    fn permissions(&self) -> &[String] {
        &self.permissions
    }
    fn is_authenticated(&self) -> bool {
        self.authenticated
    }
}

fn status(decision: Result<(), LayeError>) -> u16 {
    match decision {
        Ok(()) => 200,
        Err(e) => e.status_code(),
    }
}

fn tower_status(policy: AccessPolicy, user: Option<TestUser>) -> u16 {
    let service = policy.into_tower_layer::<TestUser>().layer(());
    status(service.decide(user.as_ref().map(|p| p as &dyn Principal)))
}

fn actix_status(policy: AccessPolicy, user: Option<TestUser>) -> u16 {
    let service = policy.into_actix_middleware::<TestUser>().transform(());
    status(service.decide(user.as_ref().map(|p| p as &dyn Principal)))
}

fn admin_only() -> AccessPolicy {
    AccessPolicy::require_all().add_rule(AccessRule::Role("admin".into()))
}

#[test]
fn layer_allows_request_when_policy_passes() {
    assert_eq!(tower_status(admin_only(), Some(TestUser::new(&["admin"]))), 200, "admin should get 200");
}

#[test]
fn layer_returns_403_when_role_missing() {
    assert_eq!(tower_status(admin_only(), Some(TestUser::new(&[]))), 403, "missing role should get 403");
}

#[test]
fn layer_returns_401_when_no_principal_in_extensions() {
    let policy = AccessPolicy::require_all().add_rule(AccessRule::Authenticated);
    assert_eq!(tower_status(policy, None), 401, "no principal should get 401");
}

#[test]
fn tower_middleware_and_policy_blocks_when_one_condition_fails() {
    let policy = AccessPolicy::require_all()
        .add_rule(AccessRule::Authenticated)
        .add_rule(AccessRule::Role("admin".into()));
    assert_eq!(tower_status(policy, Some(TestUser::new(&["user"]))), 403, "AND policy should block when role fails");
}

#[test]
fn tower_middleware_or_policy_allows_when_one_condition_passes() {
    let policy = AccessPolicy::require_any()
        .add_rule(AccessRule::Role("admin".into()))
        .add_rule(AccessRule::Role("editor".into()));
    assert_eq!(tower_status(policy, Some(TestUser::new(&["editor"]))), 200, "OR policy should allow when one role matches");
}

#[test]
fn layer_is_clone_and_send() {
    fn assert_send<T: Send>(_: T) {}
    fn assert_clone<T: Clone>(_: &T) {}
    let layer = admin_only().into_tower_layer::<TestUser>();
    assert_clone(&layer);
    assert_send(layer.clone());
    assert_eq!(status(layer.clone().layer(()).decide(None)), 401);
}

#[test]
fn middleware_allows_request_when_policy_passes() {
    assert_eq!(actix_status(admin_only(), Some(TestUser::new(&["admin"]))), 200, "admin should get 200");
}

#[test]
fn middleware_returns_403_when_role_missing() {
    assert_eq!(actix_status(admin_only(), Some(TestUser::new(&[]))), 403, "missing role should get 403");
}

#[test]
fn middleware_returns_401_when_no_principal_in_extensions() {
    let policy = AccessPolicy::require_all().add_rule(AccessRule::Authenticated);
    assert_eq!(actix_status(policy, None), 401, "no principal should get 401");
}

#[test]
fn actix_middleware_and_policy_blocks_when_one_condition_fails() {
    let policy = AccessPolicy::require_all()
        .add_rule(AccessRule::Authenticated)
        .add_rule(AccessRule::Role("admin".into()));
    assert_eq!(actix_status(policy, Some(TestUser::new(&["user"]))), 403, "AND policy should block when role condition fails");
}

#[test]
fn actix_middleware_or_policy_allows_when_one_condition_passes() {
    let policy = AccessPolicy::require_any()
        .add_rule(AccessRule::Role("admin".into()))
        .add_rule(AccessRule::Role("editor".into()));
    assert_eq!(actix_status(policy, Some(TestUser::new(&["editor"]))), 200, "OR policy should allow when one role matches");
}

#[test]
fn not_role_middleware_blocks_user_with_banned_role() {
    let policy = AccessPolicy::require_all()
        .add_rule(AccessRule::Authenticated)
        .add_rule(AccessRule::NotRole("banned".into()));
    assert_eq!(actix_status(policy.clone(), Some(TestUser::new(&["editor"]))), 200);
    assert_eq!(actix_status(policy, Some(TestUser::new(&["editor", "banned"]))), 403);
}

#[test]
fn factory_service_keeps_inner_service() {
    let factory = PolicyMiddlewareFactory::<TestUser>::new(admin_only());
    let service = factory.transform(42u32);
    assert_eq!(**service.service(), 42);
    let mut tower_service = AccessControlLayer::<TestUser>::new(admin_only()).layer(7u8);
    *tower_service.inner_mut() += 1;
    assert_eq!(*tower_service.inner_mut(), 8);
    assert_eq!(status(tower_service.decide(Some(&TestUser::new(&["admin"])))), 200);
}

#[test]
fn auth_principal_extractor_returns_401_when_missing() {
    let res = AuthPrincipal::<TestUser>::from_extension(None);
    assert_eq!(res.err().map(|e| e.status_code()), Some(401), "missing principal in extractor should return 401");
}

#[test]
fn auth_principal_extractor_injects_principal_into_handler() {
    let user = TestUser::new(&["user"]);
    let extracted = AuthPrincipal::from_extension(Some(user.clone())).ok().expect("principal present");
    let inner = extracted.into_inner();
    assert!(inner.has_role("user"), "extracted user should have 'user' role");
    assert_eq!(inner, user);
}

#[test]
fn maybe_auth_principal_returns_some_when_present() {
    let user = TestUser::new(&["user"]);
    let maybe = MaybeAuthPrincipal::from_extension(Some(user.clone()));
    assert_eq!(maybe.into_inner(), Some(user), "MaybeAuthPrincipal should be Some when extension present");
}

#[test]
fn maybe_auth_principal_returns_none_when_absent() {
    let maybe = MaybeAuthPrincipal::<TestUser>::from_extension(None);
    assert!(maybe.0.is_none(), "MaybeAuthPrincipal should be None when no extension");
}

#[test]
fn rejection_statuses_and_messages() {
    assert_eq!(LayeError::Unauthorized.status_code(), 401);
    assert_eq!(LayeError::Forbidden.status_code(), 403);
    assert_eq!(LayeError::Unauthorized.message(), "Unauthorized");
    assert_eq!(LayeError::Forbidden.message(), "Forbidden");
}

#[test]
fn gate_maps_answers_to_decisions() {
    assert_eq!(gate(LayeCheckResult::Authorized), Ok(()));
    assert_eq!(gate(LayeCheckResult::Unauthorized), Err(LayeError::Unauthorized));
    assert_eq!(gate(LayeCheckResult::Forbidden), Err(LayeError::Forbidden));
}
