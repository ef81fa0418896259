//! The decisions of the actix-web middleware and extractors.
//!
//! The middleware reads a `P: Principal` from the request's extensions, which an upstream
//! auth middleware must have inserted, evaluates the policy, and either forwards the request
//! or answers 401 / 403. The extractors hand the principal to a handler. The request plumbing
//! itself lives with the web framework; what is decided on the values read is here.

use std::marker::PhantomData;
use std::rc::Rc;

use vstd::prelude::*;

use crate::error::{answer_of, gate, gate_of, LayeError};
use crate::policy::{AccessPolicy, PolicySpec};
use crate::principal::{caller, settled, Principal, PrincipalRef};

verus! {

/// Extractor that resolves a `P: Principal` from request extensions; 401 when it is absent.
///
/// Access the inner value via `.0` or [`into_inner`](Self::into_inner).
pub struct AuthPrincipal<P>(
    /// The extracted principal.
    pub P,
);

impl<P> AuthPrincipal<P> {
    /// Unwraps the inner principal.
    pub fn into_inner(self) -> (p: P)
        ensures
            p == self.0,
    {
        self.0
    }

    /// What the extractor answers with what it found in the request's extensions: the
    /// principal, or `Unauthorized` when there was none.
    pub fn from_extension(found: Option<P>) -> (res: Result<AuthPrincipal<P>, LayeError>)
        ensures
            found matches Some(p) ==> res == Ok::<AuthPrincipal<P>, LayeError>(AuthPrincipal(p)),
            found is None ==> res == Err::<AuthPrincipal<P>, LayeError>(LayeError::Unauthorized),
    {
        match found {
            Some(p) => Ok(AuthPrincipal(p)),
            None => Err(LayeError::Unauthorized),
        }
    }
}

/// Extractor that resolves an optional `P: Principal` from request extensions; it never
/// fails and yields `None` when `P` is absent.
pub struct MaybeAuthPrincipal<P>(
    /// The principal, or `None` if not present in request extensions.
    pub Option<P>,
);

impl<P> MaybeAuthPrincipal<P> {
    /// Unwraps the inner `Option<P>`.
    pub fn into_inner(self) -> (p: Option<P>)
        ensures
            p == self.0,
    {
        self.0
    }

    /// What the extractor answers with what it found in the request's extensions.
    pub fn from_extension(found: Option<P>) -> (res: MaybeAuthPrincipal<P>)
        ensures
            res.0 == found,
    {
        MaybeAuthPrincipal(found)
    }
}

/// The actix-web middleware factory that enforces an [`AccessPolicy`].
pub struct PolicyMiddlewareFactory<P> {
    policy: AccessPolicy,
    _marker: PhantomData<P>,
}

impl<P> PolicyMiddlewareFactory<P> {
    /// The policy that this factory enforces.
    pub closed spec fn policy_view(&self) -> PolicySpec {
        self.policy@
    }

    /// Creates a factory enforcing `policy`.
    pub fn new(policy: AccessPolicy) -> (res: Self)
        ensures
            res.policy_view() == policy@,
    {
        PolicyMiddlewareFactory { policy, _marker: PhantomData }
    }

    /// Wraps `service` in a middleware service that enforces a copy of this factory's policy.
    pub fn transform<S>(&self, service: S) -> (res: PolicyMiddlewareService<S, P>)
        ensures
            res.policy_view() == self.policy_view(),
            *res.service_view() == service,
    {
        PolicyMiddlewareService {
            service: Rc::new(service),
            policy: self.policy.clone(),
            _marker: PhantomData,
        }
    }
}

/// The actix-web middleware service produced by [`PolicyMiddlewareFactory`].
pub struct PolicyMiddlewareService<S, P> {
    service: Rc<S>,
    policy: AccessPolicy,
    _marker: PhantomData<P>,
}

impl<S, P> PolicyMiddlewareService<S, P> {
    /// The policy that this service enforces.
    pub closed spec fn policy_view(&self) -> PolicySpec {
        self.policy@
    }

    /// The wrapped service.
    pub closed spec fn service_view(&self) -> Rc<S> {
        self.service
    }

    /// The wrapped service, which handles the requests that the policy lets through.
    pub fn service(&self) -> (s: &Rc<S>)
        ensures
            *s == self.service_view(),
    {
        &self.service
    }

    /// What the middleware does with a request that carries `principal`: `Ok` forwards it to
    /// the wrapped service, `Err(Unauthorized)` answers 401 and `Err(Forbidden)` answers 403.
    pub fn decide(&self, principal: Option<&dyn Principal>) -> (res: Result<(), LayeError>)
        ensures
            self.policy_view().allows_answer(caller(
                match principal {
                    Some(p) => Some(PrincipalRef { inner: p }),
                    None => None,
                },
            ), answer_of(res)),
            self.policy_view().decided() && settled(caller(
                match principal {
                    Some(p) => Some(PrincipalRef { inner: p }),
                    None => None,
                },
            )) ==> res == gate_of(
                self.policy_view().answer(caller(
                match principal {
                    Some(p) => Some(PrincipalRef { inner: p }),
                    None => None,
                },
            )),
            ),
    {
        gate(self.policy.check(principal))
    }
}

impl AccessPolicy {
    /// Converts this policy into an actix-web [`PolicyMiddlewareFactory`].
    ///
    /// **Prerequisite:** insert `P` into request extensions from an upstream middleware before
    /// this middleware runs.
    pub fn into_actix_middleware<P>(self) -> (res: PolicyMiddlewareFactory<P>)
        where P: Principal + Clone + 'static,
        ensures
            res.policy_view() == self@,
    {
        PolicyMiddlewareFactory::new(self)
    }
}

} // verus!
