//! The decisions of the tower / axum layer.
//!
//! The layer reads a `P: Principal` from the request's extensions, which an upstream
//! middleware must have inserted, evaluates the policy, and either calls the inner service or
//! short-circuits with 401 / 403 without calling it. The request plumbing lives with tower;
//! what is decided on the values read is here.

use std::marker::PhantomData;

use vstd::prelude::*;

use crate::error::{answer_of, gate, gate_of, LayeError};
use crate::policy::{AccessPolicy, PolicySpec};
use crate::principal::{caller, settled, Principal, PrincipalRef};

verus! {

/// tower `Layer` that enforces an [`AccessPolicy`] on every request.
///
/// Produced by [`AccessPolicy::into_tower_layer`].
pub struct AccessControlLayer<P> {
    policy: AccessPolicy,
    _marker: PhantomData<P>,
}

impl<P> AccessControlLayer<P> {
    /// The policy that this layer enforces.
    pub closed spec fn policy_view(&self) -> PolicySpec {
        self.policy@
    }

    /// Creates a new layer wrapping `policy`.
    pub fn new(policy: AccessPolicy) -> (res: Self)
        ensures
            res.policy_view() == policy@,
    {
        AccessControlLayer { policy, _marker: PhantomData }
    }

    /// Wraps `inner` in a service that enforces a copy of this layer's policy.
    pub fn layer<S>(&self, inner: S) -> (res: AccessControlService<S, P>)
        ensures
            res.policy_view() == self.policy_view(),
            res.inner_view() == inner,
    {
        AccessControlService { inner, policy: self.policy.clone(), _marker: PhantomData }
    }
}

impl<P> Clone for AccessControlLayer<P> {
    fn clone(&self) -> (res: Self)
        ensures
            res.policy_view() == self.policy_view(),
    {
        AccessControlLayer { policy: self.policy.clone(), _marker: PhantomData }
    }
}

/// tower `Service` produced by [`AccessControlLayer`].
pub struct AccessControlService<S, P> {
    inner: S,
    policy: AccessPolicy,
    _marker: PhantomData<P>,
}

impl<S, P> AccessControlService<S, P> {
    /// The policy that this service enforces.
    pub closed spec fn policy_view(&self) -> PolicySpec {
        self.policy@
    }

    /// The wrapped service.
    pub closed spec fn inner_view(&self) -> S {
        self.inner
    }

    /// The wrapped service, which is called only for the requests that the policy lets through.
    pub fn inner_mut(&mut self) -> (s: &mut S)
        ensures
            *s == old(self).inner_view(),
            final(self).inner_view() == *final(s),
            final(self).policy_view() == old(self).policy_view(),
    {
        &mut self.inner
    }

    /// What the service does with a request that carries `principal`: `Ok` calls the inner
    /// service, `Err(Unauthorized)` answers 401 and `Err(Forbidden)` answers 403 without calling it.
    pub fn decide(&self, principal: Option<&dyn Principal>) -> (res: Result<(), LayeError>)
        ensures
            self.policy_view().allows_answer(caller(
                match principal {
                    Some(p) => Some(PrincipalRef { inner: p }),
                    None => None,
                },
            ), answer_of(res)),
            self.policy_view().decided() && settled(caller(
                match principal {
                    Some(p) => Some(PrincipalRef { inner: p }),
                    None => None,
                },
            )) ==> res == gate_of(
                self.policy_view().answer(caller(
                match principal {
                    Some(p) => Some(PrincipalRef { inner: p }),
                    None => None,
                },
            )),
            ),
    {
        gate(self.policy.check(principal))
    }
}

impl<S: Clone, P> Clone for AccessControlService<S, P> {
    fn clone(&self) -> (res: Self)
        ensures
            res.policy_view() == self.policy_view(),
    {
        AccessControlService {
            inner: self.inner.clone(),
            policy: self.policy.clone(),
            _marker: PhantomData,
        }
    }
}

impl AccessPolicy {
    /// Converts this policy into a tower [`AccessControlLayer`].
    ///
    /// **Prerequisite:** insert `P` into request extensions from an upstream middleware before
    /// this layer runs.
    pub fn into_tower_layer<P>(self) -> (res: AccessControlLayer<P>)
        where P: Principal + Clone + 'static,
        ensures
            res.policy_view() == self@,
    {
        AccessControlLayer::new(self)
    }
}

} // verus!
