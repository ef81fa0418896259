//! The [`Principal`] trait that callers implement on their auth type.

use vstd::prelude::*;

use crate::policy::CustomFn;

verus! {

/// The roles and permissions that plain credentials hold, and whether they are authenticated.
pub struct PrincipalView {
    pub roles: Set<Seq<char>>,
    pub permissions: Set<Seq<char>>,
    pub authenticated: bool,
}

/// The names in a list of strings, as character sequences.
pub open spec fn names_of(list: Seq<String>) -> Seq<Seq<char>> {
    list.map_values(|s: String| s@)
}

/// Represents an authenticated (or guest) caller.
///
/// Implement this trait on your own auth info struct: a decoded JWT payload, a loaded database
/// row, or any other type that carries identity and permission data.
///
/// `Principal` is object-safe: all methods take `&self` with no generics, enabling
/// `&dyn Principal` usage inside [`AccessRule::Custom`](crate::AccessRule::Custom).
///
/// `role_names` and `permission_names` are the names that `roles` and `permissions` give;
/// the default `has_role` and `has_permission` are proved to answer by them. An
/// implementation checked by the verifier defines them (see [`Credentials`]). One written in
/// plain Rust cannot, and keeps the empty defaults, which are false of it; the verifier never
/// applies them where the principal's type is not known, and the policies only call
/// principals as `dyn Principal`, where they ask `has_role`, `has_permission` and
/// `is_authenticated` and take whatever these answer.
pub trait Principal {
    /// The names that [`roles`](Self::roles) gives.
    open spec fn role_names(&self) -> Seq<Seq<char>> {
        Seq::empty()
    }

    /// The names that [`permissions`](Self::permissions) gives.
    open spec fn permission_names(&self) -> Seq<Seq<char>> {
        Seq::empty()
    }

    /// Returns the roles assigned to this principal.
    fn roles(&self) -> (r: &[String])
        ensures
            names_of(r@) == self.role_names(),
    ;

    /// Returns the permissions granted to this principal.
    fn permissions(&self) -> (r: &[String])
        ensures
            names_of(r@) == self.permission_names(),
    ;

    /// Returns `true` if this principal is authenticated.
    ///
    /// A principal can be authenticated with zero roles or permissions. Conversely, a guest
    /// value may be passed as `Some(&guest)` with this returning `false` to satisfy
    /// [`AccessRule::Guest`](crate::AccessRule::Guest) while still providing a principal value.
    fn is_authenticated(&self) -> bool;

    /// Returns `true` if `role` appears in [`roles`](Self::roles).
    fn has_role(&self, role: &str) -> (b: bool)
        default_ensures
            b == self.role_names().contains(role@),
    {
        list_contains(self.roles(), role)
    }

    /// Returns `true` if `permission` appears in [`permissions`](Self::permissions).
    fn has_permission(&self, permission: &str) -> (b: bool)
        default_ensures
            b == self.permission_names().contains(permission@),
    {
        list_contains(self.permissions(), permission)
    }
}

/// A principal as a custom closure receives it: a reference to the caller's implementation.
#[derive(Clone, Copy)]
pub struct PrincipalRef<'a> {
    pub inner: &'a dyn Principal,
}

/// Whether `answer` is an answer that the closure `f` gave when called on `principal`.
pub uninterp spec fn custom_answer(f: CustomFn, principal: Option<PrincipalRef>, answer: bool) -> bool;

/// Whether `answer` is an answer that [`Principal::has_role`] of `p` gave for `role`.
pub uninterp spec fn role_answer(p: PrincipalRef, role: Seq<char>, answer: bool) -> bool;

/// Whether `answer` is an answer that [`Principal::has_permission`] of `p` gave for
/// `permission`.
pub uninterp spec fn permission_answer(p: PrincipalRef, permission: Seq<char>, answer: bool) -> bool;

/// Whether `answer` is an answer that [`Principal::is_authenticated`] of `p` gave.
pub uninterp spec fn auth_answer(p: PrincipalRef, answer: bool) -> bool;

/// Asks the caller's [`Principal::has_role`]. Its answer is the caller's logic: all that is
/// known of it is that it is an answer of this principal for this role.
#[verifier::external_body]
fn ask_has_role(p: PrincipalRef, role: &str) -> (b: bool)
    ensures
        role_answer(p, role@, b),
{
    p.inner.has_role(role)
}

/// Asks the caller's [`Principal::has_permission`]; its answer is an answer of this principal
/// for this permission.
#[verifier::external_body]
fn ask_has_permission(p: PrincipalRef, permission: &str) -> (b: bool)
    ensures
        permission_answer(p, permission@, b),
{
    p.inner.has_permission(permission)
}

/// Asks the caller's [`Principal::is_authenticated`]; its answer is an answer of this
/// principal.
#[verifier::external_body]
fn ask_is_authenticated(p: PrincipalRef) -> (b: bool)
    ensures
        auth_answer(p, b),
{
    p.inner.is_authenticated()
}

/// Who a request comes from, as the policies see it: which answers the principal may give
/// when asked whether it has a role or a permission and whether it is authenticated, and
/// which answers a custom closure may give when called on it. For [`Credentials`] each
/// question has exactly one answer; for a caller's own implementation they are whatever its
/// methods answered, which may differ from one call to the next.
pub struct Requester {
    pub roles: spec_fn(Seq<char>, bool) -> bool,
    pub permissions: spec_fn(Seq<char>, bool) -> bool,
    pub authenticated: spec_fn(bool) -> bool,
    pub closures: spec_fn(CustomFn, bool) -> bool,
}

/// The answers of the caller's own principal implementation `p`.
pub open spec fn answers_of(p: PrincipalRef) -> Requester {
    Requester {
        roles: |r: Seq<char>, b: bool| role_answer(p, r, b),
        permissions: |r: Seq<char>, b: bool| permission_answer(p, r, b),
        authenticated: |b: bool| auth_answer(p, b),
        closures: |f: CustomFn, b: bool| custom_answer(f, Some(p), b),
    }
}

/// The answers of a principal whose roles, permissions and authentication are known, handed
/// to closures as `p`.
pub open spec fn known_answers(v: PrincipalView, p: PrincipalRef) -> Requester {
    Requester {
        roles: |r: Seq<char>, b: bool| b == v.roles.contains(r),
        permissions: |r: Seq<char>, b: bool| b == v.permissions.contains(r),
        authenticated: |b: bool| b == v.authenticated,
        closures: |f: CustomFn, b: bool| custom_answer(f, Some(p), b),
    }
}

/// A request from the caller's own principal implementation (or from no principal).
pub open spec fn caller(principal: Option<PrincipalRef>) -> Option<Requester> {
    match principal {
        Some(p) => Some(answers_of(p)),
        None => None,
    }
}

/// Whether every question put to the requester has exactly one possible answer, as for a
/// principal whose methods always answer the same (and for no principal).
pub open spec fn settled(pr: Option<Requester>) -> bool {
    match pr {
        Some(q) => {
            &&& forall|r: Seq<char>| #[trigger] (q.roles)(r, true) != (q.roles)(r, false)
            &&& forall|r: Seq<char>| #[trigger] (q.permissions)(r, true) != (q.permissions)(r, false)
            &&& (q.authenticated)(true) != (q.authenticated)(false)
        },
        None => true,
    }
}

/// Whether the closure `f`, called for this requester, may answer `answer`.
pub open spec fn closure_may(pr: Option<Requester>, f: CustomFn, answer: bool) -> bool {
    match pr {
        Some(q) => (q.closures)(f, answer),
        None => custom_answer(f, None, answer),
    }
}

/// A principal given as plain values: its roles, its permissions, and whether it is
/// authenticated.
pub struct Credentials {
    pub roles: Vec<String>,
    pub permissions: Vec<String>,
    pub authenticated: bool,
}

impl Credentials {
    /// What a policy reads from these credentials.
    pub open spec fn view(&self) -> PrincipalView {
        PrincipalView {
            roles: names_of(self.roles@).to_set(),
            permissions: names_of(self.permissions@).to_set(),
            authenticated: self.authenticated,
        }
    }
}

impl Principal for Credentials {
    open spec fn role_names(&self) -> Seq<Seq<char>> {
        names_of(self.roles@)
    }

    open spec fn permission_names(&self) -> Seq<Seq<char>> {
        names_of(self.permissions@)
    }

    fn roles(&self) -> (r: &[String])
        ensures
            r@ == self.roles@,
    {
        self.roles.as_slice()
    }

    fn permissions(&self) -> (r: &[String])
        ensures
            r@ == self.permissions@,
    {
        self.permissions.as_slice()
    }

    fn is_authenticated(&self) -> (b: bool)
        ensures
            b == self.authenticated,
    {
        self.authenticated
    }
}

/// A request from optional credentials.
pub open spec fn from_credentials(credentials: Option<&Credentials>) -> Option<Requester> {
    match credentials {
        Some(c) => Some(known_answers(c.view(), PrincipalRef { inner: c })),
        None => None,
    }
}

/// Who answers a policy's questions: a caller's principal, through its trait methods, or
/// credentials given as plain values.
#[derive(Clone, Copy)]
pub(crate) enum Answerer<'a> {
    Caller(PrincipalRef<'a>),
    Known(&'a Credentials),
}

/// The answers of an answerer.
pub(crate) open spec fn answers_of_answerer(who: Answerer) -> Requester {
    match who {
        Answerer::Caller(p) => answers_of(p),
        Answerer::Known(c) => known_answers(c.view(), PrincipalRef { inner: c }),
    }
}

/// The requester that an optional answerer stands for.
pub(crate) open spec fn requester_of(who: Option<Answerer>) -> Option<Requester> {
    match who {
        Some(w) => Some(answers_of_answerer(w)),
        None => None,
    }
}

impl<'a> Answerer<'a> {
    /// Whether the principal has `role`.
    pub(crate) fn has_role(&self, role: &str) -> (b: bool)
        ensures
            (answers_of_answerer(*self).roles)(role@, b),
    {
        match self {
            Answerer::Caller(p) => ask_has_role(*p, role),
            Answerer::Known(c) => {
                let found = list_contains(c.roles.as_slice(), role);
                proof {
                    lemma_contains_to_set(names_of(c.roles@), role@);
                }
                found
            },
        }
    }

    /// Whether the principal has `permission`.
    pub(crate) fn has_permission(&self, permission: &str) -> (b: bool)
        ensures
            (answers_of_answerer(*self).permissions)(permission@, b),
    {
        match self {
            Answerer::Caller(p) => ask_has_permission(*p, permission),
            Answerer::Known(c) => {
                let found = list_contains(c.permissions.as_slice(), permission);
                proof {
                    lemma_contains_to_set(names_of(c.permissions@), permission@);
                }
                found
            },
        }
    }

    /// Whether the principal is authenticated.
    pub(crate) fn is_authenticated(&self) -> (b: bool)
        ensures
            (answers_of_answerer(*self).authenticated)(b),
    {
        match self {
            Answerer::Caller(p) => ask_is_authenticated(*p),
            Answerer::Known(c) => c.authenticated,
        }
    }

    /// The principal as handed to a custom closure.
    pub(crate) fn principal(&self) -> (r: PrincipalRef<'a>)
        ensures
            self matches Answerer::Caller(p) ==> r == p,
            self matches Answerer::Known(c) ==> r == (PrincipalRef { inner: *c }),
    {
        match self {
            Answerer::Caller(p) => *p,
            Answerer::Known(c) => PrincipalRef { inner: *c },
        }
    }
}

proof fn lemma_contains_to_set(names: Seq<Seq<char>>, name: Seq<char>)
    ensures
        names.contains(name) == names.to_set().contains(name),
{
}

/// Returns `true` if `name` is one of the strings in `list`.
pub(crate) fn list_contains(list: &[String], name: &str) -> (found: bool)
    ensures
        found == names_of(list@).contains(name@),
{
    let wanted: String = name.to_owned();
    let mut i: usize = 0;
    while i < list.len()
        invariant
            0 <= i <= list@.len(),
            wanted@ == name@,
            forall|j: int| 0 <= j < i ==> list@[j]@ != name@,
        decreases list@.len() - i,
    {
        if list[i] == wanted {
            assert(names_of(list@)[i as int] == name@);
            return true;
        }
        i = i + 1;
    }
    proof {
        if names_of(list@).contains(name@) {
            let k = choose|k: int| 0 <= k < names_of(list@).len() && names_of(list@)[k] == name@;
            assert(list@[k]@ == name@);
        }
    }
    false
}

} // verus!
