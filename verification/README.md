# laye

Role- and permission-based access control. Policies are built from rules (`Role`,
`NotRole`, `Permission`, `NotPermission`, `Authenticated`, `Guest`, `Custom`) combined with
AND (`require_all`) or OR (`require_any`) and nested at will, and evaluated against an
optional principal: `Authorized`, `Unauthorized` (no principal) or `Forbidden` (principal
present but refused).

## Layout

- `src/` — the library, with its contracts and proofs.
  - `policy.rs`: rules, policies, their mathematical form (`PolicySpec`) and evaluation.
  - `principal.rs`: the `Principal` trait, plain `Credentials`, and the view of a principal.
  - `result.rs`, `error.rs`: answers, rejections and the middleware gate (401 / 403).
  - `actix.rs`, `tower_middleware.rs`: what the middlewares and extractors decide.
  - `laws.rs`: properties of policy evaluation; each states the policies and requesters it
    covers (several hold only without custom closures and for a principal whose every
    question has one answer).
- `app/` — the actix-web and tower trait implementations around the library. The
  library's `into_tower_layer` and `into_actix_middleware` give its own types; the framework
  traits are implemented on `app/`'s wrappers (`app::tower_middleware::into_tower_layer`,
  `app::actix::into_actix_middleware`).
- `tests/` — tests run against the compiled library.
