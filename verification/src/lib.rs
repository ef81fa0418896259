//! Role- and permission-based access control: composable policies evaluated against a
//! principal, with the decisions that the HTTP middlewares take on their answers.

pub mod actix;
pub mod error;
pub mod laws;
pub mod policy;
pub mod principal;
pub mod result;
pub mod rule_laws;
pub mod tower_middleware;

pub use error::LayeError;
pub use policy::{AccessPolicy, AccessRule, CustomFn};
pub use principal::{Credentials, Principal};
pub use result::LayeCheckResult;
