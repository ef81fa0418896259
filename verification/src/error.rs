//! The rejection reasons that the middlewares answer with.

use vstd::prelude::*;

use crate::result::LayeCheckResult;

verus! {

/// Why a request was turned away.
#[derive(Debug, Clone, Copy, PartialEq, Eq, Structural)]
pub enum LayeError {
    /// Maps to HTTP 401.
    Unauthorized,
    /// Maps to HTTP 403.
    Forbidden,
}

/// The HTTP status code that a rejection maps to.
pub open spec fn status_of(e: LayeError) -> u16 {
    match e {
        LayeError::Unauthorized => 401,
        LayeError::Forbidden => 403,
    }
}

/// The text shown for a rejection.
pub open spec fn message_of(e: LayeError) -> Seq<char> {
    match e {
        LayeError::Unauthorized => seq!['U', 'n', 'a', 'u', 't', 'h', 'o', 'r', 'i', 'z', 'e', 'd'],
        LayeError::Forbidden => seq!['F', 'o', 'r', 'b', 'i', 'd', 'd', 'e', 'n'],
    }
}

/// What a middleware does with a policy's answer: let the request through (`Ok`), or turn
/// it away with the matching rejection.
pub open spec fn gate_of(result: LayeCheckResult) -> Result<(), LayeError> {
    match result {
        LayeCheckResult::Authorized => Ok(()),
        LayeCheckResult::Unauthorized => Err(LayeError::Unauthorized),
        LayeCheckResult::Forbidden => Err(LayeError::Forbidden),
    }
}

/// The policy answer that a middleware decision stands for.
pub open spec fn answer_of(decision: Result<(), LayeError>) -> LayeCheckResult {
    match decision {
        Ok(()) => LayeCheckResult::Authorized,
        Err(LayeError::Unauthorized) => LayeCheckResult::Unauthorized,
        Err(LayeError::Forbidden) => LayeCheckResult::Forbidden,
    }
}

impl LayeError {
    /// The HTTP status code of this rejection: 401 or 403.
    pub fn status_code(&self) -> (code: u16)
        ensures
            code == status_of(*self),
    {
        match self {
            LayeError::Unauthorized => 401,
            LayeError::Forbidden => 403,
        }
    }

    /// The text of this rejection: `"Unauthorized"` or `"Forbidden"`.
    pub fn message(&self) -> (text: String)
        ensures
            text@ == message_of(*self),
    {
        match self {
            LayeError::Unauthorized => {
                let s = "Unauthorized";
                proof {
                    reveal_strlit("Unauthorized");
                }
                s.to_owned()
            },
            LayeError::Forbidden => {
                let s = "Forbidden";
                proof {
                    reveal_strlit("Forbidden");
                }
                s.to_owned()
            },
        }
    }
}

/// Turns a policy's answer into what a middleware does: `Ok` lets the request through,
/// `Err` rejects it with 401 or 403.
pub fn gate(result: LayeCheckResult) -> (res: Result<(), LayeError>)
    ensures
        res == gate_of(result),
{
    match result {
        LayeCheckResult::Authorized => Ok(()),
        LayeCheckResult::Unauthorized => Err(LayeError::Unauthorized),
        LayeCheckResult::Forbidden => Err(LayeError::Forbidden),
    }
}

} // verus!
