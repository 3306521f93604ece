//! The authentication guard: every artifact endpoint is gated by a bearer
//! token drawn from the configured accepted-token set; only the status
//! endpoint is exempt.
//!
//! The guard has three failure outcomes, checked in order: no token set
//! configured (an operational misconfiguration, reported as a bad request),
//! missing or malformed credentials, and a token outside the accepted set.
//! Token comparison is exact string membership; there is deliberately no
//! hashing and no timing-attack mitigation, a known weakness of the design
//! that is preserved, not fixed.

use vstd::prelude::*;
use vstd::string::{StrSliceExecFns, StringExecFns};

verus! {

/// Outcome of the guard for one request, in evaluation order.
#[derive(Clone, Copy, Debug, PartialEq, Eq, Structural)]
pub enum AuthDecision {
    /// No accepted-token set is configured at all.
    MissingConfig,
    /// The request carries no `Authorization` header.
    MissingHeader,
    /// The header does not have the `Bearer <token>` shape.
    MalformedHeader,
    /// The presented token is not in the accepted set.
    InvalidToken,
    /// The request may proceed unchanged.
    Allowed,
}

/// Whether an `Authorization` header value has the `Bearer <token>` shape.
pub open spec fn is_bearer_header(h: Seq<char>) -> bool {
    h.len() >= 7 && h.subrange(0, 7) == "Bearer "@
}

/// The token a well-shaped `Authorization` header presents.
pub open spec fn spec_bearer_token(h: Seq<char>) -> Seq<char> {
    h.skip(7)
}

/// The guard's decision as a function of the configured token set and the
/// request's `Authorization` header.
pub open spec fn spec_auth_decision(
    tokens: Option<Seq<Seq<char>>>,
    header: Option<Seq<char>>,
) -> AuthDecision {
    if tokens is None {
        AuthDecision::MissingConfig
    } else if header is None {
        AuthDecision::MissingHeader
    } else if !is_bearer_header(header.unwrap()) {
        AuthDecision::MalformedHeader
    } else if !tokens.unwrap().contains(spec_bearer_token(header.unwrap())) {
        AuthDecision::InvalidToken
    } else {
        AuthDecision::Allowed
    }
}

/// The token set an optional configuration presents to the guard.
pub open spec fn spec_tokens_view(tokens: Option<&Vec<String>>) -> Option<Seq<Seq<char>>> {
    match tokens {
        None => None,
        Some(v) => Some(v.deep_view()),
    }
}

/// The header value an optional `Authorization` header presents.
pub open spec fn spec_header_view(header: Option<&String>) -> Option<Seq<char>> {
    match header {
        None => None,
        Some(h) => Some(h@),
    }
}

/// Splits `Bearer <token>` into its token, or reports a malformed header.
pub fn extract_bearer_token(header: &str) -> (r: Option<String>)
    ensures
        (r is Some) == is_bearer_header(header@),
        r is Some ==> r.unwrap()@ == spec_bearer_token(header@),
{
    let n = header.unicode_len();
    if n < 7 {
        return None;
    }
    let prefix = header.substring_char(0, 7);
    if String::from_str(prefix) == String::from_str("Bearer ") {
        let token = String::from_str(header.substring_char(7, n));
        proof {
            assert(token@ =~= spec_bearer_token(header@));
        }
        Some(token)
    } else {
        None
    }
}

/// Exact-string membership of `token` in the accepted set.
pub fn token_accepted(tokens: &Vec<String>, token: &String) -> (r: bool)
    ensures
        r == tokens.deep_view().contains(token@),
{
    let n = tokens.len();
    let mut i: usize = 0;
    while i < n
        invariant
            n == tokens@.len(),
            0 <= i <= n,
            forall|j: int| 0 <= j < i ==> tokens@[j]@ != token@,
        decreases n - i,
    {
        if tokens[i] == *token {
            proof {
                assert(tokens.deep_view()[i as int] == token@);
            }
            return true;
        }
        i = i + 1;
    }
    proof {
        assert forall|j: int| 0 <= j < tokens.deep_view().len() implies tokens.deep_view()[j]
            != token@ by {
            assert(tokens.deep_view()[j] == tokens@[j]@);
        }
    }
    false
}

/// The authentication guard. It holds no state of its own: the accepted
/// tokens come from the shared configuration, passed in per request.
pub struct Auth;

impl Auth {
    /// Evaluates the guard for one request. `tokens` is `None` when no
    /// configuration is available at all.
    pub fn check(tokens: Option<&Vec<String>>, authorization: Option<&String>) -> (d: AuthDecision)
        ensures
            d == spec_auth_decision(spec_tokens_view(tokens), spec_header_view(authorization)),
    {
        let accepted = match tokens {
            None => {
                return AuthDecision::MissingConfig;
            },
            Some(v) => v,
        };
        let header = match authorization {
            None => {
                return AuthDecision::MissingHeader;
            },
            Some(h) => h,
        };
        match extract_bearer_token(header.as_str()) {
            None => AuthDecision::MalformedHeader,
            Some(token) => {
                if token_accepted(accepted, &token) {
                    AuthDecision::Allowed
                } else {
                    AuthDecision::InvalidToken
                }
            },
        }
    }
}

} // verus!
