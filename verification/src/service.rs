//! Authentication of the worker's service calls, and reading permission
//! checks.
//!
//! A service token is accepted only when it is a bearer token, signed with an
//! asymmetric algorithm that the key itself declares, and issued to the one
//! caller allowed. A permission check has two definite answers, has or has
//! not; anything else is an unknown outcome on which callers fail closed.

use vstd::prelude::*;

use crate::digest::push_chars;
use crate::text::{chars_of, string_from_chars, text_eq};

verus! {

/// Why a service call is not authenticated.
#[derive(Debug, Clone, Copy, PartialEq, Eq, Structural)]
pub enum ServiceAuthError {
    /// No `Authorization: Bearer` token.
    TokenMissing,
    /// The token cannot be verified.
    TokenInvalid,
    /// The signing keys cannot be had.
    KeysUnavailable,
}

/// The bearer token of an `Authorization` header: the text after
/// `Bearer `, which must not be empty.
pub open spec fn bearer_of(header: Option<Seq<char>>) -> Option<Seq<char>> {
    match header {
        Some(h) => if h.len() > 7 && h.subrange(0, 7) == "Bearer "@ {
            Some(h.subrange(7, h.len() as int))
        } else {
            None
        },
        None => None,
    }
}

/// Takes the bearer token out of an `Authorization` header.
pub fn bearer_token(header: Option<&str>) -> (r: Result<String, ServiceAuthError>)
    ensures
        (match bearer_of(
            match header {
                Some(h) => Some(h@),
                None => None,
            },
        ) {
            Some(t) => r matches Ok(x) && x@ == t,
            None => r == Err::<String, ServiceAuthError>(ServiceAuthError::TokenMissing),
        }),
{
    let h = match header {
        None => {
            return Err(ServiceAuthError::TokenMissing);
        },
        Some(h) => h,
    };
    let c = chars_of(h);
    proof {
        reveal_strlit("Bearer ");
    }
    if c.len() > 7 && c[0] == 'B' && c[1] == 'e' && c[2] == 'a' && c[3] == 'r' && c[4] == 'e' && c[5] == 'r' && c[6]
        == ' ' {
        assert(h@.subrange(0, 7) =~= "Bearer "@);
        let mut t: Vec<char> = Vec::new();
        let mut i: usize = 7;
        while i < c.len()
            invariant
                7 <= i <= c@.len(),
                c@ == h@,
                t@ == c@.subrange(7, i as int),
            decreases c.len() - i,
        {
            t.push(c[i]);
            i = i + 1;
            assert(t@ =~= c@.subrange(7, i as int));
        }
        Ok(string_from_chars(t.as_slice()))
    } else {
        proof {
            if c@.len() > 7 {
                let p = h@.subrange(0, 7);
                if p == "Bearer "@ {
                    assert(p[0] == 'B' && p[1] == 'e' && p[2] == 'a' && p[3] == 'r' && p[4] == 'e' && p[5] == 'r'
                        && p[6] == ' ');
                }
            }
        }
        Err(ServiceAuthError::TokenMissing)
    }
}

/// The signature algorithms a service token may use: asymmetric only.
#[derive(Debug, Clone, Copy, PartialEq, Eq, Structural)]
pub enum TokenAlgorithm {
    RS256,
    RS384,
    RS512,
    ES256,
    ES384,
    EdDSA,
}

/// The algorithm a key's declared algorithm name admits. The token header's
/// own `alg` is never read: it is the caller's to choose, and choosing by it
/// lets a symmetric or absent signature pass.
pub open spec fn algorithm_of(declared: Seq<char>) -> Option<TokenAlgorithm> {
    if declared == "RS256"@ {
        Some(TokenAlgorithm::RS256)
    } else if declared == "RS384"@ {
        Some(TokenAlgorithm::RS384)
    } else if declared == "RS512"@ {
        Some(TokenAlgorithm::RS512)
    } else if declared == "ES256"@ {
        Some(TokenAlgorithm::ES256)
    } else if declared == "ES384"@ {
        Some(TokenAlgorithm::ES384)
    } else if declared == "EdDSA"@ {
        Some(TokenAlgorithm::EdDSA)
    } else {
        None
    }
}

/// The algorithm to verify with, from the key's declaration; `TokenInvalid`
/// when the key declares none or another one.
pub fn key_algorithm(declared: Option<&str>) -> (r: Result<TokenAlgorithm, ServiceAuthError>)
    ensures
        (match declared {
            None => r == Err::<TokenAlgorithm, ServiceAuthError>(ServiceAuthError::TokenInvalid),
            Some(d) => match algorithm_of(d@) {
                Some(a) => r == Ok::<TokenAlgorithm, ServiceAuthError>(a),
                None => r == Err::<TokenAlgorithm, ServiceAuthError>(ServiceAuthError::TokenInvalid),
            },
        }),
{
    let d = match declared {
        None => {
            return Err(ServiceAuthError::TokenInvalid);
        },
        Some(d) => d,
    };
    if text_eq(d, "RS256") {
        Ok(TokenAlgorithm::RS256)
    } else if text_eq(d, "RS384") {
        Ok(TokenAlgorithm::RS384)
    } else if text_eq(d, "RS512") {
        Ok(TokenAlgorithm::RS512)
    } else if text_eq(d, "ES256") {
        Ok(TokenAlgorithm::ES256)
    } else if text_eq(d, "ES384") {
        Ok(TokenAlgorithm::ES384)
    } else if text_eq(d, "EdDSA") {
        Ok(TokenAlgorithm::EdDSA)
    } else {
        Err(ServiceAuthError::TokenInvalid)
    }
}

/// The authorized party of a verified token must be the one caller allowed:
/// the audience says the token was issued for this service, the authorized
/// party says who is calling.
pub fn caller_allowed(azp: String, caller_client_id: &str) -> (r: Result<String, ServiceAuthError>)
    ensures
        azp@ == caller_client_id@ ==> r == Ok::<String, ServiceAuthError>(azp),
        azp@ != caller_client_id@ ==> r == Err::<String, ServiceAuthError>(ServiceAuthError::TokenInvalid),
{
    if text_eq(azp.as_str(), caller_client_id) {
        Ok(azp)
    } else {
        Err(ServiceAuthError::TokenInvalid)
    }
}

/// How strict a permission check's consistency is.
#[derive(Debug, Clone, Copy, PartialEq, Eq, Structural)]
pub enum Consistency {
    /// Admission, re-admission and approver eligibility: an external effect
    /// follows and no causal token is at hand.
    FullyConsistent,
    /// Lists and discovery: latency matters, and acting still checks afresh.
    MinimizeLatency,
}

/// The consistency member of a check request.
pub fn consistency_json(c: Consistency) -> (r: &'static str)
    ensures
        r@ == (match c {
            Consistency::FullyConsistent => "{\"fullyConsistent\":true}"@,
            Consistency::MinimizeLatency => "{\"minimizeLatency\":true}"@,
        }),
{
    match c {
        Consistency::FullyConsistent => "{\"fullyConsistent\":true}",
        Consistency::MinimizeLatency => "{\"minimizeLatency\":true}",
    }
}

/// A permission service failure: unreachable or unclear.
#[derive(Debug, Clone, PartialEq, Eq)]
pub enum SpiceDbError {
    Unavailable(String),
}

/// The answer of a check and the revision it was made at.
#[derive(Debug, Clone, PartialEq, Eq)]
pub struct Checked {
    pub allowed: bool,
    pub zed_token: String,
}

/// Reads a check's answer: only a successful response is an answer, and it
/// allows only on `PERMISSIONSHIP_HAS_PERMISSION` (a conditional answer is a
/// no). A missing revision reads as empty.
pub fn check_answer(success: bool, permissionship: &str, token: Option<String>) -> (r: Result<Checked, SpiceDbError>)
    ensures
        !success ==> r is Err,
        success ==> (r matches Ok(c) && c.allowed == (permissionship@ == "PERMISSIONSHIP_HAS_PERMISSION"@) && (
        match token {
            Some(t) => c.zed_token == t,
            None => c.zed_token@.len() == 0,
        })),
{
    if !success {
        return Err(SpiceDbError::Unavailable("permission check did not succeed".to_owned()));
    }
    let zed_token = match token {
        Some(t) => t,
        None => String::new(),
    };
    Ok(Checked { allowed: text_eq(permissionship, "PERMISSIONSHIP_HAS_PERMISSION"), zed_token })
}

/// `s` without its trailing slashes (`str::trim_end_matches('/')`).
pub open spec fn without_trailing_slashes(s: Seq<char>) -> Seq<char>
    decreases s.len(),
{
    if s.len() > 0 && s.last() == '/' {
        without_trailing_slashes(s.drop_last())
    } else {
        s
    }
}

/// The check endpoint under a base URL, whatever trailing slashes the base
/// has.
pub fn check_url(base: &str) -> (r: String)
    ensures
        r@ == without_trailing_slashes(base@) + "/v1/permissions/check"@,
{
    let c = chars_of(base);
    let mut n: usize = c.len();
    proof {
        assert(c@.subrange(0, n as int) =~= c@);
    }
    while n > 0 && c[n - 1] == '/'
        invariant
            n <= c@.len(),
            c@ == base@,
            without_trailing_slashes(base@) == without_trailing_slashes(c@.subrange(0, n as int)),
        decreases n,
    {
        proof {
            assert(c@.subrange(0, n as int).drop_last() =~= c@.subrange(0, n - 1));
        }
        n = n - 1;
    }
    let mut v: Vec<char> = Vec::new();
    let mut i: usize = 0;
    while i < n
        invariant
            i <= n <= c@.len(),
            v@ == c@.subrange(0, i as int),
        decreases n - i,
    {
        v.push(c[i]);
        i = i + 1;
        assert(v@ =~= c@.subrange(0, i as int));
    }
    let tail = chars_of("/v1/permissions/check");
    push_chars(&mut v, tail.as_slice());
    string_from_chars(v.as_slice())
}

/// The preshared key must not be empty.
pub fn preshared_key_usable(key: &str) -> (r: bool)
    ensures
        r == (key@.len() > 0),
{
    !key.is_empty()
}

} // verus!
