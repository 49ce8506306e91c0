//! The service's own access token, taken with client credentials and reused
//! until the expiry the identity provider declared. A token the peer refuses
//! is dropped by the caller and taken anew; no early-renewal margin is
//! guessed.

use vstd::prelude::*;

use crate::config::missing_message;
use crate::digest::push_chars;
use crate::text::{chars_of, string_from_chars};

verus! {

/// Why no token could be had.
#[derive(Debug, Clone, PartialEq, Eq)]
pub enum TokenError {
    /// The token endpoint answered outside 2xx, with this status.
    Rejected(u16),
    /// The identity provider could not be reached or its answer not read.
    Transport(String),
    /// The answer held no access token.
    Malformed,
}

/// A token kept for reuse, with the time (seconds on a monotonic clock) up
/// to which it may be handed out.
#[derive(Debug, Clone, PartialEq, Eq)]
pub struct CachedToken {
    pub token: String,
    pub valid_until: u64,
}

/// The kept token, while the clock is still before its expiry.
pub fn reusable_token(cached: &Option<CachedToken>, now: u64) -> (r: Option<String>)
    ensures
        (match *cached {
            Some(c) => if now < c.valid_until {
                r matches Some(t) && t@ == c.token@
            } else {
                r is None
            },
            None => r is None,
        }),
{
    match cached {
        Some(c) => if now < c.valid_until {
            Some(c.token.as_str().to_owned())
        } else {
            None
        },
        None => None,
    }
}

/// What an answer of the token endpoint gives: a status outside 2xx is a
/// refusal; then an unreadable body is a transport failure and an empty
/// token is malformed; otherwise the token, kept until `now` plus the
/// lifetime it was issued with.
pub fn token_answer(status: u16, body: Result<(String, u64), String>, now: u64) -> (r: Result<
    (String, CachedToken),
    TokenError,
>)
    requires
        body matches Ok((_, expires_in)) ==> now + expires_in <= u64::MAX,
    ensures
        !(200 <= status <= 299) ==> r == Err::<(String, CachedToken), TokenError>(TokenError::Rejected(status)),
        200 <= status <= 299 ==> (match body {
            Err(e) => r matches Err(TokenError::Transport(m)) && m@ == e@,
            Ok((t, expires_in)) => if t@.len() == 0 {
                r == Err::<(String, CachedToken), TokenError>(TokenError::Malformed)
            } else {
                r matches Ok((tok, c)) && tok@ == t@ && c.token@ == t@ && c.valid_until == now + expires_in
            },
        }),
{
    if !(200 <= status && status <= 299) {
        return Err(TokenError::Rejected(status));
    }
    match body {
        Err(e) => Err(TokenError::Transport(e)),
        Ok((t, expires_in)) => {
            if t.as_str().unicode_len() == 0 {
                return Err(TokenError::Malformed);
            }
            let kept = t.as_str().to_owned();
            Ok((t, CachedToken { token: kept, valid_until: now + expires_in }))
        },
    }
}

/// Where and as whom the service asks for its token.
#[derive(Debug, Clone, PartialEq, Eq)]
pub struct TokenSettings {
    pub token_url: String,
    pub client_id: String,
    pub secret: String,
}

fn required(name: &str, raw: Option<String>) -> (r: Result<String, String>)
    ensures
        (match raw {
            Some(v) => r == Ok::<String, String>(v),
            None => r matches Err(m) && m@ == missing_message(name@),
        }),
{
    match raw {
        Some(v) => Ok(v),
        None => {
            let mut m: Vec<char> = Vec::new();
            let a = chars_of("缺少 ");
            push_chars(&mut m, a.as_slice());
            let b = chars_of(name);
            push_chars(&mut m, b.as_slice());
            Err(string_from_chars(m.as_slice()))
        },
    }
}

impl TokenSettings {
    /// The settings from `OIDC_TOKEN_URL`, `OIDC_SERVICE_CLIENT_ID` and
    /// `OIDC_SERVICE_CLIENT_SECRET`; the first missing one is reported.
    pub fn from_values(token_url: Option<String>, client_id: Option<String>, secret: Option<String>) -> (r: Result<
        Self,
        String,
    >)
        ensures
            (match (token_url, client_id, secret) {
                (Some(u), Some(c), Some(s)) => r == Ok::<Self, String>(
                    TokenSettings { token_url: u, client_id: c, secret: s },
                ),
                (None, _, _) => r matches Err(m) && m@ == missing_message("OIDC_TOKEN_URL"@),
                (Some(_), None, _) => r matches Err(m) && m@ == missing_message("OIDC_SERVICE_CLIENT_ID"@),
                (Some(_), Some(_), None) => r matches Err(m) && m@ == missing_message(
                    "OIDC_SERVICE_CLIENT_SECRET"@,
                ),
            }),
    {
        let token_url = required("OIDC_TOKEN_URL", token_url)?;
        let client_id = required("OIDC_SERVICE_CLIENT_ID", client_id)?;
        let secret = required("OIDC_SERVICE_CLIENT_SECRET", secret)?;
        Ok(TokenSettings { token_url, client_id, secret })
    }
}

} // verus!
