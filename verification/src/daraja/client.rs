//! The client-side logic of the Daraja API: endpoint URLs, the OAuth token
//! cache, and how failed responses become errors.
use vstd::prelude::*;

use crate::daraja::models::{error_description, opt_view, DarajaErrorResponse, OAuthTokenResponse};
use crate::decimal::{parse_i64, parse_i64_text};
use crate::error::{api_error, Error};

verus! {

/// How much earlier than the server's stated expiry a cached token is
/// considered stale (30 s, in nanoseconds), so a request in flight never
/// races an actual expiry.
pub const TOKEN_EXPIRY_SKEW_NANOS: i128 = 30_000_000_000;

/// `{base_url}/oauth/v1/generate?grant_type=client_credentials`.
pub fn oauth_url(base_url: &str) -> (url: String)
    ensures
        url@ == base_url@ + "/oauth/v1/generate?grant_type=client_credentials"@,
{
    let mut url = String::from_str(base_url);
    url.append("/oauth/v1/generate?grant_type=client_credentials");
    url
}

/// `{base_url}/mpesa/stkpush/v1/processrequest`.
pub fn stk_push_url(base_url: &str) -> (url: String)
    ensures
        url@ == base_url@ + "/mpesa/stkpush/v1/processrequest"@,
{
    let mut url = String::from_str(base_url);
    url.append("/mpesa/stkpush/v1/processrequest");
    url
}

/// An access token and the instant it expires, in nanoseconds since the
/// Unix epoch.
#[derive(Debug, Clone)]
pub struct CachedToken {
    pub access_token: String,
    pub expires_at: i128,
}

/// The in-memory OAuth token cache of a Daraja client.
#[derive(Debug, Clone)]
pub struct TokenCache {
    pub cached: Option<CachedToken>,
}

/// A cached token is still usable at `now` while its expiry, brought
/// forward by the skew, lies after `now`.
pub open spec fn fresh(token: CachedToken, now: int) -> bool {
    token.expires_at - TOKEN_EXPIRY_SKEW_NANOS > now
}

/// What a lookup at `now` hands back.
pub open spec fn lookup_result(cache: TokenCache, now: int) -> Option<Seq<char>> {
    match cache.cached {
        Some(token) => if fresh(token, now) {
            Some(token.access_token@)
        } else {
            None
        },
        None => None,
    }
}

impl TokenCache {
    /// An empty cache.
    pub fn new() -> (c: TokenCache)
        ensures
            c.cached is None,
    {
        TokenCache { cached: None }
    }

    /// The cached access token, if there is one that has not (nearly) expired.
    pub fn lookup(&self, now: i128) -> (r: Option<String>)
        requires
            match self.cached {
                Some(token) => token.expires_at >= i128::MIN + TOKEN_EXPIRY_SKEW_NANOS,
                None => true,
            },
        ensures
            match r {
                Some(t) => lookup_result(*self, now as int) == Some(t@),
                None => lookup_result(*self, now as int) is None,
            },
    {
        match &self.cached {
            Some(token) => {
                if token.expires_at - TOKEN_EXPIRY_SKEW_NANOS > now {
                    Some(token.access_token.clone())
                } else {
                    None
                }
            },
            None => None,
        }
    }

    /// Replaces whatever was cached with `token`.
    pub fn store(&mut self, token: CachedToken)
        ensures
            final(self).cached == Some(token),
    {
        self.cached = Some(token);
    }
}

/// A token just stored is served back by the cache for exactly as long as
/// it is fresh, whatever the cache held before.
pub proof fn stored_token_is_served(before: TokenCache, token: CachedToken, now: int)
    ensures
        lookup_result(TokenCache { cached: Some(token), ..before }, now) == if fresh(token, now) {
            Some(token.access_token@)
        } else {
            None::<Seq<char>>
        },
{
}

/// A cached token stays stale once stale: if it is not fresh at `now`, it
/// is not fresh at any later instant either.
pub proof fn stale_stays_stale(token: CachedToken, now: int, later: int)
    requires
        now <= later,
        !fresh(token, now),
    ensures
        !fresh(token, later),
{
}

pub open spec fn bad_expires_in_message(expires_in: Seq<char>) -> Seq<char> {
    "unexpected expires_in value: "@ + expires_in
}

/// The token lifetime, in seconds, that an OAuth response states.
pub fn parse_expires_in(body: &OAuthTokenResponse) -> (r: Result<i64, Error>)
    ensures
        match parse_i64(body.expires_in@) {
            Some(v) => r == Ok::<i64, Error>(v as i64),
            None => r matches Err(e) && api_error(e, bad_expires_in_message(body.expires_in@)),
        },
{
    match parse_i64_text(body.expires_in.as_str()) {
        Some(v) => Ok(v),
        None => {
            let mut msg = String::from_str("unexpected expires_in value: ");
            msg.append(body.expires_in.as_str());
            Err(Error::Api(msg))
        },
    }
}

/// The message of a failed response: Daraja's own error description when
/// the body is one of its error responses, the raw body otherwise.
pub open spec fn failure_text(status: Seq<char>, body: Seq<char>, parsed: Option<DarajaErrorResponse>) -> Seq<char> {
    "HTTP "@ + status + ": "@ + match parsed {
        Some(err) => error_description(opt_view(err.error_code), opt_view(err.error_message)),
        None => body,
    }
}

/// The error for a response whose status is not 200 OK, from the status
/// as displayed, the response body, and that body parsed as a Daraja
/// error response when it is one.
pub fn failure_error(status: &str, body: &str, parsed: &Option<DarajaErrorResponse>) -> (e: Error)
    ensures
        api_error(e, failure_text(status@, body@, *parsed)),
{
    let mut msg = String::from_str("HTTP ");
    msg.append(status);
    msg.append(": ");
    match parsed {
        Some(err) => msg.append(err.description().as_str()),
        None => msg.append(body),
    }
    Error::Api(msg)
}

} // verus!
