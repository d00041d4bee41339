//! IBM Cloud IAM bearer tokens: when a token is renewed, how it is requested
//! and how the answer is read.
use vstd::prelude::*;

use crate::text::concat2;

verus! {

/// Errors of token renewal.
#[derive(Debug, Clone)]
pub enum AuthError {
    /// The request could not be sent or its answer not read; the transport's message.
    Reqwest(String),
    /// The answer lacks the token, its expiration or its lifetime.
    AuthTokenError,
    /// The service refused the request.
    InvalidResponse(String),
}

/// Integer division rounding toward zero, as Rust's `/` does.
pub open spec fn trunc_div(a: int, d: int) -> int {
    if a >= 0 {
        a / d
    } else {
        -((-a) / d)
    }
}

/// Divides `a` by a positive `d`, rounding toward zero.
pub fn trunc_div_i64(a: i64, d: i64) -> (r: i64)
    requires
        d > 0,
    ensures
        r == trunc_div(a as int, d as int),
{
    if a >= 0 {
        a / d
    } else {
        let q: i128 = (-(a as i128)) / (d as i128);
        assert(q <= -(a as int)) by (nonlinear_arith)
            requires
                q == (-(a as int)) / (d as int),
                d >= 1,
                -(a as int) > 0,
        ;
        (-q) as i64
    }
}

/// `SystemTime::now().duration_since(UNIX_EPOCH)` in whole seconds, `None`
/// when the clock is set before 1970. Nothing is claimed of the result: it is
/// the machine's clock.
#[verifier::external_body]
fn unix_time_secs() -> Option<u64> {
    match std::time::SystemTime::now().duration_since(std::time::UNIX_EPOCH) {
        Ok(d) => Some(d.as_secs()),
        Err(_) => None,
    }
}

/// Converts whole seconds since the epoch, as the clock reports them, into a
/// signed timestamp: `None` when the clock is set before the epoch or the
/// count does not fit in `i64`.
pub fn timestamp_from_secs(secs: Option<u64>) -> (r: Option<i64>)
    ensures
        r == (match secs {
            Some(s) => if s <= i64::MAX { Some(s as i64) } else { None::<i64> },
            None => None::<i64>,
        }),
{
    match secs {
        Some(s) => if s <= i64::MAX as u64 {
            Some(s as i64)
        } else {
            None
        },
        None => None,
    }
}

/// Returns the current Unix timestamp in seconds; `None` when the clock is
/// set before the epoch.
pub fn current_unix_timestamp() -> (r: Option<i64>)
    ensures
        r matches Some(t) ==> t >= 0,
{
    timestamp_from_secs(unix_time_secs())
}

/// A token is renewed when less than 360 seconds of it remain, or less than
/// 10% of its lifetime.
pub open spec fn spec_token_needs_refresh(now: int, token_expiration: int, token_lifetime: int) -> bool {
    let remaining = token_expiration - now;
    remaining < 360 || 10 * remaining < token_lifetime
}

/// Returns true when the token must be renewed at time `now`.
pub fn token_needs_refresh(now: i64, token_expiration: i64, token_lifetime: i64) -> (r: bool)
    ensures
        r == spec_token_needs_refresh(now as int, token_expiration as int, token_lifetime as int),
{
    let remaining: i128 = token_expiration as i128 - now as i128;
    remaining < 360 || 10 * remaining < token_lifetime as i128
}

/// A token request: the address and the form fields.
#[derive(Debug, Clone)]
pub struct TokenRequest {
    /// Where the request is posted.
    pub url: String,
    /// The form fields, in order.
    pub form: Vec<(String, String)>,
}

/// The grant type of an API key token request.
pub open spec fn spec_apikey_grant_type() -> Seq<char> {
    "urn:ibm:params:oauth:grant-type:apikey"@
}

/// Whether `r` is the request that exchanges `api_key` for a bearer token at
/// `iam_endpoint`: posted to `<iam_endpoint>/identity/token` with the form
/// `grant_type` set to the API key grant, then `apikey`.
pub open spec fn is_token_request(r: TokenRequest, api_key: Seq<char>, iam_endpoint: Seq<char>) -> bool {
    &&& r.url@ == iam_endpoint + "/identity/token"@
    &&& r.form@.len() == 2
    &&& r.form@[0].0@ == "grant_type"@
    &&& r.form@[0].1@ == spec_apikey_grant_type()
    &&& r.form@[1].0@ == "apikey"@
    &&& r.form@[1].1@ == api_key
}

/// Builds the request that exchanges `api_key` for a bearer token at
/// `iam_endpoint`.
pub fn token_request(api_key: &str, iam_endpoint: &str) -> (r: TokenRequest)
    ensures
        r.url@ == iam_endpoint@ + "/identity/token"@,
        r.form@.len() == 2,
        r.form@[0].0@ == "grant_type"@,
        r.form@[0].1@ == spec_apikey_grant_type(),
        r.form@[1].0@ == "apikey"@,
        r.form@[1].1@ == api_key@,
{
    let mut form: Vec<(String, String)> = Vec::new();
    form.push((String::from_str("grant_type"), String::from_str("urn:ibm:params:oauth:grant-type:apikey")));
    form.push((String::from_str("apikey"), String::from_str(api_key)));
    TokenRequest { url: concat2(iam_endpoint, "/identity/token"), form }
}

/// Decides whether the token must be renewed at time `now`, and if so
/// returns the request that renews it.
pub fn check_token(
    api_key: &str,
    iam_endpoint: &str,
    now: i64,
    token_expiration: i64,
    token_lifetime: i64,
) -> (r: Option<TokenRequest>)
    ensures
        r is Some <==> spec_token_needs_refresh(now as int, token_expiration as int, token_lifetime as int),
        r matches Some(req) ==> is_token_request(req, api_key@, iam_endpoint@),
{
    if token_needs_refresh(now, token_expiration, token_lifetime) {
        Some(token_request(api_key, iam_endpoint))
    } else {
        None
    }
}

/// The members of a successful token answer that the library reads; each is
/// `None` when missing or not of the expected JSON type.
#[derive(Debug, Clone)]
pub struct TokenResponse {
    /// `access_token`, a string.
    pub access_token: Option<String>,
    /// `expiration`, an integer Unix time.
    pub expiration: Option<i64>,
    /// `expires_in`, an integer number of seconds.
    pub expires_in: Option<i64>,
}

/// Reads a successful token answer: the token, its expiration and its
/// lifetime, or an error when one of them is missing.
pub fn token_from_success(resp: TokenResponse) -> (r: Result<(String, i64, i64), AuthError>)
    ensures
        match (resp.access_token, resp.expiration, resp.expires_in) {
            (Some(t), Some(e), Some(l)) => r == Ok::<(String, i64, i64), AuthError>((t, e, l)),
            _ => r matches Err(AuthError::AuthTokenError),
        },
{
    match (resp.access_token, resp.expiration, resp.expires_in) {
        (Some(t), Some(e), Some(l)) => Ok((t, e, l)),
        _ => Err(AuthError::AuthTokenError),
    }
}

/// The message of a refused token request: the status and either the
/// service's error code and description, or the raw answer.
pub open spec fn spec_refusal_message(
    status: Seq<char>,
    body: Seq<char>,
    error: Option<(Seq<char>, Seq<char>)>,
) -> Seq<char> {
    match error {
        Some((code, desc)) => "HTTP "@ + status + ": "@ + code + ": "@ + desc,
        None => "HTTP "@ + status + ": "@ + body,
    }
}

/// Builds the error for a refused token request with status text `status`
/// and answer `body`; `error` holds the `error` and `error_description`
/// strings of the answer when it is a JSON object with both.
pub fn token_refusal(status: &str, body: &str, error: Option<(String, String)>) -> (r: AuthError)
    ensures
        r matches AuthError::InvalidResponse(m) && m@ == spec_refusal_message(
            status@,
            body@,
            match error { Some((c, d)) => Some((c@, d@)), None => None },
        ),
{
    let mut m = String::from_str("HTTP ");
    m.append(status);
    m.append(": ");
    match error {
        Some((code, desc)) => {
            m.append(code.as_str());
            m.append(": ");
            m.append(desc.as_str());
        },
        None => m.append(body),
    }
    AuthError::InvalidResponse(m)
}

/// Stores a renewed token with its expiration and lifetime.
pub fn apply_token(
    current_token: &mut Option<String>,
    token_expiration: &mut i64,
    token_lifetime: &mut i64,
    fetched: (String, i64, i64),
)
    ensures
        *final(current_token) == Some(fetched.0),
        *final(token_expiration) == fetched.1,
        *final(token_lifetime) == fetched.2,
{
    let (t, e, l) = fetched;
    *current_token = Some(t);
    *token_expiration = e;
    *token_lifetime = l;
}

/// Once the token is due for renewal it stays due as time goes on.
pub proof fn lemma_refresh_monotone(now: int, later: int, token_expiration: int, token_lifetime: int)
    requires
        now <= later,
        spec_token_needs_refresh(now, token_expiration, token_lifetime),
    ensures
        spec_token_needs_refresh(later, token_expiration, token_lifetime),
{
}

/// A token that expires within 360 seconds is always renewed, whatever its lifetime.
pub proof fn lemma_refresh_near_expiry(now: int, token_expiration: int, token_lifetime: int)
    requires
        token_expiration - now < 360,
    ensures
        spec_token_needs_refresh(now, token_expiration, token_lifetime),
{
}

/// A token with no recorded expiration (zero) is renewed at any time after 1970.
pub proof fn lemma_refresh_without_token(now: int, token_lifetime: int)
    requires
        now >= 0,
    ensures
        spec_token_needs_refresh(now, 0, token_lifetime),
{
}

/// Right after a renewal that returns a token with `lifetime` seconds left
/// (at least 360, and expiring `lifetime` seconds from now), no renewal is due.
pub proof fn lemma_fresh_token_not_due(now: int, lifetime: int)
    requires
        lifetime >= 360,
    ensures
        !spec_token_needs_refresh(now, now + lifetime, lifetime),
{
}

} // verus!
