use crate::authorize::{push_extra, push_pair};
use crate::error::AuthError;
use crate::provider::{clone_string_option, extra_pairs, pairs_view, ProviderConfig, ProviderView};
use vstd::prelude::*;

verus! {

/// Lifetime assumed when the provider does not report one, in seconds.
pub const DEFAULT_EXPIRES_IN: i64 = 3600;

/// The tokens of the signed-in session.
#[derive(Debug, Clone, PartialEq, Eq)]
pub struct TokenSet {
    pub access_token: String,
    pub refresh_token: Option<String>,
    /// Absolute expiry, in seconds since the Unix epoch.
    pub expires_at: i64,
}

impl TokenSet {
    /// A copy equal to `self`.
    pub fn duplicate(&self) -> (r: TokenSet)
        ensures
            r == *self,
    {
        TokenSet {
            access_token: self.access_token.clone(),
            refresh_token: clone_string_option(&self.refresh_token),
            expires_at: self.expires_at,
        }
    }
}

/// The fields of a token endpoint's JSON answer.
#[derive(Debug, Clone, PartialEq, Eq)]
pub struct TokenResponse {
    pub access_token: String,
    pub refresh_token: Option<String>,
    /// Lifetime in seconds.
    pub expires_in: Option<i64>,
}

/// When tokens issued at `now` with the reported lifetime expire.
pub open spec fn expiry(expires_in: Option<i64>, now: i64) -> int {
    match expires_in {
        Some(n) => now + n,
        None => now + DEFAULT_EXPIRES_IN,
    }
}

pub open spec fn secret_pairs(p: ProviderView) -> Seq<(Seq<char>, Seq<char>)> {
    match p.client_secret {
        Some(s) => seq![("client_secret"@, s)],
        None => seq![],
    }
}

/// The form body that trades an authorization code for tokens.
pub open spec fn exchange_pairs(p: ProviderView, code: Seq<char>, verifier: Seq<char>) -> Seq<
    (Seq<char>, Seq<char>),
> {
    seq![
        ("grant_type"@, "authorization_code"@),
        ("code"@, code),
        ("redirect_uri"@, p.redirect_uri),
        ("client_id"@, p.client_id),
        ("code_verifier"@, verifier),
    ] + secret_pairs(p) + extra_pairs(p.extra_token_params)
}

/// The form body that trades a refresh token for new tokens.
pub open spec fn refresh_pairs(p: ProviderView, refresh_token: Seq<char>) -> Seq<
    (Seq<char>, Seq<char>),
> {
    seq![
        ("grant_type"@, "refresh_token"@),
        ("refresh_token"@, refresh_token),
        ("client_id"@, p.client_id),
    ] + secret_pairs(p) + extra_pairs(p.extra_token_params)
}

fn push_secret(v: &mut Vec<(String, String)>, provider: &ProviderConfig)
    ensures
        pairs_view(final(v)@) == pairs_view(old(v)@) + secret_pairs(provider@),
{
    if let Some(secret) = &provider.client_secret {
        push_pair(v, "client_secret", secret.as_str());
        assert(pairs_view(final(v)@) =~= pairs_view(old(v)@) + secret_pairs(provider@));
    } else {
        assert(pairs_view(v@) =~= pairs_view(old(v)@) + secret_pairs(provider@));
    }
}

/// The form body of an authorization-code grant.
pub fn exchange_form(provider: &ProviderConfig, code: &str, code_verifier: &str) -> (r: Vec<
    (String, String),
>)
    ensures
        pairs_view(r@) == exchange_pairs(provider@, code@, code_verifier@),
{
    let mut v: Vec<(String, String)> = Vec::new();
    push_pair(&mut v, "grant_type", "authorization_code");
    push_pair(&mut v, "code", code);
    push_pair(&mut v, "redirect_uri", provider.redirect_uri.as_str());
    push_pair(&mut v, "client_id", provider.client_id.as_str());
    push_pair(&mut v, "code_verifier", code_verifier);
    push_secret(&mut v, provider);
    push_extra(&mut v, &provider.extra_token_params);
    assert(pairs_view(v@) =~= exchange_pairs(provider@, code@, code_verifier@));
    v
}

/// The form body of a refresh-token grant.
pub fn refresh_form(provider: &ProviderConfig, refresh_token: &str) -> (r: Vec<(String, String)>)
    ensures
        pairs_view(r@) == refresh_pairs(provider@, refresh_token@),
{
    let mut v: Vec<(String, String)> = Vec::new();
    push_pair(&mut v, "grant_type", "refresh_token");
    push_pair(&mut v, "refresh_token", refresh_token);
    push_pair(&mut v, "client_id", provider.client_id.as_str());
    push_secret(&mut v, provider);
    push_extra(&mut v, &provider.extra_token_params);
    assert(pairs_view(v@) =~= refresh_pairs(provider@, refresh_token@));
    v
}

/// Whether an HTTP status is in the success class 2xx.
pub fn is_success_status(status: u16) -> (r: bool)
    ensures
        r == (200 <= status && status <= 299),
{
    200 <= status && status <= 299
}

/// The token set described by a successful answer received at `now`.
/// Where the answer carries no refresh token, `carried` stands in for it.
/// A lifetime that puts the expiry beyond the range of `i64` is refused.
pub fn token_set_from(response: TokenResponse, carried: Option<String>, now: i64) -> (r: Result<
    TokenSet,
    AuthError,
>)
    ensures
        r is Ok <==> i64::MIN <= expiry(response.expires_in, now) <= i64::MAX,
        r matches Ok(t) ==> {
            &&& t.access_token == response.access_token
            &&& t.expires_at == expiry(response.expires_in, now)
            &&& t.refresh_token == match response.refresh_token {
                Some(s) => Some(s),
                None => carried,
            }
        },
        r matches Err(e) ==> e is Serialization,
{
    let expires_in = match response.expires_in {
        Some(n) => n,
        None => DEFAULT_EXPIRES_IN,
    };
    match now.checked_add(expires_in) {
        Some(expires_at) => {
            let refresh_token = match response.refresh_token {
                Some(s) => Some(s),
                None => carried,
            };
            Ok(TokenSet { access_token: response.access_token, refresh_token, expires_at })
        },
        None => Err(AuthError::Serialization("expires_in out of range".to_owned())),
    }
}

/// Whether `t` is what a refresh answer `resp` received at `now` gives: its
/// access token and lifetime, and its refresh token or else the previous one.
pub open spec fn refreshed(resp: TokenResponse, previous: Seq<char>, now: i64, t: TokenSet) -> bool {
    &&& t.access_token == resp.access_token
    &&& t.expires_at == expiry(resp.expires_in, now)
    &&& t.refresh_token is Some
    &&& t.refresh_token->0@ == match resp.refresh_token {
        Some(s) => s@,
        None => previous,
    }
}

/// What an authorization-code exchange yields, given the HTTP status, the
/// parsed body (or why it could not be read) and the time of the answer.
pub fn finish_exchange(status: u16, body: Result<TokenResponse, String>, now: i64) -> (r: Result<
    TokenSet,
    AuthError,
>)
    ensures
        !(200 <= status <= 299) ==> r == Err::<TokenSet, AuthError>(
            AuthError::TokenExchangeFailed(status),
        ),
        200 <= status <= 299 ==> match body {
            Err(msg) => r == Err::<TokenSet, AuthError>(AuthError::Request(msg)),
            Ok(resp) => {
                &&& r is Ok <==> i64::MIN <= expiry(resp.expires_in, now) <= i64::MAX
                &&& r matches Ok(t) ==> t.access_token == resp.access_token && t.refresh_token
                    == resp.refresh_token && t.expires_at == expiry(resp.expires_in, now)
                &&& r matches Err(e) ==> e is Serialization
            },
        },
{
    if !is_success_status(status) {
        return Err(AuthError::TokenExchangeFailed(status));
    }
    match body {
        Err(msg) => Err(AuthError::Request(msg)),
        Ok(resp) => token_set_from(resp, None, now),
    }
}

/// What a refresh yields; the previous refresh token is kept when the answer
/// names no new one.
pub fn finish_refresh(
    status: u16,
    body: Result<TokenResponse, String>,
    previous_refresh: &str,
    now: i64,
) -> (r: Result<TokenSet, AuthError>)
    ensures
        !(200 <= status <= 299) ==> r == Err::<TokenSet, AuthError>(
            AuthError::TokenExchangeFailed(status),
        ),
        200 <= status <= 299 ==> match body {
            Err(msg) => r == Err::<TokenSet, AuthError>(AuthError::Request(msg)),
            Ok(resp) => {
                &&& r is Ok <==> i64::MIN <= expiry(resp.expires_in, now) <= i64::MAX
                &&& r matches Ok(t) ==> refreshed(resp, previous_refresh@, now, t)
                &&& r matches Err(e) ==> e is Serialization
            },
        },
{
    if !is_success_status(status) {
        return Err(AuthError::TokenExchangeFailed(status));
    }
    match body {
        Err(msg) => Err(AuthError::Request(msg)),
        Ok(resp) => token_set_from(resp, Some(previous_refresh.to_owned()), now),
    }
}

} // verus!
