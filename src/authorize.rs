use crate::error::AuthError;
use crate::provider::{
    extra_pairs, join_scopes, join_spaced, pairs_option_view, pairs_view, ProviderConfig,
    ProviderView,
};
use vstd::prelude::*;

verus! {

/// Whether `text` parses as an absolute URL.
pub uninterp spec fn url_parses(text: Seq<char>) -> bool;

/// The serialized URL of `base` with `pairs` form-encoded and appended to its query.
pub uninterp spec fn url_with_query(base: Seq<char>, pairs: Seq<(Seq<char>, Seq<char>)>) -> Seq<
    char,
>;

/// Relies on url's `Url::parse`, `query_pairs_mut().extend_pairs` and the
/// serialization of the result: `None` exactly when `base` does not parse.
#[verifier::external_body]
fn append_query(base: &str, pairs: &Vec<(String, String)>) -> (r: Option<String>)
    ensures
        r.is_some() == url_parses(base@),
        r matches Some(s) ==> s@ == url_with_query(base@, pairs_view(pairs@)),
{
    let mut url = url::Url::parse(base).ok()?;
    url.query_pairs_mut().extend_pairs(pairs.iter());
    Some(url.into())
}

/// The query parameters of an authorization request, in order.
pub open spec fn authorization_pairs(p: ProviderView, state: Seq<char>, challenge: Seq<char>) -> Seq<
    (Seq<char>, Seq<char>),
> {
    seq![
        ("response_type"@, "code"@),
        ("client_id"@, p.client_id),
        ("redirect_uri"@, p.redirect_uri),
        ("state"@, state),
        ("code_challenge"@, challenge),
        ("code_challenge_method"@, "S256"@),
    ] + (if p.scopes.len() == 0 {
        seq![]
    } else {
        seq![("scope"@, join_spaced(p.scopes))]
    }) + extra_pairs(p.extra_auth_params)
}

/// Appends one pair.
pub fn push_pair(v: &mut Vec<(String, String)>, key: &str, value: &str)
    ensures
        pairs_view(final(v)@) == pairs_view(old(v)@).push((key@, value@)),
{
    v.push((key.to_owned(), value.to_owned()));
    assert(pairs_view(final(v)@) =~= pairs_view(old(v)@).push((key@, value@)));
}

/// Appends every pair of `extra`, in order; nothing when it is absent.
pub fn push_extra(v: &mut Vec<(String, String)>, extra: &Option<Vec<(String, String)>>)
    ensures
        pairs_view(final(v)@) == pairs_view(old(v)@) + extra_pairs(pairs_option_view(*extra)),
{
    if let Some(items) = extra {
        let mut i: usize = 0;
        while i < items.len()
            invariant
                i <= items@.len(),
                pairs_view(v@) == pairs_view(old(v)@) + pairs_view(items@).subrange(0, i as int),
            decreases items@.len() - i,
        {
            let (k, x) = &items[i];
            push_pair(v, k.as_str(), x.as_str());
            assert(pairs_view(items@).subrange(0, i + 1) =~= pairs_view(items@).subrange(
                0,
                i as int,
            ).push((k@, x@)));
            i = i + 1;
        }
        assert(pairs_view(items@).subrange(0, items@.len() as int) =~= pairs_view(items@));
    } else {
        assert(pairs_view(v@) =~= pairs_view(old(v)@) + seq![]);
    }
}

/// The query parameters of the authorization request for `provider`.
pub fn authorization_params(provider: &ProviderConfig, state_value: &str, code_challenge: &str) -> (r:
    Vec<(String, String)>)
    ensures
        pairs_view(r@) == authorization_pairs(provider@, state_value@, code_challenge@),
{
    let mut v: Vec<(String, String)> = Vec::new();
    push_pair(&mut v, "response_type", "code");
    push_pair(&mut v, "client_id", provider.client_id.as_str());
    push_pair(&mut v, "redirect_uri", provider.redirect_uri.as_str());
    push_pair(&mut v, "state", state_value);
    push_pair(&mut v, "code_challenge", code_challenge);
    push_pair(&mut v, "code_challenge_method", "S256");
    if provider.scopes.len() > 0 {
        let scope = join_scopes(&provider.scopes);
        push_pair(&mut v, "scope", scope.as_str());
    }
    push_extra(&mut v, &provider.extra_auth_params);
    assert(pairs_view(v@) =~= authorization_pairs(provider@, state_value@, code_challenge@));
    v
}

/// The URL to open in a browser to start a login: the authorization endpoint
/// with the PKCE request parameters appended.
pub fn build_authorization_url(provider: &ProviderConfig, state_value: &str, code_challenge: &str) -> (r:
    Result<String, AuthError>)
    ensures
        r is Ok <==> url_parses(provider.authorization_endpoint@),
        r matches Ok(u) ==> u@ == url_with_query(
            provider.authorization_endpoint@,
            authorization_pairs(provider@, state_value@, code_challenge@),
        ),
        r matches Err(e) ==> e == AuthError::InvalidRedirectUrl,
{
    let params = authorization_params(provider, state_value, code_challenge);
    match append_query(provider.authorization_endpoint.as_str(), &params) {
        Some(u) => Ok(u),
        None => Err(AuthError::InvalidRedirectUrl),
    }
}

} // verus!
