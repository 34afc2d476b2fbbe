use crate::authorize::url_parses;
use crate::error::AuthError;
use crate::provider::{pairs_view, string_option_view};
use vstd::prelude::*;

verus! {

/// The decoded query pairs of the URL `text`, in order.
pub uninterp spec fn query_pairs_of(text: Seq<char>) -> Seq<(Seq<char>, Seq<char>)>;

/// Relies on url's `Url::parse` and `Url::query_pairs`: `None` exactly when
/// `text` does not parse, else the decoded query pairs.
#[verifier::external_body]
fn decoded_query(text: &str) -> (r: Option<Vec<(String, String)>>)
    ensures
        r.is_some() == url_parses(text@),
        r matches Some(p) ==> pairs_view(p@) == query_pairs_of(text@),
{
    let url = url::Url::parse(text).ok()?;
    Some(url.query_pairs().map(|(k, v)| (k.into_owned(), v.into_owned())).collect())
}

/// `s` with every `+` turned into a space.
pub open spec fn plus_to_space(s: Seq<char>) -> Seq<char> {
    s.map_values(|c: char|
        if c == '+' {
            ' '
        } else {
            c
        })
}

/// Relies on `str::replace`: every `+` replaced by a space, all else kept.
#[verifier::external_body]
fn replace_plus(s: &str) -> (r: String)
    ensures
        r@ == plus_to_space(s@),
{
    s.replace('+', " ")
}

/// The value of the first pair whose key is `key`.
pub open spec fn first_value(pairs: Seq<(Seq<char>, Seq<char>)>, key: Seq<char>) -> Option<
    Seq<char>,
>
    decreases pairs.len(),
{
    if pairs.len() == 0 {
        None
    } else if pairs[0].0 == key {
        Some(pairs[0].1)
    } else {
        first_value(pairs.drop_first(), key)
    }
}

/// The value of the first query pair named `key`.
pub fn extract_query(pairs: &Vec<(String, String)>, key: &str) -> (r: Option<String>)
    ensures
        string_option_view(r) == first_value(pairs_view(pairs@), key@),
{
    let wanted = key.to_owned();
    let mut i: usize = 0;
    assert(pairs_view(pairs@).subrange(0, pairs@.len() as int) =~= pairs_view(pairs@));
    while i < pairs.len()
        invariant
            i <= pairs@.len(),
            wanted@ == key@,
            first_value(pairs_view(pairs@), key@) == first_value(
                pairs_view(pairs@).subrange(i as int, pairs@.len() as int),
                key@,
            ),
        decreases pairs@.len() - i,
    {
        let ghost rest = pairs_view(pairs@).subrange(i as int, pairs@.len() as int);
        if pairs[i].0 == wanted {
            return Some(pairs[i].1.clone());
        }
        assert(rest.drop_first() =~= pairs_view(pairs@).subrange(i + 1, pairs@.len() as int));
        i = i + 1;
    }
    None
}

/// The query parameters of a redirect that the login flow reads.
#[derive(Debug, Clone, PartialEq, Eq)]
pub struct CallbackParams {
    pub error: Option<String>,
    pub error_description: Option<String>,
    pub state: Option<String>,
    pub code: Option<String>,
}

/// The parameters of the redirect URL `url`.
pub fn callback_params(url: &str) -> (r: Result<CallbackParams, AuthError>)
    ensures
        r is Ok <==> url_parses(url@),
        r matches Err(e) ==> e == AuthError::InvalidRedirectUrl,
        r matches Ok(p) ==> {
            &&& string_option_view(p.error) == first_value(query_pairs_of(url@), "error"@)
            &&& string_option_view(p.error_description) == first_value(
                query_pairs_of(url@),
                "error_description"@,
            )
            &&& string_option_view(p.state) == first_value(query_pairs_of(url@), "state"@)
            &&& string_option_view(p.code) == first_value(query_pairs_of(url@), "code"@)
        },
{
    match decoded_query(url) {
        None => Err(AuthError::InvalidRedirectUrl),
        Some(pairs) => Ok(
            CallbackParams {
                error: extract_query(&pairs, "error"),
                error_description: extract_query(&pairs, "error_description"),
                state: extract_query(&pairs, "state"),
                code: extract_query(&pairs, "code"),
            },
        ),
    }
}

/// The message of a denied login: `error: description`, or the error alone,
/// with `+` read as a space.
pub open spec fn denial_text(error: Seq<char>, description: Option<Seq<char>>) -> Seq<char> {
    plus_to_space(
        match description {
            Some(d) => error + ": "@ + d,
            None => error,
        },
    )
}

/// The code and state that a redirect carries, or why it is refused.
/// A denial needs a state as well; without one it is refused as missing state.
pub fn classify_callback(params: &CallbackParams) -> (r: Result<(String, String), AuthError>)
    ensures
        params.error is Some && params.state is None ==> r == Err::<(String, String), AuthError>(
            AuthError::MissingState,
        ),
        params.error is Some && params.state is Some ==> (r matches Err(
            AuthError::AuthorizationDenied(d),
        ) && d@ == denial_text(params.error->0@, string_option_view(params.error_description))),
        params.error is None && params.code is None ==> r == Err::<(String, String), AuthError>(
            AuthError::MissingCode,
        ),
        params.error is None && params.code is Some && params.state is None ==> r == Err::<
            (String, String),
            AuthError,
        >(AuthError::MissingState),
        params.error is None && params.code is Some && params.state is Some ==> r == Ok::<
            (String, String),
            AuthError,
        >((params.code->0, params.state->0)),
{
    if let Some(error_code) = &params.error {
        if params.state.is_none() {
            return Err(AuthError::MissingState);
        }
        let joined = match &params.error_description {
            Some(d) => error_code.clone().concat(": ").concat(d.as_str()),
            None => error_code.clone(),
        };
        return Err(AuthError::AuthorizationDenied(replace_plus(joined.as_str())));
    }
    match (&params.code, &params.state) {
        (None, _) => Err(AuthError::MissingCode),
        (Some(_), None) => Err(AuthError::MissingState),
        (Some(c), Some(s)) => Ok((c.clone(), s.clone())),
    }
}

} // verus!
