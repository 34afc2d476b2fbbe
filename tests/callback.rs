use vision_auth::callback::{callback_params, classify_callback, extract_query, CallbackParams};
use vision_auth::error::AuthError;

fn some(s: &str) -> Option<String> {
    Some(s.to_string())
}

fn params(error: Option<&str>, desc: Option<&str>, state: Option<&str>, code: Option<&str>) -> CallbackParams {
    CallbackParams {
        error: error.map(|s| s.to_string()),
        error_description: desc.map(|s| s.to_string()),
        state: state.map(|s| s.to_string()),
        code: code.map(|s| s.to_string()),
    }
}

#[test]
fn first_query_value_wins() {
    let pairs = vec![
        ("a".to_string(), "1".to_string()),
        ("b".to_string(), "2".to_string()),
        ("a".to_string(), "3".to_string()),
    ];
    assert_eq!(extract_query(&pairs, "a"), some("1"));
    assert_eq!(extract_query(&pairs, "b"), some("2"));
    assert_eq!(extract_query(&pairs, "c"), None);
}

#[test]
fn params_are_decoded() {
    let p = callback_params(
        "vision://auth/callback?code=a%2Fb&state=s1&error_description=x+y%21",
    )
    .unwrap();
    assert_eq!(p.code, some("a/b"));
    assert_eq!(p.state, some("s1"));
    assert_eq!(p.error, None);
    assert_eq!(p.error_description, some("x y!"));
}

#[test]
fn unparseable_callback_url() {
    assert_eq!(callback_params("::nope"), Err(AuthError::InvalidRedirectUrl));
}

#[test]
fn denial_with_description() {
    let r = classify_callback(&params(Some("access_denied"), Some("user+said+no"), Some("s"), None));
    assert_eq!(r, Err(AuthError::AuthorizationDenied("access_denied: user said no".to_string())));
}

#[test]
fn denial_without_description() {
    let r = classify_callback(&params(Some("access+denied"), None, Some("s"), Some("c")));
    assert_eq!(r, Err(AuthError::AuthorizationDenied("access denied".to_string())));
}

#[test]
fn denial_without_state() {
    let r = classify_callback(&params(Some("access_denied"), None, None, None));
    assert_eq!(r, Err(AuthError::MissingState));
}

#[test]
fn missing_code_checked_before_state() {
    assert_eq!(classify_callback(&params(None, None, None, None)), Err(AuthError::MissingCode));
    assert_eq!(classify_callback(&params(None, None, Some("s"), None)), Err(AuthError::MissingCode));
}

#[test]
fn missing_state() {
    assert_eq!(classify_callback(&params(None, None, None, Some("c"))), Err(AuthError::MissingState));
}

#[test]
fn accepted_callback_params() {
    assert_eq!(
        classify_callback(&params(None, None, Some("s"), Some("c"))),
        Ok(("c".to_string(), "s".to_string()))
    );
}
