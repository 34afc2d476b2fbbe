use vision_auth::authorize::{authorization_params, build_authorization_url};
use vision_auth::error::AuthError;
use vision_auth::provider::{join_scopes, ProviderConfig};

fn idp(scopes: &[&str]) -> ProviderConfig {
    ProviderConfig {
        client_id: "abc".to_string(),
        client_secret: None,
        authorization_endpoint: "https://idp.example/authorize".to_string(),
        token_endpoint: "https://idp.example/token".to_string(),
        redirect_uri: "vision://auth/callback".to_string(),
        scopes: scopes.iter().map(|s| s.to_string()).collect(),
        extra_auth_params: None,
        extra_token_params: None,
    }
}

#[test]
fn url_carries_pkce_parameters() {
    let url = build_authorization_url(&idp(&["read"]), "st", "ch").unwrap();
    assert_eq!(
        url,
        "https://idp.example/authorize?response_type=code&client_id=abc&redirect_uri=vision%3A%2F%2Fauth%2Fcallback&state=st&code_challenge=ch&code_challenge_method=S256&scope=read"
    );
}

#[test]
fn scopes_joined_by_space() {
    let url = build_authorization_url(&idp(&["read", "write", "openid"]), "s", "c").unwrap();
    assert!(url.ends_with("&scope=read+write+openid"));
    assert_eq!(join_scopes(&vec!["a".to_string(), "b".to_string()]), "a b");
    assert_eq!(join_scopes(&vec![]), "");
}

#[test]
fn no_scope_when_empty() {
    let url = build_authorization_url(&idp(&[]), "s", "c").unwrap();
    assert!(!url.contains("scope="));
    assert_eq!(authorization_params(&idp(&[]), "s", "c").len(), 6);
}

#[test]
fn extra_auth_params_appended() {
    let mut p = idp(&[]);
    p.extra_auth_params = Some(vec![
        ("prompt".to_string(), "login".to_string()),
        ("prompt".to_string(), "consent".to_string()),
    ]);
    let url = build_authorization_url(&p, "s", "c").unwrap();
    assert!(url.ends_with("&prompt=login&prompt=consent"));
}

#[test]
fn existing_query_is_kept() {
    let mut p = idp(&[]);
    p.authorization_endpoint = "https://idp.example/authorize?tenant=x".to_string();
    let url = build_authorization_url(&p, "s", "c").unwrap();
    assert!(url.starts_with("https://idp.example/authorize?tenant=x&response_type=code"));
}

#[test]
fn unparseable_endpoint_is_refused() {
    let mut p = idp(&[]);
    p.authorization_endpoint = "not a url".to_string();
    assert_eq!(build_authorization_url(&p, "s", "c"), Err(AuthError::InvalidRedirectUrl));
}
