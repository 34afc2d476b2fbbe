use vision_auth::error::AuthError;
use vision_auth::provider::ProviderConfig;
use vision_auth::token::{
    exchange_form, finish_exchange, finish_refresh, is_success_status, refresh_form,
    token_set_from, TokenResponse, TokenSet,
};

fn provider_with_secret() -> ProviderConfig {
    ProviderConfig {
        client_id: "abc".to_string(),
        client_secret: Some("shh".to_string()),
        authorization_endpoint: "https://idp.example/authorize".to_string(),
        token_endpoint: "https://idp.example/token".to_string(),
        redirect_uri: "vision://auth/callback".to_string(),
        scopes: vec![],
        extra_auth_params: None,
        extra_token_params: Some(vec![("audience".to_string(), "api".to_string())]),
    }
}

fn pair(k: &str, v: &str) -> (String, String) {
    (k.to_string(), v.to_string())
}

#[test]
fn exchange_form_fields() {
    let form = exchange_form(&provider_with_secret(), "XYZ", "ver");
    assert_eq!(
        form,
        vec![
            pair("grant_type", "authorization_code"),
            pair("code", "XYZ"),
            pair("redirect_uri", "vision://auth/callback"),
            pair("client_id", "abc"),
            pair("code_verifier", "ver"),
            pair("client_secret", "shh"),
            pair("audience", "api"),
        ]
    );
}

#[test]
fn refresh_form_fields() {
    let mut p = provider_with_secret();
    p.client_secret = None;
    p.extra_token_params = None;
    assert_eq!(
        refresh_form(&p, "rt"),
        vec![pair("grant_type", "refresh_token"), pair("refresh_token", "rt"), pair("client_id", "abc")]
    );
}

#[test]
fn success_statuses() {
    assert!(is_success_status(200));
    assert!(is_success_status(204));
    assert!(is_success_status(299));
    assert!(!is_success_status(199));
    assert!(!is_success_status(300));
    assert!(!is_success_status(401));
}

fn answer(refresh: Option<&str>, expires_in: Option<i64>) -> TokenResponse {
    TokenResponse {
        access_token: "tok".to_string(),
        refresh_token: refresh.map(|s| s.to_string()),
        expires_in,
    }
}

#[test]
fn exchange_non_success_status() {
    assert_eq!(
        finish_exchange(401, Ok(answer(None, None)), 1000),
        Err(AuthError::TokenExchangeFailed(401))
    );
    assert_eq!(
        finish_exchange(500, Err("ignored".to_string()), 1000),
        Err(AuthError::TokenExchangeFailed(500))
    );
}

#[test]
fn exchange_default_lifetime() {
    assert_eq!(
        finish_exchange(200, Ok(answer(None, None)), 1000),
        Ok(TokenSet { access_token: "tok".to_string(), refresh_token: None, expires_at: 4600 })
    );
}

#[test]
fn exchange_reported_lifetime() {
    let t = finish_exchange(200, Ok(answer(Some("r1"), Some(120))), 1000).unwrap();
    assert_eq!(t.expires_at, 1120);
    assert_eq!(t.refresh_token.as_deref(), Some("r1"));
}

#[test]
fn exchange_unreadable_body() {
    assert_eq!(
        finish_exchange(200, Err("bad json".to_string()), 1000),
        Err(AuthError::Request("bad json".to_string()))
    );
}

#[test]
fn expiry_out_of_range() {
    let r = token_set_from(answer(None, Some(i64::MAX)), None, 10);
    assert!(matches!(r, Err(AuthError::Serialization(_))));
}

#[test]
fn refresh_keeps_previous_token() {
    let t = finish_refresh(200, Ok(answer(None, Some(60))), "old", 50).unwrap();
    assert_eq!(t.refresh_token.as_deref(), Some("old"));
    assert_eq!(t.expires_at, 110);
}

#[test]
fn refresh_takes_new_token() {
    let t = finish_refresh(200, Ok(answer(Some("new"), None)), "old", 50).unwrap();
    assert_eq!(t.refresh_token.as_deref(), Some("new"));
    assert_eq!(t.expires_at, 3650);
}

#[test]
fn refresh_failure_status() {
    assert_eq!(
        finish_refresh(400, Ok(answer(None, None)), "old", 50),
        Err(AuthError::TokenExchangeFailed(400))
    );
}
