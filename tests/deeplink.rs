use vision_auth::deeplink::{extract_route, is_oauth_callback, same_text, trim_slashes_of, DeepLinkState, LinkParts};
use vision_auth::presence::{activity_timestamps, normalize_timestamp};

fn link(scheme: &str, host: Option<&str>, path: &str) -> LinkParts {
    LinkParts { scheme: scheme.to_string(), host: host.map(|h| h.to_string()), path: path.to_string() }
}

#[test]
fn callback_link_detected() {
    assert!(is_oauth_callback(&link("vision", Some("auth"), "/callback")));
    assert!(!is_oauth_callback(&link("vision", Some("auth"), "/other")));
    assert!(!is_oauth_callback(&link("https", Some("auth"), "/callback")));
    assert!(!is_oauth_callback(&link("vision", None, "/callback")));
}

#[test]
fn route_from_host() {
    assert_eq!(extract_route(&link("vision", Some("settings"), "")), Some("settings".to_string()));
    assert_eq!(extract_route(&link("vision", Some("nowhere"), "/home")), None);
}

#[test]
fn route_from_path() {
    assert_eq!(extract_route(&link("vision", Some("auth"), "/projects/")), Some("projects".to_string()));
    assert_eq!(extract_route(&link("vision", None, "//settings-debug")), Some("settings-debug".to_string()));
    assert_eq!(extract_route(&link("vision", Some(""), "members")), Some("members".to_string()));
}

#[test]
fn route_needs_scheme() {
    assert_eq!(extract_route(&link("https", Some("home"), "")), None);
}

#[test]
fn slashes_trimmed() {
    assert_eq!(trim_slashes_of("//a/b//"), "a/b");
    assert_eq!(trim_slashes_of("///"), "");
    assert_eq!(trim_slashes_of(""), "");
    assert!(same_text("ab", "ab"));
    assert!(!same_text("ab", "abc"));
}

#[test]
fn route_state_keeps_latest() {
    let mut s = DeepLinkState::new();
    assert_eq!(s.get_route(), None);
    s.set_route(Some("home".to_string()));
    s.set_route(Some("news".to_string()));
    assert_eq!(s.get_route(), Some("news".to_string()));
    s.set_route(None);
    assert_eq!(s.get_route(), None);
}

#[test]
fn timestamps_normalized() {
    assert_eq!(normalize_timestamp(1_700_000_000), 1_700_000_000_000);
    assert_eq!(normalize_timestamp(1_700_000_000_000), 1_700_000_000_000);
    assert_eq!(normalize_timestamp(999_999_999_999), 999_999_999_999_000);
    assert_eq!(normalize_timestamp(0), 0);
}

#[test]
fn activity_timestamps_normalized() {
    assert_eq!(activity_timestamps(None, None), None);
    assert_eq!(activity_timestamps(Some(1_700_000_000), None), Some((Some(1_700_000_000_000), None)));
    assert_eq!(
        activity_timestamps(Some(1), Some(1_700_000_000_123)),
        Some((Some(1_000), Some(1_700_000_000_123)))
    );
}
