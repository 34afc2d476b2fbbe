use base64::engine::general_purpose::URL_SAFE_NO_PAD;
use base64::Engine;
use sha2::{Digest, Sha256};
use vision_auth::pkce::{generate_state, generate_verifier, pkce_challenge, random_urlsafe};

fn assert_urlsafe(s: &str) {
    assert!(!s.contains('+'));
    assert!(!s.contains('/'));
    assert!(!s.contains('='));
}

#[test]
fn state_decodes_to_32_bytes() {
    for _ in 0..20 {
        let s = generate_state();
        assert_eq!(s.len(), 43);
        assert_urlsafe(&s);
        assert_eq!(URL_SAFE_NO_PAD.decode(&s).unwrap().len(), 32);
    }
}

#[test]
fn verifier_decodes_to_64_bytes() {
    for _ in 0..20 {
        let v = generate_verifier();
        assert_eq!(v.len(), 86);
        assert_urlsafe(&v);
        assert_eq!(URL_SAFE_NO_PAD.decode(&v).unwrap().len(), 64);
    }
}

#[test]
fn random_values_differ() {
    assert_ne!(generate_state(), generate_state());
    assert_ne!(generate_verifier(), generate_verifier());
}

#[test]
fn random_urlsafe_lengths() {
    assert_eq!(random_urlsafe(0), "");
    assert_eq!(random_urlsafe(1).len(), 2);
    assert_eq!(random_urlsafe(2).len(), 3);
    assert_eq!(random_urlsafe(3).len(), 4);
}

#[test]
fn challenge_is_deterministic() {
    let v = generate_verifier();
    assert_eq!(pkce_challenge(&v), pkce_challenge(&v));
    assert_ne!(pkce_challenge(&v), v);
}

#[test]
fn challenge_matches_s256() {
    let v = generate_verifier();
    let expected = URL_SAFE_NO_PAD.encode(Sha256::digest(v.as_bytes()));
    assert_eq!(pkce_challenge(&v), expected);
}
