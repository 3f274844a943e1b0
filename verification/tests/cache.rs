//! Tokens and the keys that they are kept under.

use agentforce_a2a::cache::{
    fresh_token, token_cache_key, CachedToken, AGENTFORCE_TOKEN_PREFIX, ANYPOINT_TOKEN_PREFIX,
};
use agentforce_a2a::json::parse_json_text;

#[test]
fn key_is_stable() {
    let a = token_cache_key(AGENTFORCE_TOKEN_PREFIX, "id", "https://acme.my");
    let b = token_cache_key(AGENTFORCE_TOKEN_PREFIX, "id", "https://acme.my");
    assert_eq!(a, b);
    assert!(a.starts_with("agentforce-tokens:"));
}

#[test]
fn key_differs_when_inputs_change() {
    let a = token_cache_key(AGENTFORCE_TOKEN_PREFIX, "id1", "https://acme.my");
    let b = token_cache_key(AGENTFORCE_TOKEN_PREFIX, "id2", "https://acme.my");
    let c = token_cache_key(AGENTFORCE_TOKEN_PREFIX, "id1", "https://other.my");
    assert_ne!(a, b);
    assert_ne!(a, c);
}

#[test]
fn key_does_not_leak_client_id() {
    let k = token_cache_key(AGENTFORCE_TOKEN_PREFIX, "secret-client-id", "https://x");
    assert!(!k.contains("secret-client-id"));
}

#[test]
fn agentforce_and_anypoint_keys_diverge() {
    let a = token_cache_key(AGENTFORCE_TOKEN_PREFIX, "id", "https://x");
    let b = token_cache_key(ANYPOINT_TOKEN_PREFIX, "id", "https://x");
    assert_ne!(a, b);
}

#[test]
fn needs_refresh_respects_safety_margin() {
    let token = CachedToken::new("abc".into(), 1_000, 100);
    assert!(!token.needs_refresh(1_000, 60));
    assert!(!token.needs_refresh(1_039, 60));
    assert!(token.needs_refresh(1_040, 60));
    assert!(token.needs_refresh(1_500, 60));
}

#[test]
fn ttl_is_at_least_one() {
    let t = CachedToken::new("a".into(), 1_000, 0);
    assert_eq!(t.ttl_seconds(1_000), 1);
}

#[test]
fn key_is_the_digest_of_its_inputs() {
    // SHA-256 of "id|https://x".
    assert_eq!(
        token_cache_key("agentforce-tokens", "id", "https://x"),
        "agentforce-tokens:fc1c5476a2ab75fbe9a516d6956a9b12278d72ef09f339e4bab70c1efc6f2c0a"
    );
    // SHA-256 of "|".
    assert_eq!(
        token_cache_key("p", "", ""),
        "p:cbe5cfdf7c2118a9c3d78ef1d684f3afa089201352886449a06a6511cfef74a7"
    );
}

#[test]
fn expiry_does_not_wrap() {
    let t = CachedToken::new("a".into(), u64::MAX - 1, 100);
    assert_eq!(t.expires_at_unix, u64::MAX);
    assert_eq!(CachedToken::new("a".into(), 10, 20).ttl_seconds(12), 18);
    assert!(CachedToken::new("a".into(), 0, 30).needs_refresh(0, 60));
}

#[test]
fn token_is_read_back() {
    let t = CachedToken::new("tok".into(), 1_000, 600);
    let bytes = t.to_bytes();
    assert_eq!(bytes, br#"{"access_token":"tok","expires_at_unix":1600}"#.to_vec());
    assert_eq!(fresh_token(&Some(bytes.clone()), 1_539, 60), Some("tok".to_string()));
    assert_eq!(fresh_token(&Some(bytes), 1_540, 60), None);
    assert_eq!(fresh_token(&Some(b"{}".to_vec()), 0, 60), None);
    assert_eq!(fresh_token(&Some(b"nonsense".to_vec()), 0, 60), None);
    assert_eq!(fresh_token(&None, 0, 60), None);
}

#[test]
fn token_of_another_shape_is_none() {
    let doc = parse_json_text(r#"{"access_token":"t","expires_at_unix":-1}"#).unwrap();
    assert_eq!(CachedToken::from_json(&doc), None);
    let doc = parse_json_text(r#"["t", 5]"#).unwrap();
    assert_eq!(CachedToken::from_json(&doc), Some(CachedToken::new("t".into(), 0, 5)));
}
