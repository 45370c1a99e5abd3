use noscha::auth::{
    bearer_admits, bearer_token, check_challenge, debug_config, login_challenge, new_challenge,
    new_session, session_valid, DebugWebhookConfig, LoginError,
};
use noscha::model::NostrEvent;

#[test]
fn test_bearer_token_header_parsing() {
    // Test extracting Bearer token from Authorization header
    let header = "Bearer my_secret_token_123";
    let token = bearer_token(header);
    assert_eq!(token, Some("my_secret_token_123"));

    // Non-bearer header should not match
    let header2 = "Basic dXNlcjpwYXNz";
    let token2 = bearer_token(header2);
    assert_eq!(token2, None);

    // Empty bearer should extract empty string
    let header3 = "Bearer ";
    let token3 = bearer_token(header3);
    assert_eq!(token3, Some(""));
}

#[test]
fn bearer_admits_only_the_configured_token() {
    assert!(bearer_admits("Bearer s3cret", "s3cret"));
    assert!(!bearer_admits("Bearer s3cret", "other"));
    assert!(!bearer_admits("Bearer ", ""));
}

#[test]
fn sessions_and_challenges_expire() {
    let s = new_session("sess_abc".to_string(), "deadbeef".to_string(), 1_000);
    assert_eq!(s.expires_at, 1_000 + 86_400_000);
    assert!(session_valid(&s, s.expires_at));
    assert!(!session_valid(&s, s.expires_at + 1));
    let c = new_challenge("ch_1".to_string(), 1_000);
    assert_eq!(c.expires_at, 301_000);
    assert_eq!(check_challenge(&Some(c.clone()), 301_000), Ok(()));
    assert_eq!(check_challenge(&Some(c), 301_001), Err(LoginError::ChallengeExpired));
    assert_eq!(check_challenge(&None, 0), Err(LoginError::UnknownChallenge));
}

fn event(pubkey: &str, content: &str) -> NostrEvent {
    NostrEvent {
        id: None,
        pubkey: pubkey.to_string(),
        created_at: None,
        kind: Some(27235),
        tags: None,
        content: content.to_string(),
        sig: None,
    }
}

#[test]
fn login_reads_the_trimmed_challenge() {
    assert_eq!(login_challenge(&event("abc", "  ch_1 \n"), "abc"), Ok("ch_1".to_string()));
    assert_eq!(login_challenge(&event("abc", "   "), "abc"), Err(LoginError::MissingChallenge));
    assert_eq!(login_challenge(&event("xyz", "ch_1"), "abc"), Err(LoginError::WrongPubkey));
    assert_eq!(LoginError::WrongPubkey.status_code(), 403);
}

#[test]
fn debug_webhook_settings() {
    let d = DebugWebhookConfig::default();
    assert!(!d.enabled);
    assert_eq!(d.level, "off");
    let c = debug_config(true, "  https://x.example/h ", "WARN").unwrap();
    assert_eq!(c.level, "warn");
    assert_eq!(c.webhook_url, "https://x.example/h");
    assert!(debug_config(true, "", "verbose").is_err());
}
