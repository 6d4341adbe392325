//! The token lifecycle end to end: login, callback, publish decision,
//! logout, and the session invariant along the way.

use write2x::config::Config;
use write2x::error::ErrorKind;
use write2x::oauth::{callback_begin, login, oauth_client_from_config, CallbackStep, OauthClient};
use write2x::publish::{post_home_decide, PostDecision};
use write2x::session::{token_needs_refresh, ExchangeOutcome, Session};

fn test_config() -> Config {
    Config::from_pairs(vec![
        ("X_CLIENT_ID".to_string(), "a".to_string()),
        ("X_CLIENT_SECRET".to_string(), "b".to_string()),
        ("X_REDIRECT_URL".to_string(), "https://h/callback".to_string()),
    ])
}

fn test_client() -> OauthClient {
    oauth_client_from_config(&test_config()).unwrap()
}

fn assert_consistent(s: &Session) {
    let has_token = matches!(&s.access_token, Some(t) if !t.is_empty());
    assert_eq!(s.is_authenticated, has_token);
}

#[test]
fn login_stores_pending_verifier() {
    let client = test_client();
    let mut s = Session::new();
    let url = login(&mut s, &client);
    assert!(url.starts_with("https://x.com/i/oauth2/authorize?"));
    assert!(url.contains("code_challenge"));
    assert!(url.contains("state="));
    let verifier = s.pkce_verifier.as_ref().unwrap();
    assert!(43 <= verifier.len() && verifier.len() <= 128);
    assert!(!s.csrf_token.as_ref().unwrap().is_empty());
    assert!(!s.is_authenticated);
    assert_consistent(&s);
}

#[test]
fn two_logins_draw_distinct_verifiers() {
    let client = test_client();
    let mut s1 = Session::new();
    let mut s2 = Session::new();
    login(&mut s1, &client);
    login(&mut s2, &client);
    assert_ne!(s1.pkce_verifier, s2.pkce_verifier);
}

#[test]
fn callback_then_post_publishes_content_with_stored_token() {
    let client = test_client();
    let mut s = Session::new();
    login(&mut s, &client);
    let pending = s.pkce_verifier.clone().unwrap();

    let step = callback_begin(&mut s, None, Some("the-code".to_string())).unwrap();
    match step {
        CallbackStep::Exchange { code, verifier } => {
            assert_eq!(code, "the-code");
            assert_eq!(verifier, pending);
        }
        CallbackStep::Abort => panic!("expected an exchange"),
    }
    assert!(s.pkce_verifier.is_none(), "the verifier is consumed");

    s.apply_exchange(
        ExchangeOutcome::Success {
            access_token: "T".to_string(),
            refresh_token: "R".to_string(),
            expires_in: Some(7200),
        },
        1_000,
    );
    assert_consistent(&s);

    match post_home_decide(&s, "hello world") {
        PostDecision::Publish {
            body,
            authorization,
        } => {
            assert_eq!(body, "{\"text\":\"hello world\"}");
            assert_eq!(authorization, "Bearer T");
        }
        PostDecision::NotAuthenticated => panic!("expected a publish decision"),
    }
}

#[test]
fn callback_with_error_stores_no_token() {
    let client = test_client();
    let mut s = Session::new();
    login(&mut s, &client);
    let step = callback_begin(
        &mut s,
        Some("access_denied".to_string()),
        Some("c".to_string()),
    )
    .unwrap();
    assert!(matches!(step, CallbackStep::Abort));
    assert!(!s.is_authenticated);
    assert!(s.access_token.is_none());
    assert!(s.refresh_token.is_none());
    assert!(s.access_token_expires_at.is_none());
    assert!(s.pkce_verifier.is_none(), "the pending verifier is discarded");
    assert_consistent(&s);
}

#[test]
fn callback_without_pending_verifier_fails() {
    let mut s = Session::new();
    let before_token = s.access_token.clone();
    let err = callback_begin(&mut s, None, Some("c".to_string())).unwrap_err();
    assert_eq!(err.kind(), ErrorKind::MissingVerifier);
    assert_eq!(err.message(), "PKCE verifier not found in session");
    assert_eq!(s.access_token, before_token);
    assert!(!s.is_authenticated);
}

#[test]
fn failed_exchange_leaves_session_unchanged() {
    let mut s = Session::new();
    s.apply_exchange(ExchangeOutcome::Failure, 1_000);
    assert!(!s.is_authenticated);
    assert!(s.access_token.is_none());
    assert!(s.access_token_expires_at.is_none());
    assert_consistent(&s);
}

#[test]
fn exchange_with_empty_access_token_counts_as_failure() {
    let mut s = Session::new();
    s.apply_exchange(
        ExchangeOutcome::Success {
            access_token: String::new(),
            refresh_token: "R".to_string(),
            expires_in: None,
        },
        1_000,
    );
    assert!(!s.is_authenticated);
    assert!(s.access_token.is_none());
    assert_consistent(&s);
}

#[test]
fn exchange_without_lifetime_defaults_to_an_hour() {
    let mut s = Session::new();
    s.apply_exchange(
        ExchangeOutcome::Success {
            access_token: "T".to_string(),
            refresh_token: "R".to_string(),
            expires_in: None,
        },
        5_000,
    );
    assert_eq!(s.access_token_expires_at, Some(8_600));
}

#[test]
fn exchange_expiry_saturates() {
    let mut s = Session::new();
    s.apply_exchange(
        ExchangeOutcome::Success {
            access_token: "T".to_string(),
            refresh_token: "R".to_string(),
            expires_in: Some(u64::MAX),
        },
        10,
    );
    assert_eq!(s.access_token_expires_at, Some(u64::MAX));
}

#[test]
fn logout_then_post_is_unauthenticated() {
    let mut s = Session::new();
    s.apply_exchange(
        ExchangeOutcome::Success {
            access_token: "T".to_string(),
            refresh_token: "R".to_string(),
            expires_in: Some(7200),
        },
        1_000,
    );
    s.store_username("someone".to_string());
    s.logout();
    assert!(!s.is_authenticated);
    assert!(s.access_token.is_none());
    assert!(s.refresh_token.is_none());
    assert!(s.access_token_expires_at.is_none());
    assert!(s.username.is_none());
    assert!(s.pkce_verifier.is_none());
    assert!(s.csrf_token.is_none());
    assert!(matches!(
        post_home_decide(&s, "hello"),
        PostDecision::NotAuthenticated
    ));
    assert_consistent(&s);
}

#[test]
fn logout_is_idempotent() {
    let mut s = Session::new();
    s.logout();
    let first = s.access_token.clone();
    s.logout();
    assert_eq!(s.access_token, first);
    assert!(!s.is_authenticated);
}

#[test]
fn post_without_authentication_is_refused() {
    let s = Session::new();
    assert!(matches!(
        post_home_decide(&s, "hello"),
        PostDecision::NotAuthenticated
    ));
}

#[test]
fn token_refresh_is_needed_once_expiry_is_reached() {
    let mut s = Session::new();
    assert!(!token_needs_refresh(&s, 0));
    s.apply_exchange(
        ExchangeOutcome::Success {
            access_token: "T".to_string(),
            refresh_token: "R".to_string(),
            expires_in: Some(100),
        },
        1_000,
    );
    assert!(!token_needs_refresh(&s, 1_099));
    assert!(token_needs_refresh(&s, 1_100));
    assert!(token_needs_refresh(&s, 2_000));
}

#[test]
fn username_enrichment_is_separate_from_authentication() {
    let mut s = Session::new();
    s.apply_exchange(
        ExchangeOutcome::Success {
            access_token: "T".to_string(),
            refresh_token: "R".to_string(),
            expires_in: Some(7200),
        },
        1_000,
    );
    assert!(s.username.is_none());
    s.store_username("rasmus".to_string());
    assert_eq!(s.username.as_deref(), Some("rasmus"));
    assert!(s.is_authenticated);
    assert_consistent(&s);
}

#[test]
fn login_leaves_stored_tokens_in_place() {
    let client = test_client();
    let mut s = Session::new();
    s.apply_exchange(
        ExchangeOutcome::Success {
            access_token: "T".to_string(),
            refresh_token: "R".to_string(),
            expires_in: Some(7200),
        },
        1_000,
    );
    login(&mut s, &client);
    assert!(s.is_authenticated);
    assert_eq!(s.access_token.as_deref(), Some("T"));
    assert_eq!(s.refresh_token.as_deref(), Some("R"));
    assert_eq!(s.access_token_expires_at, Some(8_200));
    assert_consistent(&s);
}
