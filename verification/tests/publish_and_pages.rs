//! The publish request framing, the provider-status handling, and the
//! rendered pages.

use write2x::error::{AppError, ErrorKind};
use write2x::home::render_home;
use write2x::publish::{post_home_decide, publish_body, publish_outcome, PostDecision};
use write2x::session::{ExchangeOutcome, Session};

fn authenticated_session() -> Session {
    let mut s = Session::new();
    s.apply_exchange(
        ExchangeOutcome::Success {
            access_token: "T".to_string(),
            refresh_token: "R".to_string(),
            expires_in: Some(7200),
        },
        1_000,
    );
    s
}

#[test]
fn publish_body_wraps_content_in_a_text_field() {
    assert_eq!(publish_body("hello"), "{\"text\":\"hello\"}");
    assert_eq!(publish_body(""), "{\"text\":\"\"}");
}

#[test]
fn publish_body_escapes_json_metacharacters() {
    assert_eq!(
        publish_body("a\"b\\c\nd"),
        "{\"text\":\"a\\\"b\\\\c\\nd\"}"
    );
    assert_eq!(publish_body("\t\r\u{8}\u{c}"), "{\"text\":\"\\t\\r\\b\\f\"}");
    assert_eq!(publish_body("\u{1}\u{1f}"), "{\"text\":\"\\u0001\\u001f\"}");
    assert_eq!(publish_body("caf\u{e9} \u{1d54f}"), "{\"text\":\"caf\u{e9} \u{1d54f}\"}");
}

#[test]
fn publish_body_agrees_with_a_json_parser() {
    let content = "a\"b\\c\nd\te\u{1}f caf\u{e9}";
    let parsed: serde_json::Value = serde_json::from_str(&publish_body(content)).unwrap();
    assert_eq!(parsed["text"].as_str().unwrap(), content);
}

#[test]
fn publish_succeeds_exactly_on_2xx() {
    assert!(publish_outcome(200).is_ok());
    assert!(publish_outcome(201).is_ok());
    assert!(publish_outcome(299).is_ok());
    assert!(publish_outcome(199).is_err());
    assert!(publish_outcome(300).is_err());
    assert!(publish_outcome(500).is_err());
}

#[test]
fn publish_failure_reports_the_status() {
    let s = authenticated_session();
    let before = s.access_token.clone();
    let err = publish_outcome(401).unwrap_err();
    assert_eq!(err.kind(), ErrorKind::PublishFailed(401));
    assert_eq!(err.message(), "Failed to post to X: 401");
    // The session is not touched by reading the provider's answer.
    assert_eq!(s.access_token, before);
    assert!(s.is_authenticated);
}

#[test]
fn publish_decision_uses_the_stored_token() {
    let s = authenticated_session();
    match post_home_decide(&s, "x") {
        PostDecision::Publish { authorization, .. } => {
            assert_eq!(authorization, "Bearer T");
        }
        PostDecision::NotAuthenticated => panic!("expected a publish decision"),
    }
}

#[test]
fn error_messages_name_the_condition() {
    assert_eq!(
        AppError(ErrorKind::MissingVerifier).message(),
        "PKCE verifier not found in session"
    );
    assert_eq!(
        AppError(ErrorKind::MissingConfigKey).message(),
        "required configuration key not found"
    );
    assert_eq!(
        AppError(ErrorKind::InvalidRedirectUrl).message(),
        "invalid redirect URL in configuration"
    );
    assert_eq!(AppError(ErrorKind::Oversized).message(), "input too large");
    assert_eq!(
        AppError(ErrorKind::PublishFailed(65535)).message(),
        "Failed to post to X: 65535"
    );
    assert_eq!(
        AppError(ErrorKind::PublishFailed(0)).message(),
        "Failed to post to X: 0"
    );
}

#[test]
fn anonymous_home_shows_login_and_no_post_form() {
    let s = Session::new();
    let html = render_home(&s);
    assert!(html.contains("<form action=\"/login\""));
    assert!(!html.contains("<form action=\"/post_home\""));
    assert!(html.starts_with("<!DOCTYPE html>"));
    assert!(html.ends_with("</body></html>"));
}

#[test]
fn authenticated_home_shows_the_post_form() {
    let mut s = authenticated_session();
    s.store_username("rasmus".to_string());
    let html = render_home(&s);
    assert!(html.contains("<form action=\"/post_home\""));
    assert!(html.contains("<textarea name=\"content\""));
    assert!(html.contains("Hey, rasmus!"));
    assert!(!html.contains("<form action=\"/login\""));
}

#[test]
fn authenticated_home_without_username_uses_a_placeholder() {
    let s = authenticated_session();
    let html = render_home(&s);
    assert!(html.contains("Hey, unknown user!"));
}

#[test]
fn publish_answers_have_the_expected_text() {
    assert_eq!(write2x::home::posted_page(), "<h1>Posted to X</h1>");
    assert_eq!(
        write2x::home::not_authenticated_page(),
        "<h1>Not authenticated</h1><p>You need to be authenticated to post</p>"
    );
}
