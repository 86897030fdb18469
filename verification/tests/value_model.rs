//! Tests of the value model: secret redaction, URL validation, and the
//! introspection decoding edge cases.

use oauth2::basic::BasicTokenInspectionResponse;
use oauth2::decode::FromJsonBody;
use oauth2::introspection::TokenInspectionResponse;
use oauth2::token::EmptyExtraTokenFields;
use oauth2::{
    AccessToken, AuthUrl, ClientSecret, PkceCodeChallenge, PkceCodeVerifier, TokenUrl,
};

#[test]
fn secrets_are_redacted_but_revealable() {
    let s = ClientSecret::new("hunter2".to_string());
    assert_eq!(s.redacted(), "[redacted]");
    assert_eq!(s.secret(), "hunter2");
    let t = AccessToken::new("tok".to_string());
    assert_eq!(t.redacted(), "[redacted]");
    assert_eq!(t.secret(), "tok");
}

#[test]
fn url_types_validate_at_construction() {
    assert!(AuthUrl::new("https://auth.example/a".to_string()).is_ok());
    assert!(AuthUrl::new("not a url".to_string()).is_err());
    assert!(TokenUrl::new("relative/path".to_string()).is_err());
    let u = AuthUrl::new("https://auth.example/a?x=1".to_string()).unwrap();
    assert_eq!(u.as_str(), "https://auth.example/a?x=1");
}

#[test]
fn plain_pkce_challenge_equals_verifier() {
    let v = PkceCodeVerifier::new("verifier-value".to_string());
    let c = PkceCodeChallenge::from_code_verifier_plain(&v);
    assert_eq!(c.as_str(), "verifier-value");
    assert_eq!(c.method().as_str(), "plain");
}

#[test]
fn introspection_minimal_body() {
    let r = BasicTokenInspectionResponse::from_json_body(b"{\"active\":false}").unwrap();
    assert!(!r.active());
    assert!(r.scopes().is_none());
    assert!(r.client_id().is_none());
    assert!(r.username().is_none());
    assert!(r.token_type().is_none());
    assert!(r.exp().is_none());
    assert!(r.aud().is_none());
}

#[test]
fn introspection_requires_active() {
    assert!(BasicTokenInspectionResponse::from_json_body(b"{}").is_err());
    assert!(BasicTokenInspectionResponse::from_json_body(b"{\"active\":\"yes\"}").is_err());
}

#[test]
fn introspection_lone_audience_string_counts_as_list() {
    let r = BasicTokenInspectionResponse::from_json_body(
        b"{\"active\":true,\"aud\":\"https://api.example\"}",
    )
    .unwrap();
    assert_eq!(r.aud().unwrap(), &vec!["https://api.example".to_string()]);
}

#[test]
fn introspection_negative_timestamps_are_kept() {
    let r = BasicTokenInspectionResponse::from_json_body(
        b"{\"active\":true,\"iat\":-1,\"nbf\":0}",
    )
    .unwrap();
    assert_eq!(r.iat(), Some(-1));
    assert_eq!(r.nbf(), Some(0));
}

#[test]
fn introspection_setters() {
    let mut r = BasicTokenInspectionResponse::new(true, EmptyExtraTokenFields {});
    r.set_username(Some("jdoe".to_string()));
    r.set_exp(Some(123));
    assert!(r.active());
    assert_eq!(r.username().unwrap(), "jdoe");
    assert_eq!(r.exp(), Some(123));
    r.set_active(false);
    assert!(!r.active());
}
