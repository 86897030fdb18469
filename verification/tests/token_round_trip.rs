//! Round-trip tests: serializing a standard token response and decoding it
//! again reproduces the logical value, with case-insensitive token types.

use oauth2::basic::{BasicTokenResponse, BasicTokenType};
use oauth2::decode::FromJsonBody;
use oauth2::token::{EmptyExtraTokenFields, TokenResponse};
use oauth2::{AccessToken, RefreshToken, Scope};

#[test]
fn minimal_round_trip() {
    let t = BasicTokenResponse::new(
        AccessToken::new("atok".to_string()),
        BasicTokenType::Bearer,
        EmptyExtraTokenFields {},
    );
    let bytes = t.to_json();
    assert_eq!(
        String::from_utf8(bytes.clone()).unwrap(),
        "{\"access_token\":\"atok\",\"token_type\":\"bearer\"}"
    );
    let t2 = BasicTokenResponse::from_json_body(&bytes).unwrap();
    assert!(t == t2);
}

#[test]
fn full_round_trip() {
    let mut t = BasicTokenResponse::new(
        AccessToken::new("a \"quoted\" tok\\en".to_string()),
        BasicTokenType::Mac,
        EmptyExtraTokenFields {},
    );
    t.set_expires_in(Some(3600));
    t.set_refresh_token(Some(RefreshToken::new("refresh-1".to_string())));
    t.set_scopes(Some(vec![
        Scope::new("read".to_string()),
        Scope::new("write".to_string()),
    ]));
    let bytes = t.to_json();
    let t2 = BasicTokenResponse::from_json_body(&bytes).unwrap();
    assert!(t == t2);
    assert_eq!(t2.expires_in(), Some(3600));
    assert_eq!(t2.refresh_token().unwrap().secret(), "refresh-1");
    let scopes: Vec<&str> = t2.scopes().unwrap().iter().map(|s| s.as_str()).collect();
    assert_eq!(scopes, vec!["read", "write"]);
}

#[test]
fn mixed_case_token_type_compares_equal_after_round_trip() {
    let body = b"{\"access_token\":\"atok\",\"token_type\":\"BeArEr\",\"expires_in\":60}";
    let t = BasicTokenResponse::from_json_body(body).unwrap();
    assert_eq!(*t.token_type(), BasicTokenType::Bearer);
    // Serializing gives the canonical lowercase spelling; decoding that
    // reproduces the same logical value.
    let t2 = BasicTokenResponse::from_json_body(&t.to_json()).unwrap();
    assert!(t == t2);
}

#[test]
fn unicode_round_trip() {
    let mut t = BasicTokenResponse::new(
        AccessToken::new("tok-\u{00e9}\u{4e16}".to_string()),
        BasicTokenType::Bearer,
        EmptyExtraTokenFields {},
    );
    t.set_scopes(Some(vec![Scope::new("caf\u{00e9}".to_string())]));
    let t2 = BasicTokenResponse::from_json_body(&t.to_json()).unwrap();
    assert!(t == t2);
}

#[test]
fn unknown_token_type_is_rejected() {
    let body = b"{\"access_token\":\"atok\",\"token_type\":\"saml\"}";
    assert!(BasicTokenResponse::from_json_body(body).is_err());
}

#[test]
fn null_optional_fields_count_as_absent() {
    let body =
        b"{\"access_token\":\"atok\",\"token_type\":\"bearer\",\"expires_in\":null,\"scope\":null}";
    let t = BasicTokenResponse::from_json_body(body).unwrap();
    assert!(t.expires_in().is_none());
    assert!(t.scopes().is_none());
}

#[test]
fn setters_replace_fields() {
    let mut t = BasicTokenResponse::new(
        AccessToken::new("one".to_string()),
        BasicTokenType::Bearer,
        EmptyExtraTokenFields {},
    );
    t.set_access_token(AccessToken::new("two".to_string()));
    t.set_token_type(BasicTokenType::Mac);
    assert_eq!(t.access_token().secret(), "two");
    assert_eq!(*t.token_type(), BasicTokenType::Mac);
    t.set_scopes(Some(vec![Scope::new("s".to_string())]));
    t.set_scopes(None);
    assert!(t.scopes().is_none());
    assert_eq!(*t.extra_fields(), EmptyExtraTokenFields {});
}
