//! Tests of the endpoint request assembler: scope joining, client
//! authentication, parameter ordering, and the form-urlencoded body.

use oauth2::endpoint::endpoint_request;
use oauth2::{AuthType, ClientId, ClientSecret, HttpMethod, RedirectUrl, Scope};

fn body_str(req: &oauth2::HttpRequest) -> String {
    String::from_utf8(req.body.clone()).unwrap()
}

fn header<'a>(req: &'a oauth2::HttpRequest, name: &str) -> Option<&'a String> {
    req.headers
        .iter()
        .find(|(n, _)| n.eq_ignore_ascii_case(name))
        .map(|(_, v)| v)
}

#[test]
fn scopes_join_with_single_spaces() {
    let id = ClientId::new("client".to_string());
    let scopes = vec![
        Scope::new("read".to_string()),
        Scope::new("write".to_string()),
        Scope::new("admin".to_string()),
    ];
    let req = endpoint_request(
        &AuthType::RequestBody,
        &id,
        None,
        &Vec::new(),
        None,
        Some(&scopes),
        "https://token.example/token",
        vec![("grant_type".to_string(), "client_credentials".to_string())],
    );
    assert_eq!(
        body_str(&req),
        "grant_type=client_credentials&scope=read+write+admin&client_id=client"
    );
}

#[test]
fn empty_scope_set_omits_the_parameter() {
    let id = ClientId::new("client".to_string());
    let scopes: Vec<Scope> = Vec::new();
    let req = endpoint_request(
        &AuthType::RequestBody,
        &id,
        None,
        &Vec::new(),
        None,
        Some(&scopes),
        "https://token.example/token",
        vec![("grant_type".to_string(), "client_credentials".to_string())],
    );
    assert_eq!(body_str(&req), "grant_type=client_credentials&client_id=client");
    assert!(!body_str(&req).contains("scope"));
}

#[test]
fn basic_auth_header_percent_encodes_before_base64() {
    // RFC 6749 section 2.3.1: id and secret are form-urlencoded separately
    // before being joined for basic auth; the space becomes `+`.
    let id = ClientId::new("aladdin".to_string());
    let secret = ClientSecret::new("open sesame".to_string());
    let req = endpoint_request(
        &AuthType::BasicAuth,
        &id,
        Some(&secret),
        &Vec::new(),
        None,
        None,
        "https://token.example/token",
        vec![("grant_type".to_string(), "client_credentials".to_string())],
    );
    assert_eq!(
        header(&req, "authorization").unwrap(),
        "Basic YWxhZGRpbjpvcGVuK3Nlc2FtZQ=="
    );
    // With basic auth, the credentials stay out of the body.
    assert_eq!(body_str(&req), "grant_type=client_credentials");
}

#[test]
fn basic_auth_with_absent_secret_uses_empty_password() {
    let id = ClientId::new("client id+".to_string());
    let req = endpoint_request(
        &AuthType::BasicAuth,
        &id,
        None,
        &Vec::new(),
        None,
        None,
        "https://token.example/token",
        vec![],
    );
    assert_eq!(header(&req, "authorization").unwrap(), "Basic Y2xpZW50K2lkJTJCOg==");
}

#[test]
fn basic_auth_header_decodes_with_the_base64_crate() {
    let id = ClientId::new("cl ient".to_string());
    let secret = ClientSecret::new("p:a/s".to_string());
    let req = endpoint_request(
        &AuthType::BasicAuth,
        &id,
        Some(&secret),
        &Vec::new(),
        None,
        None,
        "https://token.example/token",
        vec![],
    );
    let value = header(&req, "authorization").unwrap();
    let encoded = value.strip_prefix("Basic ").unwrap();
    let decoded = base64::decode(encoded).unwrap();
    assert_eq!(String::from_utf8(decoded).unwrap(), "cl+ient:p%3Aa%2Fs");
}

#[test]
fn request_body_auth_puts_credentials_in_the_body() {
    let id = ClientId::new("client".to_string());
    let secret = ClientSecret::new("s3cr3t".to_string());
    let req = endpoint_request(
        &AuthType::RequestBody,
        &id,
        Some(&secret),
        &Vec::new(),
        None,
        None,
        "https://token.example/token",
        vec![("grant_type".to_string(), "client_credentials".to_string())],
    );
    assert!(header(&req, "authorization").is_none());
    assert_eq!(
        body_str(&req),
        "grant_type=client_credentials&client_id=client&client_secret=s3cr3t"
    );
}

#[test]
fn standard_headers_and_method() {
    let id = ClientId::new("client".to_string());
    let req = endpoint_request(
        &AuthType::RequestBody,
        &id,
        None,
        &Vec::new(),
        None,
        None,
        "https://token.example/token",
        vec![],
    );
    assert_eq!(req.method, HttpMethod::Post);
    assert_eq!(req.url, "https://token.example/token");
    assert_eq!(header(&req, "accept").unwrap(), "application/json");
    assert_eq!(
        header(&req, "content-type").unwrap(),
        "application/x-www-form-urlencoded"
    );
}

#[test]
fn redirect_and_extra_params_come_last_and_are_encoded() {
    let id = ClientId::new("client".to_string());
    let redirect = RedirectUrl::new("https://client.example/cb".to_string()).unwrap();
    let extra = vec![("resource".to_string(), "a b&c=d".to_string())];
    let req = endpoint_request(
        &AuthType::RequestBody,
        &id,
        None,
        &extra,
        Some(&redirect),
        None,
        "https://token.example/token",
        vec![("grant_type".to_string(), "authorization_code".to_string())],
    );
    assert_eq!(
        body_str(&req),
        "grant_type=authorization_code&client_id=client&redirect_uri=https%3A%2F%2Fclient.example%2Fcb&resource=a+b%26c%3Dd"
    );
}
