//! Tests of the authorization URL builder: parameter order, encoding, PKCE,
//! the implicit flow, and query-string placement.

use oauth2::basic::BasicClient;
use oauth2::{
    AuthUrl, ClientId, CsrfToken, PkceCodeChallenge, PkceCodeChallengeMethod, RedirectUrl,
    ResponseType, Scope,
};

fn client() -> BasicClient {
    BasicClient::new(
        ClientId::new("aaa".to_string()),
        None,
        AuthUrl::new("https://auth.example/authorize".to_string()).unwrap(),
        None,
    )
}

#[test]
fn minimal_authorization_url() {
    let (url, state) = client()
        .authorize_url(|| CsrfToken::new("xyz".to_string()))
        .url();
    assert_eq!(
        url,
        "https://auth.example/authorize?response_type=code&client_id=aaa&state=xyz"
    );
    assert_eq!(state.secret(), "xyz");
}

#[test]
fn full_authorization_url_with_scopes_redirect_and_extras() {
    let client = client().set_redirect_url(
        RedirectUrl::new("https://client.example/cb".to_string()).unwrap(),
    );
    let (url, _state) = client
        .authorize_url(|| CsrfToken::new("st".to_string()))
        .add_scope(Scope::new("read".to_string()))
        .add_scope(Scope::new("write".to_string()))
        .add_extra_param("prompt".to_string(), "consent now".to_string())
        .url();
    assert_eq!(
        url,
        "https://auth.example/authorize?response_type=code&client_id=aaa&state=st\
         &redirect_uri=https%3A%2F%2Fclient.example%2Fcb&scope=read+write&prompt=consent+now"
    );
}

#[test]
fn pkce_challenge_parameters() {
    let challenge = PkceCodeChallenge::new(
        "E9Mel...challenge".to_string(),
        PkceCodeChallengeMethod::s256(),
    );
    let (url, _state) = client()
        .authorize_url(|| CsrfToken::new("s".to_string()))
        .set_pkce_challenge(challenge)
        .url();
    assert_eq!(
        url,
        "https://auth.example/authorize?response_type=code&client_id=aaa&state=s\
         &code_challenge=E9Mel...challenge&code_challenge_method=S256"
    );
}

#[test]
fn implicit_flow_uses_token_response_type() {
    let (url, _state) = client()
        .authorize_url(|| CsrfToken::new("s".to_string()))
        .use_implicit_flow()
        .url();
    assert!(url.starts_with("https://auth.example/authorize?response_type=token&"));
}

#[test]
fn custom_response_type() {
    let rt = ResponseType::new("code token".to_string());
    let (url, _state) = client()
        .authorize_url(|| CsrfToken::new("s".to_string()))
        .set_response_type(&rt)
        .url();
    assert!(url.starts_with("https://auth.example/authorize?response_type=code+token&"));
}

#[test]
fn authorization_url_parses_back_with_the_url_crate() {
    let client = client().set_redirect_url(
        RedirectUrl::new("https://client.example/cb?x=1".to_string()).unwrap(),
    );
    let (url, _state) = client
        .authorize_url(|| CsrfToken::new("st/val ue".to_string()))
        .add_scope(Scope::new("read".to_string()))
        .add_scope(Scope::new("write".to_string()))
        .add_extra_param("k".to_string(), "a=b&c".to_string())
        .url();
    let parsed = url::Url::parse(&url).unwrap();
    let pairs: Vec<(String, String)> = parsed
        .query_pairs()
        .map(|(k, v)| (k.into_owned(), v.into_owned()))
        .collect();
    assert_eq!(
        pairs,
        vec![
            ("response_type".to_string(), "code".to_string()),
            ("client_id".to_string(), "aaa".to_string()),
            ("state".to_string(), "st/val ue".to_string()),
            ("redirect_uri".to_string(), "https://client.example/cb?x=1".to_string()),
            ("scope".to_string(), "read write".to_string()),
            ("k".to_string(), "a=b&c".to_string()),
        ]
    );
}

#[test]
fn existing_query_extends_with_ampersand() {
    let client = BasicClient::new(
        ClientId::new("aaa".to_string()),
        None,
        AuthUrl::new("https://auth.example/authorize?tenant=t1".to_string()).unwrap(),
        None,
    );
    let (url, _state) = client
        .authorize_url(|| CsrfToken::new("s".to_string()))
        .url();
    assert_eq!(
        url,
        "https://auth.example/authorize?tenant=t1&response_type=code&client_id=aaa&state=s"
    );
}
