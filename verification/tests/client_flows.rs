//! End-to-end tests of the grant flows through `Client`, with a scripted
//! transport closure standing in for the network.

use oauth2::basic::{BasicClient, BasicErrorResponse, BasicTokenResponse};
use oauth2::introspection::TokenInspectionResponse;
use oauth2::token::TokenResponse;
use oauth2::{
    AccessToken, AuthType, AuthUrl, AuthorizationCode, ClientId, ClientSecret, HttpRequest,
    HttpResponse, IntrospectUrl, PkceCodeVerifier, RefreshToken, RequestTokenError,
    ResourceOwnerPassword, ResourceOwnerUsername, Scope, TokenUrl,
};

fn client() -> BasicClient {
    BasicClient::new(
        ClientId::new("client".to_string()),
        Some(ClientSecret::new("secret".to_string())),
        AuthUrl::new("https://auth.example/authorize".to_string()).unwrap(),
        Some(TokenUrl::new("https://auth.example/token".to_string()).unwrap()),
    )
    .set_auth_type(AuthType::RequestBody)
}

fn token_transport(
    expect_body: &'static str,
) -> impl FnOnce(HttpRequest) -> Result<HttpResponse, String> {
    move |req: HttpRequest| {
        assert_eq!(String::from_utf8(req.body).unwrap(), expect_body);
        Ok(HttpResponse {
            status_code: 200,
            headers: vec![("Content-Type".to_string(), "application/json".to_string())],
            body: b"{\"access_token\":\"tok\",\"token_type\":\"bearer\"}".to_vec(),
        })
    }
}

#[test]
fn code_exchange_with_pkce_verifier() {
    let token = client()
        .exchange_code(AuthorizationCode::new("code-1".to_string()))
        .set_pkce_verifier(PkceCodeVerifier::new("verif-1".to_string()))
        .request(token_transport(
            "grant_type=authorization_code&code=code-1&code_verifier=verif-1\
             &client_id=client&client_secret=secret",
        ))
        .unwrap();
    assert_eq!(token.access_token().secret(), "tok");
}

#[test]
fn refresh_token_exchange() {
    let rt = RefreshToken::new("refresh-1".to_string());
    let token = client()
        .exchange_refresh_token(&rt)
        .add_scope(Scope::new("read".to_string()))
        .request(token_transport(
            "grant_type=refresh_token&refresh_token=refresh-1&scope=read\
             &client_id=client&client_secret=secret",
        ))
        .unwrap();
    assert_eq!(token.access_token().secret(), "tok");
}

#[test]
fn password_exchange() {
    let user = ResourceOwnerUsername::new("user".to_string());
    let pass = ResourceOwnerPassword::new("pass word".to_string());
    let token = client()
        .exchange_password(&user, &pass)
        .request(token_transport(
            "grant_type=password&username=user&password=pass+word\
             &client_id=client&client_secret=secret",
        ))
        .unwrap();
    assert_eq!(token.access_token().secret(), "tok");
}

#[test]
fn client_credentials_exchange() {
    let token = client()
        .exchange_client_credentials()
        .add_extra_param("audience".to_string(), "https://api.example".to_string())
        .request(token_transport(
            "grant_type=client_credentials&client_id=client&client_secret=secret\
             &audience=https%3A%2F%2Fapi.example",
        ))
        .unwrap();
    assert_eq!(token.access_token().secret(), "tok");
}

#[test]
fn missing_token_url_fails_locally_without_sending() {
    let client = BasicClient::new(
        ClientId::new("client".to_string()),
        None,
        AuthUrl::new("https://auth.example/authorize".to_string()).unwrap(),
        None,
    );
    let r = client
        .exchange_client_credentials()
        .request(|_req: HttpRequest| -> Result<HttpResponse, String> {
            panic!("the transport must not be called")
        });
    match r {
        Err(RequestTokenError::Other(m)) => assert_eq!(m, "no token_url provided"),
        _ => panic!("expected a local failure"),
    }
}

#[test]
fn transport_failure_surfaces_as_request_error() {
    let r = client()
        .exchange_client_credentials()
        .request(|_req: HttpRequest| -> Result<HttpResponse, String> {
            Err("dns failure".to_string())
        });
    match r {
        Err(RequestTokenError::Request(e)) => assert_eq!(e, "dns failure"),
        _ => panic!("expected a transport error"),
    }
}

#[test]
fn introspection_flow() {
    let client = client().set_introspection_url(
        IntrospectUrl::new("https://auth.example/introspect".to_string()).unwrap(),
    );
    let token = AccessToken::new("tok-1".to_string());
    let r = client
        .introspect(&token)
        .set_token_type_hint("access_token".to_string())
        .request(|req: HttpRequest| -> Result<HttpResponse, String> {
            assert_eq!(req.url, "https://auth.example/introspect");
            assert_eq!(
                String::from_utf8(req.body).unwrap(),
                "token=tok-1&token_type_hint=access_token&client_id=client&client_secret=secret"
            );
            Ok(HttpResponse {
                status_code: 200,
                headers: vec![("Content-Type".to_string(), "application/json".to_string())],
                body: b"{\"active\":true,\"scope\":\"read write\",\"client_id\":\"client\",\
                       \"username\":\"jdoe\",\"token_type\":\"Bearer\",\"exp\":1700000000,\
                       \"aud\":[\"a\",\"b\"],\"sub\":\"Z5O3upPC88QrAjx00dis\"}"
                    .to_vec(),
            })
        })
        .unwrap();
    assert!(r.active());
    let scopes: Vec<&str> = r.scopes().unwrap().iter().map(|s| s.as_str()).collect();
    assert_eq!(scopes, vec!["read", "write"]);
    assert_eq!(r.client_id().unwrap().as_str(), "client");
    assert_eq!(r.username().unwrap(), "jdoe");
    assert_eq!(r.exp(), Some(1700000000));
    assert_eq!(r.aud().unwrap(), &vec!["a".to_string(), "b".to_string()]);
    assert_eq!(r.sub().unwrap(), "Z5O3upPC88QrAjx00dis");
    assert!(r.iat().is_none());
}

#[test]
fn server_error_with_basic_auth_client() {
    let client = BasicClient::new(
        ClientId::new("client".to_string()),
        Some(ClientSecret::new("secret".to_string())),
        AuthUrl::new("https://auth.example/authorize".to_string()).unwrap(),
        Some(TokenUrl::new("https://auth.example/token".to_string()).unwrap()),
    );
    let r: Result<BasicTokenResponse, RequestTokenError<String, BasicErrorResponse>> = client
        .exchange_code(AuthorizationCode::new("bad".to_string()))
        .request(|req: HttpRequest| -> Result<HttpResponse, String> {
            // The default policy is basic auth: no credentials in the body.
            assert_eq!(
                String::from_utf8(req.body).unwrap(),
                "grant_type=authorization_code&code=bad"
            );
            let auth = req
                .headers
                .iter()
                .find(|(n, _)| n == "authorization")
                .map(|(_, v)| v.clone())
                .unwrap();
            assert!(auth.starts_with("Basic "));
            Ok(HttpResponse {
                status_code: 400,
                headers: vec![("Content-Type".to_string(), "application/json".to_string())],
                body: b"{\"error\":\"invalid_grant\"}".to_vec(),
            })
        });
    match r {
        Err(RequestTokenError::ServerResponse(_)) => {},
        _ => panic!("expected a server response error"),
    }
}
