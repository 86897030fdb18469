//! Tests of the response decoder and error classifier: status handling,
//! content-type validation, and the four-way error taxonomy.

use oauth2::basic::{BasicErrorResponse, BasicErrorResponseType, BasicTokenResponse, BasicTokenType};
use oauth2::endpoint::endpoint_response;
use oauth2::token::TokenResponse;
use oauth2::{HttpResponse, RequestTokenError};

fn json_response(status: u16, body: &str) -> HttpResponse {
    HttpResponse {
        status_code: status,
        headers: vec![("Content-Type".to_string(), "application/json".to_string())],
        body: body.as_bytes().to_vec(),
    }
}

type Decoded = Result<BasicTokenResponse, RequestTokenError<String, BasicErrorResponse>>;

#[test]
fn success_without_scope_has_no_scopes() {
    let resp = json_response(200, "{\"access_token\":\"tok\",\"token_type\":\"bearer\"}");
    let r: Decoded = endpoint_response(&resp);
    let token = r.unwrap();
    assert_eq!(token.access_token().secret(), "tok");
    assert_eq!(*token.token_type(), BasicTokenType::Bearer);
    assert!(token.scopes().is_none());
    assert!(token.expires_in().is_none());
    assert!(token.refresh_token().is_none());
}

#[test]
fn success_scope_splits_on_spaces_in_order() {
    let resp = json_response(
        200,
        "{\"access_token\":\"tok\",\"token_type\":\"bearer\",\"scope\":\"a b c\"}",
    );
    let r: Decoded = endpoint_response(&resp);
    let token = r.unwrap();
    let scopes: Vec<&str> = token.scopes().unwrap().iter().map(|s| s.as_str()).collect();
    assert_eq!(scopes, vec!["a", "b", "c"]);
}

#[test]
fn empty_scope_string_is_one_empty_scope() {
    // The wire format splits on every space and keeps empty pieces, so an
    // empty scope string carries exactly one empty scope.
    let resp = json_response(
        200,
        "{\"access_token\":\"tok\",\"token_type\":\"bearer\",\"scope\":\"\"}",
    );
    let r: Decoded = endpoint_response(&resp);
    let token = r.unwrap();
    let scopes: Vec<&str> = token.scopes().unwrap().iter().map(|s| s.as_str()).collect();
    assert_eq!(scopes, vec![""]);
}

#[test]
fn non_200_with_known_error_body_is_server_response() {
    let resp = json_response(400, "{\"error\":\"invalid_grant\"}");
    let r: Decoded = endpoint_response(&resp);
    match r {
        Err(RequestTokenError::ServerResponse(e)) => {
            assert_eq!(*e.error(), BasicErrorResponseType::InvalidGrant);
            assert!(e.error_description().is_none());
            assert!(e.error_uri().is_none());
        },
        _ => panic!("expected a server response error"),
    }
}

#[test]
fn non_200_with_non_json_body_is_parse_with_original_bytes() {
    let resp = json_response(503, "gateway exploded");
    let r: Decoded = endpoint_response(&resp);
    match r {
        Err(RequestTokenError::Parse(_, raw)) => {
            assert_eq!(raw, b"gateway exploded".to_vec());
        },
        _ => panic!("expected a parse error"),
    }
}

#[test]
fn non_200_with_unknown_error_code_is_parse() {
    let resp = json_response(400, "{\"error\":\"my_custom_error\"}");
    let r: Decoded = endpoint_response(&resp);
    match r {
        Err(RequestTokenError::Parse(_, raw)) => {
            assert_eq!(raw, b"{\"error\":\"my_custom_error\"}".to_vec());
        },
        _ => panic!("expected a parse error"),
    }
}

#[test]
fn non_200_with_empty_body_is_other() {
    let resp = json_response(500, "");
    let r: Decoded = endpoint_response(&resp);
    match r {
        Err(RequestTokenError::Other(m)) => {
            assert_eq!(m, "Server returned empty error response");
        },
        _ => panic!("expected a local error"),
    }
}

#[test]
fn error_body_with_description_and_uri() {
    let resp = json_response(
        400,
        "{\"error\":\"invalid_request\",\"error_description\":\"missing code\",\"error_uri\":\"https://err.example\"}",
    );
    let r: Decoded = endpoint_response(&resp);
    match r {
        Err(RequestTokenError::ServerResponse(e)) => {
            assert_eq!(*e.error(), BasicErrorResponseType::InvalidRequest);
            assert_eq!(e.error_description().unwrap(), "missing code");
            assert_eq!(e.error_uri().unwrap(), "https://err.example");
            assert_eq!(
                e.display_string(),
                "invalid_request: missing code / See https://err.example"
            );
        },
        _ => panic!("expected a server response error"),
    }
}

#[test]
fn mismatched_content_type_is_other() {
    let resp = HttpResponse {
        status_code: 200,
        headers: vec![("Content-Type".to_string(), "text/html".to_string())],
        body: b"{\"access_token\":\"tok\",\"token_type\":\"bearer\"}".to_vec(),
    };
    let r: Decoded = endpoint_response(&resp);
    match r {
        Err(RequestTokenError::Other(m)) => {
            assert_eq!(
                m,
                "Unexpected response Content-Type: text/html, should be `application/json`"
            );
        },
        _ => panic!("expected a local error"),
    }
}

#[test]
fn content_type_is_case_insensitive_and_allows_parameters() {
    let resp = HttpResponse {
        status_code: 200,
        headers: vec![(
            "content-TYPE".to_string(),
            "Application/JSON; charset=utf-8".to_string(),
        )],
        body: b"{\"access_token\":\"tok\",\"token_type\":\"BEARER\"}".to_vec(),
    };
    let r: Decoded = endpoint_response(&resp);
    let token = r.unwrap();
    assert_eq!(*token.token_type(), BasicTokenType::Bearer);
}

#[test]
fn missing_content_type_is_tolerated() {
    let resp = HttpResponse {
        status_code: 200,
        headers: Vec::new(),
        body: b"{\"access_token\":\"tok\",\"token_type\":\"bearer\"}".to_vec(),
    };
    let r: Decoded = endpoint_response(&resp);
    assert!(r.is_ok());
}

#[test]
fn empty_success_body_is_other() {
    let resp = json_response(200, "");
    let r: Decoded = endpoint_response(&resp);
    match r {
        Err(RequestTokenError::Other(m)) => {
            assert_eq!(m, "Server returned empty response body");
        },
        _ => panic!("expected a local error"),
    }
}

#[test]
fn malformed_success_body_is_parse_with_original_bytes() {
    let resp = json_response(200, "{\"token_type\":\"bearer\"}");
    let r: Decoded = endpoint_response(&resp);
    match r {
        Err(RequestTokenError::Parse(_, raw)) => {
            assert_eq!(raw, b"{\"token_type\":\"bearer\"}".to_vec());
        },
        _ => panic!("expected a parse error"),
    }
}
