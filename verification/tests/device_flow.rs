//! Tests of the Device Authorization Grant: decoding the device
//! authorization response and driving the polling state machine through the
//! adaptive backoff and expiration policies.

use oauth2::basic::{BasicClient, BasicTokenResponse};
use oauth2::decode::FromJsonBody;
use oauth2::devicecode::{
    check_device_deadline, compute_device_timeout, process_device_response,
    DeviceAccessTokenPollResult, DeviceCodeErrorResponse,
};
use oauth2::token::TokenResponse;
use oauth2::{
    AuthUrl, ClientId, ClientSecret, DeviceAuthorizationUrl, HttpResponse, RequestTokenError,
    StandardDeviceAuthorizationResponse, TokenUrl,
};

fn json_response(status: u16, body: &str) -> HttpResponse {
    HttpResponse {
        status_code: status,
        headers: vec![("Content-Type".to_string(), "application/json".to_string())],
        body: body.as_bytes().to_vec(),
    }
}

fn device_auth_body() -> &'static str {
    "{\"device_code\":\"dev-1\",\"user_code\":\"ABCD-EFGH\",\
      \"verification_uri\":\"https://verify.example/device\",\"expires_in\":1800,\"interval\":5}"
}

type PollResult = DeviceAccessTokenPollResult<BasicTokenResponse, String>;
type PollError = RequestTokenError<String, DeviceCodeErrorResponse>;

#[test]
fn device_authorization_response_decodes() {
    let d = StandardDeviceAuthorizationResponse::from_json_body(device_auth_body().as_bytes())
        .unwrap();
    assert_eq!(d.device_code().secret(), "dev-1");
    assert_eq!(d.user_code().secret(), "ABCD-EFGH");
    assert_eq!(d.verification_uri().as_str(), "https://verify.example/device");
    assert!(d.verification_uri_complete().is_none());
    assert_eq!(d.expires_in(), 1800);
    assert_eq!(d.interval(), 5);
}

#[test]
fn absent_interval_defaults_to_five_seconds() {
    let body = "{\"device_code\":\"d\",\"user_code\":\"u\",\
                \"verification_uri\":\"https://verify.example\",\"expires_in\":60}";
    let d = StandardDeviceAuthorizationResponse::from_json_body(body.as_bytes()).unwrap();
    assert_eq!(d.interval(), 5);
}

#[test]
fn invalid_verification_uri_is_rejected() {
    let body = "{\"device_code\":\"d\",\"user_code\":\"u\",\
                \"verification_uri\":\"not a url\",\"expires_in\":60}";
    assert!(StandardDeviceAuthorizationResponse::from_json_body(body.as_bytes()).is_err());
}

/// The polling scenario: pending, pending, slow down, success. Starting at
/// interval 5, the applied sleeps are 5, 5, and 10 seconds, and the success
/// is never polled past.
#[test]
fn polling_applies_pending_and_slow_down_policies() {
    let responses = vec![
        json_response(400, "{\"error\":\"authorization_pending\"}"),
        json_response(400, "{\"error\":\"authorization_pending\"}"),
        json_response(400, "{\"error\":\"slow_down\"}"),
        json_response(200, "{\"access_token\":\"tok\",\"token_type\":\"bearer\"}"),
    ];
    let mut interval: u64 = 5;
    let mut sleeps: Vec<u64> = Vec::new();
    let mut outcome: Option<Result<BasicTokenResponse, PollError>> = None;
    let mut polled: usize = 0;
    for resp in responses {
        polled += 1;
        let step: PollResult = process_device_response(Ok(resp), interval);
        match step {
            DeviceAccessTokenPollResult::ContinueWithNewPollInterval(n) => {
                sleeps.push(n);
                interval = n;
            },
            DeviceAccessTokenPollResult::Done(r) => {
                outcome = Some(r);
                break;
            },
        }
    }
    assert_eq!(sleeps, vec![5, 5, 10]);
    assert_eq!(polled, 4);
    let token = outcome.unwrap().unwrap();
    assert_eq!(token.access_token().secret(), "tok");
}

#[test]
fn transport_failure_doubles_the_interval() {
    let step: PollResult = process_device_response(Err("connection reset".to_string()), 5);
    match step {
        DeviceAccessTokenPollResult::ContinueWithNewPollInterval(n) => assert_eq!(n, 10),
        _ => panic!("expected to continue polling"),
    }
    let step: PollResult = process_device_response(Err("boom".to_string()), u64::MAX - 1);
    match step {
        DeviceAccessTokenPollResult::ContinueWithNewPollInterval(n) => {
            assert_eq!(n, u64::MAX - 1);
        },
        _ => panic!("expected to continue polling"),
    }
}

#[test]
fn slow_down_saturates_near_the_interval_ceiling() {
    let step: PollResult = process_device_response(
        Ok(json_response(400, "{\"error\":\"slow_down\"}")),
        u64::MAX - 3,
    );
    match step {
        DeviceAccessTokenPollResult::ContinueWithNewPollInterval(n) => assert_eq!(n, u64::MAX),
        _ => panic!("expected to continue polling"),
    }
}

#[test]
fn verification_uri_complete_is_kept_when_given() {
    let body = "{\"device_code\":\"d\",\"user_code\":\"u\",\
                \"verification_uri\":\"https://verify.example\",\
                \"verification_uri_complete\":\"https://verify.example?user_code=u\",\
                \"expires_in\":60}";
    let d = StandardDeviceAuthorizationResponse::from_json_body(body.as_bytes()).unwrap();
    assert_eq!(
        d.verification_uri_complete().unwrap().as_str(),
        "https://verify.example?user_code=u"
    );
}

#[test]
fn fatal_server_error_ends_the_poll() {
    let step: PollResult =
        process_device_response(Ok(json_response(400, "{\"error\":\"access_denied\"}")), 5);
    match step {
        DeviceAccessTokenPollResult::Done(Err(RequestTokenError::ServerResponse(_))) => {},
        _ => panic!("expected a terminal server error"),
    }
}

/// The expiration scenario: once the deadline passes, the session stops with
/// the device-code-expired failure and issues no further requests.
#[test]
fn expiration_stops_the_loop_before_any_request() {
    let deadline = compute_device_timeout::<String>(1000, None, 30).unwrap();
    assert_eq!(deadline, 1030);
    // A caller timeout is capped by the advertised lifetime.
    assert_eq!(compute_device_timeout::<String>(1000, Some(10), 30).unwrap(), 1010);
    assert_eq!(compute_device_timeout::<String>(1000, Some(60), 30).unwrap(), 1030);

    let mut requests_sent: usize = 0;
    let mut now: u64 = 1000;
    let outcome: PollError = loop {
        if let Some(e) = check_device_deadline::<String>(now, deadline) {
            break e;
        }
        requests_sent += 1;
        // The server keeps answering `authorization_pending` while the
        // clock advances past the deadline.
        let step: PollResult = process_device_response(
            Ok(json_response(400, "{\"error\":\"authorization_pending\"}")),
            5,
        );
        match step {
            DeviceAccessTokenPollResult::ContinueWithNewPollInterval(_) => now += 1000,
            DeviceAccessTokenPollResult::Done(_) => panic!("pending never terminates"),
        }
    };
    match outcome {
        RequestTokenError::Other(m) => assert_eq!(m, "Device code expired"),
        _ => panic!("expected the expiration failure"),
    }
    assert_eq!(requests_sent, 1);
}

#[test]
fn overflowing_deadline_fails_locally() {
    match compute_device_timeout::<String>(u64::MAX, Some(10), 10) {
        Err(RequestTokenError::Other(m)) => assert_eq!(m, "Failed to calculate timeout"),
        _ => panic!("expected a local failure"),
    }
}

#[test]
fn device_request_builder_assembles_the_device_grant() {
    let client = BasicClient::new(
        ClientId::new("client".to_string()),
        Some(ClientSecret::new("secret".to_string())),
        AuthUrl::new("https://auth.example/authorize".to_string()).unwrap(),
        Some(TokenUrl::new("https://auth.example/token".to_string()).unwrap()),
    )
    .set_auth_type(oauth2::AuthType::RequestBody)
    .set_device_authorization_url(
        DeviceAuthorizationUrl::new("https://auth.example/device".to_string()).unwrap(),
    );
    let d = StandardDeviceAuthorizationResponse::from_json_body(device_auth_body().as_bytes())
        .unwrap();
    let req = client
        .exchange_device_access_token(&d)
        .prepare_request()
        .unwrap();
    assert_eq!(req.url, "https://auth.example/token");
    assert_eq!(
        String::from_utf8(req.body).unwrap(),
        "grant_type=urn%3Aietf%3Aparams%3Aoauth%3Agrant-type%3Adevice_code&device_code=dev-1&client_id=client&client_secret=secret"
    );
}
