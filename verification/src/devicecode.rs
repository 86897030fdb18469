//! Device Code Flow (RFC 8628): the device authorization response, the
//! device-flow error codes with their continuation semantics, and the
//! decisions of the timed polling state machine. The polling loop itself
//! only performs what these decisions prescribe: send, classify, sleep, and
//! stop at the deadline.

use vstd::prelude::*;
use vstd::string::StringExecFns;

use crate::basic::BasicErrorResponseType;
use crate::decode::{opt_str_field, opt_u64_field, req_str_field, req_u64_field, FromJsonBody};
use crate::endpoint::{endpoint_outcome, endpoint_response};
use core::marker::PhantomData;

use crate::encoding::pairs_view;
use crate::endpoint::endpoint_request;
use crate::errors::{ErrorResponse, ErrorResponseType, RequestTokenError, StandardErrorResponse};
use crate::requests::{wire_matches_parts, RequestParts};
use crate::token::{TokenResponse, TokenType};
use crate::types::{ClientId, ClientSecret, TokenUrl};
use crate::AuthType;
use crate::ext::{is_valid_url, json_top_of, JsonScalar};
use crate::helpers::str_eq;
use crate::types::{DeviceCode, EndUserVerificationUrl, UserCode};
use crate::wire::{HttpRequest, HttpResponse};

verus! {

/// The error codes a device-token poll can receive: the continuation codes
/// of RFC 8628 section 3.5 and the basic codes of RFC 6749.
#[derive(Clone, Debug, PartialEq, Eq)]
pub enum DeviceCodeErrorResponseType {
    /// The user has not yet completed authorization; poll again after the
    /// same interval.
    AuthorizationPending,
    /// The client polls too fast; add five seconds to the interval.
    SlowDown,
    /// The user refused the authorization request.
    AccessDenied,
    /// The device code has expired on the server.
    ExpiredToken,
    /// One of the basic error codes of RFC 6749.
    Basic(BasicErrorResponseType),
}

impl ErrorResponseType for DeviceCodeErrorResponseType {
    open spec fn spec_from_wire(s: Seq<char>) -> Option<Self> {
        if s == "authorization_pending"@ {
            Some(DeviceCodeErrorResponseType::AuthorizationPending)
        } else if s == "slow_down"@ {
            Some(DeviceCodeErrorResponseType::SlowDown)
        } else if s == "access_denied"@ {
            Some(DeviceCodeErrorResponseType::AccessDenied)
        } else if s == "expired_token"@ {
            Some(DeviceCodeErrorResponseType::ExpiredToken)
        } else {
            match BasicErrorResponseType::spec_from_wire(s) {
                Some(b) => Some(DeviceCodeErrorResponseType::Basic(b)),
                None => None,
            }
        }
    }

    open spec fn spec_wire(&self) -> Seq<char> {
        match self {
            DeviceCodeErrorResponseType::AuthorizationPending => "authorization_pending"@,
            DeviceCodeErrorResponseType::SlowDown => "slow_down"@,
            DeviceCodeErrorResponseType::AccessDenied => "access_denied"@,
            DeviceCodeErrorResponseType::ExpiredToken => "expired_token"@,
            DeviceCodeErrorResponseType::Basic(b) => b.spec_wire(),
        }
    }

    fn from_wire(s: &str) -> (r: Option<Self>) {
        if str_eq(s, "authorization_pending") {
            Some(DeviceCodeErrorResponseType::AuthorizationPending)
        } else if str_eq(s, "slow_down") {
            Some(DeviceCodeErrorResponseType::SlowDown)
        } else if str_eq(s, "access_denied") {
            Some(DeviceCodeErrorResponseType::AccessDenied)
        } else if str_eq(s, "expired_token") {
            Some(DeviceCodeErrorResponseType::ExpiredToken)
        } else {
            match BasicErrorResponseType::from_wire(s) {
                Some(b) => Some(DeviceCodeErrorResponseType::Basic(b)),
                None => None,
            }
        }
    }

    fn to_wire(&self) -> (r: String) {
        match self {
            DeviceCodeErrorResponseType::AuthorizationPending => String::from_str(
                "authorization_pending",
            ),
            DeviceCodeErrorResponseType::SlowDown => String::from_str("slow_down"),
            DeviceCodeErrorResponseType::AccessDenied => String::from_str("access_denied"),
            DeviceCodeErrorResponseType::ExpiredToken => String::from_str("expired_token"),
            DeviceCodeErrorResponseType::Basic(b) => b.to_wire(),
        }
    }
}

/// Decoding a device error code's wire spelling gives that code back; in
/// particular no basic code spells like a device continuation code.
pub proof fn lemma_device_error_code_round_trip(e: DeviceCodeErrorResponseType)
    ensures
        DeviceCodeErrorResponseType::spec_from_wire(e.spec_wire()) == Some(e),
{
    broadcast use vstd::string::group_string_axioms;

    reveal_strlit("authorization_pending");
    reveal_strlit("slow_down");
    reveal_strlit("access_denied");
    reveal_strlit("expired_token");
    reveal_strlit("invalid_request");
    reveal_strlit("invalid_client");
    reveal_strlit("invalid_grant");
    reveal_strlit("unauthorized_client");
    reveal_strlit("unsupported_grant_type");
    reveal_strlit("invalid_scope");
    assert("authorization_pending"@.len() == 21);
    assert("slow_down"@.len() == 9);
    assert("access_denied"@.len() == 13);
    assert("expired_token"@.len() == 13);
    assert("invalid_request"@.len() == 15);
    assert("invalid_client"@.len() == 14);
    assert("invalid_grant"@.len() == 13);
    assert("unauthorized_client"@.len() == 19);
    assert("unsupported_grant_type"@.len() == 22);
    assert("invalid_scope"@.len() == 13);
    assert("access_denied"@[0] != "expired_token"@[0]);
    assert("invalid_grant"@[0] != "access_denied"@[0]);
    assert("invalid_scope"@[0] != "access_denied"@[0]);
    assert("invalid_grant"@[0] != "expired_token"@[0]);
    assert("invalid_scope"@[0] != "expired_token"@[0]);
    assert("invalid_grant"@[8] != "invalid_scope"@[8]);
    match e {
        DeviceCodeErrorResponseType::AuthorizationPending => {
            assert(DeviceCodeErrorResponseType::spec_from_wire(e.spec_wire()) == Some(e));
        },
        DeviceCodeErrorResponseType::SlowDown => {
            assert(DeviceCodeErrorResponseType::spec_from_wire(e.spec_wire()) == Some(e));
        },
        DeviceCodeErrorResponseType::AccessDenied => {
            assert(DeviceCodeErrorResponseType::spec_from_wire(e.spec_wire()) == Some(e));
        },
        DeviceCodeErrorResponseType::ExpiredToken => {
            assert(DeviceCodeErrorResponseType::spec_from_wire(e.spec_wire()) == Some(e));
        },
        DeviceCodeErrorResponseType::Basic(b) => {
            crate::basic::lemma_basic_error_code_round_trip(b);
            assert(DeviceCodeErrorResponseType::spec_from_wire(e.spec_wire()) == Some(e));
        },
    }
}

/// The error response of a device-token poll.
pub type DeviceCodeErrorResponse = StandardErrorResponse<DeviceCodeErrorResponseType>;

/// Extra top-level members a provider adds to the device authorization
/// response.
pub trait ExtraDeviceAuthorizationFields: Sized {
    /// Whether the members decode to a value of this type.
    spec fn fields_decode(ms: Seq<(String, JsonScalar)>) -> bool;

    /// Whether `v` is the decoding of the members.
    spec fn fields_decode_to(ms: Seq<(String, JsonScalar)>, v: Self) -> bool;

    /// Decodes the extra fields from the object's members.
    fn from_fields(ms: &Vec<(String, JsonScalar)>) -> (r: Result<Self, String>)
        ensures
            match r {
                Ok(v) => Self::fields_decode(ms@) && Self::fields_decode_to(ms@, v),
                Err(_) => !Self::fields_decode(ms@),
            },
    ;
}

/// Empty (default) extra device authorization fields.
#[derive(Clone, Debug, PartialEq, Eq, Structural)]
pub struct EmptyExtraDeviceAuthorizationFields {}

impl ExtraDeviceAuthorizationFields for EmptyExtraDeviceAuthorizationFields {
    open spec fn fields_decode(ms: Seq<(String, JsonScalar)>) -> bool {
        true
    }

    open spec fn fields_decode_to(ms: Seq<(String, JsonScalar)>, v: Self) -> bool {
        true
    }

    fn from_fields(ms: &Vec<(String, JsonScalar)>) -> (r: Result<Self, String>) {
        Ok(EmptyExtraDeviceAuthorizationFields {})
    }
}

/// The device authorization response of RFC 8628 section 3.2: the codes and
/// verification URL one polling session runs on. Created once and then only
/// read.
#[derive(Clone, PartialEq, Eq)]
pub struct DeviceAuthorizationResponse<EF: ExtraDeviceAuthorizationFields> {
    device_code: DeviceCode,
    user_code: UserCode,
    verification_uri: EndUserVerificationUrl,
    verification_uri_complete: Option<EndUserVerificationUrl>,
    expires_in: u64,
    interval: Option<u64>,
    extra_fields: EF,
}

/// The standard device authorization response with no extra fields.
pub type StandardDeviceAuthorizationResponse = DeviceAuthorizationResponse<
    EmptyExtraDeviceAuthorizationFields,
>;

/// Whether the members of a parsed body form a device authorization
/// response: string `device_code` and `user_code`, a `verification_uri`
/// that parses as a URL (so has `verification_uri_complete`, when present),
/// an integer `expires_in`, and an optional integer `interval`.
pub open spec fn device_auth_members_decode<EF: ExtraDeviceAuthorizationFields>(
    ms: Seq<(String, JsonScalar)>,
) -> bool {
    &&& req_str_field(ms, "device_code"@) is Some
    &&& req_str_field(ms, "user_code"@) is Some
    &&& match req_str_field(ms, "verification_uri"@) {
        Some(u) => is_valid_url(u@),
        None => false,
    }
    &&& match opt_str_field(ms, "verification_uri_complete"@) {
        Some(None) => true,
        Some(Some(u)) => is_valid_url(u@),
        None => false,
    }
    &&& req_u64_field(ms, "expires_in"@) is Some
    &&& opt_u64_field(ms, "interval"@) is Some
    &&& EF::fields_decode(ms)
}

impl<EF: ExtraDeviceAuthorizationFields> DeviceAuthorizationResponse<EF> {
    /// The device code's characters.
    pub closed spec fn spec_device_code(&self) -> Seq<char> {
        self.device_code@
    }

    /// The user code's characters.
    pub closed spec fn spec_user_code(&self) -> Seq<char> {
        self.user_code@
    }

    /// The verification URL's characters.
    pub closed spec fn spec_verification_uri(&self) -> Seq<char> {
        self.verification_uri@
    }

    /// The complete verification URL's characters, when given.
    pub closed spec fn spec_verification_uri_complete(&self) -> Option<Seq<char>> {
        match self.verification_uri_complete {
            Some(u) => Some(u@),
            None => None,
        }
    }

    /// The lifetime of the codes, in seconds.
    pub closed spec fn spec_expires_in(&self) -> u64 {
        self.expires_in
    }

    /// The advertised poll interval member, when given.
    pub closed spec fn spec_interval(&self) -> Option<u64> {
        self.interval
    }

    /// The extra fields' value.
    pub closed spec fn spec_extra_fields(&self) -> EF {
        self.extra_fields
    }

    /// Whether `self` carries exactly what the members prescribe.
    pub closed spec fn matches_members(&self, ms: Seq<(String, JsonScalar)>) -> bool {
        &&& match req_str_field(ms, "device_code"@) {
            Some(s) => self.device_code@ == s@,
            None => false,
        }
        &&& match req_str_field(ms, "user_code"@) {
            Some(s) => self.user_code@ == s@,
            None => false,
        }
        &&& match req_str_field(ms, "verification_uri"@) {
            Some(s) => self.verification_uri@ == s@,
            None => false,
        }
        &&& match opt_str_field(ms, "verification_uri_complete"@) {
            Some(None) => self.verification_uri_complete is None,
            Some(Some(s)) => match self.verification_uri_complete {
                Some(u) => u@ == s@,
                None => false,
            },
            None => false,
        }
        &&& req_u64_field(ms, "expires_in"@) == Some(self.expires_in)
        &&& opt_u64_field(ms, "interval"@) == Some(self.interval)
        &&& EF::fields_decode_to(ms, self.extra_fields)
    }

    /// The device verification code.
    pub fn device_code(&self) -> (r: &DeviceCode)
        ensures
            r@ == self.spec_device_code(),
    {
        &self.device_code
    }

    /// The code the end user enters on the verification page.
    pub fn user_code(&self) -> (r: &UserCode)
        ensures
            r@ == self.spec_user_code(),
    {
        &self.user_code
    }

    /// The URL the end user visits to authorize the device.
    pub fn verification_uri(&self) -> (r: &EndUserVerificationUrl)
        ensures
            r@ == self.spec_verification_uri(),
    {
        &self.verification_uri
    }

    /// The verification URL with the user code embedded, when the server
    /// gave one.
    pub fn verification_uri_complete(&self) -> (r: Option<&EndUserVerificationUrl>)
        ensures
            match r {
                Some(u) => self.spec_verification_uri_complete() == Some(u@),
                None => self.spec_verification_uri_complete() is None,
            },
    {
        self.verification_uri_complete.as_ref()
    }

    /// The lifetime of the codes, in seconds.
    pub fn expires_in(&self) -> (r: u64)
        ensures
            r == self.spec_expires_in(),
    {
        self.expires_in
    }

    /// The poll interval in seconds: the advertised value, or five seconds
    /// when the server gave none, as RFC 8628 section 3.2 prescribes.
    pub fn interval(&self) -> (r: u64)
        ensures
            r == match self.spec_interval() {
                Some(i) => i,
                None => 5u64,
            },
    {
        match self.interval {
            Some(i) => i,
            None => 5,
        }
    }

    /// The extra fields defined by the client application.
    pub fn extra_fields(&self) -> (r: &EF)
        ensures
            *r == self.spec_extra_fields(),
    {
        &self.extra_fields
    }
}

impl<EF: ExtraDeviceAuthorizationFields> FromJsonBody for DeviceAuthorizationResponse<EF> {
    open spec fn json_decodes(body: Seq<u8>) -> bool {
        match json_top_of(body) {
            Some(ms) => device_auth_members_decode::<EF>(ms),
            None => false,
        }
    }

    open spec fn decodes_to(body: Seq<u8>, v: Self) -> bool {
        match json_top_of(body) {
            Some(ms) => device_auth_members_decode::<EF>(ms) && v.matches_members(ms),
            None => false,
        }
    }

    fn from_json_body(body: &[u8]) -> (r: Result<Self, String>) {
        let ms = match crate::ext::parse_json_top(body) {
            Ok(ms) => ms,
            Err(e) => return Err(e),
        };
        let device_code = match crate::decode::get_req_str(&ms, "device_code") {
            Some(s) => DeviceCode::new(s),
            None => return Err(String::from_str("missing or malformed device_code field")),
        };
        let user_code = match crate::decode::get_req_str(&ms, "user_code") {
            Some(s) => UserCode::new(s),
            None => return Err(String::from_str("missing or malformed user_code field")),
        };
        let verification_uri = match crate::decode::get_req_str(&ms, "verification_uri") {
            Some(s) => match EndUserVerificationUrl::new(s) {
                Ok(u) => u,
                Err(_) => return Err(String::from_str("invalid verification_uri field")),
            },
            None => return Err(String::from_str("missing or malformed verification_uri field")),
        };
        let verification_uri_complete = match crate::decode::get_opt_str(
            &ms,
            "verification_uri_complete",
        ) {
            Ok(Some(s)) => match EndUserVerificationUrl::new(s) {
                Ok(u) => Some(u),
                Err(_) => return Err(
                    String::from_str("invalid verification_uri_complete field"),
                ),
            },
            Ok(None) => None,
            Err(_) => return Err(
                String::from_str("malformed verification_uri_complete field"),
            ),
        };
        let expires_in = match crate::decode::get_req_u64(&ms, "expires_in") {
            Some(e) => e,
            None => return Err(String::from_str("missing or malformed expires_in field")),
        };
        let interval = match crate::decode::get_opt_u64(&ms, "interval") {
            Ok(i) => i,
            Err(_) => return Err(String::from_str("malformed interval field")),
        };
        let extra_fields = match EF::from_fields(&ms) {
            Ok(ef) => ef,
            Err(e) => return Err(e),
        };
        Ok(
            DeviceAuthorizationResponse {
                device_code,
                user_code,
                verification_uri,
                verification_uri_complete,
                expires_in,
                interval,
                extra_fields,
            },
        )
    }
}

/// What one poll iteration decides: keep polling with a (possibly changed)
/// interval, or stop with the final outcome.
pub enum DeviceAccessTokenPollResult<TR, RE> {
    /// Poll again after sleeping for the given interval, in seconds.
    ContinueWithNewPollInterval(u64),
    /// The poll is over, successfully or not.
    Done(Result<TR, RequestTokenError<RE, DeviceCodeErrorResponse>>),
}

/// The interval after a transport failure: doubled, or kept when doubling
/// would overflow.
pub open spec fn doubled_interval(interval: u64) -> u64 {
    if interval <= u64::MAX / 2 {
        (2 * interval) as u64
    } else {
        interval
    }
}

/// The interval after a `slow_down` response: five seconds more, saturating.
pub open spec fn slowed_interval(interval: u64) -> u64 {
    if interval <= u64::MAX - 5 {
        (interval + 5) as u64
    } else {
        u64::MAX
    }
}

/// How the classified outcome of one poll drives the state machine:
/// `authorization_pending` keeps the interval, `slow_down` adds five
/// seconds, any other server error and every success, parse failure, or
/// local failure ends the poll with that outcome.
pub open spec fn poll_transition<TR, RE>(
    r0: Result<TR, RequestTokenError<RE, DeviceCodeErrorResponse>>,
    interval: u64,
    result: DeviceAccessTokenPollResult<TR, RE>,
) -> bool {
    match r0 {
        Err(RequestTokenError::ServerResponse(e)) => {
            if e.spec_error() == DeviceCodeErrorResponseType::AuthorizationPending {
                result == DeviceAccessTokenPollResult::<TR, RE>::ContinueWithNewPollInterval(
                    interval,
                )
            } else if e.spec_error() == DeviceCodeErrorResponseType::SlowDown {
                result == DeviceAccessTokenPollResult::<TR, RE>::ContinueWithNewPollInterval(
                    slowed_interval(interval),
                )
            } else {
                result == DeviceAccessTokenPollResult::<TR, RE>::Done(
                    Err(RequestTokenError::ServerResponse(e)),
                )
            }
        },
        _ => result == DeviceAccessTokenPollResult::<TR, RE>::Done(r0),
    }
}

/// Interprets the outcome of one poll of the token endpoint. A transport
/// failure is transient: the interval is doubled (kept, if doubling would
/// overflow) and polling continues. A decoded response is classified, and
/// the continuation codes of RFC 8628 drive the interval as
/// `poll_transition` states.
pub fn process_device_response<TR: FromJsonBody, RE>(
    res: Result<HttpResponse, RE>,
    current_interval: u64,
) -> (result: DeviceAccessTokenPollResult<TR, RE>)
    ensures
        res is Err ==> result == DeviceAccessTokenPollResult::<
            TR,
            RE,
        >::ContinueWithNewPollInterval(doubled_interval(current_interval)),
        res matches Ok(resp) ==> exists|r0: Result<
            TR,
            RequestTokenError<RE, DeviceCodeErrorResponse>,
        >|
            {
                &&& #[trigger] poll_transition(r0, current_interval, result)
                &&& endpoint_outcome::<RE, DeviceCodeErrorResponse, TR>(resp, r0)
            },
{
    let http_response = match res {
        Ok(inner) => inner,
        Err(_) => {
            // Try to double the current interval; on overflow just keep it.
            let new_interval: u64 = if current_interval <= u64::MAX / 2 {
                2 * current_interval
            } else {
                current_interval
            };
            return DeviceAccessTokenPollResult::ContinueWithNewPollInterval(new_interval);
        },
    };
    let r0: Result<TR, RequestTokenError<RE, DeviceCodeErrorResponse>> = endpoint_response::<
        RE,
        DeviceCodeErrorResponse,
        TR,
    >(&http_response);
    let ghost gr0 = r0;
    let result = match r0 {
        Err(RequestTokenError::ServerResponse(dcer)) => {
            match dcer.error() {
                DeviceCodeErrorResponseType::AuthorizationPending => {
                    DeviceAccessTokenPollResult::ContinueWithNewPollInterval(current_interval)
                },
                DeviceCodeErrorResponseType::SlowDown => {
                    let slowed: u64 = if current_interval <= u64::MAX - 5 {
                        current_interval + 5
                    } else {
                        u64::MAX
                    };
                    DeviceAccessTokenPollResult::ContinueWithNewPollInterval(slowed)
                },
                _ => DeviceAccessTokenPollResult::Done(
                    Err(RequestTokenError::ServerResponse(dcer)),
                ),
            }
        },
        other => DeviceAccessTokenPollResult::Done(other),
    };
    proof {
        assert(poll_transition(gr0, current_interval, result));
    }
    result
}

/// The absolute deadline of a polling session: the start time plus the
/// caller's timeout capped by the response's lifetime (or that lifetime
/// alone), failing only when the sum does not fit.
pub fn compute_device_timeout<RE>(now: u64, timeout: Option<u64>, expires_in: u64) -> (r: Result<
    u64,
    RequestTokenError<RE, DeviceCodeErrorResponse>,
>)
    ensures
        ({
            let effective = match timeout {
                Some(t) => if t < expires_in {
                    t
                } else {
                    expires_in
                },
                None => expires_in,
            };
            if now + effective <= u64::MAX {
                r matches Ok(d) && d == now + effective
            } else {
                r matches Err(RequestTokenError::Other(m)) && m@
                    == "Failed to calculate timeout"@
            }
        }),
{
    let effective: u64 = match timeout {
        Some(t) => if t < expires_in {
            t
        } else {
            expires_in
        },
        None => expires_in,
    };
    if now <= u64::MAX - effective {
        Ok(now + effective)
    } else {
        Err(RequestTokenError::Other(String::from_str("Failed to calculate timeout")))
    }
}

/// The expiration decision of one poll iteration: past the deadline the
/// session stops with the device-code-expired failure and no further
/// request is made.
pub fn check_device_deadline<RE>(now: u64, deadline: u64) -> (r: Option<
    RequestTokenError<RE, DeviceCodeErrorResponse>,
>)
    ensures
        now > deadline ==> (r matches Some(RequestTokenError::Other(m)) && m@
            == "Device code expired"@),
        now <= deadline ==> r is None,
{
    if now > deadline {
        Some(RequestTokenError::Other(String::from_str("Device code expired")))
    } else {
        None
    }
}


/// The request that one device-token poll sends (RFC 8628 section 3.4).
/// Unlike the other builders it is not consumed by use: the polling loop
/// assembles and sends it once per iteration, with `process_device_response`
/// interpreting each outcome and `check_device_deadline` stopping the
/// session at its deadline.
pub struct DeviceAccessTokenRequest<'a, TR: TokenResponse<TT>, TT: TokenType, EF: ExtraDeviceAuthorizationFields> {
    auth_type: &'a AuthType,
    client_id: &'a ClientId,
    client_secret: Option<&'a ClientSecret>,
    extra_params: Vec<(String, String)>,
    token_url: Option<&'a TokenUrl>,
    dev_auth_resp: &'a DeviceAuthorizationResponse<EF>,
    _marker: PhantomData<(TR, TT)>,
}

impl<'a, TR: TokenResponse<TT>, TT: TokenType, EF: ExtraDeviceAuthorizationFields> DeviceAccessTokenRequest<'a, TR, TT, EF> {
    /// What this builder assembles to: the device-code grant of RFC 8628
    /// with the session's device code.
    pub closed spec fn spec_parts(&self) -> RequestParts {
        RequestParts {
            auth_type: *self.auth_type,
            client_id: self.client_id@,
            client_secret: match self.client_secret {
                Some(cs) => Some(cs@),
                None => None,
            },
            extra_params: pairs_view(self.extra_params@),
            redirect_url: None,
            scopes: None,
            endpoint_url: match self.token_url {
                Some(u) => Some(u@),
                None => None,
            },
            grant_params: seq![
                ("grant_type"@, "urn:ietf:params:oauth:grant-type:device_code"@),
                ("device_code"@, self.dev_auth_resp.spec_device_code()),
            ],
        }
    }

    /// The device authorization response this session polls for.
    pub fn dev_auth_resp(&self) -> (r: &'a DeviceAuthorizationResponse<EF>)
        ensures
            r.spec_device_code() == self.spec_parts().grant_params[1].1,
    {
        self.dev_auth_resp
    }

    /// Assembles a device token request from the client's configuration and
    /// one device authorization response.
    pub fn new(
        auth_type: &'a AuthType,
        client_id: &'a ClientId,
        client_secret: Option<&'a ClientSecret>,
        token_url: Option<&'a TokenUrl>,
        dev_auth_resp: &'a DeviceAuthorizationResponse<EF>,
    ) -> (r: Self)
        ensures
            r.spec_parts() == (RequestParts {
                auth_type: *auth_type,
                client_id: client_id@,
                client_secret: match client_secret {
                    Some(cs) => Some(cs@),
                    None => None,
                },
                extra_params: Seq::<(Seq<char>, Seq<char>)>::empty(),
                redirect_url: None::<Seq<char>>,
                scopes: None::<Seq<Seq<char>>>,
                endpoint_url: match token_url {
                    Some(u) => Some(u@),
                    None => None,
                },
                grant_params: seq![
                    ("grant_type"@, "urn:ietf:params:oauth:grant-type:device_code"@),
                    ("device_code"@, dev_auth_resp.spec_device_code()),
                ],
            }),
    {
        let r = DeviceAccessTokenRequest {
            auth_type,
            client_id,
            client_secret,
            extra_params: Vec::new(),
            token_url,
            dev_auth_resp,
            _marker: PhantomData,
        };
        proof {
            assert(pairs_view(r.extra_params@) =~= Seq::<(Seq<char>, Seq<char>)>::empty());
        }
        r
    }

    /// Appends an extra parameter, serialized verbatim and unvalidated:
    /// a name that collides with a protocol parameter is the caller's
    /// responsibility.
    pub fn add_extra_param(self, name: String, value: String) -> (r: Self)
        ensures
            r.spec_parts() == (RequestParts {
                extra_params: self.spec_parts().extra_params.push((name@, value@)),
                ..self.spec_parts()
            }),
    {
        let ghost old_parts = self.spec_parts();
        let mut r = self;
        r.extra_params.push((name, value));
        proof {
            assert(pairs_view(r.extra_params@) =~~= old_parts.extra_params.push(
                (name@, value@),
            ));
        }
        r
    }

    /// Assembles the wire request for one poll, failing when no token
    /// endpoint is configured.
    pub fn prepare_request(&self) -> (r: Result<HttpRequest, String>)
        ensures
            self.spec_parts().endpoint_url is None ==> (r matches Err(m) && m@
                == "no token_url provided"@),
            self.spec_parts().endpoint_url is Some ==> (r matches Ok(req)
                && wire_matches_parts(req, self.spec_parts())),
    {
        let url = match self.token_url {
            Some(u) => u,
            None => return Err(String::from_str("no token_url provided")),
        };
        let mut params: Vec<(String, String)> = Vec::new();
        params.push(
            (
                String::from_str("grant_type"),
                String::from_str("urn:ietf:params:oauth:grant-type:device_code"),
            ),
        );
        params.push(
            (String::from_str("device_code"), self.dev_auth_resp.device_code().secret().clone()),
        );
        proof {
            assert(pairs_view(params@) =~~= self.spec_parts().grant_params);
        }
        let req = endpoint_request(
            self.auth_type,
            self.client_id,
            self.client_secret,
            &self.extra_params,
            None,
            None,
            url.as_str(),
            params,
        );
        Ok(req)
    }
}

} // verus!
