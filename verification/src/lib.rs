//! An OAuth2 client engine ([RFC 6749](https://tools.ietf.org/html/rfc6749)):
//! request construction, client authentication, response classification, and
//! the Device Authorization Grant polling state machine (RFC 8628), with
//! machine-checked contracts on the wire-level encoding and decoding logic.

use vstd::prelude::*;

pub mod basic;
pub mod client;
pub mod decode;
pub mod devicecode;
pub mod emit;
pub mod endpoint;
pub mod encoding;
pub mod errors;
pub mod ext;
pub mod helpers;
pub mod introspection;
pub mod requests;
pub mod token;
pub mod types;
pub mod wire;

pub use client::Client;
pub use devicecode::{
    DeviceAccessTokenPollResult, DeviceAccessTokenRequest, DeviceAuthorizationResponse,
    DeviceCodeErrorResponse, DeviceCodeErrorResponseType, EmptyExtraDeviceAuthorizationFields,
    ExtraDeviceAuthorizationFields, StandardDeviceAuthorizationResponse,
};
pub use errors::{ErrorResponse, ErrorResponseType, RequestTokenError, StandardErrorResponse};
pub use introspection::{StandardTokenInspectionResponse, TokenInspectionResponse};
pub use requests::{
    AuthorizationRequest, ClientCredentialsTokenRequest, CodeTokenRequest,
    DeviceAuthorizationRequest, IntrospectRequest, PasswordTokenRequest, RefreshTokenRequest,
};
pub use token::{
    EmptyExtraTokenFields, ExtraTokenFields, StandardTokenResponse, TokenResponse, TokenType,
};
pub use types::{
    AccessToken, AuthUrl, AuthorizationCode, ClientId, ClientSecret, CsrfToken,
    DeviceAuthorizationUrl, DeviceCode, EndUserVerificationUrl, IntrospectUrl, PkceCodeChallenge,
    PkceCodeChallengeMethod, PkceCodeVerifier, RedirectUrl, RefreshToken, ResourceOwnerPassword,
    ResourceOwnerUsername, ResponseType, Scope, TokenUrl, UrlParseError, UserCode,
};
pub use wire::{HttpMethod, HttpRequest, HttpResponse};

verus! {

/// Indicates whether requests to the authorization server should use basic
/// authentication or include the parameters in the request body for requests
/// in which either is valid.
///
/// The default auth type is `BasicAuth`, following the recommendation of
/// section 2.3.1 of RFC 6749.
#[derive(Clone, Debug)]
pub enum AuthType {
    /// The client_id and client_secret are included as part of the request body.
    RequestBody,
    /// The client_id and client_secret are sent using the basic auth scheme.
    BasicAuth,
}

} // verus!
