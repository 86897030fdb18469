//! The long-lived client configuration: endpoint URLs, the client's
//! identity, and its authentication policy. Every request builder borrows
//! from it.

use core::marker::PhantomData;

use vstd::prelude::*;

use crate::devicecode::{
    DeviceAccessTokenRequest, DeviceAuthorizationResponse, ExtraDeviceAuthorizationFields,
};
use crate::errors::ErrorResponse;
use crate::introspection::TokenInspectionResponse;
use crate::requests::{
    AuthorizationRequest, ClientCredentialsTokenRequest, CodeTokenRequest,
    DeviceAuthorizationRequest, IntrospectRequest, PasswordTokenRequest, RefreshTokenRequest,
    RequestParts,
};
use crate::token::{TokenResponse, TokenType};
use crate::types::{
    AccessToken, AuthUrl, AuthorizationCode, ClientId, ClientSecret, CsrfToken,
    DeviceAuthorizationUrl, IntrospectUrl, RedirectUrl, RefreshToken, ResourceOwnerPassword,
    ResourceOwnerUsername, TokenUrl,
};
use crate::AuthType;

verus! {

/// An OAuth2 client configuration, generic over the error shape `TE`, the
/// token response shape `TR`, the token type enumeration `TT`, and the
/// introspection response shape `TIR`, so that applications can substitute
/// their own shapes for non-conformant providers.
pub struct Client<
    TE: ErrorResponse,
    TR: TokenResponse<TT>,
    TT: TokenType,
    TIR: TokenInspectionResponse<TT>,
> {
    client_id: ClientId,
    client_secret: Option<ClientSecret>,
    auth_url: AuthUrl,
    auth_type: AuthType,
    token_url: Option<TokenUrl>,
    redirect_url: Option<RedirectUrl>,
    introspect_url: Option<IntrospectUrl>,
    device_authorization_url: Option<DeviceAuthorizationUrl>,
    _marker: PhantomData<(TE, TR, TT, TIR)>,
}

impl<
    TE: ErrorResponse,
    TR: TokenResponse<TT>,
    TT: TokenType,
    TIR: TokenInspectionResponse<TT>,
> Client<TE, TR, TT, TIR> {
    /// The client identifier.
    pub closed spec fn spec_client_id(&self) -> Seq<char> {
        self.client_id@
    }

    /// The client secret, for confidential clients.
    pub closed spec fn spec_client_secret(&self) -> Option<Seq<char>> {
        match self.client_secret {
            Some(cs) => Some(cs@),
            None => None,
        }
    }

    /// The authorization endpoint.
    pub closed spec fn spec_auth_url(&self) -> Seq<char> {
        self.auth_url@
    }

    /// How the client authenticates on token-style endpoints.
    pub closed spec fn spec_auth_type(&self) -> AuthType {
        self.auth_type
    }

    /// The token endpoint, when configured.
    pub closed spec fn spec_token_url(&self) -> Option<Seq<char>> {
        match self.token_url {
            Some(u) => Some(u@),
            None => None,
        }
    }

    /// The redirect URL, when configured.
    pub closed spec fn spec_redirect_url(&self) -> Option<Seq<char>> {
        match self.redirect_url {
            Some(u) => Some(u@),
            None => None,
        }
    }

    /// The introspection endpoint, when configured.
    pub closed spec fn spec_introspect_url(&self) -> Option<Seq<char>> {
        match self.introspect_url {
            Some(u) => Some(u@),
            None => None,
        }
    }

    /// The device authorization endpoint, when configured.
    pub closed spec fn spec_device_authorization_url(&self) -> Option<Seq<char>> {
        match self.device_authorization_url {
            Some(u) => Some(u@),
            None => None,
        }
    }

    /// Initializes a client. The authentication policy defaults to
    /// `BasicAuth`, as RFC 6749 section 2.3.1 recommends; with no token
    /// endpoint, every exchange fails locally.
    pub fn new(
        client_id: ClientId,
        client_secret: Option<ClientSecret>,
        auth_url: AuthUrl,
        token_url: Option<TokenUrl>,
    ) -> (r: Self)
        ensures
            r.spec_client_id() == client_id@,
            r.spec_client_secret() == match client_secret {
                Some(cs) => Some(cs@),
                None => None::<Seq<char>>,
            },
            r.spec_auth_url() == auth_url@,
            r.spec_auth_type() == AuthType::BasicAuth,
            r.spec_token_url() == match token_url {
                Some(u) => Some(u@),
                None => None::<Seq<char>>,
            },
            r.spec_redirect_url() is None,
            r.spec_introspect_url() is None,
            r.spec_device_authorization_url() is None,
    {
        Client {
            client_id,
            client_secret,
            auth_url,
            auth_type: AuthType::BasicAuth,
            token_url,
            redirect_url: None,
            introspect_url: None,
            device_authorization_url: None,
            _marker: PhantomData,
        }
    }

    /// Configures the client authentication policy for the token-style
    /// endpoints.
    pub fn set_auth_type(self, auth_type: AuthType) -> (r: Self)
        ensures
            r.spec_auth_type() == auth_type,
            r.spec_client_id() == self.spec_client_id(),
            r.spec_client_secret() == self.spec_client_secret(),
            r.spec_auth_url() == self.spec_auth_url(),
            r.spec_token_url() == self.spec_token_url(),
            r.spec_redirect_url() == self.spec_redirect_url(),
            r.spec_introspect_url() == self.spec_introspect_url(),
            r.spec_device_authorization_url() == self.spec_device_authorization_url(),
    {
        let mut r = self;
        r.auth_type = auth_type;
        r
    }

    /// Sets the redirect URL used by the authorization endpoint.
    pub fn set_redirect_url(self, redirect_url: RedirectUrl) -> (r: Self)
        ensures
            r.spec_redirect_url() == Some(redirect_url@),
            r.spec_client_id() == self.spec_client_id(),
            r.spec_client_secret() == self.spec_client_secret(),
            r.spec_auth_url() == self.spec_auth_url(),
            r.spec_auth_type() == self.spec_auth_type(),
            r.spec_token_url() == self.spec_token_url(),
            r.spec_introspect_url() == self.spec_introspect_url(),
            r.spec_device_authorization_url() == self.spec_device_authorization_url(),
    {
        let mut r = self;
        r.redirect_url = Some(redirect_url);
        r
    }

    /// Sets the introspection endpoint (RFC 7662).
    pub fn set_introspection_url(self, introspect_url: IntrospectUrl) -> (r: Self)
        ensures
            r.spec_introspect_url() == Some(introspect_url@),
            r.spec_client_id() == self.spec_client_id(),
            r.spec_client_secret() == self.spec_client_secret(),
            r.spec_auth_url() == self.spec_auth_url(),
            r.spec_auth_type() == self.spec_auth_type(),
            r.spec_token_url() == self.spec_token_url(),
            r.spec_redirect_url() == self.spec_redirect_url(),
            r.spec_device_authorization_url() == self.spec_device_authorization_url(),
    {
        let mut r = self;
        r.introspect_url = Some(introspect_url);
        r
    }

    /// Sets the device authorization endpoint (RFC 8628).
    pub fn set_device_authorization_url(
        self,
        device_authorization_url: DeviceAuthorizationUrl,
    ) -> (r: Self)
        ensures
            r.spec_device_authorization_url() == Some(device_authorization_url@),
            r.spec_client_id() == self.spec_client_id(),
            r.spec_client_secret() == self.spec_client_secret(),
            r.spec_auth_url() == self.spec_auth_url(),
            r.spec_auth_type() == self.spec_auth_type(),
            r.spec_token_url() == self.spec_token_url(),
            r.spec_redirect_url() == self.spec_redirect_url(),
            r.spec_introspect_url() == self.spec_introspect_url(),
    {
        let mut r = self;
        r.device_authorization_url = Some(device_authorization_url);
        r
    }

    /// Starts an authorization request, obtaining the anti-forgery state
    /// from the given function. Callers should use a fresh, unpredictable
    /// state for each request and verify the server echoes it back.
    pub fn authorize_url<S: FnOnce() -> CsrfToken>(&self, state_fn: S) -> (r: AuthorizationRequest)
        requires
            call_requires(state_fn, ()),
        ensures
            r.spec_auth_url() == self.spec_auth_url(),
            r.spec_response_type() == "code"@,
            r.spec_client_id() == self.spec_client_id(),
            call_ensures(state_fn, (), r.spec_state()),
            r.spec_pkce() is None,
            r.spec_redirect() == self.spec_redirect_url(),
            r.spec_scopes() == Seq::<Seq<char>>::empty(),
            r.spec_extra() == Seq::<(Seq<char>, Seq<char>)>::empty(),
    {
        let state = state_fn();
        AuthorizationRequest::new(
            &self.auth_url,
            &self.client_id,
            self.redirect_url.as_ref(),
            state,
        )
    }

    /// Exchanges an authorization code for an access token (RFC 6749
    /// section 4.1.3). Takes the code by value: a code may be used at most
    /// once.
    pub fn exchange_code(&self, code: AuthorizationCode) -> (r: CodeTokenRequest<TE, TR, TT>)
        ensures
            r.spec_parts() == (RequestParts {
                auth_type: self.spec_auth_type(),
                client_id: self.spec_client_id(),
                client_secret: self.spec_client_secret(),
                extra_params: Seq::<(Seq<char>, Seq<char>)>::empty(),
                redirect_url: self.spec_redirect_url(),
                scopes: None::<Seq<Seq<char>>>,
                endpoint_url: self.spec_token_url(),
                grant_params: seq![("grant_type"@, "authorization_code"@), ("code"@, code@)],
            }),
    {
        CodeTokenRequest::new(
            &self.auth_type,
            &self.client_id,
            self.client_secret.as_ref(),
            code,
            self.token_url.as_ref(),
            self.redirect_url.as_ref(),
        )
    }

    /// Requests an access token for the password grant (RFC 6749 section
    /// 4.3.2).
    pub fn exchange_password<'b>(
        &'b self,
        username: &'b ResourceOwnerUsername,
        password: &'b ResourceOwnerPassword,
    ) -> (r: PasswordTokenRequest<'b, TE, TR, TT>)
        ensures
            r.spec_parts() == (RequestParts {
                auth_type: self.spec_auth_type(),
                client_id: self.spec_client_id(),
                client_secret: self.spec_client_secret(),
                extra_params: Seq::<(Seq<char>, Seq<char>)>::empty(),
                redirect_url: None::<Seq<char>>,
                scopes: Some(Seq::<Seq<char>>::empty()),
                endpoint_url: self.spec_token_url(),
                grant_params: seq![
                    ("grant_type"@, "password"@),
                    ("username"@, username@),
                    ("password"@, password@),
                ],
            }),
    {
        PasswordTokenRequest::new(
            &self.auth_type,
            &self.client_id,
            self.client_secret.as_ref(),
            username,
            password,
            self.token_url.as_ref(),
        )
    }

    /// Requests an access token for the client credentials grant (RFC 6749
    /// section 4.4.2).
    pub fn exchange_client_credentials(&self) -> (r: ClientCredentialsTokenRequest<TE, TR, TT>)
        ensures
            r.spec_parts() == (RequestParts {
                auth_type: self.spec_auth_type(),
                client_id: self.spec_client_id(),
                client_secret: self.spec_client_secret(),
                extra_params: Seq::<(Seq<char>, Seq<char>)>::empty(),
                redirect_url: None::<Seq<char>>,
                scopes: Some(Seq::<Seq<char>>::empty()),
                endpoint_url: self.spec_token_url(),
                grant_params: seq![("grant_type"@, "client_credentials"@)],
            }),
    {
        ClientCredentialsTokenRequest::new(
            &self.auth_type,
            &self.client_id,
            self.client_secret.as_ref(),
            self.token_url.as_ref(),
        )
    }

    /// Exchanges a refresh token for an access token (RFC 6749 section 6).
    pub fn exchange_refresh_token<'b>(&'b self, refresh_token: &'b RefreshToken) -> (r:
        RefreshTokenRequest<'b, TE, TR, TT>)
        ensures
            r.spec_parts() == (RequestParts {
                auth_type: self.spec_auth_type(),
                client_id: self.spec_client_id(),
                client_secret: self.spec_client_secret(),
                extra_params: Seq::<(Seq<char>, Seq<char>)>::empty(),
                redirect_url: None::<Seq<char>>,
                scopes: Some(Seq::<Seq<char>>::empty()),
                endpoint_url: self.spec_token_url(),
                grant_params: seq![
                    ("grant_type"@, "refresh_token"@),
                    ("refresh_token"@, refresh_token@),
                ],
            }),
    {
        RefreshTokenRequest::new(
            &self.auth_type,
            &self.client_id,
            self.client_secret.as_ref(),
            refresh_token,
            self.token_url.as_ref(),
        )
    }

    /// Starts a device authorization request (RFC 8628 section 3.1).
    pub fn exchange_device_code(&self) -> (r: DeviceAuthorizationRequest<TE>)
        ensures
            r.spec_parts() == (RequestParts {
                auth_type: self.spec_auth_type(),
                client_id: self.spec_client_id(),
                client_secret: self.spec_client_secret(),
                extra_params: Seq::<(Seq<char>, Seq<char>)>::empty(),
                redirect_url: None::<Seq<char>>,
                scopes: Some(Seq::<Seq<char>>::empty()),
                endpoint_url: self.spec_device_authorization_url(),
                grant_params: Seq::<(Seq<char>, Seq<char>)>::empty(),
            }),
    {
        DeviceAuthorizationRequest::new(
            &self.auth_type,
            &self.client_id,
            self.client_secret.as_ref(),
            self.device_authorization_url.as_ref(),
        )
    }

    /// Starts a device access token request for one polling session
    /// (RFC 8628 section 3.4).
    pub fn exchange_device_access_token<'b, EF: ExtraDeviceAuthorizationFields>(
        &'b self,
        auth_response: &'b DeviceAuthorizationResponse<EF>,
    ) -> (r: DeviceAccessTokenRequest<'b, TR, TT, EF>)
        ensures
            r.spec_parts() == (RequestParts {
                auth_type: self.spec_auth_type(),
                client_id: self.spec_client_id(),
                client_secret: self.spec_client_secret(),
                extra_params: Seq::<(Seq<char>, Seq<char>)>::empty(),
                redirect_url: None::<Seq<char>>,
                scopes: None::<Seq<Seq<char>>>,
                endpoint_url: self.spec_token_url(),
                grant_params: seq![
                    ("grant_type"@, "urn:ietf:params:oauth:grant-type:device_code"@),
                    ("device_code"@, auth_response.spec_device_code()),
                ],
            }),
    {
        DeviceAccessTokenRequest::new(
            &self.auth_type,
            &self.client_id,
            self.client_secret.as_ref(),
            self.token_url.as_ref(),
            auth_response,
        )
    }

    /// Starts an introspection request for an access token (RFC 7662).
    pub fn introspect<'b>(&'b self, token: &'b AccessToken) -> (r: IntrospectRequest<
        'b,
        TE,
        TIR,
        TT,
    >)
        ensures
            r.spec_parts() == (RequestParts {
                auth_type: self.spec_auth_type(),
                client_id: self.spec_client_id(),
                client_secret: self.spec_client_secret(),
                extra_params: Seq::<(Seq<char>, Seq<char>)>::empty(),
                redirect_url: None::<Seq<char>>,
                scopes: None::<Seq<Seq<char>>>,
                endpoint_url: self.spec_introspect_url(),
                grant_params: seq![("token"@, token@)],
            }),
    {
        IntrospectRequest::new(
            &self.auth_type,
            &self.client_id,
            self.client_secret.as_ref(),
            token,
            self.introspect_url.as_ref(),
        )
    }
}

} // verus!
