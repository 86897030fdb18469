//! The grant request builders: one short-lived, single-use builder per
//! OAuth2 flow, each accumulating scopes and extra parameters and
//! terminating in a `request` call that assembles the wire request, hands it
//! to the caller's transport, and classifies the response.

use core::marker::PhantomData;

use vstd::prelude::*;
use vstd::string::StringExecFns;
use vstd::utf8::encode_utf8;

use crate::decode::scopes_view;
use crate::devicecode::{DeviceAuthorizationResponse, ExtraDeviceAuthorizationFields};
use crate::introspection::TokenInspectionResponse;
use crate::encoding::{encode_pairs, pairs_view};
use crate::endpoint::{endpoint_outcome, endpoint_request, final_params, request_headers};
use crate::errors::{ErrorResponse, RequestTokenError};
use crate::token::{TokenResponse, TokenType};
use crate::types::{
    AccessToken, AuthorizationCode, ClientId, ClientSecret, PkceCodeVerifier, RedirectUrl,
    RefreshToken, ResourceOwnerPassword, ResourceOwnerUsername, Scope, TokenUrl,
    AuthUrl, CsrfToken, DeviceAuthorizationUrl, IntrospectUrl, PkceCodeChallenge, ResponseType,
};
use crate::wire::{HttpMethod, HttpRequest, HttpResponse};
use crate::AuthType;

verus! {

/// Everything that determines the wire request a builder assembles: the
/// client's identity and authentication policy, the endpoint, the
/// accumulated scopes and extra parameters, and the grant-specific
/// parameters.
pub struct RequestParts {
    /// How the client authenticates.
    pub auth_type: AuthType,
    /// The client identifier.
    pub client_id: Seq<char>,
    /// The client secret, for confidential clients.
    pub client_secret: Option<Seq<char>>,
    /// Caller-supplied extra parameters, appended last and unvalidated.
    pub extra_params: Seq<(Seq<char>, Seq<char>)>,
    /// The redirect URL, when the flow carries one.
    pub redirect_url: Option<Seq<char>>,
    /// The accumulated scopes, for the flows that take them.
    pub scopes: Option<Seq<Seq<char>>>,
    /// The endpoint the request goes to, when configured.
    pub endpoint_url: Option<Seq<char>>,
    /// The grant-specific parameters, first on the wire.
    pub grant_params: Seq<(Seq<char>, Seq<char>)>,
}

/// Whether `req` is the wire request that `parts` assembles to: a POST to
/// the configured endpoint whose headers and form-urlencoded body are those
/// of the endpoint request assembler.
pub open spec fn wire_matches_parts(req: HttpRequest, p: RequestParts) -> bool {
    &&& p.endpoint_url matches Some(u) && req.url@ == u
    &&& req.method == HttpMethod::Post
    &&& pairs_view(req.headers@) == request_headers(p.auth_type, p.client_id, p.client_secret)
    &&& req.body@ == encode_pairs(
        final_params(
            p.auth_type,
            p.client_id,
            p.client_secret,
            p.extra_params,
            p.redirect_url,
            p.scopes,
            p.grant_params,
        ),
    )
}

/// How a terminal `request` call relates its verdict to the transport: the
/// builder's wire request was handed to the transport exactly once; a
/// transport failure surfaces as `Request`, and a transport response is
/// classified by the response decoder.
pub open spec fn request_outcome<F, RE, TE: ErrorResponse, DO: crate::decode::FromJsonBody>(
    http_client: F,
    parts: RequestParts,
    r: Result<DO, RequestTokenError<RE, TE>>,
) -> bool where F: FnOnce(HttpRequest) -> Result<HttpResponse, RE> {
    exists|req: HttpRequest|
        {
            &&& #[trigger] wire_matches_parts(req, parts)
            &&& match r {
                Err(RequestTokenError::Request(e)) => call_ensures(http_client, (req,), Err(e)),
                _ => exists|resp: HttpResponse|
                    #[trigger] call_ensures(http_client, (req,), Ok(resp)) && endpoint_outcome(
                        resp,
                        r,
                    ),
            }
        }
}

/// A request to exchange an authorization code for an access token
/// (RFC 6749 section 4.1.3), optionally completing a PKCE exchange.
pub struct CodeTokenRequest<'a, TE: ErrorResponse, TR: TokenResponse<TT>, TT: TokenType> {
    auth_type: &'a AuthType,
    client_id: &'a ClientId,
    client_secret: Option<&'a ClientSecret>,
    code: AuthorizationCode,
    extra_params: Vec<(String, String)>,
    pkce_verifier: Option<PkceCodeVerifier>,
    token_url: Option<&'a TokenUrl>,
    redirect_url: Option<&'a RedirectUrl>,
    _marker: PhantomData<(TE, TR, TT)>,
}

impl<'a, TE: ErrorResponse, TR: TokenResponse<TT>, TT: TokenType> CodeTokenRequest<'a, TE, TR, TT> {
    /// What this builder assembles to: the `authorization_code` grant with
    /// the code and, when set, the PKCE verifier.
    pub closed spec fn spec_parts(&self) -> RequestParts {
        RequestParts {
            auth_type: *self.auth_type,
            client_id: self.client_id@,
            client_secret: match self.client_secret {
                Some(cs) => Some(cs@),
                None => None,
            },
            extra_params: pairs_view(self.extra_params@),
            redirect_url: match self.redirect_url {
                Some(u) => Some(u@),
                None => None,
            },
            scopes: None,
            endpoint_url: match self.token_url {
                Some(u) => Some(u@),
                None => None,
            },
            grant_params: seq![("grant_type"@, "authorization_code"@), ("code"@, self.code@)]
                + match self.pkce_verifier {
                Some(v) => seq![("code_verifier"@, v@)],
                None => Seq::<(Seq<char>, Seq<char>)>::empty(),
            },
        }
    }

    /// Assembles a code exchange request from the client's configuration.
    pub fn new(
        auth_type: &'a AuthType,
        client_id: &'a ClientId,
        client_secret: Option<&'a ClientSecret>,
        code: AuthorizationCode,
        token_url: Option<&'a TokenUrl>,
        redirect_url: Option<&'a RedirectUrl>,
    ) -> (r: Self)
        ensures
            r.spec_parts() == (RequestParts {
                auth_type: *auth_type,
                client_id: client_id@,
                client_secret: match client_secret {
                    Some(cs) => Some(cs@),
                    None => None,
                },
                extra_params: Seq::<(Seq<char>, Seq<char>)>::empty(),
                redirect_url: match redirect_url {
                    Some(u) => Some(u@),
                    None => None,
                },
                scopes: None::<Seq<Seq<char>>>,
                endpoint_url: match token_url {
                    Some(u) => Some(u@),
                    None => None,
                },
                grant_params: seq![("grant_type"@, "authorization_code"@), ("code"@, code@)],
            }),
    {
        let r = CodeTokenRequest {
            auth_type,
            client_id,
            client_secret,
            code,
            extra_params: Vec::new(),
            pkce_verifier: None,
            token_url,
            redirect_url,
            _marker: PhantomData,
        };
        proof {
            assert(pairs_view(r.extra_params@) =~= Seq::<(Seq<char>, Seq<char>)>::empty());
            assert(r.spec_parts().grant_params =~= seq![
                ("grant_type"@, "authorization_code"@),
                ("code"@, code@),
            ]);
        }
        r
    }

    /// Appends an extra parameter, serialized verbatim and unvalidated:
    /// a name that collides with a protocol parameter is the caller's
    /// responsibility.
    pub fn add_extra_param(self, name: String, value: String) -> (r: Self)
        ensures
            r.spec_parts() == (RequestParts {
                extra_params: self.spec_parts().extra_params.push((name@, value@)),
                ..self.spec_parts()
            }),
    {
        let ghost old_parts = self.spec_parts();
        let mut r = self;
        r.extra_params.push((name, value));
        proof {
            assert(pairs_view(r.extra_params@) =~~= old_parts.extra_params.push(
                (name@, value@),
            ));
        }
        r
    }

    /// Completes the PKCE protocol flow (RFC 7636). This must be called if
    /// a challenge was set on the authorization request; the engine itself
    /// does not enforce the pairing.
    pub fn set_pkce_verifier(self, pkce_verifier: PkceCodeVerifier) -> (r: Self)
        ensures
            r.spec_parts() == (RequestParts {
                grant_params: seq![
                    ("grant_type"@, "authorization_code"@),
                    ("code"@, self.spec_parts().grant_params[1].1),
                    ("code_verifier"@, pkce_verifier@),
                ],
                ..self.spec_parts()
            }),
    {
        let mut r = self;
        r.pkce_verifier = Some(pkce_verifier);
        proof {
            assert(r.spec_parts().grant_params =~= seq![
                ("grant_type"@, "authorization_code"@),
                ("code"@, r.code@),
                ("code_verifier"@, pkce_verifier@),
            ]);
        }
        r
    }

    /// Assembles the wire request, failing when no token endpoint is
    /// configured.
    pub fn prepare_request(self) -> (r: Result<HttpRequest, String>)
        ensures
            self.spec_parts().endpoint_url is None ==> (r matches Err(m) && m@
                == "no token_url provided"@),
            self.spec_parts().endpoint_url is Some ==> (r matches Ok(req)
                && wire_matches_parts(req, self.spec_parts())),
    {
        let url = match self.token_url {
            Some(u) => u,
            None => return Err(String::from_str("no token_url provided")),
        };
        let mut params: Vec<(String, String)> = Vec::new();
        params.push((String::from_str("grant_type"), String::from_str("authorization_code")));
        params.push((String::from_str("code"), self.code.secret().clone()));
        match self.pkce_verifier.as_ref() {
            Some(v) => {
                params.push((String::from_str("code_verifier"), v.secret().clone()));
            },
            None => {},
        }
        proof {
            assert(pairs_view(params@) =~~= self.spec_parts().grant_params);
        }
        let req = endpoint_request(
            self.auth_type,
            self.client_id,
            self.client_secret,
            &self.extra_params,
            self.redirect_url,
            None,
            url.as_str(),
            params,
        );
        Ok(req)
    }

    /// Synchronously sends the request through the caller's transport and
    /// classifies the outcome. With no token endpoint configured, fails
    /// locally and sends nothing.
    pub fn request<F: FnOnce(HttpRequest) -> Result<HttpResponse, RE>, RE>(
        self,
        http_client: F,
    ) -> (r: Result<TR, RequestTokenError<RE, TE>>)
        requires
            forall|req: HttpRequest| call_requires(http_client, (req,)),
        ensures
            self.spec_parts().endpoint_url is None ==> (r matches Err(
                RequestTokenError::Other(m),
            ) && m@ == "no token_url provided"@),
            self.spec_parts().endpoint_url is Some ==> request_outcome(
                http_client,
                self.spec_parts(),
                r,
            ),
    {
        let req = match self.prepare_request() {
            Ok(q) => q,
            Err(m) => return Err(RequestTokenError::Other(m)),
        };
        match http_client(req) {
            Err(e) => Err(RequestTokenError::Request(e)),
            Ok(resp) => crate::endpoint::endpoint_response::<RE, TE, TR>(&resp),
        }
    }
}


/// A request to exchange a refresh token for an access token (RFC 6749
/// section 6).
pub struct RefreshTokenRequest<'a, TE: ErrorResponse, TR: TokenResponse<TT>, TT: TokenType> {
    auth_type: &'a AuthType,
    client_id: &'a ClientId,
    client_secret: Option<&'a ClientSecret>,
    extra_params: Vec<(String, String)>,
    refresh_token: &'a RefreshToken,
    scopes: Vec<Scope>,
    token_url: Option<&'a TokenUrl>,
    _marker: PhantomData<(TE, TR, TT)>,
}

impl<'a, TE: ErrorResponse, TR: TokenResponse<TT>, TT: TokenType> RefreshTokenRequest<'a, TE, TR, TT> {
    /// What this builder assembles to.
    pub closed spec fn spec_parts(&self) -> RequestParts {
        RequestParts {
            auth_type: *self.auth_type,
            client_id: self.client_id@,
            client_secret: match self.client_secret {
                Some(cs) => Some(cs@),
                None => None,
            },
            extra_params: pairs_view(self.extra_params@),
            redirect_url: None,
            scopes: Some(scopes_view(self.scopes@)),
            endpoint_url: match self.token_url {
                Some(u) => Some(u@),
                None => None,
            },
            grant_params: seq![("grant_type"@, "refresh_token"@), ("refresh_token"@, self.refresh_token@)],
        }
    }

    /// Assembles this request from the client's configuration.
    pub fn new(
        auth_type: &'a AuthType,
        client_id: &'a ClientId,
        client_secret: Option<&'a ClientSecret>,
        refresh_token: &'a RefreshToken,
        token_url: Option<&'a TokenUrl>,
    ) -> (r: Self)
        ensures
            r.spec_parts() == (RequestParts {
                auth_type: *auth_type,
                client_id: client_id@,
                client_secret: match client_secret {
                    Some(cs) => Some(cs@),
                    None => None,
                },
                extra_params: Seq::<(Seq<char>, Seq<char>)>::empty(),
                redirect_url: None::<Seq<char>>,
                scopes: Some(Seq::<Seq<char>>::empty()),
                endpoint_url: match token_url {
                    Some(u) => Some(u@),
                    None => None,
                },
                grant_params: seq![("grant_type"@, "refresh_token"@), ("refresh_token"@, refresh_token@)],
            }),
    {
        let r = RefreshTokenRequest {
            auth_type,
            client_id,
            client_secret,
            extra_params: Vec::new(),
            refresh_token,
            scopes: Vec::new(),
            token_url,
            _marker: PhantomData,
        };
        proof {
            assert(pairs_view(r.extra_params@) =~= Seq::<(Seq<char>, Seq<char>)>::empty());
            assert(scopes_view(r.scopes@) =~= Seq::<Seq<char>>::empty());
            assert(r.spec_parts().grant_params =~~= seq![("grant_type"@, "refresh_token"@), ("refresh_token"@, refresh_token@)]);
        }
        r
    }

    /// Appends an extra parameter, serialized verbatim and unvalidated:
    /// a name that collides with a protocol parameter is the caller's
    /// responsibility.
    pub fn add_extra_param(self, name: String, value: String) -> (r: Self)
        ensures
            r.spec_parts() == (RequestParts {
                extra_params: self.spec_parts().extra_params.push((name@, value@)),
                ..self.spec_parts()
            }),
    {
        let ghost old_parts = self.spec_parts();
        let mut r = self;
        r.extra_params.push((name, value));
        proof {
            assert(pairs_view(r.extra_params@) =~~= old_parts.extra_params.push(
                (name@, value@),
            ));
        }
        r
    }

    /// Appends a scope to the request.
    pub fn add_scope(self, scope: Scope) -> (r: Self)
        ensures
            r.spec_parts() == (RequestParts {
                scopes: Some(self.spec_parts().scopes.unwrap().push(scope@)),
                ..self.spec_parts()
            }),
    {
        let ghost old_parts = self.spec_parts();
        let mut r = self;
        r.scopes.push(scope);
        proof {
            assert(scopes_view(r.scopes@) =~~= old_parts.scopes.unwrap().push(scope@));
        }
        r
    }

    /// Assembles the wire request, failing when no endpoint is configured.
    pub fn prepare_request(self) -> (r: Result<HttpRequest, String>)
        ensures
            self.spec_parts().endpoint_url is None ==> (r matches Err(m) && m@
                == "no token_url provided"@),
            self.spec_parts().endpoint_url is Some ==> (r matches Ok(req)
                && wire_matches_parts(req, self.spec_parts())),
    {
        let url = match self.token_url {
            Some(u) => u,
            None => return Err(String::from_str("no token_url provided")),
        };
        let mut params: Vec<(String, String)> = Vec::new();
        params.push((String::from_str("grant_type"), String::from_str("refresh_token")));
        params.push((String::from_str("refresh_token"), self.refresh_token.secret().clone()));
        proof {
            assert(pairs_view(params@) =~~= self.spec_parts().grant_params);
        }
        let req = endpoint_request(
            self.auth_type,
            self.client_id,
            self.client_secret,
            &self.extra_params,
            None,
            Some(&self.scopes),
            url.as_str(),
            params,
        );
        Ok(req)
    }

    /// Synchronously sends the request through the caller's transport and
    /// classifies the outcome. With no endpoint configured, fails locally
    /// and sends nothing.
    pub fn request<F: FnOnce(HttpRequest) -> Result<HttpResponse, RE>, RE>(
        self,
        http_client: F,
    ) -> (r: Result<TR, RequestTokenError<RE, TE>>)
        requires
            forall|req: HttpRequest| call_requires(http_client, (req,)),
        ensures
            self.spec_parts().endpoint_url is None ==> (r matches Err(
                RequestTokenError::Other(m),
            ) && m@ == "no token_url provided"@),
            self.spec_parts().endpoint_url is Some ==> request_outcome(
                http_client,
                self.spec_parts(),
                r,
            ),
    {
        let req = match self.prepare_request() {
            Ok(q) => q,
            Err(m) => return Err(RequestTokenError::Other(m)),
        };
        match http_client(req) {
            Err(e) => Err(RequestTokenError::Request(e)),
            Ok(resp) => crate::endpoint::endpoint_response::<RE, TE, TR>(&resp),
        }
    }
}


/// A request to exchange the resource owner's credentials for an access
/// token (RFC 6749 section 4.3).
pub struct PasswordTokenRequest<'a, TE: ErrorResponse, TR: TokenResponse<TT>, TT: TokenType> {
    auth_type: &'a AuthType,
    client_id: &'a ClientId,
    client_secret: Option<&'a ClientSecret>,
    extra_params: Vec<(String, String)>,
    username: &'a ResourceOwnerUsername,
    password: &'a ResourceOwnerPassword,
    scopes: Vec<Scope>,
    token_url: Option<&'a TokenUrl>,
    _marker: PhantomData<(TE, TR, TT)>,
}

impl<'a, TE: ErrorResponse, TR: TokenResponse<TT>, TT: TokenType> PasswordTokenRequest<'a, TE, TR, TT> {
    /// What this builder assembles to.
    pub closed spec fn spec_parts(&self) -> RequestParts {
        RequestParts {
            auth_type: *self.auth_type,
            client_id: self.client_id@,
            client_secret: match self.client_secret {
                Some(cs) => Some(cs@),
                None => None,
            },
            extra_params: pairs_view(self.extra_params@),
            redirect_url: None,
            scopes: Some(scopes_view(self.scopes@)),
            endpoint_url: match self.token_url {
                Some(u) => Some(u@),
                None => None,
            },
            grant_params: seq![
                ("grant_type"@, "password"@),
                ("username"@, self.username@),
                ("password"@, self.password@),
            ],
        }
    }

    /// Assembles this request from the client's configuration.
    pub fn new(
        auth_type: &'a AuthType,
        client_id: &'a ClientId,
        client_secret: Option<&'a ClientSecret>,
        username: &'a ResourceOwnerUsername,
        password: &'a ResourceOwnerPassword,
        token_url: Option<&'a TokenUrl>,
    ) -> (r: Self)
        ensures
            r.spec_parts() == (RequestParts {
                auth_type: *auth_type,
                client_id: client_id@,
                client_secret: match client_secret {
                    Some(cs) => Some(cs@),
                    None => None,
                },
                extra_params: Seq::<(Seq<char>, Seq<char>)>::empty(),
                redirect_url: None::<Seq<char>>,
                scopes: Some(Seq::<Seq<char>>::empty()),
                endpoint_url: match token_url {
                    Some(u) => Some(u@),
                    None => None,
                },
                grant_params: seq![
                    ("grant_type"@, "password"@),
                    ("username"@, username@),
                    ("password"@, password@),
                ],
            }),
    {
        let r = PasswordTokenRequest {
            auth_type,
            client_id,
            client_secret,
            extra_params: Vec::new(),
            username,
            password,
            scopes: Vec::new(),
            token_url,
            _marker: PhantomData,
        };
        proof {
            assert(pairs_view(r.extra_params@) =~= Seq::<(Seq<char>, Seq<char>)>::empty());
            assert(scopes_view(r.scopes@) =~= Seq::<Seq<char>>::empty());
            assert(r.spec_parts().grant_params =~~= seq![
                    ("grant_type"@, "password"@),
                    ("username"@, username@),
                    ("password"@, password@),
                ]);
        }
        r
    }

    /// Appends an extra parameter, serialized verbatim and unvalidated:
    /// a name that collides with a protocol parameter is the caller's
    /// responsibility.
    pub fn add_extra_param(self, name: String, value: String) -> (r: Self)
        ensures
            r.spec_parts() == (RequestParts {
                extra_params: self.spec_parts().extra_params.push((name@, value@)),
                ..self.spec_parts()
            }),
    {
        let ghost old_parts = self.spec_parts();
        let mut r = self;
        r.extra_params.push((name, value));
        proof {
            assert(pairs_view(r.extra_params@) =~~= old_parts.extra_params.push(
                (name@, value@),
            ));
        }
        r
    }

    /// Appends a scope to the request.
    pub fn add_scope(self, scope: Scope) -> (r: Self)
        ensures
            r.spec_parts() == (RequestParts {
                scopes: Some(self.spec_parts().scopes.unwrap().push(scope@)),
                ..self.spec_parts()
            }),
    {
        let ghost old_parts = self.spec_parts();
        let mut r = self;
        r.scopes.push(scope);
        proof {
            assert(scopes_view(r.scopes@) =~~= old_parts.scopes.unwrap().push(scope@));
        }
        r
    }

    /// Assembles the wire request, failing when no endpoint is configured.
    pub fn prepare_request(self) -> (r: Result<HttpRequest, String>)
        ensures
            self.spec_parts().endpoint_url is None ==> (r matches Err(m) && m@
                == "no token_url provided"@),
            self.spec_parts().endpoint_url is Some ==> (r matches Ok(req)
                && wire_matches_parts(req, self.spec_parts())),
    {
        let url = match self.token_url {
            Some(u) => u,
            None => return Err(String::from_str("no token_url provided")),
        };
        let mut params: Vec<(String, String)> = Vec::new();
        params.push((String::from_str("grant_type"), String::from_str("password")));
        params.push((String::from_str("username"), String::from_str(self.username.as_str())));
        params.push((String::from_str("password"), self.password.secret().clone()));
        proof {
            assert(pairs_view(params@) =~~= self.spec_parts().grant_params);
        }
        let req = endpoint_request(
            self.auth_type,
            self.client_id,
            self.client_secret,
            &self.extra_params,
            None,
            Some(&self.scopes),
            url.as_str(),
            params,
        );
        Ok(req)
    }

    /// Synchronously sends the request through the caller's transport and
    /// classifies the outcome. With no endpoint configured, fails locally
    /// and sends nothing.
    pub fn request<F: FnOnce(HttpRequest) -> Result<HttpResponse, RE>, RE>(
        self,
        http_client: F,
    ) -> (r: Result<TR, RequestTokenError<RE, TE>>)
        requires
            forall|req: HttpRequest| call_requires(http_client, (req,)),
        ensures
            self.spec_parts().endpoint_url is None ==> (r matches Err(
                RequestTokenError::Other(m),
            ) && m@ == "no token_url provided"@),
            self.spec_parts().endpoint_url is Some ==> request_outcome(
                http_client,
                self.spec_parts(),
                r,
            ),
    {
        let req = match self.prepare_request() {
            Ok(q) => q,
            Err(m) => return Err(RequestTokenError::Other(m)),
        };
        match http_client(req) {
            Err(e) => Err(RequestTokenError::Request(e)),
            Ok(resp) => crate::endpoint::endpoint_response::<RE, TE, TR>(&resp),
        }
    }
}


/// A request to exchange the client's own credentials for an access token
/// (RFC 6749 section 4.4).
pub struct ClientCredentialsTokenRequest<'a, TE: ErrorResponse, TR: TokenResponse<TT>, TT: TokenType> {
    auth_type: &'a AuthType,
    client_id: &'a ClientId,
    client_secret: Option<&'a ClientSecret>,
    extra_params: Vec<(String, String)>,
    scopes: Vec<Scope>,
    token_url: Option<&'a TokenUrl>,
    _marker: PhantomData<(TE, TR, TT)>,
}

impl<'a, TE: ErrorResponse, TR: TokenResponse<TT>, TT: TokenType> ClientCredentialsTokenRequest<'a, TE, TR, TT> {
    /// What this builder assembles to.
    pub closed spec fn spec_parts(&self) -> RequestParts {
        RequestParts {
            auth_type: *self.auth_type,
            client_id: self.client_id@,
            client_secret: match self.client_secret {
                Some(cs) => Some(cs@),
                None => None,
            },
            extra_params: pairs_view(self.extra_params@),
            redirect_url: None,
            scopes: Some(scopes_view(self.scopes@)),
            endpoint_url: match self.token_url {
                Some(u) => Some(u@),
                None => None,
            },
            grant_params: seq![("grant_type"@, "client_credentials"@)],
        }
    }

    /// Assembles this request from the client's configuration.
    pub fn new(
        auth_type: &'a AuthType,
        client_id: &'a ClientId,
        client_secret: Option<&'a ClientSecret>,
        token_url: Option<&'a TokenUrl>,
    ) -> (r: Self)
        ensures
            r.spec_parts() == (RequestParts {
                auth_type: *auth_type,
                client_id: client_id@,
                client_secret: match client_secret {
                    Some(cs) => Some(cs@),
                    None => None,
                },
                extra_params: Seq::<(Seq<char>, Seq<char>)>::empty(),
                redirect_url: None::<Seq<char>>,
                scopes: Some(Seq::<Seq<char>>::empty()),
                endpoint_url: match token_url {
                    Some(u) => Some(u@),
                    None => None,
                },
                grant_params: seq![("grant_type"@, "client_credentials"@)],
            }),
    {
        let r = ClientCredentialsTokenRequest {
            auth_type,
            client_id,
            client_secret,
            extra_params: Vec::new(),
            scopes: Vec::new(),
            token_url,
            _marker: PhantomData,
        };
        proof {
            assert(pairs_view(r.extra_params@) =~= Seq::<(Seq<char>, Seq<char>)>::empty());
            assert(scopes_view(r.scopes@) =~= Seq::<Seq<char>>::empty());
            assert(r.spec_parts().grant_params =~~= seq![("grant_type"@, "client_credentials"@)]);
        }
        r
    }

    /// Appends an extra parameter, serialized verbatim and unvalidated:
    /// a name that collides with a protocol parameter is the caller's
    /// responsibility.
    pub fn add_extra_param(self, name: String, value: String) -> (r: Self)
        ensures
            r.spec_parts() == (RequestParts {
                extra_params: self.spec_parts().extra_params.push((name@, value@)),
                ..self.spec_parts()
            }),
    {
        let ghost old_parts = self.spec_parts();
        let mut r = self;
        r.extra_params.push((name, value));
        proof {
            assert(pairs_view(r.extra_params@) =~~= old_parts.extra_params.push(
                (name@, value@),
            ));
        }
        r
    }

    /// Appends a scope to the request.
    pub fn add_scope(self, scope: Scope) -> (r: Self)
        ensures
            r.spec_parts() == (RequestParts {
                scopes: Some(self.spec_parts().scopes.unwrap().push(scope@)),
                ..self.spec_parts()
            }),
    {
        let ghost old_parts = self.spec_parts();
        let mut r = self;
        r.scopes.push(scope);
        proof {
            assert(scopes_view(r.scopes@) =~~= old_parts.scopes.unwrap().push(scope@));
        }
        r
    }

    /// Assembles the wire request, failing when no endpoint is configured.
    pub fn prepare_request(self) -> (r: Result<HttpRequest, String>)
        ensures
            self.spec_parts().endpoint_url is None ==> (r matches Err(m) && m@
                == "no token_url provided"@),
            self.spec_parts().endpoint_url is Some ==> (r matches Ok(req)
                && wire_matches_parts(req, self.spec_parts())),
    {
        let url = match self.token_url {
            Some(u) => u,
            None => return Err(String::from_str("no token_url provided")),
        };
        let mut params: Vec<(String, String)> = Vec::new();
        params.push((String::from_str("grant_type"), String::from_str("client_credentials")));
        proof {
            assert(pairs_view(params@) =~~= self.spec_parts().grant_params);
        }
        let req = endpoint_request(
            self.auth_type,
            self.client_id,
            self.client_secret,
            &self.extra_params,
            None,
            Some(&self.scopes),
            url.as_str(),
            params,
        );
        Ok(req)
    }

    /// Synchronously sends the request through the caller's transport and
    /// classifies the outcome. With no endpoint configured, fails locally
    /// and sends nothing.
    pub fn request<F: FnOnce(HttpRequest) -> Result<HttpResponse, RE>, RE>(
        self,
        http_client: F,
    ) -> (r: Result<TR, RequestTokenError<RE, TE>>)
        requires
            forall|req: HttpRequest| call_requires(http_client, (req,)),
        ensures
            self.spec_parts().endpoint_url is None ==> (r matches Err(
                RequestTokenError::Other(m),
            ) && m@ == "no token_url provided"@),
            self.spec_parts().endpoint_url is Some ==> request_outcome(
                http_client,
                self.spec_parts(),
                r,
            ),
    {
        let req = match self.prepare_request() {
            Ok(q) => q,
            Err(m) => return Err(RequestTokenError::Other(m)),
        };
        match http_client(req) {
            Err(e) => Err(RequestTokenError::Request(e)),
            Ok(resp) => crate::endpoint::endpoint_response::<RE, TE, TR>(&resp),
        }
    }
}


/// A request to introspect an access token (RFC 7662 section 2.1).
pub struct IntrospectRequest<'a, TE: ErrorResponse, TIR: TokenInspectionResponse<TT>, TT: TokenType> {
    auth_type: &'a AuthType,
    client_id: &'a ClientId,
    client_secret: Option<&'a ClientSecret>,
    extra_params: Vec<(String, String)>,
    token: &'a AccessToken,
    token_type_hint: Option<String>,
    introspect_url: Option<&'a IntrospectUrl>,
    _marker: PhantomData<(TE, TIR, TT)>,
}

impl<'a, TE: ErrorResponse, TIR: TokenInspectionResponse<TT>, TT: TokenType> IntrospectRequest<
    'a,
    TE,
    TIR,
    TT,
> {
    /// What this builder assembles to: the token under inspection and, when
    /// set, the token type hint.
    pub closed spec fn spec_parts(&self) -> RequestParts {
        RequestParts {
            auth_type: *self.auth_type,
            client_id: self.client_id@,
            client_secret: match self.client_secret {
                Some(cs) => Some(cs@),
                None => None,
            },
            extra_params: pairs_view(self.extra_params@),
            redirect_url: None,
            scopes: None,
            endpoint_url: match self.introspect_url {
                Some(u) => Some(u@),
                None => None,
            },
            grant_params: seq![("token"@, self.token@)] + match self.token_type_hint {
                Some(h) => seq![("token_type_hint"@, h@)],
                None => Seq::<(Seq<char>, Seq<char>)>::empty(),
            },
        }
    }

    /// Assembles an introspection request from the client's configuration.
    pub fn new(
        auth_type: &'a AuthType,
        client_id: &'a ClientId,
        client_secret: Option<&'a ClientSecret>,
        token: &'a AccessToken,
        introspect_url: Option<&'a IntrospectUrl>,
    ) -> (r: Self)
        ensures
            r.spec_parts() == (RequestParts {
                auth_type: *auth_type,
                client_id: client_id@,
                client_secret: match client_secret {
                    Some(cs) => Some(cs@),
                    None => None,
                },
                extra_params: Seq::<(Seq<char>, Seq<char>)>::empty(),
                redirect_url: None::<Seq<char>>,
                scopes: None::<Seq<Seq<char>>>,
                endpoint_url: match introspect_url {
                    Some(u) => Some(u@),
                    None => None,
                },
                grant_params: seq![("token"@, token@)],
            }),
    {
        let r = IntrospectRequest {
            auth_type,
            client_id,
            client_secret,
            extra_params: Vec::new(),
            token,
            token_type_hint: None,
            introspect_url,
            _marker: PhantomData,
        };
        proof {
            assert(pairs_view(r.extra_params@) =~= Seq::<(Seq<char>, Seq<char>)>::empty());
            assert(r.spec_parts().grant_params =~= seq![("token"@, token@)]);
        }
        r
    }

    /// Sets the optional `token_type_hint` parameter of RFC 7662 section
    /// 2.1, helping the server optimize its token lookup.
    pub fn set_token_type_hint(self, value: String) -> (r: Self)
        ensures
            r.spec_parts() == (RequestParts {
                grant_params: seq![
                    ("token"@, self.spec_parts().grant_params[0].1),
                    ("token_type_hint"@, value@),
                ],
                ..self.spec_parts()
            }),
    {
        let mut r = self;
        r.token_type_hint = Some(value);
        proof {
            assert(r.spec_parts().grant_params =~= seq![
                ("token"@, r.token@),
                ("token_type_hint"@, value@),
            ]);
        }
        r
    }

    /// Appends an extra parameter, serialized verbatim and unvalidated:
    /// a name that collides with a protocol parameter is the caller's
    /// responsibility.
    pub fn add_extra_param(self, name: String, value: String) -> (r: Self)
        ensures
            r.spec_parts() == (RequestParts {
                extra_params: self.spec_parts().extra_params.push((name@, value@)),
                ..self.spec_parts()
            }),
    {
        let ghost old_parts = self.spec_parts();
        let mut r = self;
        r.extra_params.push((name, value));
        proof {
            assert(pairs_view(r.extra_params@) =~~= old_parts.extra_params.push(
                (name@, value@),
            ));
        }
        r
    }

    /// Assembles the wire request, failing when no introspection endpoint
    /// is configured.
    pub fn prepare_request(self) -> (r: Result<HttpRequest, String>)
        ensures
            self.spec_parts().endpoint_url is None ==> (r matches Err(m) && m@
                == "no introspect_url provided"@),
            self.spec_parts().endpoint_url is Some ==> (r matches Ok(req)
                && wire_matches_parts(req, self.spec_parts())),
    {
        let url = match self.introspect_url {
            Some(u) => u,
            None => return Err(String::from_str("no introspect_url provided")),
        };
        let mut params: Vec<(String, String)> = Vec::new();
        params.push((String::from_str("token"), self.token.secret().clone()));
        match self.token_type_hint.as_ref() {
            Some(h) => {
                params.push((String::from_str("token_type_hint"), h.clone()));
            },
            None => {},
        }
        proof {
            assert(pairs_view(params@) =~~= self.spec_parts().grant_params);
        }
        let req = endpoint_request(
            self.auth_type,
            self.client_id,
            self.client_secret,
            &self.extra_params,
            None,
            None,
            url.as_str(),
            params,
        );
        Ok(req)
    }

    /// Synchronously sends the request through the caller's transport and
    /// classifies the outcome. With no introspection endpoint configured,
    /// fails locally and sends nothing.
    pub fn request<F: FnOnce(HttpRequest) -> Result<HttpResponse, RE>, RE>(
        self,
        http_client: F,
    ) -> (r: Result<TIR, RequestTokenError<RE, TE>>)
        requires
            forall|req: HttpRequest| call_requires(http_client, (req,)),
        ensures
            self.spec_parts().endpoint_url is None ==> (r matches Err(
                RequestTokenError::Other(m),
            ) && m@ == "no introspect_url provided"@),
            self.spec_parts().endpoint_url is Some ==> request_outcome(
                http_client,
                self.spec_parts(),
                r,
            ),
    {
        let req = match self.prepare_request() {
            Ok(q) => q,
            Err(m) => return Err(RequestTokenError::Other(m)),
        };
        match http_client(req) {
            Err(e) => Err(RequestTokenError::Request(e)),
            Ok(resp) => crate::endpoint::endpoint_response::<RE, TE, TIR>(&resp),
        }
    }
}

/// The request for a set of device verification codes (RFC 8628 section
/// 3.1).
pub struct DeviceAuthorizationRequest<'a, TE: ErrorResponse> {
    auth_type: &'a AuthType,
    client_id: &'a ClientId,
    client_secret: Option<&'a ClientSecret>,
    extra_params: Vec<(String, String)>,
    scopes: Vec<Scope>,
    device_authorization_url: Option<&'a DeviceAuthorizationUrl>,
    _marker: PhantomData<TE>,
}

impl<'a, TE: ErrorResponse> DeviceAuthorizationRequest<'a, TE> {
    /// What this builder assembles to: no grant parameters of its own, only
    /// scopes, client authentication, and extra parameters.
    pub closed spec fn spec_parts(&self) -> RequestParts {
        RequestParts {
            auth_type: *self.auth_type,
            client_id: self.client_id@,
            client_secret: match self.client_secret {
                Some(cs) => Some(cs@),
                None => None,
            },
            extra_params: pairs_view(self.extra_params@),
            redirect_url: None,
            scopes: Some(scopes_view(self.scopes@)),
            endpoint_url: match self.device_authorization_url {
                Some(u) => Some(u@),
                None => None,
            },
            grant_params: Seq::<(Seq<char>, Seq<char>)>::empty(),
        }
    }

    /// Assembles a device authorization request from the client's
    /// configuration.
    pub fn new(
        auth_type: &'a AuthType,
        client_id: &'a ClientId,
        client_secret: Option<&'a ClientSecret>,
        device_authorization_url: Option<&'a DeviceAuthorizationUrl>,
    ) -> (r: Self)
        ensures
            r.spec_parts() == (RequestParts {
                auth_type: *auth_type,
                client_id: client_id@,
                client_secret: match client_secret {
                    Some(cs) => Some(cs@),
                    None => None,
                },
                extra_params: Seq::<(Seq<char>, Seq<char>)>::empty(),
                redirect_url: None::<Seq<char>>,
                scopes: Some(Seq::<Seq<char>>::empty()),
                endpoint_url: match device_authorization_url {
                    Some(u) => Some(u@),
                    None => None,
                },
                grant_params: Seq::<(Seq<char>, Seq<char>)>::empty(),
            }),
    {
        let r = DeviceAuthorizationRequest {
            auth_type,
            client_id,
            client_secret,
            extra_params: Vec::new(),
            scopes: Vec::new(),
            device_authorization_url,
            _marker: PhantomData,
        };
        proof {
            assert(pairs_view(r.extra_params@) =~= Seq::<(Seq<char>, Seq<char>)>::empty());
            assert(scopes_view(r.scopes@) =~= Seq::<Seq<char>>::empty());
        }
        r
    }

    /// Appends a scope to the request.
    pub fn add_scope(self, scope: Scope) -> (r: Self)
        ensures
            r.spec_parts() == (RequestParts {
                scopes: Some(self.spec_parts().scopes.unwrap().push(scope@)),
                ..self.spec_parts()
            }),
    {
        let ghost old_parts = self.spec_parts();
        let mut r = self;
        r.scopes.push(scope);
        proof {
            assert(scopes_view(r.scopes@) =~~= old_parts.scopes.unwrap().push(scope@));
        }
        r
    }

    /// Appends an extra parameter, serialized verbatim and unvalidated:
    /// a name that collides with a protocol parameter is the caller's
    /// responsibility.
    pub fn add_extra_param(self, name: String, value: String) -> (r: Self)
        ensures
            r.spec_parts() == (RequestParts {
                extra_params: self.spec_parts().extra_params.push((name@, value@)),
                ..self.spec_parts()
            }),
    {
        let ghost old_parts = self.spec_parts();
        let mut r = self;
        r.extra_params.push((name, value));
        proof {
            assert(pairs_view(r.extra_params@) =~~= old_parts.extra_params.push(
                (name@, value@),
            ));
        }
        r
    }

    /// Assembles the wire request, failing when no device authorization
    /// endpoint is configured.
    pub fn prepare_request(self) -> (r: Result<HttpRequest, String>)
        ensures
            self.spec_parts().endpoint_url is None ==> (r matches Err(m) && m@
                == "no device authorization_url provided"@),
            self.spec_parts().endpoint_url is Some ==> (r matches Ok(req)
                && wire_matches_parts(req, self.spec_parts())),
    {
        let url = match self.device_authorization_url {
            Some(u) => u,
            None => return Err(String::from_str("no device authorization_url provided")),
        };
        let params: Vec<(String, String)> = Vec::new();
        proof {
            assert(pairs_view(params@) =~~= self.spec_parts().grant_params);
        }
        let req = endpoint_request(
            self.auth_type,
            self.client_id,
            self.client_secret,
            &self.extra_params,
            None,
            Some(&self.scopes),
            url.as_str(),
            params,
        );
        Ok(req)
    }

    /// Synchronously sends the request through the caller's transport and
    /// classifies the outcome into a device authorization response. With no
    /// device authorization endpoint configured, fails locally and sends
    /// nothing.
    pub fn request<
        F: FnOnce(HttpRequest) -> Result<HttpResponse, RE>,
        RE,
        EF: ExtraDeviceAuthorizationFields,
    >(self, http_client: F) -> (r: Result<
        DeviceAuthorizationResponse<EF>,
        RequestTokenError<RE, TE>,
    >)
        requires
            forall|req: HttpRequest| call_requires(http_client, (req,)),
        ensures
            self.spec_parts().endpoint_url is None ==> (r matches Err(
                RequestTokenError::Other(m),
            ) && m@ == "no device authorization_url provided"@),
            self.spec_parts().endpoint_url is Some ==> request_outcome(
                http_client,
                self.spec_parts(),
                r,
            ),
    {
        let req = match self.prepare_request() {
            Ok(q) => q,
            Err(m) => return Err(RequestTokenError::Other(m)),
        };
        match http_client(req) {
            Err(e) => Err(RequestTokenError::Request(e)),
            Ok(resp) => crate::endpoint::endpoint_response::<
                RE,
                TE,
                DeviceAuthorizationResponse<EF>,
            >(&resp),
        }
    }
}


/// The query parameters of an authorization URL, in their serialization
/// order: response type, client id, state, the PKCE challenge and its
/// method when set, the redirect URL when set, the space-joined scopes when
/// any were given, then the caller's extra parameters.
pub open spec fn authorize_pairs(
    response_type: Seq<char>,
    client_id: Seq<char>,
    state: Seq<char>,
    pkce: Option<(Seq<char>, Seq<char>)>,
    redirect: Option<Seq<char>>,
    scopes: Seq<Seq<char>>,
    extra: Seq<(Seq<char>, Seq<char>)>,
) -> Seq<(Seq<char>, Seq<char>)> {
    seq![("response_type"@, response_type), ("client_id"@, client_id), ("state"@, state)]
        + (match pkce {
        Some(c) => seq![("code_challenge"@, c.0), ("code_challenge_method"@, c.1)],
        None => Seq::<(Seq<char>, Seq<char>)>::empty(),
    }) + (match redirect {
        Some(u) => seq![("redirect_uri"@, u)],
        None => Seq::<(Seq<char>, Seq<char>)>::empty(),
    }) + (if scopes.len() > 0 {
        seq![("scope"@, crate::decode::join_sp(scopes))]
    } else {
        Seq::<(Seq<char>, Seq<char>)>::empty()
    }) + extra
}

/// The full authorization URL: the endpoint, a `?` (or `&` when the
/// endpoint already carries a query), and the form-urlencoded parameters.
pub open spec fn authorize_url_chars(base: Seq<char>, pairs: Seq<(Seq<char>, Seq<char>)>) -> Seq<
    char,
> {
    let sep = if encode_utf8(base).contains(0x3fu8) {
        "&"@
    } else {
        "?"@
    };
    base + sep + crate::helpers::ascii_chars(encode_pairs(pairs))
}

/// A request to the authorization endpoint. It never sends anything: `url`
/// serializes it into the URL the end user is redirected to, paired with
/// the anti-forgery state the server must echo back.
pub struct AuthorizationRequest<'a> {
    auth_url: &'a AuthUrl,
    client_id: &'a ClientId,
    extra_params: Vec<(String, String)>,
    pkce_challenge: Option<PkceCodeChallenge>,
    redirect_url: Option<&'a RedirectUrl>,
    response_type: String,
    scopes: Vec<Scope>,
    state: CsrfToken,
}

impl<'a> AuthorizationRequest<'a> {
    /// The authorization endpoint.
    pub closed spec fn spec_auth_url(&self) -> Seq<char> {
        self.auth_url@
    }

    /// The response type parameter; `code` unless overridden.
    pub closed spec fn spec_response_type(&self) -> Seq<char> {
        self.response_type@
    }

    /// The client identifier.
    pub closed spec fn spec_client_id(&self) -> Seq<char> {
        self.client_id@
    }

    /// The anti-forgery state.
    pub closed spec fn spec_state(&self) -> CsrfToken {
        self.state
    }

    /// The PKCE challenge and method, when set.
    pub closed spec fn spec_pkce(&self) -> Option<(Seq<char>, Seq<char>)> {
        match self.pkce_challenge {
            Some(c) => Some(c@),
            None => None,
        }
    }

    /// The redirect URL, when set.
    pub closed spec fn spec_redirect(&self) -> Option<Seq<char>> {
        match self.redirect_url {
            Some(u) => Some(u@),
            None => None,
        }
    }

    /// The accumulated scopes.
    pub closed spec fn spec_scopes(&self) -> Seq<Seq<char>> {
        scopes_view(self.scopes@)
    }

    /// The accumulated extra parameters.
    pub closed spec fn spec_extra(&self) -> Seq<(Seq<char>, Seq<char>)> {
        pairs_view(self.extra_params@)
    }

    /// Starts an authorization request for the `code` response type, with
    /// the given anti-forgery state. Callers should use a fresh,
    /// unpredictable state for each request and verify the server echoes it.
    pub fn new(
        auth_url: &'a AuthUrl,
        client_id: &'a ClientId,
        redirect_url: Option<&'a RedirectUrl>,
        state: CsrfToken,
    ) -> (r: Self)
        ensures
            r.spec_auth_url() == auth_url@,
            r.spec_response_type() == "code"@,
            r.spec_client_id() == client_id@,
            r.spec_state() == state,
            r.spec_pkce() is None,
            r.spec_redirect() == match redirect_url {
                Some(u) => Some(u@),
                None => None::<Seq<char>>,
            },
            r.spec_scopes() == Seq::<Seq<char>>::empty(),
            r.spec_extra() == Seq::<(Seq<char>, Seq<char>)>::empty(),
    {
        let r = AuthorizationRequest {
            auth_url,
            client_id,
            extra_params: Vec::new(),
            pkce_challenge: None,
            redirect_url,
            response_type: String::from_str("code"),
            scopes: Vec::new(),
            state,
        };
        proof {
            assert(scopes_view(r.scopes@) =~= Seq::<Seq<char>>::empty());
            assert(pairs_view(r.extra_params@) =~= Seq::<(Seq<char>, Seq<char>)>::empty());
        }
        r
    }

    /// Appends a scope to the authorization URL.
    pub fn add_scope(self, scope: Scope) -> (r: Self)
        ensures
            r.spec_scopes() == self.spec_scopes().push(scope@),
            r.spec_auth_url() == self.spec_auth_url(),
            r.spec_response_type() == self.spec_response_type(),
            r.spec_client_id() == self.spec_client_id(),
            r.spec_state() == self.spec_state(),
            r.spec_pkce() == self.spec_pkce(),
            r.spec_redirect() == self.spec_redirect(),
            r.spec_extra() == self.spec_extra(),
    {
        let ghost old_scopes = scopes_view(self.scopes@);
        let mut r = self;
        r.scopes.push(scope);
        proof {
            assert(scopes_view(r.scopes@) =~~= old_scopes.push(scope@));
        }
        r
    }

    /// Appends an extra parameter to the authorization URL, serialized
    /// verbatim and unvalidated: a name that collides with a protocol
    /// parameter is the caller's responsibility.
    pub fn add_extra_param(self, name: String, value: String) -> (r: Self)
        ensures
            r.spec_extra() == self.spec_extra().push((name@, value@)),
            r.spec_auth_url() == self.spec_auth_url(),
            r.spec_response_type() == self.spec_response_type(),
            r.spec_client_id() == self.spec_client_id(),
            r.spec_state() == self.spec_state(),
            r.spec_pkce() == self.spec_pkce(),
            r.spec_redirect() == self.spec_redirect(),
            r.spec_scopes() == self.spec_scopes(),
    {
        let ghost old_extra = pairs_view(self.extra_params@);
        let mut r = self;
        r.extra_params.push((name, value));
        proof {
            assert(pairs_view(r.extra_params@) =~~= old_extra.push((name@, value@)));
        }
        r
    }

    /// Switches to the Implicit Grant of RFC 6749 section 4.2: the
    /// response type becomes `token`.
    pub fn use_implicit_flow(self) -> (r: Self)
        ensures
            r.spec_response_type() == "token"@,
            r.spec_auth_url() == self.spec_auth_url(),
            r.spec_client_id() == self.spec_client_id(),
            r.spec_state() == self.spec_state(),
            r.spec_pkce() == self.spec_pkce(),
            r.spec_redirect() == self.spec_redirect(),
            r.spec_scopes() == self.spec_scopes(),
            r.spec_extra() == self.spec_extra(),
    {
        let mut r = self;
        r.response_type = String::from_str("token");
        r
    }

    /// Overrides the response type, for flows beyond `code` and `token`.
    pub fn set_response_type(self, response_type: &ResponseType) -> (r: Self)
        ensures
            r.spec_response_type() == response_type@,
            r.spec_auth_url() == self.spec_auth_url(),
            r.spec_client_id() == self.spec_client_id(),
            r.spec_state() == self.spec_state(),
            r.spec_pkce() == self.spec_pkce(),
            r.spec_redirect() == self.spec_redirect(),
            r.spec_scopes() == self.spec_scopes(),
            r.spec_extra() == self.spec_extra(),
    {
        let mut r = self;
        r.response_type = String::from_str(response_type.as_str());
        r
    }

    /// Sets the PKCE challenge (RFC 7636); highly recommended for public
    /// clients. The verifier must then accompany the code exchange.
    pub fn set_pkce_challenge(self, pkce_code_challenge: PkceCodeChallenge) -> (r: Self)
        ensures
            r.spec_pkce() == Some(pkce_code_challenge@),
            r.spec_auth_url() == self.spec_auth_url(),
            r.spec_response_type() == self.spec_response_type(),
            r.spec_client_id() == self.spec_client_id(),
            r.spec_state() == self.spec_state(),
            r.spec_redirect() == self.spec_redirect(),
            r.spec_scopes() == self.spec_scopes(),
            r.spec_extra() == self.spec_extra(),
    {
        let mut r = self;
        r.pkce_challenge = Some(pkce_code_challenge);
        r
    }

    /// Overrides the redirect URL for this authorization request.
    pub fn set_redirect_url(self, redirect_url: &'a RedirectUrl) -> (r: Self)
        ensures
            r.spec_redirect() == Some(redirect_url@),
            r.spec_auth_url() == self.spec_auth_url(),
            r.spec_response_type() == self.spec_response_type(),
            r.spec_client_id() == self.spec_client_id(),
            r.spec_state() == self.spec_state(),
            r.spec_pkce() == self.spec_pkce(),
            r.spec_scopes() == self.spec_scopes(),
            r.spec_extra() == self.spec_extra(),
    {
        let mut r = self;
        r.redirect_url = Some(redirect_url);
        r
    }

    /// Serializes the full authorization URL, returning it with the
    /// anti-forgery state the caller must later compare.
    #[verifier::rlimit(60)]
    pub fn url(self) -> (r: (String, CsrfToken))
        ensures
            r.0@ == authorize_url_chars(
                self.spec_auth_url(),
                authorize_pairs(
                    self.spec_response_type(),
                    self.spec_client_id(),
                    self.spec_state()@,
                    self.spec_pkce(),
                    self.spec_redirect(),
                    self.spec_scopes(),
                    self.spec_extra(),
                ),
            ),
            r.1 == self.spec_state(),
    {
        let ghost want_pairs = authorize_pairs(
            self.spec_response_type(),
            self.spec_client_id(),
            self.spec_state()@,
            self.spec_pkce(),
            self.spec_redirect(),
            self.spec_scopes(),
            self.spec_extra(),
        );
        let mut pairs: Vec<(String, String)> = Vec::new();
        pairs.push((String::from_str("response_type"), String::from_str(self.response_type.as_str())));
        pairs.push((String::from_str("client_id"), String::from_str(self.client_id.as_str())));
        pairs.push((String::from_str("state"), self.state.secret().clone()));
        match self.pkce_challenge.as_ref() {
            Some(c) => {
                pairs.push((String::from_str("code_challenge"), String::from_str(c.as_str())));
                pairs.push(
                    (
                        String::from_str("code_challenge_method"),
                        String::from_str(c.method().as_str()),
                    ),
                );
            },
            None => {},
        }
        match self.redirect_url {
            Some(u) => {
                pairs.push((String::from_str("redirect_uri"), String::from_str(u.as_str())));
            },
            None => {},
        }
        if self.scopes.len() > 0 {
            pairs.push((String::from_str("scope"), crate::decode::join_scopes(&self.scopes)));
        }
        let ghost before_extra = pairs_view(pairs@);
        let mut i: usize = 0;
        while i < self.extra_params.len()
            invariant
                0 <= i <= self.extra_params@.len(),
                pairs_view(pairs@) == before_extra + pairs_view(self.extra_params@.take(i as int)),
            decreases self.extra_params@.len() - i,
        {
            let name = self.extra_params[i].0.clone();
            let value = self.extra_params[i].1.clone();
            proof {
                assert(self.extra_params@.take(i + 1) =~= self.extra_params@.take(i as int).push(
                    self.extra_params@[i as int],
                ));
            }
            let ghost prev = pairs_view(pairs@);
            pairs.push((name, value));
            proof {
                assert(pairs_view(pairs@) =~~= prev.push((name@, value@)));
                assert(pairs_view(self.extra_params@.take(i + 1)) =~~= pairs_view(
                    self.extra_params@.take(i as int),
                ).push((name@, value@)));
                assert(pairs_view(pairs@) =~~= before_extra + pairs_view(
                    self.extra_params@.take(i + 1),
                ));
            }
            i += 1;
        }
        proof {
            assert(self.extra_params@.take(self.extra_params@.len() as int)
                =~= self.extra_params@);
            assert(pairs_view(pairs@) =~~= want_pairs);
        }
        let qbytes = crate::encoding::encode_pairs_vec(&pairs);
        proof {
            crate::encoding::lemma_encode_pairs_ascii(want_pairs);
        }
        let q = crate::helpers::ascii_string(qbytes);
        let has_query = crate::helpers::slice_contains_byte(
            self.auth_url.as_str().as_bytes(),
            0x3f,
        );
        let sep: &str = if has_query {
            "&"
        } else {
            "?"
        };
        let out = String::from_str(self.auth_url.as_str()).concat(sep).concat(q.as_str());
        (out, self.state)
    }
}

} // verus!
