//! The value model: identifier and secret wrapper types, and validated
//! endpoint URLs. Secret wrappers never expose their content through a
//! display path; the raw value is reachable only through `secret`.

use vstd::prelude::*;
use vstd::string::StringExecFns;

use crate::ext::is_valid_url;

verus! {

/// Error returned when an endpoint URL does not parse.
#[derive(Clone, Debug, PartialEq, Eq, Structural)]
pub struct UrlParseError;

impl UrlParseError {
    /// A human-readable description of the error.
    pub fn message(&self) -> (r: String)
        ensures
            r@ == "invalid URL"@,
    {
        String::from_str("invalid URL")
    }
}

/// The client identifier issued to the client during registration; public.
#[derive(Clone, Debug, PartialEq, Eq)]
pub struct ClientId(String);

impl View for ClientId {
    type V = Seq<char>;

    closed spec fn view(&self) -> Seq<char> {
        self.0@
    }
}

impl ClientId {
    /// Wraps a client identifier.
    pub fn new(s: String) -> (r: Self)
        ensures
            r@ == s@,
    {
        ClientId(s)
    }

    /// The identifier as a string slice.
    pub fn as_str(&self) -> (r: &str)
        ensures
            r@ == self@,
    {
        self.0.as_str()
    }
}

/// An access token scope, serialized verbatim on the wire; a scope token must
/// not itself contain whitespace.
#[derive(Clone, Debug, PartialEq, Eq)]
pub struct Scope(String);

impl View for Scope {
    type V = Seq<char>;

    closed spec fn view(&self) -> Seq<char> {
        self.0@
    }
}

impl Scope {
    /// Wraps a scope token.
    pub fn new(s: String) -> (r: Self)
        ensures
            r@ == s@,
    {
        Scope(s)
    }

    /// The scope as a string slice.
    pub fn as_str(&self) -> (r: &str)
        ensures
            r@ == self@,
    {
        self.0.as_str()
    }
}

/// The authorization response type, `code` and `token` being the standard
/// values.
#[derive(Clone, Debug, PartialEq, Eq)]
pub struct ResponseType(String);

impl View for ResponseType {
    type V = Seq<char>;

    closed spec fn view(&self) -> Seq<char> {
        self.0@
    }
}

impl ResponseType {
    /// Wraps a response type.
    pub fn new(s: String) -> (r: Self)
        ensures
            r@ == s@,
    {
        ResponseType(s)
    }

    /// The response type as a string slice.
    pub fn as_str(&self) -> (r: &str)
        ensures
            r@ == self@,
    {
        self.0.as_str()
    }
}

/// The resource owner's username, for the password grant.
#[derive(Clone, Debug, PartialEq, Eq)]
pub struct ResourceOwnerUsername(String);

impl View for ResourceOwnerUsername {
    type V = Seq<char>;

    closed spec fn view(&self) -> Seq<char> {
        self.0@
    }
}

impl ResourceOwnerUsername {
    /// Wraps a username.
    pub fn new(s: String) -> (r: Self)
        ensures
            r@ == s@,
    {
        ResourceOwnerUsername(s)
    }

    /// The username as a string slice.
    pub fn as_str(&self) -> (r: &str)
        ensures
            r@ == self@,
    {
        self.0.as_str()
    }
}

/// The PKCE code challenge method: `plain` or `S256`.
#[derive(Clone, Debug, PartialEq, Eq)]
pub struct PkceCodeChallengeMethod(String);

impl View for PkceCodeChallengeMethod {
    type V = Seq<char>;

    closed spec fn view(&self) -> Seq<char> {
        self.0@
    }
}

impl PkceCodeChallengeMethod {
    /// Wraps a challenge method name.
    pub fn new(s: String) -> (r: Self)
        ensures
            r@ == s@,
    {
        PkceCodeChallengeMethod(s)
    }

    /// The `plain` method of RFC 7636.
    pub fn plain() -> (r: Self)
        ensures
            r@ == "plain"@,
    {
        PkceCodeChallengeMethod(String::from_str("plain"))
    }

    /// The `S256` method of RFC 7636.
    pub fn s256() -> (r: Self)
        ensures
            r@ == "S256"@,
    {
        PkceCodeChallengeMethod(String::from_str("S256"))
    }

    /// The method name as a string slice.
    pub fn as_str(&self) -> (r: &str)
        ensures
            r@ == self@,
    {
        self.0.as_str()
    }
}

/// The client secret of a confidential client. No display path; `secret`
/// reveals the raw value, `redacted` yields the fixed placeholder.
#[derive(Clone, PartialEq, Eq)]
pub struct ClientSecret(String);

impl View for ClientSecret {
    type V = Seq<char>;

    closed spec fn view(&self) -> Seq<char> {
        self.0@
    }
}

impl ClientSecret {
    /// Wraps a client secret.
    pub fn new(s: String) -> (r: Self)
        ensures
            r@ == s@,
    {
        ClientSecret(s)
    }

    /// Reveals the raw secret, for request construction only.
    pub fn secret(&self) -> (r: &String)
        ensures
            r@ == self@,
    {
        &self.0
    }

    /// The fixed placeholder shown instead of the secret's content.
    pub fn redacted(&self) -> (r: String)
        ensures
            r@ == "[redacted]"@,
    {
        String::from_str("[redacted]")
    }
}

/// An access token issued by the authorization server. No display path;
/// `secret` reveals the raw value.
#[derive(Clone, PartialEq, Eq)]
pub struct AccessToken(String);

impl View for AccessToken {
    type V = Seq<char>;

    closed spec fn view(&self) -> Seq<char> {
        self.0@
    }
}

impl AccessToken {
    /// Wraps an access token.
    pub fn new(s: String) -> (r: Self)
        ensures
            r@ == s@,
    {
        AccessToken(s)
    }

    /// Reveals the raw token.
    pub fn secret(&self) -> (r: &String)
        ensures
            r@ == self@,
    {
        &self.0
    }

    /// The fixed placeholder shown instead of the token's content.
    pub fn redacted(&self) -> (r: String)
        ensures
            r@ == "[redacted]"@,
    {
        String::from_str("[redacted]")
    }
}

/// A refresh token. No display path; `secret` reveals the raw value.
#[derive(Clone, PartialEq, Eq)]
pub struct RefreshToken(String);

impl View for RefreshToken {
    type V = Seq<char>;

    closed spec fn view(&self) -> Seq<char> {
        self.0@
    }
}

impl RefreshToken {
    /// Wraps a refresh token.
    pub fn new(s: String) -> (r: Self)
        ensures
            r@ == s@,
    {
        RefreshToken(s)
    }

    /// Reveals the raw token.
    pub fn secret(&self) -> (r: &String)
        ensures
            r@ == self@,
    {
        &self.0
    }

    /// The fixed placeholder shown instead of the token's content.
    pub fn redacted(&self) -> (r: String)
        ensures
            r@ == "[redacted]"@,
    {
        String::from_str("[redacted]")
    }
}

/// An authorization code returned to the redirect URI; single-use. No display
/// path; `secret` reveals the raw value.
#[derive(Clone, PartialEq, Eq)]
pub struct AuthorizationCode(String);

impl View for AuthorizationCode {
    type V = Seq<char>;

    closed spec fn view(&self) -> Seq<char> {
        self.0@
    }
}

impl AuthorizationCode {
    /// Wraps an authorization code.
    pub fn new(s: String) -> (r: Self)
        ensures
            r@ == s@,
    {
        AuthorizationCode(s)
    }

    /// Reveals the raw code.
    pub fn secret(&self) -> (r: &String)
        ensures
            r@ == self@,
    {
        &self.0
    }

    /// The fixed placeholder shown instead of the code's content.
    pub fn redacted(&self) -> (r: String)
        ensures
            r@ == "[redacted]"@,
    {
        String::from_str("[redacted]")
    }
}

/// A PKCE code verifier (RFC 7636). No display path; `secret` reveals the
/// raw value.
#[derive(Clone, PartialEq, Eq)]
pub struct PkceCodeVerifier(String);

impl View for PkceCodeVerifier {
    type V = Seq<char>;

    closed spec fn view(&self) -> Seq<char> {
        self.0@
    }
}

impl PkceCodeVerifier {
    /// Wraps a code verifier.
    pub fn new(s: String) -> (r: Self)
        ensures
            r@ == s@,
    {
        PkceCodeVerifier(s)
    }

    /// Reveals the raw verifier.
    pub fn secret(&self) -> (r: &String)
        ensures
            r@ == self@,
    {
        &self.0
    }

    /// The fixed placeholder shown instead of the verifier's content.
    pub fn redacted(&self) -> (r: String)
        ensures
            r@ == "[redacted]"@,
    {
        String::from_str("[redacted]")
    }
}

/// The resource owner's password, for the password grant. No display path;
/// `secret` reveals the raw value.
#[derive(Clone, PartialEq, Eq)]
pub struct ResourceOwnerPassword(String);

impl View for ResourceOwnerPassword {
    type V = Seq<char>;

    closed spec fn view(&self) -> Seq<char> {
        self.0@
    }
}

impl ResourceOwnerPassword {
    /// Wraps a password.
    pub fn new(s: String) -> (r: Self)
        ensures
            r@ == s@,
    {
        ResourceOwnerPassword(s)
    }

    /// Reveals the raw password.
    pub fn secret(&self) -> (r: &String)
        ensures
            r@ == self@,
    {
        &self.0
    }

    /// The fixed placeholder shown instead of the password's content.
    pub fn redacted(&self) -> (r: String)
        ensures
            r@ == "[redacted]"@,
    {
        String::from_str("[redacted]")
    }
}

/// The device verification code of the Device Authorization Grant (RFC 8628).
/// No display path; `secret` reveals the raw value.
#[derive(Clone, PartialEq, Eq)]
pub struct DeviceCode(String);

impl View for DeviceCode {
    type V = Seq<char>;

    closed spec fn view(&self) -> Seq<char> {
        self.0@
    }
}

impl DeviceCode {
    /// Wraps a device code.
    pub fn new(s: String) -> (r: Self)
        ensures
            r@ == s@,
    {
        DeviceCode(s)
    }

    /// Reveals the raw code.
    pub fn secret(&self) -> (r: &String)
        ensures
            r@ == self@,
    {
        &self.0
    }

    /// The fixed placeholder shown instead of the code's content.
    pub fn redacted(&self) -> (r: String)
        ensures
            r@ == "[redacted]"@,
    {
        String::from_str("[redacted]")
    }
}

/// The end-user verification code of the Device Authorization Grant. No
/// display path; `secret` reveals the raw value.
#[derive(Clone, PartialEq, Eq)]
pub struct UserCode(String);

impl View for UserCode {
    type V = Seq<char>;

    closed spec fn view(&self) -> Seq<char> {
        self.0@
    }
}

impl UserCode {
    /// Wraps a user code.
    pub fn new(s: String) -> (r: Self)
        ensures
            r@ == s@,
    {
        UserCode(s)
    }

    /// Reveals the raw code.
    pub fn secret(&self) -> (r: &String)
        ensures
            r@ == self@,
    {
        &self.0
    }

    /// The fixed placeholder shown instead of the code's content.
    pub fn redacted(&self) -> (r: String)
        ensures
            r@ == "[redacted]"@,
    {
        String::from_str("[redacted]")
    }
}

/// The opaque `state` value that protects the authorization request against
/// cross-site request forgery. No display path; `secret` reveals the raw
/// value.
#[derive(Clone, PartialEq, Eq)]
pub struct CsrfToken(String);

impl View for CsrfToken {
    type V = Seq<char>;

    closed spec fn view(&self) -> Seq<char> {
        self.0@
    }
}

impl CsrfToken {
    /// Wraps a state value. Callers should use a fresh, unpredictable value
    /// for each authorization request.
    pub fn new(s: String) -> (r: Self)
        ensures
            r@ == s@,
    {
        CsrfToken(s)
    }

    /// Reveals the raw state value.
    pub fn secret(&self) -> (r: &String)
        ensures
            r@ == self@,
    {
        &self.0
    }

    /// The fixed placeholder shown instead of the value's content.
    pub fn redacted(&self) -> (r: String)
        ensures
            r@ == "[redacted]"@,
    {
        String::from_str("[redacted]")
    }
}

/// A PKCE code challenge (RFC 7636), sent on the authorization request and
/// bound to the verifier sent on the code exchange.
#[derive(Clone, Debug, PartialEq, Eq)]
pub struct PkceCodeChallenge {
    code_challenge: String,
    code_challenge_method: PkceCodeChallengeMethod,
}

impl View for PkceCodeChallenge {
    /// The challenge string and the method name.
    type V = (Seq<char>, Seq<char>);

    closed spec fn view(&self) -> (Seq<char>, Seq<char>) {
        (self.code_challenge@, self.code_challenge_method@)
    }
}

impl PkceCodeChallenge {
    /// Wraps a challenge computed elsewhere, together with its method.
    pub fn new(code_challenge: String, code_challenge_method: PkceCodeChallengeMethod) -> (r: Self)
        ensures
            r@ == (code_challenge@, code_challenge_method@),
    {
        PkceCodeChallenge { code_challenge, code_challenge_method }
    }

    /// The `plain` challenge of RFC 7636: the challenge equals the verifier.
    pub fn from_code_verifier_plain(verifier: &PkceCodeVerifier) -> (r: Self)
        ensures
            r@ == (verifier@, "plain"@),
    {
        PkceCodeChallenge {
            code_challenge: verifier.secret().clone(),
            code_challenge_method: PkceCodeChallengeMethod::plain(),
        }
    }

    /// The challenge as a string slice.
    pub fn as_str(&self) -> (r: &str)
        ensures
            r@ == self@.0,
    {
        self.code_challenge.as_str()
    }

    /// The challenge method.
    pub fn method(&self) -> (r: &PkceCodeChallengeMethod)
        ensures
            r@ == self@.1,
    {
        &self.code_challenge_method
    }
}

/// The authorization endpoint URL; validated at construction.
#[derive(Clone, Debug, PartialEq, Eq)]
pub struct AuthUrl(String);

impl View for AuthUrl {
    type V = Seq<char>;

    closed spec fn view(&self) -> Seq<char> {
        self.0@
    }
}

impl AuthUrl {
    /// Validates and wraps an authorization endpoint URL.
    pub fn new(url: String) -> (r: Result<Self, UrlParseError>)
        ensures
            r is Ok <==> is_valid_url(url@),
            r matches Ok(u) ==> u@ == url@,
    {
        if crate::ext::url_is_valid(url.as_str()) {
            Ok(AuthUrl(url))
        } else {
            Err(UrlParseError)
        }
    }

    /// The URL as a string slice.
    pub fn as_str(&self) -> (r: &str)
        ensures
            r@ == self@,
    {
        self.0.as_str()
    }
}

/// The token endpoint URL; validated at construction.
#[derive(Clone, Debug, PartialEq, Eq)]
pub struct TokenUrl(String);

impl View for TokenUrl {
    type V = Seq<char>;

    closed spec fn view(&self) -> Seq<char> {
        self.0@
    }
}

impl TokenUrl {
    /// Validates and wraps a token endpoint URL.
    pub fn new(url: String) -> (r: Result<Self, UrlParseError>)
        ensures
            r is Ok <==> is_valid_url(url@),
            r matches Ok(u) ==> u@ == url@,
    {
        if crate::ext::url_is_valid(url.as_str()) {
            Ok(TokenUrl(url))
        } else {
            Err(UrlParseError)
        }
    }

    /// The URL as a string slice.
    pub fn as_str(&self) -> (r: &str)
        ensures
            r@ == self@,
    {
        self.0.as_str()
    }
}

/// The token introspection endpoint URL (RFC 7662); validated at construction.
#[derive(Clone, Debug, PartialEq, Eq)]
pub struct IntrospectUrl(String);

impl View for IntrospectUrl {
    type V = Seq<char>;

    closed spec fn view(&self) -> Seq<char> {
        self.0@
    }
}

impl IntrospectUrl {
    /// Validates and wraps an introspection endpoint URL.
    pub fn new(url: String) -> (r: Result<Self, UrlParseError>)
        ensures
            r is Ok <==> is_valid_url(url@),
            r matches Ok(u) ==> u@ == url@,
    {
        if crate::ext::url_is_valid(url.as_str()) {
            Ok(IntrospectUrl(url))
        } else {
            Err(UrlParseError)
        }
    }

    /// The URL as a string slice.
    pub fn as_str(&self) -> (r: &str)
        ensures
            r@ == self@,
    {
        self.0.as_str()
    }
}

/// The device authorization endpoint URL (RFC 8628); validated at
/// construction.
#[derive(Clone, Debug, PartialEq, Eq)]
pub struct DeviceAuthorizationUrl(String);

impl View for DeviceAuthorizationUrl {
    type V = Seq<char>;

    closed spec fn view(&self) -> Seq<char> {
        self.0@
    }
}

impl DeviceAuthorizationUrl {
    /// Validates and wraps a device authorization endpoint URL.
    pub fn new(url: String) -> (r: Result<Self, UrlParseError>)
        ensures
            r is Ok <==> is_valid_url(url@),
            r matches Ok(u) ==> u@ == url@,
    {
        if crate::ext::url_is_valid(url.as_str()) {
            Ok(DeviceAuthorizationUrl(url))
        } else {
            Err(UrlParseError)
        }
    }

    /// The URL as a string slice.
    pub fn as_str(&self) -> (r: &str)
        ensures
            r@ == self@,
    {
        self.0.as_str()
    }
}

/// The client's redirect URL; validated at construction.
#[derive(Clone, Debug, PartialEq, Eq)]
pub struct RedirectUrl(String);

impl View for RedirectUrl {
    type V = Seq<char>;

    closed spec fn view(&self) -> Seq<char> {
        self.0@
    }
}

impl RedirectUrl {
    /// Validates and wraps a redirect URL.
    pub fn new(url: String) -> (r: Result<Self, UrlParseError>)
        ensures
            r is Ok <==> is_valid_url(url@),
            r matches Ok(u) ==> u@ == url@,
    {
        if crate::ext::url_is_valid(url.as_str()) {
            Ok(RedirectUrl(url))
        } else {
            Err(UrlParseError)
        }
    }

    /// The URL as a string slice.
    pub fn as_str(&self) -> (r: &str)
        ensures
            r@ == self@,
    {
        self.0.as_str()
    }
}

/// The end-user verification URL of the Device Authorization Grant; validated
/// at construction.
#[derive(Clone, Debug, PartialEq, Eq)]
pub struct EndUserVerificationUrl(String);

impl View for EndUserVerificationUrl {
    type V = Seq<char>;

    closed spec fn view(&self) -> Seq<char> {
        self.0@
    }
}

impl EndUserVerificationUrl {
    /// Validates and wraps an end-user verification URL.
    pub fn new(url: String) -> (r: Result<Self, UrlParseError>)
        ensures
            r is Ok <==> is_valid_url(url@),
            r matches Ok(u) ==> u@ == url@,
    {
        if crate::ext::url_is_valid(url.as_str()) {
            Ok(EndUserVerificationUrl(url))
        } else {
            Err(UrlParseError)
        }
    }

    /// The URL as a string slice.
    pub fn as_str(&self) -> (r: &str)
        ensures
            r@ == self@,
    {
        self.0.as_str()
    }
}

} // verus!
