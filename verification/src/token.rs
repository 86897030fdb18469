//! The token model: the token-type enumeration contract, extra-field
//! extension point, the token-response contract of RFC 6749 section 5.1, and
//! the standard response shape with its decoding and serialization.

use vstd::prelude::*;
use vstd::string::StringExecFns;

use crate::decode::{
    opt_str_field, opt_u64_field, req_str_field, scopes_view, split_scopes, split_sp,
    FromJsonBody,
};
use crate::emit::{json_str, json_str_push, json_u64};
use crate::ext::{json_top_of, JsonScalar};
use crate::helpers::push_dec;
use crate::types::{AccessToken, RefreshToken, Scope};

verus! {

/// The token-type enumeration of RFC 6749 section 7.1. Decoding is
/// case-insensitive, since providers vary the casing of values such as
/// `bearer`; serialization gives the canonical lowercase spelling.
pub trait TokenType: Sized {
    /// The token type a wire spelling decodes to, if any.
    spec fn spec_from_wire(s: Seq<char>) -> Option<Self>;

    /// The wire spelling of this token type.
    spec fn spec_wire(&self) -> Seq<char>;

    /// Decodes a wire spelling, case-insensitively.
    fn from_wire(s: &str) -> (r: Option<Self>)
        ensures
            r == Self::spec_from_wire(s@),
    ;

    /// Serializes this token type.
    fn to_wire(&self) -> (r: String)
        ensures
            r@ == self.spec_wire(),
    ;
}

/// Extra top-level members that a provider adds to a token response, decoded
/// from the same object as the standard members.
pub trait ExtraTokenFields: Sized {
    /// Whether the members decode to a value of this type.
    spec fn fields_decode(ms: Seq<(String, JsonScalar)>) -> bool;

    /// Whether `v` is the decoding of the members.
    spec fn fields_decode_to(ms: Seq<(String, JsonScalar)>, v: Self) -> bool;

    /// Decodes the extra fields from the object's members.
    fn from_fields(ms: &Vec<(String, JsonScalar)>) -> (r: Result<Self, String>)
        ensures
            match r {
                Ok(v) => Self::fields_decode(ms@) && Self::fields_decode_to(ms@, v),
                Err(_) => !Self::fields_decode(ms@),
            },
    ;
}

/// Empty (default) extra token fields.
#[derive(Clone, Debug, PartialEq, Eq, Structural)]
pub struct EmptyExtraTokenFields {}

impl ExtraTokenFields for EmptyExtraTokenFields {
    open spec fn fields_decode(ms: Seq<(String, JsonScalar)>) -> bool {
        true
    }

    open spec fn fields_decode_to(ms: Seq<(String, JsonScalar)>, v: Self) -> bool {
        true
    }

    fn from_fields(ms: &Vec<(String, JsonScalar)>) -> (r: Result<Self, String>) {
        Ok(EmptyExtraTokenFields {})
    }
}

/// The token-response contract of RFC 6749 section 5.1: what every
/// token-endpoint success value exposes, whatever concrete shape a provider
/// uses.
pub trait TokenResponse<TT: TokenType>: FromJsonBody {
    /// The access token's characters.
    spec fn spec_access_token(&self) -> Seq<char>;

    /// The token type.
    spec fn spec_token_type(&self) -> TT;

    /// The lifetime of the token in seconds, when given.
    spec fn spec_expires_in(&self) -> Option<u64>;

    /// The refresh token's characters, when given.
    spec fn spec_refresh_token(&self) -> Option<Seq<char>>;

    /// The scopes of the token, when given.
    spec fn spec_scopes(&self) -> Option<Seq<Seq<char>>>;

    /// REQUIRED. The access token issued by the authorization server.
    fn access_token(&self) -> (r: &AccessToken)
        ensures
            r@ == self.spec_access_token(),
    ;

    /// REQUIRED. The type of the issued token; decoded case-insensitively.
    fn token_type(&self) -> (r: &TT)
        ensures
            *r == self.spec_token_type(),
    ;

    /// RECOMMENDED. The lifetime of the access token, in seconds.
    fn expires_in(&self) -> (r: Option<u64>)
        ensures
            r == self.spec_expires_in(),
    ;

    /// OPTIONAL. The refresh token usable to obtain new access tokens.
    fn refresh_token(&self) -> (r: Option<&RefreshToken>)
        ensures
            match r {
                Some(t) => self.spec_refresh_token() == Some(t@),
                None => self.spec_refresh_token() is None,
            },
    ;

    /// OPTIONAL. The scope of the access token, parsed from the
    /// space-delimited wire form; `None` when the response omitted it.
    fn scopes(&self) -> (r: Option<&Vec<Scope>>)
        ensures
            match r {
                Some(v) => self.spec_scopes() == Some(scopes_view(v@)),
                None => self.spec_scopes() is None,
            },
    ;
}

/// The standard token response of RFC 6749 section 5.1, extended by `EF`.
#[derive(Clone, PartialEq, Eq)]
pub struct StandardTokenResponse<EF: ExtraTokenFields, TT: TokenType> {
    access_token: AccessToken,
    token_type: TT,
    expires_in: Option<u64>,
    refresh_token: Option<RefreshToken>,
    scopes: Option<Vec<Scope>>,
    extra_fields: EF,
}

/// Whether the members of a parsed body form a standard token response:
/// string `access_token`, a known `token_type`, optional integer
/// `expires_in`, optional string `refresh_token` and `scope`, and whatever
/// the extra fields ask.
pub open spec fn token_members_decode<EF: ExtraTokenFields, TT: TokenType>(
    ms: Seq<(String, JsonScalar)>,
) -> bool {
    &&& req_str_field(ms, "access_token"@) is Some
    &&& match req_str_field(ms, "token_type"@) {
        Some(s) => TT::spec_from_wire(s@) is Some,
        None => false,
    }
    &&& opt_u64_field(ms, "expires_in"@) is Some
    &&& opt_str_field(ms, "refresh_token"@) is Some
    &&& opt_str_field(ms, "scope"@) is Some
    &&& EF::fields_decode(ms)
}

impl<EF: ExtraTokenFields, TT: TokenType> StandardTokenResponse<EF, TT> {
    /// Whether `self` carries exactly what the members prescribe: the
    /// access token's and refresh token's characters, the decoded token
    /// type, the seconds of `expires_in`, and the space-split scopes.
    pub closed spec fn matches_members(&self, ms: Seq<(String, JsonScalar)>) -> bool {
        &&& match req_str_field(ms, "access_token"@) {
            Some(at) => self.access_token@ == at@,
            None => false,
        }
        &&& match req_str_field(ms, "token_type"@) {
            Some(s) => TT::spec_from_wire(s@) == Some(self.token_type),
            None => false,
        }
        &&& match opt_u64_field(ms, "expires_in"@) {
            Some(e) => self.expires_in == e,
            None => false,
        }
        &&& match opt_str_field(ms, "refresh_token"@) {
            Some(None) => self.refresh_token is None,
            Some(Some(rt)) => match self.refresh_token {
                Some(vrt) => vrt@ == rt@,
                None => false,
            },
            None => false,
        }
        &&& match opt_str_field(ms, "scope"@) {
            Some(None) => self.scopes is None,
            Some(Some(sc)) => match self.scopes {
                Some(vs) => scopes_view(vs@) == split_sp(sc@),
                None => false,
            },
            None => false,
        }
        &&& EF::fields_decode_to(ms, self.extra_fields)
    }

    /// The extra fields' value.
    pub closed spec fn spec_extra_fields(&self) -> EF {
        self.extra_fields
    }

    /// Assembles a token response from its required parts; the optional
    /// parts start absent.
    pub fn new(access_token: AccessToken, token_type: TT, extra_fields: EF) -> (r: Self)
        ensures
            r.spec_access_token() == access_token@,
            r.spec_token_type() == token_type,
            r.spec_expires_in() is None,
            r.spec_refresh_token() is None,
            r.spec_scopes() is None,
            r.spec_extra_fields() == extra_fields,
    {
        StandardTokenResponse {
            access_token,
            token_type,
            expires_in: None,
            refresh_token: None,
            scopes: None,
            extra_fields,
        }
    }

    /// Replaces the `access_token` field.
    pub fn set_access_token(&mut self, access_token: AccessToken)
        ensures
            final(self).spec_access_token() == access_token@,
            final(self).spec_token_type() == old(self).spec_token_type(),
            final(self).spec_expires_in() == old(self).spec_expires_in(),
            final(self).spec_refresh_token() == old(self).spec_refresh_token(),
            final(self).spec_scopes() == old(self).spec_scopes(),
            final(self).spec_extra_fields() == old(self).spec_extra_fields(),
    {
        self.access_token = access_token;
    }

    /// Replaces the `token_type` field.
    pub fn set_token_type(&mut self, token_type: TT)
        ensures
            final(self).spec_token_type() == token_type,
            final(self).spec_access_token() == old(self).spec_access_token(),
            final(self).spec_expires_in() == old(self).spec_expires_in(),
            final(self).spec_refresh_token() == old(self).spec_refresh_token(),
            final(self).spec_scopes() == old(self).spec_scopes(),
            final(self).spec_extra_fields() == old(self).spec_extra_fields(),
    {
        self.token_type = token_type;
    }

    /// Replaces the `expires_in` field, in seconds.
    pub fn set_expires_in(&mut self, expires_in: Option<u64>)
        ensures
            final(self).spec_expires_in() == expires_in,
            final(self).spec_access_token() == old(self).spec_access_token(),
            final(self).spec_token_type() == old(self).spec_token_type(),
            final(self).spec_refresh_token() == old(self).spec_refresh_token(),
            final(self).spec_scopes() == old(self).spec_scopes(),
            final(self).spec_extra_fields() == old(self).spec_extra_fields(),
    {
        self.expires_in = expires_in;
    }

    /// Replaces the `refresh_token` field.
    pub fn set_refresh_token(&mut self, refresh_token: Option<RefreshToken>)
        ensures
            match refresh_token {
                Some(t) => final(self).spec_refresh_token() == Some(t@),
                None => final(self).spec_refresh_token() is None,
            },
            final(self).spec_access_token() == old(self).spec_access_token(),
            final(self).spec_token_type() == old(self).spec_token_type(),
            final(self).spec_expires_in() == old(self).spec_expires_in(),
            final(self).spec_scopes() == old(self).spec_scopes(),
            final(self).spec_extra_fields() == old(self).spec_extra_fields(),
    {
        self.refresh_token = refresh_token;
    }

    /// Replaces the `scopes` field.
    pub fn set_scopes(&mut self, scopes: Option<Vec<Scope>>)
        ensures
            match scopes {
                Some(v) => final(self).spec_scopes() == Some(scopes_view(v@)),
                None => final(self).spec_scopes() is None,
            },
            final(self).spec_access_token() == old(self).spec_access_token(),
            final(self).spec_token_type() == old(self).spec_token_type(),
            final(self).spec_expires_in() == old(self).spec_expires_in(),
            final(self).spec_refresh_token() == old(self).spec_refresh_token(),
            final(self).spec_extra_fields() == old(self).spec_extra_fields(),
    {
        self.scopes = scopes;
    }

    /// The extra fields defined by the client application.
    pub fn extra_fields(&self) -> (r: &EF)
        ensures
            *r == self.spec_extra_fields(),
    {
        &self.extra_fields
    }

    /// Replaces the extra fields.
    pub fn set_extra_fields(&mut self, extra_fields: EF)
        ensures
            final(self).spec_extra_fields() == extra_fields,
            final(self).spec_access_token() == old(self).spec_access_token(),
            final(self).spec_token_type() == old(self).spec_token_type(),
            final(self).spec_expires_in() == old(self).spec_expires_in(),
            final(self).spec_refresh_token() == old(self).spec_refresh_token(),
            final(self).spec_scopes() == old(self).spec_scopes(),
    {
        self.extra_fields = extra_fields;
    }
}

impl<EF: ExtraTokenFields, TT: TokenType> FromJsonBody for StandardTokenResponse<EF, TT> {
    open spec fn json_decodes(body: Seq<u8>) -> bool {
        match json_top_of(body) {
            Some(ms) => token_members_decode::<EF, TT>(ms),
            None => false,
        }
    }

    open spec fn decodes_to(body: Seq<u8>, v: Self) -> bool {
        match json_top_of(body) {
            Some(ms) => token_members_decode::<EF, TT>(ms) && v.matches_members(ms),
            None => false,
        }
    }

    fn from_json_body(body: &[u8]) -> (r: Result<Self, String>) {
        let ms = match crate::ext::parse_json_top(body) {
            Ok(ms) => ms,
            Err(e) => return Err(e),
        };
        let access_token = match crate::decode::get_req_str(&ms, "access_token") {
            Some(s) => AccessToken::new(s),
            None => return Err(String::from_str("missing or malformed access_token field")),
        };
        let tt_wire = match crate::decode::get_req_str(&ms, "token_type") {
            Some(s) => s,
            None => return Err(String::from_str("missing or malformed token_type field")),
        };
        let token_type = match TT::from_wire(tt_wire.as_str()) {
            Some(t) => t,
            None => return Err(String::from_str("unknown token_type value")),
        };
        let expires_in = match crate::decode::get_opt_u64(&ms, "expires_in") {
            Ok(e) => e,
            Err(_) => return Err(String::from_str("malformed expires_in field")),
        };
        let refresh_token = match crate::decode::get_opt_str(&ms, "refresh_token") {
            Ok(Some(s)) => Some(RefreshToken::new(s)),
            Ok(None) => None,
            Err(_) => return Err(String::from_str("malformed refresh_token field")),
        };
        let scopes = match crate::decode::get_opt_str(&ms, "scope") {
            Ok(Some(s)) => Some(split_scopes(s.as_str())),
            Ok(None) => None,
            Err(_) => return Err(String::from_str("malformed scope field")),
        };
        let extra_fields = match EF::from_fields(&ms) {
            Ok(ef) => ef,
            Err(e) => return Err(e),
        };
        Ok(
            StandardTokenResponse {
                access_token,
                token_type,
                expires_in,
                refresh_token,
                scopes,
                extra_fields,
            },
        )
    }
}

impl<EF: ExtraTokenFields, TT: TokenType> TokenResponse<TT> for StandardTokenResponse<EF, TT> {
    closed spec fn spec_access_token(&self) -> Seq<char> {
        self.access_token@
    }

    closed spec fn spec_token_type(&self) -> TT {
        self.token_type
    }

    closed spec fn spec_expires_in(&self) -> Option<u64> {
        self.expires_in
    }

    closed spec fn spec_refresh_token(&self) -> Option<Seq<char>> {
        match self.refresh_token {
            Some(t) => Some(t@),
            None => None,
        }
    }

    closed spec fn spec_scopes(&self) -> Option<Seq<Seq<char>>> {
        match self.scopes {
            Some(v) => Some(scopes_view(v@)),
            None => None,
        }
    }

    fn access_token(&self) -> (r: &AccessToken) {
        &self.access_token
    }

    fn token_type(&self) -> (r: &TT) {
        &self.token_type
    }

    fn expires_in(&self) -> (r: Option<u64>) {
        self.expires_in
    }

    fn refresh_token(&self) -> (r: Option<&RefreshToken>) {
        self.refresh_token.as_ref()
    }

    fn scopes(&self) -> (r: Option<&Vec<Scope>>) {
        self.scopes.as_ref()
    }
}

/// The wire serialization of a standard token response: a JSON object with
/// `access_token` and `token_type`, then `expires_in`, `refresh_token`, and
/// the space-joined `scope` when present.
pub open spec fn token_json(
    access_token: Seq<char>,
    token_type_wire: Seq<char>,
    expires_in: Option<u64>,
    refresh_token: Option<Seq<char>>,
    scope: Option<Seq<char>>,
) -> Seq<u8> {
    seq![0x7bu8] + json_str("access_token"@) + seq![0x3au8] + json_str(access_token) + seq![0x2cu8]
        + json_str("token_type"@) + seq![0x3au8] + json_str(token_type_wire) + (match expires_in {
        Some(n) => seq![0x2cu8] + json_str("expires_in"@) + seq![0x3au8] + json_u64(n),
        None => Seq::<u8>::empty(),
    }) + (match refresh_token {
        Some(rt) => seq![0x2cu8] + json_str("refresh_token"@) + seq![0x3au8] + json_str(rt),
        None => Seq::<u8>::empty(),
    }) + (match scope {
        Some(sc) => seq![0x2cu8] + json_str("scope"@) + seq![0x3au8] + json_str(sc),
        None => Seq::<u8>::empty(),
    }) + seq![0x7du8]
}

impl<TT: TokenType> StandardTokenResponse<EmptyExtraTokenFields, TT> {
    /// Serializes this response to its JSON wire form, the scopes joined by
    /// single spaces.
    #[verifier::rlimit(80)]
    pub fn to_json(&self) -> (r: Vec<u8>)
        ensures
            r@ == token_json(
                self.spec_access_token(),
                self.spec_token_type().spec_wire(),
                self.spec_expires_in(),
                self.spec_refresh_token(),
                match self.spec_scopes() {
                    Some(vs) => Some(crate::decode::join_sp(vs)),
                    None => None,
                },
            ),
    {
        let mut out: Vec<u8> = Vec::new();
        out.push(0x7b);
        json_str_push("access_token", &mut out);
        out.push(0x3a);
        json_str_push(self.access_token.secret().as_str(), &mut out);
        out.push(0x2c);
        json_str_push("token_type", &mut out);
        out.push(0x3a);
        let tw = self.token_type.to_wire();
        json_str_push(tw.as_str(), &mut out);
        match self.expires_in {
            Some(n) => {
                out.push(0x2c);
                json_str_push("expires_in", &mut out);
                out.push(0x3a);
                push_dec(n, &mut out);
            },
            None => {},
        }
        match self.refresh_token.as_ref() {
            Some(rt) => {
                out.push(0x2c);
                json_str_push("refresh_token", &mut out);
                out.push(0x3a);
                json_str_push(rt.secret().as_str(), &mut out);
            },
            None => {},
        }
        match self.scopes.as_ref() {
            Some(vs) => {
                out.push(0x2c);
                json_str_push("scope", &mut out);
                out.push(0x3a);
                let joined = crate::decode::join_scopes(vs);
                json_str_push(joined.as_str(), &mut out);
            },
            None => {},
        }
        out.push(0x7d);
        proof {
            assert(out@ =~= token_json(
                self.spec_access_token(),
                self.spec_token_type().spec_wire(),
                self.spec_expires_in(),
                self.spec_refresh_token(),
                match self.spec_scopes() {
                    Some(vs) => Some(crate::decode::join_sp(vs)),
                    None => None,
                },
            ));
        }
        out
    }
}

} // verus!
