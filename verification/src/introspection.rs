//! Token introspection (RFC 7662): the inspection-response contract, and the
//! standard response shape with its decoding.

use vstd::prelude::*;
use vstd::string::StringExecFns;

use crate::decode::{
    opt_i64_field, opt_str_field, opt_strlist_field, req_bool_field, scopes_view, split_scopes,
    split_sp, FromJsonBody,
};
use crate::ext::{json_top_of, JsonScalar};
use crate::token::{ExtraTokenFields, TokenType};
use crate::types::{ClientId, Scope};

verus! {

/// The character views of a string list.
pub open spec fn strings_view(v: Seq<String>) -> Seq<Seq<char>> {
    v.map_values(|s: String| s@)
}

/// The token-inspection contract of RFC 7662 section 2.2: what an
/// introspection success value exposes, whatever concrete shape a provider
/// uses.
pub trait TokenInspectionResponse<TT: TokenType>: FromJsonBody {
    /// Whether the token is active.
    spec fn spec_active(&self) -> bool;

    /// The scopes of the token, when given.
    spec fn spec_scopes(&self) -> Option<Seq<Seq<char>>>;

    /// The client identifier the token was issued to, when given.
    spec fn spec_client_id(&self) -> Option<Seq<char>>;

    /// The resource owner's identifier, when given.
    spec fn spec_username(&self) -> Option<Seq<char>>;

    /// The token's type, when given.
    spec fn spec_token_type(&self) -> Option<TT>;

    /// The expiry timestamp, when given.
    spec fn spec_exp(&self) -> Option<i64>;

    /// The issuance timestamp, when given.
    spec fn spec_iat(&self) -> Option<i64>;

    /// The not-before timestamp, when given.
    spec fn spec_nbf(&self) -> Option<i64>;

    /// The subject, when given.
    spec fn spec_sub(&self) -> Option<Seq<char>>;

    /// The audience, when given.
    spec fn spec_aud(&self) -> Option<Seq<Seq<char>>>;

    /// The issuer, when given.
    spec fn spec_iss(&self) -> Option<Seq<char>>;

    /// The token identifier, when given.
    spec fn spec_jti(&self) -> Option<Seq<char>>;

    /// REQUIRED. Whether the presented token is currently active.
    fn active(&self) -> (r: bool)
        ensures
            r == self.spec_active(),
    ;

    /// OPTIONAL. The scopes associated with this token.
    fn scopes(&self) -> (r: Option<&Vec<Scope>>)
        ensures
            match r {
                Some(v) => self.spec_scopes() == Some(scopes_view(v@)),
                None => self.spec_scopes() is None,
            },
    ;

    /// OPTIONAL. The client identifier the token was issued to.
    fn client_id(&self) -> (r: Option<&ClientId>)
        ensures
            match r {
                Some(c) => self.spec_client_id() == Some(c@),
                None => self.spec_client_id() is None,
            },
    ;

    /// OPTIONAL. A human-readable identifier for the resource owner.
    fn username(&self) -> (r: Option<&str>)
        ensures
            match r {
                Some(u) => self.spec_username() == Some(u@),
                None => self.spec_username() is None,
            },
    ;

    /// OPTIONAL. The type of the token, decoded case-insensitively.
    fn token_type(&self) -> (r: Option<&TT>)
        ensures
            match r {
                Some(t) => self.spec_token_type() == Some(*t),
                None => self.spec_token_type() is None,
            },
    ;

    /// OPTIONAL. When the token expires, in seconds since the Unix epoch.
    fn exp(&self) -> (r: Option<i64>)
        ensures
            r == self.spec_exp(),
    ;

    /// OPTIONAL. When the token was issued, in seconds since the Unix epoch.
    fn iat(&self) -> (r: Option<i64>)
        ensures
            r == self.spec_iat(),
    ;

    /// OPTIONAL. When the token becomes usable, in seconds since the Unix
    /// epoch.
    fn nbf(&self) -> (r: Option<i64>)
        ensures
            r == self.spec_nbf(),
    ;

    /// OPTIONAL. The subject of the token.
    fn sub(&self) -> (r: Option<&str>)
        ensures
            match r {
                Some(s) => self.spec_sub() == Some(s@),
                None => self.spec_sub() is None,
            },
    ;

    /// OPTIONAL. The intended audience of the token.
    fn aud(&self) -> (r: Option<&Vec<String>>)
        ensures
            match r {
                Some(a) => self.spec_aud() == Some(strings_view(a@)),
                None => self.spec_aud() is None,
            },
    ;

    /// OPTIONAL. The issuer of the token.
    fn iss(&self) -> (r: Option<&str>)
        ensures
            match r {
                Some(s) => self.spec_iss() == Some(s@),
                None => self.spec_iss() is None,
            },
    ;

    /// OPTIONAL. A string identifier for the token.
    fn jti(&self) -> (r: Option<&str>)
        ensures
            match r {
                Some(s) => self.spec_jti() == Some(s@),
                None => self.spec_jti() is None,
            },
    ;

}
/// The standard token introspection response of RFC 7662 section 2.2,
/// extended by `EF`. Timestamps are seconds since the Unix epoch, as the
/// wire format carries them.
#[derive(Clone, PartialEq, Eq)]
pub struct StandardTokenInspectionResponse<EF: ExtraTokenFields, TT: TokenType> {
    active: bool,
    scopes: Option<Vec<Scope>>,
    client_id: Option<ClientId>,
    username: Option<String>,
    token_type: Option<TT>,
    exp: Option<i64>,
    iat: Option<i64>,
    nbf: Option<i64>,
    sub: Option<String>,
    aud: Option<Vec<String>>,
    iss: Option<String>,
    jti: Option<String>,
    extra_fields: EF,
}

/// Whether the members of a parsed body form a standard introspection
/// response: a boolean `active`, optional strings for the string-valued
/// claims (a known token type among them), optional integer timestamps, an
/// optional string-or-list `aud`, and whatever the extra fields ask.
pub open spec fn inspection_members_decode<EF: ExtraTokenFields, TT: TokenType>(
    ms: Seq<(String, JsonScalar)>,
) -> bool {
    &&& req_bool_field(ms, "active"@) is Some
    &&& opt_str_field(ms, "scope"@) is Some
    &&& opt_str_field(ms, "client_id"@) is Some
    &&& opt_str_field(ms, "username"@) is Some
    &&& match opt_str_field(ms, "token_type"@) {
        Some(None) => true,
        Some(Some(s)) => TT::spec_from_wire(s@) is Some,
        None => false,
    }
    &&& opt_i64_field(ms, "exp"@) is Some
    &&& opt_i64_field(ms, "iat"@) is Some
    &&& opt_i64_field(ms, "nbf"@) is Some
    &&& opt_str_field(ms, "sub"@) is Some
    &&& opt_strlist_field(ms, "aud"@) is Some
    &&& opt_str_field(ms, "iss"@) is Some
    &&& opt_str_field(ms, "jti"@) is Some
    &&& EF::fields_decode(ms)
}

impl<EF: ExtraTokenFields, TT: TokenType> StandardTokenInspectionResponse<EF, TT> {
    /// Whether `self` carries exactly what the members prescribe.
    pub closed spec fn matches_members(&self, ms: Seq<(String, JsonScalar)>) -> bool {
        &&& req_bool_field(ms, "active"@) == Some(self.active)
        &&& match opt_str_field(ms, "scope"@) {
            Some(None) => self.scopes is None,
            Some(Some(sc)) => match self.scopes {
                Some(vs) => scopes_view(vs@) == split_sp(sc@),
                None => false,
            },
            None => false,
        }
        &&& match opt_str_field(ms, "client_id"@) {
            Some(None) => self.client_id is None,
            Some(Some(c)) => match self.client_id {
                Some(vc) => vc@ == c@,
                None => false,
            },
            None => false,
        }
        &&& match opt_str_field(ms, "username"@) {
            Some(None) => self.username is None,
            Some(Some(u)) => match self.username {
                Some(vu) => vu@ == u@,
                None => false,
            },
            None => false,
        }
        &&& match opt_str_field(ms, "token_type"@) {
            Some(None) => self.token_type is None,
            Some(Some(s)) => match self.token_type {
                Some(t) => TT::spec_from_wire(s@) == Some(t),
                None => false,
            },
            None => false,
        }
        &&& match opt_i64_field(ms, "exp"@) {
            Some(e) => self.exp == e,
            None => false,
        }
        &&& match opt_i64_field(ms, "iat"@) {
            Some(e) => self.iat == e,
            None => false,
        }
        &&& match opt_i64_field(ms, "nbf"@) {
            Some(e) => self.nbf == e,
            None => false,
        }
        &&& match opt_str_field(ms, "sub"@) {
            Some(None) => self.sub is None,
            Some(Some(s)) => match self.sub {
                Some(vs) => vs@ == s@,
                None => false,
            },
            None => false,
        }
        &&& match opt_strlist_field(ms, "aud"@) {
            Some(None) => self.aud is None,
            Some(Some(a)) => match self.aud {
                Some(va) => strings_view(va@) == strings_view(a),
                None => false,
            },
            None => false,
        }
        &&& match opt_str_field(ms, "iss"@) {
            Some(None) => self.iss is None,
            Some(Some(s)) => match self.iss {
                Some(vs) => vs@ == s@,
                None => false,
            },
            None => false,
        }
        &&& match opt_str_field(ms, "jti"@) {
            Some(None) => self.jti is None,
            Some(Some(s)) => match self.jti {
                Some(vs) => vs@ == s@,
                None => false,
            },
            None => false,
        }
        &&& EF::fields_decode_to(ms, self.extra_fields)
    }

    /// The extra fields' value.
    pub closed spec fn spec_extra_fields(&self) -> EF {
        self.extra_fields
    }

    /// Assembles an introspection response from the required `active` flag;
    /// every claim starts absent.
    pub fn new(active: bool, extra_fields: EF) -> (r: Self)
        ensures
            r.spec_active() == active,
            r.spec_scopes() is None,
            r.spec_client_id() is None,
            r.spec_username() is None,
            r.spec_token_type() is None,
            r.spec_exp() is None,
            r.spec_iat() is None,
            r.spec_nbf() is None,
            r.spec_sub() is None,
            r.spec_aud() is None,
            r.spec_iss() is None,
            r.spec_jti() is None,
            r.spec_extra_fields() == extra_fields,
    {
        StandardTokenInspectionResponse {
            active,
            scopes: None,
            client_id: None,
            username: None,
            token_type: None,
            exp: None,
            iat: None,
            nbf: None,
            sub: None,
            aud: None,
            iss: None,
            jti: None,
            extra_fields,
        }
    }

    /// Replaces the `active` field.
    pub fn set_active(&mut self, active: bool)
        ensures
            final(self).spec_active() == active,
            final(self).spec_scopes() == old(self).spec_scopes(),
            final(self).spec_client_id() == old(self).spec_client_id(),
            final(self).spec_username() == old(self).spec_username(),
            final(self).spec_token_type() == old(self).spec_token_type(),
            final(self).spec_exp() == old(self).spec_exp(),
            final(self).spec_iat() == old(self).spec_iat(),
            final(self).spec_nbf() == old(self).spec_nbf(),
            final(self).spec_sub() == old(self).spec_sub(),
            final(self).spec_aud() == old(self).spec_aud(),
            final(self).spec_iss() == old(self).spec_iss(),
            final(self).spec_jti() == old(self).spec_jti(),
            final(self).spec_extra_fields() == old(self).spec_extra_fields(),
    {
        self.active = active;
    }

    /// Replaces the `scopes` field.
    pub fn set_scopes(&mut self, scopes: Option<Vec<Scope>>)
        ensures
            match scopes {
                Some(v) => final(self).spec_scopes() == Some(scopes_view(v@)),
                None => final(self).spec_scopes() is None,
            },
            final(self).spec_active() == old(self).spec_active(),
            final(self).spec_client_id() == old(self).spec_client_id(),
            final(self).spec_username() == old(self).spec_username(),
            final(self).spec_token_type() == old(self).spec_token_type(),
            final(self).spec_exp() == old(self).spec_exp(),
            final(self).spec_iat() == old(self).spec_iat(),
            final(self).spec_nbf() == old(self).spec_nbf(),
            final(self).spec_sub() == old(self).spec_sub(),
            final(self).spec_aud() == old(self).spec_aud(),
            final(self).spec_iss() == old(self).spec_iss(),
            final(self).spec_jti() == old(self).spec_jti(),
            final(self).spec_extra_fields() == old(self).spec_extra_fields(),
    {
        self.scopes = scopes;
    }

    /// Replaces the `client_id` field.
    pub fn set_client_id(&mut self, client_id: Option<ClientId>)
        ensures
            match client_id {
                Some(c) => final(self).spec_client_id() == Some(c@),
                None => final(self).spec_client_id() is None,
            },
            final(self).spec_active() == old(self).spec_active(),
            final(self).spec_scopes() == old(self).spec_scopes(),
            final(self).spec_username() == old(self).spec_username(),
            final(self).spec_token_type() == old(self).spec_token_type(),
            final(self).spec_exp() == old(self).spec_exp(),
            final(self).spec_iat() == old(self).spec_iat(),
            final(self).spec_nbf() == old(self).spec_nbf(),
            final(self).spec_sub() == old(self).spec_sub(),
            final(self).spec_aud() == old(self).spec_aud(),
            final(self).spec_iss() == old(self).spec_iss(),
            final(self).spec_jti() == old(self).spec_jti(),
            final(self).spec_extra_fields() == old(self).spec_extra_fields(),
    {
        self.client_id = client_id;
    }

    /// Replaces the `username` field.
    pub fn set_username(&mut self, username: Option<String>)
        ensures
            match username {
                Some(u) => final(self).spec_username() == Some(u@),
                None => final(self).spec_username() is None,
            },
            final(self).spec_active() == old(self).spec_active(),
            final(self).spec_scopes() == old(self).spec_scopes(),
            final(self).spec_client_id() == old(self).spec_client_id(),
            final(self).spec_token_type() == old(self).spec_token_type(),
            final(self).spec_exp() == old(self).spec_exp(),
            final(self).spec_iat() == old(self).spec_iat(),
            final(self).spec_nbf() == old(self).spec_nbf(),
            final(self).spec_sub() == old(self).spec_sub(),
            final(self).spec_aud() == old(self).spec_aud(),
            final(self).spec_iss() == old(self).spec_iss(),
            final(self).spec_jti() == old(self).spec_jti(),
            final(self).spec_extra_fields() == old(self).spec_extra_fields(),
    {
        self.username = username;
    }

    /// Replaces the `token_type` field.
    pub fn set_token_type(&mut self, token_type: Option<TT>)
        ensures
            final(self).spec_token_type() == token_type,
            final(self).spec_active() == old(self).spec_active(),
            final(self).spec_scopes() == old(self).spec_scopes(),
            final(self).spec_client_id() == old(self).spec_client_id(),
            final(self).spec_username() == old(self).spec_username(),
            final(self).spec_exp() == old(self).spec_exp(),
            final(self).spec_iat() == old(self).spec_iat(),
            final(self).spec_nbf() == old(self).spec_nbf(),
            final(self).spec_sub() == old(self).spec_sub(),
            final(self).spec_aud() == old(self).spec_aud(),
            final(self).spec_iss() == old(self).spec_iss(),
            final(self).spec_jti() == old(self).spec_jti(),
            final(self).spec_extra_fields() == old(self).spec_extra_fields(),
    {
        self.token_type = token_type;
    }

    /// Replaces the `exp` field.
    pub fn set_exp(&mut self, exp: Option<i64>)
        ensures
            final(self).spec_exp() == exp,
            final(self).spec_active() == old(self).spec_active(),
            final(self).spec_scopes() == old(self).spec_scopes(),
            final(self).spec_client_id() == old(self).spec_client_id(),
            final(self).spec_username() == old(self).spec_username(),
            final(self).spec_token_type() == old(self).spec_token_type(),
            final(self).spec_iat() == old(self).spec_iat(),
            final(self).spec_nbf() == old(self).spec_nbf(),
            final(self).spec_sub() == old(self).spec_sub(),
            final(self).spec_aud() == old(self).spec_aud(),
            final(self).spec_iss() == old(self).spec_iss(),
            final(self).spec_jti() == old(self).spec_jti(),
            final(self).spec_extra_fields() == old(self).spec_extra_fields(),
    {
        self.exp = exp;
    }

    /// Replaces the `iat` field.
    pub fn set_iat(&mut self, iat: Option<i64>)
        ensures
            final(self).spec_iat() == iat,
            final(self).spec_active() == old(self).spec_active(),
            final(self).spec_scopes() == old(self).spec_scopes(),
            final(self).spec_client_id() == old(self).spec_client_id(),
            final(self).spec_username() == old(self).spec_username(),
            final(self).spec_token_type() == old(self).spec_token_type(),
            final(self).spec_exp() == old(self).spec_exp(),
            final(self).spec_nbf() == old(self).spec_nbf(),
            final(self).spec_sub() == old(self).spec_sub(),
            final(self).spec_aud() == old(self).spec_aud(),
            final(self).spec_iss() == old(self).spec_iss(),
            final(self).spec_jti() == old(self).spec_jti(),
            final(self).spec_extra_fields() == old(self).spec_extra_fields(),
    {
        self.iat = iat;
    }

    /// Replaces the `nbf` field.
    pub fn set_nbf(&mut self, nbf: Option<i64>)
        ensures
            final(self).spec_nbf() == nbf,
            final(self).spec_active() == old(self).spec_active(),
            final(self).spec_scopes() == old(self).spec_scopes(),
            final(self).spec_client_id() == old(self).spec_client_id(),
            final(self).spec_username() == old(self).spec_username(),
            final(self).spec_token_type() == old(self).spec_token_type(),
            final(self).spec_exp() == old(self).spec_exp(),
            final(self).spec_iat() == old(self).spec_iat(),
            final(self).spec_sub() == old(self).spec_sub(),
            final(self).spec_aud() == old(self).spec_aud(),
            final(self).spec_iss() == old(self).spec_iss(),
            final(self).spec_jti() == old(self).spec_jti(),
            final(self).spec_extra_fields() == old(self).spec_extra_fields(),
    {
        self.nbf = nbf;
    }

    /// Replaces the `sub` field.
    pub fn set_sub(&mut self, sub: Option<String>)
        ensures
            match sub {
                Some(s) => final(self).spec_sub() == Some(s@),
                None => final(self).spec_sub() is None,
            },
            final(self).spec_active() == old(self).spec_active(),
            final(self).spec_scopes() == old(self).spec_scopes(),
            final(self).spec_client_id() == old(self).spec_client_id(),
            final(self).spec_username() == old(self).spec_username(),
            final(self).spec_token_type() == old(self).spec_token_type(),
            final(self).spec_exp() == old(self).spec_exp(),
            final(self).spec_iat() == old(self).spec_iat(),
            final(self).spec_nbf() == old(self).spec_nbf(),
            final(self).spec_aud() == old(self).spec_aud(),
            final(self).spec_iss() == old(self).spec_iss(),
            final(self).spec_jti() == old(self).spec_jti(),
            final(self).spec_extra_fields() == old(self).spec_extra_fields(),
    {
        self.sub = sub;
    }

    /// Replaces the `aud` field.
    pub fn set_aud(&mut self, aud: Option<Vec<String>>)
        ensures
            match aud {
                Some(a) => final(self).spec_aud() == Some(strings_view(a@)),
                None => final(self).spec_aud() is None,
            },
            final(self).spec_active() == old(self).spec_active(),
            final(self).spec_scopes() == old(self).spec_scopes(),
            final(self).spec_client_id() == old(self).spec_client_id(),
            final(self).spec_username() == old(self).spec_username(),
            final(self).spec_token_type() == old(self).spec_token_type(),
            final(self).spec_exp() == old(self).spec_exp(),
            final(self).spec_iat() == old(self).spec_iat(),
            final(self).spec_nbf() == old(self).spec_nbf(),
            final(self).spec_sub() == old(self).spec_sub(),
            final(self).spec_iss() == old(self).spec_iss(),
            final(self).spec_jti() == old(self).spec_jti(),
            final(self).spec_extra_fields() == old(self).spec_extra_fields(),
    {
        self.aud = aud;
    }

    /// Replaces the `iss` field.
    pub fn set_iss(&mut self, iss: Option<String>)
        ensures
            match iss {
                Some(s) => final(self).spec_iss() == Some(s@),
                None => final(self).spec_iss() is None,
            },
            final(self).spec_active() == old(self).spec_active(),
            final(self).spec_scopes() == old(self).spec_scopes(),
            final(self).spec_client_id() == old(self).spec_client_id(),
            final(self).spec_username() == old(self).spec_username(),
            final(self).spec_token_type() == old(self).spec_token_type(),
            final(self).spec_exp() == old(self).spec_exp(),
            final(self).spec_iat() == old(self).spec_iat(),
            final(self).spec_nbf() == old(self).spec_nbf(),
            final(self).spec_sub() == old(self).spec_sub(),
            final(self).spec_aud() == old(self).spec_aud(),
            final(self).spec_jti() == old(self).spec_jti(),
            final(self).spec_extra_fields() == old(self).spec_extra_fields(),
    {
        self.iss = iss;
    }

    /// Replaces the `jti` field.
    pub fn set_jti(&mut self, jti: Option<String>)
        ensures
            match jti {
                Some(s) => final(self).spec_jti() == Some(s@),
                None => final(self).spec_jti() is None,
            },
            final(self).spec_active() == old(self).spec_active(),
            final(self).spec_scopes() == old(self).spec_scopes(),
            final(self).spec_client_id() == old(self).spec_client_id(),
            final(self).spec_username() == old(self).spec_username(),
            final(self).spec_token_type() == old(self).spec_token_type(),
            final(self).spec_exp() == old(self).spec_exp(),
            final(self).spec_iat() == old(self).spec_iat(),
            final(self).spec_nbf() == old(self).spec_nbf(),
            final(self).spec_sub() == old(self).spec_sub(),
            final(self).spec_aud() == old(self).spec_aud(),
            final(self).spec_iss() == old(self).spec_iss(),
            final(self).spec_extra_fields() == old(self).spec_extra_fields(),
    {
        self.jti = jti;
    }

    /// Replaces the extra fields.
    pub fn set_extra_fields(&mut self, extra_fields: EF)
        ensures
            final(self).spec_extra_fields() == extra_fields,
            final(self).spec_active() == old(self).spec_active(),
            final(self).spec_scopes() == old(self).spec_scopes(),
            final(self).spec_client_id() == old(self).spec_client_id(),
            final(self).spec_username() == old(self).spec_username(),
            final(self).spec_token_type() == old(self).spec_token_type(),
            final(self).spec_exp() == old(self).spec_exp(),
            final(self).spec_iat() == old(self).spec_iat(),
            final(self).spec_nbf() == old(self).spec_nbf(),
            final(self).spec_sub() == old(self).spec_sub(),
            final(self).spec_aud() == old(self).spec_aud(),
            final(self).spec_iss() == old(self).spec_iss(),
            final(self).spec_jti() == old(self).spec_jti(),
    {
        self.extra_fields = extra_fields;
    }
}

impl<EF: ExtraTokenFields, TT: TokenType> FromJsonBody for StandardTokenInspectionResponse<
    EF,
    TT,
> {
    open spec fn json_decodes(body: Seq<u8>) -> bool {
        match json_top_of(body) {
            Some(ms) => inspection_members_decode::<EF, TT>(ms),
            None => false,
        }
    }

    open spec fn decodes_to(body: Seq<u8>, v: Self) -> bool {
        match json_top_of(body) {
            Some(ms) => inspection_members_decode::<EF, TT>(ms) && v.matches_members(ms),
            None => false,
        }
    }

    fn from_json_body(body: &[u8]) -> (r: Result<Self, String>) {
        let ms = match crate::ext::parse_json_top(body) {
            Ok(ms) => ms,
            Err(e) => return Err(e),
        };
        let active = match crate::decode::get_req_bool(&ms, "active") {
            Some(b) => b,
            None => return Err(String::from_str("missing or malformed active field")),
        };
        let scopes = match crate::decode::get_opt_str(&ms, "scope") {
            Ok(Some(s)) => Some(split_scopes(s.as_str())),
            Ok(None) => None,
            Err(_) => return Err(String::from_str("malformed scope field")),
        };
        let client_id = match crate::decode::get_opt_str(&ms, "client_id") {
            Ok(Some(s)) => Some(ClientId::new(s)),
            Ok(None) => None,
            Err(_) => return Err(String::from_str("malformed client_id field")),
        };
        let username = match crate::decode::get_opt_str(&ms, "username") {
            Ok(u) => u,
            Err(_) => return Err(String::from_str("malformed username field")),
        };
        let token_type = match crate::decode::get_opt_str(&ms, "token_type") {
            Ok(Some(s)) => match TT::from_wire(s.as_str()) {
                Some(t) => Some(t),
                None => return Err(String::from_str("unknown token_type value")),
            },
            Ok(None) => None,
            Err(_) => return Err(String::from_str("malformed token_type field")),
        };
        let exp = match crate::decode::get_opt_i64(&ms, "exp") {
            Ok(e) => e,
            Err(_) => return Err(String::from_str("malformed exp field")),
        };
        let iat = match crate::decode::get_opt_i64(&ms, "iat") {
            Ok(e) => e,
            Err(_) => return Err(String::from_str("malformed iat field")),
        };
        let nbf = match crate::decode::get_opt_i64(&ms, "nbf") {
            Ok(e) => e,
            Err(_) => return Err(String::from_str("malformed nbf field")),
        };
        let sub = match crate::decode::get_opt_str(&ms, "sub") {
            Ok(s) => s,
            Err(_) => return Err(String::from_str("malformed sub field")),
        };
        let aud = match crate::decode::get_opt_strlist(&ms, "aud") {
            Ok(a) => a,
            Err(_) => return Err(String::from_str("malformed aud field")),
        };
        let iss = match crate::decode::get_opt_str(&ms, "iss") {
            Ok(s) => s,
            Err(_) => return Err(String::from_str("malformed iss field")),
        };
        let jti = match crate::decode::get_opt_str(&ms, "jti") {
            Ok(s) => s,
            Err(_) => return Err(String::from_str("malformed jti field")),
        };
        let extra_fields = match EF::from_fields(&ms) {
            Ok(ef) => ef,
            Err(e) => return Err(e),
        };
        Ok(
            StandardTokenInspectionResponse {
                active,
                scopes,
                client_id,
                username,
                token_type,
                exp,
                iat,
                nbf,
                sub,
                aud,
                iss,
                jti,
                extra_fields,
            },
        )
    }
}

impl<EF: ExtraTokenFields, TT: TokenType> TokenInspectionResponse<TT> for StandardTokenInspectionResponse<
    EF,
    TT,
> {
    closed spec fn spec_active(&self) -> bool {
        self.active
    }

    closed spec fn spec_scopes(&self) -> Option<Seq<Seq<char>>> {
        match self.scopes {
            Some(v) => Some(scopes_view(v@)),
            None => None,
        }
    }

    closed spec fn spec_client_id(&self) -> Option<Seq<char>> {
        match self.client_id {
            Some(c) => Some(c@),
            None => None,
        }
    }

    closed spec fn spec_username(&self) -> Option<Seq<char>> {
        match self.username {
            Some(u) => Some(u@),
            None => None,
        }
    }

    closed spec fn spec_token_type(&self) -> Option<TT> {
        self.token_type
    }

    closed spec fn spec_exp(&self) -> Option<i64> {
        self.exp
    }

    closed spec fn spec_iat(&self) -> Option<i64> {
        self.iat
    }

    closed spec fn spec_nbf(&self) -> Option<i64> {
        self.nbf
    }

    closed spec fn spec_sub(&self) -> Option<Seq<char>> {
        match self.sub {
            Some(s) => Some(s@),
            None => None,
        }
    }

    closed spec fn spec_aud(&self) -> Option<Seq<Seq<char>>> {
        match self.aud {
            Some(a) => Some(strings_view(a@)),
            None => None,
        }
    }

    closed spec fn spec_iss(&self) -> Option<Seq<char>> {
        match self.iss {
            Some(s) => Some(s@),
            None => None,
        }
    }

    closed spec fn spec_jti(&self) -> Option<Seq<char>> {
        match self.jti {
            Some(s) => Some(s@),
            None => None,
        }
    }

    fn active(&self) -> (r: bool) {
        self.active
    }

    fn scopes(&self) -> (r: Option<&Vec<Scope>>) {
        self.scopes.as_ref()
    }

    fn client_id(&self) -> (r: Option<&ClientId>) {
        self.client_id.as_ref()
    }

    fn username(&self) -> (r: Option<&str>) {
        match &self.username {
            Some(u) => Some(u.as_str()),
            None => None,
        }
    }

    fn token_type(&self) -> (r: Option<&TT>) {
        self.token_type.as_ref()
    }

    fn exp(&self) -> (r: Option<i64>) {
        self.exp
    }

    fn iat(&self) -> (r: Option<i64>) {
        self.iat
    }

    fn nbf(&self) -> (r: Option<i64>) {
        self.nbf
    }

    fn sub(&self) -> (r: Option<&str>) {
        match &self.sub {
            Some(s) => Some(s.as_str()),
            None => None,
        }
    }

    fn aud(&self) -> (r: Option<&Vec<String>>) {
        self.aud.as_ref()
    }

    fn iss(&self) -> (r: Option<&str>) {
        match &self.iss {
            Some(s) => Some(s.as_str()),
            None => None,
        }
    }

    fn jti(&self) -> (r: Option<&str>) {
        match &self.jti {
            Some(s) => Some(s.as_str()),
            None => None,
        }
    }
}

} // verus!
