//! Basic OAuth2 implementation with no extensions (RFC 6749): the standard
//! token type and error code enumerations, and the aliases that tie the
//! engine's generic shapes to them.

use vstd::prelude::*;
use vstd::string::StringExecFns;
use vstd::utf8::{encode_utf8, is_ascii_chars, is_ascii_chars_encode_utf8};

use crate::client::Client;
use crate::errors::{ErrorResponseType, StandardErrorResponse};
use crate::introspection::StandardTokenInspectionResponse;
use crate::helpers::{bytes_eq, lower_bytes, lower_bytes_vec, str_eq};
use crate::token::{EmptyExtraTokenFields, StandardTokenResponse, TokenType};

verus! {

/// The token types of RFC 6749: `bearer` and `mac`, decoded
/// case-insensitively.
#[derive(Clone, Debug, PartialEq, Eq, Structural)]
pub enum BasicTokenType {
    /// A bearer token, presented as-is to the resource server.
    Bearer,
    /// A MAC token, presented with a message authentication code.
    Mac,
}

impl TokenType for BasicTokenType {
    open spec fn spec_from_wire(s: Seq<char>) -> Option<Self> {
        if lower_bytes(encode_utf8(s)) == encode_utf8("bearer"@) {
            Some(BasicTokenType::Bearer)
        } else if lower_bytes(encode_utf8(s)) == encode_utf8("mac"@) {
            Some(BasicTokenType::Mac)
        } else {
            None
        }
    }

    open spec fn spec_wire(&self) -> Seq<char> {
        match self {
            BasicTokenType::Bearer => "bearer"@,
            BasicTokenType::Mac => "mac"@,
        }
    }

    fn from_wire(s: &str) -> (r: Option<Self>) {
        let lb = lower_bytes_vec(s.as_bytes());
        if bytes_eq(lb.as_slice(), "bearer".as_bytes()) {
            Some(BasicTokenType::Bearer)
        } else if bytes_eq(lb.as_slice(), "mac".as_bytes()) {
            Some(BasicTokenType::Mac)
        } else {
            None
        }
    }

    fn to_wire(&self) -> (r: String) {
        match self {
            BasicTokenType::Bearer => String::from_str("bearer"),
            BasicTokenType::Mac => String::from_str("mac"),
        }
    }
}

/// Decoding a basic token type's canonical spelling gives that type back:
/// the canonical spellings are lowercase, so case folding leaves them alone.
pub proof fn lemma_basic_token_type_round_trip(t: BasicTokenType)
    ensures
        BasicTokenType::spec_from_wire(t.spec_wire()) == Some(t),
{
    broadcast use vstd::string::group_string_axioms;

    reveal_strlit("bearer");
    reveal_strlit("mac");
    assert(is_ascii_chars("bearer"@));
    assert(is_ascii_chars("mac"@));
    is_ascii_chars_encode_utf8("bearer"@);
    is_ascii_chars_encode_utf8("mac"@);
    assert(lower_bytes(encode_utf8("bearer"@)) =~= encode_utf8("bearer"@));
    assert(lower_bytes(encode_utf8("mac"@)) =~= encode_utf8("mac"@));
    assert(encode_utf8("mac"@).len() != encode_utf8("bearer"@).len());
    match t {
        BasicTokenType::Bearer => {
            assert(BasicTokenType::spec_from_wire(t.spec_wire()) == Some(t));
        },
        BasicTokenType::Mac => {
            assert(BasicTokenType::spec_from_wire(t.spec_wire()) == Some(t));
        },
    }
}

/// The error codes of RFC 6749 section 5.2.
#[derive(Clone, Debug, PartialEq, Eq, Structural)]
pub enum BasicErrorResponseType {
    /// The request is missing a parameter, repeats one, or is malformed.
    InvalidRequest,
    /// Client authentication failed.
    InvalidClient,
    /// The grant (code, credentials, refresh token) is invalid or revoked.
    InvalidGrant,
    /// The client is not authorized for this grant type.
    UnauthorizedClient,
    /// The grant type is not supported by the server.
    UnsupportedGrantType,
    /// The requested scope is invalid or exceeds the granted scope.
    InvalidScope,
}

impl ErrorResponseType for BasicErrorResponseType {
    open spec fn spec_from_wire(s: Seq<char>) -> Option<Self> {
        if s == "invalid_request"@ {
            Some(BasicErrorResponseType::InvalidRequest)
        } else if s == "invalid_client"@ {
            Some(BasicErrorResponseType::InvalidClient)
        } else if s == "invalid_grant"@ {
            Some(BasicErrorResponseType::InvalidGrant)
        } else if s == "unauthorized_client"@ {
            Some(BasicErrorResponseType::UnauthorizedClient)
        } else if s == "unsupported_grant_type"@ {
            Some(BasicErrorResponseType::UnsupportedGrantType)
        } else if s == "invalid_scope"@ {
            Some(BasicErrorResponseType::InvalidScope)
        } else {
            None
        }
    }

    open spec fn spec_wire(&self) -> Seq<char> {
        match self {
            BasicErrorResponseType::InvalidRequest => "invalid_request"@,
            BasicErrorResponseType::InvalidClient => "invalid_client"@,
            BasicErrorResponseType::InvalidGrant => "invalid_grant"@,
            BasicErrorResponseType::UnauthorizedClient => "unauthorized_client"@,
            BasicErrorResponseType::UnsupportedGrantType => "unsupported_grant_type"@,
            BasicErrorResponseType::InvalidScope => "invalid_scope"@,
        }
    }

    fn from_wire(s: &str) -> (r: Option<Self>) {
        if str_eq(s, "invalid_request") {
            Some(BasicErrorResponseType::InvalidRequest)
        } else if str_eq(s, "invalid_client") {
            Some(BasicErrorResponseType::InvalidClient)
        } else if str_eq(s, "invalid_grant") {
            Some(BasicErrorResponseType::InvalidGrant)
        } else if str_eq(s, "unauthorized_client") {
            Some(BasicErrorResponseType::UnauthorizedClient)
        } else if str_eq(s, "unsupported_grant_type") {
            Some(BasicErrorResponseType::UnsupportedGrantType)
        } else if str_eq(s, "invalid_scope") {
            Some(BasicErrorResponseType::InvalidScope)
        } else {
            None
        }
    }

    fn to_wire(&self) -> (r: String) {
        match self {
            BasicErrorResponseType::InvalidRequest => String::from_str("invalid_request"),
            BasicErrorResponseType::InvalidClient => String::from_str("invalid_client"),
            BasicErrorResponseType::InvalidGrant => String::from_str("invalid_grant"),
            BasicErrorResponseType::UnauthorizedClient => String::from_str("unauthorized_client"),
            BasicErrorResponseType::UnsupportedGrantType => String::from_str(
                "unsupported_grant_type",
            ),
            BasicErrorResponseType::InvalidScope => String::from_str("invalid_scope"),
        }
    }
}

/// Decoding a basic error code's wire spelling gives that code back.
pub proof fn lemma_basic_error_code_round_trip(e: BasicErrorResponseType)
    ensures
        BasicErrorResponseType::spec_from_wire(e.spec_wire()) == Some(e),
{
    broadcast use vstd::string::group_string_axioms;

    reveal_strlit("invalid_request");
    reveal_strlit("invalid_client");
    reveal_strlit("invalid_grant");
    reveal_strlit("unauthorized_client");
    reveal_strlit("unsupported_grant_type");
    reveal_strlit("invalid_scope");
    assert("invalid_request"@.len() == 15);
    assert("invalid_client"@.len() == 14);
    assert("invalid_grant"@.len() == 13);
    assert("unauthorized_client"@.len() == 19);
    assert("unsupported_grant_type"@.len() == 22);
    assert("invalid_scope"@.len() == 13);
    assert("invalid_grant"@[8] != "invalid_scope"@[8]);
    match e {
        BasicErrorResponseType::InvalidRequest => {
            assert(BasicErrorResponseType::spec_from_wire(e.spec_wire()) == Some(e));
        },
        BasicErrorResponseType::InvalidClient => {
            assert(BasicErrorResponseType::spec_from_wire(e.spec_wire()) == Some(e));
        },
        BasicErrorResponseType::InvalidGrant => {
            assert(BasicErrorResponseType::spec_from_wire(e.spec_wire()) == Some(e));
        },
        BasicErrorResponseType::UnauthorizedClient => {
            assert(BasicErrorResponseType::spec_from_wire(e.spec_wire()) == Some(e));
        },
        BasicErrorResponseType::UnsupportedGrantType => {
            assert(BasicErrorResponseType::spec_from_wire(e.spec_wire()) == Some(e));
        },
        BasicErrorResponseType::InvalidScope => {
            assert(BasicErrorResponseType::spec_from_wire(e.spec_wire()) == Some(e));
        },
    }
}

/// The standard token response with no extra fields and the basic token
/// types.
pub type BasicTokenResponse = StandardTokenResponse<EmptyExtraTokenFields, BasicTokenType>;

/// The standard error response carrying the basic error codes.
pub type BasicErrorResponse = StandardErrorResponse<BasicErrorResponseType>;

/// The standard introspection response with no extra fields and the basic
/// token types.
pub type BasicTokenInspectionResponse = StandardTokenInspectionResponse<
    EmptyExtraTokenFields,
    BasicTokenType,
>;

/// A client configured with the standard basic shapes.
pub type BasicClient = Client<
    BasicErrorResponse,
    BasicTokenResponse,
    BasicTokenType,
    BasicTokenInspectionResponse,
>;

} // verus!
