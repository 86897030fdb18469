//! The error model: the machine-readable error codes of RFC 6749, the
//! standard error-response shape, and the uniform classification of request
//! failures that every flow reports.

use vstd::prelude::*;
use vstd::string::StringExecFns;

use crate::decode::{opt_str_field, req_str_field, FromJsonBody};
use crate::ext::{json_top_of, JsonScalar};
use crate::helpers::str_eq;

verus! {

/// A machine-readable error code, decoded from the `error` member of an
/// error response and serialized back as its wire spelling. Implemented by
/// the standard RFC 6749 enumeration; applications may substitute their own
/// to interoperate with non-conformant providers.
pub trait ErrorResponseType: Sized {
    /// The code that a wire spelling decodes to, if any.
    spec fn spec_from_wire(s: Seq<char>) -> Option<Self>;

    /// The wire spelling of this code.
    spec fn spec_wire(&self) -> Seq<char>;

    /// Decodes a wire spelling.
    fn from_wire(s: &str) -> (r: Option<Self>)
        ensures
            r == Self::spec_from_wire(s@),
    ;

    /// Serializes this code to its wire spelling.
    fn to_wire(&self) -> (r: String)
        ensures
            r@ == self.spec_wire(),
    ;
}

/// The error-response shape a server decodes to. Implementors pair a body
/// decoding with whatever error enumeration they carry.
pub trait ErrorResponse: FromJsonBody {
}

/// The error response body of RFC 6749 section 5.2: a machine-readable code
/// and optional human-readable description and reference URI.
#[derive(Clone, Debug, PartialEq, Eq)]
pub struct StandardErrorResponse<T: ErrorResponseType> {
    error: T,
    error_description: Option<String>,
    error_uri: Option<String>,
}

impl<T: ErrorResponseType> StandardErrorResponse<T> {
    /// The machine-readable error code.
    pub closed spec fn spec_error(&self) -> T {
        self.error
    }

    /// The optional human-readable description.
    pub closed spec fn spec_error_description(&self) -> Option<String> {
        self.error_description
    }

    /// The optional reference URI.
    pub closed spec fn spec_error_uri(&self) -> Option<String> {
        self.error_uri
    }

    /// Assembles an error response from its parts.
    pub fn new(error: T, error_description: Option<String>, error_uri: Option<String>) -> (r: Self)
        ensures
            r.spec_error() == error,
            r.spec_error_description() == error_description,
            r.spec_error_uri() == error_uri,
    {
        StandardErrorResponse { error, error_description, error_uri }
    }

    /// The machine-readable error code.
    pub fn error(&self) -> (r: &T)
        ensures
            *r == self.spec_error(),
    {
        &self.error
    }

    /// The optional human-readable description.
    pub fn error_description(&self) -> (r: Option<&String>)
        ensures
            match r {
                Some(d) => self.spec_error_description() == Some(*d),
                None => self.spec_error_description() is None,
            },
    {
        self.error_description.as_ref()
    }

    /// The optional reference URI.
    pub fn error_uri(&self) -> (r: Option<&String>)
        ensures
            match r {
                Some(u) => self.spec_error_uri() == Some(*u),
                None => self.spec_error_uri() is None,
            },
    {
        self.error_uri.as_ref()
    }

    /// The code, description, and URI joined for human consumption:
    /// `code: description / See uri`.
    pub fn display_string(&self) -> (r: String)
        ensures
            ({
                let base = self.spec_error().spec_wire();
                let with_desc = match self.spec_error_description() {
                    Some(d) => base + ": "@ + d@,
                    None => base,
                };
                r@ == match self.spec_error_uri() {
                    Some(u) => with_desc + " / See "@ + u@,
                    None => with_desc,
                }
            }),
    {
        let mut out = self.error.to_wire();
        match self.error_description.as_ref() {
            Some(d) => {
                out.append(": ");
                out.append(d.as_str());
            },
            None => {},
        }
        match self.error_uri.as_ref() {
            Some(u) => {
                out.append(" / See ");
                out.append(u.as_str());
            },
            None => {},
        }
        out
    }
}

/// What cooking the members of a parsed error body yields: the `error`
/// member must be a string spelling a known code; description and URI are
/// optional strings.
pub closed spec fn spec_cook_error<T: ErrorResponseType>(ms: Seq<(String, JsonScalar)>) -> Option<
    StandardErrorResponse<T>,
> {
    match req_str_field(ms, "error"@) {
        Some(s) => match T::spec_from_wire(s@) {
            Some(e) => match opt_str_field(ms, "error_description"@) {
                Some(d) => match opt_str_field(ms, "error_uri"@) {
                    Some(u) => Some(
                        StandardErrorResponse { error: e, error_description: d, error_uri: u },
                    ),
                    None => None,
                },
                None => None,
            },
            None => None,
        },
        None => None,
    }
}

impl<T: ErrorResponseType> FromJsonBody for StandardErrorResponse<T> {
    open spec fn json_decodes(body: Seq<u8>) -> bool {
        match json_top_of(body) {
            Some(ms) => spec_cook_error::<T>(ms) is Some,
            None => false,
        }
    }

    open spec fn decodes_to(body: Seq<u8>, v: Self) -> bool {
        match json_top_of(body) {
            Some(ms) => spec_cook_error::<T>(ms) == Some(v),
            None => false,
        }
    }

    fn from_json_body(body: &[u8]) -> (r: Result<Self, String>) {
        let ms = match crate::ext::parse_json_top(body) {
            Ok(ms) => ms,
            Err(e) => return Err(e),
        };
        let code = match crate::decode::get_req_str(&ms, "error") {
            Some(s) => s,
            None => return Err(String::from_str("missing or malformed error field")),
        };
        let error = match T::from_wire(code.as_str()) {
            Some(e) => e,
            None => return Err(String::from_str("unknown error code")),
        };
        let error_description = match crate::decode::get_opt_str(&ms, "error_description") {
            Ok(d) => d,
            Err(_) => return Err(String::from_str("malformed error_description field")),
        };
        let error_uri = match crate::decode::get_opt_str(&ms, "error_uri") {
            Ok(u) => u,
            Err(_) => return Err(String::from_str("malformed error_uri field")),
        };
        Ok(StandardErrorResponse { error, error_description, error_uri })
    }
}

impl<T: ErrorResponseType> ErrorResponse for StandardErrorResponse<T> {
}

/// Why a token-endpoint request failed: a well-formed protocol error from
/// the server, a transport failure, an undecodable body (kept for
/// diagnostics), or a local precondition failure.
#[derive(Debug)]
pub enum RequestTokenError<RE, TE> {
    /// The server returned a well-formed error response.
    ServerResponse(TE),
    /// The transport collaborator failed to carry the request.
    Request(RE),
    /// The response body did not match the expected shape; the decoder's
    /// message and the raw body are kept for diagnostics.
    Parse(String, Vec<u8>),
    /// A local precondition failed: a missing endpoint URL, an unusable
    /// response, or an expired device code.
    Other(String),
}

} // verus!
