//! Bindings to the outside crates that the engine relies on: URL validation,
//! base64 encoding, JSON parsing, and UTF-8 decoding. Each binding is a
//! trusted wrapper whose contract states what the outside call returns.

use vstd::prelude::*;

verus! {

/// Whether `url::Url::parse` accepts `s` as a URL; the result depends on the
/// characters alone.
pub uninterp spec fn is_valid_url(s: Seq<char>) -> bool;

/// Relies on `url::Url::parse`: returns whether `s` parses as a URL.
#[verifier::external_body]
pub(crate) fn url_is_valid(s: &str) -> (r: bool)
    ensures
        r == is_valid_url(s@),
{
    url::Url::parse(s).is_ok()
}

/// What `base64::encode` returns for the given bytes (standard alphabet with
/// padding); a function of the bytes alone.
pub uninterp spec fn base64_of(bytes: Seq<u8>) -> Seq<char>;

/// Relies on `base64::encode`: standard-alphabet, padded base64 of the input.
#[verifier::external_body]
pub(crate) fn base64_encode(bytes: &[u8]) -> (r: String)
    ensures
        r@ == base64_of(bytes@),
{
    base64::encode(bytes)
}

/// One top-level member of a decoded JSON object, reduced to the shapes the
/// OAuth2 wire protocol uses. Values of any other shape (nested objects,
/// non-integer numbers, arrays with a non-string member) appear as `Other`.
#[derive(Clone, Debug, PartialEq, Eq)]
pub enum JsonScalar {
    /// JSON `null`.
    Null,
    /// A JSON boolean.
    Bool(bool),
    /// A JSON number that fits in an `i64`.
    Int(i64),
    /// A JSON string.
    Str(String),
    /// A JSON array whose members are all strings.
    StrList(Vec<String>),
    /// Any other JSON value.
    Other,
}

/// What parsing `body` as a JSON object yields: `None` when the bytes are not
/// a JSON object, otherwise the members in `serde_json`'s map order, each
/// value reduced to a `JsonScalar`. A function of the bytes alone.
pub uninterp spec fn json_top_of(body: Seq<u8>) -> Option<Seq<(String, JsonScalar)>>;

/// Relies on `serde_json::from_slice::<serde_json::Map<String, serde_json::Value>>`
/// and the `serde_json::Value` variants: parses a JSON object and reduces each
/// top-level value to a `JsonScalar`. The `Err` message is `serde_json`'s.
#[verifier::external_body]
pub(crate) fn parse_json_top(body: &[u8]) -> (r: Result<Vec<(String, JsonScalar)>, String>)
    ensures
        match r {
            Ok(members) => json_top_of(body@) == Some(members@),
            Err(_) => json_top_of(body@) is None,
        },
{
    let m: serde_json::Map<String, serde_json::Value> = serde_json::from_slice(body).map_err(|e| e.to_string())?;
    let mut out = vec![];
    for (k, x) in m {
        out.push((k, match x {
            serde_json::Value::Null => JsonScalar::Null,
            serde_json::Value::Bool(b) => JsonScalar::Bool(b),
            serde_json::Value::Number(n) => n.as_i64().map_or(JsonScalar::Other, JsonScalar::Int),
            serde_json::Value::String(t) => JsonScalar::Str(t),
            serde_json::Value::Array(a) => a.iter().map(|e| e.as_str().map(String::from)).collect::<Option<_>>().map_or(JsonScalar::Other, JsonScalar::StrList),
            _ => JsonScalar::Other,
        }));
    }
    Ok(out)
}

/// Relies on `String::from_utf8`: on valid UTF-8 input it returns the string
/// whose characters decode those bytes.
#[verifier::external_body]
pub(crate) fn string_from_utf8(bytes: Vec<u8>) -> (r: String)
    requires
        vstd::utf8::valid_utf8(bytes@),
    ensures
        r@ == vstd::utf8::decode_utf8(bytes@),
{
    String::from_utf8(bytes).unwrap_or_default()
}

} // verus!
