//! The transport-agnostic wire model: a request the caller's transport
//! executes, and the response it hands back. These are the sole contract
//! with the transport collaborator.

use vstd::prelude::*;
use vstd::utf8::encode_utf8;

use crate::helpers::{bytes_eq, lower_bytes, lower_bytes_vec};

verus! {

/// The HTTP method of a wire request.
#[derive(Clone, Copy, Debug, PartialEq, Eq, Structural)]
pub enum HttpMethod {
    /// GET, used only by the assembled authorization URL.
    Get,
    /// POST, used by every token-endpoint request.
    Post,
}

/// An HTTP request, with owned values so it can safely cross threads.
#[derive(Clone, Debug)]
pub struct HttpRequest {
    /// URL to which the request is made.
    pub url: String,
    /// Request method.
    pub method: HttpMethod,
    /// Request headers, in order; names are lowercase.
    pub headers: Vec<(String, String)>,
    /// Request body.
    pub body: Vec<u8>,
}

/// An HTTP response as the transport collaborator reports it.
#[derive(Clone, Debug)]
pub struct HttpResponse {
    /// Status code returned by the server.
    pub status_code: u16,
    /// Response headers, in order.
    pub headers: Vec<(String, String)>,
    /// Response body.
    pub body: Vec<u8>,
}

/// The value of the first header whose name matches `name` ASCII
/// case-insensitively, if any.
pub open spec fn header_lookup(headers: Seq<(String, String)>, name: Seq<char>) -> Option<
    Seq<char>,
>
    decreases headers.len(),
{
    if headers.len() == 0 {
        None
    } else if lower_bytes(encode_utf8(headers[0].0@)) == lower_bytes(encode_utf8(name)) {
        Some(headers[0].1@)
    } else {
        header_lookup(headers.drop_first(), name)
    }
}

/// Finds a header by name, ASCII case-insensitively, as HTTP prescribes.
pub fn find_header<'a>(headers: &'a Vec<(String, String)>, name: &str) -> (r: Option<&'a String>)
    ensures
        match r {
            Some(v) => header_lookup(headers@, name@) == Some(v@),
            None => header_lookup(headers@, name@) is None,
        },
{
    let name_lower = lower_bytes_vec(name.as_bytes());
    let mut i: usize = 0;
    proof {
        assert(headers@.skip(0) =~= headers@);
    }
    while i < headers.len()
        invariant
            0 <= i <= headers@.len(),
            name_lower@ == lower_bytes(encode_utf8(name@)),
            header_lookup(headers@.skip(i as int), name@) == header_lookup(headers@, name@),
        decreases headers@.len() - i,
    {
        proof {
            assert(headers@.skip(i as int)[0] == headers@[i as int]);
            assert(headers@.skip(i as int).drop_first() =~= headers@.skip(i + 1));
        }
        let h_lower = lower_bytes_vec(headers[i].0.as_str().as_bytes());
        if bytes_eq(h_lower.as_slice(), name_lower.as_slice()) {
            return Some(&headers[i].1);
        }
        i += 1;
    }
    proof {
        assert(headers@.skip(headers@.len() as int) =~= Seq::<(String, String)>::empty());
    }
    None
}

} // verus!
