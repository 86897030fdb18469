//! The endpoint request assembler and the response decoder: every token,
//! introspection, and device-authorization request is assembled here, and
//! every response is classified here into success, server error, parse
//! failure, or local failure.

use vstd::prelude::*;
use vstd::string::StringExecFns;
use vstd::utf8::encode_utf8;

use crate::decode::{join_sp, join_scopes, scopes_view, FromJsonBody};
use crate::encoding::{encode_pairs, encode_pairs_vec, pairs_view, urlencode, urlencode_push};
use crate::errors::{ErrorResponse, RequestTokenError};
use crate::ext::base64_of;
use crate::helpers::{bytes_starts_with, lower_bytes, lower_bytes_vec, spec_starts_with};
use crate::types::{ClientId, ClientSecret, RedirectUrl, Scope};
use crate::wire::{find_header, header_lookup, HttpMethod, HttpRequest, HttpResponse};
use crate::AuthType;

verus! {

/// The credential string of RFC 6749 section 2.3.1: the client id and the
/// (possibly empty) client secret, each form-urlencoded separately, joined
/// with a colon. The separate urlencoding step is what distinguishes this
/// from ordinary HTTP Basic authentication.
pub open spec fn basic_credential_bytes(id: Seq<char>, secret: Option<Seq<char>>) -> Seq<u8> {
    urlencode(encode_utf8(id)) + seq![0x3au8] + (match secret {
        Some(s) => urlencode(encode_utf8(s)),
        None => Seq::<u8>::empty(),
    })
}

/// The headers of an assembled endpoint request: `accept` and
/// `content-type` always, and for basic authentication an `authorization`
/// header carrying the base64 of the credential string.
pub open spec fn request_headers(
    auth_type: AuthType,
    client_id: Seq<char>,
    client_secret: Option<Seq<char>>,
) -> Seq<(Seq<char>, Seq<char>)> {
    let base = seq![
        ("accept"@, "application/json"@),
        ("content-type"@, "application/x-www-form-urlencoded"@),
    ];
    match auth_type {
        AuthType::RequestBody => base,
        AuthType::BasicAuth => base + seq![
            (
                "authorization"@,
                "Basic "@ + base64_of(basic_credential_bytes(client_id, client_secret)),
            ),
        ],
    }
}

/// The parameter list of an assembled endpoint request: the grant-specific
/// parameters; then a single `scope` parameter joining the scopes with
/// spaces, when any were given; then, for body authentication, `client_id`
/// and (if present) `client_secret`; then `redirect_uri` when set; then the
/// caller's extra parameters, verbatim and unvalidated.
pub open spec fn final_params(
    auth_type: AuthType,
    client_id: Seq<char>,
    client_secret: Option<Seq<char>>,
    extra_params: Seq<(Seq<char>, Seq<char>)>,
    redirect_url: Option<Seq<char>>,
    scopes: Option<Seq<Seq<char>>>,
    params: Seq<(Seq<char>, Seq<char>)>,
) -> Seq<(Seq<char>, Seq<char>)> {
    let with_scope = match scopes {
        Some(ss) => if ss.len() > 0 {
            params + seq![("scope"@, join_sp(ss))]
        } else {
            params
        },
        None => params,
    };
    let with_auth = match auth_type {
        AuthType::RequestBody => with_scope + seq![("client_id"@, client_id)] + (
        match client_secret {
            Some(cs) => seq![("client_secret"@, cs)],
            None => Seq::<(Seq<char>, Seq<char>)>::empty(),
        }),
        AuthType::BasicAuth => with_scope,
    };
    let with_redirect = match redirect_url {
        Some(r) => with_auth + seq![("redirect_uri"@, r)],
        None => with_auth,
    };
    with_redirect + extra_params
}

/// Assembles a wire request for a token-style endpoint: a POST whose
/// form-urlencoded body carries the grant parameters, scopes, client
/// authentication (for `RequestBody`), redirect URL, and extra parameters,
/// and whose headers carry the content types and (for `BasicAuth`) the
/// authorization header of RFC 6749 section 2.3.1. This step cannot fail.
#[verifier::rlimit(60)]
pub fn endpoint_request(
    auth_type: &AuthType,
    client_id: &ClientId,
    client_secret: Option<&ClientSecret>,
    extra_params: &Vec<(String, String)>,
    redirect_url: Option<&RedirectUrl>,
    scopes: Option<&Vec<Scope>>,
    url: &str,
    params: Vec<(String, String)>,
) -> (r: HttpRequest)
    ensures
        r.url@ == url@,
        r.method == HttpMethod::Post,
        pairs_view(r.headers@) == request_headers(
            *auth_type,
            client_id@,
            match client_secret {
                Some(cs) => Some(cs@),
                None => None,
            },
        ),
        r.body@ == encode_pairs(
            final_params(
                *auth_type,
                client_id@,
                match client_secret {
                    Some(cs) => Some(cs@),
                    None => None,
                },
                pairs_view(extra_params@),
                match redirect_url {
                    Some(u) => Some(u@),
                    None => None,
                },
                match scopes {
                    Some(ss) => Some(scopes_view(ss@)),
                    None => None,
                },
                pairs_view(params@),
            ),
        ),
{
    let ghost secret_view: Option<Seq<char>> = match client_secret {
        Some(cs) => Some(cs@),
        None => None,
    };
    let mut headers: Vec<(String, String)> = Vec::new();
    headers.push((String::from_str("accept"), String::from_str("application/json")));
    headers.push(
        (String::from_str("content-type"), String::from_str("application/x-www-form-urlencoded")),
    );
    let mut all: Vec<(String, String)> = params;
    match scopes {
        Some(ss) => {
            if ss.len() > 0 {
                let joined = join_scopes(ss);
                all.push((String::from_str("scope"), joined));
            }
        },
        None => {},
    }
    let ghost with_scope = pairs_view(all@);
    match auth_type {
        AuthType::RequestBody => {
            all.push((String::from_str("client_id"), String::from_str(client_id.as_str())));
            match client_secret {
                Some(cs) => {
                    all.push((String::from_str("client_secret"), cs.secret().clone()));
                },
                None => {},
            }
        },
        AuthType::BasicAuth => {
            // Section 2.3.1 of RFC 6749 requires form-urlencoding the id and
            // the secret separately before joining them for basic auth; this
            // is not how ordinary HTTP Basic authentication works.
            let mut cred: Vec<u8> = Vec::new();
            urlencode_push(client_id.as_str().as_bytes(), &mut cred);
            cred.push(0x3a);
            match client_secret {
                Some(cs) => {
                    urlencode_push(cs.secret().as_str().as_bytes(), &mut cred);
                },
                None => {},
            }
            proof {
                assert(cred@ =~= basic_credential_bytes(client_id@, secret_view));
            }
            let b64 = crate::ext::base64_encode(cred.as_slice());
            let auth_value = String::from_str("Basic ").concat(b64.as_str());
            headers.push((String::from_str("authorization"), auth_value));
        },
    }
    let ghost with_auth = pairs_view(all@);
    match redirect_url {
        Some(u) => {
            all.push((String::from_str("redirect_uri"), String::from_str(u.as_str())));
        },
        None => {},
    }
    let ghost with_redirect = pairs_view(all@);
    let mut i: usize = 0;
    while i < extra_params.len()
        invariant
            0 <= i <= extra_params@.len(),
            pairs_view(all@) == with_redirect + pairs_view(extra_params@.take(i as int)),
        decreases extra_params@.len() - i,
    {
        let name = extra_params[i].0.clone();
        let value = extra_params[i].1.clone();
        proof {
            assert(name@ == extra_params@[i as int].0@);
            assert(value@ == extra_params@[i as int].1@);
        }
        proof {
            assert(extra_params@.take(i + 1) =~= extra_params@.take(i as int).push(
                extra_params@[i as int],
            ));
        }
        let ghost prev = pairs_view(all@);
        all.push((name, value));
        proof {
            assert(pairs_view(all@) =~~= prev.push((name@, value@)));
            assert(pairs_view(extra_params@.take(i + 1)) =~~= pairs_view(
                extra_params@.take(i as int),
            ).push((name@, value@)));
            assert(pairs_view(all@) =~~= with_redirect + pairs_view(extra_params@.take(i + 1)));
        }
        i += 1;
    }
    proof {
        assert(extra_params@.take(extra_params@.len() as int) =~= extra_params@);
    }
    let body = encode_pairs_vec(&all);
    let r = HttpRequest {
        url: String::from_str(url),
        method: HttpMethod::Post,
        headers,
        body,
    };
    proof {
        assert(pairs_view(r.headers@) =~~= request_headers(*auth_type, client_id@, secret_view));
        assert(pairs_view(all@) =~~= final_params(
            *auth_type,
            client_id@,
            secret_view,
            pairs_view(extra_params@),
            match redirect_url {
                Some(u) => Some(u@),
                None => None,
            },
            match scopes {
                Some(ss) => Some(scopes_view(ss@)),
                None => None,
            },
            pairs_view(params@),
        ));
    }
    r
}

/// The parameters of `ps` carrying the given name.
pub open spec fn named_params(ps: Seq<(Seq<char>, Seq<char>)>, name: Seq<char>) -> Seq<
    (Seq<char>, Seq<char>),
> {
    ps.filter(|p: (Seq<char>, Seq<char>)| p.0 == name)
}

proof fn lemma_named_params_empty(name: Seq<char>)
    ensures
        named_params(Seq::<(Seq<char>, Seq<char>)>::empty(), name) == Seq::<
            (Seq<char>, Seq<char>),
        >::empty(),
{
    reveal(Seq::filter);
}

proof fn lemma_named_params_single(p: (Seq<char>, Seq<char>), name: Seq<char>)
    ensures
        p.0 == name ==> named_params(seq![p], name) == seq![p],
        p.0 != name ==> named_params(seq![p], name) == Seq::<(Seq<char>, Seq<char>)>::empty(),
{
    reveal_with_fuel(Seq::filter, 2);
    assert(seq![p].drop_last() =~= Seq::<(Seq<char>, Seq<char>)>::empty());
    assert(seq![p].last() == p);
    if p.0 == name {
        assert(named_params(seq![p], name) =~= seq![p]);
    } else {
        assert(named_params(seq![p], name) =~= Seq::<(Seq<char>, Seq<char>)>::empty());
    }
}

/// For any scope set, the assembled parameter list carries a single `scope`
/// parameter whose value joins the scopes with single spaces, in order; an
/// empty or absent scope set adds no `scope` parameter at all. The
/// grant-specific and extra parameters are assumed not to spell a `scope`
/// parameter themselves.
pub proof fn lemma_scope_parameter(
    auth_type: AuthType,
    client_id: Seq<char>,
    client_secret: Option<Seq<char>>,
    extra_params: Seq<(Seq<char>, Seq<char>)>,
    redirect_url: Option<Seq<char>>,
    scopes: Option<Seq<Seq<char>>>,
    params: Seq<(Seq<char>, Seq<char>)>,
)
    requires
        named_params(params, "scope"@).len() == 0,
        named_params(extra_params, "scope"@).len() == 0,
    ensures
        ({
            let fp = final_params(
                auth_type,
                client_id,
                client_secret,
                extra_params,
                redirect_url,
                scopes,
                params,
            );
            match scopes {
                Some(ss) => if ss.len() > 0 {
                    named_params(fp, "scope"@) == seq![("scope"@, join_sp(ss))]
                } else {
                    named_params(fp, "scope"@).len() == 0
                },
                None => named_params(fp, "scope"@).len() == 0,
            }
        }),
{
    broadcast use Seq::filter_distributes_over_add;

    reveal_strlit("scope");
    reveal_strlit("client_id");
    reveal_strlit("client_secret");
    reveal_strlit("redirect_uri");
    assert("scope"@.len() == 5);
    assert("client_id"@.len() == 9);
    assert("client_secret"@.len() == 13);
    assert("redirect_uri"@.len() == 12);
    let with_scope = match scopes {
        Some(ss) => if ss.len() > 0 {
            params + seq![("scope"@, join_sp(ss))]
        } else {
            params
        },
        None => params,
    };
    match scopes {
        Some(ss) => {
            if ss.len() > 0 {
                lemma_named_params_single(("scope"@, join_sp(ss)), "scope"@);
                assert(named_params(with_scope, "scope"@) =~= seq![("scope"@, join_sp(ss))]);
            }
        },
        None => {},
    }
    match auth_type {
        AuthType::RequestBody => {
            lemma_named_params_single(("client_id"@, client_id), "scope"@);
            match client_secret {
                Some(cs) => {
                    lemma_named_params_single(("client_secret"@, cs), "scope"@);
                },
                None => {
                    lemma_named_params_empty("scope"@);
                },
            }
        },
        AuthType::BasicAuth => {},
    }
    match redirect_url {
        Some(r) => {
            lemma_named_params_single(("redirect_uri"@, r), "scope"@);
        },
        None => {},
    }
    assert(named_params(
        final_params(
            auth_type,
            client_id,
            client_secret,
            extra_params,
            redirect_url,
            scopes,
            params,
        ),
        "scope"@,
    ) =~= named_params(with_scope, "scope"@));
}

/// For basic authentication, the assembled headers end with an
/// `authorization` header equal to `Basic` followed by the base64 of the
/// credential string of RFC 6749 section 2.3.1 — the client id and the
/// secret (empty when absent) form-urlencoded separately and joined with a
/// colon — and the parameter list carries no `client_id` or `client_secret`.
/// For body authentication, no `authorization` header is set, and
/// `client_id` and (when present) `client_secret` appear exactly once each
/// as parameters. The grant-specific and extra parameters are assumed not
/// to spell those two names themselves.
pub proof fn lemma_client_authentication(
    auth_type: AuthType,
    client_id: Seq<char>,
    client_secret: Option<Seq<char>>,
    extra_params: Seq<(Seq<char>, Seq<char>)>,
    redirect_url: Option<Seq<char>>,
    scopes: Option<Seq<Seq<char>>>,
    params: Seq<(Seq<char>, Seq<char>)>,
)
    requires
        named_params(params, "client_id"@).len() == 0,
        named_params(extra_params, "client_id"@).len() == 0,
        named_params(params, "client_secret"@).len() == 0,
        named_params(extra_params, "client_secret"@).len() == 0,
    ensures
        ({
            let hs = request_headers(auth_type, client_id, client_secret);
            let fp = final_params(
                auth_type,
                client_id,
                client_secret,
                extra_params,
                redirect_url,
                scopes,
                params,
            );
            match auth_type {
                AuthType::BasicAuth => {
                    &&& hs.len() == 3
                    &&& hs[2] == (
                        "authorization"@,
                        "Basic "@ + base64_of(basic_credential_bytes(client_id, client_secret)),
                    )
                    &&& named_params(fp, "client_id"@).len() == 0
                    &&& named_params(fp, "client_secret"@).len() == 0
                },
                AuthType::RequestBody => {
                    &&& hs.len() == 2
                    &&& forall|j: int| 0 <= j < hs.len() ==> (#[trigger] hs[j]).0
                        != "authorization"@
                    &&& named_params(fp, "client_id"@) == seq![("client_id"@, client_id)]
                    &&& match client_secret {
                        Some(cs) => named_params(fp, "client_secret"@) == seq![
                            ("client_secret"@, cs),
                        ],
                        None => named_params(fp, "client_secret"@).len() == 0,
                    }
                },
            }
        }),
{
    broadcast use Seq::filter_distributes_over_add;

    reveal_strlit("scope");
    reveal_strlit("client_id");
    reveal_strlit("client_secret");
    reveal_strlit("redirect_uri");
    reveal_strlit("authorization");
    reveal_strlit("accept");
    reveal_strlit("content-type");
    assert("scope"@.len() == 5);
    assert("client_id"@.len() == 9);
    assert("client_secret"@.len() == 13);
    assert("redirect_uri"@.len() == 12);
    assert("authorization"@.len() == 13);
    assert("accept"@.len() == 6);
    assert("content-type"@.len() == 12);
    assert("content-type"@[0] != "authorization"@[0]);
    assert("client_secret"@[7] != "authorization"@[7]);
    let with_scope = match scopes {
        Some(ss) => if ss.len() > 0 {
            params + seq![("scope"@, join_sp(ss))]
        } else {
            params
        },
        None => params,
    };
    let fp = final_params(
        auth_type,
        client_id,
        client_secret,
        extra_params,
        redirect_url,
        scopes,
        params,
    );
    match scopes {
        Some(ss) => {
            if ss.len() > 0 {
                lemma_named_params_single(("scope"@, join_sp(ss)), "client_id"@);
                lemma_named_params_single(("scope"@, join_sp(ss)), "client_secret"@);
            }
        },
        None => {},
    }
    assert(named_params(with_scope, "client_id"@).len() == 0);
    assert(named_params(with_scope, "client_secret"@).len() == 0);
    match redirect_url {
        Some(r) => {
            lemma_named_params_single(("redirect_uri"@, r), "client_id"@);
            lemma_named_params_single(("redirect_uri"@, r), "client_secret"@);
        },
        None => {},
    }
    match auth_type {
        AuthType::BasicAuth => {
            assert(named_params(fp, "client_id"@) =~= named_params(with_scope, "client_id"@));
            assert(named_params(fp, "client_secret"@) =~= named_params(
                with_scope,
                "client_secret"@,
            ));
        },
        AuthType::RequestBody => {
            lemma_named_params_single(("client_id"@, client_id), "client_id"@);
            lemma_named_params_single(("client_id"@, client_id), "client_secret"@);
            match client_secret {
                Some(cs) => {
                    lemma_named_params_single(("client_secret"@, cs), "client_id"@);
                    lemma_named_params_single(("client_secret"@, cs), "client_secret"@);
                    assert(named_params(fp, "client_id"@) =~= seq![("client_id"@, client_id)]);
                    assert(named_params(fp, "client_secret"@) =~= seq![("client_secret"@, cs)]);
                },
                None => {
                    lemma_named_params_empty("client_id"@);
                    lemma_named_params_empty("client_secret"@);
                    assert(named_params(fp, "client_id"@) =~= seq![("client_id"@, client_id)]);
                    assert(named_params(fp, "client_secret"@).len() == 0);
                },
            }
        },
    }
}

/// Whether a `Content-Type` value names JSON: media types are
/// case-insensitive and may carry parameters such as `charset`, so any value
/// whose lowercased form begins with `application/json` is accepted.
pub open spec fn is_json_content_type(v: Seq<char>) -> bool {
    spec_starts_with(lower_bytes(encode_utf8(v)), encode_utf8("application/json"@))
}

/// The response classification relation: how a wire response maps to the
/// decoder's verdict. In order: a non-200 status carries either no body at
/// all, a well-formed server error, or an undecodable body kept for
/// diagnostics; a 200 status must carry a JSON content type (a missing
/// header is tolerated) and a non-empty body that decodes as the success
/// shape, else the body is kept for diagnostics.
pub open spec fn endpoint_outcome<RE, TE: ErrorResponse, DO: FromJsonBody>(
    http_response: HttpResponse,
    r: Result<DO, RequestTokenError<RE, TE>>,
) -> bool {
    let body = http_response.body@;
    let ct = header_lookup(http_response.headers@, "content-type"@);
    if http_response.status_code != 200 {
        if body.len() == 0 {
            r matches Err(RequestTokenError::Other(m)) && m@
                == "Server returned empty error response"@
        } else if TE::json_decodes(body) {
            r matches Err(RequestTokenError::ServerResponse(e)) && TE::decodes_to(body, e)
        } else {
            r matches Err(RequestTokenError::Parse(_, raw)) && raw@ == body
        }
    } else if (ct matches Some(v) && !is_json_content_type(v)) {
        r matches Err(RequestTokenError::Other(m)) && (ct matches Some(v) ==> m@
            == "Unexpected response Content-Type: "@ + v + ", should be `application/json`"@)
    } else if body.len() == 0 {
        r matches Err(RequestTokenError::Other(m)) && m@ == "Server returned empty response body"@
    } else if DO::json_decodes(body) {
        r matches Ok(v) && DO::decodes_to(body, v)
    } else {
        r matches Err(RequestTokenError::Parse(_, raw)) && raw@ == body
    }
}

/// Classifies a server response as `endpoint_outcome` states.
pub fn endpoint_response<RE, TE: ErrorResponse, DO: FromJsonBody>(http_response: &HttpResponse) -> (r:
    Result<DO, RequestTokenError<RE, TE>>)
    ensures
        endpoint_outcome(*http_response, r),
{
    if http_response.status_code != 200 {
        if http_response.body.len() == 0 {
            return Err(
                RequestTokenError::Other(String::from_str("Server returned empty error response")),
            );
        }
        match TE::from_json_body(http_response.body.as_slice()) {
            Ok(e) => Err(RequestTokenError::ServerResponse(e)),
            Err(msg) => {
                let mut raw: Vec<u8> = Vec::new();
                crate::emit::push_bytes(http_response.body.as_slice(), &mut raw);
                Err(RequestTokenError::Parse(msg, raw))
            },
        }
    } else {
        // Section 3.1.1.1 of RFC 7231: media types are case-insensitive and
        // may be followed by a parameter such as `charset`.
        match find_header(&http_response.headers, "content-type") {
            Some(v) => {
                let lb = lower_bytes_vec(v.as_str().as_bytes());
                if !bytes_starts_with(lb.as_slice(), "application/json".as_bytes()) {
                    let mut m = String::from_str("Unexpected response Content-Type: ");
                    m.append(v.as_str());
                    m.append(", should be `application/json`");
                    return Err(RequestTokenError::Other(m));
                }
            },
            None => {},
        }
        if http_response.body.len() == 0 {
            return Err(
                RequestTokenError::Other(String::from_str("Server returned empty response body")),
            );
        }
        match DO::from_json_body(http_response.body.as_slice()) {
            Ok(v) => Ok(v),
            Err(msg) => {
                let mut raw: Vec<u8> = Vec::new();
                crate::emit::push_bytes(http_response.body.as_slice(), &mut raw);
                Err(RequestTokenError::Parse(msg, raw))
            },
        }
    }
}

} // verus!
