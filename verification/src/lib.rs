//! A small HTTP redirect resolver: a request path names a key, the key names a
//! mapping file, and the file's trimmed content is the absolute URL the client
//! is redirected to. The request pipeline — method check, path validation,
//! lookup resolution and response construction — lives here; the surrounding
//! server hands in the method, the path and the mapping file's content as
//! plain values and sends the resulting response envelope back out.

use vstd::prelude::*;

pub mod key;
pub mod resolve;
pub mod response;

use crate::key::{chars_vec, strip_slash, valid_key, validate_path};
use crate::resolve::{lookup_url, resolve_content};
use crate::response::{build_response, json_string_of, plain_json_seq, Outcome, ResponseEnvelope};

verus! {

/// The only method the resolver serves.
pub open spec fn method_get() -> Seq<char> {
    seq!['G', 'E', 'T']
}

/// Whether `method` is GET.
pub fn is_get(method: &str) -> (b: bool)
    ensures
        b == (method@ == method_get()),
{
    let v = chars_vec(method);
    let b = v.len() == 3 && v[0] == 'G' && v[1] == 'E' && v[2] == 'T';
    proof {
        if b {
            assert(method@ =~= method_get());
        }
    }
    b
}

/// The status code of the response to a request with method `m`, path `p`
/// and mapping-file content `c` (`None` when no file could be read).
pub open spec fn response_status_for(m: Seq<char>, p: Seq<char>, c: Option<Seq<char>>) -> u16 {
    if m != method_get() {
        405
    } else if !valid_key(strip_slash(p)) {
        400
    } else if lookup_url(c) is Some {
        301
    } else {
        404
    }
}

/// The JSON body of the response to a request.
pub open spec fn response_body_for(m: Seq<char>, p: Seq<char>, c: Option<Seq<char>>) -> Seq<
    char,
> {
    if m != method_get() {
        "{\"error\":\"invalid method\"}"@
    } else if !valid_key(strip_slash(p)) {
        "{\"error\":\"invalid path\"}"@
    } else {
        match lookup_url(c) {
            Option::Some(u) => "{\"error\":null,\"url\":"@ + json_string_of(u) + "}"@,
            Option::None => "{\"error\":\"not found\"}"@,
        }
    }
}

/// The `Location` header of the response to a request: the target URL when
/// the lookup succeeded, nothing otherwise.
pub open spec fn response_location_for(m: Seq<char>, p: Seq<char>, c: Option<Seq<char>>) -> Option<
    Seq<char>,
> {
    if m == method_get() && valid_key(strip_slash(p)) {
        lookup_url(c)
    } else {
        Option::None
    }
}

/// Whether `e` is the response the pipeline owes to a request with method
/// `m`, path `p` and mapping-file content `c`.
pub open spec fn is_response_for(
    e: ResponseEnvelope,
    m: Seq<char>,
    p: Seq<char>,
    c: Option<Seq<char>>,
) -> bool {
    &&& e.status == response_status_for(m, p, c)
    &&& e.body@ == response_body_for(m, p, c)
    &&& e.location.deep_view() == response_location_for(m, p, c)
}

/// The whole pipeline behind the listener: method check, path validation,
/// lookup resolution, response construction. The caller reads the mapping
/// file named by `resolve::mapping_path` and hands its content in as
/// `content`, `None` when there was no readable file; for a request it
/// rejects before the lookup it may hand in anything, the response does not
/// depend on it.
pub fn handle_request(method: &str, path: &str, content: Option<String>) -> (e: ResponseEnvelope)
    ensures
        is_response_for(e, method@, path@, content.deep_view()),
        response_location_for(method@, path@, content.deep_view()) matches Some(u) ==> (
        plain_json_seq(u) ==> e.body@ == ("{\"error\":null,\"url\":\""@ + u + "\"}"@)),
{
    if !is_get(method) {
        build_response(Outcome::BadMethod)
    } else if !validate_path(path) {
        build_response(Outcome::BadPath)
    } else {
        build_response(resolve_content(content))
    }
}

/// Responses are idempotent: two responses to one and the same method, path
/// and mapping-file content are identical byte for byte, so a repeated
/// request whose mapping file did not change in between gets the very same
/// response again.
pub proof fn lemma_response_idempotent(
    e1: ResponseEnvelope,
    e2: ResponseEnvelope,
    m: Seq<char>,
    p: Seq<char>,
    c: Option<Seq<char>>,
)
    requires
        is_response_for(e1, m, p, c),
        is_response_for(e2, m, p, c),
    ensures
        e1.status == e2.status,
        e1.body@ == e2.body@,
        e1.location.deep_view() == e2.location.deep_view(),
{
}

/// Requests are independent: a response is a function of its own request's
/// method, path and mapping-file content alone, so of two concurrent
/// requests to valid keys whose files hold absolute URLs, each succeeds with
/// its own target URL, whatever the other one saw.
pub proof fn lemma_requests_independent(
    e1: ResponseEnvelope,
    m1: Seq<char>,
    p1: Seq<char>,
    c1: Option<Seq<char>>,
    e2: ResponseEnvelope,
    m2: Seq<char>,
    p2: Seq<char>,
    c2: Option<Seq<char>>,
)
    requires
        is_response_for(e1, m1, p1, c1),
        is_response_for(e2, m2, p2, c2),
        m1 == method_get(),
        m2 == method_get(),
        valid_key(strip_slash(p1)),
        valid_key(strip_slash(p2)),
        lookup_url(c1) is Some,
        lookup_url(c2) is Some,
    ensures
        e1.status == 301,
        e2.status == 301,
        e1.location.deep_view() == lookup_url(c1),
        e2.location.deep_view() == lookup_url(c2),
{
}

/// Failed lookups are indistinguishable from outside: whether the mapping
/// file was missing, unreadable, or held content that is no absolute URL,
/// the responses to two such requests on one method and path are the same —
/// and for a GET to a well-formed key they are exactly the not-found
/// response, status 404 with no `Location`.
pub proof fn lemma_failures_indistinguishable(
    m: Seq<char>,
    p: Seq<char>,
    c1: Option<Seq<char>>,
    c2: Option<Seq<char>>,
)
    requires
        lookup_url(c1) is None,
        lookup_url(c2) is None,
    ensures
        response_status_for(m, p, c1) == response_status_for(m, p, c2),
        response_body_for(m, p, c1) == response_body_for(m, p, c2),
        response_location_for(m, p, c1) == response_location_for(m, p, c2),
        (m == method_get() && valid_key(strip_slash(p))) ==> response_status_for(m, p, c1) == 404
            && response_location_for(m, p, c1) is None,
{
}

/// A request whose method is not GET is turned away with 405 and the
/// invalid-method body before the path is validated or any file is read:
/// the response is the same whatever path and content came with it.
pub proof fn lemma_non_get_rejected(m: Seq<char>, p: Seq<char>, c: Option<Seq<char>>)
    requires
        m != method_get(),
    ensures
        response_status_for(m, p, c) == 405,
        response_body_for(m, p, c) == "{\"error\":\"invalid method\"}"@,
        response_location_for(m, p, c) is None,
{
}

} // verus!
