//! Response construction: the terminal outcome of a request and the HTTP
//! response envelope built from it.
//!
//! Every response carries a JSON body with an `error` field, `null` on
//! success; a success additionally carries the target URL in the body and in
//! a `Location` header. The envelope holds plain values — a status code, the
//! body text, the optional header value — for the surrounding server to send.

use vstd::prelude::*;
use vstd::string::StringExecFns;

verus! {

/// The terminal classification of one request.
pub enum Outcome {
    /// The key resolved: redirect to `url`.
    Redirect { url: String },
    /// The request method was not GET.
    BadMethod,
    /// The request path did not name a well-formed key.
    BadPath,
    /// The key did not resolve to an absolute URL.
    NotFound,
}

/// One HTTP response, as plain values: the status code, the JSON body, and
/// the value of the `Location` header when one is to be sent. The body is
/// always JSON, so the content type of every response is `application/json`.
pub struct ResponseEnvelope {
    pub status: u16,
    pub body: String,
    pub location: Option<String>,
}

/// The JSON string literal that `serde_json` serializes `s` to: `s` between
/// double quotes, with the characters JSON cannot carry raw escaped. Stands
/// for what `serde_json::to_string` makes of `s`, which depends on `s` alone.
pub uninterp spec fn json_string_of(s: Seq<char>) -> Seq<char>;

/// A character that JSON string serialization copies unchanged: anything but
/// the double quote, the backslash and the control characters.
pub open spec fn plain_json_char(c: char) -> bool {
    c != '"' && c != '\\' && c as u32 >= 0x20
}

/// A string of plain characters serializes to itself between double quotes.
pub open spec fn plain_json_seq(s: Seq<char>) -> bool {
    forall|i: int| 0 <= i < s.len() ==> plain_json_char(#[trigger] s[i])
}

/// Relies on `serde_json::to_string` on a string value: it cannot fail
/// there — only a failing `Serialize` impl or a map with non-string keys
/// can make it fail, and writing to the backing `Vec<u8>` always succeeds —
/// and it copies every byte unchanged between two double quotes, except the
/// double quote, the backslash and the control characters, which it escapes.
#[verifier::external_body]
fn json_quote(s: &str) -> (r: String)
    ensures
        r@ == json_string_of(s@),
        plain_json_seq(s@) ==> r@ == seq!['"'] + s@ + seq!['"'],
{
    serde_json::to_string(s).unwrap_or_else(|_| String::new())
}

/// The status code of an outcome.
pub open spec fn status_of(o: Outcome) -> u16 {
    match o {
        Outcome::Redirect { .. } => 301,
        Outcome::BadMethod => 405,
        Outcome::BadPath => 400,
        Outcome::NotFound => 404,
    }
}

/// The JSON body of an outcome.
pub open spec fn body_of(o: Outcome) -> Seq<char> {
    match o {
        Outcome::Redirect { url } => "{\"error\":null,\"url\":"@ + json_string_of(url@) + "}"@,
        Outcome::BadMethod => "{\"error\":\"invalid method\"}"@,
        Outcome::BadPath => "{\"error\":\"invalid path\"}"@,
        Outcome::NotFound => "{\"error\":\"not found\"}"@,
    }
}

/// The `Location` header of an outcome: the target URL on success, nothing
/// otherwise.
pub open spec fn location_of(o: Outcome) -> Option<Seq<char>> {
    match o {
        Outcome::Redirect { url } => Option::Some(url@),
        _ => Option::None,
    }
}

/// Builds the response for an outcome: its status code, its JSON body, and,
/// on success only, the `Location` header. For a target URL free of JSON
/// escapes the body is exactly `{"error":null,"url":"<url>"}`.
pub fn build_response(o: Outcome) -> (e: ResponseEnvelope)
    ensures
        e.status == status_of(o),
        e.body@ == body_of(o),
        e.location.deep_view() == location_of(o),
        o matches Outcome::Redirect { url } ==> (plain_json_seq(url@) ==> e.body@ == (
        "{\"error\":null,\"url\":\""@ + url@ + "\"}"@)),
{
    match o {
        Outcome::Redirect { url } => {
            let quoted = json_quote(url.as_str());
            let body = "{\"error\":null,\"url\":".to_owned().concat(quoted.as_str()).concat("}");
            proof {
                if plain_json_seq(url@) {
                    reveal_strlit("{\"error\":null,\"url\":");
                    reveal_strlit("{\"error\":null,\"url\":\"");
                    reveal_strlit("}");
                    reveal_strlit("\"}");
                    assert(body@ =~= "{\"error\":null,\"url\":\""@ + url@ + "\"}"@);
                }
            }
            ResponseEnvelope { status: 301, body, location: Option::Some(url) }
        },
        Outcome::BadMethod => ResponseEnvelope {
            status: 405,
            body: "{\"error\":\"invalid method\"}".to_owned(),
            location: Option::None,
        },
        Outcome::BadPath => ResponseEnvelope {
            status: 400,
            body: "{\"error\":\"invalid path\"}".to_owned(),
            location: Option::None,
        },
        Outcome::NotFound => ResponseEnvelope {
            status: 404,
            body: "{\"error\":\"not found\"}".to_owned(),
            location: Option::None,
        },
    }
}

/// The content type every response is sent with.
pub fn content_type() -> (r: &'static str)
    ensures
        r@ == "application/json"@,
{
    "application/json"
}

} // verus!
