//! Lookup resolution: the mapping-file path, the trimming of a mapping
//! file's content, and the parse of that content as an absolute URL.
//!
//! The surrounding server reads the mapping file; everything here works on
//! the plain text it hands over. Every failure of the lookup — no file,
//! unreadable file, content that is not an absolute URL — collapses into the
//! same not-found outcome.

use vstd::prelude::*;
use crate::key::strip_slash;
use crate::response::Outcome;

verus! {

/// A character with the Unicode `White_Space` property, the set `str::trim`
/// removes from both ends of a string.
pub open spec fn is_white_space(c: char) -> bool {
    ||| ('\u{0009}' <= c && c <= '\u{000D}')
    ||| c == ' '
    ||| c == '\u{0085}'
    ||| c == '\u{00A0}'
    ||| c == '\u{1680}'
    ||| ('\u{2000}' <= c && c <= '\u{200A}')
    ||| c == '\u{2028}'
    ||| c == '\u{2029}'
    ||| c == '\u{202F}'
    ||| c == '\u{205F}'
    ||| c == '\u{3000}'
}

/// `s` without its leading white space.
pub open spec fn trim_start(s: Seq<char>) -> Seq<char>
    decreases s.len(),
{
    if s.len() > 0 && is_white_space(s[0]) {
        trim_start(s.drop_first())
    } else {
        s
    }
}

/// `s` without its trailing white space.
pub open spec fn trim_end(s: Seq<char>) -> Seq<char>
    decreases s.len(),
{
    if s.len() > 0 && is_white_space(s[s.len() - 1]) {
        trim_end(s.drop_last())
    } else {
        s
    }
}

/// `s` without leading and trailing white space.
pub open spec fn trimmed(s: Seq<char>) -> Seq<char> {
    trim_end(trim_start(s))
}

/// Relies on `str::trim`: it removes the characters with the Unicode
/// `White_Space` property from both ends of the string and nothing else.
#[verifier::external_body]
fn trim_white_space(s: &str) -> (r: &str)
    ensures
        r@ == trimmed(s@),
{
    s.trim()
}

/// The serialization of `s` parsed as an absolute URL, or nothing when `s`
/// does not parse as one. Stands for what `url::Url::parse` makes of `s`,
/// which depends on `s` alone.
pub uninterp spec fn url_of(s: Seq<char>) -> Option<Seq<char>>;

/// Relies on `url::Url::parse` and `url::Url::as_str`: parsing either yields
/// the serialization of an absolute URL or fails, from the input alone.
#[verifier::external_body]
fn parse_absolute_url(s: &str) -> (r: Option<String>)
    ensures
        r is Some <==> url_of(s@) is Some,
        r matches Some(u) ==> Some(u@) == url_of(s@),
{
    match url::Url::parse(s) {
        Ok(u) => Some(u.as_str().to_string()),
        Err(_) => None,
    }
}

/// What the lookup yields for a mapping file's content: the target URL when
/// the file was there and its trimmed content parses as an absolute URL,
/// nothing otherwise.
pub open spec fn lookup_url(content: Option<Seq<char>>) -> Option<Seq<char>> {
    match content {
        Option::None => Option::None,
        Option::Some(text) => url_of(trimmed(text)),
    }
}

/// Resolves a mapping file's content, handed over as `None` when the file
/// was missing or unreadable, to the outcome of the lookup.
pub fn resolve_content(content: Option<String>) -> (o: Outcome)
    ensures
        lookup_url(content.deep_view()) is None ==> o == Outcome::NotFound,
        lookup_url(content.deep_view()) matches Some(u) ==> (o matches Outcome::Redirect {
            url,
        } && url@ == u),
{
    match content {
        Option::None => Outcome::NotFound,
        Option::Some(text) => {
            let t = trim_white_space(text.as_str());
            match parse_absolute_url(t) {
                Option::Some(url) => Outcome::Redirect { url },
                Option::None => Outcome::NotFound,
            }
        },
    }
}

/// The file path of the key named by the request path: the data directory
/// and the key joined by a single `/`.
pub fn mapping_path(data_dir: &str, path: &str) -> (r: String)
    ensures
        r@ == data_dir@ + seq!['/'] + strip_slash(path@),
{
    let v = crate::key::chars_vec(path);
    if v.len() > 0 && v[0] == '/' {
        let r = data_dir.to_owned().concat(path);
        proof {
            assert(seq!['/'] + strip_slash(path@) =~= path@);
            assert(r@ =~= data_dir@ + seq!['/'] + strip_slash(path@));
        }
        r
    } else {
        let r = data_dir.to_owned().concat("/").concat(path);
        proof {
            reveal_strlit("/");
            assert(r@ =~= data_dir@ + seq!['/'] + strip_slash(path@));
        }
        r
    }
}

} // verus!
