//! Path validation: the key syntax and the rule that turns a request path
//! into a lookup key.
//!
//! A key is one or more segments of ASCII letters, digits and underscores,
//! joined by single `-` or `.` separators: no other characters, no empty
//! segments, no separator at either end and no two separators in a row.

use vstd::prelude::*;

verus! {

/// A character that may appear inside a key segment.
pub open spec fn is_segment_char(c: char) -> bool {
    ('a' <= c && c <= 'z') || ('A' <= c && c <= 'Z') || ('0' <= c && c <= '9') || c == '_'
}

/// A character that may join two key segments.
pub open spec fn is_separator_char(c: char) -> bool {
    c == '-' || c == '.'
}

/// The key syntax: non-empty, every character a segment character or a
/// separator, a segment character at both ends, and never two separators
/// side by side. This names exactly the strings of the form
/// `segment (separator segment)*` with non-empty segments.
pub open spec fn valid_key(s: Seq<char>) -> bool {
    &&& s.len() > 0
    &&& is_segment_char(s[0])
    &&& is_segment_char(s[s.len() - 1])
    &&& forall|i: int|
        0 <= i < s.len() ==> is_segment_char(#[trigger] s[i]) || is_separator_char(s[i])
    &&& forall|i: int|
        0 <= i < s.len() - 1 ==> !(is_separator_char(#[trigger] s[i]) && is_separator_char(
            s[i + 1],
        ))
}

/// The request path with one leading `/` removed, when one is there.
pub open spec fn strip_slash(p: Seq<char>) -> Seq<char> {
    if p.len() > 0 && p[0] == '/' {
        p.subrange(1, p.len() as int)
    } else {
        p
    }
}

/// The characters of `s`, as a vector.
pub fn chars_vec(s: &str) -> (v: Vec<char>)
    ensures
        v@ == s@,
{
    let mut v: Vec<char> = Vec::new();
    for c in it: s.chars()
        invariant
            v@ =~= it.seq().take(it.index() as int),
            it.seq() == s@,
    {
        v.push(c);
    }
    proof {
        assert(v@ =~= s@);
    }
    v
}

fn seg_char(c: char) -> (b: bool)
    ensures
        b == is_segment_char(c),
{
    ('a' <= c && c <= 'z') || ('A' <= c && c <= 'Z') || ('0' <= c && c <= '9') || c == '_'
}

fn sep_char(c: char) -> (b: bool)
    ensures
        b == is_separator_char(c),
{
    c == '-' || c == '.'
}

/// Whether the characters of `v` from position `start` on form a valid key.
fn valid_from(v: &Vec<char>, start: usize) -> (b: bool)
    requires
        start <= v.len(),
    ensures
        b == valid_key(v@.skip(start as int)),
{
    let ghost s = v@.skip(start as int);
    let n = v.len();
    if start >= n {
        return false;
    }
    if !seg_char(v[start]) {
        assert(s[0] == v@[start as int]);
        return false;
    }
    let mut i: usize = start + 1;
    while i < n
        invariant
            start < i <= n,
            n == v.len(),
            s == v@.skip(start as int),
            is_segment_char(v@[start as int]),
            forall|j: int|
                start <= j < i ==> is_segment_char(#[trigger] v@[j]) || is_separator_char(v@[j]),
            forall|j: int|
                start <= j < i - 1 ==> !(is_separator_char(#[trigger] v@[j]) && is_separator_char(
                    v@[j + 1],
                )),
        decreases n - i,
    {
        let c = v[i];
        if !seg_char(c) && !sep_char(c) {
            assert(s[i - start] == v@[i as int]);
            return false;
        }
        if sep_char(c) && sep_char(v[i - 1]) {
            assert(s[i - 1 - start] == v@[i - 1]);
            assert(s[i - start] == v@[i as int]);
            return false;
        }
        i = i + 1;
    }
    if !seg_char(v[n - 1]) {
        assert(s[s.len() - 1] == v@[n - 1]);
        return false;
    }
    assert forall|j: int| 0 <= j < s.len() implies is_segment_char(#[trigger] s[j])
        || is_separator_char(s[j]) by {
        assert(s[j] == v@[start + j]);
    }
    assert forall|j: int| 0 <= j < s.len() - 1 implies !(is_separator_char(#[trigger] s[j])
        && is_separator_char(s[j + 1])) by {
        assert(s[j] == v@[start + j]);
        assert(s[j + 1] == v@[start + j + 1]);
    }
    assert(s[0] == v@[start as int]);
    assert(s[s.len() - 1] == v@[n - 1]);
    true
}

/// Whether `s` is a well-formed redirect key.
pub fn is_valid_key(s: &str) -> (b: bool)
    ensures
        b == valid_key(s@),
{
    let v = chars_vec(s);
    proof {
        assert(v@.skip(0) =~= s@);
    }
    valid_from(&v, 0)
}

/// Whether the request path, after one leading `/` is removed, is a
/// well-formed redirect key.
pub fn validate_path(p: &str) -> (b: bool)
    ensures
        b == valid_key(strip_slash(p@)),
{
    let v = chars_vec(p);
    if v.len() > 0 && v[0] == '/' {
        proof {
            assert(v@.skip(1) =~= strip_slash(p@));
        }
        valid_from(&v, 1)
    } else {
        proof {
            assert(v@.skip(0) =~= strip_slash(p@));
        }
        valid_from(&v, 0)
    }
}

/// A valid key holds no `/` and never two `.` in a row, so joining the data
/// directory and a key with a single `/` cannot name a nested path or a
/// parent directory: the key cannot escape the data directory.
pub proof fn lemma_key_cannot_escape(s: Seq<char>)
    requires
        valid_key(s),
    ensures
        forall|i: int| 0 <= i < s.len() ==> #[trigger] s[i] != '/',
        forall|i: int| 0 <= i < s.len() - 1 ==> !(#[trigger] s[i] == '.' && s[i + 1] == '.'),
{
}

} // verus!
