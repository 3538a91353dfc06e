//! Locating the sourcemap reference a script declares, by response header or by
//! pragma comment, and the minification heuristic.
use vstd::prelude::*;
use vstd::string::StrSliceExecFns;
use crate::text::{opt_view, pairs_view};

verus! {

/// The reference that the pragma comment of `body` gives, as the `sourcemap` crate
/// locates it.
pub uninterp spec fn pragma_reference(body: Seq<char>) -> Option<Seq<char>>;

/// Whether `might_be_minified` judges `body` to be likely minified.
pub uninterp spec fn likely_minified(body: Seq<char>) -> bool;

/// Relies on `sourcemap::locate_sourcemap_reference_slice` and
/// `sourcemap::SourceMapRef::get_url`: the URL of the pragma comment, if any.
#[verifier::external_body]
pub(crate) fn locate_pragma(body: &str) -> (r: Option<String>)
    ensures
        opt_view(r) == pragma_reference(body@),
{
    match sourcemap::locate_sourcemap_reference_slice(body.as_bytes()) {
        Ok(Some(r)) => Some(r.get_url().to_string()),
        _ => None,
    }
}

/// Relies on `might_be_minified::analyze_str` and `Analysis::is_likely_minified`.
#[verifier::external_body]
pub(crate) fn is_likely_minified(body: &str) -> (r: bool)
    ensures
        r == likely_minified(body@),
{
    might_be_minified::analyze_str(body).is_likely_minified()
}

/// Whether `c` is the letter `lower` in either case (ASCII).
pub open spec fn same_letter(c: char, lower: char) -> bool {
    c == lower || ('A' <= c <= 'Z' && c as u32 + 32 == lower as u32)
}

/// Whether the header name `h` is `name` (lower case), compared case-insensitively.
pub open spec fn names_header(h: Seq<char>, name: Seq<char>) -> bool {
    h.len() == name.len() && forall|i: int| 0 <= i < h.len() ==> same_letter(h[i], name[i])
}

/// The value of the first header of `hs` named `name`.
pub open spec fn header_value(hs: Seq<(Seq<char>, Seq<char>)>, name: Seq<char>) -> Option<Seq<char>>
    decreases hs.len(),
{
    if hs.len() == 0 {
        None
    } else if names_header(hs[0].0, name) {
        Some(hs[0].1)
    } else {
        header_value(hs.drop_first(), name)
    }
}

/// The sourcemap reference the headers declare: `sourcemap` first, then `x-sourcemap`.
pub open spec fn header_reference(hs: Seq<(Seq<char>, Seq<char>)>) -> Option<Seq<char>> {
    match header_value(hs, "sourcemap"@) {
        Some(v) => Some(v),
        None => header_value(hs, "x-sourcemap"@),
    }
}

/// The sourcemap reference a script declares: a header, else its pragma comment.
pub open spec fn declared_reference(hs: Seq<(Seq<char>, Seq<char>)>, body: Seq<char>) -> Option<Seq<char>> {
    match header_reference(hs) {
        Some(v) => Some(v),
        None => pragma_reference(body),
    }
}

fn header_name_is(h: &str, name: &str) -> (r: bool)
    ensures
        r == names_header(h@, name@),
{
    let n = h.unicode_len();
    if n != name.unicode_len() {
        return false;
    }
    let mut i: usize = 0;
    while i < n
        invariant
            n == h@.len(),
            n == name@.len(),
            i <= n,
            forall|j: int| 0 <= j < i ==> same_letter(h@[j], name@[j]),
        decreases n - i,
    {
        let c = h.get_char(i);
        let l = name.get_char(i);
        if !(c == l || ('A' <= c && c <= 'Z' && c as u32 + 32 == l as u32)) {
            return false;
        }
        i = i + 1;
    }
    true
}

/// The value of the first header named `name` (given in lower case).
pub fn find_header(headers: &Vec<(String, String)>, name: &str) -> (r: Option<String>)
    ensures
        opt_view(r) == header_value(pairs_view(headers@), name@),
{
    let ghost hv = pairs_view(headers@);
    let mut i: usize = 0;
    assert(hv.subrange(0, hv.len() as int) =~= hv);
    while i < headers.len()
        invariant
            i <= headers@.len(),
            hv == pairs_view(headers@),
            header_value(hv, name@) == header_value(hv.subrange(i as int, hv.len() as int), name@),
        decreases headers@.len() - i,
    {
        let ghost rest = hv.subrange(i as int, hv.len() as int);
        assert(rest[0] == hv[i as int]);
        assert(hv[i as int] == (headers@[i as int].0@, headers@[i as int].1@));
        if header_name_is(headers[i].0.as_str(), name) {
            return Some(headers[i].1.clone());
        }
        assert(rest.drop_first() =~= hv.subrange(i + 1, hv.len() as int));
        i = i + 1;
    }
    assert(hv.subrange(i as int, hv.len() as int).len() == 0);
    None
}

/// The sourcemap reference that the response headers declare.
pub fn sourcemap_header(headers: &Vec<(String, String)>) -> (r: Option<String>)
    ensures
        opt_view(r) == header_reference(pairs_view(headers@)),
{
    proof {
        reveal_strlit("sourcemap");
        reveal_strlit("x-sourcemap");
    }
    match find_header(headers, "sourcemap") {
        Some(v) => Some(v),
        None => find_header(headers, "x-sourcemap"),
    }
}

/// The sourcemap reference a script declares, by header or by pragma comment. The
/// reference may be relative: it is to be resolved against the script's URL.
pub fn sourcemap_reference(headers: &Vec<(String, String)>, body: &str) -> (r: Option<String>)
    ensures
        opt_view(r) == declared_reference(pairs_view(headers@), body@),
{
    match sourcemap_header(headers) {
        Some(v) => Some(v),
        None => locate_pragma(body),
    }
}

} // verus!
