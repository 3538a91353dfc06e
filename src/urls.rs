//! URL operations, delegated to the `url` crate. URLs are carried as their
//! serialized text.
use vstd::prelude::*;
use vstd::string::StrSliceExecFns;
use crate::text::opt_view;

verus! {

/// The serialization of `base` parsed as an absolute URL with `reference` resolved
/// against it, or `None` where either step fails.
pub uninterp spec fn joined(base: Seq<char>, reference: Seq<char>) -> Option<Seq<char>>;

/// The domain of the URL that `url` parses to, if it parses and has a domain.
pub uninterp spec fn domain_of(url: Seq<char>) -> Option<Seq<char>>;

/// The path component of the URL that `url` parses to, if it parses.
pub uninterp spec fn path_of(url: Seq<char>) -> Option<Seq<char>>;

/// Relies on `url::Url::parse` and `url::Url::join`: standard reference resolution
/// of `reference` against `base`; the result depends on the two texts alone.
#[verifier::external_body]
pub(crate) fn join_url(base: &str, reference: &str) -> (r: Option<String>)
    ensures
        opt_view(r) == joined(base@, reference@),
{
    url::Url::parse(base).and_then(|b| b.join(reference)).ok().map(|u| u.to_string())
}

/// Relies on `url::Url::parse` and `url::Url::domain`.
#[verifier::external_body]
pub(crate) fn url_domain(url: &str) -> (r: Option<String>)
    ensures
        opt_view(r) == domain_of(url@),
{
    url::Url::parse(url).ok().and_then(|u| u.domain().map(|d| d.to_string()))
}

/// Relies on `url::Url::parse` and `url::Url::path`.
#[verifier::external_body]
pub(crate) fn url_path(url: &str) -> (r: Option<String>)
    ensures
        opt_view(r) == path_of(url@),
{
    url::Url::parse(url).ok().map(|u| u.path().to_string())
}

/// The text after the last `/` of `p` (all of `p` when it holds none).
pub open spec fn last_segment(p: Seq<char>) -> Seq<char>
    decreases p.len(),
{
    if p.len() == 0 {
        p
    } else if p.last() == '/' {
        Seq::empty()
    } else {
        last_segment(p.drop_last()).push(p.last())
    }
}

/// The index just past the last `/` of `p`, or 0.
pub open spec fn segment_start(p: Seq<char>) -> int
    decreases p.len(),
{
    if p.len() == 0 {
        0
    } else if p.last() == '/' {
        p.len() as int
    } else {
        segment_start(p.drop_last())
    }
}

proof fn lemma_segment_start(p: Seq<char>)
    ensures
        0 <= segment_start(p) <= p.len(),
        last_segment(p) == p.subrange(segment_start(p), p.len() as int),
        forall|j: int| segment_start(p) <= j < p.len() ==> p[j] != '/',
        segment_start(p) > 0 ==> p[segment_start(p) - 1] == '/',
    decreases p.len(),
{
    if p.len() > 0 && p.last() != '/' {
        lemma_segment_start(p.drop_last());
        assert(last_segment(p) =~= p.subrange(segment_start(p), p.len() as int));
        assert forall|j: int| segment_start(p) <= j < p.len() implies p[j] != '/' by {
            if j < p.len() - 1 {
                assert(p.drop_last()[j] == p[j]);
            }
        }
        if segment_start(p) > 0 {
            assert(p.drop_last()[segment_start(p) - 1] == p[segment_start(p) - 1]);
        }
    } else if p.len() > 0 {
        assert(last_segment(p) =~= p.subrange(segment_start(p), p.len() as int));
    }
}

/// The last `/`-separated segment of a path: the file name of a URL path.
pub fn last_path_segment(p: &str) -> (r: String)
    ensures
        r@ == last_segment(p@),
{
    let n = p.unicode_len();
    let mut start: usize = n;
    while start > 0 && p.get_char(start - 1) != '/'
        invariant
            n == p@.len(),
            start <= n,
            forall|j: int| start <= j < n ==> p@[j] != '/',
        decreases start,
    {
        start = start - 1;
    }
    proof {
        lemma_segment_start(p@);
        lemma_start_unique(p@, start as int);
    }
    String::from_str(p.substring_char(start, n))
}

proof fn lemma_start_unique(p: Seq<char>, s: int)
    requires
        0 <= s <= p.len(),
        forall|j: int| s <= j < p.len() ==> p[j] != '/',
        s == 0 || p[s - 1] == '/',
    ensures
        segment_start(p) == s,
    decreases p.len(),
{
    if p.len() > 0 && s < p.len() {
        lemma_start_unique(p.drop_last(), s);
    }
}

} // verus!
