//! The per-script decisions of an analysis run and the tally of their outcomes.
//!
//! A script is analysed in steps: the caller performs the fetch that an [`Action`]
//! asks for and hands the response to the next step, until an [`Outcome`] is reached.
use vstd::prelude::*;
use crate::cdn::{is_cdn_url, is_community_cdn_host};
use crate::reference::{declared_reference, header_reference, pragma_reference, is_likely_minified, likely_minified, sourcemap_reference};
use crate::text::pairs_view;
use crate::urls::{domain_of, join_url, joined, url_domain};

verus! {

/// What became of one script.
pub enum Outcome {
    /// Served from this community CDN host; not analysed.
    Ignored(String),
    /// The script could not be fetched; the status code.
    FetchFailed(u16),
    /// Not minified and declaring no sourcemap.
    Unminified,
    /// Minified but declaring no sourcemap.
    MissingReference,
    /// The declared reference cannot be resolved against the script's URL.
    UnresolvableReference(String),
    /// The sourcemap at this URL could not be fetched; the status code.
    BrokenReference(String, u16),
    /// The sourcemap at this URL was fetched.
    Valid(String),
}

/// The next step for one script.
pub enum Action {
    /// Fetch the script at this URL.
    FetchScript(String),
    /// Fetch the sourcemap at this URL.
    FetchSourcemap(String),
    /// Nothing more to fetch.
    Finish(Outcome),
}

/// A fetched response: its terminal status, its headers and its body.
pub struct ScriptResponse {
    pub status: u16,
    pub headers: Vec<(String, String)>,
    pub body: String,
}

/// Whether `status` is a success (2xx).
pub open spec fn is_success(status: u16) -> bool {
    200 <= status < 300
}

/// Whether `status` is a success (2xx): a fetched resource, or a source that can be
/// scraped.
pub fn is_success_status(status: u16) -> (r: bool)
    ensures
        r == is_success(status),
{
    200 <= status && status < 300
}

/// The first step for the script at `script_url`: community CDN scripts are
/// finished at once, with no network call; any other is fetched.
pub fn start_script(script_url: &str) -> (r: Action)
    ensures
        is_cdn_url(script_url@) ==> (r matches Action::Finish(Outcome::Ignored(h))
            && domain_of(script_url@) == Some(h@)),
        !is_cdn_url(script_url@) ==> (r matches Action::FetchScript(u) && u@ == script_url@),
{
    match url_domain(script_url) {
        Some(h) => {
            if is_community_cdn_host(h.as_str()) {
                Action::Finish(Outcome::Ignored(h))
            } else {
                Action::FetchScript(script_url.to_string())
            }
        },
        None => Action::FetchScript(script_url.to_string()),
    }
}

/// Whether `r` is the step owed to a script at `script_url` that declares
/// `reference` and is minified or not.
pub open spec fn reference_step(
    r: Action,
    script_url: Seq<char>,
    reference: Option<Seq<char>>,
    minified: bool,
) -> bool {
    match reference {
        Some(s) => match joined(script_url, s) {
            Some(u) => r matches Action::FetchSourcemap(v) && v@ == u,
            None => r matches Action::Finish(Outcome::UnresolvableReference(v)) && v@ == s,
        },
        None => if minified {
            r matches Action::Finish(Outcome::MissingReference)
        } else {
            r matches Action::Finish(Outcome::Unminified)
        },
    }
}

/// The step after a script was fetched, given the reference it declares and whether
/// it is minified. The reference is resolved against the script's URL.
pub fn classify_reference(script_url: &str, reference: Option<String>, minified: bool) -> (r: Action)
    ensures
        reference_step(r, script_url@, match reference {
            Some(s) => Some(s@),
            None => None,
        }, minified),
{
    match reference {
        Some(s) => match join_url(script_url, s.as_str()) {
            Some(u) => Action::FetchSourcemap(u),
            None => Action::Finish(Outcome::UnresolvableReference(s)),
        },
        None => if minified {
            Action::Finish(Outcome::MissingReference)
        } else {
            Action::Finish(Outcome::Unminified)
        },
    }
}

/// The step after the script at `script_url` was fetched with response `resp`.
/// A failed fetch finishes the script; otherwise the declared reference (header,
/// else pragma) decides, and without one the minification heuristic does.
pub fn after_script(script_url: &str, resp: &ScriptResponse) -> (r: Action)
    ensures
        !is_success(resp.status) ==> (r matches Action::Finish(Outcome::FetchFailed(s)) && s
            == resp.status),
        is_success(resp.status) ==> reference_step(
            r,
            script_url@,
            declared_reference(pairs_view(resp.headers@), resp.body@),
            likely_minified(resp.body@),
        ),
{
    if !is_success_status(resp.status) {
        return Action::Finish(Outcome::FetchFailed(resp.status));
    }
    let reference = sourcemap_reference(&resp.headers, resp.body.as_str());
    let minified = match &reference {
        Some(_) => false,
        None => is_likely_minified(resp.body.as_str()),
    };
    classify_reference(script_url, reference, minified)
}

/// A script that declares no reference by header but a pragma comment naming `r`
/// has its sourcemap looked up at `r` resolved against the script's own URL.
pub proof fn lemma_pragma_resolves_against_script(
    script_url: Seq<char>,
    headers: Seq<(Seq<char>, Seq<char>)>,
    body: Seq<char>,
    r: Seq<char>,
    minified: bool,
    a: Action,
)
    requires
        header_reference(headers) is None,
        pragma_reference(body) == Some(r),
        reference_step(a, script_url, declared_reference(headers, body), minified),
    ensures
        joined(script_url, r) matches Some(u) ==> (a matches Action::FetchSourcemap(v) && v@ == u),
        joined(script_url, r) is None ==> (a matches Action::Finish(
            Outcome::UnresolvableReference(v),
        ) && v@ == r),
{
}

/// The outcome once the sourcemap at `sourcemap_url` was fetched with `status`.
pub fn after_sourcemap(sourcemap_url: String, status: u16) -> (r: Outcome)
    ensures
        is_success(status) ==> (r matches Outcome::Valid(u) && u@ == sourcemap_url@),
        !is_success(status) ==> (r matches Outcome::BrokenReference(u, s) && u@ == sourcemap_url@
            && s == status),
{
    if is_success_status(status) {
        Outcome::Valid(sourcemap_url)
    } else {
        Outcome::BrokenReference(sourcemap_url, status)
    }
}

/// A script that lacks, or may lack, an uploaded sourcemap: the script's URL, the
/// sourcemap's URL where one was resolved, and whether that sourcemap was fetched.
pub struct UploadCandidate {
    pub script_url: String,
    pub sourcemap_url: Option<String>,
    pub resolved: bool,
}

/// The running tally of an analysis run.
pub struct Report {
    pub ignored: u64,
    pub fetch_failed: u64,
    pub unminified: u64,
    pub missing_reference: u64,
    pub broken_reference: u64,
    pub valid: u64,
    pub candidates: Vec<UploadCandidate>,
}

/// The conclusion of a run.
#[derive(PartialEq, Eq, Structural, Clone, Copy, Debug)]
pub enum Verdict {
    /// This many scripts lack a usable sourcemap.
    Missing(u128),
    /// None lack one; this many fetched sourcemaps may still be worth uploading.
    NoneMissing(usize),
}

impl Report {
    /// Whether each counter can still be raised.
    pub open spec fn has_room(self) -> bool {
        &&& self.ignored < u64::MAX
        &&& self.fetch_failed < u64::MAX
        &&& self.unminified < u64::MAX
        &&& self.missing_reference < u64::MAX
        &&& self.broken_reference < u64::MAX
        &&& self.valid < u64::MAX
    }

    /// Each listed script was counted as missing, broken or valid, once.
    pub open spec fn wf(self) -> bool {
        self.candidates@.len() == self.missing_reference + self.broken_reference + self.valid
    }

    /// The number of scripts that lack a usable sourcemap.
    pub open spec fn missing(self) -> int {
        self.missing_reference + self.broken_reference
    }

    /// An empty tally.
    pub fn new() -> (r: Report)
        ensures
            r.ignored == 0 && r.fetch_failed == 0 && r.unminified == 0,
            r.missing_reference == 0 && r.broken_reference == 0 && r.valid == 0,
            r.candidates@.len() == 0,
            r.wf(),
    {
        Report {
            ignored: 0,
            fetch_failed: 0,
            unminified: 0,
            missing_reference: 0,
            broken_reference: 0,
            valid: 0,
            candidates: Vec::new(),
        }
    }

    /// Records the outcome of the script at `script_url`: the matching counter is
    /// raised, and a script that lacks or may lack an uploaded sourcemap is listed.
    pub fn record(&mut self, script_url: String, outcome: Outcome)
        requires
            old(self).has_room(),
            old(self).wf(),
        ensures
            final(self).wf(),
            match outcome {
                Outcome::Ignored(_) => final(self).ignored == old(self).ignored + 1
                    && final(self).candidates@ == old(self).candidates@,
                Outcome::FetchFailed(_) => final(self).fetch_failed == old(self).fetch_failed + 1
                    && final(self).candidates@ == old(self).candidates@,
                Outcome::Unminified => final(self).unminified == old(self).unminified + 1
                    && final(self).candidates@ == old(self).candidates@,
                Outcome::MissingReference => final(self).missing_reference
                    == old(self).missing_reference + 1 && final(self).candidates@.len()
                    == old(self).candidates@.len() + 1 && final(self).candidates@.drop_last()
                    == old(self).candidates@ && final(self).candidates@.last().script_url@
                    == script_url@ && final(self).candidates@.last().sourcemap_url is None
                    && !final(self).candidates@.last().resolved,
                Outcome::UnresolvableReference(_) => final(self).broken_reference
                    == old(self).broken_reference + 1 && final(self).candidates@.len()
                    == old(self).candidates@.len() + 1 && final(self).candidates@.drop_last()
                    == old(self).candidates@ && final(self).candidates@.last().script_url@
                    == script_url@ && final(self).candidates@.last().sourcemap_url is None
                    && !final(self).candidates@.last().resolved,
                Outcome::BrokenReference(u, _) => final(self).broken_reference
                    == old(self).broken_reference + 1 && final(self).candidates@.len()
                    == old(self).candidates@.len() + 1 && final(self).candidates@.drop_last()
                    == old(self).candidates@ && final(self).candidates@.last().script_url@
                    == script_url@ && final(self).candidates@.last().sourcemap_url == Some(u)
                    && !final(self).candidates@.last().resolved,
                Outcome::Valid(u) => final(self).valid == old(self).valid + 1
                    && final(self).candidates@.len() == old(self).candidates@.len() + 1
                    && final(self).candidates@.drop_last() == old(self).candidates@
                    && final(self).candidates@.last().script_url@ == script_url@
                    && final(self).candidates@.last().sourcemap_url == Some(u)
                    && final(self).candidates@.last().resolved,
            },
            !(outcome is Ignored) ==> final(self).ignored == old(self).ignored,
            !(outcome is FetchFailed) ==> final(self).fetch_failed == old(self).fetch_failed,
            !(outcome is Unminified) ==> final(self).unminified == old(self).unminified,
            !(outcome is MissingReference) ==> final(self).missing_reference
                == old(self).missing_reference,
            !(outcome is UnresolvableReference || outcome is BrokenReference) ==> final(self).broken_reference
                == old(self).broken_reference,
            !(outcome is Valid) ==> final(self).valid == old(self).valid,
    {
        match outcome {
            Outcome::Ignored(_) => {
                self.ignored = self.ignored + 1;
            },
            Outcome::FetchFailed(_) => {
                self.fetch_failed = self.fetch_failed + 1;
            },
            Outcome::Unminified => {
                self.unminified = self.unminified + 1;
            },
            Outcome::MissingReference => {
                self.missing_reference = self.missing_reference + 1;
                self.candidates.push(
                    UploadCandidate { script_url, sourcemap_url: None, resolved: false },
                );
            },
            Outcome::UnresolvableReference(_) => {
                self.broken_reference = self.broken_reference + 1;
                self.candidates.push(
                    UploadCandidate { script_url, sourcemap_url: None, resolved: false },
                );
            },
            Outcome::BrokenReference(u, _) => {
                self.broken_reference = self.broken_reference + 1;
                self.candidates.push(
                    UploadCandidate { script_url, sourcemap_url: Some(u), resolved: false },
                );
            },
            Outcome::Valid(u) => {
                self.valid = self.valid + 1;
                self.candidates.push(
                    UploadCandidate { script_url, sourcemap_url: Some(u), resolved: true },
                );
            },
        }
    }

    /// The number of scripts that lack a usable sourcemap.
    pub fn missing_count(&self) -> (r: u128)
        ensures
            r == self.missing(),
    {
        self.missing_reference as u128 + self.broken_reference as u128
    }

    /// The conclusion of the run so far.
    pub fn verdict(&self) -> (r: Verdict)
        ensures
            self.missing() > 0 ==> r == Verdict::Missing(self.missing() as u128),
            self.missing() == 0 ==> r == Verdict::NoneMissing(self.candidates@.len() as usize),
    {
        let m = self.missing_count();
        if m > 0 {
            Verdict::Missing(m)
        } else {
            Verdict::NoneMissing(self.candidates.len())
        }
    }
}

} // verus!
