//! Correlating scripts with local files: which folders of the working tree hold
//! files named like the scripts or their sourcemaps.
use vstd::prelude::*;
use crate::text::{pairs_view, strings_view, text_eq};
use crate::pipeline::UploadCandidate;
use crate::urls::{last_path_segment, last_segment, path_of, url_path};

verus! {

/// The file name of the URL `url`: the last segment of its path.
pub open spec fn file_name_of(url: Seq<char>) -> Option<Seq<char>> {
    match path_of(url) {
        Some(p) => Some(last_segment(p)),
        None => None,
    }
}

/// The file names of the scripts of `cs`, in order.
pub open spec fn script_file_names(cs: Seq<UploadCandidate>) -> Seq<Seq<char>>
    decreases cs.len(),
{
    if cs.len() == 0 {
        Seq::empty()
    } else {
        match file_name_of(cs.last().script_url@) {
            Some(n) => script_file_names(cs.drop_last()).push(n),
            None => script_file_names(cs.drop_last()),
        }
    }
}

/// The file names of the sourcemaps of `cs` that have one, in order.
pub open spec fn sourcemap_file_names(cs: Seq<UploadCandidate>) -> Seq<Seq<char>>
    decreases cs.len(),
{
    if cs.len() == 0 {
        Seq::empty()
    } else {
        match cs.last().sourcemap_url {
            Some(u) => match file_name_of(u@) {
                Some(n) => sourcemap_file_names(cs.drop_last()).push(n),
                None => sourcemap_file_names(cs.drop_last()),
            },
            None => sourcemap_file_names(cs.drop_last()),
        }
    }
}

/// The file name of the URL `url`, if it parses.
pub fn url_file_name(url: &str) -> (r: Option<String>)
    ensures
        match r {
            Some(s) => file_name_of(url@) == Some(s@),
            None => file_name_of(url@) is None,
        },
{
    match url_path(url) {
        Some(p) => Some(last_path_segment(p.as_str())),
        None => None,
    }
}

/// The file names of the scripts and of the sourcemaps of `cs`.
pub fn known_file_names(cs: &Vec<UploadCandidate>) -> (r: (Vec<String>, Vec<String>))
    ensures
        strings_view(r.0@) == script_file_names(cs@),
        strings_view(r.1@) == sourcemap_file_names(cs@),
{
    let mut js: Vec<String> = Vec::new();
    let mut sm: Vec<String> = Vec::new();
    let mut i: usize = 0;
    while i < cs.len()
        invariant
            i <= cs@.len(),
            strings_view(js@) == script_file_names(cs@.take(i as int)),
            strings_view(sm@) == sourcemap_file_names(cs@.take(i as int)),
        decreases cs@.len() - i,
    {
        let ghost js0 = js@;
        let ghost sm0 = sm@;
        let ghost next = cs@.take(i + 1);
        assert(next.drop_last() =~= cs@.take(i as int));
        assert(next.last() == cs@[i as int]);
        let c = &cs[i];
        match url_file_name(c.script_url.as_str()) {
            Some(n) => {
                js.push(n);
                assert(strings_view(js@) =~= strings_view(js0).push(n@));
            },
            None => {},
        }
        match &c.sourcemap_url {
            Some(u) => match url_file_name(u.as_str()) {
                Some(n) => {
                    sm.push(n);
                    assert(strings_view(sm@) =~= strings_view(sm0).push(n@));
                },
                None => {},
            },
            None => {},
        }
        i = i + 1;
    }
    assert(cs@.take(i as int) =~= cs@);
    (js, sm)
}

/// Whether `v` holds the text `s`.
pub fn contains_text(v: &Vec<String>, s: &str) -> (r: bool)
    ensures
        r == strings_view(v@).contains(s@),
{
    let mut i: usize = 0;
    while i < v.len()
        invariant
            i <= v@.len(),
            forall|j: int| 0 <= j < i ==> v@[j]@ != s@,
        decreases v@.len() - i,
    {
        if text_eq(v[i].as_str(), s) {
            assert(strings_view(v@)[i as int] == s@);
            return true;
        }
        i = i + 1;
    }
    proof {
        if strings_view(v@).contains(s@) {
            let j = choose|j: int| 0 <= j < strings_view(v@).len() && strings_view(v@)[j] == s@;
            assert(v@[j]@ == s@);
        }
    }
    false
}

/// Whether the walked entry `e`, a `(folder, file name)` pair, names a known file.
pub open spec fn entry_matches(js: Seq<Seq<char>>, sm: Seq<Seq<char>>, e: (Seq<char>, Seq<char>)) -> bool {
    js.contains(e.1) || sm.contains(e.1)
}

/// The folders that hold a file whose name is among `js` or `sm`, each once, in the
/// order first met. `entries` are the files of the working tree as
/// `(containing folder, file name)` pairs.
pub fn candidate_folders(js: &Vec<String>, sm: &Vec<String>, entries: &Vec<(String, String)>) -> (r: Vec<String>)
    ensures
        strings_view(r@).no_duplicates(),
        forall|f: Seq<char>|
            strings_view(r@).contains(f) <==> exists|k: int|
                0 <= k < entries@.len() && #[trigger] pairs_view(entries@)[k].0 == f
                    && entry_matches(strings_view(js@), strings_view(sm@), pairs_view(entries@)[k]),
{
    let ghost ev = pairs_view(entries@);
    let ghost jv = strings_view(js@);
    let ghost smv = strings_view(sm@);
    let mut r: Vec<String> = Vec::new();
    let mut i: usize = 0;
    while i < entries.len()
        invariant
            i <= entries@.len(),
            ev == pairs_view(entries@),
            jv == strings_view(js@),
            smv == strings_view(sm@),
            strings_view(r@).no_duplicates(),
            forall|f: Seq<char>|
                strings_view(r@).contains(f) <==> exists|k: int|
                    0 <= k < i && #[trigger] ev[k].0 == f && entry_matches(jv, smv, ev[k]),
        decreases entries@.len() - i,
    {
        let ghost r0 = strings_view(r@);
        assert(ev[i as int] == (entries@[i as int].0@, entries@[i as int].1@));
        let name = entries[i].1.as_str();
        let folder = entries[i].0.as_str();
        if (contains_text(js, name) || contains_text(sm, name)) && !contains_text(&r, folder) {
            r.push(entries[i].0.clone());
            assert(strings_view(r@) =~= r0.push(ev[i as int].0));
            assert forall|f: Seq<char>|
                strings_view(r@).contains(f) <==> exists|k: int|
                    0 <= k < i + 1 && #[trigger] ev[k].0 == f && entry_matches(jv, smv, ev[k]) by {
                if strings_view(r@).contains(f) && f != ev[i as int].0 {
                    let j = choose|j: int| 0 <= j < strings_view(r@).len() && strings_view(r@)[j] == f;
                    assert(r0[j] == f);
                    assert(r0.contains(f));
                }
                if f == ev[i as int].0 {
                    assert(strings_view(r@)[r0.len() as int] == f);
                }
                if exists|k: int| 0 <= k < i + 1 && #[trigger] ev[k].0 == f && entry_matches(jv, smv, ev[k]) {
                    let k = choose|k: int| 0 <= k < i + 1 && #[trigger] ev[k].0 == f && entry_matches(jv, smv, ev[k]);
                    if k < i {
                        assert(r0.contains(f));
                        let j = choose|j: int| 0 <= j < r0.len() && r0[j] == f;
                        assert(strings_view(r@)[j] == f);
                    } else {
                        assert(strings_view(r@)[r0.len() as int] == f);
                    }
                }
            }
        } else {
            assert forall|f: Seq<char>|
                strings_view(r@).contains(f) <==> exists|k: int|
                    0 <= k < i + 1 && #[trigger] ev[k].0 == f && entry_matches(jv, smv, ev[k]) by {
                if exists|k: int| 0 <= k < i + 1 && #[trigger] ev[k].0 == f && entry_matches(jv, smv, ev[k]) {
                    let k = choose|k: int| 0 <= k < i + 1 && #[trigger] ev[k].0 == f && entry_matches(jv, smv, ev[k]);
                    if k == i {
                        assert(strings_view(r@).contains(f));
                    }
                }
            }
        }
        i = i + 1;
    }
    r
}

} // verus!
