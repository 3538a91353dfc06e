//! A parsed HTML document held as an arena of nodes addressed by index, and the
//! discovery of the scripts it references.
use vstd::prelude::*;
use crate::text::{opt_view, pairs_view, strings_view, text_eq};
use crate::urls::{join_url, joined};

verus! {

/// What a node of a document is.
pub enum NodeKind {
    /// The document root.
    Document,
    /// An element: its local tag name and its attributes, as `(name, value)` pairs.
    Element(String, Vec<(String, String)>),
    /// Text, comments, doctypes and the like.
    Other,
}

/// A node and the indices of its children, in document order.
pub struct DomNode {
    pub kind: NodeKind,
    pub children: Vec<usize>,
}

/// A document as an arena: the root is node 0, and each child of a node stands at a
/// greater index than the node. A child index that breaks this is not followed.
pub struct Dom {
    pub nodes: Vec<DomNode>,
}

/// The values of the `src` attributes among `attrs`, in order.
pub open spec fn src_values(attrs: Seq<(Seq<char>, Seq<char>)>) -> Seq<Seq<char>>
    decreases attrs.len(),
{
    if attrs.len() == 0 {
        Seq::empty()
    } else if attrs.last().0 == "src"@ {
        src_values(attrs.drop_last()).push(attrs.last().1)
    } else {
        src_values(attrs.drop_last())
    }
}

/// The `src` values of the script elements under node `i`, in document order. The
/// children of a script element are not visited.
pub open spec fn scripts_under(dom: Dom, i: int) -> Seq<Seq<char>>
    decreases dom.nodes@.len() - i, dom.nodes@[i].children@.len() + 1,
{
    if 0 <= i < dom.nodes@.len() {
        match dom.nodes@[i].kind {
            NodeKind::Element(name, attrs) => if name@ == "script"@ {
                src_values(pairs_view(attrs@))
            } else {
                scripts_of_children(dom, i, dom.nodes@[i].children@.len() as int)
            },
            NodeKind::Document => scripts_of_children(dom, i, dom.nodes@[i].children@.len() as int),
            NodeKind::Other => Seq::empty(),
        }
    } else {
        Seq::empty()
    }
}

/// The scripts under the first `k` children of node `i`, in document order.
pub open spec fn scripts_of_children(dom: Dom, i: int, k: int) -> Seq<Seq<char>>
    decreases dom.nodes@.len() - i, k,
{
    if 0 <= i < dom.nodes@.len() && 0 < k <= dom.nodes@[i].children@.len() {
        let c = dom.nodes@[i].children@[k - 1] as int;
        let rest = scripts_of_children(dom, i, k - 1);
        if i < c < dom.nodes@.len() {
            rest + scripts_under(dom, c)
        } else {
            rest
        }
    } else {
        Seq::empty()
    }
}

/// The `src` values of the script elements of the document, in document order.
pub open spec fn script_sources(dom: Dom) -> Seq<Seq<char>> {
    scripts_under(dom, 0)
}

/// Appends the `src` values among `attrs` to `out`.
fn push_src_values(attrs: &Vec<(String, String)>, out: &mut Vec<String>)
    ensures
        strings_view(final(out)@) == strings_view(old(out)@) + src_values(pairs_view(attrs@)),
{
    let ghost start = strings_view(out@);
    let ghost av = pairs_view(attrs@);
    let mut i: usize = 0;
    proof {
        assert(av.take(0) =~= Seq::<(Seq<char>, Seq<char>)>::empty());
        assert(strings_view(out@) =~= start + src_values(av.take(0)));
    }
    while i < attrs.len()
        invariant
            i <= attrs@.len(),
            av == pairs_view(attrs@),
            strings_view(out@) == start + src_values(av.take(i as int)),
        decreases attrs@.len() - i,
    {
        proof {
            assert(av.take(i + 1).drop_last() =~= av.take(i as int));
            assert(av.take(i + 1).last() == (attrs@[i as int].0@, attrs@[i as int].1@));
            reveal_strlit("src");
        }
        if text_eq(attrs[i].0.as_str(), "src") {
            let v = attrs[i].1.clone();
            assert(v@ == av[i as int].1);
            assert(src_values(av.take(i + 1)) == src_values(av.take(i as int)).push(v@));
            let ghost before = out@;
            out.push(v);
            assert(strings_view(out@) =~= strings_view(before).push(v@));
            assert(strings_view(out@) =~= start + src_values(av.take(i + 1)));
        } else {
            assert(strings_view(out@) =~= start + src_values(av.take(i + 1)));
        }
        i = i + 1;
    }
    assert(av.take(i as int) =~= av);
}

/// Appends the `src` values of the script elements under node `i` to `out`.
fn scan(dom: &Dom, i: usize, out: &mut Vec<String>)
    requires
        i < dom.nodes@.len(),
    ensures
        strings_view(final(out)@) == strings_view(old(out)@) + scripts_under(*dom, i as int),
    decreases dom.nodes@.len() - i,
{
    let node = &dom.nodes[i];
    let visit = match &node.kind {
        NodeKind::Element(name, attrs) => {
            proof {
                reveal_strlit("script");
            }
            if text_eq(name.as_str(), "script") {
                push_src_values(attrs, out);
                return;
            }
            true
        },
        NodeKind::Document => true,
        NodeKind::Other => false,
    };
    if !visit {
        return;
    }
    let ghost start = strings_view(out@);
    let mut k: usize = 0;
    while k < node.children.len()
        invariant
            i < dom.nodes@.len(),
            *node == dom.nodes@[i as int],
            k <= node.children@.len(),
            strings_view(out@) == start + scripts_of_children(*dom, i as int, k as int),
        decreases node.children@.len() - k,
    {
        let c = node.children[k];
        if i < c && c < dom.nodes.len() {
            scan(dom, c, out);
            assert(strings_view(out@) =~= start + scripts_of_children(*dom, i as int, k + 1));
        } else {
            assert(strings_view(out@) =~= start + scripts_of_children(*dom, i as int, k + 1));
        }
        k = k + 1;
    }
}

/// The URLs of the scripts the document references, in document order, each `src`
/// value resolved against `base` (the page's URL). A value that cannot be resolved
/// gives `None` in its place, and does not stop the others.
pub fn find_scripts(base: &str, dom: &Dom) -> (r: Vec<Option<String>>)
    ensures
        r@.len() == script_sources(*dom).len(),
        forall|j: int|
            0 <= j < r@.len() ==> opt_view(#[trigger] r@[j]) == joined(base@, script_sources(*dom)[j]),
{
    let mut srcs: Vec<String> = Vec::new();
    if dom.nodes.len() > 0 {
        scan(dom, 0, &mut srcs);
    }
    assert(strings_view(srcs@) =~= script_sources(*dom));
    let mut r: Vec<Option<String>> = Vec::new();
    let mut j: usize = 0;
    while j < srcs.len()
        invariant
            j <= srcs@.len(),
            strings_view(srcs@) == script_sources(*dom),
            r@.len() == j,
            forall|m: int|
                0 <= m < j ==> opt_view(#[trigger] r@[m]) == joined(base@, script_sources(*dom)[m]),
        decreases srcs@.len() - j,
    {
        assert(strings_view(srcs@)[j as int] == srcs@[j as int]@);
        r.push(join_url(base, srcs[j].as_str()));
        j = j + 1;
    }
    r
}

} // verus!
