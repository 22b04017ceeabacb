use vstd::prelude::*;

use crate::document::{
    entries_view, fields_of, find_field, parse_fields, parse_top, spec_find, top_of, Leaf, LeafV,
};
use crate::paths::{ancestors_of, parent_dir, spec_ancestors, spec_parent, strings_view};

verus! {

/// A located workspace: the directory its manifest lives in, and the
/// dependency defaults that manifest declares.
pub struct Workspace {
    pub dir: String,
    pub dependencies: Vec<(String, Leaf)>,
}

/// The view of an optional located workspace.
pub open spec fn spec_ws_opt(ws: &Option<Workspace>) -> Option<
    (Seq<char>, Seq<(Seq<char>, LeafV)>),
> {
    match ws {
        Some(w) => Some((w.dir@, entries_view(w.dependencies@))),
        None => None,
    }
}

/// The dependency defaults a manifest text offers, if it is structurally
/// a workspace manifest: a `workspace` table holding a `dependencies`
/// table.
pub open spec fn spec_ws_table(text: Seq<char>) -> Option<Seq<(Seq<char>, LeafV)>> {
    match top_of(text) {
        None => None,
        Some(top) => match spec_find(top, "workspace"@) {
            Some(LeafV::Raw(w)) => match fields_of(w) {
                None => None,
                Some(ws) => match spec_find(ws, "dependencies"@) {
                    Some(LeafV::Raw(d)) => fields_of(d),
                    _ => None,
                },
            },
            _ => None,
        },
    }
}

/// Reads a candidate workspace manifest's dependency defaults, or
/// nothing when the text does not have the workspace shape.
pub fn ws_table_of(text: &str) -> (r: Option<Vec<(String, Leaf)>>)
    ensures
        match r {
            Some(t) => spec_ws_table(text@) == Some(entries_view(t@)),
            None => spec_ws_table(text@) is None,
        },
{
    match parse_top(text) {
        None => None,
        Some(top) => match find_field(&top, "workspace") {
            Some(Leaf::Raw(w)) => match parse_fields(w.as_str()) {
                None => None,
                Some(ws) => match find_field(&ws, "dependencies") {
                    Some(Leaf::Raw(d)) => parse_fields(d.as_str()),
                    _ => None,
                },
            },
            _ => None,
        },
    }
}

/// The views of a candidate list: each directory with the text of its
/// manifest file, where one could be read.
pub open spec fn cand_view(c: Seq<(String, Option<String>)>) -> Seq<
    (Seq<char>, Option<Seq<char>>),
> {
    c.map_values(
        |e: (String, Option<String>)|
            (
                e.0@,
                match e.1 {
                    Some(t) => Some(t@),
                    None => None,
                },
            ),
    )
}

/// The nearest candidate whose manifest text has the workspace shape,
/// with its dependency defaults. A candidate without a readable manifest,
/// or with one of the wrong shape, is passed over and the search goes on.
pub open spec fn spec_locate(c: Seq<(Seq<char>, Option<Seq<char>>)>) -> Option<
    (Seq<char>, Seq<(Seq<char>, LeafV)>),
>
    decreases c.len(),
{
    if c.len() == 0 {
        None
    } else {
        match c[0].1 {
            Some(text) => match spec_ws_table(text) {
                Some(t) => Some((c[0].0, t)),
                None => spec_locate(c.drop_first()),
            },
            None => spec_locate(c.drop_first()),
        }
    }
}

/// Walks the candidates in order and keeps the first structurally valid
/// workspace manifest.
pub fn locate_workspace(candidates: &Vec<(String, Option<String>)>) -> (r: Option<Workspace>)
    ensures
        spec_ws_opt(&r) == spec_locate(cand_view(candidates@)),
{
    let ghost c = cand_view(candidates@);
    let n = candidates.len();
    let mut i: usize = 0;
    proof {
        assert(c.skip(0) =~= c);
    }
    while i < n
        invariant
            n == candidates.len(),
            i <= n,
            c == cand_view(candidates@),
            c.len() == n,
            spec_locate(c) == spec_locate(c.skip(i as int)),
        decreases n - i,
    {
        proof {
            assert(c[i as int] == (
                candidates@[i as int].0@,
                match candidates@[i as int].1 {
                    Some(t) => Some(t@),
                    None => None,
                },
            ));
        }
        match &candidates[i].1 {
            Some(text) => {
                match ws_table_of(text.as_str()) {
                    Some(t) => {
                        let w = Workspace { dir: candidates[i].0.clone(), dependencies: t };
                        return Some(w);
                    },
                    None => {},
                }
            },
            None => {},
        }
        proof {
            assert(c.skip(i as int).drop_first() =~= c.skip(i as int + 1));
        }
        i = i + 1;
    }
    None
}

/// The directories the workspace search may inspect for a manifest at
/// `path`: every ancestor of the directory above the manifest's own
/// directory, nearest first. The manifest's own directory is never among
/// them.
pub open spec fn spec_candidates(path: Seq<char>) -> Seq<Seq<char>> {
    match spec_parent(path) {
        None => Seq::empty(),
        Some(dir) => match spec_parent(dir) {
            None => Seq::empty(),
            Some(start) => spec_ancestors(start),
        },
    }
}

/// The directory a manifest path lives in, or the path itself when it
/// has no parent.
pub open spec fn spec_dir_or_self(path: Seq<char>) -> Seq<char> {
    match spec_parent(path) {
        Some(d) => d,
        None => path,
    }
}

/// The workspace search looks only above the manifest: the directory
/// holding the manifest file is never among the candidates, which all
/// lie at least one level higher.
pub proof fn lemma_candidates_skip_own_dir(path: Seq<char>)
    ensures
        forall|i: int|
            0 <= i < spec_candidates(path).len() ==> (#[trigger] spec_candidates(path)[i]).len()
                < spec_dir_or_self(path).len(),
        forall|i: int|
            0 <= i < spec_candidates(path).len() ==> #[trigger] spec_candidates(path)[i]
                != spec_dir_or_self(path),
{
    match spec_parent(path) {
        None => {},
        Some(dir) => {
            crate::paths::lemma_parent_shorter(path);
            match spec_parent(dir) {
                None => {},
                Some(start) => {
                    crate::paths::lemma_parent_shorter(dir);
                    crate::paths::lemma_ancestors_no_longer(start);
                },
            }
        },
    }
}

/// One candidate carries a structurally valid workspace manifest.
pub open spec fn cand_valid(e: (Seq<char>, Option<Seq<char>>)) -> bool {
    match e.1 {
        Some(t) => spec_ws_table(t) is Some,
        None => false,
    }
}

/// What the search answers, exactly: nothing when no candidate is
/// valid; otherwise the first valid candidate's directory and table,
/// with every nearer candidate invalid.
pub proof fn lemma_locate_characterized(c: Seq<(Seq<char>, Option<Seq<char>>)>)
    ensures
        match spec_locate(c) {
            Some(w) => exists|k: int|
                #![auto]
                0 <= k < c.len() && cand_valid(c[k]) && w == (c[k].0, spec_ws_table(c[k].1->0)->0)
                    && (forall|m: int| 0 <= m < k ==> !cand_valid(c[m])),
            None => forall|m: int| 0 <= m < c.len() ==> !cand_valid(c[m]),
        },
    decreases c.len(),
{
    if c.len() > 0 {
        if cand_valid(c[0]) {
        } else {
            lemma_locate_characterized(c.drop_first());
            match spec_locate(c) {
                Some(w) => {
                    let k = choose|k: int|
                        #![auto]
                        0 <= k < c.drop_first().len() && cand_valid(c.drop_first()[k]) && w == (
                            c.drop_first()[k].0,
                            spec_ws_table(c.drop_first()[k].1->0)->0,
                        ) && (forall|m: int| 0 <= m < k ==> !cand_valid(c.drop_first()[m]));
                    assert(c.drop_first()[k] == c[k + 1]);
                    assert forall|m: int| 0 <= m < k + 1 implies !cand_valid(c[m]) by {
                        if m > 0 {
                            assert(c[m] == c.drop_first()[m - 1]);
                        }
                    }
                    assert(0 <= k + 1 < c.len() && cand_valid(c[k + 1]) && w == (
                        c[k + 1].0,
                        spec_ws_table(c[k + 1].1->0)->0,
                    ) && (forall|m: int| 0 <= m < k + 1 ==> !cand_valid(c[m])));
                },
                None => {
                    assert forall|m: int| 0 <= m < c.len() implies !cand_valid(c[m]) by {
                        if m > 0 {
                            assert(c[m] == c.drop_first()[m - 1]);
                        }
                    }
                },
            }
        }
    }
}

/// When two candidates both carry a structurally valid workspace
/// manifest, the nearer one — the smaller index, the lower ancestor —
/// supplies the answer: the search settles on the first valid candidate
/// and never reaches past it.
pub proof fn lemma_nearest_workspace_wins(c: Seq<(Seq<char>, Option<Seq<char>>)>, i: int)
    requires
        0 <= i < c.len(),
        cand_valid(c[i]),
    ensures
        spec_locate(c) is Some,
        exists|k: int|
            #![auto]
            0 <= k <= i && cand_valid(c[k]) && spec_locate(c) == Some(
                (c[k].0, spec_ws_table(c[k].1->0)->0),
            ) && (forall|m: int| 0 <= m < k ==> !cand_valid(c[m])),
{
    lemma_locate_characterized(c);
    match spec_locate(c) {
        Some(w) => {
            let k = choose|k: int|
                #![auto]
                0 <= k < c.len() && cand_valid(c[k]) && w == (c[k].0, spec_ws_table(c[k].1->0)->0)
                    && (forall|m: int| 0 <= m < k ==> !cand_valid(c[m]));
            assert(k <= i);
        },
        None => {
            assert(!cand_valid(c[i]));
        },
    }
}

/// The candidate workspace directories for a manifest at `path`.
pub fn workspace_candidates(path: &str) -> (r: Vec<String>)
    ensures
        strings_view(r@) == spec_candidates(path@),
{
    match parent_dir(path) {
        None => {
            let r: Vec<String> = Vec::new();
            proof {
                assert(strings_view(r@) =~= spec_candidates(path@));
            }
            r
        },
        Some(dir) => match parent_dir(dir.as_str()) {
            None => {
                let r: Vec<String> = Vec::new();
                proof {
                    assert(strings_view(r@) =~= spec_candidates(path@));
                }
                r
            },
            Some(start) => ancestors_of(start.as_str()),
        },
    }
}

} // verus!
