use vstd::prelude::*;

use crate::strutil::copy_str;

verus! {

/// The views of a sequence of owned strings.
pub open spec fn strings_view(v: Seq<String>) -> Seq<Seq<char>> {
    v.map_values(|s: String| s@)
}

/// Index of the last separator in `p`, if any.
pub open spec fn spec_last_slash(p: Seq<char>) -> Option<int>
    decreases p.len(),
{
    if p.len() == 0 {
        None
    } else if p[p.len() - 1] == '/' {
        Some(p.len() - 1)
    } else {
        spec_last_slash(p.drop_last())
    }
}

pub proof fn lemma_last_slash_in_range(p: Seq<char>)
    ensures
        spec_last_slash(p) matches Some(i) ==> 0 <= i < p.len() && p[i] == '/',
    decreases p.len(),
{
    if p.len() > 0 && p[p.len() - 1] != '/' {
        lemma_last_slash_in_range(p.drop_last());
    }
}

/// The directory above `p`: everything before the last separator, the
/// root alone when the leading separator is the last one, and nothing
/// for a path that has no separator or is the root itself.
pub open spec fn spec_parent(p: Seq<char>) -> Option<Seq<char>> {
    match spec_last_slash(p) {
        None => None,
        Some(i) => if i == 0 {
            if p.len() > 1 {
                Some(seq!['/'])
            } else {
                None
            }
        } else {
            Some(p.take(i))
        },
    }
}

pub proof fn lemma_parent_shorter(p: Seq<char>)
    ensures
        spec_parent(p) matches Some(d) ==> d.len() < p.len(),
{
    lemma_last_slash_in_range(p);
}

/// Index of the last separator of `p`, scanning from the end.
pub fn last_slash(p: &str) -> (r: Option<usize>)
    ensures
        match r {
            Some(i) => spec_last_slash(p@) == Some(i as int),
            None => spec_last_slash(p@) is None,
        },
{
    let mut i: usize = p.unicode_len();
    proof {
        assert(p@.take(i as int) =~= p@);
    }
    while i > 0
        invariant
            i <= p@.len(),
            spec_last_slash(p@) == spec_last_slash(p@.take(i as int)),
        decreases i,
    {
        let c = p.get_char(i - 1);
        if c == '/' {
            return Some(i - 1);
        }
        proof {
            assert(p@.take(i as int).drop_last() =~= p@.take(i as int - 1));
        }
        i = i - 1;
    }
    proof {
        assert(p@.take(0) =~= Seq::<char>::empty());
    }
    None
}

/// The directory above `p`, as `spec_parent` gives it.
pub fn parent_dir(p: &str) -> (r: Option<String>)
    ensures
        match r {
            Some(d) => spec_parent(p@) == Some(d@),
            None => spec_parent(p@) is None,
        },
{
    proof {
        lemma_last_slash_in_range(p@);
    }
    match last_slash(p) {
        None => None,
        Some(i) => {
            if i == 0 {
                if p.unicode_len() > 1 {
                    let r = copy_str("/");
                    proof {
                        reveal_strlit("/");
                        assert(r@ =~= seq!['/']);
                    }
                    Some(r)
                } else {
                    None
                }
            } else {
                let d = p.substring_char(0, i);
                proof {
                    assert(d@ =~= p@.take(i as int));
                }
                Some(copy_str(d))
            }
        },
    }
}

/// `rel` anchored at `anchor`: `rel` itself when it is absolute,
/// otherwise `anchor`, a separator, and `rel`.
pub open spec fn spec_join(anchor: Seq<char>, rel: Seq<char>) -> Seq<char> {
    if rel.len() > 0 && rel[0] == '/' {
        rel
    } else {
        anchor + seq!['/'] + rel
    }
}

/// Joins a relative path onto an anchor directory.
pub fn join_path(anchor: &str, rel: &str) -> (r: String)
    ensures
        r@ == spec_join(anchor@, rel@),
{
    let rel_abs = rel.unicode_len() > 0 && rel.get_char(0) == '/';
    if rel_abs {
        copy_str(rel)
    } else {
        let mut r = copy_str(anchor);
        r.append("/");
        r.append(rel);
        proof {
            reveal_strlit("/");
            assert(r@ =~= spec_join(anchor@, rel@));
        }
        r
    }
}

/// Every directory from `d` upward, nearest first: `d`, then its parent,
/// and so on until the root.
pub open spec fn spec_ancestors(d: Seq<char>) -> Seq<Seq<char>>
    decreases d.len(),
{
    match spec_parent(d) {
        None => seq![d],
        Some(p) => if p.len() < d.len() {
            seq![d] + spec_ancestors(p)
        } else {
            seq![d]
        },
    }
}

/// Every member of `spec_ancestors(d)` is no longer than `d`.
pub proof fn lemma_ancestors_no_longer(d: Seq<char>)
    ensures
        forall|i: int|
            0 <= i < spec_ancestors(d).len() ==> (#[trigger] spec_ancestors(d)[i]).len()
                <= d.len(),
    decreases d.len(),
{
    lemma_parent_shorter(d);
    match spec_parent(d) {
        None => {},
        Some(p) => {
            if p.len() < d.len() {
                lemma_ancestors_no_longer(p);
                assert forall|i: int| 0 <= i < spec_ancestors(d).len() implies (
                #[trigger] spec_ancestors(d)[i]).len() <= d.len() by {
                    if i > 0 {
                        assert(spec_ancestors(d)[i] == spec_ancestors(p)[i - 1]);
                    }
                }
            }
        },
    }
}

/// The ancestor chain of `d`, nearest first.
pub fn ancestors_of(d: &str) -> (r: Vec<String>)
    ensures
        strings_view(r@) == spec_ancestors(d@),
{
    let mut r: Vec<String> = Vec::new();
    let mut cur: String = copy_str(d);
    proof {
        assert(strings_view(r@) + spec_ancestors(cur@) =~= spec_ancestors(d@));
    }
    loop
        invariant
            strings_view(r@) + spec_ancestors(cur@) == spec_ancestors(d@),
        decreases cur@.len(),
    {
        proof {
            lemma_parent_shorter(cur@);
        }
        let ghost prev = strings_view(r@);
        let ghost cur_view = cur@;
        let next = parent_dir(cur.as_str());
        r.push(cur);
        proof {
            assert(strings_view(r@) =~= prev.push(cur_view));
        }
        match next {
            Some(p) => {
                cur = p;
                proof {
                    assert(strings_view(r@) + spec_ancestors(cur@) =~= spec_ancestors(d@));
                }
            },
            None => {
                proof {
                    assert(spec_ancestors(cur_view) =~= seq![cur_view]);
                    assert(strings_view(r@) =~= spec_ancestors(d@));
                }
                return r;
            },
        }
    }
}

} // verus!
