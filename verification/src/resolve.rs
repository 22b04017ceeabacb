use vstd::prelude::*;

use crate::document::{
    entries_view, find_field, parse_fields, spec_find, spec_fields_text, spec_leaf_text,
    fields_of, serialize_fields, Leaf, LeafV,
};
use crate::errors::{ManifestError, ManifestErrorV};
use crate::paths::{join_path, spec_join};
use crate::strutil::{copy_str, quote, spec_quote, str_eq};

verus! {

/// Relies on std's Path::canonicalize: resolves `.` and `..` and
/// symlinks against what is on disk. What comes back depends on the
/// filesystem, so nothing here relates it to the argument; the call
/// fails when the path cannot be resolved there.
#[verifier::external_body]
fn canonicalize_str(p: &str) -> (r: Option<String>) {
    match std::path::Path::new(p).canonicalize() {
        Ok(b) => b.to_str().map(|s| s.to_string()),
        Err(_) => None,
    }
}

/// A copy of one field value.
pub fn clone_leaf(l: &Leaf) -> (r: Leaf)
    ensures
        r@ == l@,
{
    match l {
        Leaf::Str(s) => Leaf::Str(s.clone()),
        Leaf::Bool(b) => Leaf::Bool(*b),
        Leaf::Raw(s) => Leaf::Raw(s.clone()),
    }
}

/// `fields` with every `path` binding replaced by the string `c`.
pub open spec fn spec_set_path(fields: Seq<(Seq<char>, LeafV)>, c: Seq<char>) -> Seq<
    (Seq<char>, LeafV),
> {
    fields.map_values(
        |kv: (Seq<char>, LeafV)|
            if kv.0 == "path"@ {
                (kv.0, LeafV::Str(c))
            } else {
                kv
            },
    )
}

/// Replaces the `path` field's value, leaving every other field alone.
pub fn set_path_field(fields: &Vec<(String, Leaf)>, c: &str) -> (r: Vec<(String, Leaf)>)
    ensures
        entries_view(r@) == spec_set_path(entries_view(fields@), c@),
{
    let ghost e = entries_view(fields@);
    let mut r: Vec<(String, Leaf)> = Vec::new();
    let n = fields.len();
    let mut i: usize = 0;
    while i < n
        invariant
            n == fields.len(),
            i <= n,
            e == entries_view(fields@),
            e.len() == n,
            r@.len() == i,
            entries_view(r@) =~= spec_set_path(e, c@).take(i as int),
        decreases n - i,
    {
        let key = fields[i].0.clone();
        if str_eq(key.as_str(), "path") {
            r.push((key, Leaf::Str(copy_str(c))));
        } else {
            let v = clone_leaf(&fields[i].1);
            r.push((key, v));
        }
        proof {
            assert(entries_view(r@) =~= spec_set_path(e, c@).take(i as int + 1));
        }
        i = i + 1;
    }
    proof {
        assert(spec_set_path(e, c@).take(n as int) =~= spec_set_path(e, c@));
    }
    r
}

/// Whether a specification defers to the workspace: its text is an
/// inline table carrying `workspace = true`.
pub open spec fn spec_is_workspace_marked(l: LeafV) -> bool {
    match l {
        LeafV::Raw(text) => match fields_of(text) {
            Some(fields) => spec_find(fields, "workspace"@) == Some(LeafV::Bool(true)),
            None => false,
        },
        _ => false,
    }
}

/// Tests a specification for the `workspace = true` marker.
pub fn is_workspace_marked(l: &Leaf) -> (r: bool)
    ensures
        r == spec_is_workspace_marked(l@),
{
    match l {
        Leaf::Raw(text) => match parse_fields(text.as_str()) {
            Some(fields) => match find_field(&fields, "workspace") {
                Some(Leaf::Bool(b)) => *b,
                _ => false,
            },
            None => false,
        },
        _ => false,
    }
}

/// What normalizing one specification against `anchor` yields, given the
/// canonicalizer's answer `ans` for the joined path. A bare string stays
/// a quoted string; a table without a `path` field, or a value that is
/// no table, keeps its text verbatim; a table with a string `path` has
/// that one field rewritten to the answer, or fails with the joined path
/// when there is no answer; a `path` of any other shape is an invalid
/// field.
pub open spec fn spec_normalized(l: LeafV, anchor: Seq<char>, ans: Option<Seq<char>>) -> Result<
    Seq<char>,
    ManifestErrorV,
> {
    match l {
        LeafV::Str(s) => Ok(spec_quote(s)),
        LeafV::Bool(b) => Ok(spec_leaf_text(LeafV::Bool(b))),
        LeafV::Raw(text) => match fields_of(text) {
            None => Ok(text),
            Some(fields) => match spec_find(fields, "path"@) {
                None => Ok(text),
                Some(LeafV::Str(p)) => match ans {
                    Some(c) => Ok(spec_fields_text(spec_set_path(fields, c))),
                    None => Err(ManifestErrorV::PathResolution(spec_join(anchor, p))),
                },
                Some(_) => Err(ManifestErrorV::InvalidField("path"@)),
            },
        },
    }
}

/// The view of a normalization result.
pub open spec fn norm_view(r: Result<String, ManifestError>) -> Result<Seq<char>, ManifestErrorV> {
    match r {
        Ok(s) => Ok(s@),
        Err(e) => Err(e@),
    }
}

/// Normalizes one specification against an anchor directory: if it is an
/// inline table with a string `path`, the path is joined onto the anchor
/// and canonicalized, and only that field is rewritten.
pub fn normalize_spec(l: &Leaf, anchor: &str) -> (r: Result<String, ManifestError>)
    ensures
        exists|ans: Option<Seq<char>>| #[trigger] spec_normalized(l@, anchor@, ans) == norm_view(r),
{
    let r: Result<String, ManifestError> = match l {
        Leaf::Str(s) => Ok(quote(s.as_str())),
        Leaf::Bool(b) => Ok(if *b {
            copy_str("true")
        } else {
            copy_str("false")
        }),
        Leaf::Raw(text) => match parse_fields(text.as_str()) {
            None => Ok(copy_str(text.as_str())),
            Some(fields) => match find_field(&fields, "path") {
                None => Ok(copy_str(text.as_str())),
                Some(Leaf::Str(p)) => {
                    let joined = join_path(anchor, p.as_str());
                    match canonicalize_str(joined.as_str()) {
                        Some(c) => {
                            let rewritten = set_path_field(&fields, c.as_str());
                            proof {
                                assert(spec_normalized(l@, anchor@, Some(c@)) == Ok::<
                                    Seq<char>,
                                    ManifestErrorV,
                                >(spec_fields_text(spec_set_path(entries_view(fields@), c@))));
                            }
                            Ok(serialize_fields(&rewritten))
                        },
                        None => Err(ManifestError::PathResolution(joined)),
                    }
                },
                Some(_) => Err(ManifestError::InvalidField(copy_str("path"))),
            },
        },
    };
    proof {
        if spec_normalized(l@, anchor@, None) == norm_view(r) {
            assert(exists|ans: Option<Seq<char>>|
                #[trigger] spec_normalized(l@, anchor@, ans) == norm_view(r));
        }
    }
    r
}

/// Rewriting the path binding touches nothing else: the rewritten list
/// has the same length, the same keys in the same order, every field
/// not named `path` exactly as it was, and every field named `path`
/// bound to the canonical answer.
pub proof fn lemma_set_path_touches_only_path(fields: Seq<(Seq<char>, LeafV)>, c: Seq<char>)
    ensures
        spec_set_path(fields, c).len() == fields.len(),
        forall|i: int|
            0 <= i < fields.len() ==> (#[trigger] spec_set_path(fields, c)[i]).0 == fields[i].0,
        forall|i: int|
            0 <= i < fields.len() && fields[i].0 != "path"@ ==> #[trigger] spec_set_path(
                fields,
                c,
            )[i] == fields[i],
        forall|i: int|
            0 <= i < fields.len() && fields[i].0 == "path"@ ==> #[trigger] spec_set_path(
                fields,
                c,
            )[i] == (fields[i].0, LeafV::Str(c)),
{
}

/// Looking the path up after a rewrite finds the canonical answer, and
/// a list without a path binding is left without one.
pub proof fn lemma_find_path_after_set(fields: Seq<(Seq<char>, LeafV)>, c: Seq<char>)
    ensures
        spec_find(fields, "path"@) is Some ==> spec_find(spec_set_path(fields, c), "path"@)
            == Some(LeafV::Str(c)),
        spec_find(fields, "path"@) is None ==> spec_find(spec_set_path(fields, c), "path"@)
            is None,
    decreases fields.len(),
{
    if fields.len() > 0 {
        if fields[0].0 != "path"@ {
            lemma_find_path_after_set(fields.drop_first(), c);
            assert(spec_set_path(fields, c).drop_first() =~= spec_set_path(
                fields.drop_first(),
                c,
            ));
        }
    }
}

/// Rewriting the path binding twice with the same canonical answer is
/// the same as rewriting it once.
pub proof fn lemma_set_path_idempotent(fields: Seq<(Seq<char>, LeafV)>, c: Seq<char>)
    ensures
        spec_set_path(spec_set_path(fields, c), c) == spec_set_path(fields, c),
{
    assert(spec_set_path(spec_set_path(fields, c), c) =~= spec_set_path(fields, c));
}

/// A specification that carries no path at all — a value that is no
/// table, or a table without a path binding — keeps its text verbatim
/// under normalization, whatever the canonicalizer would have answered.
pub proof fn lemma_normalize_keeps_pathless_text(
    text: Seq<char>,
    anchor: Seq<char>,
    ans: Option<Seq<char>>,
)
    requires
        fields_of(text) is None || spec_find(fields_of(text)->0, "path"@) is None,
    ensures
        spec_normalized(LeafV::Raw(text), anchor, ans) == Ok::<Seq<char>, ManifestErrorV>(text),
{
}

} // verus!
