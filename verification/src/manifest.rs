use vstd::prelude::*;

use crate::document::{
    entries_view, fields_of, find_field, parse_fields, parse_top, spec_find, top_of, Leaf, LeafV,
};
use crate::errors::{ManifestError, ManifestErrorV};
use crate::paths::{parent_dir, spec_parent};
use crate::resolve::{is_workspace_marked, normalize_spec, spec_is_workspace_marked, spec_normalized};
use crate::strutil::{copy_str, replace_dashes, spec_replace_dashes, str_eq};
use crate::workspace::{cand_view, locate_workspace, spec_locate, spec_ws_opt, Workspace};

verus! {

/// A dependency's identity: the manifest name, and the identifier form
/// used when generated code refers to it.
#[derive(Debug, Clone, PartialEq, Eq, PartialOrd, Ord, Hash)]
pub struct Dependency {
    pub name: String,
    pub formatted: String,
}

impl Dependency {
    /// The identifier form is derived from the name, never set apart.
    pub open spec fn wf(&self) -> bool {
        self.formatted@ == spec_replace_dashes(self.name@)
    }

    /// A key for the dependency named `dep`.
    pub fn new(dep: &str) -> (r: Dependency)
        ensures
            r.name@ == dep@,
            r.wf(),
    {
        let name = copy_str(dep);
        let formatted = replace_dashes(dep);
        Dependency { name, formatted }
    }
}

/// What resolution recorded for one declared dependency: a concrete
/// specification text, or the explicit marker that the workspace had no
/// entry to inherit and the caller must supply one.
#[derive(Debug, Clone)]
pub enum DepResolution {
    Resolved(String),
    Unresolved,
}

/// The mathematical shape of a `DepResolution`.
pub enum DepResolutionV {
    Resolved(Seq<char>),
    Unresolved,
}

impl View for DepResolution {
    type V = DepResolutionV;

    open spec fn view(&self) -> DepResolutionV {
        match self {
            DepResolution::Resolved(s) => DepResolutionV::Resolved(s@),
            DepResolution::Unresolved => DepResolutionV::Unresolved,
        }
    }
}

/// How one declared dependency resolves: a `workspace = true` entry is
/// looked up in the workspace table and normalized against the
/// workspace's own directory, or recorded unresolved when there is no
/// workspace or no such entry; any other entry is normalized against the
/// leaf manifest's directory. `ans` is the canonicalizer's answer for
/// the one path the chosen branch may rewrite.
pub open spec fn spec_resolve_dep(
    name: Seq<char>,
    l: LeafV,
    leaf_dir: Seq<char>,
    ws: Option<(Seq<char>, Seq<(Seq<char>, LeafV)>)>,
    ans: Option<Seq<char>>,
) -> Result<DepResolutionV, ManifestErrorV> {
    if spec_is_workspace_marked(l) {
        match ws {
            Some(w) => match spec_find(w.1, name) {
                Some(wl) => match spec_normalized(wl, w.0, ans) {
                    Ok(t) => Ok(DepResolutionV::Resolved(t)),
                    Err(e) => Err(e),
                },
                None => Ok(DepResolutionV::Unresolved),
            },
            None => Ok(DepResolutionV::Unresolved),
        }
    } else {
        match spec_normalized(l, leaf_dir, ans) {
            Ok(t) => Ok(DepResolutionV::Resolved(t)),
            Err(e) => Err(e),
        }
    }
}

/// One recorded entry is right for one declared dependency: the key is
/// the declared name with its derived identifier form, and the recorded
/// resolution is what `spec_resolve_dep` gives for some canonicalizer
/// answer.
pub open spec fn dep_entry_ok(
    name: Seq<char>,
    l: LeafV,
    leaf_dir: Seq<char>,
    ws: Option<(Seq<char>, Seq<(Seq<char>, LeafV)>)>,
    d: Dependency,
    res: DepResolution,
) -> bool {
    &&& d.name@ == name
    &&& d.wf()
    &&& exists|ans: Option<Seq<char>>|
        #[trigger] spec_resolve_dep(name, l, leaf_dir, ws, ans) == Ok::<
            DepResolutionV,
            ManifestErrorV,
        >(res@)
}

/// Some declared dependency fails to resolve with error `e` for some
/// canonicalizer answer.
pub open spec fn some_dep_fails(
    deps: Seq<(Seq<char>, LeafV)>,
    leaf_dir: Seq<char>,
    ws: Option<(Seq<char>, Seq<(Seq<char>, LeafV)>)>,
    e: ManifestErrorV,
) -> bool {
    exists|i: int, ans: Option<Seq<char>>|
        0 <= i < deps.len() && #[trigger] spec_resolve_dep(deps[i].0, deps[i].1, leaf_dir, ws, ans)
            == Err::<DepResolutionV, ManifestErrorV>(e)
}

/// Resolves one declared dependency.
pub fn resolve_dep(name: &String, l: &Leaf, leaf_dir: &str, ws: &Option<Workspace>) -> (r: Result<
    DepResolution,
    ManifestError,
>)
    ensures
        match r {
            Ok(res) => exists|ans: Option<Seq<char>>|
                #[trigger] spec_resolve_dep(name@, l@, leaf_dir@, spec_ws_opt(ws), ans) == Ok::<
                    DepResolutionV,
                    ManifestErrorV,
                >(res@),
            Err(e) => exists|ans: Option<Seq<char>>|
                #[trigger] spec_resolve_dep(name@, l@, leaf_dir@, spec_ws_opt(ws), ans) == Err::<
                    DepResolutionV,
                    ManifestErrorV,
                >(e@),
        },
{
    if is_workspace_marked(l) {
        match ws {
            Some(w) => match find_field(&w.dependencies, name.as_str()) {
                Some(wl) => {
                    let normalized = normalize_spec(wl, w.dir.as_str());
                    proof {
                        let ans = choose|ans: Option<Seq<char>>|
                            #[trigger] spec_normalized(wl@, w.dir@, ans)
                                == crate::resolve::norm_view(normalized);
                        assert(spec_resolve_dep(name@, l@, leaf_dir@, spec_ws_opt(ws), ans)
                            == match normalized {
                            Ok(t) => Ok::<DepResolutionV, ManifestErrorV>(
                                DepResolutionV::Resolved(t@),
                            ),
                            Err(e) => Err::<DepResolutionV, ManifestErrorV>(e@),
                        });
                    }
                    match normalized {
                        Ok(t) => Ok(DepResolution::Resolved(t)),
                        Err(e) => Err(e),
                    }
                },
                None => {
                    proof {
                        assert(spec_resolve_dep(name@, l@, leaf_dir@, spec_ws_opt(ws), None)
                            == Ok::<DepResolutionV, ManifestErrorV>(DepResolutionV::Unresolved));
                    }
                    Ok(DepResolution::Unresolved)
                },
            },
            None => {
                proof {
                    assert(spec_resolve_dep(name@, l@, leaf_dir@, spec_ws_opt(ws), None)
                        == Ok::<DepResolutionV, ManifestErrorV>(DepResolutionV::Unresolved));
                }
                Ok(DepResolution::Unresolved)
            },
        }
    } else {
        let normalized = normalize_spec(l, leaf_dir);
        proof {
            let ans = choose|ans: Option<Seq<char>>|
                #[trigger] spec_normalized(l@, leaf_dir@, ans) == crate::resolve::norm_view(
                    normalized,
                );
            assert(spec_resolve_dep(name@, l@, leaf_dir@, spec_ws_opt(ws), ans)
                == match normalized {
                Ok(t) => Ok::<DepResolutionV, ManifestErrorV>(DepResolutionV::Resolved(t@)),
                Err(e) => Err::<DepResolutionV, ManifestErrorV>(e@),
            });
        }
        match normalized {
            Ok(t) => Ok(DepResolution::Resolved(t)),
            Err(e) => Err(e),
        }
    }
}

/// Resolves every declared dependency, in order. No entry is dropped and
/// none is invented: the answer has exactly one record per declared
/// dependency, or the first fatal failure.
pub fn resolve_dependencies(
    deps: &Vec<(String, Leaf)>,
    leaf_dir: &str,
    ws: &Option<Workspace>,
) -> (r: Result<Vec<(Dependency, DepResolution)>, ManifestError>)
    ensures
        match r {
            Ok(out) => out@.len() == deps@.len() && forall|i: int|
                0 <= i < out@.len() ==> #[trigger] dep_entry_ok(
                    entries_view(deps@)[i].0,
                    entries_view(deps@)[i].1,
                    leaf_dir@,
                    spec_ws_opt(ws),
                    out@[i].0,
                    out@[i].1,
                ),
            Err(e) => some_dep_fails(entries_view(deps@), leaf_dir@, spec_ws_opt(ws), e@),
        },
{
    let ghost dv = entries_view(deps@);
    let mut out: Vec<(Dependency, DepResolution)> = Vec::new();
    let n = deps.len();
    let mut i: usize = 0;
    while i < n
        invariant
            n == deps.len(),
            i <= n,
            dv == entries_view(deps@),
            dv.len() == n,
            out@.len() == i,
            forall|j: int|
                0 <= j < i ==> #[trigger] dep_entry_ok(
                    dv[j].0,
                    dv[j].1,
                    leaf_dir@,
                    spec_ws_opt(ws),
                    out@[j].0,
                    out@[j].1,
                ),
        decreases n - i,
    {
        proof {
            assert(dv[i as int] == (deps@[i as int].0@, deps@[i as int].1@));
        }
        let kv = &deps[i];
        match resolve_dep(&kv.0, &kv.1, leaf_dir, ws) {
            Ok(res) => {
                let d = Dependency::new(kv.0.as_str());
                out.push((d, res));
            },
            Err(e) => {
                proof {
                    let ans = choose|ans: Option<Seq<char>>|
                        #[trigger] spec_resolve_dep(kv.0@, kv.1@, leaf_dir@, spec_ws_opt(ws), ans)
                            == Err::<DepResolutionV, ManifestErrorV>(e@);
                    assert(spec_resolve_dep(dv[i as int].0, dv[i as int].1, leaf_dir@, spec_ws_opt(ws), ans)
                        == Err::<DepResolutionV, ManifestErrorV>(e@));
                }
                return Err(e);
            },
        }
        i = i + 1;
    }
    Ok(out)
}

/// A dependency that does not defer to the workspace resolves without
/// the workspace: its record is the literal specification normalized
/// against the leaf manifest's own directory, the same whether or not
/// any workspace was located.
pub proof fn lemma_literal_dep_ignores_workspace(
    name: Seq<char>,
    l: LeafV,
    leaf_dir: Seq<char>,
    ws: Option<(Seq<char>, Seq<(Seq<char>, LeafV)>)>,
    ans: Option<Seq<char>>,
)
    requires
        !spec_is_workspace_marked(l),
    ensures
        spec_resolve_dep(name, l, leaf_dir, ws, ans) == spec_resolve_dep(
            name,
            l,
            leaf_dir,
            None,
            ans,
        ),
        spec_normalized(l, leaf_dir, ans) matches Ok(t) ==> spec_resolve_dep(
            name,
            l,
            leaf_dir,
            ws,
            ans,
        ) == Ok::<DepResolutionV, ManifestErrorV>(DepResolutionV::Resolved(t)),
{
}

/// A dependency marked `workspace = true` with no locatable workspace,
/// or with a workspace table lacking its name, resolves to the explicit
/// unresolved marker: never an error, never silently dropped, never
/// given a specification out of nowhere — whatever the canonicalizer
/// would have answered.
pub proof fn lemma_unresolved_marker(
    name: Seq<char>,
    l: LeafV,
    leaf_dir: Seq<char>,
    ws: Option<(Seq<char>, Seq<(Seq<char>, LeafV)>)>,
    ans: Option<Seq<char>>,
)
    requires
        spec_is_workspace_marked(l),
        ws is None || spec_find((ws->0).1, name) is None,
    ensures
        spec_resolve_dep(name, l, leaf_dir, ws, ans) == Ok::<DepResolutionV, ManifestErrorV>(
            DepResolutionV::Unresolved,
        ),
{
}

/// The project identity a parsed manifest declares, or the field error:
/// a `package` table holding a string `name`.
pub open spec fn spec_project_name(top: Seq<(Seq<char>, LeafV)>) -> Result<
    Seq<char>,
    ManifestErrorV,
> {
    match spec_find(top, "package"@) {
        None => Err(ManifestErrorV::MissingField("package"@)),
        Some(LeafV::Raw(p)) => match fields_of(p) {
            None => Err(ManifestErrorV::InvalidField("package"@)),
            Some(pf) => match spec_find(pf, "name"@) {
                None => Err(ManifestErrorV::MissingField("name"@)),
                Some(LeafV::Str(n)) => Ok(n),
                Some(_) => Err(ManifestErrorV::InvalidField("name"@)),
            },
        },
        Some(_) => Err(ManifestErrorV::InvalidField("package"@)),
    }
}

/// The declared dependency table of a parsed manifest, or the field
/// error.
pub open spec fn spec_dependencies_table(top: Seq<(Seq<char>, LeafV)>) -> Result<
    Seq<(Seq<char>, LeafV)>,
    ManifestErrorV,
> {
    match spec_find(top, "dependencies"@) {
        None => Err(ManifestErrorV::MissingField("dependencies"@)),
        Some(LeafV::Raw(d)) => match fields_of(d) {
            None => Err(ManifestErrorV::InvalidField("dependencies"@)),
            Some(t) => Ok(t),
        },
        Some(_) => Err(ManifestErrorV::InvalidField("dependencies"@)),
    }
}

/// A fully resolved manifest: the source package's identity, and one
/// record per declared dependency.
#[derive(Debug, Clone)]
pub struct Manifest {
    pub project: Dependency,
    pub dependencies: Vec<(Dependency, DepResolution)>,
}

/// No two records share a dependency name.
pub open spec fn distinct_dep_names(deps: Seq<(Dependency, DepResolution)>) -> bool {
    forall|i: int, j: int|
        0 <= i < j < deps.len() ==> (#[trigger] deps[i]).0.name@ != (#[trigger] deps[j]).0.name@
}

/// What reading a manifest from its text yields. The text must parse;
/// the project identity and the dependency table must have their
/// declared shapes; then every declared dependency is resolved against
/// the nearest workspace the candidate list offers, and the records come
/// back in table order.
pub open spec fn spec_read_outcome(
    path: Seq<char>,
    text: Seq<char>,
    cands: Seq<(Seq<char>, Option<Seq<char>>)>,
    r: Result<Manifest, ManifestError>,
) -> bool {
    match top_of(text) {
        None => match r {
            Err(e) => e@ == ManifestErrorV::InvalidManifest(path),
            _ => false,
        },
        Some(top) => match spec_project_name(top) {
            Err(pe) => match r {
                Err(e) => e@ == pe,
                _ => false,
            },
            Ok(name) => match spec_dependencies_table(top) {
                Err(de) => match r {
                    Err(e) => e@ == de,
                    _ => false,
                },
                Ok(deps) => {
                    let ws = spec_locate(cands);
                    let dir = spec_parent(path)->0;
                    match r {
                        Ok(m) => {
                            &&& m.project.name@ == name
                            &&& m.project.wf()
                            &&& m.dependencies@.len() == deps.len()
                            &&& distinct_dep_names(m.dependencies@)
                            &&& forall|i: int|
                                0 <= i < deps.len() ==> #[trigger] dep_entry_ok(
                                    deps[i].0,
                                    deps[i].1,
                                    dir,
                                    ws,
                                    m.dependencies@[i].0,
                                    m.dependencies@[i].1,
                                )
                        },
                        Err(e) => some_dep_fails(deps, dir, ws, e@),
                    }
                },
            },
        },
    }
}

impl Manifest {
    /// Reads and resolves a manifest from its text: `path` is the
    /// manifest file's own canonical path, `text` what was read from it,
    /// and `candidates` the workspace search's directories, each with
    /// the text of its manifest file where one could be read.
    pub fn read_from_parts(
        path: &str,
        text: &str,
        candidates: &Vec<(String, Option<String>)>,
    ) -> (r: Result<Manifest, ManifestError>)
        requires
            spec_parent(path@) is Some,
        ensures
            spec_read_outcome(path@, text@, cand_view(candidates@), r),
    {
        let top = match parse_top(text) {
            None => {
                return Err(ManifestError::InvalidManifest(copy_str(path)));
            },
            Some(t) => t,
        };
        let project_name: String = match find_field(&top, "package") {
            None => {
                return Err(ManifestError::MissingField(copy_str("package")));
            },
            Some(Leaf::Raw(p)) => match parse_fields(p.as_str()) {
                None => {
                    return Err(ManifestError::InvalidField(copy_str("package")));
                },
                Some(pf) => match find_field(&pf, "name") {
                    None => {
                        return Err(ManifestError::MissingField(copy_str("name")));
                    },
                    Some(Leaf::Str(n)) => n.clone(),
                    Some(_) => {
                        return Err(ManifestError::InvalidField(copy_str("name")));
                    },
                },
            },
            Some(_) => {
                return Err(ManifestError::InvalidField(copy_str("package")));
            },
        };
        let project = Dependency::new(project_name.as_str());
        let deps_table: Vec<(String, Leaf)> = match find_field(&top, "dependencies") {
            None => {
                return Err(ManifestError::MissingField(copy_str("dependencies")));
            },
            Some(Leaf::Raw(d)) => match parse_fields(d.as_str()) {
                None => {
                    return Err(ManifestError::InvalidField(copy_str("dependencies")));
                },
                Some(t) => t,
            },
            Some(_) => {
                return Err(ManifestError::InvalidField(copy_str("dependencies")));
            },
        };
        let ws = locate_workspace(candidates);
        let leaf_dir = match parent_dir(path) {
            Some(d) => d,
            None => {
                return Err(ManifestError::InvalidManifest(copy_str(path)));
            },
        };
        match resolve_dependencies(&deps_table, leaf_dir.as_str(), &ws) {
            Ok(dependencies) => {
                proof {
                    let ghost dv = entries_view(deps_table@);
                    assert forall|i: int, j: int|
                        0 <= i < j < dependencies@.len() implies (
                    #[trigger] dependencies@[i]).0.name@ != (#[trigger] dependencies@[j]).0.name@ by {
                        assert(dep_entry_ok(
                            dv[i].0,
                            dv[i].1,
                            leaf_dir@,
                            spec_ws_opt(&ws),
                            dependencies@[i].0,
                            dependencies@[i].1,
                        ));
                        assert(dep_entry_ok(
                            dv[j].0,
                            dv[j].1,
                            leaf_dir@,
                            spec_ws_opt(&ws),
                            dependencies@[j].0,
                            dependencies@[j].1,
                        ));
                        assert(dv[i].0 != dv[j].0);
                    }
                }
                Ok(Manifest { project, dependencies })
            },
            Err(e) => Err(e),
        }
    }

    /// Looks a declared dependency up by name.
    pub fn get(&self, name: &str) -> (r: Option<&DepResolution>)
        ensures
            match r {
                Some(res) => exists|i: int|
                    0 <= i < self.dependencies@.len() && (#[trigger] self.dependencies@[i]).0.name@
                        == name@ && self.dependencies@[i].1@ == res@,
                None => forall|i: int|
                    0 <= i < self.dependencies@.len() ==> (#[trigger] self.dependencies@[i]).0.name@
                        != name@,
            },
    {
        let n = self.dependencies.len();
        let mut i: usize = 0;
        while i < n
            invariant
                n == self.dependencies@.len(),
                i <= n,
                forall|j: int|
                    0 <= j < i ==> (#[trigger] self.dependencies@[j]).0.name@ != name@,
            decreases n - i,
        {
            if str_eq(self.dependencies[i].0.name.as_str(), name) {
                return Some(&self.dependencies[i].1);
            }
            i = i + 1;
        }
        None
    }
}

} // verus!
