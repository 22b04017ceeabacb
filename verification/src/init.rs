use vstd::prelude::*;

use crate::errors::ManifestError;
use crate::manifest::Dependency;
use crate::paths::{join_path, parent_dir, spec_join, spec_parent, strings_view};
use crate::strutil::{copy_str, str_eq};

verus! {

/// The manifest file a given location names: the conventional file name
/// is appended when the location is a directory.
pub fn manifest_file_path(path: &str, is_dir: bool) -> (r: String)
    ensures
        r@ == if is_dir {
            spec_join(path@, "Cargo.toml"@)
        } else {
            path@
        },
{
    if is_dir {
        join_path(path, "Cargo.toml")
    } else {
        copy_str(path)
    }
}

/// The failure a manifest location carries, if any: a location that
/// names nothing is not found, one that is no regular file is invalid.
pub fn check_manifest_location(path: &str, present: bool, is_file: bool) -> (r: Option<
    ManifestError,
>)
    ensures
        match r {
            Some(e) => (!present || !is_file) && e@ == (if !present {
                crate::errors::ManifestErrorV::ManifestNotFound(path@)
            } else {
                crate::errors::ManifestErrorV::InvalidManifest(path@)
            }),
            None => present && is_file,
        },
{
    if !present {
        Some(ManifestError::ManifestNotFound(copy_str(path)))
    } else if !is_file {
        Some(ManifestError::InvalidManifest(copy_str(path)))
    } else {
        None
    }
}

/// The suggested output directory: a sibling of the working directory,
/// named after the source project with a `-snap` tail.
pub fn default_target_dir(cwd: &str, project: &Dependency) -> (r: String)
    ensures
        r@ == spec_join(
            match spec_parent(cwd@) {
                Some(d) => d,
                None => cwd@,
            },
            project.name@ + "-snap"@,
        ),
{
    let mut stem = copy_str(project.name.as_str());
    stem.append("-snap");
    match parent_dir(cwd) {
        Some(d) => join_path(d.as_str(), stem.as_str()),
        None => join_path(cwd, stem.as_str()),
    }
}

/// The specification assumed for a well-known dependency that the source
/// manifest does not declare at all.
pub open spec fn spec_known_default(name: Seq<char>) -> Option<Seq<char>> {
    if name == "borsh"@ {
        Some("\"0.10.3\""@)
    } else if name == "serde_json"@ {
        Some("\"1.0\""@)
    } else if name == "sov-modules-api"@ {
        Some(
            "{ git = \"https://github.com/Sovereign-Labs/sovereign-sdk.git\", rev = \"df169be\", features = [\"serde\"] }"@,
        )
    } else if name == "sov-mock-da"@ {
        Some("{ git = \"https://github.com/Sovereign-Labs/sovereign-sdk.git\", rev = \"df169be\" }"@)
    } else {
        None
    }
}

/// The default specification for one of the well-known dependencies the
/// generated project always needs.
pub fn known_default(name: &str) -> (r: Option<String>)
    ensures
        match r {
            Some(s) => spec_known_default(name@) == Some(s@),
            None => spec_known_default(name@) is None,
        },
{
    if str_eq(name, "borsh") {
        Some(copy_str("\"0.10.3\""))
    } else if str_eq(name, "serde_json") {
        Some(copy_str("\"1.0\""))
    } else if str_eq(name, "sov-modules-api") {
        Some(
            copy_str(
                "{ git = \"https://github.com/Sovereign-Labs/sovereign-sdk.git\", rev = \"df169be\", features = [\"serde\"] }",
            ),
        )
    } else if str_eq(name, "sov-mock-da") {
        Some(
            copy_str(
                "{ git = \"https://github.com/Sovereign-Labs/sovereign-sdk.git\", rev = \"df169be\" }",
            ),
        )
    } else {
        None
    }
}

/// The fixed head of the generated package manifest.
pub open spec fn spec_wasm_manifest_head() -> Seq<char> {
    "[package]\nname = \"sov-wasm\"\nversion = \"0.1.0\"\nedition = \"2021\"\n\n[lib]\ncrate-type = [\"cdylib\", \"rlib\"]\n\n[dependencies]\n"@
}

/// The manifest text of the generated package: the source project as a
/// path dependency, then the four well-known specifications.
pub open spec fn spec_wasm_manifest(
    project_name: Seq<char>,
    project_dir: Seq<char>,
    borsh: Seq<char>,
    serde_json: Seq<char>,
    sov_modules_api: Seq<char>,
    sov_mock_da: Seq<char>,
) -> Seq<char> {
    spec_wasm_manifest_head() + project_name + " = { path = \""@ + project_dir + "\" }\nborsh = "@
        + borsh + "\nserde_json = "@ + serde_json + "\nsov-modules-api = "@ + sov_modules_api
        + "\nsov-mock-da = "@ + sov_mock_da + "\n"@
}

/// Writes the generated package's manifest text.
pub fn wasm_manifest_text(
    project_name: &str,
    project_dir: &str,
    borsh: &str,
    serde_json: &str,
    sov_modules_api: &str,
    sov_mock_da: &str,
) -> (r: String)
    ensures
        r@ == spec_wasm_manifest(
            project_name@,
            project_dir@,
            borsh@,
            serde_json@,
            sov_modules_api@,
            sov_mock_da@,
        ),
{
    let mut r = copy_str(
        "[package]\nname = \"sov-wasm\"\nversion = \"0.1.0\"\nedition = \"2021\"\n\n[lib]\ncrate-type = [\"cdylib\", \"rlib\"]\n\n[dependencies]\n",
    );
    r.append(project_name);
    r.append(" = { path = \"");
    r.append(project_dir);
    r.append("\" }\nborsh = ");
    r.append(borsh);
    r.append("\nserde_json = ");
    r.append(serde_json);
    r.append("\nsov-modules-api = ");
    r.append(sov_modules_api);
    r.append("\nsov-mock-da = ");
    r.append(sov_mock_da);
    r.append("\n");
    proof {
        assert(r@ =~= spec_wasm_manifest(
            project_name@,
            project_dir@,
            borsh@,
            serde_json@,
            sov_modules_api@,
            sov_mock_da@,
        ));
    }
    r
}

/// The type-definition text of the generated package, naming the source
/// project's runtime by its identifier form.
pub open spec fn spec_definitions(formatted: Seq<char>) -> Seq<char> {
    "pub type Context = sov_modules_api::default_context::ZkDefaultContext;\npub type DaSpec = sov_mock_da::MockDaSpec;\npub type RuntimeCall = "@
        + formatted + "::RuntimeCall<Context, DaSpec>;\n"@
}

/// Writes the generated package's type definitions.
pub fn definitions_text(formatted: &str) -> (r: String)
    ensures
        r@ == spec_definitions(formatted@),
{
    let mut r = copy_str(
        "pub type Context = sov_modules_api::default_context::ZkDefaultContext;\npub type DaSpec = sov_mock_da::MockDaSpec;\npub type RuntimeCall = ",
    );
    r.append(formatted);
    r.append("::RuntimeCall<Context, DaSpec>;\n");
    proof {
        assert(r@ =~= spec_definitions(formatted@));
    }
    r
}

/// The arguments handed to git to clone the template: a quiet, shallow,
/// single-branch clone of the requested branch from the requested
/// origin into the target directory.
pub fn clone_args(branch: &str, origin: &str, target: &str) -> (r: Vec<String>)
    ensures
        strings_view(r@) =~= seq![
            "clone"@,
            "--quiet"@,
            "--progress"@,
            "-c"@,
            "advice.detachedHead=false"@,
            "--branch"@,
            branch@,
            "--single-branch"@,
            "--depth"@,
            "1"@,
            origin@,
            target@,
        ],
{
    let mut r: Vec<String> = Vec::new();
    r.push(copy_str("clone"));
    r.push(copy_str("--quiet"));
    r.push(copy_str("--progress"));
    r.push(copy_str("-c"));
    r.push(copy_str("advice.detachedHead=false"));
    r.push(copy_str("--branch"));
    r.push(copy_str(branch));
    r.push(copy_str("--single-branch"));
    r.push(copy_str("--depth"));
    r.push(copy_str("1"));
    r.push(copy_str(origin));
    r.push(copy_str(target));
    r
}

} // verus!
