use sov_snap_generator::document::{serialize_fields, Leaf};
use sov_snap_generator::errors::ManifestError;
use sov_snap_generator::manifest::{DepResolution, Dependency, Manifest};
use sov_snap_generator::paths::{ancestors_of, join_path, parent_dir};
use sov_snap_generator::resolve::set_path_field;
use sov_snap_generator::workspace::workspace_candidates;

fn no_candidates() -> Vec<(String, Option<String>)> {
    Vec::new()
}

fn read(path: &str, text: &str, cands: &Vec<(String, Option<String>)>) -> Result<Manifest, ManifestError> {
    Manifest::read_from_parts(path, text, cands)
}

#[test]
fn dependency_key_normalizes_hyphens() {
    let d = Dependency::new("sov-modules-api");
    assert_eq!(d.name, "sov-modules-api");
    assert_eq!(d.formatted, "sov_modules_api");
    let plain = Dependency::new("serde_json");
    assert_eq!(plain.formatted, "serde_json");
}

#[test]
fn bare_version_passes_through() {
    let text = "[package]\nname = \"pkg\"\n\n[dependencies]\nbaz = \"1.2.3\"\n";
    let m = read("/repo/pkg/Cargo.toml", text, &no_candidates()).unwrap();
    assert_eq!(m.project.name, "pkg");
    assert_eq!(m.dependencies.len(), 1);
    assert_eq!(m.dependencies[0].0.name, "baz");
    match m.get("baz").unwrap() {
        DepResolution::Resolved(s) => assert_eq!(s, "\"1.2.3\""),
        DepResolution::Unresolved => panic!("baz should be resolved"),
    }
}

#[test]
fn pathless_table_kept_verbatim() {
    let text = "[package]\nname = \"pkg\"\n\n[dependencies]\nfoo = { version = \"2.0\", features = [\"std\"] }\n";
    let m = read("/repo/pkg/Cargo.toml", text, &no_candidates()).unwrap();
    match m.get("foo").unwrap() {
        DepResolution::Resolved(s) => {
            assert!(s.contains("version = \"2.0\""));
            assert!(s.contains("features = [\"std\"]"));
        },
        DepResolution::Unresolved => panic!("foo should be resolved"),
    }
}

#[test]
fn no_workspace_reports_unresolved() {
    let text = "[package]\nname = \"pkg\"\n\n[dependencies]\nbar = { workspace = true }\nbaz = \"1.0\"\n";
    let m = read("/repo/pkg/Cargo.toml", text, &no_candidates()).unwrap();
    assert_eq!(m.dependencies.len(), 2);
    assert!(matches!(m.get("bar").unwrap(), DepResolution::Unresolved));
    match m.get("baz").unwrap() {
        DepResolution::Resolved(s) => assert_eq!(s, "\"1.0\""),
        DepResolution::Unresolved => panic!("baz should be resolved"),
    }
}

#[test]
fn unreadable_candidates_report_unresolved() {
    let text = "[package]\nname = \"pkg\"\n\n[dependencies]\nbar = { workspace = true }\n";
    let cands = vec![("/repo".to_string(), None), ("/".to_string(), None)];
    let m = read("/repo/pkg/Cargo.toml", text, &cands).unwrap();
    assert!(matches!(m.get("bar").unwrap(), DepResolution::Unresolved));
}

#[test]
fn workspace_supplies_marked_dependency() {
    let text = "[package]\nname = \"pkg\"\n\n[dependencies]\nbar = { workspace = true }\n";
    let ws = "[workspace]\nmembers = [\"pkg\"]\n\n[workspace.dependencies]\nbar = \"2.0\"\n";
    let cands = vec![("/repo".to_string(), Some(ws.to_string()))];
    let m = read("/repo/pkg/Cargo.toml", text, &cands).unwrap();
    match m.get("bar").unwrap() {
        DepResolution::Resolved(s) => assert_eq!(s, "\"2.0\""),
        DepResolution::Unresolved => panic!("bar should come from the workspace"),
    }
}

#[test]
fn nearest_workspace_wins() {
    let text = "[package]\nname = \"pkg\"\n\n[dependencies]\nbar = { workspace = true }\n";
    let near = "[workspace.dependencies]\nbar = \"near\"\n";
    let far = "[workspace.dependencies]\nbar = \"far\"\n";
    let cands = vec![
        ("/repo".to_string(), Some(near.to_string())),
        ("/".to_string(), Some(far.to_string())),
    ];
    let m = read("/repo/pkg/Cargo.toml", text, &cands).unwrap();
    match m.get("bar").unwrap() {
        DepResolution::Resolved(s) => assert_eq!(s, "\"near\""),
        DepResolution::Unresolved => panic!("bar should come from the nearer workspace"),
    }
}

#[test]
fn malformed_nearer_candidate_is_passed_over() {
    let text = "[package]\nname = \"pkg\"\n\n[dependencies]\nbar = { workspace = true }\n";
    let near = "not toml at all [[[";
    let also_near = "[package]\nname = \"plain\"\n";
    let far = "[workspace.dependencies]\nbar = \"far\"\n";
    let cands = vec![
        ("/a/b".to_string(), Some(near.to_string())),
        ("/a".to_string(), Some(also_near.to_string())),
        ("/".to_string(), Some(far.to_string())),
    ];
    let m = read("/a/b/c/Cargo.toml", text, &cands).unwrap();
    match m.get("bar").unwrap() {
        DepResolution::Resolved(s) => assert_eq!(s, "\"far\""),
        DepResolution::Unresolved => panic!("the search should continue to the valid candidate"),
    }
}

#[test]
fn workspace_lacking_key_reports_unresolved() {
    let text = "[package]\nname = \"pkg\"\n\n[dependencies]\nbar = { workspace = true }\n";
    let ws = "[workspace.dependencies]\nother = \"1.0\"\n";
    let cands = vec![("/repo".to_string(), Some(ws.to_string()))];
    let m = read("/repo/pkg/Cargo.toml", text, &cands).unwrap();
    assert!(matches!(m.get("bar").unwrap(), DepResolution::Unresolved));
}

#[test]
fn leaf_path_dependency_is_canonicalized() {
    // The manifest's directory is a directory that exists here, so the
    // embedded relative path resolves against the real filesystem.
    let text = "[package]\nname = \"pkg\"\n\n[dependencies]\nup = { path = \"..\" }\n";
    let m = read("/tmp/Cargo.toml", text, &no_candidates()).unwrap();
    match m.get("up").unwrap() {
        DepResolution::Resolved(s) => assert_eq!(s, "{ path = \"/\" }"),
        DepResolution::Unresolved => panic!("up should be resolved"),
    }
}

#[test]
fn workspace_path_anchored_at_workspace_dir() {
    // The workspace manifest sits at the root, so its relative path
    // resolves against the root, not against the leaf's directory.
    let text = "[package]\nname = \"pkg\"\n\n[dependencies]\nshared = { workspace = true }\n";
    let ws = "[workspace.dependencies]\nshared = { path = \"tmp\" }\n";
    let cands = vec![("/".to_string(), Some(ws.to_string()))];
    let m = read("/tmp/pkg/Cargo.toml", text, &cands).unwrap();
    match m.get("shared").unwrap() {
        DepResolution::Resolved(s) => assert_eq!(s, "{ path = \"/tmp\" }"),
        DepResolution::Unresolved => panic!("shared should come from the workspace"),
    }
}

#[test]
fn missing_path_target_is_a_path_resolution_error() {
    let text = "[package]\nname = \"pkg\"\n\n[dependencies]\nfoo = { path = \"nowhere\" }\n";
    match read("/x/Cargo.toml", text, &no_candidates()) {
        Err(ManifestError::PathResolution(p)) => assert_eq!(p, "/x/nowhere"),
        other => panic!("expected a path resolution failure, got {:?}", other),
    }
}

#[test]
fn unparsable_text_is_an_invalid_manifest() {
    match read("/x/Cargo.toml", "definitely ((( not toml", &no_candidates()) {
        Err(ManifestError::InvalidManifest(p)) => assert_eq!(p, "/x/Cargo.toml"),
        other => panic!("expected an invalid manifest, got {:?}", other),
    }
}

#[test]
fn missing_package_field() {
    match read("/x/Cargo.toml", "[dependencies]\nfoo = \"1\"\n", &no_candidates()) {
        Err(ManifestError::MissingField(k)) => assert_eq!(k, "package"),
        other => panic!("expected a missing field, got {:?}", other),
    }
}

#[test]
fn missing_name_field() {
    match read("/x/Cargo.toml", "[package]\nversion = \"1\"\n", &no_candidates()) {
        Err(ManifestError::MissingField(k)) => assert_eq!(k, "name"),
        other => panic!("expected a missing field, got {:?}", other),
    }
}

#[test]
fn wrongly_typed_name_field() {
    match read("/x/Cargo.toml", "[package]\nname = 3\n", &no_candidates()) {
        Err(ManifestError::InvalidField(k)) => assert_eq!(k, "name"),
        other => panic!("expected an invalid field, got {:?}", other),
    }
}

#[test]
fn wrongly_typed_package_field() {
    match read("/x/Cargo.toml", "package = \"pkg\"\n", &no_candidates()) {
        Err(ManifestError::InvalidField(k)) => assert_eq!(k, "package"),
        other => panic!("expected an invalid field, got {:?}", other),
    }
}

#[test]
fn missing_dependencies_table() {
    match read("/x/Cargo.toml", "[package]\nname = \"pkg\"\n", &no_candidates()) {
        Err(ManifestError::MissingField(k)) => assert_eq!(k, "dependencies"),
        other => panic!("expected a missing field, got {:?}", other),
    }
}

#[test]
fn path_rewrite_preserves_other_fields() {
    let fields = vec![
        ("version".to_string(), Leaf::Str("1.0".to_string())),
        ("path".to_string(), Leaf::Str("../shared".to_string())),
        ("features".to_string(), Leaf::Raw("[\"a\", \"b\"]".to_string())),
        ("optional".to_string(), Leaf::Bool(true)),
    ];
    let rewritten = set_path_field(&fields, "/repo/shared");
    let text = serialize_fields(&rewritten);
    assert_eq!(
        text,
        "{ version = \"1.0\", path = \"/repo/shared\", features = [\"a\", \"b\"], optional = true }"
    );
}

#[test]
fn path_rewrite_is_idempotent() {
    let fields = vec![
        ("path".to_string(), Leaf::Str("../shared".to_string())),
        ("version".to_string(), Leaf::Str("1.0".to_string())),
    ];
    let once = set_path_field(&fields, "/repo/shared");
    let twice = set_path_field(&once, "/repo/shared");
    assert_eq!(serialize_fields(&once), serialize_fields(&twice));
}

#[test]
fn already_normalized_path_is_stable() {
    // A specification whose path is already canonical and absolute comes
    // out of resolution unchanged, and resolving its own output again
    // yields the same text.
    let text = "[package]\nname = \"pkg\"\n\n[dependencies]\nfoo = { path = \"/tmp\" }\n";
    let m = read("/x/Cargo.toml", text, &no_candidates()).unwrap();
    let once = match m.get("foo").unwrap() {
        DepResolution::Resolved(s) => s.clone(),
        DepResolution::Unresolved => panic!("foo should be resolved"),
    };
    assert_eq!(once, "{ path = \"/tmp\" }");

    let again = format!(
        "[package]\nname = \"pkg\"\n\n[dependencies]\nfoo = {}\n",
        once
    );
    let m2 = read("/elsewhere/Cargo.toml", &again, &no_candidates()).unwrap();
    match m2.get("foo").unwrap() {
        DepResolution::Resolved(s) => assert_eq!(s, &once),
        DepResolution::Unresolved => panic!("foo should stay resolved"),
    }
}

#[test]
fn join_path_scenarios() {
    assert_eq!(join_path("/repo/pkg", "../shared"), "/repo/pkg/../shared");
    assert_eq!(join_path("/repo", "lib"), "/repo/lib");
    assert_eq!(join_path("/repo", "/abs/path"), "/abs/path");
}

#[test]
fn parent_dir_scenarios() {
    assert_eq!(parent_dir("/repo/pkg/Cargo.toml").unwrap(), "/repo/pkg");
    assert_eq!(parent_dir("/repo/pkg").unwrap(), "/repo");
    assert_eq!(parent_dir("/repo").unwrap(), "/");
    assert!(parent_dir("/").is_none());
    assert!(parent_dir("plain").is_none());
}

#[test]
fn candidates_skip_own_directory_and_start_above() {
    let cands = workspace_candidates("/repo/pkg/Cargo.toml");
    assert_eq!(cands, vec!["/repo".to_string(), "/".to_string()]);
    assert!(!cands.contains(&"/repo/pkg".to_string()));

    let deep = workspace_candidates("/a/b/c/d/Cargo.toml");
    assert_eq!(
        deep,
        vec![
            "/a/b/c".to_string(),
            "/a/b".to_string(),
            "/a".to_string(),
            "/".to_string(),
        ]
    );

    let shallow = workspace_candidates("/Cargo.toml");
    assert!(shallow.is_empty());
}

#[test]
fn ancestors_walk_to_the_root() {
    assert_eq!(
        ancestors_of("/a/b"),
        vec!["/a/b".to_string(), "/a".to_string(), "/".to_string()]
    );
    assert_eq!(ancestors_of("/"), vec!["/".to_string()]);
}

#[test]
fn error_messages_carry_context() {
    let e = ManifestError::PathResolution("/x/nowhere".to_string());
    assert_eq!(e.message(), "could not canonicalize `/x/nowhere`");
    let e = ManifestError::MissingField("package".to_string());
    assert_eq!(e.message(), "could not find `package` in the manifest");
    let e = ManifestError::ManifestNotFound("/x".to_string());
    assert_eq!(e.message(), "could not locate the manifest; `/x` does not exist");
    let e = ManifestError::InvalidManifest("/x".to_string());
    assert_eq!(e.message(), "invalid manifest `/x`");
    let e = ManifestError::InvalidField("name".to_string());
    assert_eq!(e.message(), "invalid `name` in the manifest");
}
