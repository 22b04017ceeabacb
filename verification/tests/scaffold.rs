use sov_snap_generator::args::{Cli, Commands, Init, Subcommands};
use sov_snap_generator::init::{
    check_manifest_location, clone_args, default_target_dir, definitions_text, known_default,
    manifest_file_path, wasm_manifest_text,
};
use sov_snap_generator::errors::ManifestError;
use sov_snap_generator::interface::{hint_suffix, provided_or, verbosity_allows};
use sov_snap_generator::manifest::Dependency;
use sov_snap_generator::strutil::{quote, replace_dashes, str_eq};

#[test]
fn split_interface_hands_flags_over() {
    let cli = Cli {
        command: Commands::SovSnapGenerator {
            command: Subcommands::Init(Init {
                path: Some("/p".to_string()),
                target: None,
                origin: None,
                branch: None,
            }),
        },
        quiet: 2,
        defaults: true,
        force: false,
    };
    let (command, iface) = cli.split_interface();
    match command {
        Subcommands::Init(init) => assert_eq!(init.path.as_deref(), Some("/p")),
        Subcommands::Build(_) => panic!("expected the init operation"),
    }
    assert_eq!(iface.quiet, 2);
    assert!(iface.defaults);
    assert!(!iface.force);
}

#[test]
fn verbosity_gates_each_kind_of_output() {
    assert!(verbosity_allows(0, 1));
    assert!(!verbosity_allows(1, 1));
    assert!(verbosity_allows(1, 2));
    assert!(!verbosity_allows(2, 2));
    assert!(verbosity_allows(2, 3));
    assert!(!verbosity_allows(3, 3));
}

#[test]
fn provided_value_wins() {
    assert_eq!(
        provided_or(Some("given".to_string()), "typed".to_string()),
        "given"
    );
    assert_eq!(provided_or(None, "typed".to_string()), "typed");
}

#[test]
fn hint_is_the_completion_tail() {
    assert_eq!(hint_suffix("src/ma", "src/main.rs").unwrap(), "in.rs");
    assert!(hint_suffix("src/main.rs", "src/ma").is_none());
    assert!(hint_suffix("same", "same").is_none());
}

#[test]
fn manifest_location_rules() {
    assert_eq!(manifest_file_path("/repo/pkg", true), "/repo/pkg/Cargo.toml");
    assert_eq!(
        manifest_file_path("/repo/pkg/Cargo.toml", false),
        "/repo/pkg/Cargo.toml"
    );
    assert!(check_manifest_location("/p", true, true).is_none());
    match check_manifest_location("/p", false, false) {
        Some(ManifestError::ManifestNotFound(p)) => assert_eq!(p, "/p"),
        other => panic!("expected not found, got {:?}", other),
    }
    match check_manifest_location("/p", true, false) {
        Some(ManifestError::InvalidManifest(p)) => assert_eq!(p, "/p"),
        other => panic!("expected invalid, got {:?}", other),
    }
}

#[test]
fn default_target_is_a_sibling() {
    let project = Dependency::new("my-runtime");
    assert_eq!(
        default_target_dir("/home/me/work", &project),
        "/home/me/my-runtime-snap"
    );
    assert_eq!(default_target_dir("plain", &project), "plain/my-runtime-snap");
}

#[test]
fn known_defaults_cover_the_closed_set() {
    assert_eq!(known_default("borsh").unwrap(), "\"0.10.3\"");
    assert_eq!(known_default("serde_json").unwrap(), "\"1.0\"");
    assert_eq!(
        known_default("sov-modules-api").unwrap(),
        "{ git = \"https://github.com/Sovereign-Labs/sovereign-sdk.git\", rev = \"df169be\", features = [\"serde\"] }"
    );
    assert_eq!(
        known_default("sov-mock-da").unwrap(),
        "{ git = \"https://github.com/Sovereign-Labs/sovereign-sdk.git\", rev = \"df169be\" }"
    );
    assert!(known_default("anything-else").is_none());
}

#[test]
fn wasm_manifest_exact_text() {
    let text = wasm_manifest_text(
        "my-runtime",
        "/repo/pkg",
        "\"0.10.3\"",
        "\"1.0\"",
        "\"9\"",
        "\"8\"",
    );
    let expected = "[package]\nname = \"sov-wasm\"\nversion = \"0.1.0\"\nedition = \"2021\"\n\n[lib]\ncrate-type = [\"cdylib\", \"rlib\"]\n\n[dependencies]\nmy-runtime = { path = \"/repo/pkg\" }\nborsh = \"0.10.3\"\nserde_json = \"1.0\"\nsov-modules-api = \"9\"\nsov-mock-da = \"8\"\n";
    assert_eq!(text, expected);
}

#[test]
fn definitions_exact_text() {
    let text = definitions_text("my_runtime");
    let expected = "pub type Context = sov_modules_api::default_context::ZkDefaultContext;\npub type DaSpec = sov_mock_da::MockDaSpec;\npub type RuntimeCall = my_runtime::RuntimeCall<Context, DaSpec>;\n";
    assert_eq!(text, expected);
}

#[test]
fn clone_arguments_in_order() {
    let args = clone_args("v0.1.3", "https://example.invalid/repo", "/tmp/out");
    assert_eq!(
        args,
        vec![
            "clone",
            "--quiet",
            "--progress",
            "-c",
            "advice.detachedHead=false",
            "--branch",
            "v0.1.3",
            "--single-branch",
            "--depth",
            "1",
            "https://example.invalid/repo",
            "/tmp/out",
        ]
    );
}

#[test]
fn string_helpers() {
    assert_eq!(replace_dashes("a-b-c"), "a_b_c");
    assert_eq!(replace_dashes("plain"), "plain");
    assert_eq!(quote("1.2.3"), "\"1.2.3\"");
    assert!(str_eq("same", "same"));
    assert!(!str_eq("same", "other"));
}
