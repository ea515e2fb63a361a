use boite_core::git::artifacts::{
    add_package_name, artifact_policy, check_artifact_policy, effective_artifact_policy,
    glob_member_parent, is_local_artifact, is_mutable_build_artifact, link, manifest_value_exec,
    provision_shared_artifacts, provisionable, unlink_shared_artifacts, workspace_members_exec,
    ArtifactPolicy, Manifests, PolicyFile, ShareMode, SharedDir,
};
use boite_core::git::glob::glob_matches;

fn strings(items: &[&str]) -> Vec<String> {
    items.iter().map(|s| s.to_string()).collect()
}

fn no_manifests() -> Manifests {
    Manifests {
        package_json: false,
        pyproject_toml: false,
        requirements_txt: false,
        setup_py: false,
        go_mod: false,
        composer_json: false,
        build_gradle: false,
        build_gradle_kts: false,
        settings_gradle: false,
    }
}

#[test]
fn glob_matches_single_star() {
    assert!(glob_matches("*.js", "a.js"));
    assert!(glob_matches("*.js", "a.js.js"));
    assert!(!glob_matches("*.js", "a.ts"));
    assert!(glob_matches("src/*.rs", "src/lib.rs"));
    assert!(!glob_matches("src/*.rs", "tests/lib.rs"));
}

#[test]
fn glob_matches_double_star() {
    assert!(glob_matches("**/*.rs", "src/lib.rs"));
    assert!(glob_matches("**/*.rs", "src/deep/nested/lib.rs"));
    assert!(glob_matches("**/*.rs", "lib.rs"));
    assert!(!glob_matches("**/*.rs", "src/lib.ts"));
}

#[test]
fn glob_matches_literal() {
    assert!(glob_matches("package.json", "package.json"));
    assert!(!glob_matches("package.json", "package.json.bak"));
}

#[test]
fn glob_matches_empty_segments() {
    assert!(glob_matches("src/**", "src/deep"));
    assert!(glob_matches("src/**", "src"));
}

#[test]
fn glob_matches_backslash_separator() {
    assert!(glob_matches("src/*.rs", r"src\lib.rs"));
}

#[test]
fn glob_matches_dotfile() {
    assert!(glob_matches(".*", ".env"));
    assert!(glob_matches(".cargo/*", ".cargo/config.toml"));
    assert!(!glob_matches(".cargo/*", ".cargo"));
    assert!(glob_matches(".cargo", ".cargo"));
}

#[test]
fn glob_matches_no_match_on_empty_parts() {
    assert!(glob_matches("/src/*.rs", "src/lib.rs"));
    assert!(!glob_matches("src/*.rs", "lib.rs"));
}

#[test]
fn is_local_artifact_matches_names() {
    let locals = strings(&["boite_core", "boite-core"]);
    assert!(is_local_artifact("boite_core-abcdef0123456789", &locals));
    assert!(is_local_artifact("boite-core-abcdef0123456789", &locals));
    assert!(is_local_artifact("libboite_core-abcdef0123456789", &locals));
    assert!(is_local_artifact("boite_core", &locals));
    assert!(is_local_artifact("boite-core", &locals));
    assert!(!is_local_artifact("registry_crate-abcdef0123456789", &locals));
    assert!(!is_local_artifact("some_dep", &locals));
}

#[test]
fn is_local_artifact_requires_sixteen_hex_suffix() {
    let locals = strings(&["mypkg"]);
    assert!(is_local_artifact("mypkg-abcdef0123456789", &locals));
    assert!(!is_local_artifact("mypkg-abcdef012345678", &locals));
    assert!(!is_local_artifact("mypkg-abcdef0123456789x", &locals));
    assert!(!is_local_artifact("mypkg-zzzzzzzzzzzzzzzz", &locals));
}

fn target(exclude: &[&str], cargo_workspace: bool) -> SharedDir {
    SharedDir {
        dir: "target".to_string(),
        mode: ShareMode::Hardlink,
        exclude: strings(exclude),
        cargo_workspace,
    }
}

#[test]
fn is_mutable_build_artifact_with_exclude() {
    let entry = target(&["**/app.tmp"], false);
    let locals: Vec<String> = Vec::new();
    assert!(is_mutable_build_artifact("debug/app.tmp", false, &entry, &locals));
    assert!(!is_mutable_build_artifact("debug/app.o", false, &entry, &locals));
    assert!(is_mutable_build_artifact("release/app.tmp", false, &entry, &locals));
    assert!(!is_mutable_build_artifact("debug/other.tmp", false, &entry, &locals));
}

#[test]
fn is_mutable_build_artifact_without_cargo_workspace() {
    let entry = target(&[], false);
    let locals: Vec<String> = Vec::new();
    assert!(!is_mutable_build_artifact("debug/app", false, &entry, &locals));
}

#[test]
fn is_mutable_build_artifact_cargo_lock_file() {
    let entry = target(&[], true);
    let locals: Vec<String> = Vec::new();
    assert!(is_mutable_build_artifact("debug/.cargo-abc123.lock", false, &entry, &locals));
    assert!(is_mutable_build_artifact("debug/.cargo-lock", false, &entry, &locals));
    assert!(!is_mutable_build_artifact("debug/sub/app.o", false, &entry, &locals));
}

#[test]
fn is_mutable_build_artifact_incremental_dir() {
    let entry = target(&[], true);
    let locals = strings(&["boite_core"]);
    assert!(is_mutable_build_artifact("incremental/foo", true, &entry, &locals));
}

#[test]
fn is_mutable_build_artifact_uplifted_artifact() {
    let entry = target(&[], true);
    let locals: Vec<String> = Vec::new();
    assert!(is_mutable_build_artifact("debug/app", false, &entry, &locals));
    assert!(is_mutable_build_artifact("release/app", false, &entry, &locals));
    assert!(!is_mutable_build_artifact("debug/deps", true, &entry, &locals));
}

#[test]
fn is_mutable_build_artifact_inside_deps_uses_locals() {
    let entry = target(&[], true);
    let locals = strings(&["boite_core"]);
    assert!(is_mutable_build_artifact("deps/boite_core-abcdef0123456789", false, &entry, &locals));
    assert!(!is_mutable_build_artifact(
        "deps/registry_crate-abcdef0123456789/sub.o",
        false,
        &entry,
        &locals
    ));
}

#[test]
fn a_declared_policy_decides_and_a_malformed_one_shares_nothing() {
    let mut js = no_manifests();
    js.package_json = true;
    let detected = artifact_policy(PolicyFile::Absent, &js);
    assert_eq!(detected.len(), 1);
    assert_eq!(detected[0].dir, "node_modules");

    let declared = ArtifactPolicy { shared: vec![link("vendor")] };
    let e = effective_artifact_policy(PolicyFile::Declared(declared), &js);
    assert!(e.declared);
    assert_eq!(e.shared.len(), 1);
    assert_eq!(e.shared[0].dir, "vendor");

    let broken = effective_artifact_policy(PolicyFile::Malformed, &js);
    assert!(broken.declared);
    assert!(broken.shared.is_empty());

    let nothing = effective_artifact_policy(PolicyFile::Absent, &no_manifests());
    assert!(!nothing.declared);
}

#[test]
fn a_policy_entry_that_is_not_a_plain_name_is_refused() {
    let nested = ArtifactPolicy { shared: vec![link("a/b")] };
    assert!(check_artifact_policy(&nested, false).is_err());
    let plain = ArtifactPolicy { shared: vec![link("node_modules")] };
    assert!(check_artifact_policy(&plain, false).is_ok());
}

#[test]
fn provisioning_takes_plain_names_and_unlinking_covers_declared_ones() {
    let policy = vec![link("node_modules"), link("../escape"), link("./here"), link("cache")];
    assert_eq!(provision_shared_artifacts(&policy, false), vec![0usize, 3]);
    assert!(provisionable("a/./b", false));
    assert!(!provisionable("a/../b", false));
    assert!(!provisionable("", false));

    let names = unlink_shared_artifacts(&policy);
    assert_eq!(
        names,
        strings(&["node_modules", "target", ".venv", "venv", "vendor", ".gradle", "bin", "obj", "cache"])
    );
}

#[test]
fn manifests_are_read_for_names_and_members() {
    let text = "[package]\nname = \"boite-core\"\n\n[workspace]\nmembers = [\n  \"crates/a\",\n  \"crates/b\",\n]\n";
    assert_eq!(manifest_value_exec(text, "package", "name"), Some("boite-core".to_string()));
    assert_eq!(workspace_members_exec(text), strings(&["crates/a", "crates/b"]));
    let mut names: Vec<String> = Vec::new();
    add_package_name(&mut names, "boite-core");
    assert!(names.contains(&"boite-core".to_string()));
    assert!(names.contains(&"boite_core".to_string()));
}

#[test]
fn a_drive_or_a_backslash_climb_is_never_provisioned_on_windows() {
    let policy = vec![link("C:"), link("..\\x"), link("\\share"), link("cache")];
    assert_eq!(provision_shared_artifacts(&policy, true), vec![3usize]);
    assert!(!provisionable("C:", true));
    assert!(!provisionable("c:x", true));
    assert!(!provisionable("..\\x", true));
    assert!(!provisionable("a\\..\\b", true));
    assert!(provisionable("a\\b", true));
    // Elsewhere a backslash is an ordinary character, as `Path::components` reads it.
    assert!(provisionable("..\\x", false));
}

#[test]
fn a_policy_naming_a_drive_is_refused_on_every_platform() {
    let drive = ArtifactPolicy { shared: vec![link("C:")] };
    let err = check_artifact_policy(&drive, false).unwrap_err();
    assert!(err.contains("not a directory"), "{err}");
    assert!(err.contains("no drive"), "{err}");
    let back = ArtifactPolicy { shared: vec![link("..\\x")] };
    assert!(check_artifact_policy(&back, false).unwrap_err().contains("not a directory"));
}

#[test]
fn a_glob_member_is_listed_from_the_directory_before_its_star() {
    assert_eq!(glob_member_parent("crates/*"), Some("crates".to_string()));
    assert_eq!(glob_member_parent("crates//*/sub"), Some("crates".to_string()));
    assert_eq!(glob_member_parent("*"), Some(String::new()));
    assert_eq!(glob_member_parent("tools/cli"), None);
}
