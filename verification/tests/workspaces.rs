use workspace_resolver::errors::ConfigError;
use workspace_resolver::package_manager::{PackageManager, WalkDecision};

const BASIC_PACKAGE_JSON: &str = "{\"workspaces\": [\"apps/*\", \"packages/*\"]}";
const BASIC_PNPM_YAML: &str = "packages:\n  - \"apps/*\"\n  - \"packages/*\"\n";

#[test]
fn test_get_workspace_globs() {
    let package_manager = PackageManager::Npm;
    let globs = package_manager
        .get_workspace_globs(Some(BASIC_PACKAGE_JSON))
        .unwrap();

    assert_eq!(
        globs,
        vec!["apps/*".to_string(), "packages/*".to_string()]
    );
}

#[test]
fn test_get_workspace_ignores() {
    let package_manager = PackageManager::Npm;
    let globs = package_manager
        .get_workspace_ignores(Some(BASIC_PACKAGE_JSON))
        .unwrap();

    assert_eq!(globs.is_match("node_modules/foo"), true);
    assert_eq!(globs.is_match("bar.js"), false);
}

#[test]
fn test_get_workspaces() {
    let package_manager = PackageManager::Npm;
    let plan = package_manager
        .plan_workspaces("/repo", Some(BASIC_PACKAGE_JSON))
        .unwrap();

    // The walk emits a file only when its name is package.json under a
    // declared workspace glob.
    assert_eq!(
        plan.classify("/repo/apps/web/package.json", false),
        WalkDecision::EmitManifest
    );
    assert_eq!(
        plan.classify("/repo/packages/ui/package.json", false),
        WalkDecision::EmitManifest
    );
    assert_eq!(plan.classify("/repo/apps/web/index.js", false), WalkDecision::Skip);
    assert_eq!(plan.classify("/repo/package.json", false), WalkDecision::Skip);
}

#[test]
fn pnpm_reads_yaml_packages() {
    let globs = PackageManager::Pnpm
        .get_workspace_globs(Some(BASIC_PNPM_YAML))
        .unwrap();
    assert_eq!(globs, vec!["apps/*".to_string(), "packages/*".to_string()]);

    let globs6 = PackageManager::Pnpm6
        .get_workspace_globs(Some(BASIC_PNPM_YAML))
        .unwrap();
    assert_eq!(globs6, vec!["apps/*".to_string(), "packages/*".to_string()]);
}

#[test]
fn resolution_is_deterministic() {
    for pm in [
        PackageManager::Berry,
        PackageManager::Npm,
        PackageManager::Yarn,
    ] {
        let first = pm.get_workspace_globs(Some(BASIC_PACKAGE_JSON));
        let second = pm.get_workspace_globs(Some(BASIC_PACKAGE_JSON));
        assert_eq!(first, second);
    }
    let first = PackageManager::Pnpm.get_workspace_globs(Some(BASIC_PNPM_YAML));
    let second = PackageManager::Pnpm.get_workspace_globs(Some(BASIC_PNPM_YAML));
    assert_eq!(first, second);
}

#[test]
fn empty_declaration_is_an_error() {
    let err = PackageManager::Npm
        .get_workspace_globs(Some("{\"workspaces\": []}"))
        .unwrap_err();
    assert_eq!(err, ConfigError::EmptyWorkspaceDeclaration);

    let err = PackageManager::Pnpm
        .get_workspace_globs(Some("packages: []\n"))
        .unwrap_err();
    assert_eq!(err, ConfigError::EmptyWorkspaceDeclaration);
}

#[test]
fn malformed_is_distinct_from_missing() {
    let malformed = PackageManager::Npm
        .get_workspace_globs(Some("{not json"))
        .unwrap_err();
    assert_eq!(malformed, ConfigError::MalformedDocument);

    let wrong_shape = PackageManager::Npm
        .get_workspace_globs(Some("{\"workspaces\": \"apps/*\"}"))
        .unwrap_err();
    assert_eq!(wrong_shape, ConfigError::MalformedDocument);

    let missing_key = PackageManager::Pnpm
        .get_workspace_globs(Some("other: 1\n"))
        .unwrap_err();
    assert_eq!(missing_key, ConfigError::MalformedDocument);

    let malformed_yaml = PackageManager::Pnpm
        .get_workspace_globs(Some("packages: [\"apps/*\""))
        .unwrap_err();
    assert_eq!(malformed_yaml, ConfigError::MalformedDocument);

    let missing = PackageManager::Npm.get_workspace_globs(None).unwrap_err();
    assert_eq!(missing, ConfigError::MissingFile);
    assert_ne!(malformed, missing);
}

#[test]
fn npm_and_pnpm_ignore_node_modules_at_any_depth() {
    let npm = PackageManager::Npm
        .get_workspace_ignores(Some(BASIC_PACKAGE_JSON))
        .unwrap();
    assert!(npm.is_match("a/b/node_modules/c"));
    assert!(npm.is_match("node_modules/foo"));
    assert!(!npm.is_match("a/b/src/c.js"));

    let pnpm = PackageManager::Pnpm
        .get_workspace_ignores(Some(BASIC_PNPM_YAML))
        .unwrap();
    assert!(pnpm.is_match("a/b/node_modules/c"));
    assert!(pnpm.is_match("a/bower_components/c"));
    assert!(!pnpm.is_match("a/b/src/c.js"));
}

#[test]
fn berry_ignores_the_directory_itself() {
    let berry = PackageManager::Berry
        .get_workspace_ignores(Some(BASIC_PACKAGE_JSON))
        .unwrap();
    assert!(berry.is_match("a/b/node_modules"));
    assert!(berry.is_match("a/.git"));
    assert!(berry.is_match(".yarn"));
    assert!(!berry.is_match("a/b/node_modules/c"));
}

#[test]
fn yarn_ignores_are_scoped_to_declared_globs() {
    let yarn = PackageManager::Yarn
        .get_workspace_ignores(Some(BASIC_PACKAGE_JSON))
        .unwrap();
    assert!(yarn.is_match("apps/web/node_modules/left-pad"));
    assert!(yarn.is_match("packages/ui/node_modules/x/y"));
    assert!(!yarn.is_match("other/node_modules/left-pad"));
    assert!(!yarn.is_match("node_modules/left-pad"));
}

#[test]
fn bad_glob_fails_compilation() {
    let err = PackageManager::Yarn
        .get_workspace_ignores(Some("{\"workspaces\": [\"apps/[\"]}"))
        .unwrap_err();
    assert_eq!(err, ConfigError::GlobCompilationError);

    let err = PackageManager::Npm
        .plan_workspaces("/repo", Some("{\"workspaces\": [\"apps/[\"]}"))
        .unwrap_err();
    assert_eq!(err, ConfigError::GlobCompilationError);
}

#[test]
fn plan_prunes_ignored_directories() {
    let plan = PackageManager::Npm
        .plan_workspaces("/repo", Some(BASIC_PACKAGE_JSON))
        .unwrap();

    assert_eq!(plan.classify("/repo/apps", true), WalkDecision::Descend);
    assert_eq!(
        plan.classify("/repo/apps/web/node_modules/dep", true),
        WalkDecision::Prune
    );
    // A manifest beneath an ignored tree is never emitted.
    assert_eq!(
        plan.classify("/repo/apps/web/node_modules/dep/package.json", false),
        WalkDecision::Skip
    );
}

#[test]
fn declaration_file_follows_the_manager() {
    assert_eq!(
        PackageManager::Pnpm.workspace_declaration_file(),
        "pnpm-workspace.yaml"
    );
    assert_eq!(
        PackageManager::Pnpm6.workspace_declaration_file(),
        "pnpm-workspace.yaml"
    );
    assert_eq!(PackageManager::Npm.workspace_declaration_file(), "package.json");
    assert_eq!(PackageManager::Yarn.workspace_declaration_file(), "package.json");
    assert_eq!(PackageManager::Berry.workspace_declaration_file(), "package.json");
}

#[test]
fn error_descriptions_name_the_failure() {
    assert_eq!(
        ConfigError::EmptyWorkspaceDeclaration.describe(),
        "workspace declaration lists no packages"
    );
    assert_eq!(
        ConfigError::MissingFile.describe(),
        "workspace declaration file is missing or unreadable"
    );
}
