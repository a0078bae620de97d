//! End-to-end runs of the `show` workflow, driven event by event.

use cargo_rapp::cmd_show::Show;
use cargo_rapp::cmd_show::ShowEvent;
use cargo_rapp::cmd_show::ShowState;
use cargo_rapp::cmd_show::ShowStep;
use cargo_rapp::config::Config;
use cargo_rapp::config::Dependency;
use cargo_rapp::config::DependencyKind;
use cargo_rapp::config::Metadata;
use cargo_rapp::config::Package;
use cargo_rapp::config::Target;
use cargo_rapp::error::RappError;
use cargo_rapp::viewer::Viewer;

fn text(s: &str) -> Vec<char> {
    s.chars().collect()
}

fn string_of(t: &[char]) -> String {
    t.iter().collect()
}

fn lib_package(name: &str) -> Package {
    Package {
        name: text(name),
        targets: vec![Target { is_lib: true }],
        dependencies: vec![Dependency { name: text("rapp"), kind: DependencyKind::Normal }],
    }
}

fn workspace(packages: Vec<Package>) -> Metadata {
    Metadata {
        packages,
        workspace_members: vec![text("member 0.1.0 (path+file:///ws/member)")],
        target_directory: text("/ws/target"),
    }
}

const CACHE: &str = "/ws/target/debug/build/rapp_runner";

fn cached_config(rebuild: bool) -> Vec<char> {
    Config {
        name: text("foo"),
        target_dir: text(CACHE),
        scratch_dir: text(CACHE),
        app_dir: text("/ws"),
        use_relative_paths: false,
        rebuild,
    }
    .encode()
}

fn cached_viewer() -> Vec<char> {
    Viewer {
        bin: Some(text("/ws/target/debug/build/rapp_runner/target/debug/rapp_runner")),
        cache_dir: text(CACHE),
        target_dir: text(CACHE),
        use_relative_paths: false,
    }
    .encode()
}

/// Scenario: a fresh workspace with one qualifying library is discovered,
/// generated, built and launched.
#[test]
fn fresh_workspace_discovers_generates_builds_and_launches() {
    let show = Show { rebuild: None, use_relative_paths: None };
    let (st, step) = show.run(ShowState::Idle, ShowEvent::Start { cwd: text("/ws") });
    match &step {
        ShowStep::EnsureDirs { dirs } => {
            let dirs: Vec<String> = dirs.iter().map(|d| string_of(d)).collect();
            assert_eq!(
                dirs,
                vec![
                    "/ws/target".to_string(),
                    "/ws/target/debug".to_string(),
                    "/ws/target/debug/build".to_string(),
                    "/ws/target/debug/build/rapp_runner".to_string(),
                ]
            );
        }
        other => panic!("expected EnsureDirs, got {:?}", other),
    }
    let (st, step) = show.run(st, ShowEvent::DirsEnsured { ok: true });
    match &step {
        ShowStep::ReadFile { path } => assert_eq!(string_of(path), format!("{}/config", CACHE)),
        other => panic!("expected ReadFile, got {:?}", other),
    }
    let (st, step) = show.run(st, ShowEvent::FileRead { content: None });
    match &step {
        ShowStep::QueryMetadata { dir } => assert_eq!(string_of(dir), "/ws"),
        other => panic!("expected QueryMetadata, got {:?}", other),
    }
    let meta = workspace(vec![lib_package("foo")]);
    let (st, step) = show.run(st, ShowEvent::MetadataLoaded { meta });
    match &step {
        ShowStep::EnsureDirs { dirs } => {
            assert_eq!(dirs.len(), 4);
            assert_eq!(string_of(&dirs[0]), "/ws/target");
            assert_eq!(string_of(&dirs[3]), CACHE);
        }
        other => panic!("expected EnsureDirs, got {:?}", other),
    }
    let (st, step) = show.run(st, ShowEvent::DirsEnsured { ok: true });
    match &step {
        ShowStep::WriteFiles { files } => {
            assert_eq!(files.len(), 1);
            assert_eq!(string_of(&files[0].path), format!("{}/config", CACHE));
            let content = string_of(&files[0].content);
            assert!(content.contains("name:\"foo\""));
        }
        other => panic!("expected WriteFiles, got {:?}", other),
    }
    let (st, step) = show.run(st, ShowEvent::FilesWritten { ok: true });
    match &step {
        ShowStep::ReadFile { path } => assert_eq!(string_of(path), format!("{}/viewer", CACHE)),
        other => panic!("expected ReadFile, got {:?}", other),
    }
    let (st, step) = show.run(st, ShowEvent::FileRead { content: None });
    match &step {
        ShowStep::EnsureDirs { dirs } => {
            assert_eq!(dirs.len(), 1);
            assert_eq!(string_of(&dirs[0]), format!("{}/src", CACHE));
        }
        other => panic!("expected EnsureDirs, got {:?}", other),
    }
    let (st, step) = show.run(st, ShowEvent::DirsEnsured { ok: true });
    match &step {
        ShowStep::WriteFiles { files } => {
            assert_eq!(files.len(), 3);
            assert_eq!(string_of(&files[0].path), format!("{}/Cargo.toml", CACHE));
            let manifest = string_of(&files[0].content);
            // every placeholder is substituted, exactly once, and none is left
            assert!(manifest.contains("package = \"foo\""));
            assert!(manifest.contains("path = \"/ws\""));
            assert!(!manifest.contains("${"));
            assert!(!manifest.contains('$'));
            assert_eq!(string_of(&files[1].path), format!("{}/build.sh", CACHE));
            assert_eq!(
                string_of(&files[1].content),
                format!("cd \"{}\"\ncargo build", CACHE)
            );
            assert_eq!(string_of(&files[2].path), format!("{}/src/main.rs", CACHE));
            assert!(string_of(&files[2].content).contains("fn main()"));
        }
        other => panic!("expected WriteFiles, got {:?}", other),
    }
    let (st, step) = show.run(st, ShowEvent::FilesWritten { ok: true });
    let bin = format!("{}/target/debug/rapp_runner", CACHE);
    match &step {
        ShowStep::RemoveIfPresent { path } => assert_eq!(string_of(path), bin),
        other => panic!("expected RemoveIfPresent, got {:?}", other),
    }
    let (st, step) = show.run(st, ShowEvent::Removed { ok: true });
    match &step {
        ShowStep::CheckExists { path } => {
            assert_eq!(string_of(path), format!("{}/build.sh", CACHE))
        }
        other => panic!("expected CheckExists, got {:?}", other),
    }
    let (st, step) = show.run(st, ShowEvent::Exists { yes: true });
    match &step {
        ShowStep::MakeExecutable { path } => {
            assert_eq!(string_of(path), format!("{}/build.sh", CACHE))
        }
        other => panic!("expected MakeExecutable, got {:?}", other),
    }
    let (st, step) = show.run(st, ShowEvent::MadeExecutable { ok: true });
    match &step {
        ShowStep::RunProcess { path } => {
            assert_eq!(string_of(path), format!("{}/build.sh", CACHE))
        }
        other => panic!("expected RunProcess, got {:?}", other),
    }
    let (st, step) = show.run(st, ShowEvent::ProcessDone { success: true });
    match &step {
        ShowStep::CheckExists { path } => assert_eq!(string_of(path), bin),
        other => panic!("expected CheckExists, got {:?}", other),
    }
    let (st, step) = show.run(st, ShowEvent::Exists { yes: true });
    match &step {
        ShowStep::WriteFiles { files } => {
            assert_eq!(files.len(), 1);
            assert_eq!(string_of(&files[0].path), format!("{}/viewer", CACHE));
            assert!(string_of(&files[0].content).contains("bin:Some("));
        }
        other => panic!("expected WriteFiles, got {:?}", other),
    }
    let (st, step) = show.run(st, ShowEvent::FilesWritten { ok: true });
    match &step {
        ShowStep::CheckExists { path } => assert_eq!(string_of(path), bin),
        other => panic!("expected CheckExists, got {:?}", other),
    }
    let (st, step) = show.run(st, ShowEvent::Exists { yes: true });
    match &step {
        ShowStep::RunProcess { path } => assert_eq!(string_of(path), bin),
        other => panic!("expected RunProcess, got {:?}", other),
    }
    let (st, step) = show.run(st, ShowEvent::ProcessDone { success: true });
    assert!(matches!(step, ShowStep::Finish));
    assert!(matches!(st, ShowState::Done));
}

/// Scenario: a second invocation with nothing changed reuses both cached
/// records and launches without any regeneration or build.
#[test]
fn unchanged_workspace_reuses_cache_and_relaunches() {
    let show = Show { rebuild: Some(false), use_relative_paths: None };
    let (st, _) = show.run(ShowState::Idle, ShowEvent::Start { cwd: text("/ws") });
    let (st, step) = show.run(st, ShowEvent::DirsEnsured { ok: true });
    assert!(matches!(step, ShowStep::ReadFile { .. }));
    // the cached configuration is reused: no metadata query follows
    let (st, step) = show.run(st, ShowEvent::FileRead { content: Some(cached_config(false)) });
    match &step {
        ShowStep::ReadFile { path } => assert_eq!(string_of(path), format!("{}/viewer", CACHE)),
        other => panic!("expected ReadFile, got {:?}", other),
    }
    // the cached viewer is reused: the binary is re-validated and launched
    let (st, step) = show.run(st, ShowEvent::FileRead { content: Some(cached_viewer()) });
    let bin = format!("{}/target/debug/rapp_runner", CACHE);
    match &step {
        ShowStep::CheckExists { path } => assert_eq!(string_of(path), bin),
        other => panic!("expected CheckExists, got {:?}", other),
    }
    let (st, step) = show.run(st, ShowEvent::Exists { yes: true });
    match &step {
        ShowStep::RunProcess { path } => assert_eq!(string_of(path), bin),
        other => panic!("expected RunProcess, got {:?}", other),
    }
    let (st, step) = show.run(st, ShowEvent::ProcessDone { success: true });
    assert!(matches!(step, ShowStep::Finish));
    assert!(matches!(st, ShowState::Done));
}

/// The rebuild flag forces rediscovery even though a valid cache exists.
#[test]
fn rebuild_flag_forces_rediscovery_despite_valid_cache() {
    let show = Show { rebuild: Some(true), use_relative_paths: None };
    let (st, _) = show.run(ShowState::Idle, ShowEvent::Start { cwd: text("/ws") });
    let (st, step) = show.run(st, ShowEvent::DirsEnsured { ok: true });
    assert!(matches!(step, ShowStep::ReadFile { .. }));
    let (_, step) = show.run(st, ShowEvent::FileRead { content: Some(cached_config(false)) });
    match &step {
        ShowStep::QueryMetadata { dir } => assert_eq!(string_of(dir), "/ws"),
        other => panic!("expected QueryMetadata, got {:?}", other),
    }
}

/// Scenario: the artifact disappeared between build and launch; the launch
/// fails with a missing-artifact error instead of crashing.
#[test]
fn externally_deleted_artifact_fails_the_launch() {
    let show = Show { rebuild: None, use_relative_paths: None };
    let (st, _) = show.run(ShowState::Idle, ShowEvent::Start { cwd: text("/ws") });
    let (st, _) = show.run(st, ShowEvent::DirsEnsured { ok: true });
    let (st, _) = show.run(st, ShowEvent::FileRead { content: Some(cached_config(false)) });
    let (st, step) = show.run(st, ShowEvent::FileRead { content: Some(cached_viewer()) });
    assert!(matches!(step, ShowStep::CheckExists { .. }));
    let (st, step) = show.run(st, ShowEvent::Exists { yes: false });
    match &step {
        ShowStep::Fail { error } => match error {
            RappError::Other(m) => {
                let m = string_of(m);
                assert!(m.starts_with("Viewer binary not found at "), "{}", m);
            }
            other => panic!("expected Other, got {:?}", other),
        },
        other => panic!("expected Fail, got {:?}", other),
    }
    assert!(matches!(st, ShowState::Failed));
}

/// A cached viewer that never recorded a binary cannot be launched.
#[test]
fn a_viewer_without_binary_fails_as_not_built() {
    let show = Show { rebuild: None, use_relative_paths: None };
    let (st, _) = show.run(ShowState::Idle, ShowEvent::Start { cwd: text("/ws") });
    let (st, _) = show.run(st, ShowEvent::DirsEnsured { ok: true });
    let (st, _) = show.run(st, ShowEvent::FileRead { content: Some(cached_config(false)) });
    let never_built = Viewer {
        bin: None,
        cache_dir: text(CACHE),
        target_dir: text(CACHE),
        use_relative_paths: false,
    }
    .encode();
    let (st, step) = show.run(st, ShowEvent::FileRead { content: Some(never_built) });
    match &step {
        ShowStep::Fail { error } => match error {
            RappError::Other(m) => {
                assert_eq!(string_of(m), "Viewer has not yet been build")
            }
            other => panic!("expected Other, got {:?}", other),
        },
        other => panic!("expected Fail, got {:?}", other),
    }
    assert!(matches!(st, ShowState::Failed));
}

/// Scenario: two qualifying libraries make discovery fail with their names,
/// sorted, and nothing is written.
#[test]
fn two_qualifying_libraries_fail_with_sorted_names() {
    let show = Show { rebuild: None, use_relative_paths: None };
    let (st, _) = show.run(ShowState::Idle, ShowEvent::Start { cwd: text("/ws") });
    let (st, _) = show.run(st, ShowEvent::DirsEnsured { ok: true });
    let (st, step) = show.run(st, ShowEvent::FileRead { content: None });
    assert!(matches!(step, ShowStep::QueryMetadata { .. }));
    let meta = workspace(vec![lib_package("foo"), lib_package("bar")]);
    let (st, step) = show.run(st, ShowEvent::MetadataLoaded { meta });
    match &step {
        ShowStep::Fail { error } => match error {
            RappError::MultipleRappCratesFound(names) => {
                let names: Vec<String> = names.iter().map(|n| string_of(n)).collect();
                assert_eq!(names, vec!["bar".to_string(), "foo".to_string()]);
            }
            other => panic!("expected MultipleRappCratesFound, got {:?}", other),
        },
        other => panic!("expected Fail, got {:?}", other),
    }
    assert!(matches!(st, ShowState::Failed));
}

/// A missing build script is a fatal build error.
#[test]
fn a_missing_build_script_fails_the_build() {
    let show = Show { rebuild: None, use_relative_paths: None };
    let (st, _) = show.run(ShowState::Idle, ShowEvent::Start { cwd: text("/ws") });
    let (st, _) = show.run(st, ShowEvent::DirsEnsured { ok: true });
    let (st, _) = show.run(st, ShowEvent::FileRead { content: None });
    let meta = workspace(vec![lib_package("foo")]);
    let (st, _) = show.run(st, ShowEvent::MetadataLoaded { meta });
    let (st, _) = show.run(st, ShowEvent::DirsEnsured { ok: true });
    let (st, _) = show.run(st, ShowEvent::FilesWritten { ok: true });
    let (st, _) = show.run(st, ShowEvent::FileRead { content: None });
    let (st, _) = show.run(st, ShowEvent::DirsEnsured { ok: true });
    let (st, _) = show.run(st, ShowEvent::FilesWritten { ok: true });
    let (st, _) = show.run(st, ShowEvent::Removed { ok: true });
    let (st, step) = show.run(st, ShowEvent::Exists { yes: false });
    match &step {
        ShowStep::Fail { error } => match error {
            RappError::Other(m) => {
                let m = string_of(m);
                assert!(m.starts_with("File not found: "), "{}", m);
                assert!(m.ends_with("/build.sh"), "{}", m);
            }
            other => panic!("expected Other, got {:?}", other),
        },
        other => panic!("expected Fail, got {:?}", other),
    }
    assert!(matches!(st, ShowState::Failed));
}

/// A build whose artifact never appears fails, whatever the build command's
/// exit status said.
#[test]
fn a_build_without_artifact_fails() {
    let show = Show { rebuild: None, use_relative_paths: None };
    let (st, _) = show.run(ShowState::Idle, ShowEvent::Start { cwd: text("/ws") });
    let (st, _) = show.run(st, ShowEvent::DirsEnsured { ok: true });
    let (st, _) = show.run(st, ShowEvent::FileRead { content: None });
    let meta = workspace(vec![lib_package("foo")]);
    let (st, _) = show.run(st, ShowEvent::MetadataLoaded { meta });
    let (st, _) = show.run(st, ShowEvent::DirsEnsured { ok: true });
    let (st, _) = show.run(st, ShowEvent::FilesWritten { ok: true });
    let (st, _) = show.run(st, ShowEvent::FileRead { content: None });
    let (st, _) = show.run(st, ShowEvent::DirsEnsured { ok: true });
    let (st, _) = show.run(st, ShowEvent::FilesWritten { ok: true });
    let (st, _) = show.run(st, ShowEvent::Removed { ok: true });
    let (st, _) = show.run(st, ShowEvent::Exists { yes: true });
    let (st, _) = show.run(st, ShowEvent::MadeExecutable { ok: true });
    // the build command reports success, but no artifact appears
    let (st, step) = show.run(st, ShowEvent::ProcessDone { success: true });
    assert!(matches!(step, ShowStep::CheckExists { .. }));
    let (st, step) = show.run(st, ShowEvent::Exists { yes: false });
    match &step {
        ShowStep::Fail { error } => match error {
            RappError::Other(m) => {
                let m = string_of(m);
                assert!(m.starts_with("Build did not generate a binary at "), "{}", m);
            }
            other => panic!("expected Other, got {:?}", other),
        },
        other => panic!("expected Fail, got {:?}", other),
    }
    assert!(matches!(st, ShowState::Failed));
}

/// The relative-paths flag selects the other manifest template.
#[test]
fn the_relative_paths_flag_selects_the_other_template() {
    let show = Show { rebuild: None, use_relative_paths: Some(true) };
    let (st, _) = show.run(ShowState::Idle, ShowEvent::Start { cwd: text("/ws") });
    let (st, _) = show.run(st, ShowEvent::DirsEnsured { ok: true });
    let (st, _) = show.run(st, ShowEvent::FileRead { content: None });
    let meta = workspace(vec![lib_package("foo")]);
    let (st, _) = show.run(st, ShowEvent::MetadataLoaded { meta });
    let (st, _) = show.run(st, ShowEvent::DirsEnsured { ok: true });
    let (st, _) = show.run(st, ShowEvent::FilesWritten { ok: true });
    let (st, _) = show.run(st, ShowEvent::FileRead { content: None });
    let (st, step) = show.run(st, ShowEvent::DirsEnsured { ok: true });
    match &step {
        ShowStep::WriteFiles { files } => {
            let manifest = string_of(&files[0].content);
            assert!(manifest.contains("rapp = { path ="), "{}", manifest);
            assert!(!manifest.contains("${"));
        }
        other => panic!("expected WriteFiles, got {:?}", other),
    }
    let _ = st;
}
